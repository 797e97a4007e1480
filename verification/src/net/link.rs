//! A network interface as the kernel lists it.

use vstd::prelude::*;

verus! {

/// A network interface: its kernel index and its name.
#[derive(Debug, Clone)]
pub struct Link {
    pub index: u32,
    pub name: String,
}

} // verus!
