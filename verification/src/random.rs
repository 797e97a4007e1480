//! Randomness drawn from `rand`'s thread-local generator.

use vstd::prelude::*;

verus! {

/// `rand::random::<u32>()`: a uniformly random 32-bit value; nothing is promised
/// of which one.
#[verifier::external_body]
pub(crate) fn random_u32() -> u32 {
    rand::random::<u32>()
}

/// `rand::random::<u64>()`: a uniformly random 64-bit value; nothing is promised
/// of which one.
#[verifier::external_body]
pub(crate) fn random_u64() -> u64 {
    rand::random::<u64>()
}

/// `rand::fill` on six bytes: each byte is random; nothing is promised of their values.
#[verifier::external_body]
pub(crate) fn random_six_bytes() -> [u8; 6] {
    let mut bytes = [0u8; 6];
    rand::fill(&mut bytes);
    bytes
}

/// `rand::random_range(0..n)`: some index below `n`. The range must not be
/// empty, which `random_range` asserts.
#[verifier::external_body]
pub(crate) fn random_below(n: usize) -> (r: usize)
    requires
        n > 0,
    ensures
        r < n,
{
    rand::random_range(0..n)
}

} // verus!
