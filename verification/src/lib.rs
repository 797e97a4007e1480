//! Verified core of a Srun campus-network authentication client: portal
//! request encoding, credential and configuration validation, MAC address
//! handling, DHCP lease decisions and packet framing.

mod text;
pub mod config;
pub mod error;
mod random;
pub mod service;
pub mod srun;
pub mod net;
pub mod api;
