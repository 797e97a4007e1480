//! The Srun portal protocol: request parameters, response interpretation and
//! the encodings the portal expects.

pub mod base64;
pub mod portal;

pub use portal::{SrunClient, UserInfo};
