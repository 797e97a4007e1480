//! The REST layer's request shapes, response envelope, request checks and
//! API-key authentication.

pub mod auth;
pub mod handlers;
pub mod models;
