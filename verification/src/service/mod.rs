//! Decisions of the authentication service: input validation, MAC and
//! temporary-interface naming, credential-file checks, batch planning and the
//! results reported to clients.

pub mod batch;
pub mod checks;
pub mod flows;
pub mod interfaces;
pub mod mac;
pub mod model;
pub mod session;
pub mod users;
