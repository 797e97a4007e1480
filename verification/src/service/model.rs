//! Values that service operations return and consume.

use vstd::prelude::*;
use crate::error::{code_of, public_message_of, SrunError};

verus! {

/// One set of portal credentials.
#[derive(Clone)]
pub struct User {
    pub username: String,
    pub password: String,
}

/// A successful login: the address the portal saw, the account, and the MAC
/// of the temporary interface when one was used.
#[derive(Debug, Clone)]
pub struct LoginResult {
    pub ip: u32,
    pub username: String,
    pub mac: Option<String>,
}

/// What the portal reports for an address.
#[derive(Debug, Clone)]
pub struct StatusResult {
    pub ip: u32,
    pub online_user: Option<String>,
    pub online_mac: Option<String>,
}

/// Why one attempt of a batch failed: the error's code and public message.
#[derive(Debug, Clone)]
pub struct AttemptError {
    pub code: &'static str,
    pub message: String,
}

/// The outcome of one attempt of a batch login.
#[derive(Debug, Clone)]
pub struct RandomLoginResult {
    pub mac: String,
    pub success: bool,
    pub data: Option<LoginResult>,
    pub error: Option<AttemptError>,
}

/// The summary of a batch login.
#[derive(Debug, Clone)]
pub struct RandomLoginBatchResult {
    pub requested: u32,
    pub attempted: u32,
    pub succeeded: u32,
    pub failed: u32,
    pub stopped_reason: Option<String>,
    pub results: Vec<RandomLoginResult>,
}

impl RandomLoginResult {
    /// The record of one attempt: its data on success, else its error's code
    /// and public message.
    pub fn from_result(mac: String, result: Result<LoginResult, SrunError>) -> (r: Self)
        ensures
            r.mac == mac,
            r.success == (result is Ok),
            match result {
                Ok(data) => r.data == Some(data) && r.error is None,
                Err(e) => r.data is None && (r.error matches Some(ae) && (ae.code@ == code_of(e)
                    && ae.message@ == public_message_of(e))),
            },
    {
        match result {
            Ok(data) => RandomLoginResult { mac, success: true, data: Some(data), error: None },
            Err(error) => {
                let code = error.code();
                let message = error.public_message();
                RandomLoginResult {
                    mac,
                    success: false,
                    data: None,
                    error: Some(AttemptError { code, message }),
                }
            },
        }
    }
}

} // verus!
