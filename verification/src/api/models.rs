//! Request bodies and the response envelope of the REST API.

use vstd::prelude::*;
use crate::error::{code_of, field_of, public_message_of, SrunError};

verus! {

/// Body of a local login: the interface, and either manual credentials or a
/// credentials file on the server.
#[derive(Debug)]
pub struct LocalLoginRequest {
    pub interface: String,
    pub username: Option<String>,
    pub password: Option<String>,
    pub userinfo_path: Option<String>,
}

/// Body of a local logout.
#[derive(Debug)]
pub struct LocalLogoutRequest {
    pub interface: String,
}

/// Body of a login through a temporary interface with a chosen MAC.
#[derive(Debug)]
pub struct MacvlanLoginRequest {
    pub parent_interface: String,
    pub mac_address: String,
    pub username: Option<String>,
    pub password: Option<String>,
    pub userinfo_path: Option<String>,
}

/// Body of a logout through a temporary interface with a chosen MAC.
#[derive(Debug)]
pub struct MacvlanLogoutRequest {
    pub parent_interface: String,
    pub mac_address: String,
}

/// Body of a batch login with random MACs.
#[derive(Debug)]
pub struct RandomLoginRequest {
    pub parent_interface: String,
    pub count: u32,
    pub userinfo_path: Option<String>,
}

/// Query of a local status request.
#[derive(Debug)]
pub struct StatusQuery {
    pub interface: String,
}

/// Body of a status request through a temporary interface with a chosen MAC.
#[derive(Debug)]
pub struct MacvlanStatusRequest {
    pub parent_interface: String,
    pub mac_address: String,
}

/// A structured error: stable code, message, and the input field concerned.
#[derive(Debug)]
pub struct ApiErrorBody {
    pub code: &'static str,
    pub message: String,
    pub field: Option<&'static str>,
}

impl ApiErrorBody {
    /// An error body that concerns no particular field.
    pub fn new(code: &'static str, message: String) -> (r: Self)
        ensures
            r.code == code,
            r.message == message,
            r.field is None,
    {
        ApiErrorBody { code, message, field: None }
    }
}

/// The envelope of every response: success, and data or an error.
#[derive(Debug)]
pub struct ApiResponse<T> {
    pub success: bool,
    pub data: Option<T>,
    pub error: Option<ApiErrorBody>,
}

impl<T> ApiResponse<T> {
    /// A success carrying `data`.
    pub fn ok(data: T) -> (r: Self)
        ensures
            r.success,
            r.data == Some(data),
            r.error is None,
    {
        ApiResponse { success: true, data: Some(data), error: None }
    }
}

impl ApiResponse<()> {
    /// A success without data.
    pub fn ok_empty() -> (r: Self)
        ensures
            r.success,
            r.data is None,
            r.error is None,
    {
        ApiResponse { success: true, data: None, error: None }
    }

    /// The failure that reports `error`: its code, public message and field.
    pub fn err(error: &SrunError) -> (r: Self)
        ensures
            !r.success,
            r.data is None,
            r.error matches Some(b) && b.code@ == code_of(*error) && b.message@ == public_message_of(*error)
                && match b.field {
                Some(f) => field_of(*error) == Some(f@),
                None => field_of(*error) is None,
            },
    {
        ApiResponse {
            success: false,
            data: None,
            error: Some(
                ApiErrorBody { code: error.code(), message: error.public_message(), field: error.field() },
            ),
        }
    }

    /// A failure with the given body.
    pub fn err_body(error: ApiErrorBody) -> (r: Self)
        ensures
            !r.success,
            r.data is None,
            r.error == Some(error),
    {
        ApiResponse { success: false, data: None, error: Some(error) }
    }
}

/// A network interface as listed to clients.
#[derive(Debug)]
pub struct InterfaceInfo {
    pub index: u32,
    pub name: String,
}

} // verus!
