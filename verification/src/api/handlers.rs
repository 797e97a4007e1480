//! The checks each REST endpoint applies to its input before calling the
//! service, and the bodies of the fixed error responses.

use vstd::prelude::*;
use vstd::string::StringExecFns;
use crate::api::models::{
    ApiErrorBody, ApiResponse, LocalLoginRequest, LocalLogoutRequest, MacvlanLoginRequest,
    MacvlanLogoutRequest, MacvlanStatusRequest, RandomLoginRequest, StatusQuery,
};
use crate::error::{code_of, field_of, public_message_of, status_of, SrunError};
use crate::service::mac::{mac_parse, parse_mac};
use crate::text::{blank, is_blank, opt_string, owned};

verus! {

/// Checks that a required field is not blank.
pub fn validate_required(value: &str, field: &'static str) -> (r: Result<(), SrunError>)
    ensures
        !is_blank(value@) ==> r is Ok,
        is_blank(value@) ==> (r matches Err(SrunError::Validation { field: f, message }) && f == field
            && message@ == field@ + " is required."@),
{
    if blank(value) {
        let mut message = String::from_str(field);
        message.append(" is required.");
        return Err(SrunError::Validation { field, message });
    }
    Ok(())
}

/// Checks that a credentials path, when given, is not blank.
pub fn validate_optional_path(path: Option<&str>) -> (r: Result<(), SrunError>)
    ensures
        match path {
            Some(p) if is_blank(p@) => r matches Err(SrunError::Validation { field, message })
                && field@ == "userinfo_path"@ && message@ == "userinfo_path cannot be empty when provided."@,
            _ => r is Ok,
        },
{
    match path {
        Some(p) => if blank(p) {
            Err(
                SrunError::Validation {
                    field: "userinfo_path",
                    message: owned("userinfo_path cannot be empty when provided."),
                },
            )
        } else {
            Ok(())
        },
        None => Ok(()),
    }
}

/// Why manual credentials are refused, if they are: a username and password
/// must come together, the username not blank and the password not empty.
pub open spec fn credentials_pair_problem(username: Option<Seq<char>>, password: Option<Seq<char>>) -> Option<(Seq<char>, Seq<char>)> {
    match (username, password) {
        (None, None) => None,
        (Some(u), Some(p)) => if is_blank(u) {
            Some(("username"@, "username is required."@))
        } else if p.len() == 0 {
            Some(("password"@, "password is required."@))
        } else {
            None
        },
        _ => Some(("credentials"@, "username and password must be provided together."@)),
    }
}

/// The manual credentials of a request, if it gives them.
pub fn credentials<'a>(username: &'a Option<String>, password: &'a Option<String>) -> (r: Result<Option<(&'a str, &'a str)>, SrunError>)
    ensures
        match credentials_pair_problem(opt_string(*username), opt_string(*password)) {
            Some((f, m)) => r matches Err(SrunError::Validation { field, message }) && field@ == f && message@ == m,
            None => match (*username, *password) {
                (Some(u), Some(p)) => r matches Ok(Some((a, b))) && a@ == u@ && b@ == p@,
                _ => r matches Ok(None),
            },
        },
{
    match (username, password) {
        (None, None) => Ok(None),
        (Some(u), Some(p)) => {
            if blank(u.as_str()) {
                return Err(
                    SrunError::Validation { field: "username", message: owned("username is required.") },
                );
            }
            if p.as_str().is_empty() {
                return Err(
                    SrunError::Validation { field: "password", message: owned("password is required.") },
                );
            }
            Ok(Some((u.as_str(), p.as_str())))
        },
        _ => Err(
            SrunError::Validation {
                field: "credentials",
                message: owned("username and password must be provided together."),
            },
        ),
    }
}

/// The error when a request names a credentials file and gives credentials.
pub open spec fn combined_message() -> Seq<char> {
    "userinfo_path cannot be combined with manual credentials."@
}

fn combined_error() -> (e: SrunError)
    ensures
        e matches SrunError::Validation { field, message } && field@ == "userinfo_path"@ && message@
            == combined_message(),
{
    SrunError::Validation { field: "userinfo_path", message: owned("userinfo_path cannot be combined with manual credentials.") }
}

/// A refused input: a named field with its message, or the MAC address with
/// the reason it does not parse.
pub enum InputProblem {
    Field(Seq<char>, Seq<char>),
    Mac(Seq<char>),
}

/// The first problem with a login request's common fields, in the order they
/// are checked: the interface field, the credentials path, the MAC address
/// (when there is one), the credentials, and their combination with a path.
pub open spec fn login_problem(
    interface: Seq<char>,
    interface_field: Seq<char>,
    mac: Option<Seq<char>>,
    username: Option<Seq<char>>,
    password: Option<Seq<char>>,
    userinfo_path: Option<Seq<char>>,
) -> Option<InputProblem> {
    if is_blank(interface) {
        Some(InputProblem::Field(interface_field, interface_field + " is required."@))
    } else if userinfo_path matches Some(p) && is_blank(p) {
        Some(InputProblem::Field("userinfo_path"@, "userinfo_path cannot be empty when provided."@))
    } else if mac matches Some(m) && mac_parse(m) is Err {
        Some(InputProblem::Mac(mac_parse(mac->0)->Err_0))
    } else if credentials_pair_problem(username, password) is Some {
        match credentials_pair_problem(username, password) {
            Some((f, m)) => Some(InputProblem::Field(f, m)),
            None => None,
        }
    } else if username is Some && userinfo_path is Some {
        Some(InputProblem::Field("userinfo_path"@, combined_message()))
    } else {
        None
    }
}

/// The input problem that an error reports, if it reports one.
pub open spec fn input_error(e: SrunError) -> Option<InputProblem> {
    match e {
        SrunError::Validation { field, message } => Some(InputProblem::Field(field@, message@)),
        SrunError::InvalidMac(m) => Some(InputProblem::Mac(m@)),
        _ => None,
    }
}

impl LocalLoginRequest {
    /// Checks the request and returns its manual credentials, if any.
    pub fn validate(&self) -> (r: Result<Option<(&str, &str)>, SrunError>)
        ensures
            match login_problem(self.interface@, "interface"@, None, opt_string(self.username),
                opt_string(self.password), opt_string(self.userinfo_path)) {
                Some(p) => r matches Err(e) && input_error(e) == Some(p),
                None => match (self.username, self.password) {
                    (Some(u), Some(p)) => r matches Ok(Some((a, b))) && a@ == u@ && b@ == p@,
                    _ => r matches Ok(None),
                },
            },
    {
        match validate_required(self.interface.as_str(), "interface") {
            Ok(_) => {},
            Err(e) => return Err(e),
        }
        match &self.userinfo_path {
            Some(p) => match validate_optional_path(Some(p.as_str())) {
                Ok(()) => {},
                Err(e) => return Err(e),
            },
            None => {},
        }
        let creds = match credentials(&self.username, &self.password) {
            Ok(c) => c,
            Err(e) => return Err(e),
        };
        if creds.is_some() && self.userinfo_path.is_some() {
            return Err(combined_error());
        }
        Ok(creds)
    }
}

impl MacvlanLoginRequest {
    /// Checks the request and returns the MAC and manual credentials, if any.
    pub fn validate(&self) -> (r: Result<([u8; 6], Option<(&str, &str)>), SrunError>)
        ensures
            match login_problem(self.parent_interface@, "parent_interface"@, Some(self.mac_address@),
                opt_string(self.username), opt_string(self.password), opt_string(self.userinfo_path)) {
                Some(p) => r matches Err(e) && input_error(e) == Some(p),
                None => r matches Ok((mac, creds)) && mac_parse(self.mac_address@) == Ok::<Seq<u8>, Seq<char>>(mac@)
                    && match (self.username, self.password) {
                    (Some(u), Some(p)) => creds matches Some((a, b)) && a@ == u@ && b@ == p@,
                    _ => creds is None,
                },
            },
    {
        match validate_required(self.parent_interface.as_str(), "parent_interface") {
            Ok(_) => {},
            Err(e) => return Err(e),
        }
        match &self.userinfo_path {
            Some(p) => match validate_optional_path(Some(p.as_str())) {
                Ok(()) => {},
                Err(e) => return Err(e),
            },
            None => {},
        }
        let mac = match parse_mac(self.mac_address.as_str()) {
            Ok(m) => m,
            Err(e) => return Err(e),
        };
        let creds = match credentials(&self.username, &self.password) {
            Ok(c) => c,
            Err(e) => return Err(e),
        };
        if creds.is_some() && self.userinfo_path.is_some() {
            return Err(combined_error());
        }
        Ok((mac, creds))
    }
}

impl RandomLoginRequest {
    /// Checks the parent interface and the credentials path.
    pub fn validate(&self) -> (r: Result<(), SrunError>)
        ensures
            match login_problem(self.parent_interface@, "parent_interface"@, None, None, None, opt_string(self.userinfo_path)) {
                Some(p) => r matches Err(e) && input_error(e) == Some(p),
                None => r is Ok,
            },
    {
        match validate_required(self.parent_interface.as_str(), "parent_interface") {
            Ok(_) => {},
            Err(e) => return Err(e),
        }
        match &self.userinfo_path {
            Some(p) => validate_optional_path(Some(p.as_str())),
            None => Ok(()),
        }
    }
}

impl LocalLogoutRequest {
    /// Checks the interface field.
    pub fn validate(&self) -> (r: Result<(), SrunError>)
        ensures
            !is_blank(self.interface@) <==> r is Ok,
            r matches Err(e) ==> input_error(e) == Some(InputProblem::Field("interface"@, "interface"@ + " is required."@)),
    {
        validate_required(self.interface.as_str(), "interface")
    }
}

impl StatusQuery {
    /// Checks the interface field.
    pub fn validate(&self) -> (r: Result<(), SrunError>)
        ensures
            !is_blank(self.interface@) <==> r is Ok,
            r matches Err(e) ==> input_error(e) == Some(InputProblem::Field("interface"@, "interface"@ + " is required."@)),
    {
        validate_required(self.interface.as_str(), "interface")
    }
}

/// Checks a parent interface and MAC text, returning the MAC.
fn validate_parent_and_mac(parent: &str, mac: &str) -> (r: Result<[u8; 6], SrunError>)
    ensures
        match login_problem(parent@, "parent_interface"@, Some(mac@), None, None, None) {
            Some(p) => r matches Err(e) && input_error(e) == Some(p),
            None => r matches Ok(m) && mac_parse(mac@) == Ok::<Seq<u8>, Seq<char>>(m@),
        },
{
    match validate_required(parent, "parent_interface") {
        Ok(_) => {},
        Err(e) => return Err(e),
    }
    parse_mac(mac)
}

impl MacvlanLogoutRequest {
    /// Checks the parent interface and returns the MAC.
    pub fn validate(&self) -> (r: Result<[u8; 6], SrunError>)
        ensures
            match login_problem(self.parent_interface@, "parent_interface"@, Some(self.mac_address@), None, None, None) {
                Some(p) => r matches Err(e) && input_error(e) == Some(p),
                None => r matches Ok(m) && mac_parse(self.mac_address@) == Ok::<Seq<u8>, Seq<char>>(m@),
            },
    {
        validate_parent_and_mac(self.parent_interface.as_str(), self.mac_address.as_str())
    }
}

impl MacvlanStatusRequest {
    /// Checks the parent interface and returns the MAC.
    pub fn validate(&self) -> (r: Result<[u8; 6], SrunError>)
        ensures
            match login_problem(self.parent_interface@, "parent_interface"@, Some(self.mac_address@), None, None, None) {
                Some(p) => r matches Err(e) && input_error(e) == Some(p),
                None => r matches Ok(m) && mac_parse(self.mac_address@) == Ok::<Seq<u8>, Seq<char>>(m@),
            },
    {
        validate_parent_and_mac(self.parent_interface.as_str(), self.mac_address.as_str())
    }
}

/// The status and body that report `e`.
pub fn error_reply(e: &SrunError) -> (r: (u16, ApiResponse<()>))
    ensures
        r.0 == status_of(*e),
        !r.1.success,
        r.1.data is None,
        r.1.error matches Some(b) && b.code@ == code_of(*e) && b.message@ == public_message_of(*e)
            && match b.field {
            Some(f) => field_of(*e) == Some(f@),
            None => field_of(*e) is None,
        },
{
    (e.status_code(), ApiResponse::err(e))
}

/// The code and message for a request body that could not be read as JSON,
/// by the status of the rejection.
pub fn json_rejection(status: u16) -> (r: (&'static str, &'static str))
    ensures
        status == 415 ==> r.0@ == "unsupported_content_type"@ && r.1@ == "The Content-Type header must be application/json."@,
        status == 413 ==> r.0@ == "request_too_large"@ && r.1@ == "The JSON request body exceeds the configured size limit."@,
        status == 422 ==> r.0@ == "invalid_request_data"@ && r.1@ == "The JSON body is missing fields or contains invalid values."@,
        status != 415 && status != 413 && status != 422 ==> r.0@ == "invalid_json"@ && r.1@ == "The request body must be valid JSON."@,
{
    if status == 415 {
        ("unsupported_content_type", "The Content-Type header must be application/json.")
    } else if status == 413 {
        ("request_too_large", "The JSON request body exceeds the configured size limit.")
    } else if status == 422 {
        ("invalid_request_data", "The JSON body is missing fields or contains invalid values.")
    } else {
        ("invalid_json", "The request body must be valid JSON.")
    }
}

/// A fixed failure reply.
fn fixed_reply(status: u16, code: &'static str, message: &'static str) -> (r: (u16, ApiResponse<()>))
    ensures
        r.0 == status,
        !r.1.success,
        r.1.data is None,
        r.1.error matches Some(b) && b.code == code && b.message@ == message@ && b.field is None,
{
    (status, ApiResponse::err_body(ApiErrorBody::new(code, owned(message))))
}

/// Whether `r` is the error reply with `status`, `code` and `message`, about
/// no particular field.
pub open spec fn is_fixed_error(r: (u16, ApiResponse<()>), status: u16, code: Seq<char>, message: Seq<char>) -> bool {
    &&& r.0 == status
    &&& !r.1.success
    &&& r.1.data is None
    &&& r.1.error matches Some(b) && b.code@ == code && b.message@ == message && b.field is None
}

/// The reply to a request without a valid API key.
pub fn unauthorized() -> (r: (u16, ApiResponse<()>))
    ensures
        is_fixed_error(r, 401, "unauthorized"@, "A valid API key is required."@),
{
    fixed_reply(401, "unauthorized", "A valid API key is required.")
}

/// The reply to a status request without an interface query parameter.
pub fn invalid_query() -> (r: (u16, ApiResponse<()>))
    ensures
        is_fixed_error(r, 400, "invalid_query"@, "The interface query parameter is required."@),
{
    fixed_reply(400, "invalid_query", "The interface query parameter is required.")
}

/// The reply to an unknown route.
pub fn not_found() -> (r: (u16, ApiResponse<()>))
    ensures
        is_fixed_error(r, 404, "route_not_found"@, "The requested API route does not exist."@),
{
    fixed_reply(404, "route_not_found", "The requested API route does not exist.")
}

/// The reply to an unsupported HTTP method.
pub fn method_not_allowed() -> (r: (u16, ApiResponse<()>))
    ensures
        is_fixed_error(r, 405, "method_not_allowed"@, "This HTTP method is not supported for the requested route."@),
{
    fixed_reply(405, "method_not_allowed", "This HTTP method is not supported for the requested route.")
}

} // verus!
