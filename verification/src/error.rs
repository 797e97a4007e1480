//! The library's error type, with the HTTP status, stable code, public message
//! and input field that the REST layer reports for each kind of failure.

use vstd::prelude::*;
use vstd::string::StringExecFns;
use crate::text::{decimal, dec, ipv4_string, ipv4_text};

verus! {

/// Everything that can go wrong in an operation. Failures of outside services
/// carry the text those services gave; a failed portal request also records
/// whether it timed out and whether the portal answered with an HTTP status.
#[derive(Debug)]
pub enum SrunError {
    Request { message: String, is_timeout: bool, has_status: bool },
    Json(String),
    IpParse(String),
    Io(String),
    Netlink(String),
    Config(String),
    UserData(String),
    CredentialStore(String),
    Validation { field: &'static str, message: String },
    Dhcp(String),
    DhcpTimeout { phase: &'static str, attempts: u32 },
    DhcpRejected(String),
    PacketBuild,
    JsonpParse,
    PortalResponse(String),
    PortalHttpStatus(u16),
    InterfaceNotFound(String),
    AuthFailed { error: String, message: String },
    AlreadyOnline { mac: String, user: String },
    IpMismatch { dhcp: u32, portal: u32 },
    NoUserOnline,
    Inquire(String),
    InvalidMac(String),
    OperationBusy,
    CleanupFailed { operation: &'static str, details: String },
    OperationAndCleanupFailed { operation: &'static str, primary: String, cleanup: String },
}

/// The HTTP status that reports `e`.
pub open spec fn status_of(e: SrunError) -> u16 {
    match e {
        SrunError::AuthFailed { .. } => 401,
        SrunError::AlreadyOnline { .. } | SrunError::NoUserOnline | SrunError::OperationBusy
        | SrunError::IpMismatch { .. } => 409,
        SrunError::InterfaceNotFound(_) => 404,
        SrunError::InvalidMac(_) | SrunError::Validation { .. } | SrunError::UserData(_) => 422,
        SrunError::Request { is_timeout, .. } => if is_timeout {
            504
        } else {
            502
        },
        SrunError::DhcpTimeout { .. } => 504,
        SrunError::Json(_) | SrunError::IpParse(_) | SrunError::JsonpParse
        | SrunError::PortalResponse(_) | SrunError::PortalHttpStatus(_) | SrunError::Dhcp(_)
        | SrunError::DhcpRejected(_) => 502,
        _ => 500,
    }
}

/// The stable machine-readable code of `e`.
pub open spec fn code_of(e: SrunError) -> Seq<char> {
    match e {
        SrunError::Request { is_timeout, has_status, .. } => if is_timeout {
            "portal_timeout"@
        } else if has_status {
            "portal_http_error"@
        } else {
            "portal_unavailable"@
        },
        SrunError::PortalHttpStatus(_) => "portal_http_error"@,
        SrunError::Json(_) | SrunError::IpParse(_) | SrunError::JsonpParse
        | SrunError::PortalResponse(_) => "invalid_portal_response"@,
        SrunError::Io(_) | SrunError::Netlink(_) | SrunError::PacketBuild =>
            "network_operation_failed"@,
        SrunError::Config(_) => "invalid_server_configuration"@,
        SrunError::UserData(_) => "invalid_credentials_file"@,
        SrunError::CredentialStore(_) => "credential_store_unavailable"@,
        SrunError::Validation { .. } => "validation_failed"@,
        SrunError::DhcpTimeout { .. } => "dhcp_timeout"@,
        SrunError::DhcpRejected(_) => "dhcp_rejected"@,
        SrunError::Dhcp(_) => "dhcp_failed"@,
        SrunError::InterfaceNotFound(_) => "interface_not_found"@,
        SrunError::AuthFailed { .. } => "authentication_failed"@,
        SrunError::AlreadyOnline { .. } => "already_online"@,
        SrunError::IpMismatch { .. } => "ip_mismatch"@,
        SrunError::NoUserOnline => "not_online"@,
        SrunError::Inquire(_) => "interactive_prompt_failed"@,
        SrunError::InvalidMac(_) => "invalid_mac_address"@,
        SrunError::OperationBusy => "operation_in_progress"@,
        SrunError::CleanupFailed { .. } => "cleanup_failed_after_success"@,
        SrunError::OperationAndCleanupFailed { .. } => "operation_failed_cleanup_incomplete"@,
    }
}

/// The full diagnostic text of `e`.
pub open spec fn text_of(e: SrunError) -> Seq<char> {
    match e {
        SrunError::Request { message, .. } => "portal request failed: "@ + message@,
        SrunError::Json(m) => "invalid JSON in portal response: "@ + m@,
        SrunError::IpParse(m) => "invalid IP address in portal response: "@ + m@,
        SrunError::Io(m) => "I/O error: "@ + m@,
        SrunError::Netlink(m) => "netlink error: "@ + m@,
        SrunError::Config(m) => "configuration error: "@ + m@,
        SrunError::UserData(m) => "credentials file error: "@ + m@,
        SrunError::CredentialStore(m) => "configured credentials store error: "@ + m@,
        SrunError::Validation { field, message } => "invalid "@ + field@ + ": "@ + message@,
        SrunError::Dhcp(m) => "DHCP failed: "@ + m@,
        SrunError::DhcpTimeout { phase, attempts } => "DHCP "@ + phase@ + " timed out after "@
            + dec(attempts as nat) + " attempts"@,
        SrunError::DhcpRejected(m) => "DHCP request was rejected: "@ + m@,
        SrunError::PacketBuild => "failed to build a network packet"@,
        SrunError::JsonpParse => "invalid JSONP response from portal"@,
        SrunError::PortalResponse(m) => "invalid portal response: "@ + m@,
        SrunError::PortalHttpStatus(s) => "portal returned HTTP status "@ + dec(s as nat),
        SrunError::InterfaceNotFound(n) => "network interface '"@ + n@ + "' was not found"@,
        SrunError::AuthFailed { error, message } => "authentication failed ("@ + error@ + "): "@
            + message@,
        SrunError::AlreadyOnline { mac, user } => "MAC "@ + mac@ + " is already online as "@
            + user@,
        SrunError::IpMismatch { dhcp, portal } => "IP address mismatch: DHCP="@ + ipv4_text(dhcp)
            + ", portal="@ + ipv4_text(portal),
        SrunError::NoUserOnline => "no user is currently online"@,
        SrunError::Inquire(m) => "interactive prompt error: "@ + m@,
        SrunError::InvalidMac(m) => "invalid MAC address: "@ + m@,
        SrunError::OperationBusy => "another network operation is already in progress"@,
        SrunError::CleanupFailed { operation, details } => operation@
            + " completed, but temporary-interface cleanup failed: "@ + details@,
        SrunError::OperationAndCleanupFailed { operation, primary, cleanup } => operation@
            + " failed ("@ + primary@ + "); temporary-interface cleanup also failed: "@ + cleanup@,
    }
}

/// The message that API clients see for `e`; internal detail stays in logs.
pub open spec fn public_message_of(e: SrunError) -> Seq<char> {
    match e {
        SrunError::Request { is_timeout, has_status, .. } => if is_timeout {
            "The Srun portal did not respond in time."@
        } else if has_status {
            "The Srun portal returned an HTTP error."@
        } else {
            "The Srun portal could not be reached."@
        },
        SrunError::PortalHttpStatus(_) => "The Srun portal returned an HTTP error."@,
        SrunError::Json(_) | SrunError::IpParse(_) | SrunError::JsonpParse
        | SrunError::PortalResponse(_) => "The Srun portal returned an invalid response."@,
        SrunError::Io(_) | SrunError::Netlink(_) | SrunError::PacketBuild =>
            "The server could not complete the network operation."@,
        SrunError::Config(_) => "The server configuration is invalid."@,
        SrunError::UserData(_) => "The selected credentials file is unavailable or invalid."@,
        SrunError::CredentialStore(_) =>
            "The server's configured credentials file is unavailable or invalid."@,
        SrunError::Validation { message, .. } => message@,
        SrunError::Dhcp(m) => "DHCP failed: "@ + m@,
        SrunError::DhcpTimeout { phase, attempts } => "DHCP "@ + phase@ + " timed out after "@
            + dec(attempts as nat) + " attempts."@,
        SrunError::DhcpRejected(m) => "DHCP rejected the request: "@ + m@,
        SrunError::AuthFailed { message, .. } => message@,
        SrunError::CleanupFailed { operation, .. } => "The "@ + operation@
            + " completed, but the temporary network interface could not be removed. Do not retry automatically; check the server logs and network state."@,
        SrunError::OperationAndCleanupFailed { operation, .. } => "The "@ + operation@
            + " failed, and the temporary network interface could not be removed. Check the server logs and network state before retrying."@,
        _ => text_of(e),
    }
}

/// The request field that `e` concerns, if any.
pub open spec fn field_of(e: SrunError) -> Option<Seq<char>> {
    match e {
        SrunError::Validation { field, .. } => Some(field@),
        SrunError::InvalidMac(_) => Some("mac_address"@),
        SrunError::UserData(_) => Some("userinfo_path"@),
        _ => None,
    }
}

/// Whether `a` and `b` are the same kind of failure of an outside service,
/// the local system or the configuration, told apart only by the diagnostic
/// text they carry.
pub open spec fn differ_only_in_diagnostics(a: SrunError, b: SrunError) -> bool {
    match (a, b) {
        (SrunError::Request { is_timeout: t1, has_status: s1, .. }, SrunError::Request { is_timeout: t2, has_status: s2, .. }) =>
            t1 == t2 && s1 == s2,
        (SrunError::Json(_), SrunError::Json(_)) => true,
        (SrunError::IpParse(_), SrunError::IpParse(_)) => true,
        (SrunError::Io(_), SrunError::Io(_)) => true,
        (SrunError::Netlink(_), SrunError::Netlink(_)) => true,
        (SrunError::Config(_), SrunError::Config(_)) => true,
        (SrunError::UserData(_), SrunError::UserData(_)) => true,
        (SrunError::CredentialStore(_), SrunError::CredentialStore(_)) => true,
        (SrunError::PortalResponse(_), SrunError::PortalResponse(_)) => true,
        (SrunError::PortalHttpStatus(_), SrunError::PortalHttpStatus(_)) => true,
        (SrunError::CleanupFailed { operation: o1, .. }, SrunError::CleanupFailed { operation: o2, .. }) => o1 == o2,
        (
            SrunError::OperationAndCleanupFailed { operation: o1, .. },
            SrunError::OperationAndCleanupFailed { operation: o2, .. },
        ) => o1 == o2,
        _ => false,
    }
}

/// Internal diagnostics stay out of API responses: errors that differ only in
/// the diagnostic text they carry get the same status, code, public message
/// and field.
pub proof fn lemma_diagnostics_are_not_exposed(a: SrunError, b: SrunError)
    requires
        differ_only_in_diagnostics(a, b),
    ensures
        status_of(a) == status_of(b),
        code_of(a) == code_of(b),
        public_message_of(a) == public_message_of(b),
        field_of(a) == field_of(b),
{
}

/// Every failure caused by the portal's reply, or by an upstream service that
/// answered badly, is reported as a bad gateway (502); a portal or DHCP server
/// that did not answer in time is a gateway timeout (504).
pub proof fn lemma_upstream_failures_are_gateway_errors(e: SrunError)
    ensures
        (e is Json || e is IpParse || e is JsonpParse || e is PortalResponse) ==> status_of(e) == 502,
        e is PortalHttpStatus ==> status_of(e) == 502,
        (e is Dhcp || e is DhcpRejected) ==> status_of(e) == 502,
        (e matches SrunError::Request { is_timeout, .. } && !is_timeout) ==> status_of(e) == 502,
        (e matches SrunError::Request { is_timeout, .. } && is_timeout) ==> status_of(e) == 504,
        e is DhcpTimeout ==> status_of(e) == 504,
{
}

/// Failures the client can act on get a 4xx status: a refused login 401, a
/// missing interface 404, a conflict with the current state 409, bad input
/// 422. Failures of this server itself get 500.
pub proof fn lemma_client_and_server_failure_statuses(e: SrunError)
    ensures
        e is AuthFailed ==> status_of(e) == 401,
        e is InterfaceNotFound ==> status_of(e) == 404,
        (e is AlreadyOnline || e is NoUserOnline || e is OperationBusy || e is IpMismatch) ==> status_of(e) == 409,
        (e is InvalidMac || e is Validation || e is UserData) ==> status_of(e) == 422,
        (e is Io || e is Netlink || e is Config || e is CredentialStore || e is PacketBuild || e is Inquire
            || e is CleanupFailed || e is OperationAndCleanupFailed) ==> status_of(e) == 500,
{
}

/// All errors about the content of a portal reply (unreadable JSON or JSONP, an
/// unreadable address, a reply missing what it must hold) share one code and
/// one public message, whichever of them it is and whatever it carries.
pub proof fn lemma_bad_portal_replies_look_alike(a: SrunError, b: SrunError)
    requires
        a is Json || a is IpParse || a is JsonpParse || a is PortalResponse,
        b is Json || b is IpParse || b is JsonpParse || b is PortalResponse,
    ensures
        code_of(a) == code_of(b),
        code_of(a) == "invalid_portal_response"@,
        public_message_of(a) == public_message_of(b),
        public_message_of(a) == "The Srun portal returned an invalid response."@,
        status_of(a) == status_of(b),
{
}

/// The stable code of each kind of failure.
pub proof fn lemma_error_codes(e: SrunError)
    ensures
        (e matches SrunError::Request { is_timeout, .. } && is_timeout) ==> code_of(e) == "portal_timeout"@,
        (e matches SrunError::Request { is_timeout, has_status, .. } && !is_timeout && has_status)
            ==> code_of(e) == "portal_http_error"@,
        (e matches SrunError::Request { is_timeout, has_status, .. } && !is_timeout && !has_status)
            ==> code_of(e) == "portal_unavailable"@,
        e is PortalHttpStatus ==> code_of(e) == "portal_http_error"@,
        (e is Json || e is IpParse || e is JsonpParse || e is PortalResponse) ==> code_of(e) == "invalid_portal_response"@,
        (e is Io || e is Netlink || e is PacketBuild) ==> code_of(e) == "network_operation_failed"@,
        e is Config ==> code_of(e) == "invalid_server_configuration"@,
        e is UserData ==> code_of(e) == "invalid_credentials_file"@,
        e is CredentialStore ==> code_of(e) == "credential_store_unavailable"@,
        e is Validation ==> code_of(e) == "validation_failed"@,
        e is DhcpTimeout ==> code_of(e) == "dhcp_timeout"@,
        e is DhcpRejected ==> code_of(e) == "dhcp_rejected"@,
        e is Dhcp ==> code_of(e) == "dhcp_failed"@,
        e is InterfaceNotFound ==> code_of(e) == "interface_not_found"@,
        e is AuthFailed ==> code_of(e) == "authentication_failed"@,
        e is AlreadyOnline ==> code_of(e) == "already_online"@,
        e is IpMismatch ==> code_of(e) == "ip_mismatch"@,
        e is NoUserOnline ==> code_of(e) == "not_online"@,
        e is Inquire ==> code_of(e) == "interactive_prompt_failed"@,
        e is InvalidMac ==> code_of(e) == "invalid_mac_address"@,
        e is OperationBusy ==> code_of(e) == "operation_in_progress"@,
        e is CleanupFailed ==> code_of(e) == "cleanup_failed_after_success"@,
        e is OperationAndCleanupFailed ==> code_of(e) == "operation_failed_cleanup_incomplete"@,
{
}

/// What API clients are told for each kind of failure: a fixed sentence for
/// failures whose detail is internal, the detail itself where it is meant for
/// the client.
pub proof fn lemma_public_messages(e: SrunError)
    ensures
        (e matches SrunError::Request { is_timeout, .. } && is_timeout)
            ==> public_message_of(e) == "The Srun portal did not respond in time."@,
        (e matches SrunError::Request { is_timeout, has_status, .. } && !is_timeout && has_status)
            ==> public_message_of(e) == "The Srun portal returned an HTTP error."@,
        (e matches SrunError::Request { is_timeout, has_status, .. } && !is_timeout && !has_status)
            ==> public_message_of(e) == "The Srun portal could not be reached."@,
        e is PortalHttpStatus ==> public_message_of(e) == "The Srun portal returned an HTTP error."@,
        (e is Json || e is IpParse || e is JsonpParse || e is PortalResponse)
            ==> public_message_of(e) == "The Srun portal returned an invalid response."@,
        (e is Io || e is Netlink || e is PacketBuild)
            ==> public_message_of(e) == "The server could not complete the network operation."@,
        e is Config ==> public_message_of(e) == "The server configuration is invalid."@,
        e is UserData ==> public_message_of(e) == "The selected credentials file is unavailable or invalid."@,
        e is CredentialStore
            ==> public_message_of(e) == "The server's configured credentials file is unavailable or invalid."@,
        (e matches SrunError::Validation { message, .. }) ==> public_message_of(e) == e->Validation_message@,
        (e matches SrunError::AuthFailed { message, .. }) ==> public_message_of(e) == e->AuthFailed_message@,
        (e matches SrunError::Dhcp(m)) ==> public_message_of(e) == "DHCP failed: "@ + e->Dhcp_0@,
        (e matches SrunError::DhcpRejected(m)) ==> public_message_of(e) == "DHCP rejected the request: "@
            + e->DhcpRejected_0@,
        e is NoUserOnline ==> public_message_of(e) == "no user is currently online"@,
        e is OperationBusy ==> public_message_of(e) == "another network operation is already in progress"@,
{
}

/// The request field an error points at: the field a validation error names,
/// `mac_address` for a bad MAC, `userinfo_path` for a bad credentials file, and
/// none for any other failure.
pub proof fn lemma_error_fields(e: SrunError)
    ensures
        (e matches SrunError::Validation { field, .. }) ==> field_of(e) == Some(e->Validation_field@),
        e is InvalidMac ==> field_of(e) == Some("mac_address"@),
        e is UserData ==> field_of(e) == Some("userinfo_path"@),
        !(e is Validation || e is InvalidMac || e is UserData) ==> field_of(e) is None,
{
}

fn cat(a: &str, b: &str) -> (r: String)
    ensures
        r@ == a@ + b@,
{
    let mut s = String::from_str(a);
    s.append(b);
    s
}

fn cat3(a: &str, b: &str, c: &str) -> (r: String)
    ensures
        r@ == a@ + b@ + c@,
{
    let mut s = String::from_str(a);
    s.append(b);
    s.append(c);
    s
}

fn cat4(a: &str, b: &str, c: &str, d: &str) -> (r: String)
    ensures
        r@ == a@ + b@ + c@ + d@,
{
    let mut s = String::from_str(a);
    s.append(b);
    s.append(c);
    s.append(d);
    s
}

impl SrunError {
    /// The HTTP status that reports this error.
    pub fn status_code(&self) -> (r: u16)
        ensures
            r == status_of(*self),
    {
        match self {
            SrunError::AuthFailed { .. } => 401,
            SrunError::AlreadyOnline { .. } => 409,
            SrunError::NoUserOnline | SrunError::OperationBusy | SrunError::IpMismatch { .. } => 409,
            SrunError::InterfaceNotFound(_) => 404,
            SrunError::InvalidMac(_) | SrunError::Validation { .. } | SrunError::UserData(_) => 422,
            SrunError::Request { is_timeout, .. } => if *is_timeout {
                504
            } else {
                502
            },
            SrunError::DhcpTimeout { .. } => 504,
            SrunError::Json(_) | SrunError::IpParse(_) | SrunError::JsonpParse
            | SrunError::PortalResponse(_) | SrunError::PortalHttpStatus(_) | SrunError::Dhcp(_)
            | SrunError::DhcpRejected(_) => 502,
            _ => 500,
        }
    }

    /// Whether this error is reported with a 5xx status.
    pub fn is_server_error(&self) -> (r: bool)
        ensures
            r == (500 <= status_of(*self) < 600),
    {
        let s = self.status_code();
        500 <= s && s < 600
    }

    /// The stable machine-readable code returned by the REST API.
    pub fn code(&self) -> (r: &'static str)
        ensures
            r@ == code_of(*self),
    {
        match self {
            SrunError::Request { is_timeout, has_status, .. } => if *is_timeout {
                "portal_timeout"
            } else if *has_status {
                "portal_http_error"
            } else {
                "portal_unavailable"
            },
            SrunError::PortalHttpStatus(_) => "portal_http_error",
            SrunError::Json(_) | SrunError::IpParse(_) | SrunError::JsonpParse
            | SrunError::PortalResponse(_) => "invalid_portal_response",
            SrunError::Io(_) | SrunError::Netlink(_) | SrunError::PacketBuild =>
                "network_operation_failed",
            SrunError::Config(_) => "invalid_server_configuration",
            SrunError::UserData(_) => "invalid_credentials_file",
            SrunError::CredentialStore(_) => "credential_store_unavailable",
            SrunError::Validation { .. } => "validation_failed",
            SrunError::DhcpTimeout { .. } => "dhcp_timeout",
            SrunError::DhcpRejected(_) => "dhcp_rejected",
            SrunError::Dhcp(_) => "dhcp_failed",
            SrunError::InterfaceNotFound(_) => "interface_not_found",
            SrunError::AuthFailed { .. } => "authentication_failed",
            SrunError::AlreadyOnline { .. } => "already_online",
            SrunError::IpMismatch { .. } => "ip_mismatch",
            SrunError::NoUserOnline => "not_online",
            SrunError::Inquire(_) => "interactive_prompt_failed",
            SrunError::InvalidMac(_) => "invalid_mac_address",
            SrunError::OperationBusy => "operation_in_progress",
            SrunError::CleanupFailed { .. } => "cleanup_failed_after_success",
            SrunError::OperationAndCleanupFailed { .. } => "operation_failed_cleanup_incomplete",
        }
    }

    /// The input field this error concerns, if any.
    pub fn field(&self) -> (r: Option<&'static str>)
        ensures
            match r {
                Some(f) => field_of(*self) == Some(f@),
                None => field_of(*self) is None,
            },
    {
        match self {
            SrunError::Validation { field, .. } => Some(*field),
            SrunError::InvalidMac(_) => Some("mac_address"),
            SrunError::UserData(_) => Some("userinfo_path"),
            _ => None,
        }
    }

    /// The full diagnostic text of this error.
    pub fn describe(&self) -> (r: String)
        ensures
            r@ == text_of(*self),
    {
        match self {
            SrunError::Request { message, .. } => cat("portal request failed: ", message.as_str()),
            SrunError::Json(m) => cat("invalid JSON in portal response: ", m.as_str()),
            SrunError::IpParse(m) => cat("invalid IP address in portal response: ", m.as_str()),
            SrunError::Io(m) => cat("I/O error: ", m.as_str()),
            SrunError::Netlink(m) => cat("netlink error: ", m.as_str()),
            SrunError::Config(m) => cat("configuration error: ", m.as_str()),
            SrunError::UserData(m) => cat("credentials file error: ", m.as_str()),
            SrunError::CredentialStore(m) => cat("configured credentials store error: ", m.as_str()),
            SrunError::Validation { field, message } => cat4(
                "invalid ",
                field,
                ": ",
                message.as_str(),
            ),
            SrunError::Dhcp(m) => cat("DHCP failed: ", m.as_str()),
            SrunError::DhcpTimeout { phase, attempts } => {
                let n = decimal(*attempts as u64);
                let mut s = cat4("DHCP ", phase, " timed out after ", n.as_str());
                s.append(" attempts");
                s
            },
            SrunError::DhcpRejected(m) => cat("DHCP request was rejected: ", m.as_str()),
            SrunError::PacketBuild => String::from_str("failed to build a network packet"),
            SrunError::JsonpParse => String::from_str("invalid JSONP response from portal"),
            SrunError::PortalResponse(m) => cat("invalid portal response: ", m.as_str()),
            SrunError::PortalHttpStatus(s) => {
                let n = decimal(*s as u64);
                cat("portal returned HTTP status ", n.as_str())
            },
            SrunError::InterfaceNotFound(n) => cat3(
                "network interface '",
                n.as_str(),
                "' was not found",
            ),
            SrunError::AuthFailed { error, message } => cat4(
                "authentication failed (",
                error.as_str(),
                "): ",
                message.as_str(),
            ),
            SrunError::AlreadyOnline { mac, user } => cat4(
                "MAC ",
                mac.as_str(),
                " is already online as ",
                user.as_str(),
            ),
            SrunError::IpMismatch { dhcp, portal } => {
                let a = ipv4_string(*dhcp);
                let b = ipv4_string(*portal);
                cat4("IP address mismatch: DHCP=", a.as_str(), ", portal=", b.as_str())
            },
            SrunError::NoUserOnline => String::from_str("no user is currently online"),
            SrunError::Inquire(m) => cat("interactive prompt error: ", m.as_str()),
            SrunError::InvalidMac(m) => cat("invalid MAC address: ", m.as_str()),
            SrunError::OperationBusy => String::from_str(
                "another network operation is already in progress",
            ),
            SrunError::CleanupFailed { operation, details } => cat3(
                operation,
                " completed, but temporary-interface cleanup failed: ",
                details.as_str(),
            ),
            SrunError::OperationAndCleanupFailed { operation, primary, cleanup } => {
                let mut s = cat4(
                    operation,
                    " failed (",
                    primary.as_str(),
                    "); temporary-interface cleanup also failed: ",
                );
                s.append(cleanup.as_str());
                s
            },
        }
    }

    /// Safe, actionable text for API clients.
    pub fn public_message(&self) -> (r: String)
        ensures
            r@ == public_message_of(*self),
    {
        match self {
            SrunError::Request { is_timeout, has_status, .. } => if *is_timeout {
                String::from_str("The Srun portal did not respond in time.")
            } else if *has_status {
                String::from_str("The Srun portal returned an HTTP error.")
            } else {
                String::from_str("The Srun portal could not be reached.")
            },
            SrunError::PortalHttpStatus(_) => String::from_str(
                "The Srun portal returned an HTTP error.",
            ),
            SrunError::Json(_) | SrunError::IpParse(_) | SrunError::JsonpParse
            | SrunError::PortalResponse(_) => String::from_str(
                "The Srun portal returned an invalid response.",
            ),
            SrunError::Io(_) | SrunError::Netlink(_) | SrunError::PacketBuild => String::from_str(
                "The server could not complete the network operation.",
            ),
            SrunError::Config(_) => String::from_str("The server configuration is invalid."),
            SrunError::UserData(_) => String::from_str(
                "The selected credentials file is unavailable or invalid.",
            ),
            SrunError::CredentialStore(_) => String::from_str(
                "The server's configured credentials file is unavailable or invalid.",
            ),
            SrunError::Validation { message, .. } => message.clone(),
            SrunError::Dhcp(m) => cat("DHCP failed: ", m.as_str()),
            SrunError::DhcpTimeout { phase, attempts } => {
                let n = decimal(*attempts as u64);
                let mut s = cat4("DHCP ", phase, " timed out after ", n.as_str());
                s.append(" attempts.");
                s
            },
            SrunError::DhcpRejected(m) => cat("DHCP rejected the request: ", m.as_str()),
            SrunError::AuthFailed { message, .. } => message.clone(),
            SrunError::CleanupFailed { operation, .. } => cat3(
                "The ",
                operation,
                " completed, but the temporary network interface could not be removed. Do not retry automatically; check the server logs and network state.",
            ),
            SrunError::OperationAndCleanupFailed { operation, .. } => cat3(
                "The ",
                operation,
                " failed, and the temporary network interface could not be removed. Check the server logs and network state before retrying.",
            ),
            _ => self.describe(),
        }
    }
}

} // verus!
