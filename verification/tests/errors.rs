use srun_auto_dial::error::SrunError;

#[test]
fn every_error_has_status_code_and_public_message() {
    let cases: Vec<(SrunError, u16, &str, &str)> = vec![
        (SrunError::Request { message: "x".into(), is_timeout: true, has_status: false }, 504, "portal_timeout", "The Srun portal did not respond in time."),
        (SrunError::Request { message: "x".into(), is_timeout: false, has_status: true }, 502, "portal_http_error", "The Srun portal returned an HTTP error."),
        (SrunError::Request { message: "x".into(), is_timeout: false, has_status: false }, 502, "portal_unavailable", "The Srun portal could not be reached."),
        (SrunError::Json("x".into()), 502, "invalid_portal_response", "The Srun portal returned an invalid response."),
        (SrunError::Io("x".into()), 500, "network_operation_failed", "The server could not complete the network operation."),
        (SrunError::Config("x".into()), 500, "invalid_server_configuration", "The server configuration is invalid."),
        (SrunError::UserData("x".into()), 422, "invalid_credentials_file", "The selected credentials file is unavailable or invalid."),
        (SrunError::CredentialStore("x".into()), 500, "credential_store_unavailable", "The server's configured credentials file is unavailable or invalid."),
        (SrunError::Validation { field: "f", message: "m".into() }, 422, "validation_failed", "m"),
        (SrunError::Dhcp("x".into()), 502, "dhcp_failed", "DHCP failed: x"),
        (SrunError::DhcpTimeout { phase: "offer", attempts: 3 }, 504, "dhcp_timeout", "DHCP offer timed out after 3 attempts."),
        (SrunError::DhcpRejected("x".into()), 502, "dhcp_rejected", "DHCP rejected the request: x"),
        (SrunError::PacketBuild, 500, "network_operation_failed", "The server could not complete the network operation."),
        (SrunError::JsonpParse, 502, "invalid_portal_response", "The Srun portal returned an invalid response."),
        (SrunError::PortalHttpStatus(503), 502, "portal_http_error", "The Srun portal returned an HTTP error."),
        (SrunError::InterfaceNotFound("eth9".into()), 404, "interface_not_found", "network interface 'eth9' was not found"),
        (SrunError::AuthFailed { error: "e".into(), message: "m".into() }, 401, "authentication_failed", "m"),
        (SrunError::AlreadyOnline { mac: "m".into(), user: "u".into() }, 409, "already_online", "MAC m is already online as u"),
        (SrunError::IpMismatch { dhcp: 1, portal: 2 }, 409, "ip_mismatch", "IP address mismatch: DHCP=0.0.0.1, portal=0.0.0.2"),
        (SrunError::NoUserOnline, 409, "not_online", "no user is currently online"),
        (SrunError::Inquire("x".into()), 500, "interactive_prompt_failed", "interactive prompt error: x"),
        (SrunError::InvalidMac("x".into()), 422, "invalid_mac_address", "invalid MAC address: x"),
        (SrunError::OperationBusy, 409, "operation_in_progress", "another network operation is already in progress"),
        (SrunError::CleanupFailed { operation: "login", details: "d".into() }, 500, "cleanup_failed_after_success",
            "The login completed, but the temporary network interface could not be removed. Do not retry automatically; check the server logs and network state."),
        (SrunError::OperationAndCleanupFailed { operation: "logout", primary: "p".into(), cleanup: "c".into() }, 500, "operation_failed_cleanup_incomplete",
            "The logout failed, and the temporary network interface could not be removed. Check the server logs and network state before retrying."),
    ];
    for (e, status, code, message) in cases {
        assert_eq!(e.status_code(), status, "{e:?}");
        assert_eq!(e.code(), code, "{e:?}");
        assert_eq!(e.public_message(), message, "{e:?}");
        assert_eq!(e.is_server_error(), status >= 500, "{e:?}");
    }
}

#[test]
fn descriptions_follow_each_variant() {
    assert_eq!(SrunError::PortalHttpStatus(404).describe(), "portal returned HTTP status 404");
    assert_eq!(SrunError::DhcpTimeout { phase: "ack", attempts: 3 }.describe(), "DHCP ack timed out after 3 attempts");
    assert_eq!(SrunError::Validation { field: "count", message: "bad".into() }.describe(), "invalid count: bad");
    assert_eq!(SrunError::AuthFailed { error: "E1".into(), message: "no".into() }.describe(), "authentication failed (E1): no");
    assert_eq!(SrunError::Request { message: "refused".into(), is_timeout: false, has_status: false }.describe(), "portal request failed: refused");
}

#[test]
fn input_errors_name_their_field() {
    assert_eq!(SrunError::Validation { field: "interface", message: "m".into() }.field(), Some("interface"));
    assert_eq!(SrunError::InvalidMac("m".into()).field(), Some("mac_address"));
    assert_eq!(SrunError::UserData("m".into()).field(), Some("userinfo_path"));
    assert_eq!(SrunError::NoUserOnline.field(), None);
}

#[test]
fn diagnostics_do_not_reach_clients() {
    let a = SrunError::Io("secret path /etc/shadow".into());
    let b = SrunError::Io("other".into());
    assert_eq!(a.public_message(), b.public_message());
    assert!(!a.public_message().contains("shadow"));
    let a = SrunError::Request { message: "http://portal/?password=x".into(), is_timeout: false, has_status: false };
    assert!(!a.public_message().contains("password"));
    let a = SrunError::OperationAndCleanupFailed { operation: "login", primary: "p1".into(), cleanup: "c1".into() };
    let b = SrunError::OperationAndCleanupFailed { operation: "login", primary: "p2".into(), cleanup: "c2".into() };
    assert_eq!(a.public_message(), b.public_message());
    assert_eq!(a.status_code(), b.status_code());
}
