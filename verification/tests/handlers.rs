use srun_auto_dial::api::handlers::{
    credentials, error_reply, json_rejection, method_not_allowed, not_found, unauthorized,
    validate_optional_path, validate_required,
};
use srun_auto_dial::api::models::{
    ApiErrorBody, ApiResponse, LocalLoginRequest, MacvlanLoginRequest, RandomLoginRequest,
};
use srun_auto_dial::error::SrunError;

#[test]
fn credentials_must_be_complete() {
    let username = Some("alice".to_string());
    let password = Some("secret".to_string());
    assert_eq!(
        credentials(&username, &password).unwrap(),
        Some(("alice", "secret"))
    );
    assert!(credentials(&username, &None).is_err());
    assert!(credentials(&None, &password).is_err());
    assert!(credentials(&Some("  ".to_string()), &password).is_err());
}

fn validation(e: SrunError) -> (&'static str, String) {
    match e {
        SrunError::Validation { field, message } => (field, message),
        other => panic!("unexpected {other:?}"),
    }
}

#[test]
fn credentials_errors_name_the_field() {
    assert_eq!(credentials(&None, &None).unwrap(), None);
    let (f, m) = validation(credentials(&Some("alice".to_string()), &Some(String::new())).unwrap_err());
    assert_eq!((f, m.as_str()), ("password", "password is required."));
    let (f, m) = validation(credentials(&None, &Some("x".to_string())).unwrap_err());
    assert_eq!((f, m.as_str()), ("credentials", "username and password must be provided together."));
    let (f, m) = validation(credentials(&Some(" ".to_string()), &Some("x".to_string())).unwrap_err());
    assert_eq!((f, m.as_str()), ("username", "username is required."));
}

#[test]
fn required_and_optional_fields() {
    assert!(validate_required("eth0", "interface").is_ok());
    let (f, m) = validation(validate_required(" \t", "interface").unwrap_err());
    assert_eq!((f, m.as_str()), ("interface", "interface is required."));
    assert!(validate_optional_path(None).is_ok());
    assert!(validate_optional_path(Some("users.json")).is_ok());
    let (f, m) = validation(validate_optional_path(Some("  ")).unwrap_err());
    assert_eq!((f, m.as_str()), ("userinfo_path", "userinfo_path cannot be empty when provided."));
}

#[test]
fn local_login_request_refuses_path_with_manual_credentials() {
    let req = LocalLoginRequest {
        interface: "eth0".to_string(),
        username: Some("alice".to_string()),
        password: Some("secret".to_string()),
        userinfo_path: Some("users.json".to_string()),
    };
    let (f, m) = validation(req.validate().unwrap_err());
    assert_eq!((f, m.as_str()), ("userinfo_path", "userinfo_path cannot be combined with manual credentials."));

    let req = LocalLoginRequest {
        interface: "eth0".to_string(),
        username: Some("alice".to_string()),
        password: Some("secret".to_string()),
        userinfo_path: None,
    };
    assert_eq!(req.validate().unwrap(), Some(("alice", "secret")));

    let req = LocalLoginRequest {
        interface: " ".to_string(),
        username: None,
        password: None,
        userinfo_path: None,
    };
    let (f, _) = validation(req.validate().unwrap_err());
    assert_eq!(f, "interface");
}

#[test]
fn macvlan_login_request_parses_the_mac() {
    let req = MacvlanLoginRequest {
        parent_interface: "eth0".to_string(),
        mac_address: "02-00-00-00-00-01".to_string(),
        username: None,
        password: None,
        userinfo_path: None,
    };
    let (mac, creds) = req.validate().unwrap();
    assert_eq!(mac, [0x02, 0, 0, 0, 0, 1]);
    assert_eq!(creds, None);

    let req = MacvlanLoginRequest {
        parent_interface: "eth0".to_string(),
        mac_address: "01:00:00:00:00:01".to_string(),
        username: None,
        password: None,
        userinfo_path: None,
    };
    assert!(matches!(req.validate(), Err(SrunError::InvalidMac(_))));
}

#[test]
fn random_login_request_checks_interface_and_path() {
    let req = RandomLoginRequest { parent_interface: "eth0".to_string(), count: 3, userinfo_path: None };
    assert!(req.validate().is_ok());
    let req = RandomLoginRequest { parent_interface: "".to_string(), count: 3, userinfo_path: None };
    let (f, _) = validation(req.validate().unwrap_err());
    assert_eq!(f, "parent_interface");
}

#[test]
fn error_replies_carry_status_code_and_public_message() {
    let (status, body) = error_reply(&SrunError::NoUserOnline);
    assert_eq!(status, 409);
    assert!(!body.success);
    let e = body.error.unwrap();
    assert_eq!(e.code, "not_online");
    assert_eq!(e.message, "no user is currently online");
    assert_eq!(e.field, None);

    let (status, body) = error_reply(&SrunError::InvalidMac("bad".to_string()));
    assert_eq!(status, 422);
    assert_eq!(body.error.unwrap().field, Some("mac_address"));
}

#[test]
fn fixed_replies() {
    assert_eq!(json_rejection(415), ("unsupported_content_type", "The Content-Type header must be application/json."));
    assert_eq!(json_rejection(413).0, "request_too_large");
    assert_eq!(json_rejection(422).0, "invalid_request_data");
    assert_eq!(json_rejection(400), ("invalid_json", "The request body must be valid JSON."));
    let (s, b) = unauthorized();
    assert_eq!(s, 401);
    assert_eq!(b.error.unwrap().code, "unauthorized");
    assert_eq!(not_found().0, 404);
    assert_eq!(method_not_allowed().0, 405);
}

#[test]
fn response_envelopes() {
    let ok = ApiResponse::ok(7u32);
    assert!(ok.success);
    assert_eq!(ok.data, Some(7));
    assert!(ok.error.is_none());
    let empty = ApiResponse::<()>::ok_empty();
    assert!(empty.success && empty.data.is_none());
    let body = ApiErrorBody::new("c", "m".to_string());
    assert_eq!((body.code, body.message.as_str(), body.field), ("c", "m", None));
    let err = ApiResponse::<()>::err_body(body);
    assert!(!err.success);
}
