use srun_auto_dial::api::auth::{is_authorized, keys_match, provided_api_key};

#[test]
fn api_keys_must_match_exactly() {
    assert!(keys_match("secret", "secret"));
    assert!(!keys_match("Secret", "secret"));
    assert!(!keys_match("secret ", "secret"));
    assert!(!keys_match("short", "a-longer-key"));
}

#[test]
fn keys_compare_whole_unicode_text() {
    assert!(keys_match("", ""));
    assert!(keys_match("密钥", "密钥"));
    assert!(!keys_match("密钥", "密"));
}

#[test]
fn presented_key_prefers_the_api_key_header() {
    assert_eq!(provided_api_key(Some("k1"), Some("Bearer k2")), Some("k1".to_string()));
    assert_eq!(provided_api_key(None, Some("Bearer k2")), Some("k2".to_string()));
    assert_eq!(provided_api_key(None, Some("Basic k2")), None);
    assert_eq!(provided_api_key(None, Some("bearer k2")), None);
    assert_eq!(provided_api_key(None, None), None);
}

#[test]
fn no_configured_key_lets_every_request_through() {
    assert!(is_authorized(None, None));
    assert!(is_authorized(None, Some("anything")));
    assert!(is_authorized(Some("secret"), Some("secret")));
    assert!(!is_authorized(Some("secret"), Some("other")));
    assert!(!is_authorized(Some("secret"), None));
}
