use srun_auto_dial::config::{check_portal_url, config_parse_failure, config_read_failure, Config, ServerConfig};
use srun_auto_dial::error::SrunError;

#[test]
fn validates_and_normalizes_portal_url() {
    let mut config = Config {
        portal_url: " https://portal.example.edu:8443/ ".to_string(),
        ac_id: " 1 ".to_string(),
        server: ServerConfig {
            host: " 127.0.0.1 ".to_string(),
            ..ServerConfig::default()
        },
        ..Config::default()
    };
    config.validate().unwrap();
    assert_eq!(config.portal_url, "https://portal.example.edu:8443");
    assert_eq!(config.ac_id, "1");
    assert_eq!(config.server.host, "127.0.0.1");
}

#[test]
fn rejects_invalid_configuration_values() {
    let mut config = Config {
        portal_url: "portal.example.edu".to_string(),
        ..Config::default()
    };
    assert!(config.validate().is_err());

    let mut config = Config {
        server: ServerConfig {
            api_key: Some("   ".to_string()),
            ..ServerConfig::default()
        },
        ..Config::default()
    };
    assert!(config.validate().is_err());
}

fn config_error(config: &mut Config) -> String {
    match config.validate() {
        Err(SrunError::Config(m)) => m,
        other => panic!("unexpected {other:?}"),
    }
}

#[test]
fn defaults_are_valid() {
    let mut config = Config::default();
    assert_eq!(config.portal_url, "http://portal.hdu.edu.cn");
    assert_eq!(config.ac_id, "1");
    assert_eq!(config.server.port, 3000);
    assert!(config.validate().is_ok());
    assert_eq!(config.portal_url, "http://portal.hdu.edu.cn");
}

#[test]
fn portal_url_problems_are_reported_in_order() {
    let mut c = Config { portal_url: "ftp://portal.example.edu".to_string(), ..Config::default() };
    assert_eq!(config_error(&mut c), "portal_url must be an absolute http:// or https:// URL");
    let mut c = Config { portal_url: "http://user:pw@portal.example.edu".to_string(), ..Config::default() };
    assert_eq!(config_error(&mut c), "portal_url must not contain embedded credentials");
    let mut c = Config { portal_url: "http://portal.example.edu/?a=1".to_string(), ..Config::default() };
    assert_eq!(config_error(&mut c), "portal_url must not contain a query string or fragment");
    let mut c = Config { portal_url: "not a url".to_string(), ..Config::default() };
    assert!(config_error(&mut c).starts_with("portal_url is not a valid URL: "));
}

#[test]
fn trailing_slashes_are_all_removed() {
    let mut c = Config { portal_url: "http://portal.example.edu///".to_string(), ..Config::default() };
    c.validate().unwrap();
    assert_eq!(c.portal_url, "http://portal.example.edu");
}

#[test]
fn settings_problems_are_reported() {
    let mut c = Config { ac_id: "  ".to_string(), ..Config::default() };
    assert_eq!(config_error(&mut c), "ac_id cannot be empty");
    let mut c = Config { server: ServerConfig { host: " ".to_string(), ..ServerConfig::default() }, ..Config::default() };
    assert_eq!(config_error(&mut c), "server.host cannot be empty");
    let mut c = Config { server: ServerConfig { api_key: Some(" key".to_string()), ..ServerConfig::default() }, ..Config::default() };
    assert_eq!(config_error(&mut c), "server.api_key cannot have leading or trailing whitespace");
    let mut c = Config { userinfo_path: Some(" ".to_string()), ..Config::default() };
    assert_eq!(config_error(&mut c), "userinfo_path cannot be empty when provided");
    let mut c = Config { server: ServerConfig { api_key: Some("key".to_string()), ..ServerConfig::default() }, ..Config::default() };
    assert!(c.validate().is_ok());
}

#[test]
fn validating_twice_changes_nothing() {
    let mut c = Config {
        portal_url: "  https://portal.example.edu/// ".to_string(),
        ac_id: "\t7 ".to_string(),
        server: ServerConfig { host: " 0.0.0.0".to_string(), api_key: Some("k".to_string()), ..ServerConfig::default() },
        userinfo_path: Some(" users.json ".to_string()),
    };
    c.validate().unwrap();
    let first = c.clone();
    c.validate().unwrap();
    assert_eq!(c.portal_url, first.portal_url);
    assert_eq!(c.ac_id, first.ac_id);
    assert_eq!(c.server.host, first.server.host);
    assert_eq!(c.userinfo_path, first.userinfo_path);
}

#[test]
fn whitespace_before_a_trailing_slash_is_trimmed_only_on_the_next_pass() {
    let mut c = Config { portal_url: "http://portal.example.edu /".to_string(), ..Config::default() };
    c.validate().unwrap();
    assert_eq!(c.portal_url, "http://portal.example.edu ");
    c.validate().unwrap();
    assert_eq!(c.portal_url, "http://portal.example.edu");
}

fn parsed(scheme: &str, host: Option<&str>) -> srun_auto_dial::config::ParsedUrl {
    srun_auto_dial::config::ParsedUrl {
        scheme: scheme.to_string(),
        host: host.map(|h| h.to_string()),
        username: String::new(),
        password: None,
        query: None,
        fragment: None,
    }
}

#[test]
fn parsed_portal_urls_are_checked_part_by_part() {
    assert!(check_portal_url(Ok(parsed("https", Some("p.example")))).is_ok());
    assert!(check_portal_url(Ok(parsed("http", Some("p.example")))).is_ok());
    let msg = |r: Result<(), SrunError>| match r {
        Err(SrunError::Config(m)) => m,
        other => panic!("unexpected {other:?}"),
    };
    assert_eq!(msg(check_portal_url(Err("relative URL without a base".to_string()))), "portal_url is not a valid URL: relative URL without a base");
    assert_eq!(msg(check_portal_url(Ok(parsed("file", Some("x"))))), "portal_url must be an absolute http:// or https:// URL");
    assert_eq!(msg(check_portal_url(Ok(parsed("http", None)))), "portal_url must be an absolute http:// or https:// URL");
    let mut with_user = parsed("http", Some("x"));
    with_user.username = "u".to_string();
    assert_eq!(msg(check_portal_url(Ok(with_user))), "portal_url must not contain embedded credentials");
    let mut with_password = parsed("http", Some("x"));
    with_password.password = Some("p".to_string());
    assert_eq!(msg(check_portal_url(Ok(with_password))), "portal_url must not contain embedded credentials");
    let mut with_fragment = parsed("http", Some("x"));
    with_fragment.fragment = Some("f".to_string());
    assert_eq!(msg(check_portal_url(Ok(with_fragment))), "portal_url must not contain a query string or fragment");
}

#[test]
fn a_missing_implicit_config_file_means_the_defaults() {
    let config = config_read_failure(None, true, "No such file or directory (os error 2)").unwrap();
    assert_eq!(config.portal_url, "http://portal.hdu.edu.cn");
    assert_eq!(config.ac_id, "1");
    assert!(config.userinfo_path.is_none());
    assert_eq!(config.server.host, "127.0.0.1");
    assert_eq!(config.server.port, 3000);
    assert!(config.server.api_key.is_none());
}

#[test]
fn a_missing_explicit_config_file_is_an_error() {
    match config_read_failure(Some("/etc/srun.toml"), true, "No such file or directory (os error 2)") {
        Err(SrunError::Config(m)) => assert_eq!(
            m,
            "failed to read configuration file '/etc/srun.toml': No such file or directory (os error 2)"
        ),
        other => panic!("unexpected {other:?}"),
    }
}

#[test]
fn an_unreadable_implicit_config_file_is_an_error() {
    match config_read_failure(None, false, "Permission denied (os error 13)") {
        Err(SrunError::Config(m)) => {
            assert_eq!(m, "failed to read 'srun.toml': Permission denied (os error 13)")
        }
        other => panic!("unexpected {other:?}"),
    }
}

#[test]
fn config_parse_failures_name_the_file() {
    match config_parse_failure(Some("a.toml"), "expected `=`") {
        SrunError::Config(m) => assert_eq!(m, "failed to parse configuration file 'a.toml': expected `=`"),
        other => panic!("unexpected {other:?}"),
    }
    match config_parse_failure(None, "expected `=`") {
        SrunError::Config(m) => assert_eq!(m, "failed to parse 'srun.toml': expected `=`"),
        other => panic!("unexpected {other:?}"),
    }
}
