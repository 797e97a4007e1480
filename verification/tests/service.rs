use srun_auto_dial::error::SrunError;
use srun_auto_dial::net::dhcp::DhcpInfo;
use srun_auto_dial::net::link::Link;
use srun_auto_dial::service::batch::{available_accounts, nth_available, validate_batch_count, BatchPlan};
use srun_auto_dial::service::checks::{
    check_ip, check_not_online, credential_file_error, netmask_prefix, validate_credentials,
    validate_interface,
};
use srun_auto_dial::service::interfaces::{stale_interfaces, visible_interfaces};
use srun_auto_dial::service::model::{LoginResult, RandomLoginResult, User};
use srun_auto_dial::service::session::{
    combine_operation_and_cleanup_errors, deferred_cleanup_step, finish_failed_session,
    finish_session, stale_removal, CleanupStep, DeferredStep, MacvlanSession,
};
use srun_auto_dial::service::users::{
    check_credentials_file, parse_failure, pick_user, read_failure, resolve_userinfo_path, user_at,
    validate_users,
};
use srun_auto_dial::srun::UserInfo;

fn ip(a: u8, b: u8, c: u8, d: u8) -> u32 {
    u32::from_be_bytes([a, b, c, d])
}

#[test]
fn validates_contiguous_netmasks() {
    assert_eq!(netmask_prefix(ip(255, 255, 255, 0)).unwrap(), 24);
    assert!(netmask_prefix(ip(255, 0, 255, 0)).is_err());
}

#[test]
fn username_alone_still_means_online() {
    let info = UserInfo {
        ip: ip(192, 0, 2, 1),
        online_user: Some("alice".to_string()),
        online_mac: None,
    };
    assert!(check_not_online(&info).is_err());
}

#[test]
fn online_user_is_reported_with_mac() {
    let info = UserInfo { ip: ip(192, 0, 2, 1), online_user: Some("alice".to_string()), online_mac: None };
    match check_not_online(&info) {
        Err(SrunError::AlreadyOnline { mac, user }) => assert_eq!((mac.as_str(), user.as_str()), ("unknown", "alice")),
        other => panic!("unexpected {other:?}"),
    }
    let info = UserInfo { ip: 1, online_user: None, online_mac: Some("aa".to_string()) };
    assert!(check_not_online(&info).is_ok());
}

#[test]
fn netmask_errors_and_edges() {
    assert_eq!(netmask_prefix(ip(255, 255, 255, 255)).unwrap(), 32);
    match netmask_prefix(0) {
        Err(SrunError::Dhcp(m)) => assert_eq!(m, "invalid non-contiguous subnet mask 0.0.0.0"),
        other => panic!("unexpected {other:?}"),
    }
    match netmask_prefix(ip(255, 0, 255, 0)) {
        Err(SrunError::Dhcp(m)) => assert_eq!(m, "invalid non-contiguous subnet mask 255.0.255.0"),
        other => panic!("unexpected {other:?}"),
    }
}

#[test]
fn ip_mismatch_names_both_addresses() {
    assert!(check_ip(5, 5).is_ok());
    let e = check_ip(ip(192, 0, 2, 10), ip(192, 0, 2, 11)).unwrap_err();
    assert_eq!(e.describe(), "IP address mismatch: DHCP=192.0.2.10, portal=192.0.2.11");
    assert_eq!(e.status_code(), 409);
    assert_eq!(e.code(), "ip_mismatch");
}

#[test]
fn interface_names_must_be_linux_names() {
    assert!(validate_interface("eth0", "interface").is_ok());
    for bad in ["", "  ", " eth0", "eth0 ", "abcdefghijklmnop", "et\0h"] {
        assert!(validate_interface(bad, "interface").is_err(), "{bad:?}");
    }
    match validate_interface("abcdefghijklmnop", "parent_interface") {
        Err(SrunError::Validation { field, message }) => {
            assert_eq!(field, "parent_interface");
            assert_eq!(message, "parent_interface is not a valid Linux interface name.");
        }
        other => panic!("unexpected {other:?}"),
    }
    assert!(validate_interface("abcdefghijklmno", "interface").is_ok());
}

#[test]
fn credentials_need_username_and_password() {
    assert!(validate_credentials("alice", "x").is_ok());
    match validate_credentials(" ", "x") {
        Err(SrunError::Validation { field, message }) => assert_eq!((field, message.as_str()), ("username", "username cannot be empty.")),
        other => panic!("unexpected {other:?}"),
    }
    match validate_credentials("alice", "") {
        Err(SrunError::Validation { field, message }) => assert_eq!((field, message.as_str()), ("password", "password cannot be empty.")),
        other => panic!("unexpected {other:?}"),
    }
}

#[test]
fn credential_file_errors_are_charged_to_the_right_party() {
    assert!(matches!(credential_file_error(true, "d".to_string()), SrunError::UserData(d) if d == "d"));
    assert!(matches!(credential_file_error(false, "d".to_string()), SrunError::CredentialStore(d) if d == "d"));
    assert_eq!(credential_file_error(true, "d".to_string()).status_code(), 422);
    assert_eq!(credential_file_error(false, "d".to_string()).status_code(), 500);
}

fn user(name: &str, password: &str) -> User {
    User { username: name.to_string(), password: password.to_string() }
}

fn store_message(e: SrunError) -> String {
    match e {
        SrunError::UserData(m) | SrunError::CredentialStore(m) => m,
        other => panic!("unexpected {other:?}"),
    }
}

#[test]
fn credentials_file_path_and_metadata() {
    assert_eq!(resolve_userinfo_path(Some("a.json"), Some("b.json")).unwrap(), "a.json");
    assert_eq!(resolve_userinfo_path(None, Some("b.json")).unwrap(), "b.json");
    assert_eq!(resolve_userinfo_path(None, None).unwrap(), "userinfo.json");
    assert!(matches!(resolve_userinfo_path(Some(" "), None), Err(SrunError::Validation { field: "userinfo_path", .. })));
    assert!(check_credentials_file("u.json", true, true, 10).is_ok());
    assert_eq!(store_message(check_credentials_file("u.json", true, false, 10).unwrap_err()), "credentials path 'u.json' is not a file");
    assert_eq!(
        store_message(check_credentials_file("u.json", false, true, 1048577).unwrap_err()),
        "credentials file 'u.json' exceeds the 1048576-byte limit"
    );
    assert!(check_credentials_file("u.json", false, true, 1048576).is_ok());
    assert_eq!(store_message(read_failure("u.json", true, "denied")), "could not read credentials file 'u.json': denied");
    assert_eq!(
        store_message(parse_failure("u.json", false, 3, 14)),
        "credentials file 'u.json' is not a valid user array (line 3, column 14)"
    );
}

#[test]
fn user_lists_must_be_non_empty_complete_and_distinct() {
    assert!(validate_users(&vec![user("a", "1"), user("b", "2")], "u.json", true).is_ok());
    assert_eq!(
        store_message(validate_users(&vec![], "u.json", true).unwrap_err()),
        "credentials file 'u.json' does not contain any users"
    );
    assert_eq!(
        store_message(validate_users(&vec![user("a", "1"), user(" ", "2")], "u.json", true).unwrap_err()),
        "credentials file 'u.json' has an empty username or password at item 2"
    );
    assert_eq!(
        store_message(validate_users(&vec![user("a", "1"), user("b", "2"), user("a", "3")], "u.json", false).unwrap_err()),
        "credentials file 'u.json' contains a duplicate username at item 3"
    );
    assert!(matches!(validate_users(&vec![user("a", "")], "u.json", false), Err(SrunError::CredentialStore(_))));
}

#[test]
fn picked_user_comes_from_the_list() {
    for _ in 0..16 {
        let u = pick_user(vec![user("a", "1"), user("b", "2"), user("c", "3")]);
        assert!(["a", "b", "c"].contains(&u.username.as_str()));
        assert_eq!(u.password, match u.username.as_str() { "a" => "1", "b" => "2", _ => "3" });
    }
}

#[test]
fn batch_counts_are_bounded() {
    assert!(validate_batch_count(1).is_ok());
    assert!(validate_batch_count(100).is_ok());
    for bad in [0, 101] {
        match validate_batch_count(bad) {
            Err(SrunError::Validation { field, message }) => {
                assert_eq!(field, "count");
                assert_eq!(message, "count must be between 1 and 100.");
            }
            other => panic!("unexpected {other:?}"),
        }
    }
}

fn login(name: &str) -> LoginResult {
    LoginResult { ip: 1, username: name.to_string(), mac: Some("02:00:00:00:00:01".to_string()) }
}

#[test]
fn batch_uses_each_account_at_most_three_times() {
    let mut plan = BatchPlan::new(vec![user("a", "1"), user("b", "2")], 10);
    let mut used = std::collections::HashMap::new();
    let mut attempts = 0;
    while let Some((name, _)) = plan.next_attempt() {
        *used.entry(name.clone()).or_insert(0) += 1;
        attempts += 1;
        plan.record(format!("mac{attempts}"), Ok(login(&name)));
    }
    assert_eq!(attempts, 6);
    assert_eq!(used.get("a"), Some(&3));
    assert_eq!(used.get("b"), Some(&3));
    let summary = plan.finish();
    assert_eq!(summary.requested, 10);
    assert_eq!(summary.attempted, 6);
    assert_eq!(summary.succeeded, 6);
    assert_eq!(summary.failed, 0);
    assert_eq!(
        summary.stopped_reason.as_deref(),
        Some("Stopped because every account reached the per-batch limit of 3 attempts.")
    );
    assert_eq!(summary.results[0].mac, "mac1");
}

#[test]
fn batch_stops_after_a_cleanup_failure() {
    let mut plan = BatchPlan::new(vec![user("a", "1")], 3);
    let (name, _) = plan.next_attempt().unwrap();
    assert_eq!(name, "a");
    assert!(plan.next_attempt().is_none(), "an attempt is already under way");
    plan.record("m1".to_string(), Err(SrunError::NoUserOnline));
    plan.next_attempt().unwrap();
    plan.record(
        "m2".to_string(),
        Err(SrunError::CleanupFailed { operation: "login", details: "busy".to_string() }),
    );
    assert!(plan.next_attempt().is_none());
    let summary = plan.finish();
    assert_eq!(summary.attempted, 2);
    assert_eq!(summary.succeeded, 0);
    assert_eq!(summary.failed, 2);
    assert_eq!(
        summary.stopped_reason.as_deref(),
        Some("Stopped because a temporary interface could not be cleaned up safely.")
    );
    let first = summary.results[0].error.as_ref().unwrap();
    assert_eq!(first.code, "not_online");
    assert_eq!(first.message, "no user is currently online");
}

#[test]
fn batch_stops_at_the_requested_count() {
    let mut plan = BatchPlan::new(vec![user("a", "1"), user("b", "2")], 2);
    for i in 0..2 {
        let (name, _) = plan.next_attempt().unwrap();
        plan.record(format!("m{i}"), Ok(login(&name)));
    }
    assert!(plan.next_attempt().is_none());
    let summary = plan.finish();
    assert_eq!((summary.attempted, summary.succeeded, summary.failed), (2, 2, 0));
    assert!(summary.stopped_reason.is_none());
}

#[test]
fn attempt_records_keep_data_or_error() {
    let ok = RandomLoginResult::from_result("m".to_string(), Ok(login("a")));
    assert!(ok.success && ok.error.is_none());
    assert_eq!(ok.data.unwrap().username, "a");
    let err = RandomLoginResult::from_result("m".to_string(), Err(SrunError::OperationBusy));
    assert!(!err.success && err.data.is_none());
    let e = err.error.unwrap();
    assert_eq!(e.code, "operation_in_progress");
    assert_eq!(e.message, "another network operation is already in progress");
}

#[test]
fn session_owns_its_interface_until_removed() {
    let mut s = MacvlanSession::new("srn000000000001".to_string());
    assert!(s.cleanup_needed());
    assert!(matches!(s.session_ip(), Err(SrunError::Dhcp(m)) if m == "temporary interface has no DHCP lease"));
    s.record_lease(DhcpInfo { ip: 7, netmask: 0xffffff00, gateway: 1 });
    assert_eq!(s.session_ip().unwrap(), 7);
    assert!(matches!(s.after_delete_attempt(1, Err(SrunError::Netlink("busy".to_string()))), CleanupStep::Retry));
    assert!(s.cleanup_needed());
    assert!(matches!(s.after_delete_attempt(2, Ok(())), CleanupStep::Done));
    assert!(!s.cleanup_needed());

    let mut s = MacvlanSession::new("srn000000000002".to_string());
    assert!(matches!(s.after_delete_attempt(1, Err(SrunError::InterfaceNotFound("x".to_string()))), CleanupStep::Done));
    assert!(!s.cleanup_needed());

    let mut s = MacvlanSession::new("srn000000000003".to_string());
    assert!(matches!(s.after_delete_attempt(2, Err(SrunError::Netlink("a".to_string()))), CleanupStep::Retry));
    match s.after_delete_attempt(3, Err(SrunError::Netlink("b".to_string()))) {
        CleanupStep::Failed(SrunError::Netlink(m)) => assert_eq!(m, "b"),
        _ => panic!("expected failure"),
    }
    assert!(s.cleanup_needed());

    let mut s = MacvlanSession::new("srn000000000004".to_string());
    s.disown();
    assert!(!s.cleanup_needed());
}

#[test]
fn deferred_removal_waits_for_late_interfaces() {
    assert!(matches!(deferred_cleanup_step(0, Ok(())), DeferredStep::Stop));
    for attempt in 0..4 {
        assert!(matches!(deferred_cleanup_step(attempt, Err(SrunError::InterfaceNotFound("x".into()))), DeferredStep::Retry));
    }
    assert!(matches!(deferred_cleanup_step(4, Err(SrunError::InterfaceNotFound("x".into()))), DeferredStep::Stop));
    assert!(matches!(deferred_cleanup_step(1, Err(SrunError::Netlink("e".into()))), DeferredStep::Report(SrunError::Netlink(_))));
    assert!(stale_removal(Ok(())).is_ok());
    assert!(stale_removal(Err(SrunError::InterfaceNotFound("x".into()))).is_ok());
    assert!(matches!(stale_removal(Err(SrunError::Netlink("e".into()))), Err(SrunError::Netlink(_))));
}

#[test]
fn cleanup_failures_are_never_hidden() {
    let r: Result<u32, SrunError> = finish_session(Ok(()), Ok(5), "login");
    assert_eq!(r.unwrap(), 5);
    let r: Result<u32, SrunError> = finish_session(Ok(()), Err(SrunError::NoUserOnline), "login");
    assert!(matches!(r, Err(SrunError::NoUserOnline)));
    let r: Result<u32, SrunError> = finish_session(Err(SrunError::Netlink("busy".into())), Ok(5), "login");
    match r {
        Err(e @ SrunError::CleanupFailed { .. }) => {
            assert_eq!(e.describe(), "login completed, but temporary-interface cleanup failed: netlink error: busy");
            assert_eq!(e.code(), "cleanup_failed_after_success");
        }
        other => panic!("unexpected {other:?}"),
    }
    let r: Result<u32, SrunError> = finish_session(Err(SrunError::Netlink("busy".into())), Err(SrunError::NoUserOnline), "logout");
    match r {
        Err(e) => assert_eq!(
            e.describe(),
            "logout failed (no user is currently online); temporary-interface cleanup also failed: netlink error: busy"
        ),
        Ok(_) => panic!("expected an error"),
    }
    assert!(matches!(finish_failed_session(Ok(()), SrunError::OperationBusy, "macvlan setup"), SrunError::OperationBusy));
    let e = finish_failed_session(Err(SrunError::Io("x".into())), SrunError::OperationBusy, "macvlan setup");
    assert_eq!(e.code(), "operation_failed_cleanup_incomplete");
    let e = combine_operation_and_cleanup_errors("status check", SrunError::NoUserOnline, SrunError::Io("gone".into()));
    assert_eq!(
        e.public_message(),
        "The status check failed, and the temporary network interface could not be removed. Check the server logs and network state before retrying."
    );
}

fn link(index: u32, name: &str) -> Link {
    Link { index, name: name.to_string() }
}

#[test]
fn interfaces_are_listed_without_temporary_ones_loopback_last() {
    let links = vec![
        link(1, "lo"),
        link(3, "wlan0"),
        link(7, "srn0123456789ab"),
        link(2, "eth0"),
        link(9, "srnzzz"),
    ];
    let names: Vec<(u32, String)> = visible_interfaces(links.clone()).into_iter().map(|l| (l.index, l.name)).collect();
    assert_eq!(
        names,
        vec![(2, "eth0".to_string()), (3, "wlan0".to_string()), (9, "srnzzz".to_string()), (1, "lo".to_string())]
    );
    assert_eq!(stale_interfaces(&links), vec!["srn0123456789ab".to_string()]);
    assert!(visible_interfaces(Vec::new()).is_empty());
}

#[test]
fn batch_makes_every_requested_attempt_when_accounts_suffice() {
    let mut plan = BatchPlan::new(vec![user("a", "1"), user("b", "2")], 4);
    let mut attempts = 0;
    while let Some((name, _)) = plan.next_attempt() {
        attempts += 1;
        let result = if attempts % 2 == 0 { Ok(login(&name)) } else { Err(SrunError::NoUserOnline) };
        plan.record(format!("mac{attempts}"), result);
    }
    assert_eq!(attempts, 4);
    let summary = plan.finish();
    assert_eq!(summary.attempted, 4);
    assert_eq!(summary.succeeded, 2);
    assert_eq!(summary.failed, 2);
    assert!(summary.stopped_reason.is_none());
    for outcome in &summary.results {
        assert_eq!(outcome.success, outcome.data.is_some());
        assert_eq!(outcome.success, outcome.error.is_none());
    }
}

#[test]
fn user_at_takes_the_indexed_account() {
    let users = vec![user("a", "1"), user("b", "2"), user("c", "3")];
    let picked = user_at(users, 2);
    assert_eq!(picked.username, "c");
    assert_eq!(picked.password, "3");
}

#[test]
fn available_accounts_are_those_under_the_limit_in_order() {
    let usage = vec![3, 0, 3, 2, 1];
    assert_eq!(available_accounts(&usage), vec![1, 3, 4]);
    assert_eq!(nth_available(&usage, 0), 1);
    assert_eq!(nth_available(&usage, 1), 3);
    assert_eq!(nth_available(&usage, 2), 4);
    assert!(available_accounts(&vec![3, 3]).is_empty());
}

#[test]
fn attempt_with_uses_the_drawn_account() {
    let mut plan = BatchPlan::new(vec![user("a", "1"), user("b", "2"), user("c", "3")], 5);
    let (name, password) = plan.attempt_with(2);
    assert_eq!((name.as_str(), password.as_str()), ("c", "3"));
    plan.record("m1".to_string(), Err(SrunError::NoUserOnline));
    let (name, _) = plan.attempt_with(0);
    assert_eq!(name, "a");
}
