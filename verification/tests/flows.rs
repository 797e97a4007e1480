use srun_auto_dial::error::SrunError;
use srun_auto_dial::service::flows::{
    logout_target, status_of_userinfo, LoginAction, LoginFlow, LoginPhase, LogoutAction,
};
use srun_auto_dial::srun::UserInfo;

fn seen(ip: u32, user: Option<&str>) -> UserInfo {
    UserInfo { ip, online_user: user.map(|u| u.to_string()), online_mac: None }
}

#[test]
fn login_runs_userinfo_challenge_login() {
    let (mut flow, action) = LoginFlow::new("alice".to_string(), Some("02:00:00:00:00:01".to_string()), Some(7));
    assert!(matches!(action, LoginAction::FetchUserinfo));
    assert_eq!(flow.phase(), LoginPhase::AwaitUserinfo);
    assert!(matches!(flow.on_userinfo(Ok(seen(7, None))), LoginAction::FetchChallenge { ip: 7 }));
    match flow.on_challenge(Ok("c0ffee".to_string())) {
        LoginAction::SendLogin { ip, challenge } => assert_eq!((ip, challenge.as_str()), (7, "c0ffee")),
        _ => panic!("expected a login"),
    }
    match flow.on_login(Ok(())) {
        LoginAction::Done(Ok(r)) => {
            assert_eq!(r.ip, 7);
            assert_eq!(r.username, "alice");
            assert_eq!(r.mac.as_deref(), Some("02:00:00:00:00:01"));
        }
        _ => panic!("expected success"),
    }
    assert_eq!(flow.phase(), LoginPhase::Finished);
}

#[test]
fn login_stops_when_the_portal_sees_another_address() {
    let (mut flow, _) = LoginFlow::new("alice".to_string(), None, Some(7));
    match flow.on_userinfo(Ok(seen(8, None))) {
        LoginAction::Done(Err(SrunError::IpMismatch { dhcp, portal })) => assert_eq!((dhcp, portal), (7, 8)),
        _ => panic!("expected a mismatch"),
    }
    assert_eq!(flow.phase(), LoginPhase::Finished);
}

#[test]
fn login_stops_when_someone_is_online() {
    let (mut flow, _) = LoginFlow::new("alice".to_string(), None, None);
    match flow.on_userinfo(Ok(seen(8, Some("bob")))) {
        LoginAction::Done(Err(SrunError::AlreadyOnline { mac, user })) => assert_eq!((mac.as_str(), user.as_str()), ("unknown", "bob")),
        _ => panic!("expected already online"),
    }
}

#[test]
fn login_passes_request_failures_through() {
    let (mut flow, _) = LoginFlow::new("alice".to_string(), None, None);
    assert!(matches!(flow.on_userinfo(Err(SrunError::JsonpParse)), LoginAction::Done(Err(SrunError::JsonpParse))));
    let (mut flow, _) = LoginFlow::new("alice".to_string(), None, None);
    flow.on_userinfo(Ok(seen(1, None)));
    assert!(matches!(flow.on_challenge(Err(SrunError::PortalHttpStatus(500))), LoginAction::Done(Err(SrunError::PortalHttpStatus(500)))));
    let (mut flow, _) = LoginFlow::new("alice".to_string(), None, None);
    flow.on_userinfo(Ok(seen(1, None)));
    flow.on_challenge(Ok("c".to_string()));
    assert!(matches!(flow.on_login(Err(SrunError::NoUserOnline)), LoginAction::Done(Err(SrunError::NoUserOnline))));
}

#[test]
fn logout_needs_someone_online_at_the_leased_address() {
    match logout_target(None, Ok(seen(3, Some("bob")))) {
        LogoutAction::SendLogout { username, ip } => assert_eq!((username.as_str(), ip), ("bob", 3)),
        _ => panic!("expected a logout"),
    }
    assert!(matches!(logout_target(None, Ok(seen(3, None))), LogoutAction::Done(Err(SrunError::NoUserOnline))));
    assert!(matches!(logout_target(Some(4), Ok(seen(3, Some("bob")))), LogoutAction::Done(Err(SrunError::IpMismatch { .. }))));
    assert!(matches!(logout_target(Some(3), Err(SrunError::JsonpParse)), LogoutAction::Done(Err(SrunError::JsonpParse))));
}

#[test]
fn status_reports_what_the_portal_sees() {
    let s = status_of_userinfo(Some(3), Ok(seen(3, Some("bob")))).unwrap();
    assert_eq!((s.ip, s.online_user.as_deref()), (3, Some("bob")));
    assert!(matches!(status_of_userinfo(Some(4), Ok(seen(3, None))), Err(SrunError::IpMismatch { dhcp: 4, portal: 3 })));
    assert!(status_of_userinfo(None, Ok(seen(3, None))).is_ok());
}
