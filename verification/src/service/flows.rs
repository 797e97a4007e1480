//! The order of a portal operation's exchanges and what each reply decides.
//! A login asks the portal what it sees, refuses to go on over an address it
//! sees as someone else's or as already online, then fetches a challenge and
//! sends the login; a logout needs someone online to log out; a status check
//! only reads. The caller performs each exchange and hands the reply back.

use vstd::prelude::*;
use crate::error::SrunError;
use crate::service::checks::{check_ip, check_not_online};
use crate::service::model::{LoginResult, StatusResult};
use crate::srun::UserInfo;

verus! {

/// Whether the portal's view of an address lets an operation go on: when the
/// operation runs over a leased address, the portal must see that address.
pub open spec fn address_agrees(expected_ip: Option<u32>, portal_ip: u32) -> bool {
    match expected_ip {
        Some(x) => x == portal_ip,
        None => true,
    }
}

/// The error for an address the portal sees differently, if it does.
pub open spec fn mismatch(expected_ip: Option<u32>, portal_ip: u32) -> Option<SrunError> {
    match expected_ip {
        Some(x) => if x != portal_ip {
            Some(SrunError::IpMismatch { dhcp: x, portal: portal_ip })
        } else {
            None
        },
        None => None,
    }
}

fn check_address(expected_ip: Option<u32>, portal_ip: u32) -> (r: Result<(), SrunError>)
    ensures
        match mismatch(expected_ip, portal_ip) {
            Some(e) => r == Err::<(), SrunError>(e),
            None => r is Ok,
        },
{
    match expected_ip {
        Some(x) => check_ip(x, portal_ip),
        None => Ok(()),
    }
}

/// Where a login stands.
#[derive(PartialEq, Eq, Structural, Clone, Copy, Debug)]
pub enum LoginPhase {
    AwaitUserinfo,
    AwaitChallenge,
    AwaitLogin,
    Finished,
}

/// What the caller does next in a login.
pub enum LoginAction {
    /// Ask the portal what it sees for this address.
    FetchUserinfo,
    /// Ask for a challenge for the account at the portal-seen `ip`.
    FetchChallenge { ip: u32 },
    /// Send the login with `challenge` for the portal-seen `ip`.
    SendLogin { ip: u32, challenge: String },
    /// The login is over.
    Done(Result<LoginResult, SrunError>),
}

/// A login of `username`, over a leased address `expected_ip` when it runs
/// on a temporary interface whose MAC text is `mac`.
pub struct LoginFlow {
    username: String,
    mac: Option<String>,
    expected_ip: Option<u32>,
    phase: LoginPhase,
    portal_ip: u32,
    vacant: bool,
}

impl LoginFlow {
    /// The account.
    pub closed spec fn account(&self) -> Seq<char> {
        self.username@
    }

    /// The MAC text reported with the result.
    pub closed spec fn mac_text(&self) -> Option<String> {
        self.mac
    }

    /// The leased address the portal must see, if any.
    pub closed spec fn expected(&self) -> Option<u32> {
        self.expected_ip
    }

    /// Where the login stands.
    pub closed spec fn phase_spec(&self) -> LoginPhase {
        self.phase
    }

    /// The address the portal reported (meaningful once past the user
    /// information).
    pub closed spec fn portal_ip(&self) -> u32 {
        self.portal_ip
    }

    /// Whether the portal reported nobody online at its address.
    pub closed spec fn nobody_online(&self) -> bool {
        self.vacant
    }

    /// Once past the user information, the portal's address agrees with the
    /// lease and nobody is online there.
    pub open spec fn wf(&self) -> bool {
        (self.phase_spec() == LoginPhase::AwaitChallenge || self.phase_spec() == LoginPhase::AwaitLogin)
            ==> address_agrees(self.expected(), self.portal_ip()) && self.nobody_online()
    }

    /// Starts a login; the first step is to ask for the user information.
    pub fn new(username: String, mac: Option<String>, expected_ip: Option<u32>) -> (r: (LoginFlow, LoginAction))
        ensures
            r.0.wf(),
            r.0.account() == username@,
            r.0.mac_text() == mac,
            r.0.expected() == expected_ip,
            r.0.phase_spec() == LoginPhase::AwaitUserinfo,
            r.1 is FetchUserinfo,
    {
        (LoginFlow { username, mac, expected_ip, phase: LoginPhase::AwaitUserinfo, portal_ip: 0, vacant: false }, LoginAction::FetchUserinfo)
    }

    /// The current phase.
    pub fn phase(&self) -> (r: LoginPhase)
        ensures
            r == self.phase_spec(),
    {
        self.phase
    }

    /// Takes the user information: a failed request ends the login; an address
    /// other than the lease, or one with a user online, ends it with that error;
    /// otherwise a challenge is fetched for the portal's address.
    pub fn on_userinfo(&mut self, info: Result<UserInfo, SrunError>) -> (r: LoginAction)
        requires
            old(self).wf(),
            old(self).phase_spec() == LoginPhase::AwaitUserinfo,
        ensures
            final(self).wf(),
            final(self).account() == old(self).account(),
            final(self).mac_text() == old(self).mac_text(),
            final(self).expected() == old(self).expected(),
            match info {
                Err(e) => r == LoginAction::Done(Err(e)) && final(self).phase_spec() == LoginPhase::Finished,
                Ok(u) => match mismatch(old(self).expected(), u.ip) {
                    Some(e) => r == LoginAction::Done(Err(e)) && final(self).phase_spec() == LoginPhase::Finished,
                    None => match u.online_user {
                        Some(user) => (r matches LoginAction::Done(Err(SrunError::AlreadyOnline { mac, user: who })) && who == user
                            && mac@ == (match u.online_mac {
                            Some(m) => m@,
                            None => "unknown"@,
                        })) && final(self).phase_spec() == LoginPhase::Finished,
                        None => r == (LoginAction::FetchChallenge { ip: u.ip })
                            && final(self).phase_spec() == LoginPhase::AwaitChallenge && final(self).portal_ip() == u.ip,
                    },
                },
            },
    {
        let u = match info {
            Ok(u) => u,
            Err(e) => {
                self.phase = LoginPhase::Finished;
                return LoginAction::Done(Err(e));
            },
        };
        match check_address(self.expected_ip, u.ip) {
            Ok(()) => {},
            Err(e) => {
                self.phase = LoginPhase::Finished;
                return LoginAction::Done(Err(e));
            },
        }
        match check_not_online(&u) {
            Ok(()) => {},
            Err(e) => {
                self.phase = LoginPhase::Finished;
                return LoginAction::Done(Err(e));
            },
        }
        self.portal_ip = u.ip;
        self.vacant = true;
        self.phase = LoginPhase::AwaitChallenge;
        LoginAction::FetchChallenge { ip: u.ip }
    }

    /// Takes the challenge: without one the login ends; with one the login is
    /// sent for the portal's address.
    pub fn on_challenge(&mut self, challenge: Result<String, SrunError>) -> (r: LoginAction)
        requires
            old(self).wf(),
            old(self).phase_spec() == LoginPhase::AwaitChallenge,
        ensures
            final(self).wf(),
            final(self).account() == old(self).account(),
            final(self).mac_text() == old(self).mac_text(),
            final(self).expected() == old(self).expected(),
            final(self).portal_ip() == old(self).portal_ip(),
            final(self).nobody_online() == old(self).nobody_online(),
            match challenge {
                Err(e) => r == LoginAction::Done(Err(e)) && final(self).phase_spec() == LoginPhase::Finished,
                Ok(c) => r == (LoginAction::SendLogin { ip: old(self).portal_ip(), challenge: c })
                    && final(self).phase_spec() == LoginPhase::AwaitLogin,
            },
    {
        match challenge {
            Ok(c) => {
                self.phase = LoginPhase::AwaitLogin;
                LoginAction::SendLogin { ip: self.portal_ip, challenge: c }
            },
            Err(e) => {
                self.phase = LoginPhase::Finished;
                LoginAction::Done(Err(e))
            },
        }
    }

    /// Takes the portal's answer to the login: success reports the portal's
    /// address, the account and the MAC text.
    pub fn on_login(&mut self, outcome: Result<(), SrunError>) -> (r: LoginAction)
        requires
            old(self).wf(),
            old(self).phase_spec() == LoginPhase::AwaitLogin,
        ensures
            final(self).phase_spec() == LoginPhase::Finished,
            match outcome {
                Err(e) => r == LoginAction::Done(Err(e)),
                Ok(()) => r matches LoginAction::Done(Ok(res)) && res.ip == old(self).portal_ip()
                    && res.username@ == old(self).account() && res.mac == old(self).mac_text(),
            },
    {
        self.phase = LoginPhase::Finished;
        match outcome {
            Ok(()) => LoginAction::Done(
                Ok(LoginResult { ip: self.portal_ip, username: self.username.clone(), mac: self.mac.clone() }),
            ),
            Err(e) => LoginAction::Done(Err(e)),
        }
    }
}

/// A login is sent only for the address the portal reported, with nobody
/// online there, and, over a temporary interface, only when that address is
/// the lease: a flow that asks to send a login has passed those checks.
pub proof fn lemma_login_sent_only_after_checks(flow: LoginFlow)
    requires
        flow.wf(),
        flow.phase_spec() == LoginPhase::AwaitLogin,
    ensures
        address_agrees(flow.expected(), flow.portal_ip()),
        flow.nobody_online(),
{
}

/// What the caller does with the portal's view of an address in a logout.
pub enum LogoutAction {
    /// Send the logout of `username` at the portal-seen `ip`.
    SendLogout { username: String, ip: u32 },
    /// The logout is over.
    Done(Result<(), SrunError>),
}

/// The logout to send for the portal's view of an address: the user online
/// there, at the portal's address, when that address agrees with the lease.
pub fn logout_target(expected_ip: Option<u32>, info: Result<UserInfo, SrunError>) -> (r: LogoutAction)
    ensures
        match info {
            Err(e) => r == LogoutAction::Done(Err(e)),
            Ok(u) => match mismatch(expected_ip, u.ip) {
                Some(e) => r == LogoutAction::Done(Err(e)),
                None => match u.online_user {
                    Some(user) => r == (LogoutAction::SendLogout { username: user, ip: u.ip }),
                    None => r == LogoutAction::Done(Err(SrunError::NoUserOnline)),
                },
            },
        },
{
    let u = match info {
        Ok(u) => u,
        Err(e) => return LogoutAction::Done(Err(e)),
    };
    match check_address(expected_ip, u.ip) {
        Ok(()) => {},
        Err(e) => return LogoutAction::Done(Err(e)),
    }
    match u.online_user {
        Some(user) => LogoutAction::SendLogout { username: user, ip: u.ip },
        None => LogoutAction::Done(Err(SrunError::NoUserOnline)),
    }
}

/// The status to report for the portal's view of an address, when that
/// address agrees with the lease.
pub fn status_of_userinfo(expected_ip: Option<u32>, info: Result<UserInfo, SrunError>) -> (r: Result<StatusResult, SrunError>)
    ensures
        match info {
            Err(e) => r == Err::<StatusResult, SrunError>(e),
            Ok(u) => match mismatch(expected_ip, u.ip) {
                Some(e) => r == Err::<StatusResult, SrunError>(e),
                None => r matches Ok(s) && s.ip == u.ip && s.online_user == u.online_user && s.online_mac == u.online_mac,
            },
        },
{
    let u = match info {
        Ok(u) => u,
        Err(e) => return Err(e),
    };
    match check_address(expected_ip, u.ip) {
        Ok(()) => {},
        Err(e) => return Err(e),
    }
    Ok(StatusResult { ip: u.ip, online_user: u.online_user, online_mac: u.online_mac })
}

} // verus!
