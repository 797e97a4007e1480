//! The portal protocol's requests and the interpretation of its replies.

use vstd::prelude::*;
use vstd::string::StringExecFns;
use crate::config::Config;
use crate::error::SrunError;
use crate::srun::base64::{encode, get_base64};
use crate::text::{blank, dec, decimal, hex_char, ipv4_string, ipv4_text, is_blank, opt_string, owned, trim};

verus! {

/// What the portal reports for the address a request came from.
#[derive(Debug)]
pub struct UserInfo {
    pub ip: u32,
    pub online_user: Option<String>,
    pub online_mac: Option<String>,
}

/// The portal's base URL and access-controller ID.
pub struct SrunClient {
    pub base_url: String,
    pub ac_id: String,
}

/// The names and values of a query string.
pub open spec fn params_view(v: Seq<(String, String)>) -> Seq<(Seq<char>, Seq<char>)> {
    v.map_values(|p: (String, String)| (p.0@, p.1@))
}

fn push_param(v: &mut Vec<(String, String)>, name: &str, value: &str)
    ensures
        params_view(final(v)@) == params_view(old(v)@).push((name@, value@)),
{
    let ghost before = v@;
    v.push((owned(name), owned(value)));
    assert(params_view(v@) =~= params_view(before).push((name@, value@)));
}

/// The largest portal response body accepted, in bytes.
pub const MAX_PORTAL_RESPONSE_BYTES: usize = 1048576;

/// `str::parse::<Ipv4Addr>` of `text`: the address as a host-order integer, or
/// the parse error's message.
pub uninterp spec fn ipv4_parse(text: Seq<char>) -> Result<u32, Seq<char>>;

/// `str::parse::<Ipv4Addr>` (std), the address converted to a host-order
/// integer, or the error's text.
#[verifier::external_body]
fn parse_ipv4(text: &str) -> (r: Result<u32, String>)
    ensures
        match r {
            Ok(ip) => ipv4_parse(text@) == Ok::<u32, Seq<char>>(ip),
            Err(e) => ipv4_parse(text@) == Err::<u32, Seq<char>>(e@),
        },
{
    match text.parse::<core::net::Ipv4Addr>() {
        Ok(ip) => Ok(ip.into()),
        Err(e) => Err(e.to_string()),
    }
}

/// How a JSON string literal writes the character `c`: `"` and `\` after a
/// backslash; backspace, tab, line feed, form feed and carriage return as
/// `\b \t \n \f \r`; other characters below U+0020 as `\u00` and two
/// lowercase hexadecimal digits; everything else as itself.
pub open spec fn json_escape(c: char) -> Seq<char> {
    if c == '"' {
        seq!['\\', '"']
    } else if c == '\\' {
        seq!['\\', '\\']
    } else if c == '\u{8}' {
        seq!['\\', 'b']
    } else if c == '\t' {
        seq!['\\', 't']
    } else if c == '\n' {
        seq!['\\', 'n']
    } else if c == '\u{c}' {
        seq!['\\', 'f']
    } else if c == '\r' {
        seq!['\\', 'r']
    } else if (c as u32) < 0x20 {
        seq!['\\', 'u', '0', '0', hex_char((c as u32 / 16) as nat), hex_char((c as u32 % 16) as nat)]
    } else {
        seq![c]
    }
}

/// Every character of `s` as a JSON string literal writes it.
pub open spec fn json_escaped(s: Seq<char>) -> Seq<char>
    decreases s.len(),
{
    if s.len() == 0 {
        Seq::empty()
    } else {
        json_escaped(s.drop_last()) + json_escape(s.last())
    }
}

/// `s` as a JSON string literal: quoted, with its characters escaped.
pub open spec fn json_string(s: Seq<char>) -> Seq<char> {
    seq!['"'] + json_escaped(s) + seq!['"']
}

/// `serde_json::Value::String(s).to_string()`: `s` between double quotes, each
/// character escaped as `json_escape` says, which is serde_json's escape table
/// for the compact formatter.
#[verifier::external_body]
fn json_quote(s: &str) -> (r: String)
    ensures
        r@ == json_string(s@),
{
    serde_json::Value::from(s).to_string()
}

/// `String::from_utf8` (std): whether `bytes` are UTF-8 is decided by the
/// bytes alone, and the text is their decoding; the error's message is that of
/// `FromUtf8Error`.
pub uninterp spec fn utf8_error_text(bytes: Seq<u8>) -> Seq<char>;

/// `String::from_utf8` (std): the decoded text when `bytes` are valid UTF-8,
/// else the error's text.
#[verifier::external_body]
fn utf8_text(bytes: Vec<u8>) -> (r: Result<String, String>)
    ensures
        match r {
            Ok(s) => vstd::utf8::valid_utf8(bytes@) && s@ == vstd::utf8::decode_utf8(bytes@),
            Err(e) => !vstd::utf8::valid_utf8(bytes@) && e@ == utf8_error_text(bytes@),
        },
{
    match String::from_utf8(bytes) {
        Ok(s) => Ok(s),
        Err(e) => Err(e.to_string()),
    }
}

/// The login information's JSON object from its values, each already written
/// as a JSON string, in the key order that `serde_json`'s object map gives:
/// `acid`, `enc_ver`, `ip`, `password`, `username`.
pub open spec fn login_info_fields(ac_id: Seq<char>, ip: Seq<char>, password: Seq<char>, username: Seq<char>) -> Seq<char> {
    "{\"acid\":"@ + ac_id + ",\"enc_ver\":\"srun_bx1\",\"ip\":"@ + ip + ",\"password\":"@ + password
        + ",\"username\":"@ + username + "}"@
}

/// The login information as JSON text.
pub open spec fn login_info_text(username: Seq<char>, password: Seq<char>, ip: u32, ac_id: Seq<char>) -> Seq<char> {
    login_info_fields(json_string(ac_id), json_string(ipv4_text(ip)), json_string(password), json_string(username))
}

/// The login information's JSON object from its values, each already written
/// as a JSON string.
pub fn login_info_from_quoted(ac_id: &str, ip: &str, password: &str, username: &str) -> (r: String)
    ensures
        r@ == login_info_fields(ac_id@, ip@, password@, username@),
{
    let mut s = owned("{\"acid\":");
    s.append(ac_id);
    s.append(",\"enc_ver\":\"srun_bx1\",\"ip\":");
    s.append(ip);
    s.append(",\"password\":");
    s.append(password);
    s.append(",\"username\":");
    s.append(username);
    s.append("}");
    s
}

/// The JSON login information that the portal receives encrypted.
pub fn login_info_json(username: &str, password: &str, ip: u32, ac_id: &str) -> (r: String)
    ensures
        r@ == login_info_text(username@, password@, ip, ac_id@),
{
    let ip_text = ipv4_string(ip);
    let a = json_quote(ac_id);
    let i = json_quote(ip_text.as_str());
    let p = json_quote(password);
    let u = json_quote(username);
    login_info_from_quoted(a.as_str(), i.as_str(), p.as_str(), u.as_str())
}

/// The `info` parameter: the prefix `{SRBX1}` and the portal's Base64 of the
/// encrypted login information.
pub fn encode_login_info(encrypted: &[u8]) -> (r: String)
    requires
        encrypted.len() <= usize::MAX / 2,
    ensures
        r@ == "{SRBX1}"@ + encode(encrypted@),
{
    let b = get_base64(encrypted);
    let mut s = owned("{SRBX1}");
    s.append(b.as_str());
    s
}

/// The text whose SHA-1 is the login checksum: the challenge before each of
/// the username, password hash, access-controller ID, address, `200`, `1` and
/// the encoded information.
pub open spec fn checksum_text(challenge: Seq<char>, username: Seq<char>, password_md5: Seq<char>, ac_id: Seq<char>, ip: u32, info: Seq<char>) -> Seq<char> {
    challenge + username + challenge + password_md5 + challenge + ac_id + challenge + ipv4_text(ip)
        + challenge + "200"@ + challenge + "1"@ + challenge + info
}

/// The text whose SHA-1 is the login checksum.
pub fn login_checksum_input(challenge: &str, username: &str, password_md5: &str, ac_id: &str, ip: u32, info: &str) -> (r: String)
    ensures
        r@ == checksum_text(challenge@, username@, password_md5@, ac_id@, ip, info@),
{
    let ip_text = ipv4_string(ip);
    let mut s = owned(challenge);
    s.append(username);
    s.append(challenge);
    s.append(password_md5);
    s.append(challenge);
    s.append(ac_id);
    s.append(challenge);
    s.append(ip_text.as_str());
    s.append(challenge);
    s.append("200");
    s.append(challenge);
    s.append("1");
    s.append(challenge);
    s.append(info);
    s
}

/// The text whose SHA-1 signs a logout: the time in seconds, the username,
/// the address, `1`, and the time again.
pub fn logout_sign_input(ts: u64, username: &str, ip: u32) -> (r: String)
    ensures
        r@ == dec(ts as nat) + username@ + ipv4_text(ip) + "1"@ + dec(ts as nat),
{
    let t = decimal(ts);
    let ip_text = ipv4_string(ip);
    let mut s = owned(t.as_str());
    s.append(username);
    s.append(ip_text.as_str());
    s.append("1");
    s.append(t.as_str());
    s
}

impl SrunClient {
    /// A client for the configured portal and access controller.
    pub fn new(config: &Config) -> (r: Self)
        ensures
            r.base_url@ == config.portal_url@,
            r.ac_id@ == config.ac_id@,
    {
        SrunClient { base_url: config.portal_url.clone(), ac_id: config.ac_id.clone() }
    }

    fn endpoint(&self, path: &str) -> (r: String)
        ensures
            r@ == self.base_url@ + path@,
    {
        let mut s = self.base_url.clone();
        s.append(path);
        s
    }

    /// The URL of the user-information endpoint.
    pub fn userinfo_url(&self) -> (r: String)
        ensures
            r@ == self.base_url@ + "/cgi-bin/rad_user_info"@,
    {
        self.endpoint("/cgi-bin/rad_user_info")
    }

    /// The URL of the challenge endpoint.
    pub fn challenge_url(&self) -> (r: String)
        ensures
            r@ == self.base_url@ + "/cgi-bin/get_challenge"@,
    {
        self.endpoint("/cgi-bin/get_challenge")
    }

    /// The URL of the login endpoint.
    pub fn login_url(&self) -> (r: String)
        ensures
            r@ == self.base_url@ + "/cgi-bin/srun_portal"@,
    {
        self.endpoint("/cgi-bin/srun_portal")
    }

    /// The URL of the logout endpoint.
    pub fn logout_url(&self) -> (r: String)
        ensures
            r@ == self.base_url@ + "/cgi-bin/rad_user_dm"@,
    {
        self.endpoint("/cgi-bin/rad_user_dm")
    }

    /// The query of a user-information request at time `ts` (milliseconds).
    pub fn userinfo_query(&self, callback: &str, ts: u64) -> (r: Vec<(String, String)>)
        ensures
            params_view(r@) == seq![("callback"@, callback@), ("_"@, dec(ts as nat))],
    {
        let t = decimal(ts);
        let mut v: Vec<(String, String)> = Vec::new();
        push_param(&mut v, "callback", callback);
        push_param(&mut v, "_", t.as_str());
        assert(params_view(v@) =~= seq![("callback"@, callback@), ("_"@, dec(ts as nat))]);
        v
    }

    /// The query of a challenge request for `username` at `ip`.
    pub fn challenge_query(&self, callback: &str, username: &str, ip: u32, ts: u64) -> (r: Vec<(String, String)>)
        ensures
            params_view(r@) == seq![("callback"@, callback@), ("username"@, username@), ("ip"@, ipv4_text(ip)), ("_"@, dec(ts as nat))],
    {
        let t = decimal(ts);
        let i = ipv4_string(ip);
        let mut v: Vec<(String, String)> = Vec::new();
        push_param(&mut v, "callback", callback);
        push_param(&mut v, "username", username);
        push_param(&mut v, "ip", i.as_str());
        push_param(&mut v, "_", t.as_str());
        assert(params_view(v@) =~= seq![("callback"@, callback@), ("username"@, username@), ("ip"@, ipv4_text(ip)), ("_"@, dec(ts as nat))]);
        v
    }

    /// The query of a login: the hashed password field, checksum and encoded
    /// information come from the portal's hashing and encryption.
    pub fn login_query(&self, callback: &str, username: &str, password_md5: &str, checksum: &str, info: &str, ip: u32, ts: u64) -> (r: Vec<(String, String)>)
        ensures
            params_view(r@) == seq![
                ("callback"@, callback@),
                ("action"@, "login"@),
                ("username"@, username@),
                ("password"@, "{MD5}"@ + password_md5@),
                ("os"@, "Windows 10"@),
                ("name"@, "Windows"@),
                ("double_stack"@, "0"@),
                ("chksum"@, checksum@),
                ("info"@, info@),
                ("ac_id"@, self.ac_id@),
                ("ip"@, ipv4_text(ip)),
                ("n"@, "200"@),
                ("type"@, "1"@),
                ("_"@, dec(ts as nat)),
            ],
    {
        let t = decimal(ts);
        let i = ipv4_string(ip);
        let mut pw = owned("{MD5}");
        pw.append(password_md5);
        let mut v: Vec<(String, String)> = Vec::new();
        push_param(&mut v, "callback", callback);
        push_param(&mut v, "action", "login");
        push_param(&mut v, "username", username);
        push_param(&mut v, "password", pw.as_str());
        push_param(&mut v, "os", "Windows 10");
        push_param(&mut v, "name", "Windows");
        push_param(&mut v, "double_stack", "0");
        push_param(&mut v, "chksum", checksum);
        push_param(&mut v, "info", info);
        push_param(&mut v, "ac_id", self.ac_id.as_str());
        push_param(&mut v, "ip", i.as_str());
        push_param(&mut v, "n", "200");
        push_param(&mut v, "type", "1");
        push_param(&mut v, "_", t.as_str());
        assert(params_view(v@) =~= seq![
                ("callback"@, callback@),
                ("action"@, "login"@),
                ("username"@, username@),
                ("password"@, "{MD5}"@ + password_md5@),
                ("os"@, "Windows 10"@),
                ("name"@, "Windows"@),
                ("double_stack"@, "0"@),
                ("chksum"@, checksum@),
                ("info"@, info@),
                ("ac_id"@, self.ac_id@),
                ("ip"@, ipv4_text(ip)),
                ("n"@, "200"@),
                ("type"@, "1"@),
                ("_"@, dec(ts as nat)),
            ]);
        v
    }

    /// The query of a logout at time `ts` (seconds), signed by `sign`.
    pub fn logout_query(&self, callback: &str, username: &str, ip: u32, ts: u64, sign: &str) -> (r: Vec<(String, String)>)
        requires
            ts <= u64::MAX / 1000,
        ensures
            params_view(r@) == seq![
                ("callback"@, callback@),
                ("ip"@, ipv4_text(ip)),
                ("username"@, username@),
                ("time"@, dec(ts as nat)),
                ("unbind"@, "1"@),
                ("sign"@, sign@),
                ("_"@, dec((ts * 1000) as nat)),
            ],
    {
        let t = decimal(ts);
        let tm = decimal(ts * 1000);
        let i = ipv4_string(ip);
        let mut v: Vec<(String, String)> = Vec::new();
        push_param(&mut v, "callback", callback);
        push_param(&mut v, "ip", i.as_str());
        push_param(&mut v, "username", username);
        push_param(&mut v, "time", t.as_str());
        push_param(&mut v, "unbind", "1");
        push_param(&mut v, "sign", sign);
        push_param(&mut v, "_", tm.as_str());
        assert(params_view(v@) =~= seq![
                ("callback"@, callback@),
                ("ip"@, ipv4_text(ip)),
                ("username"@, username@),
                ("time"@, dec(ts as nat)),
                ("unbind"@, "1"@),
                ("sign"@, sign@),
                ("_"@, dec((ts * 1000) as nat)),
            ]);
        v
    }
}

/// An optional portal field with blank values treated as absent.
pub open spec fn non_blank(o: Option<String>) -> Option<Seq<char>> {
    match o {
        Some(s) => if is_blank(s@) {
            None
        } else {
            Some(s@)
        },
        None => None,
    }
}

/// `read` is how an optional portal field `given` is read: a missing field, or
/// one whose text is empty or only whitespace, is absent; any other text is
/// kept as it is.
pub open spec fn reads_field(given: Option<String>, read: Option<String>) -> bool {
    match given {
        None => read is None,
        Some(s) => if trim(s@).len() == 0 {
            read is None
        } else {
            read == Some(s)
        },
    }
}

/// A portal field that is empty or only whitespace counts as absent, and any
/// other text counts as given.
pub proof fn lemma_blank_portal_fields_are_absent(s: String)
    ensures
        trim(s@).len() == 0 ==> non_blank(Some(s)) is None,
        trim(s@).len() != 0 ==> non_blank(Some(s)) == Some(s@),
        non_blank(None) is None,
{
}

fn keep_non_blank(o: Option<String>) -> (r: Option<String>)
    ensures
        opt_string(r) == non_blank(o),
        reads_field(o, r),
{
    match o {
        Some(s) => if blank(s.as_str()) {
            None
        } else {
            Some(s)
        },
        None => None,
    }
}

/// The user information in a portal reply, given how its online address
/// parsed: the address, or the parse error's text; a blank user name or MAC
/// means none.
pub fn userinfo_from_parsed(ip: Result<u32, String>, user_name: Option<String>, user_mac: Option<String>) -> (r: Result<UserInfo, SrunError>)
    ensures
        match ip {
            Ok(a) => r matches Ok(info) && info.ip == a && opt_string(info.online_user) == non_blank(user_name)
                && opt_string(info.online_mac) == non_blank(user_mac)
                && reads_field(user_name, info.online_user) && reads_field(user_mac, info.online_mac),
            Err(e) => r matches Err(SrunError::IpParse(m)) && m@ == e@,
        },
{
    match ip {
        Ok(a) => Ok(UserInfo { ip: a, online_user: keep_non_blank(user_name), online_mac: keep_non_blank(user_mac) }),
        Err(e) => Err(SrunError::IpParse(e)),
    }
}

/// The user information in a portal reply: the online address must parse as
/// IPv4; a blank user name or MAC means none.
pub fn userinfo_from_response(online_ip: &str, user_name: Option<String>, user_mac: Option<String>) -> (r: Result<UserInfo, SrunError>)
    ensures
        match ipv4_parse(online_ip@) {
            Ok(ip) => r matches Ok(info) && info.ip == ip && opt_string(info.online_user) == non_blank(user_name)
                && opt_string(info.online_mac) == non_blank(user_mac)
                && reads_field(user_name, info.online_user) && reads_field(user_mac, info.online_mac),
            Err(e) => r matches Err(SrunError::IpParse(m)) && m@ == e,
        },
{
    userinfo_from_parsed(parse_ipv4(online_ip), user_name, user_mac)
}

/// The challenge in a portal reply, or why there is none: a non-empty error
/// other than `ok` is a refusal with the portal's message; otherwise the reply
/// is malformed.
pub fn challenge_from_response(challenge: Option<String>, error: Option<String>, error_msg: Option<String>) -> (r: Result<String, SrunError>)
    ensures
        match challenge {
            Some(c) if c@.len() != 0 => r == Ok::<String, SrunError>(c),
            _ => match error {
                Some(e) if e@.len() != 0 && e@ != "ok"@ => r matches Err(SrunError::AuthFailed { error: e2, message })
                    && e2 == e && message@ == match error_msg {
                    Some(m) => m@,
                    None => "The portal rejected the challenge request."@,
                },
                _ => r matches Err(SrunError::PortalResponse(m)) && m@ == "challenge field is missing or empty"@,
            },
        },
{
    match challenge {
        Some(c) if !c.as_str().is_empty() => Ok(c),
        _ => match error {
            Some(e) if !e.as_str().is_empty() && !crate::text::str_eq(e.as_str(), "ok") => {
                let message = match error_msg {
                    Some(m) => m,
                    None => owned("The portal rejected the challenge request."),
                };
                Err(SrunError::AuthFailed { error: e, message })
            },
            _ => Err(SrunError::PortalResponse(owned("challenge field is missing or empty"))),
        },
    }
}

/// The portal actions whose replies carry an `error` field.
#[derive(PartialEq, Eq, Structural, Clone, Copy, Debug)]
pub enum PortalAction {
    Login,
    Logout,
}

/// The outcome of a login or logout reply: `ok` succeeds, any other error is a
/// refusal with the portal's message, and a missing error field is malformed.
pub fn action_result(action: PortalAction, error: Option<String>, error_msg: Option<String>) -> (r: Result<(), SrunError>)
    ensures
        match error {
            None => r matches Err(SrunError::PortalResponse(m)) && m@ == if action == PortalAction::Login {
                "login response is missing the error field"@
            } else {
                "logout response is missing the error field"@
            },
            Some(e) => if e@ == "ok"@ {
                r is Ok
            } else {
                r matches Err(SrunError::AuthFailed { error: e2, message }) && e2 == e && message@ == match error_msg {
                    Some(m) => m@,
                    None => if action == PortalAction::Login {
                        "The portal rejected the login request."@
                    } else {
                        "The portal rejected the logout request."@
                    },
                }
            },
        },
{
    let error_field = match error {
        Some(e) => e,
        None => {
            let m = match action {
                PortalAction::Login => owned("login response is missing the error field"),
                PortalAction::Logout => owned("logout response is missing the error field"),
            };
            return Err(SrunError::PortalResponse(m));
        },
    };
    if !crate::text::str_eq(error_field.as_str(), "ok") {
        let message = match error_msg {
            Some(m) => m,
            None => match action {
                PortalAction::Login => owned("The portal rejected the login request."),
                PortalAction::Logout => owned("The portal rejected the logout request."),
            },
        };
        return Err(SrunError::AuthFailed { error: error_field, message });
    }
    Ok(())
}

/// The message for a portal body over the size limit.
pub open spec fn too_large_message() -> Seq<char> {
    "response exceeds 1048576 bytes"@
}

/// Refuses a portal reply whose HTTP status is not a success (200 to 299).
pub fn check_portal_status(status: u16) -> (r: Result<(), SrunError>)
    ensures
        200 <= status <= 299 ==> r is Ok,
        !(200 <= status <= 299) ==> r == Err::<(), SrunError>(SrunError::PortalHttpStatus(status)),
{
    if status < 200 || status > 299 {
        return Err(SrunError::PortalHttpStatus(status));
    }
    Ok(())
}

/// Refuses a portal reply that announces a body over the size limit.
pub fn check_content_length(length: Option<u64>) -> (r: Result<(), SrunError>)
    ensures
        match length {
            Some(n) if n > MAX_PORTAL_RESPONSE_BYTES => r matches Err(SrunError::PortalResponse(m)) && m@ == too_large_message(),
            _ => r is Ok,
        },
{
    match length {
        Some(n) if n > MAX_PORTAL_RESPONSE_BYTES as u64 => Err(SrunError::PortalResponse(owned("response exceeds 1048576 bytes"))),
        _ => Ok(()),
    }
}

/// A portal reply body read chunk by chunk, never beyond the size limit.
pub struct PortalBody {
    bytes: Vec<u8>,
}

impl PortalBody {
    /// The bytes read so far.
    pub closed spec fn contents(&self) -> Seq<u8> {
        self.bytes@
    }

    /// An empty body.
    pub fn new() -> (r: Self)
        ensures
            r.contents() == Seq::<u8>::empty(),
    {
        PortalBody { bytes: Vec::new() }
    }

    /// Appends a chunk, unless the body would exceed the limit; then the body
    /// is refused and left unchanged.
    pub fn push_chunk(&mut self, chunk: &[u8]) -> (r: Result<(), SrunError>)
        requires
            old(self).contents().len() <= MAX_PORTAL_RESPONSE_BYTES,
        ensures
            final(self).contents().len() <= MAX_PORTAL_RESPONSE_BYTES,
            old(self).contents().len() + chunk@.len() <= MAX_PORTAL_RESPONSE_BYTES ==> (r is Ok
                && final(self).contents() == old(self).contents() + chunk@),
            old(self).contents().len() + chunk@.len() > MAX_PORTAL_RESPONSE_BYTES ==> (r matches Err(SrunError::PortalResponse(m))
                && m@ == too_large_message()) && final(self).contents() == old(self).contents(),
    {
        if chunk.len() > MAX_PORTAL_RESPONSE_BYTES - self.bytes.len() {
            return Err(SrunError::PortalResponse(owned("response exceeds 1048576 bytes")));
        }
        let ghost start = self.bytes@;
        let mut i: usize = 0;
        while i < chunk.len()
            invariant
                i <= chunk.len(),
                self.bytes@ == start + chunk@.take(i as int),
            decreases chunk.len() - i,
        {
            self.bytes.push(chunk[i]);
            i = i + 1;
            assert(self.bytes@ =~= start + chunk@.take(i as int));
        }
        assert(chunk@.take(chunk.len() as int) =~= chunk@);
        Ok(())
    }

    /// The body as text; a body that is not UTF-8 is refused.
    pub fn into_text(self) -> (r: Result<String, SrunError>)
        ensures
            vstd::utf8::valid_utf8(self.contents()) ==> (r matches Ok(s) && s@ == vstd::utf8::decode_utf8(self.contents())),
            !vstd::utf8::valid_utf8(self.contents()) ==> (r matches Err(SrunError::PortalResponse(m))
                && m@ == "response is not UTF-8: "@ + utf8_error_text(self.contents())),
    {
        body_text(utf8_text(self.bytes))
    }
}

/// A reply body given its decoding as UTF-8: the text, or the decoder's
/// complaint reported as an invalid response.
pub fn body_text(decoded: Result<String, String>) -> (r: Result<String, SrunError>)
    ensures
        match decoded {
            Ok(s) => r matches Ok(t) && t@ == s@,
            Err(e) => r matches Err(SrunError::PortalResponse(m)) && m@ == "response is not UTF-8: "@ + e@,
        },
{
    match decoded {
        Ok(s) => Ok(s),
        Err(e) => {
            let mut m = owned("response is not UTF-8: ");
            m.append(e.as_str());
            Err(SrunError::PortalResponse(m))
        },
    }
}

} // verus!
