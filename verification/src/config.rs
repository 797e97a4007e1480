//! Server configuration: defaults and the validation that normalises it.

use vstd::prelude::*;
use vstd::string::StringExecFns;
use crate::error::SrunError;
use crate::text::{
    blank, chars_of, is_blank, is_trimmed, is_ws, lemma_trim_ends, lemma_trim_fixed, lemma_trim_idempotent,
    opt_string, owned, string_of, trim, trimmed,
};

verus! {

/// Where the portal is, which access controller to name, the default
/// credentials file, and the REST server's settings.
#[derive(Debug, Clone)]
pub struct Config {
    pub portal_url: String,
    pub ac_id: String,
    pub userinfo_path: Option<String>,
    pub server: ServerConfig,
}

/// The REST server's listening address and optional API key.
#[derive(Debug, Clone)]
pub struct ServerConfig {
    pub host: String,
    pub port: u16,
    pub api_key: Option<String>,
}

/// The portal used when none is configured.
pub fn default_portal_url() -> (r: String)
    ensures
        r@ == "http://portal.hdu.edu.cn"@,
{
    owned("http://portal.hdu.edu.cn")
}

/// The access-controller ID used when none is configured.
pub fn default_ac_id() -> (r: String)
    ensures
        r@ == "1"@,
{
    owned("1")
}

/// The REST server's default listening host.
pub fn default_host() -> (r: String)
    ensures
        r@ == "127.0.0.1"@,
{
    owned("127.0.0.1")
}

/// The REST server's default port.
pub fn default_port() -> (r: u16)
    ensures
        r == 3000,
{
    3000
}

impl Default for ServerConfig {
    fn default() -> (r: Self)
        ensures
            r.host@ == "127.0.0.1"@,
            r.port == 3000,
            r.api_key is None,
    {
        ServerConfig { host: default_host(), port: default_port(), api_key: None }
    }
}

impl Default for Config {
    fn default() -> (r: Self)
        ensures
            r.portal_url@ == "http://portal.hdu.edu.cn"@,
            r.ac_id@ == "1"@,
            r.userinfo_path is None,
            r.server.host@ == "127.0.0.1"@,
            r.server.port == 3000,
            r.server.api_key is None,
    {
        Config {
            portal_url: default_portal_url(),
            ac_id: default_ac_id(),
            userinfo_path: None,
            server: ServerConfig::default(),
        }
    }
}

/// A configuration holding every default setting.
pub open spec fn is_default_config(c: Config) -> bool {
    &&& c.portal_url@ == "http://portal.hdu.edu.cn"@
    &&& c.ac_id@ == "1"@
    &&& c.userinfo_path is None
    &&& c.server.host@ == "127.0.0.1"@
    &&& c.server.port == 3000
    &&& c.server.api_key is None
}

/// What a failed read of the configuration file leads to. An explicit `path`
/// that cannot be read is an error naming it. Without one, a missing
/// `srun.toml` means the defaults, and any other failure to read it is an error.
pub fn config_read_failure(path: Option<&str>, not_found: bool, cause: &str) -> (r: Result<
    Config,
    SrunError,
>)
    ensures
        match path {
            Some(p) => r matches Err(SrunError::Config(m)) && m@ == "failed to read configuration file '"@
                + p@ + "': "@ + cause@,
            None => if not_found {
                r matches Ok(c) && is_default_config(c)
            } else {
                r matches Err(SrunError::Config(m)) && m@ == "failed to read 'srun.toml': "@ + cause@
            },
        },
{
    match path {
        Some(p) => {
            let mut m = String::from_str("failed to read configuration file '");
            m.append(p);
            m.append("': ");
            m.append(cause);
            Err(SrunError::Config(m))
        },
        None => {
            if not_found {
                Ok(Config::default())
            } else {
                let mut m = String::from_str("failed to read 'srun.toml': ");
                m.append(cause);
                Err(SrunError::Config(m))
            }
        },
    }
}

/// The error for a configuration file that is not valid TOML for the settings,
/// naming the explicit `path`, or `srun.toml` when none was given.
pub fn config_parse_failure(path: Option<&str>, cause: &str) -> (e: SrunError)
    ensures
        match path {
            Some(p) => e matches SrunError::Config(m) && m@ == "failed to parse configuration file '"@
                + p@ + "': "@ + cause@,
            None => e matches SrunError::Config(m) && m@ == "failed to parse 'srun.toml': "@ + cause@,
        },
{
    match path {
        Some(p) => {
            let mut m = String::from_str("failed to parse configuration file '");
            m.append(p);
            m.append("': ");
            m.append(cause);
            SrunError::Config(m)
        },
        None => {
            let mut m = String::from_str("failed to parse 'srun.toml': ");
            m.append(cause);
            SrunError::Config(m)
        },
    }
}

/// The parts of a parsed URL that the configuration checks.
pub struct ParsedUrl {
    pub scheme: String,
    pub host: Option<String>,
    pub username: String,
    pub password: Option<String>,
    pub query: Option<String>,
    pub fragment: Option<String>,
}

/// The parts of a parsed URL as text.
pub ghost struct UrlParts {
    pub scheme: Seq<char>,
    pub host: Option<Seq<char>>,
    pub username: Seq<char>,
    pub password: Option<Seq<char>>,
    pub query: Option<Seq<char>>,
    pub fragment: Option<Seq<char>>,
}

impl View for ParsedUrl {
    type V = UrlParts;

    open spec fn view(&self) -> UrlParts {
        UrlParts {
            scheme: self.scheme@,
            host: opt_string(self.host),
            username: self.username@,
            password: opt_string(self.password),
            query: opt_string(self.query),
            fragment: opt_string(self.fragment),
        }
    }
}

/// What `url::Url::parse` (re-exported by `reqwest`) makes of `text`: the
/// parsed parts, or the parse error's message.
pub uninterp spec fn url_parse(text: Seq<char>) -> Result<UrlParts, Seq<char>>;

/// `reqwest::Url::parse`, read into its scheme, host, username, password,
/// query and fragment, or the error's text.
#[verifier::external_body]
fn parse_url(text: &str) -> (r: Result<ParsedUrl, String>)
    ensures
        match r {
            Ok(p) => url_parse(text@) == Ok::<UrlParts, Seq<char>>(p@),
            Err(e) => url_parse(text@) == Err::<UrlParts, Seq<char>>(e@),
        },
{
    match reqwest::Url::parse(text) {
        Ok(u) => Ok(ParsedUrl {
            scheme: u.scheme().to_string(),
            host: u.host_str().map(String::from),
            username: u.username().to_string(),
            password: u.password().map(String::from),
            query: u.query().map(String::from),
            fragment: u.fragment().map(String::from),
        }),
        Err(e) => Err(e.to_string()),
    }
}

/// `s` without trailing `c` characters.
pub open spec fn trim_end_char(s: Seq<char>, c: char) -> Seq<char>
    decreases s.len(),
{
    if s.len() > 0 && s.last() == c {
        trim_end_char(s.drop_last(), c)
    } else {
        s
    }
}

/// The portal URL as stored after validation: trimmed, trailing `/` removed.
pub open spec fn normalized_portal_url(s: Seq<char>) -> Seq<char> {
    trim_end_char(trim(s), '/')
}

/// Why a parsed portal URL is refused, if it is.
pub open spec fn portal_url_problem(p: Result<UrlParts, Seq<char>>) -> Option<Seq<char>> {
    match p {
        Err(e) => Some("portal_url is not a valid URL: "@ + e),
        Ok(u) => if !(u.scheme == "http"@ || u.scheme == "https"@) || u.host is None {
            Some("portal_url must be an absolute http:// or https:// URL"@)
        } else if u.username.len() != 0 || u.password is Some {
            Some("portal_url must not contain embedded credentials"@)
        } else if u.query is Some || u.fragment is Some {
            Some("portal_url must not contain a query string or fragment"@)
        } else {
            None
        },
    }
}

/// Why the rest of a configuration is refused, if it is, given its trimmed
/// access-controller ID and host.
pub open spec fn settings_problem(ac_id: Seq<char>, host: Seq<char>, api_key: Option<Seq<char>>, userinfo_path: Option<Seq<char>>) -> Option<Seq<char>> {
    if ac_id.len() == 0 {
        Some("ac_id cannot be empty"@)
    } else if host.len() == 0 {
        Some("server.host cannot be empty"@)
    } else if api_key matches Some(k) && is_blank(k) {
        Some("server.api_key cannot be empty when provided"@)
    } else if api_key matches Some(k) && trim(k) != k {
        Some("server.api_key cannot have leading or trailing whitespace"@)
    } else if userinfo_path matches Some(p) && is_blank(p) {
        Some("userinfo_path cannot be empty when provided"@)
    } else {
        None
    }
}

/// What `trim_end_char` leaves is a prefix of `s` that does not end with `c`.
proof fn lemma_trim_end_char_prefix(s: Seq<char>, c: char)
    ensures
        trim_end_char(s, c).len() <= s.len(),
        trim_end_char(s, c) == s.take(trim_end_char(s, c).len() as int),
        trim_end_char(s, c).len() > 0 ==> trim_end_char(s, c).last() != c,
    decreases s.len(),
{
    if s.len() > 0 && s.last() == c {
        lemma_trim_end_char_prefix(s.drop_last(), c);
        assert(s.drop_last().take(trim_end_char(s, c).len() as int) =~= s.take(trim_end_char(s, c).len() as int));
    } else {
        assert(s.take(s.len() as int) =~= s);
    }
}

/// Validation is stable: the values it stores are fixed points of its
/// normalisation, so validating an already validated configuration parses the
/// same URL and checks the same values, and changes nothing. The one exception
/// is a portal URL that normalises to text ending in whitespace (whitespace
/// before its trailing `/`), which a second pass trims further.
pub proof fn lemma_validation_is_stable(portal_url: Seq<char>, ac_id: Seq<char>, host: Seq<char>)
    requires
        normalized_portal_url(portal_url).len() == 0 || !is_ws(normalized_portal_url(portal_url).last()),
    ensures
        normalized_portal_url(normalized_portal_url(portal_url)) == normalized_portal_url(portal_url),
        trim(trim(ac_id)) == trim(ac_id),
        trim(trim(host)) == trim(host),
{
    lemma_trim_idempotent(ac_id);
    lemma_trim_idempotent(host);
    let t = trim(portal_url);
    let n = normalized_portal_url(portal_url);
    lemma_trim_ends(portal_url);
    lemma_trim_end_char_prefix(t, '/');
    if n.len() > 0 {
        assert(n[0] == t[0]);
    }
    lemma_trim_fixed(n);
}

/// `s` without trailing `c` characters.
fn trim_end_matches(s: &str, c: char) -> (r: String)
    ensures
        r@ == trim_end_char(s@, c),
{
    let v = chars_of(s);
    let mut n = v.len();
    proof {
        assert(v@.subrange(0, n as int) =~= v@);
    }
    while n > 0 && v[n - 1] == c
        invariant
            n <= v.len(),
            trim_end_char(v@, c) == trim_end_char(v@.subrange(0, n as int), c),
        decreases n,
    {
        proof {
            assert(v@.subrange(0, n as int).drop_last() =~= v@.subrange(0, n - 1));
        }
        n = n - 1;
    }
    string_of(&v, 0, n)
}

/// A URL parse outcome with its error as text.
pub open spec fn parse_view(parsed: Result<ParsedUrl, String>) -> Result<UrlParts, Seq<char>> {
    match parsed {
        Ok(p) => Ok(p@),
        Err(e) => Err(e@),
    }
}

/// Checks the outcome of parsing the portal URL: it must have parsed, as an
/// absolute `http`/`https` URL with a host, without credentials, query or
/// fragment.
pub fn check_portal_url(parsed: Result<ParsedUrl, String>) -> (r: Result<(), SrunError>)
    ensures
        match portal_url_problem(parse_view(parsed)) {
            Some(m) => r matches Err(SrunError::Config(e)) && e@ == m,
            None => r is Ok,
        },
{
    let portal = match parsed {
        Ok(p) => p,
        Err(e) => {
            let mut m = owned("portal_url is not a valid URL: ");
            m.append(e.as_str());
            return Err(SrunError::Config(m));
        },
    };
    let http = crate::text::str_eq(portal.scheme.as_str(), "http");
    let https = crate::text::str_eq(portal.scheme.as_str(), "https");
    if !(http || https) || portal.host.is_none() {
        return Err(SrunError::Config(owned("portal_url must be an absolute http:// or https:// URL")));
    }
    if !portal.username.as_str().is_empty() || portal.password.is_some() {
        return Err(SrunError::Config(owned("portal_url must not contain embedded credentials")));
    }
    if portal.query.is_some() || portal.fragment.is_some() {
        return Err(SrunError::Config(owned("portal_url must not contain a query string or fragment")));
    }
    Ok(())
}

impl Config {
    /// Normalises and checks the configuration. The portal URL is trimmed and
    /// loses trailing `/`; it must parse as an absolute `http`/`https` URL with a
    /// host and without credentials, query or fragment. Then the access
    /// controller ID and host are trimmed and must not be empty; an API key,
    /// when given, must be non-blank and without surrounding whitespace; a
    /// credentials path, when given, must not be blank.
    pub fn validate(&mut self) -> (r: Result<(), SrunError>)
        ensures
            final(self).portal_url@ == normalized_portal_url(old(self).portal_url@),
            final(self).userinfo_path == old(self).userinfo_path,
            final(self).server.port == old(self).server.port,
            final(self).server.api_key == old(self).server.api_key,
            match portal_url_problem(url_parse(normalized_portal_url(old(self).portal_url@))) {
                Some(m) => (r matches Err(SrunError::Config(e)) && e@ == m)
                    && final(self).ac_id == old(self).ac_id && final(self).server.host == old(self).server.host,
                None => final(self).ac_id@ == trim(old(self).ac_id@)
                    && final(self).server.host@ == trim(old(self).server.host@)
                    && match settings_problem(trim(old(self).ac_id@), trim(old(self).server.host@),
                        opt_string(old(self).server.api_key),
                        opt_string(old(self).userinfo_path)) {
                    Some(m) => r matches Err(SrunError::Config(e)) && e@ == m,
                    None => r is Ok,
                },
            },
    {
        let t = trimmed(self.portal_url.as_str());
        self.portal_url = trim_end_matches(t.as_str(), '/');
        match check_portal_url(parse_url(self.portal_url.as_str())) {
            Ok(()) => {},
            Err(e) => return Err(e),
        }
        self.ac_id = trimmed(self.ac_id.as_str());
        self.server.host = trimmed(self.server.host.as_str());
        if self.ac_id.as_str().is_empty() {
            return Err(SrunError::Config(owned("ac_id cannot be empty")));
        }
        if self.server.host.as_str().is_empty() {
            return Err(SrunError::Config(owned("server.host cannot be empty")));
        }
        match &self.server.api_key {
            Some(key) => {
                if blank(key.as_str()) {
                    return Err(SrunError::Config(owned("server.api_key cannot be empty when provided")));
                }
                if !is_trimmed(key.as_str()) {
                    return Err(SrunError::Config(owned("server.api_key cannot have leading or trailing whitespace")));
                }
            },
            None => {},
        }
        match &self.userinfo_path {
            Some(path) => {
                if blank(path.as_str()) {
                    return Err(SrunError::Config(owned("userinfo_path cannot be empty when provided")));
                }
            },
            None => {},
        }
        Ok(())
    }
}

} // verus!
