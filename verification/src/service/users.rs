//! Checks on the credentials file: where it is, how large it may be, and what
//! a usable list of accounts looks like.

use vstd::prelude::*;
use vstd::string::StringExecFns;
use crate::error::SrunError;
use crate::random::random_below;
use crate::service::checks::{credential_file_error, credentials_problem, validate_credentials};
use crate::service::model::User;
use crate::text::{opt_str, blank, chars_of, dec, decimal, is_blank};

verus! {

/// The largest credentials file accepted, in bytes.
pub const MAX_USERINFO_BYTES: u64 = 1048576;

/// The most accounts a credentials file may list.
pub const MAX_USERS: usize = 10000;

/// The file read when neither the request nor the configuration names one.
pub open spec fn default_userinfo_path() -> Seq<char> {
    "userinfo.json"@
}

/// The credentials file to read: the request's, else the configured one, else
/// the default; a blank choice is refused.
pub open spec fn userinfo_path_choice(request: Option<Seq<char>>, configured: Option<Seq<char>>) -> Result<Seq<char>, Seq<char>> {
    let p = match request {
        Some(p) => p,
        None => match configured {
            Some(c) => c,
            None => default_userinfo_path(),
        },
    };
    if is_blank(p) {
        Err("userinfo_path cannot be empty."@)
    } else {
        Ok(p)
    }
}

/// Chooses the credentials file to read.
pub fn resolve_userinfo_path(request: Option<&str>, configured: Option<&str>) -> (r: Result<String, SrunError>)
    ensures
        match r {
            Ok(p) => userinfo_path_choice(opt_str(request), opt_str(configured))
                == Ok::<Seq<char>, Seq<char>>(p@),
            Err(e) => e matches SrunError::Validation { field, message } && field@ == "userinfo_path"@
                && userinfo_path_choice(opt_str(request), opt_str(configured))
                == Err::<Seq<char>, Seq<char>>(message@),
        },
{
    let path = match request {
        Some(p) => p,
        None => match configured {
            Some(c) => c,
            None => "userinfo.json",
        },
    };
    if blank(path) {
        return Err(
            SrunError::Validation {
                field: "userinfo_path",
                message: String::from_str("userinfo_path cannot be empty."),
            },
        );
    }
    Ok(String::from_str(path))
}

/// `"credentials file '<path>'"` followed by `tail`.
pub open spec fn about_file(path: Seq<char>, tail: Seq<char>) -> Seq<char> {
    "credentials file '"@ + path + "'"@ + tail
}

fn file_message(path: &str, tail: &str) -> (r: String)
    ensures
        r@ == about_file(path@, tail@),
{
    let mut m = String::from_str("credentials file '");
    m.append(path);
    m.append("'");
    m.append(tail);
    m
}

/// Why the file's metadata rules it out, if it does: not a regular file, or
/// larger than the limit.
pub open spec fn file_metadata_problem(path: Seq<char>, is_file: bool, len: u64) -> Option<Seq<char>> {
    if !is_file {
        Some("credentials path '"@ + path + "' is not a file"@)
    } else if len > MAX_USERINFO_BYTES {
        Some(about_file(path, " exceeds the 1048576-byte limit"@))
    } else {
        None
    }
}

/// Checks the credentials file's metadata before it is read.
pub fn check_credentials_file(path: &str, request_supplied_path: bool, is_file: bool, len: u64) -> (r: Result<(), SrunError>)
    ensures
        match file_metadata_problem(path@, is_file, len) {
            None => r is Ok,
            Some(m) => r matches Err(e) && (if request_supplied_path {
                e matches SrunError::UserData(d) && d@ == m
            } else {
                e matches SrunError::CredentialStore(d) && d@ == m
            }),
        },
{
    if !is_file {
        let mut m = String::from_str("credentials path '");
        m.append(path);
        m.append("' is not a file");
        return Err(credential_file_error(request_supplied_path, m));
    }
    if len > MAX_USERINFO_BYTES {
        let m = file_message(path, " exceeds the 1048576-byte limit");
        return Err(credential_file_error(request_supplied_path, m));
    }
    Ok(())
}

/// The error for a credentials file that could not be read.
pub fn read_failure(path: &str, request_supplied_path: bool, cause: &str) -> (e: SrunError)
    ensures
        ({
            let m = "could not read credentials file '"@ + path@ + "': "@ + cause@;
            if request_supplied_path {
                e matches SrunError::UserData(d) && d@ == m
            } else {
                e matches SrunError::CredentialStore(d) && d@ == m
            }
        }),
{
    let mut m = String::from_str("could not read credentials file '");
    m.append(path);
    m.append("': ");
    m.append(cause);
    credential_file_error(request_supplied_path, m)
}

/// The error for a credentials file that is not a JSON array of accounts; the
/// position is where the JSON parser stopped.
pub fn parse_failure(path: &str, request_supplied_path: bool, line: u64, column: u64) -> (e: SrunError)
    ensures
        ({
            let m = about_file(path@, " is not a valid user array (line "@ + dec(line as nat)
                + ", column "@ + dec(column as nat) + ")"@);
            if request_supplied_path {
                e matches SrunError::UserData(d) && d@ == m
            } else {
                e matches SrunError::CredentialStore(d) && d@ == m
            }
        }),
{
    let l = decimal(line);
    let c = decimal(column);
    let mut tail = String::from_str(" is not a valid user array (line ");
    tail.append(l.as_str());
    tail.append(", column ");
    tail.append(c.as_str());
    tail.append(")");
    let m = file_message(path, tail.as_str());
    credential_file_error(request_supplied_path, m)
}

/// Whether some account before index `i` has the username of account `i`.
pub open spec fn repeats_earlier(users: Seq<User>, i: int) -> bool {
    exists|j: int| 0 <= j < i && (#[trigger] users[j]).username@ == users[i].username@
}

/// The first problem among the accounts from index `i` on.
pub open spec fn item_problem(users: Seq<User>, path: Seq<char>, i: int) -> Option<Seq<char>>
    decreases users.len() - i,
{
    if i < 0 || i >= users.len() {
        None
    } else if credentials_problem(users[i].username@, users[i].password@) is Some {
        Some(about_file(path, " has an empty username or password at item "@ + dec((i + 1) as nat)))
    } else if repeats_earlier(users, i) {
        Some(about_file(path, " contains a duplicate username at item "@ + dec((i + 1) as nat)))
    } else {
        item_problem(users, path, i + 1)
    }
}

/// Why a list of accounts is unusable, if it is: it is empty, longer than the
/// limit, or some account has a blank username, an empty password or a
/// username already used by an earlier account.
pub open spec fn users_problem(users: Seq<User>, path: Seq<char>) -> Option<Seq<char>> {
    if users.len() == 0 {
        Some(about_file(path, " does not contain any users"@))
    } else if users.len() > MAX_USERS {
        Some(about_file(path, " contains more than 10000 users"@))
    } else {
        item_problem(users, path, 0)
    }
}

/// No two accounts share a username.
pub open spec fn distinct_usernames(users: Seq<User>) -> bool {
    forall|i: int, j: int|
        0 <= i < j < users.len() ==> (#[trigger] users[i]).username@ != (#[trigger] users[j]).username@
}

proof fn lemma_no_item_problem(users: Seq<User>, path: Seq<char>, i: int)
    requires
        0 <= i <= users.len(),
        item_problem(users, path, i) is None,
    ensures
        forall|k: int| i <= k < users.len() ==> !repeats_earlier(users, k) && credentials_problem(
            (#[trigger] users[k]).username@,
            users[k].password@,
        ) is None,
    decreases users.len() - i,
{
    if i < users.len() {
        lemma_no_item_problem(users, path, i + 1);
    }
}

/// Checks a parsed list of accounts.
pub fn validate_users(users: &Vec<User>, path: &str, request_supplied_path: bool) -> (r: Result<(), SrunError>)
    ensures
        match users_problem(users@, path@) {
            None => r is Ok && distinct_usernames(users@),
            Some(m) => r matches Err(e) && (if request_supplied_path {
                e matches SrunError::UserData(d) && d@ == m
            } else {
                e matches SrunError::CredentialStore(d) && d@ == m
            }),
        },
{
    if users.len() == 0 {
        let m = file_message(path, " does not contain any users");
        return Err(credential_file_error(request_supplied_path, m));
    }
    if users.len() > MAX_USERS {
        let m = file_message(path, " contains more than 10000 users");
        return Err(credential_file_error(request_supplied_path, m));
    }
    let mut names: Vec<Vec<char>> = Vec::new();
    let mut i: usize = 0;
    while i < users.len()
        invariant
            i <= users.len() <= MAX_USERS,
            names@.len() == i,
            forall|k: int| 0 <= k < i ==> (#[trigger] names@[k])@ == users@[k].username@,
            item_problem(users@, path@, 0) == item_problem(users@, path@, i as int),
        decreases users.len() - i,
    {
        let user = &users[i];
        match validate_credentials(user.username.as_str(), user.password.as_str()) {
            Ok(()) => {},
            Err(_) => {
                let n = decimal((i + 1) as u64);
                let mut tail = String::from_str(" has an empty username or password at item ");
                tail.append(n.as_str());
                let m = file_message(path, tail.as_str());
                return Err(credential_file_error(request_supplied_path, m));
            },
        }
        let name = chars_of(user.username.as_str());
        let mut j: usize = 0;
        let mut dup = false;
        while j < i
            invariant
                i < users.len(),
                j <= i,
                names@.len() == i,
                name@ == users@[i as int].username@,
                forall|k: int| 0 <= k < i ==> (#[trigger] names@[k])@ == users@[k].username@,
                dup ==> repeats_earlier(users@, i as int),
                !dup ==> forall|k: int| 0 <= k < j ==> (#[trigger] users@[k]).username@ != users@[i as int].username@,
            decreases i - j,
        {
            if !dup && vec_eq(&names[j], &name) {
                dup = true;
                assert(users@[j as int].username@ == users@[i as int].username@);
            }
            j = j + 1;
        }
        if dup {
            let n = decimal((i + 1) as u64);
            let mut tail = String::from_str(" contains a duplicate username at item ");
            tail.append(n.as_str());
            let m = file_message(path, tail.as_str());
            return Err(credential_file_error(request_supplied_path, m));
        }
        names.push(name);
        i = i + 1;
    }
    proof {
        lemma_no_item_problem(users@, path@, 0);
        assert forall|a: int, b: int| 0 <= a < b < users@.len() implies (#[trigger] users@[a]).username@
            != (#[trigger] users@[b]).username@ by {
            assert(!repeats_earlier(users@, b));
        }
    }
    Ok(())
}

/// The account at index `i`.
pub fn user_at(users: Vec<User>, i: usize) -> (r: User)
    requires
        i < users@.len(),
    ensures
        r == users@[i as int],
{
    let mut users = users;
    let ghost all = users@;
    let r = users.swap_remove(i);
    assert(r == all[i as int]);
    r
}

/// One account drawn at random from a non-empty list: `user_at` a random index
/// below the list's length.
pub fn pick_user(users: Vec<User>) -> (r: User)
    requires
        users@.len() > 0,
    ensures
        exists|i: int| 0 <= i < users@.len() && r == #[trigger] users@[i],
{
    let i = random_below(users.len());
    user_at(users, i)
}

/// Element-wise equality of two character vectors.
fn vec_eq(a: &Vec<char>, b: &Vec<char>) -> (r: bool)
    ensures
        r == (a@ == b@),
{
    if a.len() != b.len() {
        return false;
    }
    let mut i: usize = 0;
    while i < a.len()
        invariant
            a.len() == b.len(),
            i <= a.len(),
            forall|k: int| 0 <= k < i ==> a@[k] == b@[k],
        decreases a.len() - i,
    {
        if a[i] != b[i] {
            return false;
        }
        i = i + 1;
    }
    assert(a@ =~= b@);
    true
}

} // verus!
