//! API-key authentication: which key a request presents and whether it
//! matches the configured one, compared in constant time.

use vstd::prelude::*;
use subtle::ConstantTimeEq;
use crate::text::{chars_of, string_of};

verus! {

/// `ConstantTimeEq::ct_eq` (subtle) on byte slices, converted to `bool`: the
/// slices are equal.
#[verifier::external_body]
fn ct_bytes_eq(a: &[u8], b: &[u8]) -> (r: bool)
    ensures
        r == (a@ == b@),
{
    a.ct_eq(b).into()
}

/// Whether the presented key equals the expected one, compared byte for byte
/// in constant time (up to the lengths).
pub fn keys_match(provided: &str, expected: &str) -> (r: bool)
    ensures
        r == (provided@ == expected@),
{
    let a = provided.as_bytes();
    let b = expected.as_bytes();
    let r = ct_bytes_eq(a, b);
    proof {
        vstd::utf8::encode_utf8_decode_utf8(provided@);
        vstd::utf8::encode_utf8_decode_utf8(expected@);
    }
    r
}

/// The text of the `Bearer ` scheme prefix.
pub open spec fn bearer_prefix() -> Seq<char> {
    seq!['B', 'e', 'a', 'r', 'e', 'r', ' ']
}

/// The key a request presents: its `X-API-Key` header (when that is text),
/// else the token of an `Authorization: Bearer <key>` header.
pub open spec fn presented_key(x_api_key: Option<Seq<char>>, authorization: Option<Seq<char>>) -> Option<Seq<char>> {
    match x_api_key {
        Some(k) => Some(k),
        None => match authorization {
            Some(a) => if a.len() >= 7 && a.take(7) == bearer_prefix() {
                Some(a.skip(7))
            } else {
                None
            },
            None => None,
        },
    }
}

/// The key a request presents, from its header values as text (a header that
/// is absent or not visible ASCII is `None`).
pub fn provided_api_key(x_api_key: Option<&str>, authorization: Option<&str>) -> (r: Option<String>)
    ensures
        crate::text::opt_string(r) == presented_key(crate::text::opt_str(x_api_key), crate::text::opt_str(authorization)),
{
    match x_api_key {
        Some(k) => Some(crate::text::owned(k)),
        None => match authorization {
            Some(a) => {
                let v = chars_of(a);
                if v.len() >= 7 && v[0] == 'B' && v[1] == 'e' && v[2] == 'a' && v[3] == 'r' && v[4] == 'e'
                    && v[5] == 'r' && v[6] == ' ' {
                    assert(v@.take(7) =~= bearer_prefix());
                    assert(v@.subrange(7, v@.len() as int) =~= v@.skip(7));
                    Some(string_of(&v, 7, v.len()))
                } else {
                    proof {
                        if v@.len() >= 7 && v@.take(7) == bearer_prefix() {
                            assert(v@.take(7)[0] == 'B');
                            assert(v@.take(7)[1] == 'e');
                            assert(v@.take(7)[2] == 'a');
                            assert(v@.take(7)[3] == 'r');
                            assert(v@.take(7)[4] == 'e');
                            assert(v@.take(7)[5] == 'r');
                            assert(v@.take(7)[6] == ' ');
                        }
                    }
                    None
                }
            },
            None => None,
        },
    }
}

/// Whether a request may proceed: always when no key is configured, else only
/// when it presents exactly the configured key.
pub fn is_authorized(expected: Option<&str>, provided: Option<&str>) -> (r: bool)
    ensures
        r == match expected {
            None => true,
            Some(e) => provided matches Some(p) && p@ == e@,
        },
{
    match expected {
        None => true,
        Some(e) => match provided {
            Some(p) => keys_match(p, e),
            None => false,
        },
    }
}

} // verus!
