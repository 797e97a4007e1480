//! Input checks and the comparisons that decide whether an operation may
//! proceed.

use vstd::prelude::*;
use vstd::string::StringExecFns;
use crate::error::SrunError;
use crate::srun::UserInfo;
use crate::text::{blank, contains_char, ipv4_string, ipv4_text, is_blank, is_trimmed, trim};

verus! {

/// Why `name` cannot be used as the Linux interface named by request field
/// `field`, if it cannot: it is blank; or it has surrounding whitespace, more
/// than fifteen bytes, or a NUL character.
pub open spec fn interface_problem(name: Seq<char>, field: Seq<char>) -> Option<Seq<char>> {
    if is_blank(name) {
        Some(field + " is required."@)
    } else if trim(name) != name || crate::text::byte_len(name) > 15 || name.contains(
        '\0',
    ) {
        Some(field + " is not a valid Linux interface name."@)
    } else {
        None
    }
}

/// Checks that `interface` is a usable Linux interface name.
pub fn validate_interface(interface: &str, field: &'static str) -> (r: Result<(), SrunError>)
    ensures
        match r {
            Ok(()) => interface_problem(interface@, field@) is None,
            Err(e) => e matches SrunError::Validation { field: f, message } && f == field
                && interface_problem(interface@, field@) == Some(message@),
        },
{
    if blank(interface) {
        let mut message = String::from_str(field);
        message.append(" is required.");
        return Err(SrunError::Validation { field, message });
    }
    if !is_trimmed(interface) || interface.len() > 15 || contains_char(interface, '\0') {
        let mut message = String::from_str(field);
        message.append(" is not a valid Linux interface name.");
        return Err(SrunError::Validation { field, message });
    }
    Ok(())
}

/// Why a username and password cannot be used, if they cannot.
pub open spec fn credentials_problem(username: Seq<char>, password: Seq<char>) -> Option<
    (Seq<char>, Seq<char>),
> {
    if is_blank(username) {
        Some(("username"@, "username cannot be empty."@))
    } else if password.len() == 0 {
        Some(("password"@, "password cannot be empty."@))
    } else {
        None
    }
}

/// Checks that the username is not blank and the password not empty.
pub fn validate_credentials(username: &str, password: &str) -> (r: Result<(), SrunError>)
    ensures
        match r {
            Ok(()) => credentials_problem(username@, password@) is None,
            Err(e) => e matches SrunError::Validation { field, message }
                && credentials_problem(username@, password@) == Some((field@, message@)),
        },
{
    if blank(username) {
        return Err(
            SrunError::Validation {
                field: "username",
                message: String::from_str("username cannot be empty."),
            },
        );
    }
    if password.is_empty() {
        return Err(
            SrunError::Validation {
                field: "password",
                message: String::from_str("password cannot be empty."),
            },
        );
    }
    Ok(())
}

/// Refuses to log in over an address that the portal already reports online.
pub fn check_not_online(userinfo: &UserInfo) -> (r: Result<(), SrunError>)
    ensures
        match userinfo.online_user {
            None => r is Ok,
            Some(user) => r matches Err(SrunError::AlreadyOnline { mac, user: u }) && u == user
                && mac@ == (match userinfo.online_mac {
                Some(m) => m@,
                None => "unknown"@,
            }),
        },
{
    match &userinfo.online_user {
        Some(user) => {
            let mac = match &userinfo.online_mac {
                Some(m) => m.clone(),
                None => String::from_str("unknown"),
            };
            Err(SrunError::AlreadyOnline { mac, user: user.clone() })
        },
        None => Ok(()),
    }
}

/// Refuses to proceed when the portal sees another address than DHCP leased.
pub fn check_ip(expected: u32, portal: u32) -> (r: Result<(), SrunError>)
    ensures
        expected == portal ==> r is Ok,
        expected != portal ==> r == Err::<(), SrunError>(
            SrunError::IpMismatch { dhcp: expected, portal },
        ),
{
    if expected != portal {
        return Err(SrunError::IpMismatch { dhcp: expected, portal });
    }
    Ok(())
}

/// A credentials-file problem: charged to the request when it named the file,
/// to the server configuration otherwise.
pub fn credential_file_error(request_supplied_path: bool, details: String) -> (e: SrunError)
    ensures
        request_supplied_path ==> e == SrunError::UserData(details),
        !request_supplied_path ==> e == SrunError::CredentialStore(details),
{
    if request_supplied_path {
        SrunError::UserData(details)
    } else {
        SrunError::CredentialStore(details)
    }
}

/// The netmask with the `k` most significant bits set (`k <= 32`).
pub open spec fn prefix_mask(k: nat) -> u32 {
    if k == 0 {
        0
    } else {
        (0xffff_ffffu32 << ((32 - k) as u32)) as u32
    }
}

/// The prefix length of a contiguous netmask, if `m` is one.
pub open spec fn mask_prefix(m: u32) -> Option<nat> {
    if exists|k: nat| k <= 32 && prefix_mask(k) == m {
        Some(choose|k: nat| k <= 32 && prefix_mask(k) == m)
    } else {
        None
    }
}

/// The mask with the `k` leading bits set.
fn prefix_mask_exec(k: u32) -> (r: u32)
    requires
        k <= 32,
    ensures
        r == prefix_mask(k as nat),
{
    if k == 0 {
        0
    } else {
        0xffff_ffffu32 << (32 - k)
    }
}

/// Distinct prefix lengths give distinct masks.
proof fn lemma_prefix_mask_injective(a: nat, b: nat)
    requires
        a <= 32,
        b <= 32,
        prefix_mask(a) == prefix_mask(b),
    ensures
        a == b,
{
    if a != b {
        if a == 0 || b == 0 {
            let k: u32 = if a == 0 { (32 - b) as u32 } else { (32 - a) as u32 };
            assert(k < 32 ==> (0xffff_ffffu32 << k) != 0) by (bit_vector);
        } else {
            let x: u32 = (32 - a) as u32;
            let y: u32 = (32 - b) as u32;
            assert(x < 32 && y < 32 && x != y ==> (0xffff_ffffu32 << x) != (0xffff_ffffu32 << y))
                by (bit_vector);
        }
    }
}

/// The prefix length read back from a prefix's mask is that prefix: a lease's
/// netmask and the prefix length configured from it describe the same network.
pub proof fn lemma_prefix_mask_roundtrip(k: nat)
    requires
        k <= 32,
    ensures
        mask_prefix(prefix_mask(k)) == Some(k),
{
    let c = choose|j: nat| j <= 32 && prefix_mask(j) == prefix_mask(k);
    lemma_prefix_mask_injective(c, k);
}

/// The prefix length of `netmask` when it is contiguous.
pub fn contiguous_prefix(netmask: u32) -> (r: Option<u8>)
    ensures
        match r {
            Some(k) => mask_prefix(netmask) == Some(k as nat),
            None => mask_prefix(netmask) is None,
        },
{
    let mut k: u32 = 0;
    while k <= 32
        invariant
            k <= 33,
            forall|j: nat| j < k ==> prefix_mask(j) != netmask,
        decreases 33 - k,
    {
        if prefix_mask_exec(k) == netmask {
            proof {
                let c = choose|j: nat| j <= 32 && prefix_mask(j) == netmask;
                lemma_prefix_mask_injective(c, k as nat);
            }
            return Some(k as u8);
        }
        k = k + 1;
    }
    None
}

/// The prefix length of a lease's netmask; the empty mask is refused too.
pub fn netmask_prefix(netmask: u32) -> (r: Result<u8, SrunError>)
    ensures
        match r {
            Ok(k) => netmask != 0 && mask_prefix(netmask) == Some(k as nat),
            Err(e) => (netmask == 0 || mask_prefix(netmask) is None) && (e matches SrunError::Dhcp(
                m,
            ) && m@ == "invalid non-contiguous subnet mask "@ + ipv4_text(netmask)),
        },
{
    match contiguous_prefix(netmask) {
        Some(k) if netmask != 0 => Ok(k),
        _ => {
            let mut m = String::from_str("invalid non-contiguous subnet mask ");
            let t = ipv4_string(netmask);
            m.append(t.as_str());
            Err(SrunError::Dhcp(m))
        },
    }
}

} // verus!
