//! MAC address text, validation and generation, and the names of the
//! temporary interfaces this service creates.

use vstd::prelude::*;
use vstd::string::StringExecFns;
use crate::error::SrunError;
use crate::random::{random_six_bytes, random_u64};
use crate::text::{chars_of, dec, decimal, hex2, hex_char, hex_digit, push_char, trim, trim_bounds};

verus! {

/// Whether `c` is an ASCII hexadecimal digit.
pub open spec fn is_hex(c: char) -> bool {
    ('0' <= c && c <= '9') || ('a' <= c && c <= 'f') || ('A' <= c && c <= 'F')
}

/// The value of a hexadecimal digit.
pub open spec fn hex_val(c: char) -> nat {
    if '0' <= c && c <= '9' {
        (c as nat - 48) as nat
    } else if 'a' <= c && c <= 'f' {
        (c as nat - 87) as nat
    } else {
        (c as nat - 55) as nat
    }
}

/// `s` cut at every `sep`, as `str::split` does: one more part than separators.
pub open spec fn split_at_char(s: Seq<char>, sep: char) -> Seq<Seq<char>>
    decreases s.len(),
{
    if s.len() == 0 {
        seq![Seq::empty()]
    } else {
        let init = split_at_char(s.drop_last(), sep);
        if s.last() == sep {
            init.push(Seq::empty())
        } else {
            init.update(init.len() - 1, init.last().push(s.last()))
        }
    }
}

/// A well-formed octet: exactly two hexadecimal digits.
pub open spec fn good_octet(seg: Seq<char>) -> bool {
    seg.len() == 2 && is_hex(seg[0]) && is_hex(seg[1])
}

/// The value of a well-formed octet.
pub open spec fn octet_value(seg: Seq<char>) -> nat {
    hex_val(seg[0]) * 16 + hex_val(seg[1])
}

/// The first index at or after `i` whose part is not a well-formed octet.
pub open spec fn first_bad_octet(segs: Seq<Seq<char>>, i: int) -> Option<int>
    decreases segs.len() - i,
{
    if i < 0 || i >= segs.len() {
        None
    } else if !good_octet(segs[i]) {
        Some(i)
    } else {
        first_bad_octet(segs, i + 1)
    }
}

/// Why the bytes `m` cannot name a network interface, if they cannot.
pub open spec fn mac_problem(m: Seq<u8>) -> Option<Seq<char>> {
    if m.len() != 6 {
        Some("expected 6 octets, got "@ + dec(m.len()))
    } else if forall|i: int| 0 <= i < 6 ==> m[i] == 0 {
        Some("the all-zero address is not usable"@)
    } else if forall|i: int| 0 <= i < 6 ==> m[i] == 0xff {
        Some("the broadcast address is not usable"@)
    } else if m[0] & 1 != 0 {
        Some("multicast addresses are not usable for a network interface"@)
    } else {
        None
    }
}

/// The result of parsing `s` as a MAC address: six two-digit hexadecimal octets
/// separated by `:` or by `-` (not both), surrounding whitespace ignored, the
/// address usable for an interface; or the reason it is refused.
pub open spec fn mac_parse(s: Seq<char>) -> Result<Seq<u8>, Seq<char>> {
    let v = trim(s);
    let colon = v.contains(':');
    let dash = v.contains('-');
    if colon == dash {
        Err("use six two-digit octets separated by ':' or '-'"@)
    } else {
        let segs = split_at_char(v, if colon { ':' } else { '-' });
        if segs.len() != 6 {
            Err("expected 6 octets, got "@ + dec(segs.len()))
        } else {
            match first_bad_octet(segs, 0) {
                Some(i) => Err("octet "@ + dec((i + 1) as nat)
                    + " must contain exactly two hexadecimal digits"@),
                None => {
                    let m = Seq::new(6, |i: int| octet_value(segs[i]) as u8);
                    match mac_problem(m) {
                        Some(p) => Err(p),
                        None => Ok(m),
                    }
                },
            }
        }
    }
}

/// Lowercase colon-separated text of `m`: two hexadecimal digits per byte.
pub open spec fn mac_text(m: Seq<u8>) -> Seq<char>
    decreases m.len(),
{
    if m.len() == 0 {
        Seq::empty()
    } else if m.len() == 1 {
        hex2(m[0])
    } else {
        mac_text(m.drop_last()) + seq![':'] + hex2(m.last())
    }
}

/// The prefix of every temporary interface name.
pub open spec fn macvlan_prefix() -> Seq<char> {
    seq!['s', 'r', 'n']
}

/// A name this service gives its temporary interfaces: the prefix and twelve
/// hexadecimal digits, fifteen characters in all.
pub open spec fn is_managed_name(name: Seq<char>) -> bool {
    &&& name.len() == 15
    &&& name.take(3) == macvlan_prefix()
    &&& forall|i: int| 3 <= i < 15 ==> is_hex(#[trigger] name[i])
}

/// Whether `c` is a hexadecimal digit.
fn is_hex_digit(c: char) -> (r: bool)
    ensures
        r == is_hex(c),
{
    ('0' <= c && c <= '9') || ('a' <= c && c <= 'f') || ('A' <= c && c <= 'F')
}

/// The value of a hexadecimal digit.
fn hex_value(c: char) -> (r: u8)
    requires
        is_hex(c),
    ensures
        r == hex_val(c),
        r < 16,
{
    if '0' <= c && c <= '9' {
        (c as u8) - 48
    } else if 'a' <= c && c <= 'f' {
        (c as u8) - 87
    } else {
        (c as u8) - 55
    }
}

proof fn lemma_split_nonempty(s: Seq<char>, sep: char)
    ensures
        split_at_char(s, sep).len() >= 1,
    decreases s.len(),
{
    if s.len() > 0 {
        lemma_split_nonempty(s.drop_last(), sep);
    }
}

/// Checks that `mac` can name a network interface.
pub fn validate_mac_bytes(mac: &[u8]) -> (r: Result<(), SrunError>)
    ensures
        match r {
            Ok(()) => mac_problem(mac@) is None,
            Err(e) => e matches SrunError::InvalidMac(msg) && mac_problem(mac@) == Some(msg@),
        },
{
    if mac.len() != 6 {
        let n = decimal(mac.len() as u64);
        let mut msg = String::from_str("expected 6 octets, got ");
        msg.append(n.as_str());
        return Err(SrunError::InvalidMac(msg));
    }
    if mac[0] == 0 && mac[1] == 0 && mac[2] == 0 && mac[3] == 0 && mac[4] == 0 && mac[5] == 0 {
        return Err(SrunError::InvalidMac(String::from_str("the all-zero address is not usable")));
    }
    if mac[0] == 0xff && mac[1] == 0xff && mac[2] == 0xff && mac[3] == 0xff && mac[4] == 0xff
        && mac[5] == 0xff {
        return Err(SrunError::InvalidMac(String::from_str("the broadcast address is not usable")));
    }
    if mac[0] & 1 != 0 {
        return Err(
            SrunError::InvalidMac(
                String::from_str("multicast addresses are not usable for a network interface"),
            ),
        );
    }
    Ok(())
}

/// Lowercase colon-separated text of `mac`.
pub fn format_mac(mac: &[u8]) -> (r: String)
    ensures
        r@ == mac_text(mac@),
{
    let mut s = String::new();
    let mut i: usize = 0;
    while i < mac.len()
        invariant
            i <= mac.len(),
            s@ == mac_text(mac@.take(i as int)),
        decreases mac.len() - i,
    {
        let b = mac[i];
        if i > 0 {
            push_char(&mut s, ':');
        }
        push_char(&mut s, hex_digit(b / 16));
        push_char(&mut s, hex_digit(b % 16));
        proof {
            let t = mac@.take(i + 1);
            assert(t.drop_last() =~= mac@.take(i as int));
            assert(t.last() == b);
            if i == 0 {
                assert(mac@.take(0) =~= Seq::<u8>::empty());
            }
        }
        i = i + 1;
        assert(s@ =~= mac_text(mac@.take(i as int)));
    }
    assert(mac@.take(mac.len() as int) =~= mac@);
    s
}

/// The characters of `s` with surrounding whitespace removed.
fn trimmed_chars(s: &str) -> (v: Vec<char>)
    ensures
        v@ == trim(s@),
{
    let all = chars_of(s);
    let (lo, hi) = trim_bounds(&all);
    let mut v: Vec<char> = Vec::new();
    let mut i = lo;
    while i < hi
        invariant
            lo <= i <= hi <= all.len(),
            v@ == all@.subrange(lo as int, i as int),
        decreases hi - i,
    {
        v.push(all[i]);
        i = i + 1;
        assert(v@ =~= all@.subrange(lo as int, i as int));
    }
    v
}

/// Whether `c` occurs in `v`.
fn vec_has(v: &Vec<char>, c: char) -> (r: bool)
    ensures
        r == v@.contains(c),
{
    let mut j: usize = 0;
    while j < v.len()
        invariant
            j <= v.len(),
            forall|i: int| 0 <= i < j ==> v@[i] != c,
        decreases v.len() - j,
    {
        if v[j] == c {
            return true;
        }
        j = j + 1;
    }
    false
}

/// The parts of `v` between occurrences of `sep`.
fn split_vec(v: &Vec<char>, sep: char) -> (r: Vec<Vec<char>>)
    ensures
        r@.map_values(|x: Vec<char>| x@) == split_at_char(v@, sep),
{
    let mut done: Vec<Vec<char>> = Vec::new();
    let mut cur: Vec<char> = Vec::new();
    let mut k: usize = 0;
    assert(v@.take(0) =~= Seq::<char>::empty());
    assert(done@.map_values(|x: Vec<char>| x@).push(cur@) =~= seq![Seq::<char>::empty()]);
    while k < v.len()
        invariant
            k <= v.len(),
            split_at_char(v@.take(k as int), sep) == done@.map_values(|x: Vec<char>| x@).push(
                cur@,
            ),
        decreases v.len() - k,
    {
        let c = v[k];
        let ghost old_done = done@.map_values(|x: Vec<char>| x@);
        let ghost old_cur = cur@;
        proof {
            let t = v@.take(k + 1);
            assert(t.drop_last() =~= v@.take(k as int));
            assert(t.last() == c);
        }
        if c == sep {
            let finished = cur;
            done.push(finished);
            cur = Vec::new();
            assert(done@.map_values(|x: Vec<char>| x@) =~= old_done.push(old_cur));
        } else {
            cur.push(c);
            assert(done@.map_values(|x: Vec<char>| x@) =~= old_done);
            assert(old_done.push(old_cur).update(old_done.len() as int, old_cur.push(c))
                =~= old_done.push(cur@));
        }
        k = k + 1;
    }
    assert(v@.take(v.len() as int) =~= v@);
    let ghost before = done@.map_values(|x: Vec<char>| x@);
    done.push(cur);
    assert(done@.map_values(|x: Vec<char>| x@) =~= before.push(done@[done@.len() - 1]@));
    done
}

/// Parses six two-digit hexadecimal octets separated by `:` or `-`, and checks
/// that the address can name a network interface.
pub fn parse_mac(s: &str) -> (r: Result<[u8; 6], SrunError>)
    ensures
        match r {
            Ok(m) => mac_parse(s@) == Ok::<Seq<u8>, Seq<char>>(m@),
            Err(e) => e matches SrunError::InvalidMac(msg) && mac_parse(s@) == Err::<Seq<u8>, Seq<char>>(msg@),
        },
{
    let v = trimmed_chars(s);
    let colon = vec_has(&v, ':');
    let dash = vec_has(&v, '-');
    if colon == dash {
        return Err(
            SrunError::InvalidMac(
                String::from_str("use six two-digit octets separated by ':' or '-'"),
            ),
        );
    }
    let sep = if colon { ':' } else { '-' };
    let segs = split_vec(&v, sep);
    let ghost spec_segs = split_at_char(v@, sep);
    assert(segs@.len() == spec_segs.len());
    if segs.len() != 6 {
        let n = decimal(segs.len() as u64);
        let mut msg = String::from_str("expected 6 octets, got ");
        msg.append(n.as_str());
        return Err(SrunError::InvalidMac(msg));
    }
    let mut vals: Vec<u8> = Vec::new();
    let mut i: usize = 0;
    while i < 6
        invariant
            v@ == trim(s@),
            colon == v@.contains(':'),
            dash == v@.contains('-'),
            colon != dash,
            sep == (if colon { ':' } else { '-' }),
            spec_segs == split_at_char(v@, sep),
            segs@.len() == 6,
            segs@.map_values(|x: Vec<char>| x@) == spec_segs,
            i <= 6,
            first_bad_octet(spec_segs, 0) == first_bad_octet(spec_segs, i as int),
            vals@.len() == i,
            forall|j: int| 0 <= j < i ==> vals@[j] == octet_value(spec_segs[j]) as u8,
        decreases 6 - i,
    {
        let seg = &segs[i];
        assert(seg@ == spec_segs[i as int]);
        if !(seg.len() == 2 && is_hex_digit(seg[0]) && is_hex_digit(seg[1])) {
            assert(!good_octet(spec_segs[i as int]));
            assert(first_bad_octet(spec_segs, i as int) == Some(i as int));
            let n = decimal((i + 1) as u64);
            let mut msg = String::from_str("octet ");
            msg.append(n.as_str());
            msg.append(" must contain exactly two hexadecimal digits");
            return Err(SrunError::InvalidMac(msg));
        }
        assert(good_octet(spec_segs[i as int]));
        assert(first_bad_octet(spec_segs, i as int) == first_bad_octet(spec_segs, i + 1));
        let hi = hex_value(seg[0]);
        let lo = hex_value(seg[1]);
        vals.push(hi * 16 + lo);
        i = i + 1;
    }
    let mac: [u8; 6] = [vals[0], vals[1], vals[2], vals[3], vals[4], vals[5]];
    let ghost m = Seq::new(6, |k: int| octet_value(spec_segs[k]) as u8);
    assert(mac@ =~= m);
    match validate_mac_bytes(&mac) {
        Ok(()) => Ok(mac),
        Err(e) => Err(e),
    }
}

/// Splitting after appending text free of `sep` extends the last part.
proof fn lemma_split_append_plain(x: Seq<char>, y: Seq<char>, sep: char)
    requires
        !y.contains(sep),
    ensures
        split_at_char(x + y, sep) == split_at_char(x, sep).update(
            split_at_char(x, sep).len() - 1,
            split_at_char(x, sep).last() + y,
        ),
    decreases y.len(),
{
    lemma_split_nonempty(x, sep);
    let sx = split_at_char(x, sep);
    if y.len() == 0 {
        assert(x + y =~= x);
        assert(sx.last() + y =~= sx.last());
        assert(sx.update(sx.len() - 1, sx.last()) =~= sx);
    } else {
        let y0 = y.drop_last();
        assert(!y0.contains(sep)) by {
            if y0.contains(sep) {
                let k = choose|k: int| 0 <= k < y0.len() && y0[k] == sep;
                assert(y[k] == sep);
            }
        }
        lemma_split_append_plain(x, y0, sep);
        let xy = x + y;
        assert(xy.drop_last() =~= x + y0);
        assert(xy.last() == y.last());
        assert(y.last() != sep) by {
            assert(y[y.len() - 1] == y.last());
        }
        assert((sx.last() + y0).push(y.last()) =~= sx.last() + y);
        let s0 = split_at_char(x + y0, sep);
        assert(s0.update(s0.len() - 1, s0.last().push(y.last())) =~= sx.update(
            sx.len() - 1,
            sx.last() + y,
        ));
    }
}

/// Hexadecimal digit characters read back as their values.
proof fn lemma_hex_char(d: nat)
    requires
        d < 16,
    ensures
        is_hex(hex_char(d)),
        hex_val(hex_char(d)) == d,
        hex_char(d) != ':',
        hex_char(d) != '-',
        !crate::text::is_ws(hex_char(d)),
{
}

/// The two digits of a byte read back as the byte.
proof fn lemma_hex2(b: u8)
    ensures
        good_octet(hex2(b)),
        octet_value(hex2(b)) == b,
        !hex2(b).contains(':'),
        !hex2(b).contains('-'),
{
    lemma_hex_char((b / 16) as nat);
    lemma_hex_char((b % 16) as nat);
    let h = hex2(b);
    assert(!h.contains(':')) by {
        if h.contains(':') {
            let k = choose|k: int| 0 <= k < h.len() && h[k] == ':';
        }
    }
    assert(!h.contains('-')) by {
        if h.contains('-') {
            let k = choose|k: int| 0 <= k < h.len() && h[k] == '-';
        }
    }
}

/// The text of `m` splits at `:` into the two-digit texts of its bytes.
proof fn lemma_split_mac_text(m: Seq<u8>)
    requires
        m.len() >= 1,
    ensures
        split_at_char(mac_text(m), ':') == Seq::new(m.len(), |i: int| hex2(m[i])),
        mac_text(m).len() == 3 * m.len() - 1,
        forall|k: int|
            0 <= k < mac_text(m).len() ==> #[trigger] mac_text(m)[k] == ':' || is_hex(
                mac_text(m)[k],
            ),
    decreases m.len(),
{
    if m.len() == 1 {
        lemma_hex2(m[0]);
        lemma_split_append_plain(Seq::empty(), hex2(m[0]), ':');
        assert(Seq::<char>::empty() + hex2(m[0]) =~= hex2(m[0]));
        assert(Seq::<Seq<char>>::empty().push(Seq::<char>::empty()) =~= seq![Seq::<char>::empty()]);
        assert(seq![Seq::<char>::empty()].update(0, Seq::<char>::empty() + hex2(m[0])) =~= Seq::new(
            1,
            |i: int| hex2(m[i]),
        ));
        lemma_hex_char((m[0] / 16) as nat);
        lemma_hex_char((m[0] % 16) as nat);
    } else {
        let p = m.drop_last();
        lemma_split_mac_text(p);
        let a = mac_text(p);
        let h = hex2(m.last());
        lemma_hex2(m.last());
        lemma_hex_char((m.last() / 16) as nat);
        lemma_hex_char((m.last() % 16) as nat);
        let ac = a + seq![':'];
        assert(ac.drop_last() =~= a);
        assert(ac.last() == ':');
        lemma_split_nonempty(a, ':');
        assert(split_at_char(ac, ':') == split_at_char(a, ':').push(Seq::empty()));
        lemma_split_append_plain(ac, h, ':');
        assert(mac_text(m) =~= ac + h);
        let sa = split_at_char(a, ':');
        assert(sa.push(Seq::<char>::empty()).update(sa.len() as int, Seq::<char>::empty() + h)
            =~= Seq::new(m.len(), |i: int| hex2(m[i])));
        assert forall|k: int| 0 <= k < mac_text(m).len() implies #[trigger] mac_text(m)[k] == ':'
            || is_hex(mac_text(m)[k]) by {
            if k < a.len() {
                assert(mac_text(m)[k] == a[k]);
            } else if k == a.len() {
                assert(mac_text(m)[k] == ':');
            } else {
                assert(mac_text(m)[k] == h[k - a.len() - 1]);
            }
        }
    }
}

/// No part of `segs` from `i` on is malformed.
proof fn lemma_no_bad_octet(segs: Seq<Seq<char>>, i: int)
    requires
        0 <= i <= segs.len(),
        forall|k: int| 0 <= k < segs.len() ==> good_octet(#[trigger] segs[k]),
    ensures
        first_bad_octet(segs, i) is None,
    decreases segs.len() - i,
{
    if i < segs.len() {
        lemma_no_bad_octet(segs, i + 1);
    }
}

/// Formatting a usable address and parsing the text gives the address back.
pub proof fn lemma_parse_format_roundtrip(m: Seq<u8>)
    requires
        m.len() == 6,
        mac_problem(m) is None,
    ensures
        mac_parse(mac_text(m)) == Ok::<Seq<u8>, Seq<char>>(m),
{
    let t = mac_text(m);
    lemma_split_mac_text(m);
    assert(!crate::text::is_ws(t[0]));
    assert(!crate::text::is_ws(t[t.len() - 1]));
    assert(crate::text::trim_start(t) == t);
    assert(crate::text::trim_end(t) == t);
    assert(trim(t) == t);
    assert(t.contains(':')) by {
        let segs = split_at_char(t, ':');
        assert(segs.len() == 6);
        assert(t[2] == ':') by {
            assert(t =~= mac_text(m.drop_last()) + seq![':'] + hex2(m.last()));
            let p5 = m.drop_last();
            assert(mac_text(p5) =~= mac_text(p5.drop_last()) + seq![':'] + hex2(p5.last()));
            let p4 = p5.drop_last();
            assert(mac_text(p4) =~= mac_text(p4.drop_last()) + seq![':'] + hex2(p4.last()));
            let p3 = p4.drop_last();
            assert(mac_text(p3) =~= mac_text(p3.drop_last()) + seq![':'] + hex2(p3.last()));
            let p2 = p3.drop_last();
            assert(mac_text(p2) =~= mac_text(p2.drop_last()) + seq![':'] + hex2(p2.last()));
            let p1 = p2.drop_last();
            assert(mac_text(p1) == hex2(p1[0]));
        }
    }
    assert(!t.contains('-')) by {
        if t.contains('-') {
            let k = choose|k: int| 0 <= k < t.len() && t[k] == '-';
            assert(t[k] == ':' || is_hex(t[k]));
        }
    }
    let segs = split_at_char(t, ':');
    assert forall|k: int| 0 <= k < segs.len() implies good_octet(#[trigger] segs[k]) by {
        lemma_hex2(m[k]);
    }
    lemma_no_bad_octet(segs, 0);
    let back = Seq::new(6, |i: int| octet_value(segs[i]) as u8);
    assert forall|i: int| 0 <= i < 6 implies back[i] == m[i] by {
        lemma_hex2(m[i]);
    }
    assert(back =~= m);
}

/// `c` with ASCII uppercase letters lowered, as `to_ascii_lowercase` does.
pub open spec fn ascii_lower(c: char) -> char {
    if 'A' <= c && c <= 'Z' {
        ((c as u32) + 32) as char
    } else {
        c
    }
}

/// A character of MAC text in canonical form: `-` becomes `:`, letters are lowered.
pub open spec fn canonical_char(c: char) -> char {
    if c == '-' {
        ':'
    } else {
        ascii_lower(c)
    }
}

/// Every character of `t` in canonical form.
pub open spec fn canonical_chars(t: Seq<char>) -> Seq<char> {
    t.map_values(|c: char| canonical_char(c))
}

/// The canonical form of address text: surrounding whitespace removed, letters
/// lowered, and `-` separators written as `:`.
pub open spec fn canonical_mac_text(s: Seq<char>) -> Seq<char> {
    canonical_chars(trim(s))
}

/// The parts of a split joined again with `sep` between them.
pub open spec fn join_parts(parts: Seq<Seq<char>>, sep: char) -> Seq<char>
    decreases parts.len(),
{
    if parts.len() == 0 {
        Seq::empty()
    } else if parts.len() == 1 {
        parts[0]
    } else {
        join_parts(parts.drop_last(), sep) + seq![sep] + parts.last()
    }
}

/// Joining the parts of a split gives the text back.
proof fn lemma_split_join(s: Seq<char>, sep: char)
    ensures
        join_parts(split_at_char(s, sep), sep) == s,
    decreases s.len(),
{
    if s.len() > 0 {
        let p = s.drop_last();
        let c = s.last();
        lemma_split_join(p, sep);
        lemma_split_nonempty(p, sep);
        let init = split_at_char(p, sep);
        if c == sep {
            let parts = init.push(Seq::<char>::empty());
            assert(parts.drop_last() =~= init);
            assert(join_parts(parts, sep) =~= p + seq![sep] + Seq::<char>::empty());
            assert(p + seq![sep] + Seq::<char>::empty() =~= s);
        } else {
            let parts = init.update(init.len() - 1, init.last().push(c));
            if init.len() == 1 {
                assert(join_parts(parts, sep) == init.last().push(c));
                assert(join_parts(init, sep) == init[0]);
                assert(p.push(c) =~= s);
            } else {
                assert(parts.drop_last() =~= init.drop_last());
                let head = join_parts(init.drop_last(), sep);
                assert(join_parts(parts, sep) == head + seq![sep] + init.last().push(c));
                assert(join_parts(init, sep) == head + seq![sep] + init.last());
                assert(head + seq![sep] + init.last().push(c) =~= (head + seq![sep]
                    + init.last()).push(c));
                assert(p.push(c) =~= s);
            }
        }
    }
}

/// A hexadecimal digit written back from its value is the digit lowered.
proof fn lemma_hex_digit_canonical(c: char)
    requires
        is_hex(c),
    ensures
        hex_val(c) < 16,
        hex_char(hex_val(c)) == canonical_char(c),
{
}

/// The two digits written for an octet's value are the octet in canonical form.
proof fn lemma_octet_canonical(seg: Seq<char>)
    requires
        good_octet(seg),
    ensures
        octet_value(seg) < 256,
        hex2(octet_value(seg) as u8) == canonical_chars(seg),
{
    lemma_hex_digit_canonical(seg[0]);
    lemma_hex_digit_canonical(seg[1]);
    let b = octet_value(seg) as u8;
    assert(b / 16 == hex_val(seg[0]));
    assert(b % 16 == hex_val(seg[1]));
    assert(hex2(b) =~= canonical_chars(seg));
}

/// The canonical form of two texts joined is the two canonical forms joined.
proof fn lemma_canonical_concat(a: Seq<char>, b: Seq<char>)
    ensures
        canonical_chars(a + b) == canonical_chars(a) + canonical_chars(b),
{
    assert(canonical_chars(a + b) =~= canonical_chars(a) + canonical_chars(b));
}

/// Formatting the values of well-formed parts gives their canonical join.
proof fn lemma_text_of_parts(parts: Seq<Seq<char>>, m: Seq<u8>, sep: char)
    requires
        parts.len() >= 1,
        m.len() == parts.len(),
        canonical_char(sep) == ':',
        forall|k: int| 0 <= k < parts.len() ==> good_octet(#[trigger] parts[k]),
        forall|k: int| 0 <= k < m.len() ==> #[trigger] m[k] == octet_value(parts[k]) as u8,
    ensures
        mac_text(m) == canonical_chars(join_parts(parts, sep)),
    decreases parts.len(),
{
    if parts.len() == 1 {
        lemma_octet_canonical(parts[0]);
        assert(m[0] == octet_value(parts[0]) as u8);
    } else {
        let pp = parts.drop_last();
        let mp = m.drop_last();
        assert forall|k: int| 0 <= k < mp.len() implies #[trigger] mp[k] == octet_value(
            pp[k],
        ) as u8 by {
            assert(m[k] == octet_value(parts[k]) as u8);
        }
        lemma_text_of_parts(pp, mp, sep);
        let last = parts.last();
        assert(good_octet(parts[parts.len() - 1]));
        lemma_octet_canonical(last);
        assert(m[m.len() - 1] == octet_value(parts[parts.len() - 1]) as u8);
        let head = join_parts(pp, sep);
        lemma_canonical_concat(head + seq![sep], last);
        lemma_canonical_concat(head, seq![sep]);
        assert(canonical_chars(seq![sep]) =~= seq![':']);
    }
}

/// Where no part from `i` on is malformed, each of those parts is well formed.
proof fn lemma_all_good_octets(segs: Seq<Seq<char>>, i: int)
    requires
        0 <= i,
        first_bad_octet(segs, i) is None,
    ensures
        forall|k: int| i <= k < segs.len() ==> good_octet(#[trigger] segs[k]),
    decreases segs.len() - i,
{
    if i < segs.len() {
        lemma_all_good_octets(segs, i + 1);
    }
}

/// Formatting a parsed address gives the canonical form of the text it was
/// parsed from: trimmed, lowercase, with `:` between the octets.
pub proof fn lemma_format_parsed_is_canonical(s: Seq<char>, m: Seq<u8>)
    requires
        mac_parse(s) == Ok::<Seq<u8>, Seq<char>>(m),
    ensures
        mac_text(m) == canonical_mac_text(s),
{
    let v = trim(s);
    let sep = if v.contains(':') { ':' } else { '-' };
    let segs = split_at_char(v, sep);
    assert(segs.len() == 6);
    assert(first_bad_octet(segs, 0) is None);
    lemma_all_good_octets(segs, 0);
    assert(m == Seq::new(6, |i: int| octet_value(segs[i]) as u8));
    lemma_text_of_parts(segs, m, sep);
    lemma_split_join(v, sep);
}

/// `raw` made a locally administered unicast address: in its first byte the
/// multicast bit is cleared and the locally-administered bit set.
pub open spec fn local_unicast(raw: Seq<u8>) -> Seq<u8> {
    raw.update(0, (raw[0] & 0xfe) | 2)
}

/// The locally administered unicast address made from the bytes `raw`: the
/// first byte with its low two bits set to `10`, the other five unchanged.
pub fn local_unicast_mac(raw: [u8; 6]) -> (mac: [u8; 6])
    ensures
        mac@ == local_unicast(raw@),
        mac@[0] & 3 == 2,
        mac_problem(mac@) is None,
{
    let b0 = raw[0];
    let first = (b0 & 0xfeu8) | 2u8;
    assert(first & 3 == 2 && first & 1 == 0 && first != 0 && first != 0xff) by (bit_vector)
        requires
            first == (b0 & 0xfeu8) | 2u8,
    ;
    let mac: [u8; 6] = [first, raw[1], raw[2], raw[3], raw[4], raw[5]];
    assert(mac@ =~= local_unicast(raw@));
    mac
}

/// A random locally administered unicast address: six random bytes made one
/// by `local_unicast_mac`.
pub fn generate_mac_address() -> (mac: [u8; 6])
    ensures
        exists|raw: Seq<u8>| raw.len() == 6 && mac@ == local_unicast(raw),
        mac@[0] & 3 == 2,
        mac_problem(mac@) is None,
{
    let raw = random_six_bytes();
    local_unicast_mac(raw)
}

/// Whether `c` is a lowercase hexadecimal digit.
pub open spec fn is_lower_hex(c: char) -> bool {
    ('0' <= c && c <= '9') || ('a' <= c && c <= 'f')
}

/// The `n` lowercase hexadecimal digits of `x` modulo `16^n`, most significant
/// first.
pub open spec fn hex_digits(x: nat, n: nat) -> Seq<char>
    decreases n,
{
    if n == 0 {
        Seq::empty()
    } else {
        hex_digits(x / 16, (n - 1) as nat).push(hex_char(x % 16))
    }
}

/// The temporary interface name for the 48-bit suffix of `suffix`.
pub open spec fn macvlan_name_of(suffix: u64) -> Seq<char> {
    macvlan_prefix() + hex_digits((suffix % 0x1_0000_0000_0000) as nat, 12)
}

/// `hex_digits` gives `n` lowercase hexadecimal digits.
proof fn lemma_hex_digits(x: nat, n: nat)
    ensures
        hex_digits(x, n).len() == n,
        forall|i: int| 0 <= i < n ==> is_lower_hex(#[trigger] hex_digits(x, n)[i]),
    decreases n,
{
    if n > 0 {
        lemma_hex_digits(x / 16, (n - 1) as nat);
        lemma_hex_char(x % 16);
        let d = hex_digits(x, n);
        assert forall|i: int| 0 <= i < n implies is_lower_hex(#[trigger] d[i]) by {
            if i < n - 1 {
                assert(d[i] == hex_digits(x / 16, (n - 1) as nat)[i]);
            }
        }
    }
}

/// Appends the `n` hexadecimal digits of `x`, most significant first.
fn push_hex_digits(s: &mut String, x: u64, n: usize)
    ensures
        final(s)@ == old(s)@ + hex_digits(x as nat, n as nat),
    decreases n,
{
    if n > 0 {
        push_hex_digits(s, x / 16, n - 1);
        push_char(s, hex_digit((x % 16) as u8));
        assert((x / 16) as nat == (x as nat) / 16);
    } else {
        assert(old(s)@ + hex_digits(x as nat, 0) =~= old(s)@);
    }
}

/// The temporary interface name for `suffix`: the prefix followed by the low 48
/// bits of `suffix` as twelve lowercase hexadecimal digits.
pub fn macvlan_name_for(suffix: u64) -> (name: String)
    ensures
        name@ == macvlan_name_of(suffix),
        name@.len() == 15,
        name@.take(3) == macvlan_prefix(),
        forall|i: int| 3 <= i < 15 ==> is_lower_hex(#[trigger] name@[i]),
{
    let low: u64 = suffix & 0x0000_ffff_ffff_ffffu64;
    assert(low == suffix % 0x1_0000_0000_0000) by (bit_vector)
        requires
            low == suffix & 0x0000_ffff_ffff_ffffu64,
    ;
    let mut name = String::new();
    push_char(&mut name, 's');
    push_char(&mut name, 'r');
    push_char(&mut name, 'n');
    assert(name@ =~= macvlan_prefix());
    push_hex_digits(&mut name, low, 12);
    proof {
        lemma_hex_digits(low as nat, 12);
        let d = hex_digits(low as nat, 12);
        assert(name@.take(3) =~= macvlan_prefix());
        assert forall|i: int| 3 <= i < 15 implies is_lower_hex(#[trigger] name@[i]) by {
            assert(name@[i] == d[i - 3]);
        }
    }
    name
}

/// A fresh name for a temporary interface: `macvlan_name_for` a random number,
/// so the prefix followed by twelve random lowercase hexadecimal digits.
pub fn generate_macvlan_name() -> (name: String)
    ensures
        exists|suffix: u64| name@ == macvlan_name_of(suffix),
        name@.len() == 15,
        name@.take(3) == macvlan_prefix(),
        forall|i: int| 3 <= i < 15 ==> is_lower_hex(#[trigger] name@[i]),
{
    macvlan_name_for(random_u64())
}

/// Whether `name` is one of this service's temporary interface names.
pub fn is_managed_macvlan_name(name: &str) -> (r: bool)
    ensures
        r == is_managed_name(name@),
{
    let v = chars_of(name);
    if v.len() != 15 || v[0] != 's' || v[1] != 'r' || v[2] != 'n' {
        proof {
            if v@.len() == 15 && v@.take(3) == macvlan_prefix() {
                assert(v@.take(3)[0] == 's' && v@.take(3)[1] == 'r' && v@.take(3)[2] == 'n');
            }
        }
        return false;
    }
    assert(v@.take(3) =~= macvlan_prefix());
    let mut i: usize = 3;
    while i < 15
        invariant
            v@ == name@,
            v@.len() == 15,
            3 <= i <= 15,
            forall|k: int| 3 <= k < i ==> is_hex(#[trigger] v@[k]),
        decreases 15 - i,
    {
        if !is_hex_digit(v[i]) {
            return false;
        }
        i = i + 1;
    }
    true
}

/// Every generated temporary interface name is recognised as one.
pub proof fn lemma_generated_names_are_managed(name: Seq<char>)
    requires
        name.len() == 15,
        name.take(3) == macvlan_prefix(),
        forall|i: int| 3 <= i < 15 ==> is_lower_hex(#[trigger] name[i]),
    ensures
        is_managed_name(name),
{
    assert forall|i: int| 3 <= i < 15 implies is_hex(#[trigger] name[i]) by {
        assert(is_lower_hex(name[i]));
    }
}

} // verus!
