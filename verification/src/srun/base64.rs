//! The portal's Base64 variant: standard Base64 grouping and `=` padding over
//! a permuted 64-character alphabet.

use vstd::prelude::*;
use crate::text::push_char;

verus! {

/// The permuted alphabet: entry `i` encodes the 6-bit value `i`.
pub open spec fn alphabet() -> Seq<char> {
    seq![
        'L', 'V', 'o', 'J', 'P', 'i', 'C', 'N', '2', 'R', '8', 'G', '9', '0', 'y', 'g',
        '+', 'h', 'm', 'F', 'H', 'u', 'a', 'c', 'Z', '1', 'O', 'W', 'M', 'n', 'r', 's',
        'S', 'T', 'X', 'k', 'Y', 'p', 'U', 'q', '/', '3', 'd', 'l', 'b', 'f', 'K', 'w',
        'v', '6', 'x', 'z', 't', 'j', 'I', '7', 'D', 'e', 'B', 'E', '4', '5', 'Q', 'A',
    ]
}

/// The padding character.
pub open spec fn pad() -> char {
    '='
}

/// Byte `i` of `s`, or zero past its end.
pub open spec fn byte_or_zero(s: Seq<u8>, i: int) -> nat {
    if 0 <= i < s.len() {
        s[i] as nat
    } else {
        0
    }
}

/// The 6-bit value at position `p` (0 to 3) of group `g`, whose 24 bits are the
/// bytes `3g`, `3g + 1`, `3g + 2` of `s` (zero past the end).
pub open spec fn sextet(s: Seq<u8>, g: int, p: int) -> nat {
    let b0 = byte_or_zero(s, 3 * g);
    let b1 = byte_or_zero(s, 3 * g + 1);
    let b2 = byte_or_zero(s, 3 * g + 2);
    if p == 0 {
        b0 / 4
    } else if p == 1 {
        (b0 % 4) * 16 + b1 / 16
    } else if p == 2 {
        (b1 % 16) * 4 + b2 / 64
    } else {
        b2 % 64
    }
}

/// Character `k` of the encoding of `s`: position 2 of a group that lacks its
/// second byte, and position 3 of a group that lacks its third, are padding.
pub open spec fn encoded_char(s: Seq<u8>, k: int) -> char {
    let g = k / 4;
    let p = k % 4;
    if (p == 2 && 3 * g + 1 >= s.len()) || (p == 3 && 3 * g + 2 >= s.len()) {
        pad()
    } else {
        alphabet()[sextet(s, g, p) as int]
    }
}

/// Number of characters in the encoding of `n` bytes: four per started group of three.
pub open spec fn encoded_len(n: nat) -> nat {
    4 * ((n + 2) / 3)
}

/// The encoding of `s`.
pub open spec fn encode(s: Seq<u8>) -> Seq<char> {
    Seq::new(encoded_len(s.len()), |k: int| encoded_char(s, k))
}

/// The alphabet character for the 6-bit value `i`.
fn alpha(i: u32) -> (c: char)
    requires
        i < 64,
    ensures
        c == alphabet()[i as int],
{
    let table: [char; 64] = [
        'L', 'V', 'o', 'J', 'P', 'i', 'C', 'N', '2', 'R', '8', 'G', '9', '0', 'y', 'g',
        '+', 'h', 'm', 'F', 'H', 'u', 'a', 'c', 'Z', '1', 'O', 'W', 'M', 'n', 'r', 's',
        'S', 'T', 'X', 'k', 'Y', 'p', 'U', 'q', '/', '3', 'd', 'l', 'b', 'f', 'K', 'w',
        'v', '6', 'x', 'z', 't', 'j', 'I', '7', 'D', 'e', 'B', 'E', '4', '5', 'Q', 'A',
    ];
    assert(table@ =~= alphabet());
    table[i as usize]
}

/// The shifts and masks over the 24-bit group select the four sextets.
proof fn lemma_group_bits(b0: u8, b1: u8, b2: u8)
    ensures
        ({
            let g = (b0 as u32) << 16u32 | (b1 as u32) << 8u32 | b2 as u32;
            &&& (g >> 18u32) & 63 == b0 / 4
            &&& (g >> 12u32) & 63 == (b0 % 4) * 16 + b1 / 16
            &&& (g >> 6u32) & 63 == (b1 % 16) * 4 + b2 / 64
            &&& g & 63 == b2 % 64
        }),
{
    assert(((((b0 as u32) << 16u32 | (b1 as u32) << 8u32 | b2 as u32) >> 18u32) & 63) == b0 / 4)
        by (bit_vector);
    assert(((((b0 as u32) << 16u32 | (b1 as u32) << 8u32 | b2 as u32) >> 12u32) & 63) == (b0 % 4)
        * 16 + b1 / 16) by (bit_vector);
    assert(((((b0 as u32) << 16u32 | (b1 as u32) << 8u32 | b2 as u32) >> 6u32) & 63) == (b1 % 16)
        * 4 + b2 / 64) by (bit_vector);
    assert((((b0 as u32) << 16u32 | (b1 as u32) << 8u32 | b2 as u32) & 63) == b2 % 64)
        by (bit_vector);
}

/// Index arithmetic for character `4g + j` of an encoding.
proof fn lemma_index_parts(g: int, j: int)
    requires
        g >= 0,
        0 <= j < 4,
    ensures
        (4 * g + j) / 4 == g,
        (4 * g + j) % 4 == j,
{
    assert((4 * g + j) / 4 == g) by (nonlinear_arith)
        requires
            g >= 0,
            0 <= j < 4,
    ;
    assert((4 * g + j) % 4 == j) by (nonlinear_arith)
        requires
            g >= 0,
            0 <= j < 4,
    ;
}

/// The four characters of group `g` of the encoding.
fn group_chars(s: &[u8], i: usize) -> (r: (char, char, char, char))
    requires
        i % 3 == 0,
        i < s.len(),
    ensures
        r.0 == encoded_char(s@, 4 * (i / 3) as int),
        r.1 == encoded_char(s@, 4 * (i / 3) + 1),
        r.2 == encoded_char(s@, 4 * (i / 3) + 2),
        r.3 == encoded_char(s@, 4 * (i / 3) + 3),
{
    let n = s.len();
    let b0 = s[i];
    let b1 = if i + 1 < n { s[i + 1] } else { 0 };
    let b2 = if i + 2 < n { s[i + 2] } else { 0 };
    let g = (b0 as u32) << 16u32 | (b1 as u32) << 8u32 | b2 as u32;
    let ghost gi = (i / 3) as int;
    proof {
        lemma_group_bits(b0, b1, b2);
        assert(i == 3 * gi);
        lemma_index_parts(gi, 0);
        lemma_index_parts(gi, 1);
        lemma_index_parts(gi, 2);
        lemma_index_parts(gi, 3);
        assert(byte_or_zero(s@, 3 * gi) == b0);
        assert(byte_or_zero(s@, 3 * gi + 1) == b1);
        assert(byte_or_zero(s@, 3 * gi + 2) == b2);
    }
    let c0 = alpha((g >> 18u32) & 63);
    let c1 = alpha((g >> 12u32) & 63);
    let c2 = if i + 1 < n { alpha((g >> 6u32) & 63) } else { '=' };
    let c3 = if i + 2 < n { alpha(g & 63) } else { '=' };
    (c0, c1, c2, c3)
}

/// Appends the four characters of the group starting at byte `i`.
fn push_group(out: &mut String, s: &[u8], i: usize)
    requires
        i % 3 == 0,
        i < s.len(),
        old(out)@ == encode(s@).take((4 * (i / 3)) as int),
    ensures
        final(out)@ == encode(s@).take((4 * (i / 3) + 4) as int),
{
    let n = s.len();
    let ghost k = 4 * (i / 3);
    let ghost e = encode(s@);
    assert(k + 4 <= e.len()) by {
        assert(i / 3 < (n + 2) / 3);
    }
    let (c0, c1, c2, c3) = group_chars(s, i);
    push_char(out, c0);
    push_char(out, c1);
    push_char(out, c2);
    push_char(out, c3);
    assert(out@ =~= e.take(k + 4));
}

/// Encodes `s` with the portal's alphabet.
pub fn get_base64(s: &[u8]) -> (r: String)
    requires
        s.len() <= usize::MAX / 2,
    ensures
        r@ == encode(s@),
{
    let n = s.len();
    let mut out = String::new();
    let mut i: usize = 0;
    while i < n
        invariant
            n == s.len() <= usize::MAX / 2,
            i % 3 == 0,
            i <= n + 2,
            i < n ==> 4 * (i / 3) < encoded_len(n as nat),
            out@ == encode(s@).take((4 * (i / 3)) as int),
        decreases n + 2 - i,
    {
        push_group(&mut out, s, i);
        i = i + 3;
    }
    assert(4 * (i / 3) == encoded_len(n as nat));
    assert(out@ =~= encode(s@));
    out
}

/// Every character of an encoding is an alphabet character or padding.
pub proof fn lemma_encode_charset(s: Seq<u8>)
    ensures
        forall|k: int|
            0 <= k < encode(s).len() ==> (#[trigger] encode(s)[k] == pad() || alphabet().contains(
                encode(s)[k],
            )),
{
    assert forall|k: int| 0 <= k < encode(s).len() implies (#[trigger] encode(s)[k] == pad()
        || alphabet().contains(encode(s)[k])) by {
        let g = k / 4;
        let p = k % 4;
        if !((p == 2 && 3 * g + 1 >= s.len()) || (p == 3 && 3 * g + 2 >= s.len())) {
            assert(sextet(s, g, p) < 64);
            assert(alphabet().len() == 64);
        }
    }
}

} // verus!
