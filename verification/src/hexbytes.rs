//! Lowercase hexadecimal encoding of byte strings, and the digit-level
//! helpers the address parser builds on. Everything works on ASCII bytes:
//! a hex string is a `Seq<u8>` of digit characters.

use vstd::prelude::*;

verus! {

/// ASCII `0`..`9`, `a`..`f` or `A`..`F`.
pub open spec fn is_hex_digit(b: u8) -> bool {
    (48 <= b && b <= 57) || (97 <= b && b <= 102) || (65 <= b && b <= 70)
}

/// Numeric value of a hex digit character, 0 through 15.
pub open spec fn hex_digit_value(b: u8) -> u8
    recommends
        is_hex_digit(b),
{
    if 48 <= b && b <= 57 {
        (b - 48) as u8
    } else if 97 <= b && b <= 102 {
        (b - 87) as u8
    } else {
        (b - 55) as u8
    }
}

/// Lowercase digit character for a nibble: `0`..`9` then `a`..`f`.
pub open spec fn hex_char_of_nibble(v: u8) -> u8
    recommends
        v < 16,
{
    if v < 10 {
        (48 + v) as u8
    } else {
        (87 + v) as u8
    }
}

/// Lowercase hex encoding of a byte string: two digits per byte, high
/// nibble first.
pub open spec fn hex_encoding_of(b: Seq<u8>) -> Seq<u8> {
    Seq::new(
        b.len() * 2,
        |i: int|
            if i % 2 == 0 {
                hex_char_of_nibble((b[i / 2] / 16) as u8)
            } else {
                hex_char_of_nibble((b[i / 2] % 16) as u8)
            },
    )
}

/// Encoding then reading back a nibble is the identity, and the digit
/// written is always a (lowercase) hex digit.
pub proof fn lemma_nibble_roundtrip(v: u8)
    requires
        v < 16,
    ensures
        is_hex_digit(hex_char_of_nibble(v)),
        hex_digit_value(hex_char_of_nibble(v)) == v,
{
}

/// Decides `is_hex_digit`.
pub fn hex_digit_check(b: u8) -> (r: bool)
    ensures
        r == is_hex_digit(b),
{
    (48 <= b && b <= 57) || (97 <= b && b <= 102) || (65 <= b && b <= 70)
}

/// Computes `hex_digit_value`.
pub fn hex_digit_val(b: u8) -> (r: u8)
    requires
        is_hex_digit(b),
    ensures
        r == hex_digit_value(b),
        r < 16,
{
    if 48 <= b && b <= 57 {
        b - 48
    } else if 97 <= b && b <= 102 {
        b - 87
    } else {
        b - 55
    }
}

/// Computes `hex_char_of_nibble`.
pub fn nibble_char(v: u8) -> (r: u8)
    requires
        v < 16,
    ensures
        r == hex_char_of_nibble(v),
{
    if v < 10 {
        48 + v
    } else {
        87 + v
    }
}

/// Lowercase hex encoding of a byte string.
pub fn encode_hex(b: &[u8]) -> (r: Vec<u8>)
    ensures
        r@ == hex_encoding_of(b@),
{
    let mut out: Vec<u8> = Vec::new();
    let mut i: usize = 0;
    while i < b.len()
        invariant
            i <= b@.len(),
            out@.len() == 2 * i,
            forall|j: int| 0 <= j < 2 * i ==> out@[j] == hex_encoding_of(b@)[j],
        decreases b@.len() - i,
    {
        let byte = b[i];
        out.push(nibble_char(byte / 16));
        out.push(nibble_char(byte % 16));
        i += 1;
    }
    proof {
        assert(out@ =~= hex_encoding_of(b@));
    }
    out
}

} // verus!
