//! Address normalization: turning a hex string (optionally `0x`-prefixed,
//! digits in either case) into a 20-byte EVM address, and rendering one
//! back as a `0x`-prefixed lowercase literal.

use vstd::prelude::*;
use crate::hexbytes::{
    is_hex_digit, hex_digit_value, hex_encoding_of, hex_digit_check, hex_digit_val, encode_hex,
    lemma_nibble_roundtrip,
};

verus! {

/// The rejection of a malformed address string: wrong digit count after the
/// prefix, or a character that is not a hex digit.
#[derive(Debug, Clone, Copy, PartialEq, Eq)]
pub struct InvalidAddress;

/// Drops one leading `0x` (ASCII 48, 120) if present.
pub open spec fn strip_hex_prefix(s: Seq<u8>) -> Seq<u8> {
    if s.len() >= 2 && s[0] == 48 && s[1] == 120 {
        s.skip(2)
    } else {
        s
    }
}

/// Exactly forty hex digits.
pub open spec fn valid_addr_hex(s: Seq<u8>) -> bool {
    s.len() == 40 && (forall|i: int| 0 <= i < 40 ==> is_hex_digit(#[trigger] s[i]))
}

/// The twenty bytes a valid forty-digit string denotes, high nibble first.
pub open spec fn addr_bytes_of(s: Seq<u8>) -> Seq<u8>
    recommends
        valid_addr_hex(s),
{
    Seq::new(20, |i: int| (hex_digit_value(s[2 * i]) * 16 + hex_digit_value(s[2 * i + 1])) as u8)
}

/// Normalizes an address string: strips one optional `0x` prefix, then
/// decodes exactly forty case-insensitive hex digits into twenty bytes.
/// Any other shape is rejected.
#[verifier::loop_isolation(false)]
pub fn parse_addr(s: &[u8]) -> (r: Result<[u8; 20], InvalidAddress>)
    ensures
        r is Ok <==> valid_addr_hex(strip_hex_prefix(s@)),
        r matches Ok(a) ==> a@ == addr_bytes_of(strip_hex_prefix(s@)),
{
    let n = s.len();
    let off: usize = if n >= 2 && s[0] == 48 && s[1] == 120 {
        2
    } else {
        0
    };
    let ghost core = strip_hex_prefix(s@);
    proof {
        assert(core =~= s@.skip(off as int));
    }
    if n - off != 40 {
        return Err(InvalidAddress);
    }
    let mut out: [u8; 20] = [0u8; 20];
    let mut i: usize = 0;
    while i < 20
        invariant
            i <= 20,
            forall|j: int| 0 <= j < 2 * i ==> is_hex_digit(#[trigger] core[j]),
            forall|j: int|
                0 <= j < i ==> out@[j] == (hex_digit_value(core[2 * j]) * 16 + hex_digit_value(
                    core[2 * j + 1],
                )) as u8,
        decreases 20 - i,
    {
        let hi = s[off + 2 * i];
        let lo = s[off + 2 * i + 1];
        proof {
            assert(core[2 * (i as int)] == s@[off as int + 2 * (i as int)]);
            assert(core[2 * (i as int) + 1] == s@[off as int + 2 * (i as int) + 1]);
        }
        if !hex_digit_check(hi) || !hex_digit_check(lo) {
            return Err(InvalidAddress);
        }
        out[i] = hex_digit_val(hi) * 16 + hex_digit_val(lo);
        i += 1;
    }
    proof {
        assert(out@ =~= addr_bytes_of(core));
    }
    Ok(out)
}

/// A `0x`-prefixed lowercase hex literal for a byte string.
pub open spec fn hex_literal_of(b: Seq<u8>) -> Seq<u8> {
    seq![48u8, 120u8] + hex_encoding_of(b)
}

/// Renders a byte string as a `0x`-prefixed lowercase hex literal.
pub fn to_hex_literal(b: &[u8]) -> (r: Vec<u8>)
    ensures
        r@ == hex_literal_of(b@),
{
    let mut out: Vec<u8> = Vec::new();
    out.push(48);
    out.push(120);
    let mut digits = encode_hex(b);
    out.append(&mut digits);
    proof {
        assert(out@ =~= hex_literal_of(b@));
    }
    out
}

/// ASCII lowercasing of a byte string.
pub open spec fn lower_byte(b: u8) -> u8 {
    if 65 <= b && b <= 90 {
        (b + 32) as u8
    } else {
        b
    }
}

/// ASCII lowercasing, character by character.
pub open spec fn lower_hex(s: Seq<u8>) -> Seq<u8> {
    Seq::new(s.len(), |i: int| lower_byte(s[i]))
}

/// Normalization is case-insensitive: lowercasing a valid forty-digit
/// string keeps it valid and denotes the same twenty bytes.
pub proof fn lemma_parse_case_insensitive(s: Seq<u8>)
    requires
        valid_addr_hex(s),
    ensures
        valid_addr_hex(lower_hex(s)),
        addr_bytes_of(lower_hex(s)) == addr_bytes_of(s),
{
    assert forall|i: int| 0 <= i < 40 implies is_hex_digit(#[trigger] lower_hex(s)[i]) by {
        assert(is_hex_digit(s[i]));
    }
    assert forall|i: int| 0 <= i < 20 implies addr_bytes_of(lower_hex(s))[i] == addr_bytes_of(s)[i]
        by {
        assert(is_hex_digit(s[2 * i]));
        assert(is_hex_digit(s[2 * i + 1]));
        assert(lower_hex(s)[2 * i] == lower_byte(s[2 * i]));
        assert(lower_hex(s)[2 * i + 1] == lower_byte(s[2 * i + 1]));
        assert(hex_digit_value(lower_byte(s[2 * i])) == hex_digit_value(s[2 * i]));
        assert(hex_digit_value(lower_byte(s[2 * i + 1])) == hex_digit_value(s[2 * i + 1]));
    }
    assert(addr_bytes_of(lower_hex(s)) =~= addr_bytes_of(s));
}

/// The `0x` prefix is irrelevant: prefixing any string, and stripping an
/// absent prefix, both leave the decoded core unchanged.
pub proof fn lemma_prefix_irrelevant(s: Seq<u8>)
    ensures
        strip_hex_prefix(seq![48u8, 120u8] + s) == s,
        !(s.len() >= 2 && s[0] == 48 && s[1] == 120) ==> strip_hex_prefix(s) == s,
{
    assert((seq![48u8, 120u8] + s).skip(2) =~= s);
}

/// Normalization round trip, hence idempotence: rendering twenty bytes as a
/// `0x`-prefixed lowercase literal and normalizing again yields the same
/// bytes.
pub proof fn lemma_normalize_roundtrip(a: Seq<u8>)
    requires
        a.len() == 20,
    ensures
        valid_addr_hex(strip_hex_prefix(hex_literal_of(a))),
        addr_bytes_of(strip_hex_prefix(hex_literal_of(a))) == a,
{
    let enc = hex_encoding_of(a);
    assert(strip_hex_prefix(hex_literal_of(a)) =~= enc) by {
        assert(hex_literal_of(a)[0] == 48);
        assert(hex_literal_of(a)[1] == 120);
        assert(hex_literal_of(a).skip(2) =~= enc);
    }
    assert forall|i: int| 0 <= i < 40 implies is_hex_digit(#[trigger] enc[i]) by {
        let v = if i % 2 == 0 {
            (a[i / 2] / 16) as u8
        } else {
            (a[i / 2] % 16) as u8
        };
        lemma_nibble_roundtrip(v);
    }
    assert forall|i: int| 0 <= i < 20 implies addr_bytes_of(enc)[i] == a[i] by {
        assert(enc[2 * i] == crate::hexbytes::hex_char_of_nibble((a[i] / 16) as u8));
        assert(enc[2 * i + 1] == crate::hexbytes::hex_char_of_nibble((a[i] % 16) as u8));
        lemma_nibble_roundtrip((a[i] / 16) as u8);
        lemma_nibble_roundtrip((a[i] % 16) as u8);
        assert(hex_digit_value(enc[2 * i]) == a[i] / 16);
        assert(hex_digit_value(enc[2 * i + 1]) == a[i] % 16);
    }
    assert(addr_bytes_of(enc) =~= a);
}

} // verus!
