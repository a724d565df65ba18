//! Wire codec for the public-values record. The layout is the external
//! data contract: 20 wallet bytes, then 20 contract bytes, then the token
//! id as 16 little-endian bytes, then one flag byte (1 for `true`, 0 for
//! `false`) — 57 bytes in all, parsed byte for byte by downstream
//! verifiers.

use vstd::prelude::*;
use vstd::bytes::{
    spec_u128_to_le_bytes, spec_u128_from_le_bytes, u128_to_le_bytes, u128_from_le_bytes,
    lemma_auto_spec_u128_to_from_le_bytes,
};
use vstd::slice::slice_subrange;
use crate::NFTProofPublicValues;

verus! {

/// The rejection of a byte string that is not a serialized record.
#[derive(Debug, Clone, Copy, PartialEq, Eq)]
pub enum DecodeError {
    /// Not exactly 57 bytes long.
    BadLength,
    /// The flag byte is neither 0 nor 1.
    BadFlag,
}

/// The flag byte for the ownership bit.
pub open spec fn bool_byte(b: bool) -> u8 {
    if b {
        1
    } else {
        0
    }
}

/// The serialized form of a record.
pub open spec fn record_bytes(r: NFTProofPublicValues) -> Seq<u8> {
    r.wallet@ + r.ca@ + spec_u128_to_le_bytes(r.token_id) + seq![bool_byte(r.has_nft)]
}

/// A byte string some record serializes to: 57 bytes with a 0-or-1 flag.
pub open spec fn valid_record_bytes(b: Seq<u8>) -> bool {
    b.len() == 57 && (b[56] == 0 || b[56] == 1)
}

/// Serializes a record into its 57-byte wire form.
#[verifier::loop_isolation(false)]
pub fn serialize_record(r: &NFTProofPublicValues) -> (out: Vec<u8>)
    ensures
        out@ == record_bytes(*r),
        out@.len() == 57,
{
    proof {
        lemma_auto_spec_u128_to_from_le_bytes();
    }
    let mut out: Vec<u8> = Vec::new();
    let mut i: usize = 0;
    while i < 20
        invariant
            i <= 20,
            out@ =~= r.wallet@.take(i as int),
        decreases 20 - i,
    {
        out.push(r.wallet[i]);
        i += 1;
    }
    let mut i: usize = 0;
    while i < 20
        invariant
            i <= 20,
            out@ =~= r.wallet@ + r.ca@.take(i as int),
        decreases 20 - i,
    {
        out.push(r.ca[i]);
        i += 1;
    }
    let mut tid = u128_to_le_bytes(r.token_id);
    out.append(&mut tid);
    if r.has_nft {
        out.push(1);
    } else {
        out.push(0);
    }
    proof {
        assert(out@ =~= record_bytes(*r));
    }
    out
}

/// Parses a 57-byte wire form back into a record. Succeeds exactly on the
/// byte strings some record serializes to, and recovers each field from its
/// fixed slot.
pub fn deserialize_record(b: &[u8]) -> (r: Result<NFTProofPublicValues, DecodeError>)
    ensures
        r is Ok <==> valid_record_bytes(b@),
        r matches Ok(rec) ==> {
            &&& rec.wallet@ == b@.subrange(0, 20)
            &&& rec.ca@ == b@.subrange(20, 40)
            &&& rec.token_id == spec_u128_from_le_bytes(b@.subrange(40, 56))
            &&& rec.has_nft == (b@[56] == 1)
        },
        r matches Err(e) ==> (e is BadLength <==> b@.len() != 57),
{
    if b.len() != 57 {
        return Err(DecodeError::BadLength);
    }
    let flag = b[56];
    if flag != 0 && flag != 1 {
        return Err(DecodeError::BadFlag);
    }
    let mut wallet: [u8; 20] = [0u8; 20];
    let mut ca: [u8; 20] = [0u8; 20];
    let mut i: usize = 0;
    #[verifier::loop_isolation(false)]
    while i < 20
        invariant
            i <= 20,
            forall|j: int| 0 <= j < i ==> wallet@[j] == b@[j],
        decreases 20 - i,
    {
        wallet[i] = b[i];
        i += 1;
    }
    let mut i: usize = 0;
    #[verifier::loop_isolation(false)]
    while i < 20
        invariant
            i <= 20,
            forall|j: int| 0 <= j < i ==> ca@[j] == b@[20 + j],
        decreases 20 - i,
    {
        ca[i] = b[20 + i];
        i += 1;
    }
    let token_id = u128_from_le_bytes(slice_subrange(b, 40, 56));
    let rec = NFTProofPublicValues { wallet, ca, token_id, has_nft: flag == 1 };
    proof {
        assert(rec.wallet@ =~= b@.subrange(0, 20));
        assert(rec.ca@ =~= b@.subrange(20, 40));
    }
    Ok(rec)
}

/// Round trip: serializing any record and parsing the bytes back recovers
/// every field — each field sits in its fixed slot of the 57-byte form, the
/// token id without truncation anywhere in the 128-bit range.
pub proof fn lemma_record_roundtrip(r: NFTProofPublicValues)
    ensures
        valid_record_bytes(record_bytes(r)),
        record_bytes(r).subrange(0, 20) == r.wallet@,
        record_bytes(r).subrange(20, 40) == r.ca@,
        spec_u128_from_le_bytes(record_bytes(r).subrange(40, 56)) == r.token_id,
        (record_bytes(r)[56] == 1) == r.has_nft,
{
    lemma_auto_spec_u128_to_from_le_bytes();
    let b = record_bytes(r);
    assert(b.subrange(0, 20) =~= r.wallet@);
    assert(b.subrange(20, 40) =~= r.ca@);
    assert(b.subrange(40, 56) =~= spec_u128_to_le_bytes(r.token_id));
}

} // verus!
