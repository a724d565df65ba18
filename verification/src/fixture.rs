//! Assembly of the verification fixture: the values a proving run leaves
//! behind for an external on-chain-verifier test suite. The addresses and
//! the opaque byte blobs become `0x`-prefixed lowercase hex literals; the
//! token id stays numeric; the verifying-key digest passes through as the
//! prover rendered it. Writing the fixture to disk is the driver's job.

use vstd::prelude::*;
use vstd::slice::slice_to_vec;
use crate::addr::{hex_literal_of, to_hex_literal};
use crate::codec::{deserialize_record, valid_record_bytes, DecodeError};

verus! {

/// The fixture record. The text fields hold ASCII: `0x`-prefixed lowercase
/// hex for the addresses and byte blobs, the digest verbatim.
#[derive(Debug, Clone, PartialEq, Eq)]
pub struct ProofFixture {
    pub wallet: Vec<u8>,
    pub ca: Vec<u8>,
    pub token_id: u128,
    pub owner: Vec<u8>,
    pub vkey: Vec<u8>,
    pub public_values: Vec<u8>,
    pub proof_bytes: Vec<u8>,
}

/// Builds the fixture from a run's outputs: the committed public values
/// (rejected unless they are a well-formed 57-byte record), the owner
/// address the run was given, the verifying-key digest, and the proof
/// bytes. Wallet, contract and token id are read out of the record itself,
/// so the fixture echoes exactly what was committed.
pub fn build_fixture(
    public_values: &[u8],
    owner: &[u8; 20],
    vkey: &[u8],
    proof_bytes: &[u8],
) -> (r: Result<ProofFixture, DecodeError>)
    ensures
        r is Ok <==> valid_record_bytes(public_values@),
        r matches Ok(f) ==> {
            &&& f.wallet@ == hex_literal_of(public_values@.subrange(0, 20))
            &&& f.ca@ == hex_literal_of(public_values@.subrange(20, 40))
            &&& f.token_id == vstd::bytes::spec_u128_from_le_bytes(
                public_values@.subrange(40, 56),
            )
            &&& f.owner@ == hex_literal_of(owner@)
            &&& f.vkey@ == vkey@
            &&& f.public_values@ == hex_literal_of(public_values@)
            &&& f.proof_bytes@ == hex_literal_of(proof_bytes@)
        },
{
    let record = match deserialize_record(public_values) {
        Ok(rec) => rec,
        Err(e) => {
            return Err(e);
        },
    };
    Ok(
        ProofFixture {
            wallet: to_hex_literal(record.wallet.as_slice()),
            ca: to_hex_literal(record.ca.as_slice()),
            token_id: record.token_id,
            owner: to_hex_literal(owner.as_slice()),
            vkey: slice_to_vec(vkey),
            public_values: to_hex_literal(public_values),
            proof_bytes: to_hex_literal(proof_bytes),
        },
    )
}

} // verus!
