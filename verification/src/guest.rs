//! The guest side of a proving run: the computation that executes inside
//! the constrained environment. It reads a private input tuple, evaluates
//! the ownership predicate, and commits the serialized public-values
//! record through a write-once sink. The sink stands for the environment's
//! one-way output channel, so the guest logic can run — and be tested —
//! against any backend that drains the committed bytes.

use vstd::prelude::*;
use crate::NFTProofPublicValues;
use crate::owns_nft;
use crate::codec::{record_bytes, serialize_record};

verus! {

/// The private input tuple a proving run is assembled from. Only the
/// record derived from it becomes public.
#[derive(Debug, Clone, Copy, PartialEq, Eq)]
pub struct PrivateInput {
    pub wallet: [u8; 20],
    pub ca: [u8; 20],
    pub token_id: u128,
    pub owner: [u8; 20],
}

/// The record a private input gives rise to: wallet, contract and token id
/// echoed, and the ownership flag decided by byte equality of wallet and
/// owner.
pub open spec fn public_record_of(input: PrivateInput) -> NFTProofPublicValues {
    NFTProofPublicValues {
        wallet: input.wallet,
        ca: input.ca,
        token_id: input.token_id,
        has_nft: input.wallet@ == input.owner@,
    }
}

/// Evaluates the predicate and assembles the public-values record.
pub fn compute_public_values(input: &PrivateInput) -> (r: NFTProofPublicValues)
    ensures
        r == public_record_of(*input),
{
    NFTProofPublicValues {
        wallet: input.wallet,
        ca: input.ca,
        token_id: input.token_id,
        has_nft: owns_nft(&input.wallet, &input.owner),
    }
}

/// A write-once output channel: empty until `commit` fills it, and
/// `commit` can run at most once per sink.
pub struct OutputSink {
    committed: Option<Vec<u8>>,
}

impl OutputSink {
    /// What has been committed so far, if anything.
    pub closed spec fn committed_bytes(&self) -> Option<Seq<u8>> {
        match self.committed {
            Option::Some(v) => Option::Some(v@),
            Option::None => Option::None,
        }
    }

    /// A fresh, still-empty sink.
    pub fn new() -> (s: Self)
        ensures
            s.committed_bytes() is None,
    {
        OutputSink { committed: None }
    }

    /// Fills the sink. Each sink accepts exactly one commit.
    pub fn commit(&mut self, bytes: Vec<u8>)
        requires
            old(self).committed_bytes() is None,
        ensures
            final(self).committed_bytes() == Some(bytes@),
    {
        self.committed = Some(bytes);
    }

    /// Hands the committed bytes out, consuming the sink.
    pub fn into_bytes(self) -> (r: Option<Vec<u8>>)
        ensures
            r matches Some(v) ==> self.committed_bytes() == Some(v@),
            r is None <==> self.committed_bytes() is None,
    {
        self.committed
    }
}

/// One guest run: derive the public-values record from the private input
/// and commit its serialized bytes to the output sink.
pub fn run_guest(input: &PrivateInput, sink: &mut OutputSink)
    requires
        old(sink).committed_bytes() is None,
    ensures
        final(sink).committed_bytes() == Some(record_bytes(public_record_of(*input))),
{
    let record = compute_public_values(input);
    let bytes = serialize_record(&record);
    sink.commit(bytes);
}

} // verus!
