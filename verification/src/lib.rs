//! Proof-of-NFT-ownership library.
//!
//! The value-bearing core of an ownership attestation: given a wallet
//! address, an NFT contract address, a token id and the token's current
//! owner, decide `has_nft = (wallet == owner)` and commit a fixed-layout
//! public-values record that external verifiers parse byte for byte.
//! Address normalization, the record codec, the guest commit step and the
//! host-side run planning all live here with proved contracts; chain reads,
//! proof generation and file output are left to unverified glue around this
//! crate.

use vstd::prelude::*;

pub mod addr;
pub mod codec;
pub mod fixture;
pub mod flow;
pub mod guest;
pub mod hexbytes;

verus! {

/// The address the placeholder chain lookup reports: all twenty bytes zero.
pub open spec fn zero_addr() -> Seq<u8> {
    Seq::new(20, |i: int| 0u8)
}

/// The public-values record committed by the guest program and parsed by
/// downstream verifiers. Field order and width are part of the wire
/// contract: 20 wallet bytes, 20 contract bytes, 16 token-id bytes
/// (little endian), 1 flag byte.
#[derive(Debug, Clone, Copy, PartialEq, Eq)]
pub struct NFTProofPublicValues {
    pub wallet: [u8; 20],
    pub ca: [u8; 20],
    pub token_id: u128,
    pub has_nft: bool,
}

/// The ownership predicate: a wallet owns the token exactly when it equals
/// the supplied owner address, byte for byte. No normalization happens here;
/// both sides must already be decoded 20-byte addresses.
pub open spec fn owns_nft_spec(wallet: [u8; 20], owner: [u8; 20]) -> bool {
    wallet@ == owner@
}

/// Byte-for-byte equality of two 20-byte addresses.
pub fn owns_nft(wallet: &[u8; 20], owner: &[u8; 20]) -> (r: bool)
    ensures
        r == owns_nft_spec(*wallet, *owner),
{
    let mut i: usize = 0;
    while i < 20
        invariant
            i <= 20,
            forall|j: int| 0 <= j < i ==> wallet@[j] == owner@[j],
        decreases 20 - i,
    {
        if wallet[i] != owner[i] {
            return false;
        }
        i += 1;
    }
    proof {
        assert(wallet@ =~= owner@);
    }
    true
}

/// The ownership predicate is exact: every address owns against itself, and
/// two distinct addresses never satisfy it.
pub proof fn lemma_ownership_predicate_exact(a: [u8; 20], b: [u8; 20])
    ensures
        owns_nft_spec(a, a),
        a@ != b@ ==> !owns_nft_spec(a, b),
{
}

/// Placeholder chain lookup kept for the in-library entry point below: it
/// reports the zero address for every token. The live owner is resolved
/// outside the proof boundary and handed in as private input instead.
pub fn owner_of(_ca: [u8; 20], _token_id: u128) -> (r: [u8; 20])
    ensures
        r@ == zero_addr(),
{
    let r: [u8; 20] = [0u8; 20];
    proof {
        assert(r@ =~= zero_addr());
    }
    r
}

/// Checks the wallet against the placeholder lookup's answer; with that
/// lookup fixed at the zero address, this holds exactly for the zero wallet.
pub fn verify_nft_ownership(wallet: [u8; 20], ca: [u8; 20], token_id: u128) -> (r: bool)
    ensures
        r <==> wallet@ == zero_addr(),
{
    let owner: [u8; 20] = owner_of(ca, token_id);
    owns_nft(&wallet, &owner)
}

} // verus!
