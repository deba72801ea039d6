//! The leaf that stands for a claim in the tree of claims.

use crate::pubkey::Pubkey;
use vstd::bytes::*;
use vstd::prelude::*;

verus! {

/// The Keccak-256 digest of `data`.
pub uninterp spec fn keccak256(data: Seq<u8>) -> Seq<u8>;

/// The bytes of all parts, one part behind the other.
pub open spec fn joined(parts: Seq<&[u8]>) -> Seq<u8>
    decreases parts.len(),
{
    if parts.len() == 0 {
        Seq::empty()
    } else {
        joined(parts.drop_last()) + parts.last()@
    }
}

/// Calls `anchor_lang::solana_program::keccak::hashv`: it feeds the parts to one Keccak-256 hasher
/// in their order, so its digest is that of their bytes joined together. Which digest that is
/// stays unsaid.
#[verifier::external_body]
fn hashv(parts: &[&[u8]]) -> (digest: [u8; 32])
    ensures
        digest@ == keccak256(joined(parts@)),
{
    anchor_lang::solana_program::keccak::hashv(parts).0
}

/// The bytes that a claim is hashed from: its index, the claimant's address and the amount, the
/// numbers in little-endian order.
pub open spec fn claim_bytes(index: u64, claimant: Pubkey, amount: u64) -> Seq<u8> {
    spec_u64_to_le_bytes(index) + claimant.bytes@ + spec_u64_to_le_bytes(amount)
}

/// The leaf of the tree of claims that entitles `claimant` to `amount` under `index`.
pub fn claim_leaf(index: u64, claimant: &Pubkey, amount: u64) -> (leaf: [u8; 32])
    ensures
        leaf@ == keccak256(claim_bytes(index, *claimant, amount)),
        leaf@ == keccak256(
            spec_u64_to_le_bytes(index) + claimant.bytes@ + spec_u64_to_le_bytes(amount),
        ),
{
    let index_bytes: Vec<u8> = u64_to_le_bytes(index);
    let amount_bytes: Vec<u8> = u64_to_le_bytes(amount);
    let parts: [&[u8]; 3] = [
        index_bytes.as_slice(),
        claimant.bytes.as_slice(),
        amount_bytes.as_slice(),
    ];
    proof {
        reveal_with_fuel(joined, 4);
        assert(joined(parts@) =~= claim_bytes(index, *claimant, amount));
    }
    hashv(parts.as_slice())
}

} // verus!
