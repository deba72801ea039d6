//! The data of the program's accounts.

use crate::pubkey::Pubkey;
use vstd::prelude::*;

verus! {

/// Settings that all tip distribution accounts share.
#[derive(Clone, Copy, Debug, PartialEq, Eq)]
pub struct Config {
    /// Who may change these settings.
    pub authority: Pubkey,
    /// Where the funds go that nobody claimed in time.
    pub expired_funds_account: Pubkey,
    /// For how many epochs a tip distribution account stays valid.
    pub num_epochs_valid: u64,
    /// The highest commission that a validator may take, in basis points.
    pub max_validator_commission_bps: u16,
}

/// The root of the tree of claims on a tip distribution account, and what was claimed so far.
#[derive(Clone, Copy, Debug, PartialEq, Eq)]
pub struct MerkleRoot {
    pub root: [u8; 32],
    /// The most that all claims together may take.
    pub max_total_claim: u64,
    /// The most claims that may be made.
    pub max_num_nodes: u64,
    /// What the claims made so far took.
    pub total_funds_claimed: u64,
    /// How many claims were made so far.
    pub num_nodes_claimed: u64,
}

/// The tips that one validator's stakers share for one epoch.
#[derive(Clone, Copy, Debug, PartialEq, Eq)]
pub struct TipDistributionAccount {
    /// The vote account of the validator.
    pub validator_vote_pubkey: Pubkey,
    /// Who may upload the merkle root.
    pub merkle_root_upload_authority: Pubkey,
    /// The claims on the account, once they were uploaded.
    pub merkle_root: Option<MerkleRoot>,
    /// The epoch in which the account was made.
    pub epoch_created_at: u64,
    /// The validator's commission, in basis points.
    pub validator_commission_bps: u16,
}

/// Whether one claim was made, and by whom.
#[derive(Clone, Copy, Debug, PartialEq, Eq)]
pub struct ClaimStatus {
    pub is_claimed: bool,
    pub claimant: Pubkey,
    pub slot_claimed_at: u64,
    pub amount: u64,
}

impl MerkleRoot {
    /// A root on which nothing has been claimed.
    pub open spec fn unclaimed(
        root: [u8; 32],
        max_total_claim: u64,
        max_num_nodes: u64,
    ) -> MerkleRoot {
        MerkleRoot {
            root,
            max_total_claim,
            max_num_nodes,
            total_funds_claimed: 0,
            num_nodes_claimed: 0,
        }
    }

    /// Whether the claims so far keep to both limits.
    pub open spec fn within_limits(self) -> bool {
        &&& self.total_funds_claimed <= self.max_total_claim
        &&& self.num_nodes_claimed <= self.max_num_nodes
    }
}

impl TipDistributionAccount {
    /// Whether a claim was made on the root that the account holds.
    pub open spec fn funds_claimed(self) -> bool {
        self.merkle_root matches Some(root) && root.num_nodes_claimed > 0
    }

    /// Whether the account still holds the root and the limits that `earlier` held, if it held any,
    /// and has counted no less than `earlier` had.
    pub open spec fn keeps_claims_of(self, earlier: TipDistributionAccount) -> bool {
        earlier.merkle_root matches Some(before) ==> {
            &&& self.merkle_root matches Some(now)
            &&& now.root == before.root
            &&& now.max_total_claim == before.max_total_claim
            &&& now.max_num_nodes == before.max_num_nodes
            &&& now.total_funds_claimed >= before.total_funds_claimed
            &&& now.num_nodes_claimed >= before.num_nodes_claimed
        }
    }

    /// Whether the accounts agree in everything but their roots.
    pub open spec fn same_but_for_root(self, other: TipDistributionAccount) -> bool {
        self == TipDistributionAccount { merkle_root: self.merkle_root, ..other }
    }

    /// Whether the claims on the account, if there can be any, keep to the limits of the root.
    pub open spec fn within_limits(self) -> bool {
        self.merkle_root matches Some(root) ==> root.within_limits()
    }
}

} // verus!
