//! What the instructions announce, and what they have the runtime do.

use crate::pubkey::Pubkey;
use vstd::prelude::*;

verus! {

#[derive(Clone, Copy, Debug, PartialEq, Eq)]
pub struct TipDistributionAccountInitializedEvent {
    pub tip_distribution_account: Pubkey,
}

#[derive(Clone, Copy, Debug, PartialEq, Eq)]
pub struct ValidatorCommissionBpsUpdatedEvent {
    pub tip_distribution_account: Pubkey,
    pub old_commission_bps: u16,
    pub new_commission_bps: u16,
}

#[derive(Clone, Copy, Debug, PartialEq, Eq)]
pub struct MerkleRootUploadAuthorityUpdatedEvent {
    pub old_authority: Pubkey,
    pub new_authority: Pubkey,
}

#[derive(Clone, Copy, Debug, PartialEq, Eq)]
pub struct ConfigUpdatedEvent {
    /// Who updated it.
    pub authority: Pubkey,
}

#[derive(Clone, Copy, Debug, PartialEq, Eq)]
pub struct ClaimedEvent {
    /// The tip distribution account claimed from.
    pub tip_distribution_account: Pubkey,
    /// User that claimed.
    pub claimant: Pubkey,
    /// Index of the claim.
    pub index: u64,
    /// Amount of funds to distribute.
    pub amount: u64,
}

#[derive(Clone, Copy, Debug, PartialEq, Eq)]
pub struct MerkleRootUploadedEvent {
    /// Who uploaded the root.
    pub merkle_root_upload_authority: Pubkey,
    /// Where the root was uploaded to.
    pub tip_distribution_account: Pubkey,
}

#[derive(Clone, Copy, Debug, PartialEq, Eq)]
pub struct TipDistributionAccountClosedEvent {
    /// Account where unclaimed funds were transferred to.
    pub expired_funds_account: Pubkey,
    /// The tip distribution account closed.
    pub tip_distribution_account: Pubkey,
    /// Unclaimed amount transferred.
    pub expired_amount: u64,
}

/// An announcement of the program.
#[derive(Clone, Copy, Debug, PartialEq, Eq)]
pub enum Event {
    TipDistributionAccountInitialized(TipDistributionAccountInitializedEvent),
    ValidatorCommissionBpsUpdated(ValidatorCommissionBpsUpdatedEvent),
    MerkleRootUploadAuthorityUpdated(MerkleRootUploadAuthorityUpdatedEvent),
    ConfigUpdated(ConfigUpdatedEvent),
    Claimed(ClaimedEvent),
    MerkleRootUploaded(MerkleRootUploadedEvent),
    TipDistributionAccountClosed(TipDistributionAccountClosedEvent),
}

/// Something that an instruction has the runtime do. An instruction appends its effects in the
/// order in which they take place; if it fails, the runtime undoes them with everything else.
#[derive(Clone, Copy, Debug, PartialEq, Eq)]
pub enum Effect {
    /// Announce the event.
    Emit(Event),
    /// Move lamports from one account to another.
    Transfer { from: Pubkey, to: Pubkey, lamports: u64 },
    /// Remove the account, and give what it still holds to `destination`.
    Close { account: Pubkey, destination: Pubkey },
}

impl Effect {
    /// The balances after the effect, from those before it.
    pub open spec fn apply(self, balances: Map<Pubkey, int>) -> Map<Pubkey, int> {
        match self {
            Effect::Emit(_) => balances,
            Effect::Transfer { from, to, lamports } => moved(balances, from, to, lamports as int),
            Effect::Close { account, destination } => moved(
                balances,
                account,
                destination,
                balances[account],
            ),
        }
    }
}

/// The balances after `lamports` went from one account to another.
pub open spec fn moved(
    balances: Map<Pubkey, int>,
    from: Pubkey,
    to: Pubkey,
    lamports: int,
) -> Map<Pubkey, int> {
    if from == to {
        balances
    } else {
        balances.insert(from, balances[from] - lamports).insert(to, balances[to] + lamports)
    }
}

/// The balances after all effects, one after the other.
pub open spec fn apply_all(effects: Seq<Effect>, balances: Map<Pubkey, int>) -> Map<Pubkey, int>
    decreases effects.len(),
{
    if effects.len() == 0 {
        balances
    } else {
        effects.last().apply(apply_all(effects.drop_last(), balances))
    }
}

} // verus!
