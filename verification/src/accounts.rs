//! The accounts that the instructions work on.

use crate::error::{Error, ErrorCode};
use crate::events::Effect;
use crate::pubkey::Pubkey;
use crate::state::{ClaimStatus, Config, TipDistributionAccount};
use vstd::prelude::*;

verus! {

/// An account of this program, with its data.
#[derive(Copy, Debug, PartialEq, Eq)]
pub struct Account<T> {
    /// The address of the account.
    pub key: Pubkey,
    /// What the account holds.
    pub lamports: u64,
    /// The least that an account of its size must hold to be exempt from rent.
    pub rent_exempt_minimum: u64,
    pub data: T,
}

impl<T: Copy> Clone for Account<T> {
    fn clone(&self) -> (copy: Self)
        ensures
            copy == *self,
    {
        *self
    }
}

/// An account whose holder signed the transaction.
#[derive(Clone, Copy, Debug, PartialEq, Eq)]
pub struct Signer {
    pub key: Pubkey,
}

/// Any account.
#[derive(Clone, Copy, Debug, PartialEq, Eq)]
pub struct AccountInfo {
    pub key: Pubkey,
}

/// What time it is.
#[derive(Clone, Copy, Debug, PartialEq, Eq)]
pub struct Clock {
    pub slot: u64,
    pub epoch: u64,
}

#[derive(Clone, Copy, Debug, PartialEq, Eq)]
pub struct Initialize {
    pub config: Account<Config>,
    pub initializer: Signer,
}

#[derive(Clone, Copy, Debug, PartialEq, Eq)]
pub struct InitTipDistributionAccount {
    pub config: Account<Config>,
    pub tip_distribution_account: Account<TipDistributionAccount>,
    pub validator_vote_account: Signer,
}

#[derive(Clone, Copy, Debug, PartialEq, Eq)]
pub struct SetMerkleRootUploadAuthority {
    pub tip_distribution_account: Account<TipDistributionAccount>,
    pub validator_vote_account: Signer,
}

#[derive(Clone, Copy, Debug, PartialEq, Eq)]
pub struct SetValidatorCommissionBps {
    pub config: Account<Config>,
    pub tip_distribution_account: Account<TipDistributionAccount>,
    pub validator_vote_account: Signer,
}

#[derive(Clone, Copy, Debug, PartialEq, Eq)]
pub struct UpdateConfig {
    pub config: Account<Config>,
    pub authority: Signer,
}

#[derive(Clone, Copy, Debug, PartialEq, Eq)]
pub struct CloseTipDistributionAccount {
    pub config: Account<Config>,
    pub expired_funds_account: AccountInfo,
    pub tip_distribution_account: Account<TipDistributionAccount>,
    /// Receives what the account still holds when it is closed.
    pub validator_vote_account: AccountInfo,
    /// Anyone can crank this instruction.
    pub signer: Signer,
}

#[derive(Clone, Copy, Debug, PartialEq, Eq)]
pub struct Claim {
    pub config: Account<Config>,
    pub tip_distribution_account: Account<TipDistributionAccount>,
    /// Status of the claim. Used to prevent the same party from claiming multiple times.
    pub claim_status: Account<ClaimStatus>,
    /// Who is claiming the tokens.
    pub claimant: Signer,
    /// Who is paying for the claim.
    pub payer: Signer,
}

#[derive(Clone, Copy, Debug, PartialEq, Eq)]
pub struct UploadMerkleRoot {
    pub config: Account<Config>,
    pub tip_distribution_account: Account<TipDistributionAccount>,
    pub merkle_root_upload_authority: Signer,
}

impl SetMerkleRootUploadAuthority {
    /// Whether the signer is the validator that the account belongs to.
    pub open spec fn authorized(self) -> bool {
        self.tip_distribution_account.data.validator_vote_pubkey == self.validator_vote_account.key
    }
}

impl SetValidatorCommissionBps {
    /// Whether the signer is the validator that the account belongs to.
    pub open spec fn authorized(self) -> bool {
        self.tip_distribution_account.data.validator_vote_pubkey == self.validator_vote_account.key
    }
}

impl UpdateConfig {
    /// Whether the signer is the authority over the settings.
    pub open spec fn authorized(self) -> bool {
        self.config.data.authority == self.authority.key
    }
}

impl CloseTipDistributionAccount {
    /// Whether the funds are to go where the settings say.
    pub open spec fn authorized(self) -> bool {
        self.config.data.expired_funds_account == self.expired_funds_account.key
    }
}

impl UploadMerkleRoot {
    /// Whether the signer is the account's upload authority.
    pub open spec fn authorized(self) -> bool {
        self.merkle_root_upload_authority.key
            == self.tip_distribution_account.data.merkle_root_upload_authority
    }
}

impl<T> Account<T> {
    /// What can be taken out of the account without violating rent exemption, if it has not been
    /// violated already.
    pub open spec fn disposable(self) -> int {
        self.lamports - self.rent_exempt_minimum
    }
}

impl TipDistributionAccount {
    /// Pays `amount` from the tip distribution account to `to`, if that leaves the account exempt
    /// from rent.
    pub fn claim(
        from: &Account<TipDistributionAccount>,
        to: &Pubkey,
        amount: u64,
        effects: &mut Vec<Effect>,
    ) -> (result: Result<(), Error>)
        ensures
            result == (if amount <= from.disposable() {
                Ok(())
            } else {
                Err(Error::Program(ErrorCode::RentExemptViolation))
            }),
            final(effects)@ == (if amount <= from.disposable() {
                old(effects)@.push(
                    (Effect::Transfer { from: from.key, to: *to, lamports: amount }),
                )
            } else {
                old(effects)@
            }),
            result is Ok <==> from.rent_exempt_minimum + amount <= from.lamports,
    {
        if from.lamports < from.rent_exempt_minimum || amount > from.lamports
            - from.rent_exempt_minimum {
            return Err(Error::Program(ErrorCode::RentExemptViolation));
        }
        effects.push(Effect::Transfer { from: from.key, to: *to, lamports: amount });
        Ok(())
    }

    /// Sends all that the tip distribution account holds, but for what keeps it exempt from rent,
    /// to `to`, and returns how much that is.
    pub fn claim_expired(
        from: &Account<TipDistributionAccount>,
        to: &Pubkey,
        effects: &mut Vec<Effect>,
    ) -> (result: Result<u64, Error>)
        ensures
            result == (if from.disposable() >= 0 {
                Ok(from.disposable() as u64)
            } else {
                Err(Error::Program(ErrorCode::RentExemptViolation))
            }),
            final(effects)@ == (if from.disposable() >= 0 {
                old(effects)@.push(
                    (Effect::Transfer {
                        from: from.key,
                        to: *to,
                        lamports: from.disposable() as u64,
                    }),
                )
            } else {
                old(effects)@
            }),
            result matches Ok(sent) ==> from.rent_exempt_minimum + sent == from.lamports,
            result is Ok <==> from.rent_exempt_minimum <= from.lamports,
    {
        if from.lamports < from.rent_exempt_minimum {
            return Err(Error::Program(ErrorCode::RentExemptViolation));
        }
        let amount: u64 = from.lamports - from.rent_exempt_minimum;
        effects.push(Effect::Transfer { from: from.key, to: *to, lamports: amount });
        Ok(amount)
    }
}

} // verus!
