//! Setting up the program and its accounts.

use crate::accounts::{
    Account, Clock, InitTipDistributionAccount, Initialize, SetMerkleRootUploadAuthority,
    SetValidatorCommissionBps, UpdateConfig,
};
use crate::error::{Error, ErrorCode};
use crate::events::{
    ConfigUpdatedEvent, Effect, Event, MerkleRootUploadAuthorityUpdatedEvent,
    TipDistributionAccountInitializedEvent, ValidatorCommissionBpsUpdatedEvent,
};
use crate::policy;
use crate::policy::AccountPolicy;
use crate::pubkey::Pubkey;
use crate::state::{Config, TipDistributionAccount};
use vstd::prelude::*;

verus! {

/// Whether the settings allow a validator the given commission.
pub open spec fn commission_allowed(config: Config, commission_bps: u16) -> bool {
    0 < commission_bps <= config.max_validator_commission_bps
}

/// The tip distribution account as it is made.
pub open spec fn fresh_account(
    validator: Pubkey,
    merkle_root_upload_authority: Pubkey,
    validator_commission_bps: u16,
    epoch: u64,
) -> TipDistributionAccount {
    TipDistributionAccount {
        validator_vote_pubkey: validator,
        merkle_root_upload_authority,
        merkle_root: None,
        epoch_created_at: epoch,
        validator_commission_bps,
    }
}

/// The effects with the event appended, if the instruction succeeded.
pub open spec fn announced(
    effects: Seq<Effect>,
    event: Event,
    result: Result<(), Error>,
) -> Seq<Effect> {
    if result is Ok {
        effects.push(Effect::Emit(event))
    } else {
        effects
    }
}

/// What setting up the config does: how it leaves the accounts, and what it returns.
pub open spec fn initialize_done<P: AccountPolicy>(
    before: Initialize,
    after: Initialize,
    authority: Pubkey,
    expired_funds_account: Pubkey,
    num_epochs_valid: u64,
    max_validator_commission_bps: u16,
    policy: P,
    result: Result<(), Error>,
) -> bool {
    let new = Config {
        authority,
        expired_funds_account,
        num_epochs_valid,
        max_validator_commission_bps,
    };
    &&& after == Initialize { config: Account { data: new, ..before.config }, ..before }
    &&& policy::config_verdict(policy, new, result)
}

/// What setting up a tip distribution account does: how it leaves the accounts and the effects,
/// and what it returns.
pub open spec fn init_tip_distribution_account_done<P: AccountPolicy>(
    before: InitTipDistributionAccount,
    after: InitTipDistributionAccount,
    effects_before: Seq<Effect>,
    effects_after: Seq<Effect>,
    merkle_root_upload_authority: Pubkey,
    validator_commission_bps: u16,
    policy: P,
    epoch: u64,
    result: Result<(), Error>,
) -> bool {
    if !commission_allowed(before.config.data, validator_commission_bps) {
        &&& result == Err::<(), Error>(Error::Program(ErrorCode::InvalidValidatorCommissionFeeBps))
        &&& after == before
        &&& effects_after == effects_before
    } else {
        let account = before.tip_distribution_account;
        let new = fresh_account(
            before.validator_vote_account.key,
            merkle_root_upload_authority,
            validator_commission_bps,
            epoch,
        );
        let event = TipDistributionAccountInitializedEvent {
            tip_distribution_account: account.key,
        };
        &&& after == InitTipDistributionAccount {
            tip_distribution_account: Account { data: new, ..account },
            ..before
        }
        &&& policy::account_verdict(policy, new, result)
        &&& effects_after == announced(
            effects_before,
            Event::TipDistributionAccountInitialized(event),
            result,
        )
    }
}

/// What setting the commission does: how it leaves the accounts and the effects, and what it
/// returns.
pub open spec fn set_validator_commission_bps_done<P: AccountPolicy>(
    before: SetValidatorCommissionBps,
    after: SetValidatorCommissionBps,
    effects_before: Seq<Effect>,
    effects_after: Seq<Effect>,
    new_validator_commission_bps: u16,
    policy: P,
    result: Result<(), Error>,
) -> bool {
    if !before.authorized() {
        &&& result == Err::<(), Error>(Error::Program(ErrorCode::Unauthorized))
        &&& after == before
        &&& effects_after == effects_before
    } else if !commission_allowed(before.config.data, new_validator_commission_bps) {
        &&& result == Err::<(), Error>(Error::Program(ErrorCode::InvalidValidatorCommissionFeeBps))
        &&& after == before
        &&& effects_after == effects_before
    } else {
        let account = before.tip_distribution_account;
        let new = TipDistributionAccount {
            validator_commission_bps: new_validator_commission_bps,
            ..account.data
        };
        let event = ValidatorCommissionBpsUpdatedEvent {
            tip_distribution_account: account.key,
            old_commission_bps: account.data.validator_commission_bps,
            new_commission_bps: new_validator_commission_bps,
        };
        &&& after == SetValidatorCommissionBps {
            tip_distribution_account: Account { data: new, ..account },
            ..before
        }
        &&& policy::account_verdict(policy, new, result)
        &&& effects_after == announced(
            effects_before,
            Event::ValidatorCommissionBpsUpdated(event),
            result,
        )
    }
}

/// What setting the upload authority does: how it leaves the accounts and the effects, and what it
/// returns.
pub open spec fn set_merkle_root_upload_authority_done<P: AccountPolicy>(
    before: SetMerkleRootUploadAuthority,
    after: SetMerkleRootUploadAuthority,
    effects_before: Seq<Effect>,
    effects_after: Seq<Effect>,
    new_merkle_root_upload_authority: Pubkey,
    policy: P,
    result: Result<(), Error>,
) -> bool {
    if !before.authorized() {
        &&& result == Err::<(), Error>(Error::Program(ErrorCode::Unauthorized))
        &&& after == before
        &&& effects_after == effects_before
    } else {
        let account = before.tip_distribution_account;
        let new = TipDistributionAccount {
            merkle_root_upload_authority: new_merkle_root_upload_authority,
            ..account.data
        };
        let event = MerkleRootUploadAuthorityUpdatedEvent {
            old_authority: account.data.merkle_root_upload_authority,
            new_authority: new_merkle_root_upload_authority,
        };
        &&& after == SetMerkleRootUploadAuthority {
            tip_distribution_account: Account { data: new, ..account },
            ..before
        }
        &&& policy::account_verdict(policy, new, result)
        &&& effects_after == announced(
            effects_before,
            Event::MerkleRootUploadAuthorityUpdated(event),
            result,
        )
    }
}

/// What changing the settings does: how it leaves the accounts and the effects, and what it
/// returns.
pub open spec fn update_config_done<P: AccountPolicy>(
    before: UpdateConfig,
    after: UpdateConfig,
    effects_before: Seq<Effect>,
    effects_after: Seq<Effect>,
    new_config: Config,
    policy: P,
    result: Result<(), Error>,
) -> bool {
    if !before.authorized() {
        &&& result == Err::<(), Error>(Error::Program(ErrorCode::Unauthorized))
        &&& after == before
        &&& effects_after == effects_before
    } else {
        let event = ConfigUpdatedEvent { authority: before.authority.key };
        &&& after == UpdateConfig {
            config: Account { data: new_config, ..before.config },
            ..before
        }
        &&& policy::config_verdict(policy, new_config, result)
        &&& effects_after == announced(effects_before, Event::ConfigUpdated(event), result)
    }
}

/// Initialize a singleton instance of the [Config] account.
pub fn initialize<P: AccountPolicy>(
    ctx: &mut Initialize,
    authority: Pubkey,
    expired_funds_account: Pubkey,
    num_epochs_valid: u64,
    max_validator_commission_bps: u16,
    policy: &P,
) -> (result: Result<(), Error>)
    ensures
        *final(ctx) == (Initialize {
            config: Account {
                data: Config {
                    authority,
                    expired_funds_account,
                    num_epochs_valid,
                    max_validator_commission_bps,
                },
                ..old(ctx).config
            },
            ..*old(ctx)
        }),
        policy::config_verdict(*policy, final(ctx).config.data, result),
        initialize_done(
            *old(ctx),
            *final(ctx),
            authority,
            expired_funds_account,
            num_epochs_valid,
            max_validator_commission_bps,
            *policy,
            result,
        ),
        final(ctx).config.data.authority == authority,
        final(ctx).config.data.expired_funds_account == expired_funds_account,
        final(ctx).config.data.num_epochs_valid == num_epochs_valid,
        final(ctx).config.data.max_validator_commission_bps == max_validator_commission_bps,
        call_ensures(P::validate_config, (policy, &final(ctx).config.data), result),
{
    ctx.config.data.authority = authority;
    ctx.config.data.expired_funds_account = expired_funds_account;
    ctx.config.data.num_epochs_valid = num_epochs_valid;
    ctx.config.data.max_validator_commission_bps = max_validator_commission_bps;
    policy.validate_config(&ctx.config.data)?;
    Ok(())
}

/// Initialize a new [TipDistributionAccount] associated with the given validator vote key and
/// current epoch.
pub fn init_tip_distribution_account<P: AccountPolicy>(
    ctx: &mut InitTipDistributionAccount,
    merkle_root_upload_authority: Pubkey,
    validator_commission_bps: u16,
    policy: &P,
    clock: Clock,
    effects: &mut Vec<Effect>,
) -> (result: Result<(), Error>)
    ensures
        init_tip_distribution_account_done(
            *old(ctx),
            *final(ctx),
            old(effects)@,
            final(effects)@,
            merkle_root_upload_authority,
            validator_commission_bps,
            *policy,
            clock.epoch,
            result,
        ),
        result is Err ==> final(effects)@ == old(effects)@,
        result is Ok ==> {
            let new = final(ctx).tip_distribution_account.data;
            &&& 0 < validator_commission_bps <= old(ctx).config.data.max_validator_commission_bps
            &&& new.validator_vote_pubkey == old(ctx).validator_vote_account.key
            &&& new.merkle_root_upload_authority == merkle_root_upload_authority
            &&& new.merkle_root is None
            &&& new.epoch_created_at == clock.epoch
            &&& new.validator_commission_bps == validator_commission_bps
            &&& call_ensures(P::validate_tip_distribution_account, (policy, &new), result)
        },
{
    if !(validator_commission_bps <= ctx.config.data.max_validator_commission_bps
        && validator_commission_bps > 0) {
        return Err(Error::Program(ErrorCode::InvalidValidatorCommissionFeeBps));
    }
    ctx.tip_distribution_account.data.validator_vote_pubkey = ctx.validator_vote_account.key;
    ctx.tip_distribution_account.data.epoch_created_at = clock.epoch;
    ctx.tip_distribution_account.data.validator_commission_bps = validator_commission_bps;
    ctx.tip_distribution_account.data.merkle_root_upload_authority = merkle_root_upload_authority;
    ctx.tip_distribution_account.data.merkle_root = None;
    policy.validate_tip_distribution_account(&ctx.tip_distribution_account.data)?;

    effects.push(
        Effect::Emit(
            Event::TipDistributionAccountInitialized(
                TipDistributionAccountInitializedEvent {
                    tip_distribution_account: ctx.tip_distribution_account.key,
                },
            ),
        ),
    );
    Ok(())
}

/// Sets a new `validator_commission_bps` rate for the given [TipDistributionAccount]. Only the
/// associated validator can invoke this instruction.
pub fn set_validator_commission_bps<P: AccountPolicy>(
    ctx: &mut SetValidatorCommissionBps,
    new_validator_commission_bps: u16,
    policy: &P,
    effects: &mut Vec<Effect>,
) -> (result: Result<(), Error>)
    ensures
        set_validator_commission_bps_done(
            *old(ctx),
            *final(ctx),
            old(effects)@,
            final(effects)@,
            new_validator_commission_bps,
            *policy,
            result,
        ),
        result is Err ==> final(effects)@ == old(effects)@,
        result is Ok ==> {
            let new = final(ctx).tip_distribution_account.data;
            &&& 0 < new_validator_commission_bps <= old(ctx).config.data.max_validator_commission_bps
            &&& new.validator_commission_bps == new_validator_commission_bps
            &&& old(ctx).validator_vote_account.key == new.validator_vote_pubkey
            &&& call_ensures(P::validate_tip_distribution_account, (policy, &new), result)
        },
{
    if ctx.tip_distribution_account.data.validator_vote_pubkey != ctx.validator_vote_account.key {
        return Err(Error::Program(ErrorCode::Unauthorized));
    }
    if !(new_validator_commission_bps <= ctx.config.data.max_validator_commission_bps
        && new_validator_commission_bps > 0) {
        return Err(Error::Program(ErrorCode::InvalidValidatorCommissionFeeBps));
    }
    let old_commission_bps: u16 = ctx.tip_distribution_account.data.validator_commission_bps;
    ctx.tip_distribution_account.data.validator_commission_bps = new_validator_commission_bps;
    policy.validate_tip_distribution_account(&ctx.tip_distribution_account.data)?;

    effects.push(
        Effect::Emit(
            Event::ValidatorCommissionBpsUpdated(
                ValidatorCommissionBpsUpdatedEvent {
                    tip_distribution_account: ctx.tip_distribution_account.key,
                    old_commission_bps,
                    new_commission_bps: new_validator_commission_bps,
                },
            ),
        ),
    );
    Ok(())
}

/// Sets a new `merkle_root_upload_authority` for the given [TipDistributionAccount]. Only the
/// associated validator can invoke this instruction.
pub fn set_merkle_root_upload_authority<P: AccountPolicy>(
    ctx: &mut SetMerkleRootUploadAuthority,
    new_merkle_root_upload_authority: Pubkey,
    policy: &P,
    effects: &mut Vec<Effect>,
) -> (result: Result<(), Error>)
    ensures
        set_merkle_root_upload_authority_done(
            *old(ctx),
            *final(ctx),
            old(effects)@,
            final(effects)@,
            new_merkle_root_upload_authority,
            *policy,
            result,
        ),
        result is Err ==> final(effects)@ == old(effects)@,
        result is Ok ==> {
            let new = final(ctx).tip_distribution_account.data;
            &&& new.merkle_root_upload_authority == new_merkle_root_upload_authority
            &&& old(ctx).validator_vote_account.key == new.validator_vote_pubkey
            &&& call_ensures(P::validate_tip_distribution_account, (policy, &new), result)
        },
{
    if ctx.tip_distribution_account.data.validator_vote_pubkey != ctx.validator_vote_account.key {
        return Err(Error::Program(ErrorCode::Unauthorized));
    }
    let old_authority: Pubkey = ctx.tip_distribution_account.data.merkle_root_upload_authority;
    ctx.tip_distribution_account.data.merkle_root_upload_authority =
    new_merkle_root_upload_authority;
    policy.validate_tip_distribution_account(&ctx.tip_distribution_account.data)?;

    effects.push(
        Effect::Emit(
            Event::MerkleRootUploadAuthorityUpdated(
                MerkleRootUploadAuthorityUpdatedEvent {
                    old_authority,
                    new_authority: new_merkle_root_upload_authority,
                },
            ),
        ),
    );
    Ok(())
}

/// Update config fields. Only the [Config] authority can invoke this.
pub fn update_config<P: AccountPolicy>(
    ctx: &mut UpdateConfig,
    new_config: Config,
    policy: &P,
    effects: &mut Vec<Effect>,
) -> (result: Result<(), Error>)
    ensures
        update_config_done(
            *old(ctx),
            *final(ctx),
            old(effects)@,
            final(effects)@,
            new_config,
            *policy,
            result,
        ),
        result is Err ==> final(effects)@ == old(effects)@,
        result is Ok ==> {
            &&& final(ctx).config.data == new_config
            &&& old(ctx).authority.key == old(ctx).config.data.authority
            &&& call_ensures(P::validate_config, (policy, &new_config), result)
        },
{
    if ctx.config.data.authority != ctx.authority.key {
        return Err(Error::Program(ErrorCode::Unauthorized));
    }
    ctx.config.data.authority = new_config.authority;
    ctx.config.data.expired_funds_account = new_config.expired_funds_account;
    ctx.config.data.num_epochs_valid = new_config.num_epochs_valid;
    ctx.config.data.max_validator_commission_bps = new_config.max_validator_commission_bps;
    policy.validate_config(&ctx.config.data)?;

    effects.push(
        Effect::Emit(
            Event::ConfigUpdated(ConfigUpdatedEvent { authority: ctx.authority.key }),
        ),
    );
    Ok(())
}

} // verus!
