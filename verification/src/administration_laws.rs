//! What the administration is for, said of the accounts' fields, the policy's answers and the
//! effects.

use crate::accounts::{
    InitTipDistributionAccount, Initialize, SetMerkleRootUploadAuthority,
    SetValidatorCommissionBps, UpdateConfig,
};
use crate::administration;
use crate::error::{Error, ErrorCode};
use crate::events::{
    ConfigUpdatedEvent, Effect, Event, MerkleRootUploadAuthorityUpdatedEvent,
    TipDistributionAccountInitializedEvent, ValidatorCommissionBpsUpdatedEvent,
};
use crate::policy::AccountPolicy;
use crate::pubkey::Pubkey;
use crate::state::Config;
use vstd::prelude::*;

verus! {

/// Setting up the config stores each setting as it was given, touches nothing else, and its result
/// is what validation answers.
pub proof fn initialize_stores_the_settings<P: AccountPolicy>(
    before: Initialize,
    after: Initialize,
    authority: Pubkey,
    expired_funds_account: Pubkey,
    num_epochs_valid: u64,
    max_validator_commission_bps: u16,
    policy: P,
    result: Result<(), Error>,
)
    requires
        administration::initialize_done(
            before,
            after,
            authority,
            expired_funds_account,
            num_epochs_valid,
            max_validator_commission_bps,
            policy,
            result,
        ),
    ensures
        after.config.data.authority == authority,
        after.config.data.expired_funds_account == expired_funds_account,
        after.config.data.num_epochs_valid == num_epochs_valid,
        after.config.data.max_validator_commission_bps == max_validator_commission_bps,
        call_ensures(P::validate_config, (&policy, &after.config.data), result),
        after.initializer == before.initializer,
        after.config.key == before.config.key,
        after.config.lamports == before.config.lamports,
        after.config.rent_exempt_minimum
            == before.config.rent_exempt_minimum,
{
}

/// A new account holds what it was made with: the validator that signed, the upload authority and
/// the commission that were given, the current epoch, and no root. A positive commission up to the
/// maximum of the config is not refused; its result is what validation answers.
pub proof fn new_account_holds_what_was_asked_for<P: AccountPolicy>(
    before: InitTipDistributionAccount,
    after: InitTipDistributionAccount,
    effects_before: Seq<Effect>,
    effects_after: Seq<Effect>,
    authority: Pubkey,
    commission_bps: u16,
    policy: P,
    epoch: u64,
    result: Result<(), Error>,
)
    requires
        administration::init_tip_distribution_account_done(
            before,
            after,
            effects_before,
            effects_after,
            authority,
            commission_bps,
            policy,
            epoch,
            result,
        ),
        0 < commission_bps && commission_bps <= before.config.data.max_validator_commission_bps,
    ensures
        after.tip_distribution_account.data.validator_vote_pubkey
            == before.validator_vote_account.key,
        after.tip_distribution_account.data.merkle_root_upload_authority == authority,
        after.tip_distribution_account.data.merkle_root is None,
        after.tip_distribution_account.data.epoch_created_at == epoch,
        after.tip_distribution_account.data.validator_commission_bps == commission_bps,
        call_ensures(
            P::validate_tip_distribution_account,
            (&policy, &after.tip_distribution_account.data),
            result,
        ),
        result is Ok ==> effects_after == effects_before.push(
            Effect::Emit(
                Event::TipDistributionAccountInitialized(
                    (TipDistributionAccountInitializedEvent {
                        tip_distribution_account: before.tip_distribution_account.key,
                    }),
                ),
            ),
        ),
        result is Err ==> effects_after == effects_before,
        after.config == before.config,
        after.validator_vote_account == before.validator_vote_account,
        after.tip_distribution_account.key == before.tip_distribution_account.key,
        after.tip_distribution_account.lamports == before.tip_distribution_account.lamports,
        after.tip_distribution_account.rent_exempt_minimum
            == before.tip_distribution_account.rent_exempt_minimum,
{
}

/// An account is not made with a commission of zero or above the maximum of the config, and is
/// refused for its commission only then, unless it is validation that answers so.
pub proof fn new_account_is_refused_for_its_commission<P: AccountPolicy>(
    before: InitTipDistributionAccount,
    after: InitTipDistributionAccount,
    effects_before: Seq<Effect>,
    effects_after: Seq<Effect>,
    authority: Pubkey,
    commission_bps: u16,
    policy: P,
    epoch: u64,
    result: Result<(), Error>,
)
    requires
        administration::init_tip_distribution_account_done(
            before,
            after,
            effects_before,
            effects_after,
            authority,
            commission_bps,
            policy,
            epoch,
            result,
        ),
    ensures
        (commission_bps == 0 || commission_bps > before.config.data.max_validator_commission_bps) ==> {
            &&& result == Err::<(), Error>(Error::Program(ErrorCode::InvalidValidatorCommissionFeeBps))
            &&& after == before
            &&& effects_after == effects_before
        },
        result == Err::<(), Error>(Error::Program(ErrorCode::InvalidValidatorCommissionFeeBps))
            ==> (commission_bps == 0 || commission_bps > before.config.data.max_validator_commission_bps)
            || call_ensures(
            P::validate_tip_distribution_account,
            (&policy, &after.tip_distribution_account.data),
            result,
        ),
{
}

/// Where an account was made, its commission is the one given, above zero and no more than the
/// maximum of the config, and everything else is as it was given too.
pub proof fn account_that_was_made<P: AccountPolicy>(
    before: InitTipDistributionAccount,
    after: InitTipDistributionAccount,
    effects_before: Seq<Effect>,
    effects_after: Seq<Effect>,
    authority: Pubkey,
    commission_bps: u16,
    policy: P,
    epoch: u64,
)
    requires
        administration::init_tip_distribution_account_done(
            before,
            after,
            effects_before,
            effects_after,
            authority,
            commission_bps,
            policy,
            epoch,
            Ok(()),
        ),
    ensures
        0 < after.tip_distribution_account.data.validator_commission_bps,
        after.tip_distribution_account.data.validator_commission_bps
            <= before.config.data.max_validator_commission_bps,
        after.tip_distribution_account.data.validator_vote_pubkey
            == before.validator_vote_account.key,
        after.tip_distribution_account.data.merkle_root_upload_authority == authority,
        after.tip_distribution_account.data.merkle_root is None,
        after.tip_distribution_account.data.epoch_created_at == epoch,
        after.tip_distribution_account.data.validator_commission_bps == commission_bps,
        call_ensures(
            P::validate_tip_distribution_account,
            (&policy, &after.tip_distribution_account.data),
            Ok(()),
        ),
        effects_after == effects_before.push(
            Effect::Emit(
                Event::TipDistributionAccountInitialized(
                    (TipDistributionAccountInitializedEvent {
                        tip_distribution_account: before.tip_distribution_account.key,
                    }),
                ),
            ),
        ),
{
}

/// The validator of the account can set any positive commission up to the maximum of the config:
/// the account then holds it, nothing else changes, and the result is what validation answers.
pub proof fn allowed_commission_is_set<P: AccountPolicy>(
    before: SetValidatorCommissionBps,
    after: SetValidatorCommissionBps,
    effects_before: Seq<Effect>,
    effects_after: Seq<Effect>,
    commission_bps: u16,
    policy: P,
    result: Result<(), Error>,
)
    requires
        administration::set_validator_commission_bps_done(
            before,
            after,
            effects_before,
            effects_after,
            commission_bps,
            policy,
            result,
        ),
        before.validator_vote_account.key
            == before.tip_distribution_account.data.validator_vote_pubkey,
        0 < commission_bps && commission_bps <= before.config.data.max_validator_commission_bps,
    ensures
        after.tip_distribution_account.data.validator_commission_bps == commission_bps,
        call_ensures(
            P::validate_tip_distribution_account,
            (&policy, &after.tip_distribution_account.data),
            result,
        ),
        result is Ok ==> effects_after == effects_before.push(
            Effect::Emit(
                Event::ValidatorCommissionBpsUpdated(
                    (ValidatorCommissionBpsUpdatedEvent {
                        tip_distribution_account: before.tip_distribution_account.key,
                        old_commission_bps:
                            before.tip_distribution_account.data.validator_commission_bps,
                        new_commission_bps: commission_bps,
                    }),
                ),
            ),
        ),
        result is Err ==> effects_after == effects_before,
        after.config == before.config,
        after.validator_vote_account == before.validator_vote_account,
        after.tip_distribution_account.key == before.tip_distribution_account.key,
        after.tip_distribution_account.lamports == before.tip_distribution_account.lamports,
        after.tip_distribution_account.rent_exempt_minimum
            == before.tip_distribution_account.rent_exempt_minimum,
        after.tip_distribution_account.data.validator_vote_pubkey
            == before.tip_distribution_account.data.validator_vote_pubkey,
        after.tip_distribution_account.data.merkle_root_upload_authority
            == before.tip_distribution_account.data.merkle_root_upload_authority,
        after.tip_distribution_account.data.merkle_root
            == before.tip_distribution_account.data.merkle_root,
        after.tip_distribution_account.data.epoch_created_at
            == before.tip_distribution_account.data.epoch_created_at,
{
}

/// Why a commission is not set: another than the validator signed, or it is zero or above the
/// maximum of the config, unless it is validation that answers so.
pub proof fn commission_is_refused_for_cause<P: AccountPolicy>(
    before: SetValidatorCommissionBps,
    after: SetValidatorCommissionBps,
    effects_before: Seq<Effect>,
    effects_after: Seq<Effect>,
    commission_bps: u16,
    policy: P,
    result: Result<(), Error>,
)
    requires
        administration::set_validator_commission_bps_done(
            before,
            after,
            effects_before,
            effects_after,
            commission_bps,
            policy,
            result,
        ),
    ensures
        before.validator_vote_account.key
            != before.tip_distribution_account.data.validator_vote_pubkey ==> {
            &&& result == Err::<(), Error>(Error::Program(ErrorCode::Unauthorized))
            &&& after == before
            &&& effects_after == effects_before
        },
        before.validator_vote_account.key
            == before.tip_distribution_account.data.validator_vote_pubkey && (commission_bps == 0 || commission_bps > before.config.data.max_validator_commission_bps) ==> {
            &&& result == Err::<(), Error>(Error::Program(ErrorCode::InvalidValidatorCommissionFeeBps))
            &&& after == before
            &&& effects_after == effects_before
        },
        result == Err::<(), Error>(Error::Program(ErrorCode::Unauthorized)) ==> before.validator_vote_account.key
            != before.tip_distribution_account.data.validator_vote_pubkey
            || call_ensures(
            P::validate_tip_distribution_account,
            (&policy, &after.tip_distribution_account.data),
            result,
        ),
        result == Err::<(), Error>(Error::Program(ErrorCode::InvalidValidatorCommissionFeeBps))
            ==> (commission_bps == 0 || commission_bps > before.config.data.max_validator_commission_bps)
            || call_ensures(
            P::validate_tip_distribution_account,
            (&policy, &after.tip_distribution_account.data),
            result,
        ),
{
}

/// Where a commission was set, the validator signed, and the account holds the commission given,
/// above zero and no more than the maximum of the config.
pub proof fn commission_that_was_set<P: AccountPolicy>(
    before: SetValidatorCommissionBps,
    after: SetValidatorCommissionBps,
    effects_before: Seq<Effect>,
    effects_after: Seq<Effect>,
    commission_bps: u16,
    policy: P,
)
    requires
        administration::set_validator_commission_bps_done(
            before,
            after,
            effects_before,
            effects_after,
            commission_bps,
            policy,
            Ok(()),
        ),
    ensures
        before.validator_vote_account.key
            == before.tip_distribution_account.data.validator_vote_pubkey,
        after.tip_distribution_account.data.validator_commission_bps == commission_bps,
        0 < after.tip_distribution_account.data.validator_commission_bps,
        after.tip_distribution_account.data.validator_commission_bps
            <= before.config.data.max_validator_commission_bps,
        call_ensures(
            P::validate_tip_distribution_account,
            (&policy, &after.tip_distribution_account.data),
            Ok(()),
        ),
        effects_after == effects_before.push(
            Effect::Emit(
                Event::ValidatorCommissionBpsUpdated(
                    (ValidatorCommissionBpsUpdatedEvent {
                        tip_distribution_account: before.tip_distribution_account.key,
                        old_commission_bps:
                            before.tip_distribution_account.data.validator_commission_bps,
                        new_commission_bps: commission_bps,
                    }),
                ),
            ),
        ),
{
}

/// The validator of the account can name any upload authority: the account then holds it, nothing
/// else changes, and the result is what validation answers.
pub proof fn validator_sets_the_upload_authority<P: AccountPolicy>(
    before: SetMerkleRootUploadAuthority,
    after: SetMerkleRootUploadAuthority,
    effects_before: Seq<Effect>,
    effects_after: Seq<Effect>,
    authority: Pubkey,
    policy: P,
    result: Result<(), Error>,
)
    requires
        administration::set_merkle_root_upload_authority_done(
            before,
            after,
            effects_before,
            effects_after,
            authority,
            policy,
            result,
        ),
        before.validator_vote_account.key
            == before.tip_distribution_account.data.validator_vote_pubkey,
    ensures
        after.tip_distribution_account.data.merkle_root_upload_authority == authority,
        call_ensures(
            P::validate_tip_distribution_account,
            (&policy, &after.tip_distribution_account.data),
            result,
        ),
        result is Ok ==> effects_after == effects_before.push(
            Effect::Emit(
                Event::MerkleRootUploadAuthorityUpdated(
                    (MerkleRootUploadAuthorityUpdatedEvent {
                        old_authority:
                            before.tip_distribution_account.data.merkle_root_upload_authority,
                        new_authority: authority,
                    }),
                ),
            ),
        ),
        result is Err ==> effects_after == effects_before,
        after.validator_vote_account == before.validator_vote_account,
        after.tip_distribution_account.key == before.tip_distribution_account.key,
        after.tip_distribution_account.lamports == before.tip_distribution_account.lamports,
        after.tip_distribution_account.rent_exempt_minimum
            == before.tip_distribution_account.rent_exempt_minimum,
        after.tip_distribution_account.data.validator_vote_pubkey
            == before.tip_distribution_account.data.validator_vote_pubkey,
        after.tip_distribution_account.data.merkle_root
            == before.tip_distribution_account.data.merkle_root,
        after.tip_distribution_account.data.epoch_created_at
            == before.tip_distribution_account.data.epoch_created_at,
        after.tip_distribution_account.data.validator_commission_bps
            == before.tip_distribution_account.data.validator_commission_bps,
{
}

/// Nobody but the validator of the account names its upload authority, and the validator is not
/// turned away, unless it is validation that answers so.
pub proof fn strangers_set_no_upload_authority<P: AccountPolicy>(
    before: SetMerkleRootUploadAuthority,
    after: SetMerkleRootUploadAuthority,
    effects_before: Seq<Effect>,
    effects_after: Seq<Effect>,
    authority: Pubkey,
    policy: P,
    result: Result<(), Error>,
)
    requires
        administration::set_merkle_root_upload_authority_done(
            before,
            after,
            effects_before,
            effects_after,
            authority,
            policy,
            result,
        ),
    ensures
        before.validator_vote_account.key
            != before.tip_distribution_account.data.validator_vote_pubkey ==> {
            &&& result == Err::<(), Error>(Error::Program(ErrorCode::Unauthorized))
            &&& after == before
            &&& effects_after == effects_before
        },
        result is Ok ==> before.validator_vote_account.key
            == before.tip_distribution_account.data.validator_vote_pubkey,
        result == Err::<(), Error>(Error::Program(ErrorCode::Unauthorized)) ==> before.validator_vote_account.key
            != before.tip_distribution_account.data.validator_vote_pubkey
            || call_ensures(
            P::validate_tip_distribution_account,
            (&policy, &after.tip_distribution_account.data),
            result,
        ),
{
}

/// The authority over the settings can change them all: they are then as given, nothing else
/// changes, and the result is what validation answers.
pub proof fn authority_updates_the_settings<P: AccountPolicy>(
    before: UpdateConfig,
    after: UpdateConfig,
    effects_before: Seq<Effect>,
    effects_after: Seq<Effect>,
    config: Config,
    policy: P,
    result: Result<(), Error>,
)
    requires
        administration::update_config_done(
            before,
            after,
            effects_before,
            effects_after,
            config,
            policy,
            result,
        ),
        before.authority.key == before.config.data.authority,
    ensures
        after.config.data.authority == config.authority,
        after.config.data.expired_funds_account == config.expired_funds_account,
        after.config.data.num_epochs_valid == config.num_epochs_valid,
        after.config.data.max_validator_commission_bps == config.max_validator_commission_bps,
        call_ensures(P::validate_config, (&policy, &after.config.data), result),
        result is Ok ==> effects_after == effects_before.push(
            Effect::Emit(
                Event::ConfigUpdated((ConfigUpdatedEvent { authority: before.authority.key })),
            ),
        ),
        result is Err ==> effects_after == effects_before,
        after.authority == before.authority,
        after.config.key == before.config.key,
        after.config.lamports == before.config.lamports,
        after.config.rent_exempt_minimum
            == before.config.rent_exempt_minimum,
{
}

/// Nobody but the authority over the settings changes them, and it is not turned away, unless it is
/// validation that answers so.
pub proof fn strangers_update_no_settings<P: AccountPolicy>(
    before: UpdateConfig,
    after: UpdateConfig,
    effects_before: Seq<Effect>,
    effects_after: Seq<Effect>,
    config: Config,
    policy: P,
    result: Result<(), Error>,
)
    requires
        administration::update_config_done(
            before,
            after,
            effects_before,
            effects_after,
            config,
            policy,
            result,
        ),
    ensures
        before.authority.key != before.config.data.authority ==> {
            &&& result == Err::<(), Error>(Error::Program(ErrorCode::Unauthorized))
            &&& after == before
            &&& effects_after == effects_before
        },
        result is Ok ==> before.authority.key == before.config.data.authority,
        result == Err::<(), Error>(Error::Program(ErrorCode::Unauthorized)) ==> before.authority.key != before.config.data.authority
            || call_ensures(P::validate_config, (&policy, &after.config.data), result),
{
}

} // verus!
