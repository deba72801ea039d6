//! Uploading the claims that can be made.

use crate::accounts::{Account, Clock, UploadMerkleRoot};
use crate::error::{Error, ErrorCode, CONSTRAINT_RAW};
use crate::events::{Effect, Event, MerkleRootUploadedEvent};
use crate::policy;
use crate::policy::AccountPolicy;
use crate::state::{MerkleRoot, TipDistributionAccount};
use vstd::prelude::*;

verus! {

/// Why an upload to the account is refused, if it is.
pub open spec fn upload_refusal(
    account: TipDistributionAccount,
    expired: bool,
    current_epoch: u64,
) -> Option<ErrorCode> {
    if account.funds_claimed() {
        Some(ErrorCode::Unauthorized)
    } else if expired {
        Some(ErrorCode::ExpiredTipDistributionAccount)
    } else if account.epoch_created_at >= current_epoch {
        Some(ErrorCode::PrematureMerkleRootUpload)
    } else {
        None
    }
}

/// The account after an upload.
pub open spec fn uploaded(
    account: TipDistributionAccount,
    root: [u8; 32],
    max_total_claim: u64,
    max_num_nodes: u64,
) -> TipDistributionAccount {
    TipDistributionAccount {
        merkle_root: Some(MerkleRoot::unclaimed(root, max_total_claim, max_num_nodes)),
        ..account
    }
}

/// What an authorized upload does once it is known whether the account has expired: how it leaves
/// the accounts and the effects, and what it returns.
pub open spec fn upload_settled<P: AccountPolicy>(
    before: UploadMerkleRoot,
    after: UploadMerkleRoot,
    effects_before: Seq<Effect>,
    effects_after: Seq<Effect>,
    root: [u8; 32],
    max_total_claim: u64,
    max_num_nodes: u64,
    expired: bool,
    policy: P,
    current_epoch: u64,
    result: Result<(), Error>,
) -> bool {
    let account = before.tip_distribution_account;
    match upload_refusal(account.data, expired, current_epoch) {
        Some(code) => {
            &&& result == Err::<(), Error>(Error::Program(code))
            &&& after == before
            &&& effects_after == effects_before
        },
        None => {
            let new = uploaded(account.data, root, max_total_claim, max_num_nodes);
            let event = MerkleRootUploadedEvent {
                merkle_root_upload_authority: before.merkle_root_upload_authority.key,
                tip_distribution_account: account.key,
            };
            &&& after == UploadMerkleRoot {
                tip_distribution_account: Account { data: new, ..account },
                ..before
            }
            &&& policy::account_verdict(policy, new, result)
            &&& effects_after == if result is Ok {
                effects_before.push(Effect::Emit(Event::MerkleRootUploaded(event)))
            } else {
                effects_before
            }
        },
    }
}

/// What an upload does: how it leaves the accounts and the effects, and what it returns.
pub open spec fn upload_done<P: AccountPolicy>(
    before: UploadMerkleRoot,
    after: UploadMerkleRoot,
    effects_before: Seq<Effect>,
    effects_after: Seq<Effect>,
    root: [u8; 32],
    max_total_claim: u64,
    max_num_nodes: u64,
    policy: P,
    current_epoch: u64,
    result: Result<(), Error>,
) -> bool {
    if !before.authorized() {
        &&& result == Err::<(), Error>(Error::Framework(CONSTRAINT_RAW))
        &&& after == before
        &&& effects_after == effects_before
    } else {
        exists|expired: bool|
            {
                &&& before.tip_distribution_account.data.funds_claimed() || policy::expiry_verdict(
                    policy,
                    before.tip_distribution_account.data,
                    before.config.data,
                    current_epoch,
                    expired,
                )
                &&& #[trigger] upload_settled(
                    before,
                    after,
                    effects_before,
                    effects_after,
                    root,
                    max_total_claim,
                    max_num_nodes,
                    expired,
                    policy,
                    current_epoch,
                    result,
                )
            }
    }
}

/// Makes an authorized upload of which is known whether the account has expired.
pub fn settle_upload<P: AccountPolicy>(
    ctx: &mut UploadMerkleRoot,
    root: [u8; 32],
    max_total_claim: u64,
    max_num_nodes: u64,
    expired: bool,
    policy: &P,
    clock: Clock,
    effects: &mut Vec<Effect>,
) -> (result: Result<(), Error>)
    ensures
        upload_settled(
            *old(ctx),
            *final(ctx),
            old(effects)@,
            final(effects)@,
            root,
            max_total_claim,
            max_num_nodes,
            expired,
            *policy,
            clock.epoch,
            result,
        ),
        result is Ok ==> final(ctx).tip_distribution_account.data.within_limits(),
        result is Err ==> final(effects)@ == old(effects)@,
        result is Ok ==> {
            &&& old(ctx).tip_distribution_account.data.epoch_created_at < clock.epoch
            &&& final(ctx).tip_distribution_account.data.merkle_root matches Some(new) && new.root
                == root && new.max_total_claim == max_total_claim && new.max_num_nodes
                == max_num_nodes && new.total_funds_claimed == 0 && new.num_nodes_claimed == 0
        },
{
    if let Some(merkle_root) = &ctx.tip_distribution_account.data.merkle_root {
        if merkle_root.num_nodes_claimed > 0 {
            return Err(Error::Program(ErrorCode::Unauthorized));
        }
    }
    if expired {
        return Err(Error::Program(ErrorCode::ExpiredTipDistributionAccount));
    }
    if ctx.tip_distribution_account.data.epoch_created_at >= clock.epoch {
        return Err(Error::Program(ErrorCode::PrematureMerkleRootUpload));
    }
    ctx.tip_distribution_account.data.merkle_root = Some(
        MerkleRoot {
            root,
            max_total_claim,
            max_num_nodes,
            total_funds_claimed: 0,
            num_nodes_claimed: 0,
        },
    );
    policy.validate_tip_distribution_account(&ctx.tip_distribution_account.data)?;

    effects.push(
        Effect::Emit(
            Event::MerkleRootUploaded(
                MerkleRootUploadedEvent {
                    merkle_root_upload_authority: ctx.merkle_root_upload_authority.key,
                    tip_distribution_account: ctx.tip_distribution_account.key,
                },
            ),
        ),
    );
    Ok(())
}

/// Uploads a merkle root to the provided tip distribution account. This instruction may be invoked
/// many times as long as the account is at least one epoch old and not expired; and no funds have
/// already been claimed. Only the `merkle_root_upload_authority` has the authority to invoke.
pub fn upload_merkle_root<P: AccountPolicy>(
    ctx: &mut UploadMerkleRoot,
    root: [u8; 32],
    max_total_claim: u64,
    max_num_nodes: u64,
    policy: &P,
    clock: Clock,
    effects: &mut Vec<Effect>,
) -> (result: Result<(), Error>)
    ensures
        upload_done(
            *old(ctx),
            *final(ctx),
            old(effects)@,
            final(effects)@,
            root,
            max_total_claim,
            max_num_nodes,
            *policy,
            clock.epoch,
            result,
        ),
        result is Ok ==> final(ctx).tip_distribution_account.data.within_limits(),
        result is Err ==> final(effects)@ == old(effects)@,
        result is Ok ==> {
            &&& old(ctx).tip_distribution_account.data.epoch_created_at < clock.epoch
            &&& final(ctx).tip_distribution_account.data.merkle_root matches Some(new) && new.root
                == root && new.max_total_claim == max_total_claim && new.max_num_nodes
                == max_num_nodes && new.total_funds_claimed == 0 && new.num_nodes_claimed == 0
        },
        result is Ok ==> call_ensures(
            P::is_expired,
            (policy, &old(ctx).tip_distribution_account.data, &old(ctx).config.data, clock.epoch),
            false,
        ),
{
    if ctx.merkle_root_upload_authority.key
        != ctx.tip_distribution_account.data.merkle_root_upload_authority {
        return Err(Error::Framework(CONSTRAINT_RAW));
    }
    let funds_claimed: bool = match &ctx.tip_distribution_account.data.merkle_root {
        Some(merkle_root) => merkle_root.num_nodes_claimed > 0,
        None => false,
    };
    // Where funds were claimed the upload is refused, expired or not.
    let expired: bool = !funds_claimed && policy.is_expired(
        &ctx.tip_distribution_account.data,
        &ctx.config.data,
        clock.epoch,
    );
    settle_upload(
        ctx,
        root,
        max_total_claim,
        max_num_nodes,
        expired,
        policy,
        clock,
        effects,
    )
}

} // verus!
