//! Closing accounts whose time is over.

use crate::accounts::{Clock, CloseTipDistributionAccount};
use crate::error::{Error, ErrorCode, CONSTRAINT_RAW};
use crate::events::{Effect, Event, TipDistributionAccountClosedEvent};
use crate::policy;
use crate::policy::AccountPolicy;
use crate::state::TipDistributionAccount;
use vstd::prelude::*;

verus! {

/// Why the account is not closed, if nothing comes of it: known once it is known whether the
/// account has expired.
pub open spec fn close_refusal(
    ctx: CloseTipDistributionAccount,
    expired: bool,
) -> Option<ErrorCode> {
    if !expired {
        Some(ErrorCode::PrematureCloseTipDistributionAccount)
    } else if ctx.tip_distribution_account.disposable() < 0 {
        Some(ErrorCode::RentExemptViolation)
    } else {
        None
    }
}

/// The payment of the unclaimed funds.
pub open spec fn unclaimed_payment(ctx: CloseTipDistributionAccount) -> Effect {
    Effect::Transfer {
        from: ctx.tip_distribution_account.key,
        to: ctx.expired_funds_account.key,
        lamports: ctx.tip_distribution_account.disposable() as u64,
    }
}

/// The announcement that the account was closed.
pub open spec fn close_event(ctx: CloseTipDistributionAccount) -> Effect {
    Effect::Emit(
        Event::TipDistributionAccountClosed(
            TipDistributionAccountClosedEvent {
                expired_funds_account: ctx.expired_funds_account.key,
                tip_distribution_account: ctx.tip_distribution_account.key,
                expired_amount: ctx.tip_distribution_account.disposable() as u64,
            },
        ),
    )
}

/// The removal of the account, which leaves the rest to the validator.
pub open spec fn removal(ctx: CloseTipDistributionAccount) -> Effect {
    Effect::Close {
        account: ctx.tip_distribution_account.key,
        destination: ctx.validator_vote_account.key,
    }
}

/// What closing an account does once it is known whether it has expired: how it leaves the effects
/// and what it returns.
pub open spec fn close_settled<P: AccountPolicy>(
    ctx: CloseTipDistributionAccount,
    effects_before: Seq<Effect>,
    effects_after: Seq<Effect>,
    expired: bool,
    policy: P,
    result: Result<(), Error>,
) -> bool {
    match close_refusal(ctx, expired) {
        Some(code) => {
            &&& result == Err::<(), Error>(Error::Program(code))
            &&& effects_after == effects_before
        },
        None => {
            let paid = effects_before.push(unclaimed_payment(ctx));
            &&& policy::account_verdict(policy, ctx.tip_distribution_account.data, result)
            &&& effects_after == if result is Ok {
                paid.push(close_event(ctx)).push(removal(ctx))
            } else {
                paid
            }
        },
    }
}

/// What closing an account does: how it leaves the effects and what it returns.
pub open spec fn close_done<P: AccountPolicy>(
    ctx: CloseTipDistributionAccount,
    effects_before: Seq<Effect>,
    effects_after: Seq<Effect>,
    policy: P,
    current_epoch: u64,
    result: Result<(), Error>,
) -> bool {
    if !ctx.authorized() {
        &&& result == Err::<(), Error>(Error::Framework(CONSTRAINT_RAW))
        &&& effects_after == effects_before
    } else {
        exists|expired: bool|
            {
                &&& policy::expiry_verdict(
                    policy,
                    ctx.tip_distribution_account.data,
                    ctx.config.data,
                    current_epoch,
                    expired,
                )
                &&& #[trigger] close_settled(
                    ctx,
                    effects_before,
                    effects_after,
                    expired,
                    policy,
                    result,
                )
            }
    }
}

/// Closes an account of which is known whether it has expired.
pub fn settle_close<P: AccountPolicy>(
    ctx: &CloseTipDistributionAccount,
    expired: bool,
    policy: &P,
    effects: &mut Vec<Effect>,
) -> (result: Result<(), Error>)
    ensures
        close_settled(*ctx, old(effects)@, final(effects)@, expired, *policy, result),
        result is Ok ==> expired,
        result is Ok ==> {
            &&& ctx.tip_distribution_account.rent_exempt_minimum
                <= ctx.tip_distribution_account.lamports
            &&& final(effects)@.len() == old(effects)@.len() + 3
            &&& final(effects)@[old(effects)@.len() as int] == (Effect::Transfer {
                from: ctx.tip_distribution_account.key,
                to: ctx.expired_funds_account.key,
                lamports: (ctx.tip_distribution_account.lamports
                    - ctx.tip_distribution_account.rent_exempt_minimum) as u64,
            })
            &&& final(effects)@[old(effects)@.len() as int + 2] == (Effect::Close {
                account: ctx.tip_distribution_account.key,
                destination: ctx.validator_vote_account.key,
            })
        },
{
    if expired {
        let expired_amount: u64 = TipDistributionAccount::claim_expired(
            &ctx.tip_distribution_account,
            &ctx.expired_funds_account.key,
            effects,
        )?;
        policy.validate_tip_distribution_account(&ctx.tip_distribution_account.data)?;

        effects.push(
            Effect::Emit(
                Event::TipDistributionAccountClosed(
                    TipDistributionAccountClosedEvent {
                        expired_funds_account: ctx.expired_funds_account.key,
                        tip_distribution_account: ctx.tip_distribution_account.key,
                        expired_amount,
                    },
                ),
            ),
        );
        effects.push(
            Effect::Close {
                account: ctx.tip_distribution_account.key,
                destination: ctx.validator_vote_account.key,
            },
        );
        Ok(())
    } else {
        Err(Error::Program(ErrorCode::PrematureCloseTipDistributionAccount))
    }
}

/// Anyone can invoke this only after the tip distribution account has expired. This instruction
/// will send any unclaimed funds to the designated `expired_funds_account` before closing and
/// returning the rent exempt funds to the validator. The epoch is the one by which the account's
/// address was derived; it decides nothing here.
pub fn close_tip_distribution_account<P: AccountPolicy>(
    ctx: &CloseTipDistributionAccount,
    _epoch: u64,
    policy: &P,
    clock: Clock,
    effects: &mut Vec<Effect>,
) -> (result: Result<(), Error>)
    ensures
        close_done(*ctx, old(effects)@, final(effects)@, *policy, clock.epoch, result),
        result is Ok ==> {
            &&& ctx.tip_distribution_account.rent_exempt_minimum
                <= ctx.tip_distribution_account.lamports
            &&& final(effects)@.len() == old(effects)@.len() + 3
            &&& final(effects)@[old(effects)@.len() as int] == (Effect::Transfer {
                from: ctx.tip_distribution_account.key,
                to: ctx.expired_funds_account.key,
                lamports: (ctx.tip_distribution_account.lamports
                    - ctx.tip_distribution_account.rent_exempt_minimum) as u64,
            })
            &&& final(effects)@[old(effects)@.len() as int + 2] == (Effect::Close {
                account: ctx.tip_distribution_account.key,
                destination: ctx.validator_vote_account.key,
            })
        },
        result is Ok ==> call_ensures(
            P::is_expired,
            (policy, &ctx.tip_distribution_account.data, &ctx.config.data, clock.epoch),
            true,
        ),
{
    if ctx.config.data.expired_funds_account != ctx.expired_funds_account.key {
        return Err(Error::Framework(CONSTRAINT_RAW));
    }
    let expired: bool = policy.is_expired(
        &ctx.tip_distribution_account.data,
        &ctx.config.data,
        clock.epoch,
    );
    settle_close(ctx, expired, policy, effects)
}

} // verus!
