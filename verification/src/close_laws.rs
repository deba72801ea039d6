//! What closing is for, said of the accounts' fields, the policy's answers and the effects.

use crate::accounts::CloseTipDistributionAccount;
use crate::closing;
use crate::error::{Error, ErrorCode};
use crate::events::{Effect, Event, TipDistributionAccountClosedEvent};
use crate::policy::AccountPolicy;
use vstd::prelude::*;

verus! {

/// Closing an account that is known to have expired or not comes to exactly one of these ends:
/// refused because it has not expired or because it holds less than keeps it exempt from rent, and
/// then nothing is done; or the account is paid out and, if validation accepts it, closed.
pub proof fn settled_close_comes_to_one_end<P: AccountPolicy>(
    ctx: CloseTipDistributionAccount,
    effects_before: Seq<Effect>,
    effects_after: Seq<Effect>,
    expired: bool,
    policy: P,
    result: Result<(), Error>,
)
    requires
        closing::close_settled(ctx, effects_before, effects_after, expired, policy, result),
    ensures
        !expired ==> {
            &&& result == Err::<(), Error>(Error::Program(ErrorCode::PrematureCloseTipDistributionAccount))
            &&& effects_after == effects_before
        },
        expired && ctx.tip_distribution_account.rent_exempt_minimum
            > ctx.tip_distribution_account.lamports ==> {
            &&& result == Err::<(), Error>(Error::Program(ErrorCode::RentExemptViolation))
            &&& effects_after == effects_before
        },
        expired && ctx.tip_distribution_account.rent_exempt_minimum
            <= ctx.tip_distribution_account.lamports ==> {
            &&& call_ensures(
            P::validate_tip_distribution_account,
            (&policy, &ctx.tip_distribution_account.data),
            result,
        )
            &&& effects_after == if result is Ok {
                effects_before.push(
            (Effect::Transfer {
                from: ctx.tip_distribution_account.key,
                to: ctx.expired_funds_account.key,
                lamports: (ctx.tip_distribution_account.lamports
                    - ctx.tip_distribution_account.rent_exempt_minimum) as u64,
            }),
        ).push(
            Effect::Emit(
                Event::TipDistributionAccountClosed(
                    (TipDistributionAccountClosedEvent {
                        expired_funds_account: ctx.expired_funds_account.key,
                        tip_distribution_account: ctx.tip_distribution_account.key,
                        expired_amount: (ctx.tip_distribution_account.lamports
                    - ctx.tip_distribution_account.rent_exempt_minimum) as u64,
                    }),
                ),
            ),
        ).push(
            (Effect::Close {
                account: ctx.tip_distribution_account.key,
                destination: ctx.validator_vote_account.key,
            }),
        )
            } else {
                effects_before.push(
            (Effect::Transfer {
                from: ctx.tip_distribution_account.key,
                to: ctx.expired_funds_account.key,
                lamports: (ctx.tip_distribution_account.lamports
                    - ctx.tip_distribution_account.rent_exempt_minimum) as u64,
            }),
        )
            }
        },
{
}

/// Why an account is not closed.
pub proof fn closing_is_refused_for_cause<P: AccountPolicy>(
    ctx: CloseTipDistributionAccount,
    effects_before: Seq<Effect>,
    effects_after: Seq<Effect>,
    policy: P,
    epoch: u64,
    result: Result<(), Error>,
)
    requires
        closing::close_done(ctx, effects_before, effects_after, policy, epoch, result),
    ensures
        ctx.expired_funds_account.key != ctx.config.data.expired_funds_account ==> {
            &&& result == Err::<(), Error>(Error::Framework(2003))
            &&& effects_after == effects_before
        },
        // An account that cannot be found expired.
        ctx.expired_funds_account.key == ctx.config.data.expired_funds_account
            && !call_ensures(
            P::is_expired,
            (&policy, &ctx.tip_distribution_account.data, &ctx.config.data, epoch),
            true,
        ) ==> {
            &&& result == Err::<(), Error>(Error::Program(ErrorCode::PrematureCloseTipDistributionAccount))
            &&& effects_after == effects_before
        },
        // An account that cannot be found unexpired, but holds too little.
        ctx.expired_funds_account.key == ctx.config.data.expired_funds_account && ctx.tip_distribution_account.rent_exempt_minimum
            > ctx.tip_distribution_account.lamports
            && !call_ensures(
            P::is_expired,
            (&policy, &ctx.tip_distribution_account.data, &ctx.config.data, epoch),
            false,
        ) ==> {
            &&& result == Err::<(), Error>(Error::Program(ErrorCode::RentExemptViolation))
            &&& effects_after == effects_before
        },
        // An error tells why, unless it is the answer of validation.
        result == Err::<(), Error>(Error::Framework(2003)) ==> ctx.expired_funds_account.key != ctx.config.data.expired_funds_account
            || call_ensures(
            P::validate_tip_distribution_account,
            (&policy, &ctx.tip_distribution_account.data),
            result,
        ),
        result == Err::<(), Error>(Error::Program(ErrorCode::PrematureCloseTipDistributionAccount))
            ==> call_ensures(
            P::is_expired,
            (&policy, &ctx.tip_distribution_account.data, &ctx.config.data, epoch),
            false,
        )
            || call_ensures(
            P::validate_tip_distribution_account,
            (&policy, &ctx.tip_distribution_account.data),
            result,
        ),
        result == Err::<(), Error>(Error::Program(ErrorCode::RentExemptViolation)) ==> ctx.tip_distribution_account.rent_exempt_minimum
            > ctx.tip_distribution_account.lamports
            || call_ensures(
            P::validate_tip_distribution_account,
            (&policy, &ctx.tip_distribution_account.data),
            result,
        ),
{
}

/// An account that cannot be found unexpired is paid out, and its result is what validation
/// answers: whoever signs, and whatever its root and its tallies are. If validation accepts it, all
/// but what keeps it exempt from rent goes to the account of the config, this is announced, and the
/// account is closed to the validator.
pub proof fn expired_account_is_closed<P: AccountPolicy>(
    ctx: CloseTipDistributionAccount,
    effects_before: Seq<Effect>,
    effects_after: Seq<Effect>,
    policy: P,
    epoch: u64,
    result: Result<(), Error>,
)
    requires
        closing::close_done(ctx, effects_before, effects_after, policy, epoch, result),
        ctx.expired_funds_account.key == ctx.config.data.expired_funds_account,
        ctx.tip_distribution_account.rent_exempt_minimum
            <= ctx.tip_distribution_account.lamports,
        !call_ensures(
            P::is_expired,
            (&policy, &ctx.tip_distribution_account.data, &ctx.config.data, epoch),
            false,
        ),
    ensures
        call_ensures(
            P::validate_tip_distribution_account,
            (&policy, &ctx.tip_distribution_account.data),
            result,
        ),
        result is Ok ==> effects_after == effects_before.push(
            (Effect::Transfer {
                from: ctx.tip_distribution_account.key,
                to: ctx.expired_funds_account.key,
                lamports: (ctx.tip_distribution_account.lamports
                    - ctx.tip_distribution_account.rent_exempt_minimum) as u64,
            }),
        ).push(
            Effect::Emit(
                Event::TipDistributionAccountClosed(
                    (TipDistributionAccountClosedEvent {
                        expired_funds_account: ctx.expired_funds_account.key,
                        tip_distribution_account: ctx.tip_distribution_account.key,
                        expired_amount: (ctx.tip_distribution_account.lamports
                    - ctx.tip_distribution_account.rent_exempt_minimum) as u64,
                    }),
                ),
            ),
        ).push(
            (Effect::Close {
                account: ctx.tip_distribution_account.key,
                destination: ctx.validator_vote_account.key,
            }),
        ),
        result is Err ==> effects_after == effects_before.push(
            (Effect::Transfer {
                from: ctx.tip_distribution_account.key,
                to: ctx.expired_funds_account.key,
                lamports: (ctx.tip_distribution_account.lamports
                    - ctx.tip_distribution_account.rent_exempt_minimum) as u64,
            }),
        ),
{
}

/// Closing succeeds where it should: an account that cannot be found unexpired, that holds enough
/// and that validation cannot refuse, is closed, whatever its root and its tallies are.
pub proof fn closing_succeeds_when_due<P: AccountPolicy>(
    ctx: CloseTipDistributionAccount,
    effects_before: Seq<Effect>,
    effects_after: Seq<Effect>,
    policy: P,
    epoch: u64,
    result: Result<(), Error>,
)
    requires
        closing::close_done(ctx, effects_before, effects_after, policy, epoch, result),
        ctx.expired_funds_account.key == ctx.config.data.expired_funds_account,
        ctx.tip_distribution_account.rent_exempt_minimum
            <= ctx.tip_distribution_account.lamports,
        !call_ensures(
            P::is_expired,
            (&policy, &ctx.tip_distribution_account.data, &ctx.config.data, epoch),
            false,
        ),
        forall|answer: Result<(), Error>| #[trigger]
            call_ensures(
                P::validate_tip_distribution_account,
                (&policy, &ctx.tip_distribution_account.data),
                answer,
            ) ==> answer is Ok,
    ensures
        result is Ok,
        effects_after == effects_before.push(
            (Effect::Transfer {
                from: ctx.tip_distribution_account.key,
                to: ctx.expired_funds_account.key,
                lamports: (ctx.tip_distribution_account.lamports
                    - ctx.tip_distribution_account.rent_exempt_minimum) as u64,
            }),
        ).push(
            Effect::Emit(
                Event::TipDistributionAccountClosed(
                    (TipDistributionAccountClosedEvent {
                        expired_funds_account: ctx.expired_funds_account.key,
                        tip_distribution_account: ctx.tip_distribution_account.key,
                        expired_amount: (ctx.tip_distribution_account.lamports
                    - ctx.tip_distribution_account.rent_exempt_minimum) as u64,
                    }),
                ),
            ),
        ).push(
            (Effect::Close {
                account: ctx.tip_distribution_account.key,
                destination: ctx.validator_vote_account.key,
            }),
        ),
{
}

/// An account that was closed was due: its funds went to the account of the config, it may be found
/// expired and validation may accept it.
pub proof fn closed_account_was_due<P: AccountPolicy>(
    ctx: CloseTipDistributionAccount,
    effects_before: Seq<Effect>,
    effects_after: Seq<Effect>,
    policy: P,
    epoch: u64,
)
    requires
        closing::close_done(ctx, effects_before, effects_after, policy, epoch, Ok(())),
    ensures
        ctx.expired_funds_account.key == ctx.config.data.expired_funds_account,
        call_ensures(
            P::is_expired,
            (&policy, &ctx.tip_distribution_account.data, &ctx.config.data, epoch),
            true,
        ),
        ctx.tip_distribution_account.rent_exempt_minimum
            <= ctx.tip_distribution_account.lamports,
        call_ensures(
            P::validate_tip_distribution_account,
            (&policy, &ctx.tip_distribution_account.data),
            Ok(()),
        ),
        effects_after == effects_before.push(
            (Effect::Transfer {
                from: ctx.tip_distribution_account.key,
                to: ctx.expired_funds_account.key,
                lamports: (ctx.tip_distribution_account.lamports
                    - ctx.tip_distribution_account.rent_exempt_minimum) as u64,
            }),
        ).push(
            Effect::Emit(
                Event::TipDistributionAccountClosed(
                    (TipDistributionAccountClosedEvent {
                        expired_funds_account: ctx.expired_funds_account.key,
                        tip_distribution_account: ctx.tip_distribution_account.key,
                        expired_amount: (ctx.tip_distribution_account.lamports
                    - ctx.tip_distribution_account.rent_exempt_minimum) as u64,
                    }),
                ),
            ),
        ).push(
            (Effect::Close {
                account: ctx.tip_distribution_account.key,
                destination: ctx.validator_vote_account.key,
            }),
        ),
{
}

} // verus!
