//! What holds of the instructions together.

use crate::accounts::{
    Claim, CloseTipDistributionAccount, InitTipDistributionAccount, SetMerkleRootUploadAuthority,
    SetValidatorCommissionBps, Signer, UpdateConfig, UploadMerkleRoot,
};
use crate::administration;
use crate::claims;
use crate::closing;
use crate::error::{Error, ErrorCode, CONSTRAINT_RAW, ERROR_CODE_OFFSET};
use crate::events;
use crate::events::Effect;
use crate::merkle_leaf;
use crate::policy;
use crate::policy::AccountPolicy;
use crate::pubkey::Pubkey;
use crate::state::{Config, MerkleRoot, TipDistributionAccount};
use crate::uploads;
use vstd::bytes::*;
use vstd::prelude::*;

verus! {

/// What a claim has marked as claimed cannot be claimed again: whatever the second claim asks for,
/// it is refused and leaves everything as it is.
pub proof fn claim_is_made_once<P: AccountPolicy>(
    before: Claim,
    after: Claim,
    effects_before: Seq<Effect>,
    effects_after: Seq<Effect>,
    index: u64,
    amount: u64,
    proof: Vec<[u8; 32]>,
    policy: P,
    slot: u64,
    again: Claim,
    after_again: Claim,
    effects_before_again: Seq<Effect>,
    effects_after_again: Seq<Effect>,
    index_again: u64,
    amount_again: u64,
    proof_again: Vec<[u8; 32]>,
    slot_again: u64,
    result_again: Result<(), Error>,
)
    requires
        claims::claim_done(
            before,
            after,
            effects_before,
            effects_after,
            index,
            amount,
            proof,
            policy,
            slot,
            Ok(()),
        ),
        again.claim_status.data == after.claim_status.data,
        claims::claim_done(
            again,
            after_again,
            effects_before_again,
            effects_after_again,
            index_again,
            amount_again,
            proof_again,
            policy,
            slot_again,
            result_again,
        ),
    ensures
        result_again == Err::<(), Error>(Error::Program(ErrorCode::FundsAlreadyClaimed)),
        after_again == again,
        effects_after_again == effects_before_again,
{
}

/// A successful claim leaves an account from which funds have been claimed.
pub proof fn claim_claims_funds<P: AccountPolicy>(
    before: Claim,
    after: Claim,
    effects_before: Seq<Effect>,
    effects_after: Seq<Effect>,
    index: u64,
    amount: u64,
    proof: Vec<[u8; 32]>,
    policy: P,
    slot: u64,
)
    requires
        claims::claim_done(
            before,
            after,
            effects_before,
            effects_after,
            index,
            amount,
            proof,
            policy,
            slot,
            Ok(()),
        ),
    ensures
        after.tip_distribution_account.data.funds_claimed(),
        after.tip_distribution_account.data.keeps_claims_of(before.tip_distribution_account.data),
{
}

/// Where funds have been claimed from an account, no other root can be uploaded to it.
pub proof fn claimed_account_takes_no_upload<P: AccountPolicy>(
    upload: UploadMerkleRoot,
    after_upload: UploadMerkleRoot,
    effects_before: Seq<Effect>,
    effects_after: Seq<Effect>,
    root: [u8; 32],
    max_total_claim: u64,
    max_num_nodes: u64,
    policy: P,
    epoch: u64,
    result: Result<(), Error>,
)
    requires
        upload.tip_distribution_account.data.funds_claimed(),
        uploads::upload_done(
            upload,
            after_upload,
            effects_before,
            effects_after,
            root,
            max_total_claim,
            max_num_nodes,
            policy,
            epoch,
            result,
        ),
    ensures
        result == Err::<(), Error>(
            if upload.authorized() {
                Error::Program(ErrorCode::Unauthorized)
            } else {
                Error::Framework(CONSTRAINT_RAW)
            },
        ),
        after_upload == upload,
        effects_after == effects_before,
{
}

/// A claim leaves the root, its limits and that funds have been claimed as they are, whether it
/// succeeds or not, so long as the tallies have room for it.
pub proof fn claim_keeps_claims<P: AccountPolicy>(
    before: Claim,
    after: Claim,
    effects_before: Seq<Effect>,
    effects_after: Seq<Effect>,
    index: u64,
    amount: u64,
    proof: Vec<[u8; 32]>,
    policy: P,
    slot: u64,
    result: Result<(), Error>,
)
    requires
        claims::claim_done(
            before,
            after,
            effects_before,
            effects_after,
            index,
            amount,
            proof,
            policy,
            slot,
            result,
        ),
        claims::claim_countable(before, amount, true),
    ensures
        after.tip_distribution_account.data.keeps_claims_of(before.tip_distribution_account.data),
{
}

/// Setting the commission leaves the claims on the account as they are, whether it succeeds or
/// not.
pub proof fn commission_keeps_claims<P: AccountPolicy>(
    before: SetValidatorCommissionBps,
    after: SetValidatorCommissionBps,
    effects_before: Seq<Effect>,
    effects_after: Seq<Effect>,
    commission_bps: u16,
    policy: P,
    result: Result<(), Error>,
)
    requires
        administration::set_validator_commission_bps_done(
            before,
            after,
            effects_before,
            effects_after,
            commission_bps,
            policy,
            result,
        ),
    ensures
        after.tip_distribution_account.data.merkle_root
            == before.tip_distribution_account.data.merkle_root,
        after.tip_distribution_account.data.keeps_claims_of(before.tip_distribution_account.data),
{
}

/// Setting the upload authority leaves the claims on the account as they are, whether it succeeds
/// or not.
pub proof fn upload_authority_keeps_claims<P: AccountPolicy>(
    before: SetMerkleRootUploadAuthority,
    after: SetMerkleRootUploadAuthority,
    effects_before: Seq<Effect>,
    effects_after: Seq<Effect>,
    authority: Pubkey,
    policy: P,
    result: Result<(), Error>,
)
    requires
        administration::set_merkle_root_upload_authority_done(
            before,
            after,
            effects_before,
            effects_after,
            authority,
            policy,
            result,
        ),
    ensures
        after.tip_distribution_account.data.merkle_root
            == before.tip_distribution_account.data.merkle_root,
        after.tip_distribution_account.data.keeps_claims_of(before.tip_distribution_account.data),
{
}

/// A successful claim makes `after` of the account `before`.
pub open spec fn claim_makes<P: AccountPolicy>(
    policy: P,
    before: TipDistributionAccount,
    after: TipDistributionAccount,
) -> bool {
    exists|
        ctx: Claim,
        ctx_after: Claim,
        effects: Seq<Effect>,
        effects_after: Seq<Effect>,
        index: u64,
        amount: u64,
        proof: Vec<[u8; 32]>,
        slot: u64,
    |
        {
            &&& ctx.tip_distribution_account.data == before
            &&& ctx_after.tip_distribution_account.data == after
            &&& #[trigger] claims::claim_done(
                ctx,
                ctx_after,
                effects,
                effects_after,
                index,
                amount,
                proof,
                policy,
                slot,
                Ok(()),
            )
        }
}

/// A successful upload makes `after` of the account `before`.
pub open spec fn upload_makes<P: AccountPolicy>(
    policy: P,
    before: TipDistributionAccount,
    after: TipDistributionAccount,
) -> bool {
    exists|
        ctx: UploadMerkleRoot,
        ctx_after: UploadMerkleRoot,
        effects: Seq<Effect>,
        effects_after: Seq<Effect>,
        root: [u8; 32],
        max_total_claim: u64,
        max_num_nodes: u64,
        epoch: u64,
    |
        {
            &&& ctx.tip_distribution_account.data == before
            &&& ctx_after.tip_distribution_account.data == after
            &&& #[trigger] uploads::upload_done(
                ctx,
                ctx_after,
                effects,
                effects_after,
                root,
                max_total_claim,
                max_num_nodes,
                policy,
                epoch,
                Ok(()),
            )
        }
}

/// Setting the commission successfully makes `after` of the account `before`.
pub open spec fn commission_makes<P: AccountPolicy>(
    policy: P,
    before: TipDistributionAccount,
    after: TipDistributionAccount,
) -> bool {
    exists|
        ctx: SetValidatorCommissionBps,
        ctx_after: SetValidatorCommissionBps,
        effects: Seq<Effect>,
        effects_after: Seq<Effect>,
        commission_bps: u16,
    |
        {
            &&& ctx.tip_distribution_account.data == before
            &&& ctx_after.tip_distribution_account.data == after
            &&& #[trigger] administration::set_validator_commission_bps_done(
                ctx,
                ctx_after,
                effects,
                effects_after,
                commission_bps,
                policy,
                Ok(()),
            )
        }
}

/// Setting the upload authority successfully makes `after` of the account `before`.
pub open spec fn upload_authority_makes<P: AccountPolicy>(
    policy: P,
    before: TipDistributionAccount,
    after: TipDistributionAccount,
) -> bool {
    exists|
        ctx: SetMerkleRootUploadAuthority,
        ctx_after: SetMerkleRootUploadAuthority,
        effects: Seq<Effect>,
        effects_after: Seq<Effect>,
        authority: Pubkey,
    |
        {
            &&& ctx.tip_distribution_account.data == before
            &&& ctx_after.tip_distribution_account.data == after
            &&& #[trigger] administration::set_merkle_root_upload_authority_done(
                ctx,
                ctx_after,
                effects,
                effects_after,
                authority,
                policy,
                Ok(()),
            )
        }
}

/// Some successful instruction makes `after` of the account `before`.
pub open spec fn account_step<P: AccountPolicy>(
    policy: P,
    before: TipDistributionAccount,
    after: TipDistributionAccount,
) -> bool {
    ||| claim_makes(policy, before, after)
    ||| upload_makes(policy, before, after)
    ||| commission_makes(policy, before, after)
    ||| upload_authority_makes(policy, before, after)
}

/// Some successful instructions, one after the other, take the account through these states.
pub open spec fn account_history<P: AccountPolicy>(
    policy: P,
    states: Seq<TipDistributionAccount>,
) -> bool {
    &&& states.len() > 0
    &&& forall|i: int|
        0 < i < states.len() ==> #[trigger] account_step(policy, states[i - 1], states[i])
}

/// Once funds have been claimed from an account they stay claimed: whatever instructions follow,
/// its root and its limits are never replaced, and the tallies never fall.
pub proof fn claimed_funds_stay_claimed<P: AccountPolicy>(
    policy: P,
    states: Seq<TipDistributionAccount>,
)
    requires
        account_history(policy, states),
        states[0].funds_claimed(),
    ensures
        states.last().funds_claimed(),
        states.last().keeps_claims_of(states[0]),
    decreases states.len(),
{
    if states.len() > 1 {
        let earlier = states.drop_last();
        assert forall|i: int| 0 < i < earlier.len() implies #[trigger] account_step(
            policy,
            earlier[i - 1],
            earlier[i],
        ) by {
            assert(account_step(policy, states[i - 1], states[i]));
        }
        claimed_funds_stay_claimed(policy, earlier);
        let last = states.len() - 1;
        assert(account_step(policy, states[last - 1], states[last]));
    }
}

/// Whatever instructions an account goes through, the claims on it keep to the limits of its root.
pub proof fn account_stays_within_limits<P: AccountPolicy>(
    policy: P,
    states: Seq<TipDistributionAccount>,
)
    requires
        account_history(policy, states),
        states[0].within_limits(),
    ensures
        states.last().within_limits(),
    decreases states.len(),
{
    if states.len() > 1 {
        let earlier = states.drop_last();
        assert forall|i: int| 0 < i < earlier.len() implies #[trigger] account_step(
            policy,
            earlier[i - 1],
            earlier[i],
        ) by {
            assert(account_step(policy, states[i - 1], states[i]));
        }
        account_stays_within_limits(policy, earlier);
        let last = states.len() - 1;
        assert(account_step(policy, states[last - 1], states[last]));
    }
}

/// An upload succeeds only for the upload authority, on an account from which nothing was claimed,
/// that is at least one epoch old and has not expired.
pub proof fn upload_needs_authority_and_time<P: AccountPolicy>(
    before: UploadMerkleRoot,
    after: UploadMerkleRoot,
    effects_before: Seq<Effect>,
    effects_after: Seq<Effect>,
    root: [u8; 32],
    max_total_claim: u64,
    max_num_nodes: u64,
    policy: P,
    epoch: u64,
)
    requires
        uploads::upload_done(
            before,
            after,
            effects_before,
            effects_after,
            root,
            max_total_claim,
            max_num_nodes,
            policy,
            epoch,
            Ok(()),
        ),
    ensures
        before.authorized(),
        !before.tip_distribution_account.data.funds_claimed(),
        before.tip_distribution_account.data.epoch_created_at + 1 <= epoch,
        policy::expiry_verdict(
            policy,
            before.tip_distribution_account.data,
            before.config.data,
            epoch,
            false,
        ),
{
}

/// An upload may be made many times: where one was made and nothing was claimed, another in the
/// same or a later epoch is not refused unless the account has expired, and replaces the first.
pub proof fn upload_can_be_repeated<P: AccountPolicy>(
    before: UploadMerkleRoot,
    after: UploadMerkleRoot,
    effects_before: Seq<Effect>,
    effects_after: Seq<Effect>,
    root: [u8; 32],
    max_total_claim: u64,
    max_num_nodes: u64,
    policy: P,
    epoch: u64,
    again: UploadMerkleRoot,
    after_again: UploadMerkleRoot,
    effects_before_again: Seq<Effect>,
    effects_after_again: Seq<Effect>,
    root_again: [u8; 32],
    max_total_claim_again: u64,
    max_num_nodes_again: u64,
    epoch_again: u64,
    result_again: Result<(), Error>,
)
    requires
        uploads::upload_done(
            before,
            after,
            effects_before,
            effects_after,
            root,
            max_total_claim,
            max_num_nodes,
            policy,
            epoch,
            Ok(()),
        ),
        again.tip_distribution_account.data == after.tip_distribution_account.data,
        again.authorized(),
        epoch <= epoch_again,
        !policy::expiry_verdict(
            policy,
            again.tip_distribution_account.data,
            again.config.data,
            epoch_again,
            true,
        ),
        uploads::upload_done(
            again,
            after_again,
            effects_before_again,
            effects_after_again,
            root_again,
            max_total_claim_again,
            max_num_nodes_again,
            policy,
            epoch_again,
            result_again,
        ),
    ensures
        after_again.tip_distribution_account.data == uploads::uploaded(
            before.tip_distribution_account.data,
            root_again,
            max_total_claim_again,
            max_num_nodes_again,
        ),
        policy::account_verdict(
            policy,
            after_again.tip_distribution_account.data,
            result_again,
        ),
{
}

/// An upload made again in the same epoch succeeds again, and the last root wins: it leaves what it
/// would have left without the first, and nothing of the first remains. This is of policies that
/// do not look at the root.
pub proof fn last_upload_wins<P: AccountPolicy>(
    before: UploadMerkleRoot,
    after: UploadMerkleRoot,
    effects_before: Seq<Effect>,
    effects_after: Seq<Effect>,
    root: [u8; 32],
    max_total_claim: u64,
    max_num_nodes: u64,
    policy: P,
    epoch: u64,
    after_again: UploadMerkleRoot,
    after_alone: UploadMerkleRoot,
    effects_before_again: Seq<Effect>,
    effects_after_again: Seq<Effect>,
    effects_after_alone: Seq<Effect>,
    root_again: [u8; 32],
    max_total_claim_again: u64,
    max_num_nodes_again: u64,
    result_again: Result<(), Error>,
    result_alone: Result<(), Error>,
)
    requires
        policy::blind_to_roots(policy),
        uploads::upload_done(
            before,
            after,
            effects_before,
            effects_after,
            root,
            max_total_claim,
            max_num_nodes,
            policy,
            epoch,
            Ok(()),
        ),
        uploads::upload_done(
            after,
            after_again,
            effects_before_again,
            effects_after_again,
            root_again,
            max_total_claim_again,
            max_num_nodes_again,
            policy,
            epoch,
            result_again,
        ),
        uploads::upload_done(
            before,
            after_alone,
            effects_before_again,
            effects_after_alone,
            root_again,
            max_total_claim_again,
            max_num_nodes_again,
            policy,
            epoch,
            result_alone,
        ),
    ensures
        result_again is Ok,
        result_alone is Ok,
        after_again == after_alone,
        effects_after_again == effects_after_alone,
        after_again.tip_distribution_account.data == uploads::uploaded(
            before.tip_distribution_account.data,
            root_again,
            max_total_claim_again,
            max_num_nodes_again,
        ),
{
    let first = uploads::uploaded(
        before.tip_distribution_account.data,
        root,
        max_total_claim,
        max_num_nodes,
    );
    assert(policy::account_verdict(policy, first, Ok(())));
    assert(policy::expiry_verdict(
        policy,
        before.tip_distribution_account.data,
        before.config.data,
        epoch,
        false,
    ));
}

/// Every successful claim is counted: where the root is what some claims made of the one uploaded,
/// it is afterwards what these claims and this one made of it.
pub proof fn claim_is_counted<P: AccountPolicy>(
    start: MerkleRoot,
    amounts: Seq<u64>,
    before: Claim,
    after: Claim,
    effects_before: Seq<Effect>,
    effects_after: Seq<Effect>,
    index: u64,
    amount: u64,
    proof: Vec<[u8; 32]>,
    policy: P,
    slot: u64,
)
    requires
        claims::claim_done(
            before,
            after,
            effects_before,
            effects_after,
            index,
            amount,
            proof,
            policy,
            slot,
            Ok(()),
        ),
        before.tip_distribution_account.data.merkle_root matches Some(root) ==> claims_run(
            start,
            amounts,
            root,
        ),
    ensures
        after.tip_distribution_account.data.merkle_root matches Some(root) && claims_run(
            start,
            amounts.push(amount),
            root,
        ),
{
    let middle = before.tip_distribution_account.data.merkle_root->0;
    let end = after.tip_distribution_account.data.merkle_root->0;
    assert(amounts.push(amount).drop_last() =~= amounts);
    assert(claim_step(middle, amounts.push(amount).last(), end));
}

/// `after` is the root that a successful claim of `amount` makes of `before`.
pub open spec fn claim_step(before: MerkleRoot, amount: u64, after: MerkleRoot) -> bool {
    &&& claims::limit_refusal(before, amount) is None
    &&& after == claims::counted(before, amount)
}

/// `end` is the root that successful claims of these amounts, in this order, make of `start`.
pub open spec fn claims_run(start: MerkleRoot, amounts: Seq<u64>, end: MerkleRoot) -> bool
    decreases amounts.len(),
{
    if amounts.len() == 0 {
        end == start
    } else {
        exists|middle: MerkleRoot|
            {
                &&& claims_run(start, amounts.drop_last(), middle)
                &&& #[trigger] claim_step(middle, amounts.last(), end)
            }
    }
}

/// The sum of all amounts.
pub open spec fn sum(amounts: Seq<u64>) -> int
    decreases amounts.len(),
{
    if amounts.len() == 0 {
        0
    } else {
        sum(amounts.drop_last()) + amounts.last()
    }
}

/// However many claims are made on a root, its tallies are exact and the limits hold: all claims
/// together take no more than the maximum, and there are no more of them than the maximum.
pub proof fn claims_keep_to_the_limits(start: MerkleRoot, amounts: Seq<u64>, end: MerkleRoot)
    requires
        claims_run(start, amounts, end),
    ensures
        end.root == start.root,
        end.max_total_claim == start.max_total_claim,
        end.max_num_nodes == start.max_num_nodes,
        end.total_funds_claimed == start.total_funds_claimed + sum(amounts),
        end.num_nodes_claimed == start.num_nodes_claimed + amounts.len(),
        start.within_limits() ==> end.within_limits(),
    decreases amounts.len(),
{
    if amounts.len() > 0 {
        let middle = choose|middle: MerkleRoot|
            {
                &&& claims_run(start, amounts.drop_last(), middle)
                &&& #[trigger] claim_step(middle, amounts.last(), end)
            };
        claims_keep_to_the_limits(start, amounts.drop_last(), middle);
    }
}

/// A successful claim moves exactly its amount from the tip distribution account to the claimant,
/// touches no other balance, and leaves the account exempt from rent.
pub proof fn claim_pays_the_claimant<P: AccountPolicy>(
    before: Claim,
    after: Claim,
    effects_before: Seq<Effect>,
    effects_after: Seq<Effect>,
    index: u64,
    amount: u64,
    proof: Vec<[u8; 32]>,
    policy: P,
    slot: u64,
    balances: Map<Pubkey, int>,
)
    requires
        claims::claim_done(
            before,
            after,
            effects_before,
            effects_after,
            index,
            amount,
            proof,
            policy,
            slot,
            Ok(()),
        ),
        before.tip_distribution_account.key != before.claimant.key,
        events::apply_all(effects_before, balances)[before.tip_distribution_account.key]
            == before.tip_distribution_account.lamports,
    ensures
        ({
            let old_balances = events::apply_all(effects_before, balances);
            let new_balances = events::apply_all(effects_after, balances);
            let account = before.tip_distribution_account;
            &&& new_balances[before.claimant.key] == old_balances[before.claimant.key] + amount
            &&& new_balances[account.key] == old_balances[account.key] - amount
            &&& new_balances[account.key] >= account.rent_exempt_minimum
            &&& forall|other: Pubkey|
                other != account.key && other != before.claimant.key ==> #[trigger] new_balances[other]
                    == old_balances[other]
        }),
{
    let payment = claims::claim_payment(before, amount);
    let event = claims::claim_event(before, index, amount);
    let paid = effects_before.push(payment);
    assert(effects_after == paid.push(event));
    assert(paid.push(event).drop_last() =~= paid);
    assert(paid.drop_last() =~= effects_before);
    reveal_with_fuel(events::apply_all, 3);
}

/// Closing an account pays all that was not claimed into the designated account and the rest, that
/// which kept it exempt from rent, to the validator; nothing stays behind, nothing is lost, and no
/// other balance is touched.
pub proof fn closing_pays_everything_out<P: AccountPolicy>(
    ctx: CloseTipDistributionAccount,
    effects_before: Seq<Effect>,
    effects_after: Seq<Effect>,
    policy: P,
    epoch: u64,
    balances: Map<Pubkey, int>,
)
    requires
        closing::close_done(ctx, effects_before, effects_after, policy, epoch, Ok(())),
        ctx.tip_distribution_account.key != ctx.expired_funds_account.key,
        ctx.tip_distribution_account.key != ctx.validator_vote_account.key,
        events::apply_all(effects_before, balances)[ctx.tip_distribution_account.key]
            == ctx.tip_distribution_account.lamports,
    ensures
        ctx.expired_funds_account.key == ctx.config.data.expired_funds_account,
        ({
            let old_balances = events::apply_all(effects_before, balances);
            let new_balances = events::apply_all(effects_after, balances);
            let account = ctx.tip_distribution_account;
            let designated = ctx.expired_funds_account.key;
            let validator = ctx.validator_vote_account.key;
            &&& new_balances[account.key] == 0
            &&& designated != validator ==> {
                &&& new_balances[designated] == old_balances[designated] + account.lamports
                    - account.rent_exempt_minimum
                &&& new_balances[validator] == old_balances[validator]
                    + account.rent_exempt_minimum
            }
            &&& designated == validator ==> new_balances[designated] == old_balances[designated]
                + account.lamports
            &&& forall|other: Pubkey|
                other != account.key && other != designated && other != validator
                    ==> #[trigger] new_balances[other] == old_balances[other]
        }),
{
    let payment = closing::unclaimed_payment(ctx);
    let event = closing::close_event(ctx);
    let removal = closing::removal(ctx);
    let paid = effects_before.push(payment);
    assert(effects_after == paid.push(event).push(removal));
    assert(paid.push(event).push(removal).drop_last() =~= paid.push(event));
    assert(paid.push(event).drop_last() =~= paid);
    assert(paid.drop_last() =~= effects_before);
    reveal_with_fuel(events::apply_all, 4);
}

/// An account that has not expired is not closed.
pub proof fn closing_needs_expiry<P: AccountPolicy>(
    ctx: CloseTipDistributionAccount,
    effects_before: Seq<Effect>,
    effects_after: Seq<Effect>,
    policy: P,
    epoch: u64,
    result: Result<(), Error>,
)
    requires
        closing::close_done(ctx, effects_before, effects_after, policy, epoch, result),
        ctx.authorized(),
        !policy::expiry_verdict(
            policy,
            ctx.tip_distribution_account.data,
            ctx.config.data,
            epoch,
            true,
        ),
    ensures
        result == Err::<(), Error>(
            Error::Program(ErrorCode::PrematureCloseTipDistributionAccount),
        ),
        effects_after == effects_before,
{
}

/// Anyone can have an expired account closed: who signs makes no difference.
pub proof fn anyone_can_close<P: AccountPolicy>(
    ctx: CloseTipDistributionAccount,
    signer: Signer,
    effects_before: Seq<Effect>,
    effects_after: Seq<Effect>,
    policy: P,
    epoch: u64,
    result: Result<(), Error>,
)
    requires
        closing::close_done(ctx, effects_before, effects_after, policy, epoch, result),
    ensures
        closing::close_done(
            (CloseTipDistributionAccount { signer, ..ctx }),
            effects_before,
            effects_after,
            policy,
            epoch,
            result,
        ),
{
    let other = CloseTipDistributionAccount { signer, ..ctx };
    assert forall|expired: bool| #[trigger]
        closing::close_settled(
            ctx,
            effects_before,
            effects_after,
            expired,
            policy,
            result,
        ) implies closing::close_settled(
        other,
        effects_before,
        effects_after,
        expired,
        policy,
        result,
    ) by {}
}

/// Two attempts to close an account that differ in who signs have the same result and the same
/// effects, if the policy answers both alike.
pub proof fn closing_agrees_for_every_signer<P: AccountPolicy>(
    ctx: CloseTipDistributionAccount,
    signer: Signer,
    effects_before: Seq<Effect>,
    effects_after: Seq<Effect>,
    effects_after_other: Seq<Effect>,
    policy: P,
    epoch: u64,
    result: Result<(), Error>,
    result_other: Result<(), Error>,
)
    requires
        policy::answers_alike(policy),
        closing::close_done(ctx, effects_before, effects_after, policy, epoch, result),
        closing::close_done(
            (CloseTipDistributionAccount { signer, ..ctx }),
            effects_before,
            effects_after_other,
            policy,
            epoch,
            result_other,
        ),
    ensures
        result == result_other,
        effects_after == effects_after_other,
{
}

/// Closing and uploading exclude each other: in one epoch and under one config, the same account
/// cannot both be closed and take an upload, if the policy answers both alike.
pub proof fn closing_excludes_uploading<P: AccountPolicy>(
    close: CloseTipDistributionAccount,
    close_effects_before: Seq<Effect>,
    close_effects_after: Seq<Effect>,
    upload: UploadMerkleRoot,
    after_upload: UploadMerkleRoot,
    upload_effects_before: Seq<Effect>,
    upload_effects_after: Seq<Effect>,
    root: [u8; 32],
    max_total_claim: u64,
    max_num_nodes: u64,
    policy: P,
    epoch: u64,
    close_result: Result<(), Error>,
    upload_result: Result<(), Error>,
)
    requires
        policy::answers_alike(policy),
        close.tip_distribution_account.data == upload.tip_distribution_account.data,
        close.config.data == upload.config.data,
        closing::close_done(
            close,
            close_effects_before,
            close_effects_after,
            policy,
            epoch,
            close_result,
        ),
        uploads::upload_done(
            upload,
            after_upload,
            upload_effects_before,
            upload_effects_after,
            root,
            max_total_claim,
            max_num_nodes,
            policy,
            epoch,
            upload_result,
        ),
    ensures
        !(close_result is Ok && upload_result is Ok),
{
}

/// It is too early to close an account from which nothing was claimed exactly when it is not too
/// late for an upload to it, if the policy answers both alike and never answers with these two
/// errors itself.
pub proof fn too_early_to_close_is_not_too_late_to_upload<P: AccountPolicy>(
    close: CloseTipDistributionAccount,
    close_effects_before: Seq<Effect>,
    close_effects_after: Seq<Effect>,
    upload: UploadMerkleRoot,
    after_upload: UploadMerkleRoot,
    upload_effects_before: Seq<Effect>,
    upload_effects_after: Seq<Effect>,
    root: [u8; 32],
    max_total_claim: u64,
    max_num_nodes: u64,
    policy: P,
    epoch: u64,
    close_result: Result<(), Error>,
    upload_result: Result<(), Error>,
)
    requires
        policy::answers_alike(policy),
        policy::validation_avoids(policy, ErrorCode::PrematureCloseTipDistributionAccount),
        policy::validation_avoids(policy, ErrorCode::ExpiredTipDistributionAccount),
        close.tip_distribution_account.data == upload.tip_distribution_account.data,
        close.config.data == upload.config.data,
        close.authorized(),
        upload.authorized(),
        !upload.tip_distribution_account.data.funds_claimed(),
        closing::close_done(
            close,
            close_effects_before,
            close_effects_after,
            policy,
            epoch,
            close_result,
        ),
        uploads::upload_done(
            upload,
            after_upload,
            upload_effects_before,
            upload_effects_after,
            root,
            max_total_claim,
            max_num_nodes,
            policy,
            epoch,
            upload_result,
        ),
    ensures
        close_result == Err::<(), Error>(
            Error::Program(ErrorCode::PrematureCloseTipDistributionAccount),
        ) <==> upload_result != Err::<(), Error>(
            Error::Program(ErrorCode::ExpiredTipDistributionAccount),
        ),
{
}

/// A lower commission, or the same under a higher maximum, stays allowed.
pub proof fn lower_commission_stays_allowed(
    config: Config,
    commission_bps: u16,
    roomier: Config,
    lower_bps: u16,
)
    requires
        administration::commission_allowed(config, commission_bps),
        0 < lower_bps <= commission_bps,
        config.max_validator_commission_bps <= roomier.max_validator_commission_bps,
    ensures
        administration::commission_allowed(roomier, lower_bps),
{
}

/// Where a validator's commission is not refused as too high or zero, neither is a lower positive
/// one under the same or a higher maximum: what comes of it is left to validation.
pub proof fn lower_commission_is_not_refused<P: AccountPolicy>(
    before: SetValidatorCommissionBps,
    after: SetValidatorCommissionBps,
    effects_before: Seq<Effect>,
    effects_after: Seq<Effect>,
    commission_bps: u16,
    policy: P,
    result: Result<(), Error>,
    lower_before: SetValidatorCommissionBps,
    lower_after: SetValidatorCommissionBps,
    lower_effects_before: Seq<Effect>,
    lower_effects_after: Seq<Effect>,
    lower_bps: u16,
    lower_result: Result<(), Error>,
)
    requires
        administration::set_validator_commission_bps_done(
            before,
            after,
            effects_before,
            effects_after,
            commission_bps,
            policy,
            result,
        ),
        before.authorized(),
        result != Err::<(), Error>(Error::Program(ErrorCode::InvalidValidatorCommissionFeeBps)),
        0 < lower_bps <= commission_bps,
        before.config.data.max_validator_commission_bps
            <= lower_before.config.data.max_validator_commission_bps,
        administration::set_validator_commission_bps_done(
            lower_before,
            lower_after,
            lower_effects_before,
            lower_effects_after,
            lower_bps,
            policy,
            lower_result,
        ),
    ensures
        lower_before.authorized() ==> policy::account_verdict(
            policy,
            lower_after.tip_distribution_account.data,
            lower_result,
        ),
        policy::validation_avoids(policy, ErrorCode::InvalidValidatorCommissionFeeBps)
            ==> lower_result != Err::<(), Error>(
            Error::Program(ErrorCode::InvalidValidatorCommissionFeeBps),
        ),
{
    lower_commission_stays_allowed(
        before.config.data,
        commission_bps,
        lower_before.config.data,
        lower_bps,
    );
}

/// A commission is refused when an account is made exactly where it is refused when it is set,
/// if validation never answers with that error itself.
pub proof fn commission_is_refused_alike<P: AccountPolicy>(
    init_before: InitTipDistributionAccount,
    init_after: InitTipDistributionAccount,
    init_effects_before: Seq<Effect>,
    init_effects_after: Seq<Effect>,
    authority: Pubkey,
    epoch: u64,
    init_result: Result<(), Error>,
    set_before: SetValidatorCommissionBps,
    set_after: SetValidatorCommissionBps,
    set_effects_before: Seq<Effect>,
    set_effects_after: Seq<Effect>,
    set_result: Result<(), Error>,
    commission_bps: u16,
    policy: P,
)
    requires
        policy::validation_avoids(policy, ErrorCode::InvalidValidatorCommissionFeeBps),
        init_before.config.data.max_validator_commission_bps
            == set_before.config.data.max_validator_commission_bps,
        set_before.authorized(),
        administration::init_tip_distribution_account_done(
            init_before,
            init_after,
            init_effects_before,
            init_effects_after,
            authority,
            commission_bps,
            policy,
            epoch,
            init_result,
        ),
        administration::set_validator_commission_bps_done(
            set_before,
            set_after,
            set_effects_before,
            set_effects_after,
            commission_bps,
            policy,
            set_result,
        ),
    ensures
        init_result == Err::<(), Error>(Error::Program(ErrorCode::InvalidValidatorCommissionFeeBps))
            <==> set_result == Err::<(), Error>(
            Error::Program(ErrorCode::InvalidValidatorCommissionFeeBps),
        ),
{
}

/// Only the associated validator sets the commission, and only to one that the settings allow;
/// nothing else about the account changes.
pub proof fn commission_is_set_by_the_validator<P: AccountPolicy>(
    before: SetValidatorCommissionBps,
    after: SetValidatorCommissionBps,
    effects_before: Seq<Effect>,
    effects_after: Seq<Effect>,
    commission_bps: u16,
    policy: P,
)
    requires
        administration::set_validator_commission_bps_done(
            before,
            after,
            effects_before,
            effects_after,
            commission_bps,
            policy,
            Ok(()),
        ),
    ensures
        before.validator_vote_account.key
            == before.tip_distribution_account.data.validator_vote_pubkey,
        after.tip_distribution_account.data.validator_commission_bps == commission_bps,
        administration::commission_allowed(after.config.data, commission_bps),
        after.tip_distribution_account.data == (TipDistributionAccount {
            validator_commission_bps: commission_bps,
            ..before.tip_distribution_account.data
        }),
{
}

/// Only the associated validator sets the upload authority, and the old authority can upload no
/// more.
pub proof fn upload_authority_is_replaced<P: AccountPolicy>(
    before: SetMerkleRootUploadAuthority,
    after: SetMerkleRootUploadAuthority,
    effects_before: Seq<Effect>,
    effects_after: Seq<Effect>,
    authority: Pubkey,
    policy: P,
    upload: UploadMerkleRoot,
)
    requires
        administration::set_merkle_root_upload_authority_done(
            before,
            after,
            effects_before,
            effects_after,
            authority,
            policy,
            Ok(()),
        ),
        upload.tip_distribution_account.data == after.tip_distribution_account.data,
    ensures
        before.validator_vote_account.key
            == before.tip_distribution_account.data.validator_vote_pubkey,
        upload.authorized() <==> upload.merkle_root_upload_authority.key == authority,
        after.tip_distribution_account.data == (TipDistributionAccount {
            merkle_root_upload_authority: authority,
            ..before.tip_distribution_account.data
        }),
{
}

/// Only the authority over the settings changes them, and may hand its authority on: after that
/// only the new authority can change them.
pub proof fn config_is_updated_by_its_authority<P: AccountPolicy>(
    before: UpdateConfig,
    after: UpdateConfig,
    effects_before: Seq<Effect>,
    effects_after: Seq<Effect>,
    config: Config,
    policy: P,
    next: UpdateConfig,
)
    requires
        administration::update_config_done(
            before,
            after,
            effects_before,
            effects_after,
            config,
            policy,
            Ok(()),
        ),
        next.config.data == after.config.data,
    ensures
        before.authority.key == before.config.data.authority,
        after.config.data == config,
        next.authorized() <==> next.authority.key == config.authority,
{
}

/// A new account belongs to the validator that made it, has a commission that the settings allow,
/// and takes neither claims nor, in its first epoch, an upload.
pub proof fn new_account_waits_for_a_root<P: AccountPolicy>(
    before: InitTipDistributionAccount,
    after: InitTipDistributionAccount,
    effects_before: Seq<Effect>,
    effects_after: Seq<Effect>,
    authority: Pubkey,
    commission_bps: u16,
    policy: P,
    epoch: u64,
    claim: Claim,
    amount: u64,
    proof_valid: bool,
    expired: bool,
)
    requires
        administration::init_tip_distribution_account_done(
            before,
            after,
            effects_before,
            effects_after,
            authority,
            commission_bps,
            policy,
            epoch,
            Ok(()),
        ),
        claim.tip_distribution_account.data == after.tip_distribution_account.data,
        !claim.claim_status.data.is_claimed,
    ensures
        after.tip_distribution_account.data.validator_vote_pubkey
            == before.validator_vote_account.key,
        administration::commission_allowed(
            after.config.data,
            after.tip_distribution_account.data.validator_commission_bps,
        ),
        claims::claim_refusal(claim, amount, proof_valid) == Some(ErrorCode::RootNotUploaded),
        uploads::upload_refusal(after.tip_distribution_account.data, expired, epoch) == Some(
            if expired {
                ErrorCode::ExpiredTipDistributionAccount
            } else {
                ErrorCode::PrematureMerkleRootUpload
            },
        ),
        after.tip_distribution_account.data.within_limits(),
{
}

/// Two claims that differ in index, claimant or amount are hashed from different bytes.
pub proof fn claims_are_hashed_from_different_bytes(
    index: u64,
    claimant: Pubkey,
    amount: u64,
    other_index: u64,
    other_claimant: Pubkey,
    other_amount: u64,
)
    requires
        merkle_leaf::claim_bytes(index, claimant, amount) == merkle_leaf::claim_bytes(
            other_index,
            other_claimant,
            other_amount,
        ),
    ensures
        index == other_index,
        claimant == other_claimant,
        amount == other_amount,
{
    lemma_auto_spec_u64_to_from_le_bytes();
    let bytes = merkle_leaf::claim_bytes(index, claimant, amount);
    let a = spec_u64_to_le_bytes(index);
    let b = spec_u64_to_le_bytes(other_index);
    assert(bytes.subrange(0, 8) =~= a);
    assert(bytes.subrange(0, 8) =~= b);
    assert(bytes.subrange(8, 40) =~= claimant.bytes@);
    assert(bytes.subrange(8, 40) =~= other_claimant.bytes@);
    assert forall|i: int| 0 <= i < 32 implies claimant.bytes[i] == other_claimant.bytes[i] by {
        assert(claimant.bytes@[i] == other_claimant.bytes@[i]);
    }
    assert(claimant.bytes =~= other_claimant.bytes);
    assert(bytes.subrange(40, 48) =~= spec_u64_to_le_bytes(amount));
    assert(bytes.subrange(40, 48) =~= spec_u64_to_le_bytes(other_amount));
}

/// No two errors of the program are reported under one number, and none under a number that the
/// framework keeps for itself.
pub proof fn errors_have_numbers_of_their_own(a: ErrorCode, b: ErrorCode)
    ensures
        Error::Program(a).reported() == Error::Program(b).reported() ==> a == b,
        Error::Program(a).reported() >= ERROR_CODE_OFFSET,
{
}

} // verus!
