//! Claiming tips.

use crate::accounts::{Account, Claim, Clock};
use crate::error::{Error, ErrorCode};
use crate::events::{ClaimedEvent, Effect, Event};
use crate::merkle_leaf;
use crate::policy;
use crate::policy::AccountPolicy;
use crate::state::{ClaimStatus, MerkleRoot, TipDistributionAccount};
use vstd::prelude::*;

verus! {

/// Why a claim is refused before anything is paid, if it is.
pub open spec fn claim_refusal(ctx: Claim, amount: u64, proof_valid: bool) -> Option<ErrorCode> {
    if ctx.claim_status.data.is_claimed {
        Some(ErrorCode::FundsAlreadyClaimed)
    } else if ctx.tip_distribution_account.data.merkle_root is None {
        Some(ErrorCode::RootNotUploaded)
    } else if !proof_valid {
        Some(ErrorCode::InvalidProof)
    } else if amount > ctx.tip_distribution_account.disposable() {
        Some(ErrorCode::RentExemptViolation)
    } else {
        None
    }
}

/// Why a claim of `amount` goes beyond the limits of the root, if it does.
pub open spec fn limit_refusal(root: MerkleRoot, amount: u64) -> Option<ErrorCode> {
    if root.total_funds_claimed + amount > root.max_total_claim {
        Some(ErrorCode::ExceedsMaxClaim)
    } else if root.num_nodes_claimed + 1 > root.max_num_nodes {
        Some(ErrorCode::ExceedsMaxNumNodes)
    } else {
        None
    }
}

/// Whether the tallies of the root have room for one more claim of `amount`. The second tally is
/// left alone where the first goes beyond its limit.
pub open spec fn countable(root: MerkleRoot, amount: u64) -> bool {
    &&& root.total_funds_claimed + amount <= u64::MAX
    &&& root.total_funds_claimed + amount <= root.max_total_claim ==> root.num_nodes_claimed
        < u64::MAX
}

/// The root after one more claim of `amount` was counted.
pub open spec fn counted(root: MerkleRoot, amount: u64) -> MerkleRoot {
    let total = root.total_funds_claimed + amount;
    MerkleRoot {
        total_funds_claimed: total as u64,
        num_nodes_claimed: if total > root.max_total_claim {
            root.num_nodes_claimed
        } else {
            (root.num_nodes_claimed + 1) as u64
        },
        ..root
    }
}

/// Whether the tallies have room for the claim, should it come to be counted.
pub open spec fn claim_countable(ctx: Claim, amount: u64, proof_valid: bool) -> bool {
    claim_refusal(ctx, amount, proof_valid) is None ==> countable(
        ctx.tip_distribution_account.data.merkle_root->0,
        amount,
    )
}

/// The accounts after a claim that was paid, with the claim marked and counted.
pub open spec fn claimed(ctx: Claim, amount: u64, slot: u64) -> Claim {
    Claim {
        claim_status: Account {
            data: ClaimStatus {
                is_claimed: true,
                claimant: ctx.claimant.key,
                slot_claimed_at: slot,
                amount,
            },
            ..ctx.claim_status
        },
        tip_distribution_account: Account {
            data: TipDistributionAccount {
                merkle_root: Some(
                    counted(ctx.tip_distribution_account.data.merkle_root->0, amount),
                ),
                ..ctx.tip_distribution_account.data
            },
            ..ctx.tip_distribution_account
        },
        ..ctx
    }
}

/// The payment that a claim makes.
pub open spec fn claim_payment(ctx: Claim, amount: u64) -> Effect {
    Effect::Transfer {
        from: ctx.tip_distribution_account.key,
        to: ctx.claimant.key,
        lamports: amount,
    }
}

/// The announcement of a claim.
pub open spec fn claim_event(ctx: Claim, index: u64, amount: u64) -> Effect {
    Effect::Emit(
        Event::Claimed(
            ClaimedEvent {
                tip_distribution_account: ctx.tip_distribution_account.key,
                claimant: ctx.claimant.key,
                index,
                amount,
            },
        ),
    )
}

/// What a claim does once it is known whether its proof holds: how it leaves the accounts and the
/// effects, and what it returns.
pub open spec fn claim_settled<P: AccountPolicy>(
    before: Claim,
    after: Claim,
    effects_before: Seq<Effect>,
    effects_after: Seq<Effect>,
    index: u64,
    amount: u64,
    proof_valid: bool,
    policy: P,
    slot: u64,
    result: Result<(), Error>,
) -> bool {
    match claim_refusal(before, amount, proof_valid) {
        Some(code) => {
            &&& result == Err::<(), Error>(Error::Program(code))
            &&& after == before
            &&& effects_after == effects_before
        },
        None => {
            let paid = effects_before.push(claim_payment(before, amount));
            &&& after == claimed(before, amount, slot)
            &&& match limit_refusal(before.tip_distribution_account.data.merkle_root->0, amount) {
                Some(code) => {
                    &&& result == Err::<(), Error>(Error::Program(code))
                    &&& effects_after == paid
                },
                None => {
                    &&& policy::account_verdict(policy, after.tip_distribution_account.data, result)
                    &&& effects_after == paid.push(claim_event(before, index, amount))
                },
            }
        },
    }
}

/// Makes a claim of which is known whether its proof holds.
pub fn settle_claim<P: AccountPolicy>(
    ctx: &mut Claim,
    index: u64,
    amount: u64,
    proof_valid: bool,
    policy: &P,
    clock: Clock,
    effects: &mut Vec<Effect>,
) -> (result: Result<(), Error>)
    requires
        claim_countable(*old(ctx), amount, proof_valid),
    ensures
        claim_settled(
            *old(ctx),
            *final(ctx),
            old(effects)@,
            final(effects)@,
            index,
            amount,
            proof_valid,
            *policy,
            clock.slot,
            result,
        ),
        result is Ok ==> final(ctx).tip_distribution_account.data.within_limits(),
        result is Ok ==> {
            &&& !old(ctx).claim_status.data.is_claimed
            &&& final(ctx).claim_status.data.is_claimed
            &&& final(ctx).claim_status.data.claimant == old(ctx).claimant.key
            &&& final(ctx).claim_status.data.slot_claimed_at == clock.slot
            &&& final(ctx).claim_status.data.amount == amount
            &&& old(ctx).tip_distribution_account.rent_exempt_minimum + amount <= old(ctx).tip_distribution_account.lamports
            &&& old(ctx).tip_distribution_account.data.merkle_root matches Some(root) && final(ctx).tip_distribution_account.data.merkle_root matches Some(new)
                && new.total_funds_claimed == root.total_funds_claimed + amount
                && new.num_nodes_claimed == root.num_nodes_claimed + 1
            &&& final(effects)@.len() == old(effects)@.len() + 2
            &&& final(effects)@[old(effects)@.len() as int] == (Effect::Transfer {
                from: old(ctx).tip_distribution_account.key,
                to: old(ctx).claimant.key,
                lamports: amount,
            })
        },
{
    // Redundant where the claim status account was made for this very claim.
    if ctx.claim_status.data.is_claimed {
        return Err(Error::Program(ErrorCode::FundsAlreadyClaimed));
    }
    let mut merkle_root: MerkleRoot = match ctx.tip_distribution_account.data.merkle_root {
        Some(merkle_root) => merkle_root,
        None => {
            return Err(Error::Program(ErrorCode::RootNotUploaded));
        },
    };
    if !proof_valid {
        return Err(Error::Program(ErrorCode::InvalidProof));
    }
    TipDistributionAccount::claim(
        &ctx.tip_distribution_account,
        &ctx.claimant.key,
        amount,
        effects,
    )?;

    // Mark it claimed.
    ctx.claim_status.data.amount = amount;
    ctx.claim_status.data.is_claimed = true;
    ctx.claim_status.data.slot_claimed_at = clock.slot;
    ctx.claim_status.data.claimant = ctx.claimant.key;

    merkle_root.total_funds_claimed = merkle_root.total_funds_claimed + amount;
    ctx.tip_distribution_account.data.merkle_root = Some(merkle_root);
    if merkle_root.total_funds_claimed > merkle_root.max_total_claim {
        return Err(Error::Program(ErrorCode::ExceedsMaxClaim));
    }
    merkle_root.num_nodes_claimed = merkle_root.num_nodes_claimed + 1;
    ctx.tip_distribution_account.data.merkle_root = Some(merkle_root);
    if merkle_root.num_nodes_claimed > merkle_root.max_num_nodes {
        return Err(Error::Program(ErrorCode::ExceedsMaxNumNodes));
    }
    effects.push(
        Effect::Emit(
            Event::Claimed(
                ClaimedEvent {
                    tip_distribution_account: ctx.tip_distribution_account.key,
                    index,
                    claimant: ctx.claimant.key,
                    amount,
                },
            ),
        ),
    );
    policy.validate_tip_distribution_account(&ctx.tip_distribution_account.data)?;
    Ok(())
}

/// `valid` is an answer that the policy may give when asked whether `proof` leads from the leaf of
/// the claim to the root of the account.
pub open spec fn claim_proof_verdict<P: AccountPolicy>(
    ctx: Claim,
    index: u64,
    amount: u64,
    proof: Vec<[u8; 32]>,
    policy: P,
    valid: bool,
) -> bool {
    exists|leaf: [u8; 32]|
        {
            &&& leaf@ == merkle_leaf::keccak256(merkle_leaf::claim_bytes(index, ctx.claimant.key, amount))
            &&& #[trigger] policy::proof_verdict(
                policy,
                proof,
                ctx.tip_distribution_account.data.merkle_root->0.root,
                leaf,
                valid,
            )
        }
}

/// Whether the proof of a claim is looked at.
pub open spec fn claim_asks_for_proof(ctx: Claim) -> bool {
    !ctx.claim_status.data.is_claimed && ctx.tip_distribution_account.data.merkle_root is Some
}

/// What a claim does: how it leaves the accounts and the effects, and what it returns.
pub open spec fn claim_done<P: AccountPolicy>(
    before: Claim,
    after: Claim,
    effects_before: Seq<Effect>,
    effects_after: Seq<Effect>,
    index: u64,
    amount: u64,
    proof: Vec<[u8; 32]>,
    policy: P,
    slot: u64,
    result: Result<(), Error>,
) -> bool {
    exists|valid: bool|
        {
            &&& claim_asks_for_proof(before) ==> claim_proof_verdict(
                before,
                index,
                amount,
                proof,
                policy,
                valid,
            )
            &&& #[trigger] claim_settled(
                before,
                after,
                effects_before,
                effects_after,
                index,
                amount,
                valid,
                policy,
                slot,
                result,
            )
        }
}

/// Asks the policy whether `proof` leads from the leaf of the claim to `root`, which is the root of
/// the account.
fn check_proof<P: AccountPolicy>(
    ctx: &Claim,
    root: &[u8; 32],
    index: u64,
    amount: u64,
    proof: &Vec<[u8; 32]>,
    policy: &P,
) -> (valid: bool)
    requires
        *root == ctx.tip_distribution_account.data.merkle_root->0.root,
    ensures
        claim_proof_verdict(*ctx, index, amount, *proof, *policy, valid),
{
    let leaf: [u8; 32] = merkle_leaf::claim_leaf(index, &ctx.claimant.key, amount);
    let valid: bool = policy.verify_proof(proof, root, &leaf);
    assert(policy::proof_verdict(*policy, *proof, *root, leaf, valid));
    valid
}

/// Claims tokens from the tip distribution account.
pub fn claim<P: AccountPolicy>(
    ctx: &mut Claim,
    index: u64,
    amount: u64,
    proof: Vec<[u8; 32]>,
    policy: &P,
    clock: Clock,
    effects: &mut Vec<Effect>,
) -> (result: Result<(), Error>)
    requires
        claim_proof_verdict(*old(ctx), index, amount, proof, *policy, true) ==> claim_countable(
            *old(ctx),
            amount,
            true,
        ),
    ensures
        claim_done(
            *old(ctx),
            *final(ctx),
            old(effects)@,
            final(effects)@,
            index,
            amount,
            proof,
            *policy,
            clock.slot,
            result,
        ),
        result is Ok ==> final(ctx).tip_distribution_account.data.within_limits(),
        result is Ok ==> {
            &&& !old(ctx).claim_status.data.is_claimed
            &&& final(ctx).claim_status.data.is_claimed
            &&& final(ctx).claim_status.data.claimant == old(ctx).claimant.key
            &&& final(ctx).claim_status.data.slot_claimed_at == clock.slot
            &&& final(ctx).claim_status.data.amount == amount
            &&& old(ctx).tip_distribution_account.rent_exempt_minimum + amount <= old(ctx).tip_distribution_account.lamports
            &&& old(ctx).tip_distribution_account.data.merkle_root matches Some(root) && final(ctx).tip_distribution_account.data.merkle_root matches Some(new)
                && new.total_funds_claimed == root.total_funds_claimed + amount
                && new.num_nodes_claimed == root.num_nodes_claimed + 1
            &&& final(effects)@.len() == old(effects)@.len() + 2
            &&& final(effects)@[old(effects)@.len() as int] == (Effect::Transfer {
                from: old(ctx).tip_distribution_account.key,
                to: old(ctx).claimant.key,
                lamports: amount,
            })
        },
{
    let valid: bool = match ctx.tip_distribution_account.data.merkle_root {
        Some(merkle_root) => if ctx.claim_status.data.is_claimed {
            false
        } else {
            check_proof(ctx, &merkle_root.root, index, amount, &proof, policy)
        },
        None => false,
    };
    settle_claim(ctx, index, amount, valid, policy, clock, effects)
}

/// Whether the tallies have room for a claim of `amount`, should its proof hold.
fn has_room_for(ctx: &Claim, amount: u64) -> (room: bool)
    ensures
        room == claim_countable(*ctx, amount, true),
{
    let account = &ctx.tip_distribution_account;
    if ctx.claim_status.data.is_claimed || account.lamports < account.rent_exempt_minimum || amount
        > account.lamports - account.rent_exempt_minimum {
        return true;
    }
    match account.data.merkle_root {
        Some(merkle_root) => match merkle_root.total_funds_claimed.checked_add(amount) {
            Some(total) => total > merkle_root.max_total_claim || merkle_root.num_nodes_claimed
                < u64::MAX,
            None => false,
        },
        None => true,
    }
}

/// Claims tokens from the tip distribution account, unless its tallies have no room for the claim:
/// then nothing is done, and the answer is `None`.
pub fn try_claim<P: AccountPolicy>(
    ctx: &mut Claim,
    index: u64,
    amount: u64,
    proof: Vec<[u8; 32]>,
    policy: &P,
    clock: Clock,
    effects: &mut Vec<Effect>,
) -> (result: Option<Result<(), Error>>)
    ensures
        match result {
            Some(made) => {
                &&& claim_done(
                    *old(ctx),
                    *final(ctx),
                    old(effects)@,
                    final(effects)@,
                    index,
                    amount,
                    proof,
                    *policy,
                    clock.slot,
                    made,
                )
                &&& made is Ok ==> final(ctx).tip_distribution_account.data.within_limits()
            },
            None => {
                &&& claim_proof_verdict(*old(ctx), index, amount, proof, *policy, true)
                &&& !claim_countable(*old(ctx), amount, true)
                &&& *final(ctx) == *old(ctx)
                &&& final(effects)@ == old(effects)@
            },
        },
        claim_countable(*old(ctx), amount, true) ==> result is Some,
        result == Some(Ok::<(), Error>(())) ==> {
            &&& !old(ctx).claim_status.data.is_claimed
            &&& final(ctx).claim_status.data.is_claimed
            &&& final(ctx).claim_status.data.claimant == old(ctx).claimant.key
            &&& final(ctx).claim_status.data.slot_claimed_at == clock.slot
            &&& final(ctx).claim_status.data.amount == amount
            &&& old(ctx).tip_distribution_account.rent_exempt_minimum + amount <= old(ctx).tip_distribution_account.lamports
            &&& old(ctx).tip_distribution_account.data.merkle_root matches Some(root) && final(ctx).tip_distribution_account.data.merkle_root matches Some(new)
                && new.total_funds_claimed == root.total_funds_claimed + amount
                && new.num_nodes_claimed == root.num_nodes_claimed + 1
            &&& final(effects)@.len() == old(effects)@.len() + 2
            &&& final(effects)@[old(effects)@.len() as int] == (Effect::Transfer {
                from: old(ctx).tip_distribution_account.key,
                to: old(ctx).claimant.key,
                lamports: amount,
            })
        },
        result is None ==> {
            &&& !old(ctx).claim_status.data.is_claimed
            &&& old(ctx).tip_distribution_account.rent_exempt_minimum + amount <= old(ctx).tip_distribution_account.lamports
            &&& old(ctx).tip_distribution_account.data.merkle_root matches Some(root) && (
            root.total_funds_claimed + amount > u64::MAX || root.num_nodes_claimed == u64::MAX)
        },
{
    if has_room_for(ctx, amount) {
        return Some(claim(ctx, index, amount, proof, policy, clock, effects));
    }
    match ctx.tip_distribution_account.data.merkle_root {
        Some(merkle_root) => {
            if check_proof(ctx, &merkle_root.root, index, amount, &proof, policy) {
                None
            } else {
                Some(settle_claim(ctx, index, amount, false, policy, clock, effects))
            }
        },
        None => Some(Err(Error::Program(ErrorCode::RootNotUploaded))),
    }
}

} // verus!
