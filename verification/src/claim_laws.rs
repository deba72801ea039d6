//! What claiming is for, said of the accounts' fields, the policy's answers and the effects.

use crate::accounts::Claim;
use crate::claims;
use crate::error::{Error, ErrorCode};
use crate::events::{ClaimedEvent, Effect, Event};
use crate::merkle_leaf;
use crate::policy::AccountPolicy;
use crate::state::{ClaimStatus, MerkleRoot};
use vstd::bytes::*;
use vstd::prelude::*;

verus! {

/// Arrays that hold the same bytes are the same.
proof fn arrays_of_equal_bytes(a: [u8; 32], b: [u8; 32])
    requires
        a@ == b@,
    ensures
        a == b,
{
    assert forall|i: int| 0 <= i < 32 implies a[i] == b[i] by {
        assert(a@[i] == b@[i]);
    }
    assert(a =~= b);
}

/// No other array holds the bytes of `leaf`.
proof fn digest_is_one_array(leaf: [u8; 32])
    ensures
        forall|other: [u8; 32]| #[trigger] other@ == leaf@ ==> other == leaf,
{
    assert forall|other: [u8; 32]| #[trigger] other@ == leaf@ implies other == leaf by {
        arrays_of_equal_bytes(other, leaf);
    }
}

/// A claim that is known to have a valid proof or not comes to exactly one of these ends:
/// refused because it was claimed already, because there is no root, because of its proof, or
/// because the account must stay exempt from rent, and then nothing changes; or paid, and then held
/// to the limits of the root, announced and handed to validation.
pub proof fn settled_claim_comes_to_one_end<P: AccountPolicy>(
    before: Claim,
    after: Claim,
    effects_before: Seq<Effect>,
    effects_after: Seq<Effect>,
    index: u64,
    amount: u64,
    proof_valid: bool,
    policy: P,
    slot: u64,
    result: Result<(), Error>,
)
    requires
        claims::claim_settled(
            before,
            after,
            effects_before,
            effects_after,
            index,
            amount,
            proof_valid,
            policy,
            slot,
            result,
        ),
    ensures
        before.claim_status.data.is_claimed ==> {
            &&& result == Err::<(), Error>(Error::Program(ErrorCode::FundsAlreadyClaimed))
            &&& after == before
            &&& effects_after == effects_before
        },
        !before.claim_status.data.is_claimed
            && before.tip_distribution_account.data.merkle_root is None ==> {
            &&& result == Err::<(), Error>(Error::Program(ErrorCode::RootNotUploaded))
            &&& after == before
            &&& effects_after == effects_before
        },
        !before.claim_status.data.is_claimed
            && before.tip_distribution_account.data.merkle_root is Some && !proof_valid ==> {
            &&& result == Err::<(), Error>(Error::Program(ErrorCode::InvalidProof))
            &&& after == before
            &&& effects_after == effects_before
        },
        !before.claim_status.data.is_claimed
            && before.tip_distribution_account.data.merkle_root is Some && proof_valid
            && before.tip_distribution_account.lamports
            < before.tip_distribution_account.rent_exempt_minimum + amount ==> {
            &&& result == Err::<(), Error>(Error::Program(ErrorCode::RentExemptViolation))
            &&& after == before
            &&& effects_after == effects_before
        },
        !before.claim_status.data.is_claimed && proof_valid
            && before.tip_distribution_account.lamports
            >= before.tip_distribution_account.rent_exempt_minimum + amount ==> {
            before.tip_distribution_account.data.merkle_root matches Some(root) ==> {
                let paid = effects_before.push(
                    Effect::Transfer {
                        from: before.tip_distribution_account.key,
                        to: before.claimant.key,
                        lamports: amount,
                    },
                );
                let announced = paid.push(
                    Effect::Emit(
                        Event::Claimed(
                            ClaimedEvent {
                                tip_distribution_account: before.tip_distribution_account.key,
                                claimant: before.claimant.key,
                                index,
                                amount,
                            },
                        ),
                    ),
                );
                &&& after.claim_status.data == ClaimStatus {
                    is_claimed: true,
                    claimant: before.claimant.key,
                    slot_claimed_at: slot,
                    amount,
                }
                &&& root.total_funds_claimed + amount <= u64::MAX ==> {
                    after.tip_distribution_account.data.merkle_root matches Some(new)
                        && new.total_funds_claimed == root.total_funds_claimed + amount
                }
                &&& root.num_nodes_claimed < u64::MAX ==> {
                    after.tip_distribution_account.data.merkle_root matches Some(new)
                        && new.num_nodes_claimed == root.num_nodes_claimed + (if
                    root.total_funds_claimed + amount > root.max_total_claim {
                        0int
                    } else {
                        1
                    })
                }
                &&& root.total_funds_claimed + amount > root.max_total_claim ==> {
                    &&& result == Err::<(), Error>(Error::Program(ErrorCode::ExceedsMaxClaim))
                    &&& effects_after == paid
                }
                &&& root.total_funds_claimed + amount <= root.max_total_claim
                    && root.num_nodes_claimed >= root.max_num_nodes ==> {
                    &&& result == Err::<(), Error>(Error::Program(ErrorCode::ExceedsMaxNumNodes))
                    &&& effects_after == paid
                }
                &&& root.total_funds_claimed + amount <= root.max_total_claim
                    && root.num_nodes_claimed < root.max_num_nodes ==> {
                    &&& call_ensures(
                        P::validate_tip_distribution_account,
                        (&policy, &after.tip_distribution_account.data),
                        result,
                    )
                    &&& effects_after == announced
                    &&& after.tip_distribution_account.data.merkle_root matches Some(new)
                        && new.total_funds_claimed == root.total_funds_claimed + amount
                        && new.num_nodes_claimed == root.num_nodes_claimed + 1
                }
            }
        },
{
}

/// Whatever comes of a claim, it touches nothing but the status of the claim and the two tallies
/// of the root.
pub proof fn claim_touches_only_status_and_tallies<P: AccountPolicy>(
    before: Claim,
    after: Claim,
    effects_before: Seq<Effect>,
    effects_after: Seq<Effect>,
    index: u64,
    amount: u64,
    proof: Vec<[u8; 32]>,
    policy: P,
    slot: u64,
    result: Result<(), Error>,
)
    requires
        claims::claim_done(
            before,
            after,
            effects_before,
            effects_after,
            index,
            amount,
            proof,
            policy,
            slot,
            result,
        ),
    ensures
        after.config == before.config,
        after.claimant == before.claimant,
        after.payer == before.payer,
        after.claim_status.key == before.claim_status.key,
        after.claim_status.lamports == before.claim_status.lamports,
        after.claim_status.rent_exempt_minimum == before.claim_status.rent_exempt_minimum,
        after.tip_distribution_account.key == before.tip_distribution_account.key,
        after.tip_distribution_account.lamports == before.tip_distribution_account.lamports,
        after.tip_distribution_account.rent_exempt_minimum
            == before.tip_distribution_account.rent_exempt_minimum,
        after.tip_distribution_account.data.validator_vote_pubkey
            == before.tip_distribution_account.data.validator_vote_pubkey,
        after.tip_distribution_account.data.merkle_root_upload_authority
            == before.tip_distribution_account.data.merkle_root_upload_authority,
        after.tip_distribution_account.data.epoch_created_at
            == before.tip_distribution_account.data.epoch_created_at,
        after.tip_distribution_account.data.validator_commission_bps
            == before.tip_distribution_account.data.validator_commission_bps,
        before.tip_distribution_account.data.merkle_root is None
            ==> after.tip_distribution_account.data.merkle_root is None,
        before.tip_distribution_account.data.merkle_root matches Some(root) ==> {
            after.tip_distribution_account.data.merkle_root matches Some(new) && new.root
                == root.root && new.max_total_claim == root.max_total_claim && new.max_num_nodes
                == root.max_num_nodes
        },
{
}

/// Why a claim is refused before it is paid: `leaf` is the Keccak-256 digest of the index, the
/// claimant's address and the amount.
pub proof fn claim_is_refused_for_cause<P: AccountPolicy>(
    before: Claim,
    after: Claim,
    effects_before: Seq<Effect>,
    effects_after: Seq<Effect>,
    index: u64,
    amount: u64,
    proof: Vec<[u8; 32]>,
    policy: P,
    slot: u64,
    result: Result<(), Error>,
    leaf: [u8; 32],
)
    requires
        claims::claim_done(
            before,
            after,
            effects_before,
            effects_after,
            index,
            amount,
            proof,
            policy,
            slot,
            result,
        ),
        leaf@ == merkle_leaf::keccak256(
            spec_u64_to_le_bytes(index) + before.claimant.key.bytes@ + spec_u64_to_le_bytes(amount),
        ),
    ensures
        before.claim_status.data.is_claimed ==> {
            &&& result == Err::<(), Error>(Error::Program(ErrorCode::FundsAlreadyClaimed))
            &&& after == before
            &&& effects_after == effects_before
        },
        !before.claim_status.data.is_claimed
            && before.tip_distribution_account.data.merkle_root is None ==> {
            &&& result == Err::<(), Error>(Error::Program(ErrorCode::RootNotUploaded))
            &&& after == before
            &&& effects_after == effects_before
        },
        // A proof that cannot be found valid.
        !before.claim_status.data.is_claimed ==> {
            before.tip_distribution_account.data.merkle_root matches Some(root) ==> !call_ensures(
                P::verify_proof,
                (&policy, &proof, &root.root, &leaf),
                true,
            ) ==> {
                &&& result == Err::<(), Error>(Error::Program(ErrorCode::InvalidProof))
                &&& after == before
                &&& effects_after == effects_before
            }
        },
        // A proof that cannot be found invalid, for more than the account can pay.
        !before.claim_status.data.is_claimed && before.tip_distribution_account.lamports
            < before.tip_distribution_account.rent_exempt_minimum + amount ==> {
            before.tip_distribution_account.data.merkle_root matches Some(root) ==> !call_ensures(
                P::verify_proof,
                (&policy, &proof, &root.root, &leaf),
                false,
            ) ==> {
                &&& result == Err::<(), Error>(Error::Program(ErrorCode::RentExemptViolation))
                &&& after == before
                &&& effects_after == effects_before
            }
        },
        // Where nothing was paid, the error tells why.
        effects_after == effects_before ==> {
            ||| {
                &&& before.claim_status.data.is_claimed
                &&& result == Err::<(), Error>(Error::Program(ErrorCode::FundsAlreadyClaimed))
            }
            ||| {
                &&& before.tip_distribution_account.data.merkle_root is None
                &&& result == Err::<(), Error>(Error::Program(ErrorCode::RootNotUploaded))
            }
            ||| {
                &&& before.tip_distribution_account.data.merkle_root matches Some(root)
                    && call_ensures(
                    P::verify_proof,
                    (&policy, &proof, &root.root, &leaf),
                    false,
                )
                &&& result == Err::<(), Error>(Error::Program(ErrorCode::InvalidProof))
            }
            ||| {
                &&& before.tip_distribution_account.data.merkle_root matches Some(root)
                    && call_ensures(P::verify_proof, (&policy, &proof, &root.root, &leaf), true)
                &&& before.tip_distribution_account.lamports
                    < before.tip_distribution_account.rent_exempt_minimum + amount
                &&& result == Err::<(), Error>(Error::Program(ErrorCode::RentExemptViolation))
            }
        },
{
    digest_is_one_array(leaf);
    let paid = effects_before.push(claims::claim_payment(before, amount));
    assert(paid.len() == effects_before.len() + 1);
    assert(paid.push(claims::claim_event(before, index, amount)).len() == effects_before.len() + 2);
}

/// A claim whose proof, of any length, cannot be found invalid, that the account can pay and that
/// keeps to both limits, is paid to the claimant, marked, counted and announced, and its result is
/// what validation answers.
pub proof fn proved_claim_is_paid<P: AccountPolicy>(
    before: Claim,
    after: Claim,
    effects_before: Seq<Effect>,
    effects_after: Seq<Effect>,
    index: u64,
    amount: u64,
    proof: Vec<[u8; 32]>,
    policy: P,
    slot: u64,
    result: Result<(), Error>,
    root: MerkleRoot,
    leaf: [u8; 32],
)
    requires
        claims::claim_done(
            before,
            after,
            effects_before,
            effects_after,
            index,
            amount,
            proof,
            policy,
            slot,
            result,
        ),
        leaf@ == merkle_leaf::keccak256(
            spec_u64_to_le_bytes(index) + before.claimant.key.bytes@ + spec_u64_to_le_bytes(amount),
        ),
        !before.claim_status.data.is_claimed,
        before.tip_distribution_account.data.merkle_root == Some(root),
        !call_ensures(P::verify_proof, (&policy, &proof, &root.root, &leaf), false),
        before.tip_distribution_account.rent_exempt_minimum + amount
            <= before.tip_distribution_account.lamports,
        root.total_funds_claimed + amount <= root.max_total_claim,
        root.num_nodes_claimed + 1 <= root.max_num_nodes,
    ensures
        call_ensures(
            P::validate_tip_distribution_account,
            (&policy, &after.tip_distribution_account.data),
            result,
        ),
        after.claim_status.data.is_claimed,
        after.claim_status.data.claimant == before.claimant.key,
        after.claim_status.data.slot_claimed_at == slot,
        after.claim_status.data.amount == amount,
        after.tip_distribution_account.data.merkle_root matches Some(new) && new.root == root.root
            && new.max_total_claim == root.max_total_claim && new.max_num_nodes
            == root.max_num_nodes && new.total_funds_claimed == root.total_funds_claimed + amount
            && new.num_nodes_claimed == root.num_nodes_claimed + 1,
        effects_after == effects_before.push(
            (Effect::Transfer {
                from: before.tip_distribution_account.key,
                to: before.claimant.key,
                lamports: amount,
            }),
        ).push(
            Effect::Emit(
                Event::Claimed(
                    (ClaimedEvent {
                        tip_distribution_account: before.tip_distribution_account.key,
                        claimant: before.claimant.key,
                        index,
                        amount,
                    }),
                ),
            ),
        ),
{
    digest_is_one_array(leaf);
}

/// A claim whose proof cannot be found invalid and that the account can pay, but that goes beyond a
/// limit of the root, fails for that limit.
pub proof fn proved_claim_beyond_a_limit_fails<P: AccountPolicy>(
    before: Claim,
    after: Claim,
    effects_before: Seq<Effect>,
    effects_after: Seq<Effect>,
    index: u64,
    amount: u64,
    proof: Vec<[u8; 32]>,
    policy: P,
    slot: u64,
    result: Result<(), Error>,
    root: MerkleRoot,
    leaf: [u8; 32],
)
    requires
        claims::claim_done(
            before,
            after,
            effects_before,
            effects_after,
            index,
            amount,
            proof,
            policy,
            slot,
            result,
        ),
        leaf@ == merkle_leaf::keccak256(
            spec_u64_to_le_bytes(index) + before.claimant.key.bytes@ + spec_u64_to_le_bytes(amount),
        ),
        !before.claim_status.data.is_claimed,
        before.tip_distribution_account.data.merkle_root == Some(root),
        !call_ensures(P::verify_proof, (&policy, &proof, &root.root, &leaf), false),
        before.tip_distribution_account.rent_exempt_minimum + amount
            <= before.tip_distribution_account.lamports,
    ensures
        root.total_funds_claimed + amount > root.max_total_claim ==> result == Err::<(), Error>(
            Error::Program(ErrorCode::ExceedsMaxClaim),
        ),
        root.total_funds_claimed + amount <= root.max_total_claim && root.num_nodes_claimed + 1
            > root.max_num_nodes ==> result == Err::<(), Error>(
            Error::Program(ErrorCode::ExceedsMaxNumNodes),
        ),
{
    digest_is_one_array(leaf);
}

/// Funds leave the account only for a claim that was not made before, whose proof the policy may
/// find valid and that leaves the account exempt from rent; they go to the claimant, in the amount
/// that was proved, and the claim is marked.
pub proof fn paid_claim_was_proved<P: AccountPolicy>(
    before: Claim,
    after: Claim,
    effects_before: Seq<Effect>,
    effects_after: Seq<Effect>,
    index: u64,
    amount: u64,
    proof: Vec<[u8; 32]>,
    policy: P,
    slot: u64,
    result: Result<(), Error>,
    leaf: [u8; 32],
)
    requires
        claims::claim_done(
            before,
            after,
            effects_before,
            effects_after,
            index,
            amount,
            proof,
            policy,
            slot,
            result,
        ),
        leaf@ == merkle_leaf::keccak256(
            spec_u64_to_le_bytes(index) + before.claimant.key.bytes@ + spec_u64_to_le_bytes(amount),
        ),
    ensures
        effects_after != effects_before ==> {
            &&& !before.claim_status.data.is_claimed
            &&& before.tip_distribution_account.data.merkle_root matches Some(root) && call_ensures(
                P::verify_proof,
                (&policy, &proof, &root.root, &leaf),
                true,
            )
            &&& before.tip_distribution_account.rent_exempt_minimum + amount
                <= before.tip_distribution_account.lamports
            &&& effects_before.len() < effects_after.len() <= effects_before.len() + 2
            &&& forall|i: int|
                0 <= i < effects_before.len() ==> #[trigger] effects_after[i] == effects_before[i]
            &&& effects_after[effects_before.len() as int] == Effect::Transfer {
                from: before.tip_distribution_account.key,
                to: before.claimant.key,
                lamports: amount,
            }
            &&& after.claim_status.data.is_claimed
            &&& after.claim_status.data.amount == amount
            &&& after.claim_status.data.claimant == before.claimant.key
            &&& after.claim_status.data.slot_claimed_at == slot
        },
{
    digest_is_one_array(leaf);
}

/// A claim succeeds only if it was due: not made before, its proof may be found valid, it can be
/// paid, it keeps to both limits and validation may accept the account. Then it is paid, marked,
/// counted and announced.
pub proof fn successful_claim_was_due<P: AccountPolicy>(
    before: Claim,
    after: Claim,
    effects_before: Seq<Effect>,
    effects_after: Seq<Effect>,
    index: u64,
    amount: u64,
    proof: Vec<[u8; 32]>,
    policy: P,
    slot: u64,
    leaf: [u8; 32],
)
    requires
        claims::claim_done(
            before,
            after,
            effects_before,
            effects_after,
            index,
            amount,
            proof,
            policy,
            slot,
            Ok(()),
        ),
        leaf@ == merkle_leaf::keccak256(
            spec_u64_to_le_bytes(index) + before.claimant.key.bytes@ + spec_u64_to_le_bytes(amount),
        ),
    ensures
        !before.claim_status.data.is_claimed,
        before.tip_distribution_account.data.merkle_root matches Some(root) && call_ensures(
            P::verify_proof,
            (&policy, &proof, &root.root, &leaf),
            true,
        ) && root.total_funds_claimed + amount <= root.max_total_claim && root.num_nodes_claimed
            + 1 <= root.max_num_nodes && (
        after.tip_distribution_account.data.merkle_root matches Some(new) && new.root == root.root
            && new.max_total_claim == root.max_total_claim && new.max_num_nodes
            == root.max_num_nodes && new.total_funds_claimed == root.total_funds_claimed + amount
            && new.num_nodes_claimed == root.num_nodes_claimed + 1),
        before.tip_distribution_account.rent_exempt_minimum + amount
            <= before.tip_distribution_account.lamports,
        call_ensures(
            P::validate_tip_distribution_account,
            (&policy, &after.tip_distribution_account.data),
            Ok(()),
        ),
        after.claim_status.data.is_claimed,
        after.claim_status.data.claimant == before.claimant.key,
        after.claim_status.data.slot_claimed_at == slot,
        after.claim_status.data.amount == amount,
        effects_after == effects_before.push(
            (Effect::Transfer {
                from: before.tip_distribution_account.key,
                to: before.claimant.key,
                lamports: amount,
            }),
        ).push(
            Effect::Emit(
                Event::Claimed(
                    (ClaimedEvent {
                        tip_distribution_account: before.tip_distribution_account.key,
                        claimant: before.claimant.key,
                        index,
                        amount,
                    }),
                ),
            ),
        ),
{
    digest_is_one_array(leaf);
}

/// There is no room for a claim exactly where it would be paid, and the total would outgrow its
/// number or, with the total within its limit, the count of claims would.
pub proof fn room_runs_out_only_at_the_top(ctx: Claim, amount: u64, proof_valid: bool)
    ensures
        claims::claim_countable(ctx, amount, proof_valid) <==> {
            ||| ctx.claim_status.data.is_claimed
            ||| ctx.tip_distribution_account.data.merkle_root is None
            ||| !proof_valid
            ||| ctx.tip_distribution_account.lamports
                < ctx.tip_distribution_account.rent_exempt_minimum + amount
            ||| ({
                let root = ctx.tip_distribution_account.data.merkle_root->0;
                &&& root.total_funds_claimed + amount <= u64::MAX
                &&& root.total_funds_claimed + amount > root.max_total_claim
                    || root.num_nodes_claimed < u64::MAX
            })
        },
{
}

/// The parts that are hashed together are hashed in their order, each as a whole.
pub proof fn parts_are_joined_in_order(parts: Seq<&[u8]>, part: &[u8])
    ensures
        merkle_leaf::joined(Seq::empty()) == Seq::<u8>::empty(),
        merkle_leaf::joined(parts.push(part)) == merkle_leaf::joined(parts) + part@,
{
    assert(parts.push(part).drop_last() =~= parts);
}

} // verus!
