//! What uploading is for, said of the accounts' fields, the policy's answers and the effects.

use crate::accounts::UploadMerkleRoot;
use crate::error::{Error, ErrorCode};
use crate::events::{Effect, Event, MerkleRootUploadedEvent};
use crate::policy::AccountPolicy;
use crate::uploads;
use vstd::prelude::*;

verus! {

/// An authorized upload to an account that is known to have expired or not comes to exactly one of
/// these ends: refused because funds have been claimed, because the account has expired or because
/// it is too young, and then nothing changes; or the root is stored as it was given and handed to
/// validation.
pub proof fn settled_upload_comes_to_one_end<P: AccountPolicy>(
    before: UploadMerkleRoot,
    after: UploadMerkleRoot,
    effects_before: Seq<Effect>,
    effects_after: Seq<Effect>,
    root: [u8; 32],
    max_total_claim: u64,
    max_num_nodes: u64,
    expired: bool,
    policy: P,
    epoch: u64,
    result: Result<(), Error>,
)
    requires
        uploads::upload_settled(
            before,
            after,
            effects_before,
            effects_after,
            root,
            max_total_claim,
            max_num_nodes,
            expired,
            policy,
            epoch,
            result,
        ),
    ensures
        !(before.tip_distribution_account.data.merkle_root matches Some(old) ==> old.num_nodes_claimed == 0) ==> {
            &&& result == Err::<(), Error>(Error::Program(ErrorCode::Unauthorized))
            &&& after == before
            &&& effects_after == effects_before
        },
        (before.tip_distribution_account.data.merkle_root matches Some(old) ==> old.num_nodes_claimed == 0) && expired ==> {
            &&& result == Err::<(), Error>(Error::Program(ErrorCode::ExpiredTipDistributionAccount))
            &&& after == before
            &&& effects_after == effects_before
        },
        (before.tip_distribution_account.data.merkle_root matches Some(old) ==> old.num_nodes_claimed == 0) && !expired
            && before.tip_distribution_account.data.epoch_created_at >= epoch ==> {
            &&& result == Err::<(), Error>(Error::Program(ErrorCode::PrematureMerkleRootUpload))
            &&& after == before
            &&& effects_after == effects_before
        },
        (before.tip_distribution_account.data.merkle_root matches Some(old) ==> old.num_nodes_claimed == 0) && !expired
            && before.tip_distribution_account.data.epoch_created_at < epoch ==> {
            &&& call_ensures(
            P::validate_tip_distribution_account,
            (&policy, &after.tip_distribution_account.data),
            result,
        )
            &&& after.tip_distribution_account.data.merkle_root matches Some(new) && new.root == root
            && new.max_total_claim == max_total_claim && new.max_num_nodes == max_num_nodes
            && new.total_funds_claimed == 0 && new.num_nodes_claimed == 0
            &&& effects_after == if result is Ok {
                effects_before.push(
            Effect::Emit(
                Event::MerkleRootUploaded(
                    (MerkleRootUploadedEvent {
                        merkle_root_upload_authority: before.merkle_root_upload_authority.key,
                        tip_distribution_account: before.tip_distribution_account.key,
                    }),
                ),
            ),
        )
            } else {
                effects_before
            }
        },
{
}

/// Whatever comes of an upload, it touches nothing but the root, and where it touches the root it
/// stores the one that was given.
pub proof fn upload_touches_only_the_root<P: AccountPolicy>(
    before: UploadMerkleRoot,
    after: UploadMerkleRoot,
    effects_before: Seq<Effect>,
    effects_after: Seq<Effect>,
    root: [u8; 32],
    max_total_claim: u64,
    max_num_nodes: u64,
    policy: P,
    epoch: u64,
    result: Result<(), Error>,
)
    requires
        uploads::upload_done(
            before,
            after,
            effects_before,
            effects_after,
            root,
            max_total_claim,
            max_num_nodes,
            policy,
            epoch,
            result,
        ),
    ensures
        after.config == before.config,
        after.merkle_root_upload_authority == before.merkle_root_upload_authority,
        after.tip_distribution_account.key == before.tip_distribution_account.key,
        after.tip_distribution_account.lamports == before.tip_distribution_account.lamports,
        after.tip_distribution_account.rent_exempt_minimum
            == before.tip_distribution_account.rent_exempt_minimum,
        after.tip_distribution_account.data.validator_vote_pubkey
            == before.tip_distribution_account.data.validator_vote_pubkey,
        after.tip_distribution_account.data.merkle_root_upload_authority
            == before.tip_distribution_account.data.merkle_root_upload_authority,
        after.tip_distribution_account.data.epoch_created_at
            == before.tip_distribution_account.data.epoch_created_at,
        after.tip_distribution_account.data.validator_commission_bps
            == before.tip_distribution_account.data.validator_commission_bps,
        after.tip_distribution_account.data.merkle_root
            != before.tip_distribution_account.data.merkle_root ==> {
            after.tip_distribution_account.data.merkle_root matches Some(new) && new.root == root
            && new.max_total_claim == max_total_claim && new.max_num_nodes == max_num_nodes
            && new.total_funds_claimed == 0 && new.num_nodes_claimed == 0
        },
{
}

/// Why an upload is refused.
pub proof fn upload_is_refused_for_cause<P: AccountPolicy>(
    before: UploadMerkleRoot,
    after: UploadMerkleRoot,
    effects_before: Seq<Effect>,
    effects_after: Seq<Effect>,
    root: [u8; 32],
    max_total_claim: u64,
    max_num_nodes: u64,
    policy: P,
    epoch: u64,
    result: Result<(), Error>,
)
    requires
        uploads::upload_done(
            before,
            after,
            effects_before,
            effects_after,
            root,
            max_total_claim,
            max_num_nodes,
            policy,
            epoch,
            result,
        ),
    ensures
        before.merkle_root_upload_authority.key
            != before.tip_distribution_account.data.merkle_root_upload_authority ==> {
            &&& result == Err::<(), Error>(Error::Framework(2003))
            &&& after == before
            &&& effects_after == effects_before
        },
        before.merkle_root_upload_authority.key
            == before.tip_distribution_account.data.merkle_root_upload_authority && !(before.tip_distribution_account.data.merkle_root matches Some(old) ==> old.num_nodes_claimed == 0) ==> {
            &&& result == Err::<(), Error>(Error::Program(ErrorCode::Unauthorized))
            &&& after == before
            &&& effects_after == effects_before
        },
        // An account that cannot be found unexpired.
        before.merkle_root_upload_authority.key
            == before.tip_distribution_account.data.merkle_root_upload_authority && (before.tip_distribution_account.data.merkle_root matches Some(old) ==> old.num_nodes_claimed == 0)
            && !call_ensures(
            P::is_expired,
            (&policy, &before.tip_distribution_account.data, &before.config.data, epoch),
            false,
        ) ==> {
            &&& result == Err::<(), Error>(Error::Program(ErrorCode::ExpiredTipDistributionAccount))
            &&& after == before
            &&& effects_after == effects_before
        },
        // An account that cannot be found expired, in the epoch in which it was made or before.
        before.merkle_root_upload_authority.key
            == before.tip_distribution_account.data.merkle_root_upload_authority && (before.tip_distribution_account.data.merkle_root matches Some(old) ==> old.num_nodes_claimed == 0)
            && !call_ensures(
            P::is_expired,
            (&policy, &before.tip_distribution_account.data, &before.config.data, epoch),
            true,
        )
            && before.tip_distribution_account.data.epoch_created_at >= epoch ==> {
            &&& result == Err::<(), Error>(Error::Program(ErrorCode::PrematureMerkleRootUpload))
            &&& after == before
            &&& effects_after == effects_before
        },
        // An error tells why, unless it is the answer of validation.
        result == Err::<(), Error>(Error::Framework(2003)) ==> before.merkle_root_upload_authority.key
            != before.tip_distribution_account.data.merkle_root_upload_authority
            || call_ensures(
            P::validate_tip_distribution_account,
            (&policy, &after.tip_distribution_account.data),
            result,
        ),
        result == Err::<(), Error>(Error::Program(ErrorCode::Unauthorized)) ==> !(before.tip_distribution_account.data.merkle_root matches Some(old) ==> old.num_nodes_claimed == 0)
            || call_ensures(
            P::validate_tip_distribution_account,
            (&policy, &after.tip_distribution_account.data),
            result,
        ),
        result == Err::<(), Error>(Error::Program(ErrorCode::ExpiredTipDistributionAccount))
            ==> call_ensures(
            P::is_expired,
            (&policy, &before.tip_distribution_account.data, &before.config.data, epoch),
            true,
        )
            || call_ensures(
            P::validate_tip_distribution_account,
            (&policy, &after.tip_distribution_account.data),
            result,
        ),
        result == Err::<(), Error>(Error::Program(ErrorCode::PrematureMerkleRootUpload))
            ==> before.tip_distribution_account.data.epoch_created_at >= epoch
            || call_ensures(
            P::validate_tip_distribution_account,
            (&policy, &after.tip_distribution_account.data),
            result,
        ),
{
}

/// An upload that is due is not refused: made by the upload authority after at least one epoch, to
/// an account that cannot be found expired and from which nothing was claimed, it stores what it
/// was given, with nothing claimed, and its result is what validation answers.
pub proof fn due_upload_stores_the_root<P: AccountPolicy>(
    before: UploadMerkleRoot,
    after: UploadMerkleRoot,
    effects_before: Seq<Effect>,
    effects_after: Seq<Effect>,
    root: [u8; 32],
    max_total_claim: u64,
    max_num_nodes: u64,
    policy: P,
    epoch: u64,
    result: Result<(), Error>,
)
    requires
        uploads::upload_done(
            before,
            after,
            effects_before,
            effects_after,
            root,
            max_total_claim,
            max_num_nodes,
            policy,
            epoch,
            result,
        ),
        before.merkle_root_upload_authority.key
            == before.tip_distribution_account.data.merkle_root_upload_authority,
        (before.tip_distribution_account.data.merkle_root matches Some(old) ==> old.num_nodes_claimed == 0),
        !call_ensures(
            P::is_expired,
            (&policy, &before.tip_distribution_account.data, &before.config.data, epoch),
            true,
        ),
        before.tip_distribution_account.data.epoch_created_at < epoch,
    ensures
        call_ensures(
            P::validate_tip_distribution_account,
            (&policy, &after.tip_distribution_account.data),
            result,
        ),
        after.tip_distribution_account.data.merkle_root matches Some(new) && new.root == root
            && new.max_total_claim == max_total_claim && new.max_num_nodes == max_num_nodes
            && new.total_funds_claimed == 0 && new.num_nodes_claimed == 0,
        result is Ok ==> effects_after == effects_before.push(
            Effect::Emit(
                Event::MerkleRootUploaded(
                    (MerkleRootUploadedEvent {
                        merkle_root_upload_authority: before.merkle_root_upload_authority.key,
                        tip_distribution_account: before.tip_distribution_account.key,
                    }),
                ),
            ),
        ),
        result is Err ==> effects_after == effects_before,
{
}

/// A successful upload was due, stores exactly the root and the limits that it was given, with
/// nothing claimed, and is announced.
pub proof fn successful_upload_stores_the_root<P: AccountPolicy>(
    before: UploadMerkleRoot,
    after: UploadMerkleRoot,
    effects_before: Seq<Effect>,
    effects_after: Seq<Effect>,
    root: [u8; 32],
    max_total_claim: u64,
    max_num_nodes: u64,
    policy: P,
    epoch: u64,
)
    requires
        uploads::upload_done(
            before,
            after,
            effects_before,
            effects_after,
            root,
            max_total_claim,
            max_num_nodes,
            policy,
            epoch,
            Ok(()),
        ),
    ensures
        before.merkle_root_upload_authority.key
            == before.tip_distribution_account.data.merkle_root_upload_authority,
        (before.tip_distribution_account.data.merkle_root matches Some(old) ==> old.num_nodes_claimed == 0),
        call_ensures(
            P::is_expired,
            (&policy, &before.tip_distribution_account.data, &before.config.data, epoch),
            false,
        ),
        before.tip_distribution_account.data.epoch_created_at < epoch,
        after.tip_distribution_account.data.merkle_root matches Some(new) && new.root == root
            && new.max_total_claim == max_total_claim && new.max_num_nodes == max_num_nodes
            && new.total_funds_claimed == 0 && new.num_nodes_claimed == 0,
        call_ensures(
            P::validate_tip_distribution_account,
            (&policy, &after.tip_distribution_account.data),
            Ok(()),
        ),
        effects_after == effects_before.push(
            Effect::Emit(
                Event::MerkleRootUploaded(
                    (MerkleRootUploadedEvent {
                        merkle_root_upload_authority: before.merkle_root_upload_authority.key,
                        tip_distribution_account: before.tip_distribution_account.key,
                    }),
                ),
            ),
        ),
{
}

} // verus!
