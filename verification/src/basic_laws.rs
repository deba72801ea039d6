//! What the instructions' building blocks are for.

use crate::error::{Error, ErrorCode};
use crate::events;
use crate::events::{Effect, Event};
use crate::pubkey::Pubkey;
use crate::state::{MerkleRoot, TipDistributionAccount};
use vstd::prelude::*;
use vstd::std_specs::cmp::PartialEqSpec;

verus! {

/// Addresses compare as equal exactly where they are the same, byte by byte.
pub proof fn addresses_are_equal_by_their_bytes(a: Pubkey, b: Pubkey)
    ensures
        a.eq_spec(&b) <==> a == b,
        a.eq_spec(&b) <==> forall|i: int| 0 <= i < 32 ==> #[trigger] a.bytes[i] == b.bytes[i],
{
    if forall|i: int| 0 <= i < 32 ==> #[trigger] a.bytes[i] == b.bytes[i] {
        assert(a.bytes =~= b.bytes);
    }
}

/// A transfer takes as much from one account as it gives to the other, and touches no third.
pub proof fn transfer_moves_lamports(
    balances: Map<Pubkey, int>,
    from: Pubkey,
    to: Pubkey,
    lamports: u64,
    other: Pubkey,
)
    requires
        from != to,
        other != from,
        other != to,
    ensures
        (Effect::Transfer { from, to, lamports }).apply(balances)[from] == balances[from]
            - lamports,
        (Effect::Transfer { from, to, lamports }).apply(balances)[to] == balances[to] + lamports,
        (Effect::Transfer { from, to, lamports }).apply(balances)[other] == balances[other],
{
}

/// Closing an account empties it into its destination, and touches no third.
pub proof fn close_empties_the_account(
    balances: Map<Pubkey, int>,
    account: Pubkey,
    destination: Pubkey,
    other: Pubkey,
)
    requires
        account != destination,
        other != account,
        other != destination,
    ensures
        (Effect::Close { account, destination }).apply(balances)[account] == 0,
        (Effect::Close { account, destination }).apply(balances)[destination]
            == balances[destination] + balances[account],
        (Effect::Close { account, destination }).apply(balances)[other] == balances[other],
{
}

/// An announcement moves no lamports.
pub proof fn announcement_moves_nothing(balances: Map<Pubkey, int>, event: Event)
    ensures
        Effect::Emit(event).apply(balances) == balances,
{
}

/// Effects take place one after the other.
pub proof fn effects_take_place_in_order(
    effects: Seq<Effect>,
    effect: Effect,
    balances: Map<Pubkey, int>,
)
    ensures
        events::apply_all(Seq::empty(), balances) == balances,
        events::apply_all(effects.push(effect), balances) == effect.apply(
            events::apply_all(effects, balances),
        ),
{
    assert(effects.push(effect).drop_last() =~= effects);
}

/// The errors of the program are numbered in their order from the first number that is the
/// program's; an error of the framework keeps its number.
pub proof fn errors_are_numbered_in_order(number: u32)
    ensures
        Error::Program(ErrorCode::AccountValidationFailure).reported() == 6000,
        Error::Program(ErrorCode::ExceedsMaxClaim).reported() == 6001,
        Error::Program(ErrorCode::ExceedsMaxNumNodes).reported() == 6002,
        Error::Program(ErrorCode::ExpiredTipDistributionAccount).reported() == 6003,
        Error::Program(ErrorCode::FundsAlreadyClaimed).reported() == 6004,
        Error::Program(ErrorCode::InvalidProof).reported() == 6005,
        Error::Program(ErrorCode::InvalidValidatorCommissionFeeBps).reported() == 6006,
        Error::Program(ErrorCode::PrematureCloseTipDistributionAccount).reported() == 6007,
        Error::Program(ErrorCode::PrematureMerkleRootUpload).reported() == 6008,
        Error::Program(ErrorCode::RentExemptViolation).reported() == 6009,
        Error::Program(ErrorCode::RootNotUploaded).reported() == 6010,
        Error::Program(ErrorCode::Unauthorized).reported() == 6011,
        Error::Framework(number).reported() == number,
{
}

/// What is said of an account's claims, in its fields.
pub proof fn claims_of_an_account(account: TipDistributionAccount, root: MerkleRoot)
    ensures
        account.funds_claimed() <==> account.merkle_root is Some
            && account.merkle_root->0.num_nodes_claimed > 0,
        account.within_limits() <==> {
            account.merkle_root is None || {
                &&& account.merkle_root->0.total_funds_claimed
                    <= account.merkle_root->0.max_total_claim
                &&& account.merkle_root->0.num_nodes_claimed <= account.merkle_root->0.max_num_nodes
            }
        },
        root.within_limits() <==> root.total_funds_claimed <= root.max_total_claim
            && root.num_nodes_claimed <= root.max_num_nodes,
{
}

} // verus!
