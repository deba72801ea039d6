//! What the instructions leave to the program that embeds them.

use crate::error::{Error, ErrorCode};
use crate::state::{Config, TipDistributionAccount};
use vstd::prelude::*;

verus! {

/// The checks that an embedding program supplies. The instructions make each of them at a fixed
/// point, on the values that their contracts name, and abide by whatever comes back.
pub trait AccountPolicy: Sized {
    /// Whether the settings may be stored.
    fn validate_config(&self, config: &Config) -> Result<(), Error>;

    /// Whether the tip distribution account may be stored.
    fn validate_tip_distribution_account(&self, account: &TipDistributionAccount) -> Result<
        (),
        Error,
    >;

    /// Whether the time for claims on the account is over in the given epoch.
    fn is_expired(
        &self,
        account: &TipDistributionAccount,
        config: &Config,
        current_epoch: u64,
    ) -> bool;

    /// Whether `proof` leads from `leaf` to `root`.
    fn verify_proof(&self, proof: &Vec<[u8; 32]>, root: &[u8; 32], leaf: &[u8; 32]) -> bool;
}

/// `verdict` is an answer that the policy may give when asked to validate `config`.
pub open spec fn config_verdict<P: AccountPolicy>(
    policy: P,
    config: Config,
    verdict: Result<(), Error>,
) -> bool {
    call_ensures(P::validate_config, (&policy, &config), verdict)
}

/// `verdict` is an answer that the policy may give when asked to validate `account`.
pub open spec fn account_verdict<P: AccountPolicy>(
    policy: P,
    account: TipDistributionAccount,
    verdict: Result<(), Error>,
) -> bool {
    call_ensures(P::validate_tip_distribution_account, (&policy, &account), verdict)
}

/// `expired` is an answer that the policy may give when asked whether `account` has expired.
pub open spec fn expiry_verdict<P: AccountPolicy>(
    policy: P,
    account: TipDistributionAccount,
    config: Config,
    current_epoch: u64,
    expired: bool,
) -> bool {
    call_ensures(P::is_expired, (&policy, &account, &config, current_epoch), expired)
}

/// `valid` is an answer that the policy may give when asked whether `proof` holds.
pub open spec fn proof_verdict<P: AccountPolicy>(
    policy: P,
    proof: Vec<[u8; 32]>,
    root: [u8; 32],
    leaf: [u8; 32],
    valid: bool,
) -> bool {
    call_ensures(P::verify_proof, (&policy, &proof, &root, &leaf), valid)
}

/// Whether the policy, asked the same twice about an account, answers the same.
pub open spec fn answers_alike<P: AccountPolicy>(policy: P) -> bool {
    &&& forall|
        account: TipDistributionAccount,
        one: Result<(), Error>,
        other: Result<(), Error>,
    | #[trigger]
        account_verdict(policy, account, one) && #[trigger] account_verdict(policy, account, other)
            ==> one == other
    &&& forall|
        account: TipDistributionAccount,
        config: Config,
        current_epoch: u64,
        one: bool,
        other: bool,
    | #[trigger]
        expiry_verdict(policy, account, config, current_epoch, one) && #[trigger] expiry_verdict(
            policy,
            account,
            config,
            current_epoch,
            other,
        ) ==> one == other
}

/// Whether the policy answers the same about two accounts that differ in their roots alone.
pub open spec fn blind_to_roots<P: AccountPolicy>(policy: P) -> bool {
    &&& forall|
        account: TipDistributionAccount,
        like: TipDistributionAccount,
        one: Result<(), Error>,
        other: Result<(), Error>,
    | #[trigger]
        account_verdict(policy, account, one) && #[trigger] account_verdict(policy, like, other)
            && like.same_but_for_root(account) ==> one == other
    &&& forall|
        account: TipDistributionAccount,
        like: TipDistributionAccount,
        config: Config,
        current_epoch: u64,
        one: bool,
        other: bool,
    | #[trigger]
        expiry_verdict(policy, account, config, current_epoch, one) && #[trigger] expiry_verdict(
            policy,
            like,
            config,
            current_epoch,
            other,
        ) && like.same_but_for_root(account) ==> one == other
}

/// Whether the policy, asked to validate an account, never answers with the given error.
pub open spec fn validation_avoids<P: AccountPolicy>(policy: P, code: ErrorCode) -> bool {
    forall|account: TipDistributionAccount|
        !#[trigger] account_verdict(policy, account, Err(Error::Program(code)))
}

} // verus!
