//! The rules of a tip distribution program.
//!
//! A validator's tips of an epoch lie in a tip distribution account. An authority uploads the root
//! of a merkle tree whose leaves say who may claim how much of them; claimants prove their leaf and
//! are paid; what nobody claimed in time goes to a designated account, and the tip distribution
//! account is closed.
//!
//! Each instruction is a function on plain values. It changes the accounts that it is given and
//! appends what the runtime is to do (announce an event, move lamports, close an account) to a list
//! of effects. Where an instruction fails, the runtime undoes it as a whole. What the program that
//! embeds the instructions has to decide itself is in [`policy::AccountPolicy`]; the contracts hold
//! for every such policy.

pub mod accounts;
pub mod administration;
pub mod administration_laws;
pub mod basic_laws;
pub mod claim_laws;
pub mod claims;
pub mod close_laws;
pub mod closing;
pub mod error;
pub mod events;
pub mod laws;
pub mod merkle_leaf;
pub mod policy;
pub mod pubkey;
pub mod state;
pub mod upload_laws;
pub mod uploads;

pub use administration::{
    init_tip_distribution_account, initialize, set_merkle_root_upload_authority,
    set_validator_commission_bps, update_config,
};
pub use claims::{claim, settle_claim, try_claim};
pub use closing::{close_tip_distribution_account, settle_close};
pub use uploads::{settle_upload, upload_merkle_root};
