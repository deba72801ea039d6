use std::cell::RefCell;

use anchor_lang::solana_program::keccak;
use tip_distribution::accounts::{
    Account, AccountInfo, Claim, Clock, CloseTipDistributionAccount, InitTipDistributionAccount,
    Initialize, SetMerkleRootUploadAuthority, SetValidatorCommissionBps, Signer, UpdateConfig,
    UploadMerkleRoot,
};
use tip_distribution::error::{Error, ErrorCode, CONSTRAINT_RAW, ERROR_CODE_OFFSET};
use tip_distribution::events::{
    ClaimedEvent, ConfigUpdatedEvent, Effect, Event, MerkleRootUploadAuthorityUpdatedEvent,
    MerkleRootUploadedEvent, TipDistributionAccountClosedEvent,
    TipDistributionAccountInitializedEvent, ValidatorCommissionBpsUpdatedEvent,
};
use tip_distribution::merkle_leaf::claim_leaf;
use tip_distribution::policy::AccountPolicy;
use tip_distribution::pubkey::{same_bytes, Pubkey};
use tip_distribution::state::{ClaimStatus, Config, MerkleRoot, TipDistributionAccount};
use tip_distribution::{
    claim, close_tip_distribution_account, init_tip_distribution_account, initialize,
    set_merkle_root_upload_authority, set_validator_commission_bps, settle_claim, settle_close,
    settle_upload, try_claim, update_config, upload_merkle_root,
};

/// Answers as it is told, and accepts exactly the proofs whose elements, hashed onto the leaf one
/// after the other, give the root.
struct Rules {
    config: Result<(), Error>,
    account: Result<(), Error>,
    expired: bool,
    leaves: RefCell<Vec<[u8; 32]>>,
    accounts: RefCell<Vec<TipDistributionAccount>>,
    configs: RefCell<Vec<Config>>,
    epochs: RefCell<Vec<u64>>,
}

fn rules() -> Rules {
    Rules {
        config: Ok(()),
        account: Ok(()),
        expired: false,
        leaves: RefCell::new(Vec::new()),
        accounts: RefCell::new(Vec::new()),
        configs: RefCell::new(Vec::new()),
        epochs: RefCell::new(Vec::new()),
    }
}

impl AccountPolicy for Rules {
    fn validate_config(&self, config: &Config) -> Result<(), Error> {
        self.configs.borrow_mut().push(*config);
        self.config
    }

    fn validate_tip_distribution_account(
        &self,
        account: &TipDistributionAccount,
    ) -> Result<(), Error> {
        self.accounts.borrow_mut().push(*account);
        self.account
    }

    fn is_expired(
        &self,
        _account: &TipDistributionAccount,
        _config: &Config,
        current_epoch: u64,
    ) -> bool {
        self.epochs.borrow_mut().push(current_epoch);
        self.expired
    }

    fn verify_proof(&self, proof: &Vec<[u8; 32]>, root: &[u8; 32], leaf: &[u8; 32]) -> bool {
        self.leaves.borrow_mut().push(*leaf);
        let mut node = *leaf;
        for element in proof.iter() {
            node = keccak::hashv(&[&node, element]).0;
        }
        node == *root
    }
}

const REFUSED: Error = Error::Program(ErrorCode::AccountValidationFailure);
const CLOCK: Clock = Clock { slot: 77, epoch: 10 };

fn key(byte: u8) -> Pubkey {
    Pubkey { bytes: [byte; 32] }
}

fn config() -> Account<Config> {
    Account {
        key: key(1),
        lamports: 500,
        rent_exempt_minimum: 500,
        data: Config {
            authority: key(2),
            expired_funds_account: key(3),
            num_epochs_valid: 3,
            max_validator_commission_bps: 1000,
        },
    }
}

fn root_of(root: [u8; 32]) -> MerkleRoot {
    MerkleRoot {
        root,
        max_total_claim: 1000,
        max_num_nodes: 2,
        total_funds_claimed: 0,
        num_nodes_claimed: 0,
    }
}

fn distribution(merkle_root: Option<MerkleRoot>) -> Account<TipDistributionAccount> {
    Account {
        key: key(4),
        lamports: 1500,
        rent_exempt_minimum: 200,
        data: TipDistributionAccount {
            validator_vote_pubkey: key(5),
            merkle_root_upload_authority: key(6),
            merkle_root,
            epoch_created_at: 9,
            validator_commission_bps: 100,
        },
    }
}

fn leaf_bytes(index: u64, claimant: Pubkey, amount: u64) -> Vec<u8> {
    let mut bytes: Vec<u8> = index.to_le_bytes().to_vec();
    bytes.extend_from_slice(&claimant.bytes);
    bytes.extend_from_slice(&amount.to_le_bytes());
    bytes
}

fn leaf_of(index: u64, claimant: Pubkey, amount: u64) -> [u8; 32] {
    keccak::hash(&leaf_bytes(index, claimant, amount)).0
}

fn claim_on(merkle_root: Option<MerkleRoot>) -> Claim {
    Claim {
        config: config(),
        tip_distribution_account: distribution(merkle_root),
        claim_status: Account {
            key: key(7),
            lamports: 50,
            rent_exempt_minimum: 50,
            data: ClaimStatus {
                is_claimed: false,
                claimant: key(0),
                slot_claimed_at: 0,
                amount: 0,
            },
        },
        claimant: Signer { key: key(8) },
        payer: Signer { key: key(9) },
    }
}

fn upload_to(merkle_root: Option<MerkleRoot>) -> UploadMerkleRoot {
    UploadMerkleRoot {
        config: config(),
        tip_distribution_account: distribution(merkle_root),
        merkle_root_upload_authority: Signer { key: key(6) },
    }
}

fn close_of() -> CloseTipDistributionAccount {
    CloseTipDistributionAccount {
        config: config(),
        expired_funds_account: AccountInfo { key: key(3) },
        tip_distribution_account: distribution(None),
        validator_vote_account: AccountInfo { key: key(5) },
        signer: Signer { key: key(42) },
    }
}

fn program(code: ErrorCode) -> Result<(), Error> {
    Err(Error::Program(code))
}

#[test]
fn initialize_stores_the_settings() {
    let policy = rules();
    let mut ctx = Initialize { config: config(), initializer: Signer { key: key(20) } };
    let expected = Config {
        authority: key(21),
        expired_funds_account: key(22),
        num_epochs_valid: 5,
        max_validator_commission_bps: 700,
    };
    assert_eq!(initialize(&mut ctx, key(21), key(22), 5, 700, &policy), Ok(()));
    assert_eq!(ctx.config.data, expected);
    assert_eq!(ctx.config.key, key(1));
    assert_eq!(policy.configs.borrow().as_slice(), &[expected]);
}

#[test]
fn initialize_fails_validation() {
    let policy = Rules { config: Err(REFUSED), ..rules() };
    let mut ctx = Initialize { config: config(), initializer: Signer { key: key(20) } };
    assert_eq!(
        initialize(&mut ctx, key(21), key(22), 0, 700, &policy),
        program(ErrorCode::AccountValidationFailure)
    );
}

fn init_ctx() -> InitTipDistributionAccount {
    InitTipDistributionAccount {
        config: config(),
        tip_distribution_account: distribution(Some(root_of([1; 32]))),
        validator_vote_account: Signer { key: key(30) },
    }
}

#[test]
fn init_tip_distribution_account_fills_the_account() {
    let policy = rules();
    let mut ctx = init_ctx();
    let mut effects = Vec::new();
    assert_eq!(
        init_tip_distribution_account(&mut ctx, key(31), 1000, &policy, CLOCK, &mut effects),
        Ok(())
    );
    assert_eq!(
        ctx.tip_distribution_account.data,
        TipDistributionAccount {
            validator_vote_pubkey: key(30),
            merkle_root_upload_authority: key(31),
            merkle_root: None,
            epoch_created_at: 10,
            validator_commission_bps: 1000,
        }
    );
    assert_eq!(
        effects,
        vec![Effect::Emit(Event::TipDistributionAccountInitialized(
            TipDistributionAccountInitializedEvent { tip_distribution_account: key(4) }
        ))]
    );
}

#[test]
fn init_tip_distribution_account_checks_the_commission() {
    for bps in [0u16, 1001, u16::MAX] {
        let mut ctx = init_ctx();
        let mut effects = Vec::new();
        assert_eq!(
            init_tip_distribution_account(&mut ctx, key(31), bps, &rules(), CLOCK, &mut effects),
            program(ErrorCode::InvalidValidatorCommissionFeeBps)
        );
        assert_eq!(ctx, init_ctx());
        assert!(effects.is_empty());
    }
}

#[test]
fn init_tip_distribution_account_fails_validation() {
    let policy = Rules { account: Err(REFUSED), ..rules() };
    let mut effects = Vec::new();
    assert_eq!(
        init_tip_distribution_account(&mut init_ctx(), key(31), 1, &policy, CLOCK, &mut effects),
        Err(REFUSED)
    );
    assert!(effects.is_empty());
}

#[test]
fn new_account_waits_for_a_root() {
    let mut ctx = init_ctx();
    let mut effects = Vec::new();
    assert_eq!(
        init_tip_distribution_account(&mut ctx, key(6), 1, &rules(), CLOCK, &mut effects),
        Ok(())
    );
    let mut claim_ctx = claim_on(None);
    claim_ctx.tip_distribution_account = ctx.tip_distribution_account;
    assert_eq!(
        claim(&mut claim_ctx, 0, 0, vec![], &rules(), CLOCK, &mut effects),
        program(ErrorCode::RootNotUploaded)
    );
    let mut upload = upload_to(None);
    upload.tip_distribution_account = ctx.tip_distribution_account;
    assert_eq!(
        upload_merkle_root(&mut upload, [3; 32], 8, 4, &rules(), CLOCK, &mut effects),
        program(ErrorCode::PrematureMerkleRootUpload)
    );
    let next = Clock { slot: 78, epoch: 11 };
    assert_eq!(
        upload_merkle_root(&mut upload, [3; 32], 8, 4, &rules(), next, &mut effects),
        Ok(())
    );
}

#[test]
fn anyone_can_close() {
    let policy = Rules { expired: true, ..rules() };
    let mut expected = Vec::new();
    assert_eq!(
        close_tip_distribution_account(&close_of(), 9, &policy, CLOCK, &mut expected),
        Ok(())
    );
    for signer in [key(2), key(5), key(200)] {
        let mut ctx = close_of();
        ctx.signer.key = signer;
        let mut effects = Vec::new();
        assert_eq!(
            close_tip_distribution_account(&ctx, 9, &policy, CLOCK, &mut effects),
            Ok(())
        );
        assert_eq!(effects, expected);
    }
}

fn commission_ctx(signer: Pubkey) -> SetValidatorCommissionBps {
    SetValidatorCommissionBps {
        config: config(),
        tip_distribution_account: distribution(None),
        validator_vote_account: Signer { key: signer },
    }
}

#[test]
fn set_validator_commission_bps_updates() {
    let mut ctx = commission_ctx(key(5));
    let mut effects = Vec::new();
    assert_eq!(set_validator_commission_bps(&mut ctx, 250, &rules(), &mut effects), Ok(()));
    let mut expected = commission_ctx(key(5));
    expected.tip_distribution_account.data.validator_commission_bps = 250;
    assert_eq!(ctx, expected);
    assert_eq!(
        effects,
        vec![Effect::Emit(Event::ValidatorCommissionBpsUpdated(
            ValidatorCommissionBpsUpdatedEvent {
                tip_distribution_account: key(4),
                old_commission_bps: 100,
                new_commission_bps: 250,
            }
        ))]
    );
}

#[test]
fn set_validator_commission_bps_refuses() {
    let mut effects = Vec::new();
    let mut ctx = commission_ctx(key(99));
    // Who signs is checked before the commission is.
    assert_eq!(
        set_validator_commission_bps(&mut ctx, 0, &rules(), &mut effects),
        program(ErrorCode::Unauthorized)
    );
    assert_eq!(ctx, commission_ctx(key(99)));
    for bps in [0u16, 1001] {
        let mut ctx = commission_ctx(key(5));
        assert_eq!(
            set_validator_commission_bps(&mut ctx, bps, &rules(), &mut effects),
            program(ErrorCode::InvalidValidatorCommissionFeeBps)
        );
        assert_eq!(ctx, commission_ctx(key(5)));
    }
    let policy = Rules { account: Err(Error::Framework(1)), ..rules() };
    assert_eq!(
        set_validator_commission_bps(&mut commission_ctx(key(5)), 1, &policy, &mut effects),
        Err(Error::Framework(1))
    );
    assert!(effects.is_empty());
}

#[test]
fn set_merkle_root_upload_authority_updates_and_refuses() {
    let ctx = SetMerkleRootUploadAuthority {
        tip_distribution_account: distribution(Some(root_of([2; 32]))),
        validator_vote_account: Signer { key: key(5) },
    };
    let mut effects = Vec::new();
    let mut stranger = ctx;
    stranger.validator_vote_account.key = key(6);
    let untouched = stranger;
    assert_eq!(
        set_merkle_root_upload_authority(&mut stranger, key(50), &rules(), &mut effects),
        program(ErrorCode::Unauthorized)
    );
    assert_eq!(stranger, untouched);
    assert!(effects.is_empty());

    let mut changed = ctx;
    assert_eq!(
        set_merkle_root_upload_authority(&mut changed, key(50), &rules(), &mut effects),
        Ok(())
    );
    let mut expected = ctx;
    expected.tip_distribution_account.data.merkle_root_upload_authority = key(50);
    assert_eq!(changed, expected);
    assert_eq!(
        effects,
        vec![Effect::Emit(Event::MerkleRootUploadAuthorityUpdated(
            MerkleRootUploadAuthorityUpdatedEvent {
                old_authority: key(6),
                new_authority: key(50),
            }
        ))]
    );

    // The old authority can upload no more.
    let mut upload = upload_to(None);
    upload.tip_distribution_account = changed.tip_distribution_account;
    assert_eq!(
        upload_merkle_root(&mut upload, [1; 32], 1, 1, &rules(), CLOCK, &mut effects),
        Err(Error::Framework(CONSTRAINT_RAW))
    );
}

#[test]
fn update_config_replaces_the_settings() {
    let new = Config {
        authority: key(60),
        expired_funds_account: key(61),
        num_epochs_valid: 9,
        max_validator_commission_bps: 1,
    };
    let mut ctx = UpdateConfig { config: config(), authority: Signer { key: key(2) } };
    let mut effects = Vec::new();
    assert_eq!(update_config(&mut ctx, new, &rules(), &mut effects), Ok(()));
    assert_eq!(ctx.config.data, new);
    assert_eq!(
        effects,
        vec![Effect::Emit(Event::ConfigUpdated(ConfigUpdatedEvent { authority: key(2) }))]
    );
    // The authority was handed on.
    assert_eq!(
        update_config(&mut ctx, config().data, &rules(), &mut effects),
        program(ErrorCode::Unauthorized)
    );
    assert_eq!(ctx.config.data, new);
    assert_eq!(effects.len(), 1);
}

#[test]
fn upload_merkle_root_stores_the_root() {
    let policy = rules();
    let mut ctx = upload_to(None);
    let mut effects = Vec::new();
    assert_eq!(
        upload_merkle_root(&mut ctx, [3; 32], 800, 4, &policy, CLOCK, &mut effects),
        Ok(())
    );
    let mut expected = upload_to(None);
    expected.tip_distribution_account.data.merkle_root = Some(MerkleRoot {
        root: [3; 32],
        max_total_claim: 800,
        max_num_nodes: 4,
        total_funds_claimed: 0,
        num_nodes_claimed: 0,
    });
    assert_eq!(ctx, expected);
    assert_eq!(policy.epochs.borrow().as_slice(), &[10]);
    assert_eq!(
        effects,
        vec![Effect::Emit(Event::MerkleRootUploaded(MerkleRootUploadedEvent {
            merkle_root_upload_authority: key(6),
            tip_distribution_account: key(4),
        }))]
    );
    // It may be done again.
    assert_eq!(
        upload_merkle_root(&mut ctx, [4; 32], 700, 3, &policy, CLOCK, &mut effects),
        Ok(())
    );
    assert_eq!(ctx.tip_distribution_account.data.merkle_root.unwrap().root, [4; 32]);
}

#[test]
fn upload_merkle_root_refuses() {
    let mut effects = Vec::new();

    let mut ctx = upload_to(None);
    ctx.merkle_root_upload_authority.key = key(5);
    assert_eq!(
        upload_merkle_root(&mut ctx, [3; 32], 800, 4, &rules(), CLOCK, &mut effects),
        Err(Error::Framework(CONSTRAINT_RAW))
    );

    let claimed = MerkleRoot { num_nodes_claimed: 1, ..root_of([1; 32]) };
    let mut ctx = upload_to(Some(claimed));
    let expired = Rules { expired: true, ..rules() };
    assert_eq!(
        upload_merkle_root(&mut ctx, [3; 32], 800, 4, &expired, CLOCK, &mut effects),
        program(ErrorCode::Unauthorized)
    );
    assert_eq!(ctx, upload_to(Some(claimed)));
    assert!(expired.epochs.borrow().is_empty());

    let mut ctx = upload_to(None);
    assert_eq!(
        upload_merkle_root(&mut ctx, [3; 32], 800, 4, &expired, CLOCK, &mut effects),
        program(ErrorCode::ExpiredTipDistributionAccount)
    );

    let early = Clock { slot: 0, epoch: 9 };
    assert_eq!(
        upload_merkle_root(&mut ctx, [3; 32], 800, 4, &rules(), early, &mut effects),
        program(ErrorCode::PrematureMerkleRootUpload)
    );
    assert_eq!(
        settle_upload(&mut ctx, [3; 32], 800, 4, true, &rules(), early, &mut effects),
        program(ErrorCode::ExpiredTipDistributionAccount)
    );
    assert_eq!(ctx, upload_to(None));

    let invalid = Rules { account: Err(REFUSED), ..rules() };
    assert_eq!(
        upload_merkle_root(&mut ctx, [3; 32], 800, 4, &invalid, CLOCK, &mut effects),
        Err(REFUSED)
    );
    assert!(effects.is_empty());
}

#[test]
fn close_pays_out_and_removes() {
    let policy = Rules { expired: true, ..rules() };
    let ctx = close_of();
    let mut effects = Vec::new();
    assert_eq!(
        close_tip_distribution_account(&ctx, 9, &policy, CLOCK, &mut effects),
        Ok(())
    );
    assert_eq!(
        effects,
        vec![
            Effect::Transfer { from: key(4), to: key(3), lamports: 1300 },
            Effect::Emit(Event::TipDistributionAccountClosed(TipDistributionAccountClosedEvent {
                expired_funds_account: key(3),
                tip_distribution_account: key(4),
                expired_amount: 1300,
            })),
            Effect::Close { account: key(4), destination: key(5) },
        ]
    );
    assert_eq!(policy.epochs.borrow().as_slice(), &[10]);
}

#[test]
fn close_refuses() {
    let mut effects = Vec::new();
    let mut elsewhere = close_of();
    elsewhere.expired_funds_account.key = key(70);
    let expired = Rules { expired: true, ..rules() };
    assert_eq!(
        close_tip_distribution_account(&elsewhere, 9, &expired, CLOCK, &mut effects),
        Err(Error::Framework(CONSTRAINT_RAW))
    );
    assert_eq!(
        close_tip_distribution_account(&close_of(), 9, &rules(), CLOCK, &mut effects),
        program(ErrorCode::PrematureCloseTipDistributionAccount)
    );
    let mut poor = close_of();
    poor.tip_distribution_account.lamports = 199;
    assert_eq!(
        settle_close(&poor, true, &rules(), &mut effects),
        program(ErrorCode::RentExemptViolation)
    );
    assert!(effects.is_empty());

    let mut bare = close_of();
    bare.tip_distribution_account.lamports = 200;
    assert_eq!(settle_close(&bare, true, &rules(), &mut effects), Ok(()));
    assert_eq!(effects[0], Effect::Transfer { from: key(4), to: key(3), lamports: 0 });

    let invalid = Rules { expired: true, account: Err(REFUSED), ..rules() };
    let mut effects = Vec::new();
    assert_eq!(
        close_tip_distribution_account(&close_of(), 9, &invalid, CLOCK, &mut effects),
        Err(REFUSED)
    );
    assert_eq!(effects.len(), 1);
}

#[test]
fn last_upload_wins() {
    let mut twice = upload_to(None);
    let mut effects = Vec::new();
    assert_eq!(
        upload_merkle_root(&mut twice, [3; 32], 800, 4, &rules(), CLOCK, &mut effects),
        Ok(())
    );
    let mut effects = Vec::new();
    assert_eq!(
        upload_merkle_root(&mut twice, [4; 32], 700, 3, &rules(), CLOCK, &mut effects),
        Ok(())
    );
    let mut alone = upload_to(None);
    let mut effects_alone = Vec::new();
    assert_eq!(
        upload_merkle_root(&mut alone, [4; 32], 700, 3, &rules(), CLOCK, &mut effects_alone),
        Ok(())
    );
    assert_eq!(twice, alone);
    assert_eq!(effects, effects_alone);
}

#[test]
fn closing_excludes_uploading() {
    for expired in [true, false] {
        let policy = Rules { expired, ..rules() };
        let closed =
            close_tip_distribution_account(&close_of(), 9, &policy, CLOCK, &mut Vec::new());
        let uploaded = upload_merkle_root(
            &mut upload_to(None),
            [3; 32],
            800,
            4,
            &policy,
            CLOCK,
            &mut Vec::new(),
        );
        if expired {
            assert_eq!(closed, Ok(()));
            assert_eq!(uploaded, program(ErrorCode::ExpiredTipDistributionAccount));
        } else {
            assert_eq!(closed, program(ErrorCode::PrematureCloseTipDistributionAccount));
            assert_eq!(uploaded, Ok(()));
        }
    }
}

#[test]
fn lower_commission_is_not_refused() {
    let mut roomier = commission_ctx(key(5));
    roomier.config.data.max_validator_commission_bps = 2000;
    for bps in [1u16, 999, 1000] {
        for ctx in [commission_ctx(key(5)), roomier] {
            let mut ctx = ctx;
            assert_eq!(
                set_validator_commission_bps(&mut ctx, bps, &rules(), &mut Vec::new()),
                Ok(())
            );
        }
    }
}

#[test]
fn commission_is_refused_alike() {
    let refused = program(ErrorCode::InvalidValidatorCommissionFeeBps);
    for bps in [0u16, 1, 1000, 1001, u16::MAX] {
        let made = init_tip_distribution_account(
            &mut init_ctx(),
            key(31),
            bps,
            &rules(),
            CLOCK,
            &mut Vec::new(),
        );
        let set = set_validator_commission_bps(
            &mut commission_ctx(key(5)),
            bps,
            &rules(),
            &mut Vec::new(),
        );
        assert_eq!(made == refused, set == refused);
        assert_eq!(made == refused, bps == 0 || bps > 1000);
    }
}

#[test]
fn claimed_funds_stay_claimed() {
    let mut ctx = claim_on(Some(root_of([1; 32])));
    assert_eq!(
        settle_claim(&mut ctx, 3, 400, true, &rules(), CLOCK, &mut Vec::new()),
        Ok(())
    );
    let mut commission = commission_ctx(key(5));
    commission.tip_distribution_account = ctx.tip_distribution_account;
    assert_eq!(
        set_validator_commission_bps(&mut commission, 5, &rules(), &mut Vec::new()),
        Ok(())
    );
    let mut authority = SetMerkleRootUploadAuthority {
        tip_distribution_account: commission.tip_distribution_account,
        validator_vote_account: Signer { key: key(5) },
    };
    assert_eq!(
        set_merkle_root_upload_authority(&mut authority, key(50), &rules(), &mut Vec::new()),
        Ok(())
    );
    assert_eq!(
        authority.tip_distribution_account.data.merkle_root,
        ctx.tip_distribution_account.data.merkle_root
    );
    let mut upload = upload_to(None);
    upload.tip_distribution_account = authority.tip_distribution_account;
    upload.merkle_root_upload_authority.key = key(50);
    assert_eq!(
        upload_merkle_root(&mut upload, [3; 32], 8, 4, &rules(), CLOCK, &mut Vec::new()),
        program(ErrorCode::Unauthorized)
    );
}

#[test]
fn claim_leaf_is_the_keccak_digest() {
    let leaf = claim_leaf(3, &key(8), 400);
    assert_eq!(leaf, leaf_of(3, key(8), 400));
    assert_eq!(
        leaf,
        keccak::hashv(&[&3u64.to_le_bytes(), &[8u8; 32], &400u64.to_le_bytes()]).0
    );
    assert_ne!(leaf, claim_leaf(4, &key(8), 400));
    assert_ne!(leaf, claim_leaf(3, &key(9), 400));
    assert_ne!(leaf, claim_leaf(3, &key(8), 401));
}

#[test]
fn claims_are_hashed_from_different_bytes() {
    assert_eq!(leaf_bytes(3, key(8), 400).len(), 48);
    assert_ne!(leaf_bytes(3, key(8), 400), leaf_bytes(400, key(8), 3));
}

#[test]
fn claim_pays_marks_and_counts() {
    let policy = rules();
    let sibling = [9u8; 32];
    let root = keccak::hashv(&[&leaf_of(3, key(8), 400), &sibling]).0;
    let mut ctx = claim_on(Some(root_of(root)));
    let mut effects = Vec::new();
    assert_eq!(
        claim(&mut ctx, 3, 400, vec![sibling], &policy, CLOCK, &mut effects),
        Ok(())
    );
    let mut expected = claim_on(Some(MerkleRoot {
        total_funds_claimed: 400,
        num_nodes_claimed: 1,
        ..root_of(root)
    }));
    expected.claim_status.data = ClaimStatus {
        is_claimed: true,
        claimant: key(8),
        slot_claimed_at: 77,
        amount: 400,
    };
    assert_eq!(ctx, expected);
    assert_eq!(policy.leaves.borrow().as_slice(), &[leaf_of(3, key(8), 400)]);
    assert_eq!(policy.accounts.borrow().as_slice(), &[expected.tip_distribution_account.data]);
    assert_eq!(
        effects,
        vec![
            Effect::Transfer { from: key(4), to: key(8), lamports: 400 },
            Effect::Emit(Event::Claimed(ClaimedEvent {
                tip_distribution_account: key(4),
                claimant: key(8),
                index: 3,
                amount: 400,
            })),
        ]
    );

    // The same claim cannot be made again.
    assert_eq!(
        claim(&mut ctx, 3, 400, vec![sibling], &policy, CLOCK, &mut effects),
        program(ErrorCode::FundsAlreadyClaimed)
    );
    assert_eq!(ctx, expected);
    assert_eq!(effects.len(), 2);

    // No other root can be uploaded.
    let mut upload = upload_to(None);
    upload.tip_distribution_account = ctx.tip_distribution_account;
    assert_eq!(
        upload_merkle_root(&mut upload, [3; 32], 800, 4, &policy, CLOCK, &mut effects),
        program(ErrorCode::Unauthorized)
    );
}

#[test]
fn claim_refuses_before_paying() {
    let root = leaf_of(3, key(8), 400);
    let mut effects = Vec::new();

    let mut ctx = claim_on(None);
    assert_eq!(
        claim(&mut ctx, 3, 400, vec![], &rules(), CLOCK, &mut effects),
        program(ErrorCode::RootNotUploaded)
    );
    assert_eq!(ctx, claim_on(None));

    let mut ctx = claim_on(None);
    ctx.claim_status.data.is_claimed = true;
    assert_eq!(
        claim(&mut ctx, 3, 400, vec![], &rules(), CLOCK, &mut effects),
        program(ErrorCode::FundsAlreadyClaimed)
    );

    let mut ctx = claim_on(Some(root_of(root)));
    for (index, amount) in [(4u64, 400u64), (3, 401)] {
        assert_eq!(
            claim(&mut ctx, index, amount, vec![], &rules(), CLOCK, &mut effects),
            program(ErrorCode::InvalidProof)
        );
    }
    assert_eq!(
        claim(&mut ctx, 3, 400, vec![[0; 32]], &rules(), CLOCK, &mut effects),
        program(ErrorCode::InvalidProof)
    );
    assert_eq!(ctx, claim_on(Some(root_of(root))));

    for lamports in [599u64, 199] {
        ctx.tip_distribution_account.lamports = lamports;
        let before = ctx;
        assert_eq!(
            claim(&mut ctx, 3, 400, vec![], &rules(), CLOCK, &mut effects),
            program(ErrorCode::RentExemptViolation)
        );
        assert_eq!(ctx, before);
    }
    assert!(effects.is_empty());

    ctx.tip_distribution_account.lamports = 600;
    assert_eq!(claim(&mut ctx, 3, 400, vec![], &rules(), CLOCK, &mut effects), Ok(()));
}

#[test]
fn claim_keeps_to_the_limits() {
    let mut ctx = claim_on(Some(MerkleRoot { total_funds_claimed: 601, ..root_of([1; 32]) }));
    let mut effects = Vec::new();
    assert_eq!(
        settle_claim(&mut ctx, 3, 400, true, &rules(), CLOCK, &mut effects),
        program(ErrorCode::ExceedsMaxClaim)
    );
    let counted = ctx.tip_distribution_account.data.merkle_root.unwrap();
    assert_eq!(counted.total_funds_claimed, 1001);
    assert_eq!(counted.num_nodes_claimed, 0);
    assert_eq!(effects, vec![Effect::Transfer { from: key(4), to: key(8), lamports: 400 }]);

    let mut ctx = claim_on(Some(MerkleRoot { num_nodes_claimed: 2, ..root_of([1; 32]) }));
    assert_eq!(
        settle_claim(&mut ctx, 3, 400, true, &rules(), CLOCK, &mut Vec::new()),
        program(ErrorCode::ExceedsMaxNumNodes)
    );
    let counted = ctx.tip_distribution_account.data.merkle_root.unwrap();
    assert_eq!(counted.total_funds_claimed, 400);
    assert_eq!(counted.num_nodes_claimed, 3);

    // Both limits can be reached.
    let mut ctx = claim_on(Some(MerkleRoot {
        total_funds_claimed: 600,
        num_nodes_claimed: 1,
        ..root_of([1; 32])
    }));
    assert_eq!(
        settle_claim(&mut ctx, 3, 400, true, &rules(), CLOCK, &mut Vec::new()),
        Ok(())
    );
    let counted = ctx.tip_distribution_account.data.merkle_root.unwrap();
    assert_eq!(counted.total_funds_claimed, 1000);
    assert_eq!(counted.num_nodes_claimed, 2);
}

#[test]
fn claims_add_up() {
    let mut root = root_of([1; 32]);
    root.max_num_nodes = 4;
    let mut account = distribution(Some(root));
    for (index, amount) in [(0u64, 100u64), (1, 250), (2, 0), (3, 650)] {
        let mut ctx = claim_on(None);
        ctx.tip_distribution_account = account;
        assert_eq!(
            settle_claim(&mut ctx, index, amount, true, &rules(), CLOCK, &mut Vec::new()),
            Ok(())
        );
        account = ctx.tip_distribution_account;
    }
    let counted = account.data.merkle_root.unwrap();
    assert_eq!(counted.total_funds_claimed, 1000);
    assert_eq!(counted.num_nodes_claimed, 4);
}

#[test]
fn claim_announces_before_validation() {
    let policy = Rules { account: Err(REFUSED), ..rules() };
    let mut ctx = claim_on(Some(root_of([1; 32])));
    let mut effects = Vec::new();
    assert_eq!(
        settle_claim(&mut ctx, 3, 400, true, &policy, CLOCK, &mut effects),
        Err(REFUSED)
    );
    assert_eq!(effects.len(), 2);
}

#[test]
fn try_claim_stops_where_the_tallies_are_full() {
    let root = leaf_of(3, key(8), 400);
    let full = MerkleRoot {
        max_total_claim: u64::MAX,
        total_funds_claimed: u64::MAX - 399,
        ..root_of(root)
    };
    let mut ctx = claim_on(Some(full));
    let mut effects = Vec::new();
    assert_eq!(try_claim(&mut ctx, 3, 400, vec![], &rules(), CLOCK, &mut effects), None);
    assert_eq!(ctx, claim_on(Some(full)));
    assert!(effects.is_empty());
    assert_eq!(
        try_claim(&mut ctx, 3, 401, vec![], &rules(), CLOCK, &mut effects),
        Some(program(ErrorCode::InvalidProof))
    );

    let many = MerkleRoot { num_nodes_claimed: u64::MAX, ..root_of(root) };
    let mut ctx = claim_on(Some(many));
    assert_eq!(try_claim(&mut ctx, 3, 400, vec![], &rules(), CLOCK, &mut effects), None);

    let fits = MerkleRoot { total_funds_claimed: u64::MAX - 400, ..full };
    let mut ctx = claim_on(Some(fits));
    assert_eq!(
        try_claim(&mut ctx, 3, 400, vec![], &rules(), CLOCK, &mut effects),
        Some(Ok(()))
    );
    assert_eq!(
        ctx.tip_distribution_account.data.merkle_root.unwrap().total_funds_claimed,
        u64::MAX
    );
}

#[test]
fn errors_have_the_framework_numbers() {
    assert_eq!(ERROR_CODE_OFFSET, anchor_lang::error::ERROR_CODE_OFFSET);
    assert_eq!(CONSTRAINT_RAW, anchor_lang::error::ErrorCode::ConstraintRaw as u32);
    let codes = [
        (ErrorCode::AccountValidationFailure, "Account failed validation."),
        (
            ErrorCode::ExceedsMaxClaim,
            "The maximum number of funds to be claimed has been exceeded.",
        ),
        (ErrorCode::ExceedsMaxNumNodes, "The maximum number of claims has been exceeded."),
        (
            ErrorCode::ExpiredTipDistributionAccount,
            "The given TipDistributionAccount has expired.",
        ),
        (
            ErrorCode::FundsAlreadyClaimed,
            "The funds for the given index and TipDistributionAccount have already been claimed.",
        ),
        (ErrorCode::InvalidProof, "The given proof is invalid."),
        (
            ErrorCode::InvalidValidatorCommissionFeeBps,
            "Validator's commission basis points must be greater than 0 and less than or equal to the Config account's max_validator_commission_bps.",
        ),
        (
            ErrorCode::PrematureCloseTipDistributionAccount,
            "The given TipDistributionAccount is not ready to be closed.",
        ),
        (
            ErrorCode::PrematureMerkleRootUpload,
            "Must wait till at least one epoch after the tip distribution account was created to upload the merkle root.",
        ),
        (ErrorCode::RentExemptViolation, "Account would violate rent exemption."),
        (
            ErrorCode::RootNotUploaded,
            "No merkle root has been uploaded to the given TipDistributionAccount.",
        ),
        (ErrorCode::Unauthorized, "Unauthorized signer."),
    ];
    let mut number: u32 = 6000;
    for (code, message) in codes {
        assert_eq!(code.number(), number);
        assert_eq!(Error::Program(code).number(), number);
        assert_eq!(code.message(), message);
        number += 1;
    }
    assert_eq!(Error::Framework(2003).number(), 2003);
}

#[test]
fn keys_are_equal_by_their_bytes() {
    let mut other = [1u8; 32];
    assert!(same_bytes(&[1; 32], &other));
    assert!(key(1) == Pubkey { bytes: other });
    other[31] = 2;
    assert!(!same_bytes(&[1; 32], &other));
    assert!(key(1) != Pubkey { bytes: other });
}
