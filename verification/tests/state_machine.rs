//! End-to-end runs of the vault state machine over concrete values.

use cnft_fractionalizer::operations::{
    deposit_begin, deposit_cnft, deposit_commit, withdraw_begin, withdraw_cnft, withdraw_commit,
    ErrorCode,
};
use cnft_fractionalizer::vault::{initialize_vault, verify_authority, Vault, VaultAuthorityProof};

const OWNER: [u8; 32] = [1u8; 32];
const MINT: [u8; 32] = [2u8; 32];
const ROOT: [u8; 32] = [3u8; 32];
const DATA_HASH: [u8; 32] = [4u8; 32];
const CREATOR_HASH: [u8; 32] = [5u8; 32];
const NONCE: u64 = 11;
const INDEX: u32 = 12;

fn fresh_vault() -> Vault {
    initialize_vault(OWNER, MINT, 7, 1000, 9)
}

fn auth() -> VaultAuthorityProof {
    VaultAuthorityProof {
        owner: OWNER,
        unique_id: 9,
        bump: 7,
    }
}

fn deposit_ok(v: &mut Vault) -> Result<u64, ErrorCode> {
    deposit_cnft(
        v,
        &auth(),
        &MINT,
        ROOT,
        DATA_HASH,
        CREATOR_HASH,
        NONCE,
        INDEX,
        true,
        true,
    )
}

#[test]
fn create_sets_fields_and_empty_state() {
    let v = fresh_vault();
    assert_eq!(v.owner, OWNER);
    assert_eq!(v.share_mint, MINT);
    assert_eq!(v.total_shares, 1000);
    assert!(!v.is_locked);
    assert_eq!(v.merkle_root, [0u8; 32]);
    assert_eq!(v.data_hash, [0u8; 32]);
    assert_eq!(v.creator_hash, [0u8; 32]);
    assert_eq!(v.nonce, 0);
    assert_eq!(v.index, 0);
    assert_eq!(v.bump, 7);
    assert_eq!(v.unique_id, 9);
    assert!(verify_authority(&v, &auth()));
}

#[test]
fn round_trip_holds_shares_and_returns_asset() {
    let mut v = initialize_vault(OWNER, MINT, 7, 1000, 7);
    let proof = VaultAuthorityProof {
        owner: OWNER,
        unique_id: 7,
        bump: 7,
    };
    let mut depositor_balance: u64 = 0;

    // The vault is observed unlocked immediately before the successful deposit.
    assert!(!v.is_locked);
    let minted = deposit_cnft(
        &mut v,
        &proof,
        &MINT,
        ROOT,
        DATA_HASH,
        CREATOR_HASH,
        NONCE,
        INDEX,
        true,
        true,
    )
    .unwrap();
    depositor_balance += minted;

    assert!(v.is_locked);
    assert_eq!(v.merkle_root, ROOT);
    assert_eq!(v.data_hash, DATA_HASH);
    assert_eq!(v.creator_hash, CREATOR_HASH);
    assert_eq!(v.nonce, NONCE);
    assert_eq!(v.index, INDEX);
    assert_eq!(depositor_balance, 1000);

    // The vault is observed locked immediately before the successful withdraw.
    assert!(v.is_locked);
    let burned = withdraw_cnft(&mut v, depositor_balance, true, true).unwrap();
    depositor_balance -= burned;

    assert!(!v.is_locked);
    assert_eq!(v.merkle_root, [0u8; 32]);
    assert_eq!(v.data_hash, [0u8; 32]);
    assert_eq!(v.creator_hash, [0u8; 32]);
    assert_eq!(v.nonce, 0);
    assert_eq!(v.index, 0);
    assert_eq!(depositor_balance, 0);
    assert_eq!(v.owner, OWNER);
    assert_eq!(v.share_mint, MINT);
    assert_eq!(v.total_shares, 1000);
    assert_eq!(v.unique_id, 7);
}

#[test]
fn deposit_twice_rejected_already_locked() {
    let mut v = fresh_vault();
    deposit_ok(&mut v).unwrap();
    let locked = v;
    let second = deposit_ok(&mut v);
    assert_eq!(second, Err(ErrorCode::AlreadyLocked));
    assert_eq!(v, locked);
}

#[test]
fn deposit_custody_failure_leaves_vault_unchanged() {
    let mut v = fresh_vault();
    let before = v;
    let r = deposit_cnft(
        &mut v,
        &auth(),
        &MINT,
        ROOT,
        DATA_HASH,
        CREATOR_HASH,
        NONCE,
        INDEX,
        false,
        true,
    );
    assert_eq!(r, Err(ErrorCode::CustodyTransferFailed));
    assert_eq!(v, before);
}

#[test]
fn deposit_mint_failure_leaves_vault_unchanged() {
    let mut v = fresh_vault();
    let before = v;
    let r = deposit_cnft(
        &mut v,
        &auth(),
        &MINT,
        ROOT,
        DATA_HASH,
        CREATOR_HASH,
        NONCE,
        INDEX,
        true,
        false,
    );
    assert_eq!(r, Err(ErrorCode::ShareOperationFailed));
    assert_eq!(v, before);
}

#[test]
fn withdraw_partial_balance_rejected() {
    let mut v = fresh_vault();
    deposit_ok(&mut v).unwrap();
    let locked = v;
    let r = withdraw_cnft(&mut v, 999, true, true);
    assert_eq!(r, Err(ErrorCode::InsufficientShares));
    assert_eq!(v, locked);
}

#[test]
fn withdraw_on_empty_vault_rejected() {
    let mut v = fresh_vault();
    let before = v;
    let r = withdraw_cnft(&mut v, 1000, true, true);
    assert_eq!(r, Err(ErrorCode::NotLocked));
    assert_eq!(v, before);
}

#[test]
fn withdraw_burn_failure_leaves_vault_unchanged() {
    let mut v = fresh_vault();
    deposit_ok(&mut v).unwrap();
    let locked = v;
    let r = withdraw_cnft(&mut v, 1000, false, true);
    assert_eq!(r, Err(ErrorCode::ShareOperationFailed));
    assert_eq!(v, locked);
}

#[test]
fn withdraw_release_failure_leaves_vault_unchanged() {
    let mut v = fresh_vault();
    deposit_ok(&mut v).unwrap();
    let locked = v;
    let r = withdraw_cnft(&mut v, 1000, true, false);
    assert_eq!(r, Err(ErrorCode::CustodyTransferFailed));
    assert_eq!(v, locked);
}

#[test]
fn deposit_wrong_authority_rejected() {
    let mut v = fresh_vault();
    let before = v;
    let wrong = VaultAuthorityProof {
        owner: OWNER,
        unique_id: 10,
        bump: 7,
    };
    let r = deposit_cnft(
        &mut v,
        &wrong,
        &MINT,
        ROOT,
        DATA_HASH,
        CREATOR_HASH,
        NONCE,
        INDEX,
        true,
        true,
    );
    assert_eq!(r, Err(ErrorCode::AddressDerivationMismatch));
    assert_eq!(v, before);
    assert!(!verify_authority(&v, &wrong));
}

#[test]
fn deposit_wrong_share_class_rejected() {
    let mut v = fresh_vault();
    let before = v;
    let other_mint = [9u8; 32];
    let r = deposit_cnft(
        &mut v,
        &auth(),
        &other_mint,
        ROOT,
        DATA_HASH,
        CREATOR_HASH,
        NONCE,
        INDEX,
        true,
        true,
    );
    assert_eq!(r, Err(ErrorCode::ShareOperationFailed));
    assert_eq!(v, before);
}

#[test]
fn deposit_zero_fingerprint_rejected() {
    let mut v = fresh_vault();
    let before = v;
    let r = deposit_cnft(
        &mut v,
        &auth(),
        &MINT,
        [0u8; 32],
        [0u8; 32],
        [0u8; 32],
        0,
        0,
        true,
        true,
    );
    assert_eq!(r, Err(ErrorCode::CustodyTransferFailed));
    assert_eq!(v, before);
}

#[test]
fn supply_alternates_between_zero_and_total() {
    let mut v = fresh_vault();
    let mut supply: u64 = 0;
    assert_eq!(supply, 0);

    supply += deposit_ok(&mut v).unwrap();
    assert_eq!(supply, 1000);

    supply -= withdraw_cnft(&mut v, supply, true, true).unwrap();
    assert_eq!(supply, 0);

    supply += deposit_ok(&mut v).unwrap();
    assert_eq!(supply, 1000);
}

#[test]
fn step_functions_drive_a_deposit() {
    let mut v = fresh_vault();
    let data = deposit_begin(
        &v,
        &auth(),
        &MINT,
        &ROOT,
        &DATA_HASH,
        &CREATOR_HASH,
        NONCE,
        INDEX,
    )
    .unwrap();
    assert_eq!(data.len(), 109);
    // The checks alone touch nothing.
    assert!(!v.is_locked);

    let minted = deposit_commit(&mut v, ROOT, DATA_HASH, CREATOR_HASH, NONCE, INDEX).unwrap();
    assert_eq!(minted, 1000);
    assert!(v.is_locked);
    assert_eq!(v.merkle_root, ROOT);

    let again = deposit_commit(&mut v, ROOT, DATA_HASH, CREATOR_HASH, NONCE, INDEX);
    assert_eq!(again, Err(ErrorCode::AlreadyLocked));
}

#[test]
fn step_functions_drive_a_withdraw() {
    let mut v = fresh_vault();
    deposit_ok(&mut v).unwrap();

    let (burn_amount, release_data) = withdraw_begin(&v, 1000).unwrap();
    assert_eq!(burn_amount, 1000);
    assert_eq!(release_data.len(), 109);
    assert!(v.is_locked);

    withdraw_commit(&mut v).unwrap();
    assert!(!v.is_locked);
    assert_eq!(v.merkle_root, [0u8; 32]);

    let again = withdraw_commit(&mut v);
    assert_eq!(again, Err(ErrorCode::NotLocked));
}

#[test]
fn withdraw_begin_rejects_short_balance() {
    let mut v = fresh_vault();
    deposit_ok(&mut v).unwrap();
    assert_eq!(withdraw_begin(&v, 999), Err(ErrorCode::InsufficientShares));
    assert_eq!(withdraw_begin(&v, 0), Err(ErrorCode::InsufficientShares));
}
