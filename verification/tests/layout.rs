//! Exact byte layouts of the custody-transfer request and the
//! address-derivation seeds.

use cnft_fractionalizer::encoding::{encode_transfer_data, vault_seed_parts};
use cnft_fractionalizer::operations::{deposit_begin, withdraw_begin};
use cnft_fractionalizer::vault::{initialize_vault, VaultAuthorityProof};

#[test]
fn transfer_data_layout_is_exact() {
    let root = [1u8; 32];
    let data_hash = [2u8; 32];
    let creator_hash = [3u8; 32];
    let nonce: u64 = 0x0102030405060708;
    let index: u32 = 0x0A0B0C0D;

    let data = encode_transfer_data(&root, &data_hash, &creator_hash, nonce, index);

    assert_eq!(data.len(), 109);
    assert_eq!(data[0], 6);
    assert_eq!(&data[1..33], &[1u8; 32]);
    assert_eq!(&data[33..65], &[2u8; 32]);
    assert_eq!(&data[65..97], &[3u8; 32]);
    assert_eq!(&data[97..105], &[0x08, 0x07, 0x06, 0x05, 0x04, 0x03, 0x02, 0x01]);
    assert_eq!(&data[105..109], &[0x0D, 0x0C, 0x0B, 0x0A]);
}

#[test]
fn deposit_begin_encodes_the_supplied_fingerprint() {
    let owner = [7u8; 32];
    let mint = [8u8; 32];
    let v = initialize_vault(owner, mint, 3, 10, 1);
    let auth = VaultAuthorityProof {
        owner,
        unique_id: 1,
        bump: 3,
    };
    let root = [9u8; 32];
    let data = deposit_begin(&v, &auth, &mint, &root, &[10u8; 32], &[11u8; 32], 2, 4).unwrap();
    assert_eq!(data, encode_transfer_data(&root, &[10u8; 32], &[11u8; 32], 2, 4));
}

#[test]
fn withdraw_begin_encodes_the_stored_fingerprint() {
    let owner = [7u8; 32];
    let mint = [8u8; 32];
    let mut v = initialize_vault(owner, mint, 3, 10, 1);
    let auth = VaultAuthorityProof {
        owner,
        unique_id: 1,
        bump: 3,
    };
    let root = [9u8; 32];
    cnft_fractionalizer::operations::deposit_cnft(
        &mut v,
        &auth,
        &mint,
        root,
        [10u8; 32],
        [11u8; 32],
        2,
        4,
        true,
        true,
    )
    .unwrap();

    let (amount, release) = withdraw_begin(&v, 10).unwrap();
    assert_eq!(amount, 10);
    assert_eq!(release, encode_transfer_data(&root, &[10u8; 32], &[11u8; 32], 2, 4));
}

#[test]
fn seed_parts_layout_is_exact() {
    let owner = [42u8; 32];
    let parts = vault_seed_parts(&owner, 0x0102030405060708, 0xFE);
    assert_eq!(parts.len(), 4);
    assert_eq!(parts[0], b"vault".to_vec());
    assert_eq!(parts[1], owner.to_vec());
    assert_eq!(parts[2], vec![0x08, 0x07, 0x06, 0x05, 0x04, 0x03, 0x02, 0x01]);
    assert_eq!(parts[3], vec![0xFE]);
}
