//! The vault state machine: deposit and withdraw, their error taxonomy, and
//! the step functions the host runtime drives.
//!
//! Both operations run inside the host's all-or-nothing execution unit.  The
//! outcome of each external call — the custody transfer, the share mint, the
//! share burn, the custody release — reaches the state machine as a plain
//! boolean event; the machine decides what each outcome means and what state
//! survives.  A failed operation leaves the vault exactly as it was.

use crate::encoding::{encode_transfer_data, spec_transfer_data};
use crate::vault::{all_zero, bytes32_eq, bytes32_is_zero, verify_authority, Vault,
    VaultAuthorityProof};
use vstd::prelude::*;

verus! {

/// Why a vault operation was rejected.  Every rejection leaves the vault
/// unchanged.
#[derive(Clone, Copy, Debug, PartialEq, Eq, Structural)]
pub enum ErrorCode {
    /// A deposit was attempted while an asset is already in custody.
    AlreadyLocked,
    /// A withdraw was attempted while no asset is in custody.
    NotLocked,
    /// A withdraw was attempted without the full share supply in hand.
    InsufficientShares,
    /// The custody service rejected the transfer: the proof-of-state was
    /// invalid, stale, or the asset was not transferable.
    CustodyTransferFailed,
    /// The share service rejected the mint or burn, or the destination does
    /// not belong to the vault's share class.
    ShareOperationFailed,
    /// The caller-supplied owner, salt or bump does not match the vault's
    /// recorded address derivation.
    AddressDerivationMismatch,
}

/// True iff the supplied proof-of-state fingerprint is the zero fingerprint,
/// which identifies no asset and is rejected by the custody service.
pub open spec fn fingerprint_zero(
    root: [u8; 32],
    data_hash: [u8; 32],
    creator_hash: [u8; 32],
    nonce: u64,
    index: u32,
) -> bool {
    &&& all_zero(root@)
    &&& all_zero(data_hash@)
    &&& all_zero(creator_hash@)
    &&& nonce == 0
    &&& index == 0
}

/// The checks a deposit makes before the custody transfer is attempted:
/// the caller must address the vault it derived, the vault must be empty,
/// the share destination must belong to the vault's share class, and the
/// supplied fingerprint must identify an asset.
pub open spec fn deposit_precheck(
    v: Vault,
    auth: VaultAuthorityProof,
    dest_class: [u8; 32],
    root: [u8; 32],
    data_hash: [u8; 32],
    creator_hash: [u8; 32],
    nonce: u64,
    index: u32,
) -> Result<(), ErrorCode> {
    if !auth.matches(v) {
        Err(ErrorCode::AddressDerivationMismatch)
    } else if v.is_locked {
        Err(ErrorCode::AlreadyLocked)
    } else if dest_class@ != v.share_mint@ {
        Err(ErrorCode::ShareOperationFailed)
    } else if fingerprint_zero(root, data_hash, creator_hash, nonce, index) {
        Err(ErrorCode::CustodyTransferFailed)
    } else {
        Ok(())
    }
}

/// What a deposit returns: the number of shares minted into the destination
/// on success, the reason for rejection otherwise.  `custody_ok` and
/// `mint_ok` are the reported outcomes of the custody transfer and of the
/// share mint.
pub open spec fn deposit_result(
    v: Vault,
    auth: VaultAuthorityProof,
    dest_class: [u8; 32],
    root: [u8; 32],
    data_hash: [u8; 32],
    creator_hash: [u8; 32],
    nonce: u64,
    index: u32,
    custody_ok: bool,
    mint_ok: bool,
) -> Result<u64, ErrorCode> {
    match deposit_precheck(v, auth, dest_class, root, data_hash, creator_hash, nonce, index) {
        Err(e) => Err(e),
        Ok(()) => if !custody_ok {
            Err(ErrorCode::CustodyTransferFailed)
        } else if !mint_ok {
            Err(ErrorCode::ShareOperationFailed)
        } else {
            Ok(v.total_shares)
        },
    }
}

/// The vault with the given fingerprint recorded and custody locked.
pub open spec fn lock_vault(
    v: Vault,
    root: [u8; 32],
    data_hash: [u8; 32],
    creator_hash: [u8; 32],
    nonce: u64,
    index: u32,
) -> Vault {
    Vault {
        is_locked: true,
        merkle_root: root,
        data_hash,
        creator_hash,
        nonce,
        index,
        ..v
    }
}

/// The vault after a successful or failed deposit: locked around the new
/// fingerprint on success, untouched on any failure.
pub open spec fn deposit_post(
    v: Vault,
    auth: VaultAuthorityProof,
    dest_class: [u8; 32],
    root: [u8; 32],
    data_hash: [u8; 32],
    creator_hash: [u8; 32],
    nonce: u64,
    index: u32,
    custody_ok: bool,
    mint_ok: bool,
) -> Vault {
    if deposit_result(v, auth, dest_class, root, data_hash, creator_hash, nonce, index, custody_ok, mint_ok) is Ok {
        lock_vault(v, root, data_hash, creator_hash, nonce, index)
    } else {
        v
    }
}

/// What a withdraw returns: the number of shares burned from the redeemer
/// on success, the reason for rejection otherwise.  `balance` is the
/// redeemer's balance of the vault's share class; `burn_ok` and
/// `release_ok` are the reported outcomes of the share burn and of the
/// custody transfer that returns the asset to the redeemer.
pub open spec fn withdraw_result(
    v: Vault,
    balance: u64,
    burn_ok: bool,
    release_ok: bool,
) -> Result<u64, ErrorCode> {
    if !v.is_locked {
        Err(ErrorCode::NotLocked)
    } else if balance != v.total_shares {
        Err(ErrorCode::InsufficientShares)
    } else if !burn_ok {
        Err(ErrorCode::ShareOperationFailed)
    } else if !release_ok {
        Err(ErrorCode::CustodyTransferFailed)
    } else {
        Ok(v.total_shares)
    }
}

/// The vault with custody cleared: unlocked, zero fingerprint, every
/// immutable field kept.
pub open spec fn clear_vault(v: Vault) -> Vault {
    Vault {
        is_locked: false,
        merkle_root: vstd::array::spec_array_fill_for_copy_type::<u8, 32>(0u8),
        data_hash: vstd::array::spec_array_fill_for_copy_type::<u8, 32>(0u8),
        creator_hash: vstd::array::spec_array_fill_for_copy_type::<u8, 32>(0u8),
        nonce: 0,
        index: 0,
        ..v
    }
}

/// The vault after a successful or failed withdraw: cleared on success,
/// untouched on any failure.
pub open spec fn withdraw_post(v: Vault, balance: u64, burn_ok: bool, release_ok: bool) -> Vault {
    if withdraw_result(v, balance, burn_ok, release_ok) is Ok {
        clear_vault(v)
    } else {
        v
    }
}

/// Checks the supplied fingerprint against the zero fingerprint.
pub fn fingerprint_args_zero(
    root: &[u8; 32],
    data_hash: &[u8; 32],
    creator_hash: &[u8; 32],
    nonce: u64,
    index: u32,
) -> (r: bool)
    ensures
        r == fingerprint_zero(*root, *data_hash, *creator_hash, nonce, index),
{
    bytes32_is_zero(root) && bytes32_is_zero(data_hash) && bytes32_is_zero(creator_hash)
        && nonce == 0 && index == 0
}

/// Runs a deposit's pre-custody checks and, when they pass, hands back the
/// encoded custody-transfer request the host must send.  The vault is not
/// touched: nothing of a deposit persists before the custody service has
/// reported success.
pub fn deposit_begin(
    vault: &Vault,
    auth: &VaultAuthorityProof,
    dest_class: &[u8; 32],
    root: &[u8; 32],
    data_hash: &[u8; 32],
    creator_hash: &[u8; 32],
    nonce: u64,
    index: u32,
) -> (r: Result<Vec<u8>, ErrorCode>)
    ensures
        match r {
            Ok(data) => {
                &&& deposit_precheck(*vault, *auth, *dest_class, *root, *data_hash, *creator_hash, nonce, index) is Ok
                &&& data@ == spec_transfer_data(root@, data_hash@, creator_hash@, nonce, index)
            },
            Err(e) => Err::<(), ErrorCode>(e) == deposit_precheck(
                *vault, *auth, *dest_class, *root, *data_hash, *creator_hash, nonce, index,
            ),
        },
{
    if !verify_authority(vault, auth) {
        return Err(ErrorCode::AddressDerivationMismatch);
    }
    if vault.is_locked {
        return Err(ErrorCode::AlreadyLocked);
    }
    if !bytes32_eq(dest_class, &vault.share_mint) {
        return Err(ErrorCode::ShareOperationFailed);
    }
    if fingerprint_args_zero(root, data_hash, creator_hash, nonce, index) {
        return Err(ErrorCode::CustodyTransferFailed);
    }
    Ok(encode_transfer_data(root, data_hash, creator_hash, nonce, index))
}

/// Records the fingerprint of an asset the custody service has just
/// accepted and locks the vault around it, handing back the share supply
/// the host must now mint into the destination.  Rejected, with the vault
/// untouched, if the vault is already locked or the fingerprint identifies
/// no asset.
pub fn deposit_commit(
    vault: &mut Vault,
    root: [u8; 32],
    data_hash: [u8; 32],
    creator_hash: [u8; 32],
    nonce: u64,
    index: u32,
) -> (r: Result<u64, ErrorCode>)
    ensures
        match r {
            Ok(amount) => {
                &&& !old(vault).is_locked
                &&& !fingerprint_zero(root, data_hash, creator_hash, nonce, index)
                &&& *final(vault) == lock_vault(*old(vault), root, data_hash, creator_hash, nonce, index)
                &&& amount == old(vault).total_shares
            },
            Err(e) => {
                &&& *final(vault) == *old(vault)
                &&& (old(vault).is_locked ==> e == ErrorCode::AlreadyLocked)
                &&& (!old(vault).is_locked ==> e == ErrorCode::CustodyTransferFailed
                    && fingerprint_zero(root, data_hash, creator_hash, nonce, index))
            },
        },
        old(vault).wf() ==> final(vault).wf(),
{
    if vault.is_locked {
        return Err(ErrorCode::AlreadyLocked);
    }
    if fingerprint_args_zero(&root, &data_hash, &creator_hash, nonce, index) {
        return Err(ErrorCode::CustodyTransferFailed);
    }
    vault.merkle_root = root;
    vault.data_hash = data_hash;
    vault.creator_hash = creator_hash;
    vault.nonce = nonce;
    vault.index = index;
    vault.is_locked = true;
    Ok(vault.total_shares)
}

/// The whole deposit as one atomic unit, with the outcomes of the two
/// external calls given as events: transfers the asset identified by the
/// fingerprint into custody, locks the vault, and mints the full share
/// supply into the destination.  On any failure nothing persists and the
/// error says which step refused.
pub fn deposit_cnft(
    vault: &mut Vault,
    auth: &VaultAuthorityProof,
    dest_class: &[u8; 32],
    root: [u8; 32],
    data_hash: [u8; 32],
    creator_hash: [u8; 32],
    nonce: u64,
    index: u32,
    custody_ok: bool,
    mint_ok: bool,
) -> (r: Result<u64, ErrorCode>)
    ensures
        r == deposit_result(
            *old(vault), *auth, *dest_class, root, data_hash, creator_hash, nonce, index,
            custody_ok, mint_ok,
        ),
        *final(vault) == deposit_post(
            *old(vault), *auth, *dest_class, root, data_hash, creator_hash, nonce, index,
            custody_ok, mint_ok,
        ),
        r is Err ==> *final(vault) == *old(vault),
        r is Ok ==> final(vault).is_locked && r == Ok::<u64, ErrorCode>(old(vault).total_shares),
        old(vault).wf() ==> final(vault).wf(),
{
    if !verify_authority(vault, auth) {
        return Err(ErrorCode::AddressDerivationMismatch);
    }
    if vault.is_locked {
        return Err(ErrorCode::AlreadyLocked);
    }
    if !bytes32_eq(dest_class, &vault.share_mint) {
        return Err(ErrorCode::ShareOperationFailed);
    }
    if fingerprint_args_zero(&root, &data_hash, &creator_hash, nonce, index) || !custody_ok {
        return Err(ErrorCode::CustodyTransferFailed);
    }
    if !mint_ok {
        return Err(ErrorCode::ShareOperationFailed);
    }
    vault.merkle_root = root;
    vault.data_hash = data_hash;
    vault.creator_hash = creator_hash;
    vault.nonce = nonce;
    vault.index = index;
    vault.is_locked = true;
    Ok(vault.total_shares)
}

/// Runs a withdraw's checks and, when they pass, hands back the share
/// supply the host must burn from the redeemer together with the encoded
/// custody-transfer request that returns the asset.  The vault is not
/// touched.
pub fn withdraw_begin(vault: &Vault, balance: u64) -> (r: Result<(u64, Vec<u8>), ErrorCode>)
    ensures
        match r {
            Ok(action) => {
                &&& vault.is_locked
                &&& balance == vault.total_shares
                &&& action.0 == vault.total_shares
                &&& action.1@ == spec_transfer_data(
                    vault.merkle_root@, vault.data_hash@, vault.creator_hash@, vault.nonce,
                    vault.index,
                )
            },
            Err(e) => {
                &&& (!vault.is_locked ==> e == ErrorCode::NotLocked)
                &&& (vault.is_locked ==> e == ErrorCode::InsufficientShares
                    && balance != vault.total_shares)
            },
        },
{
    if !vault.is_locked {
        return Err(ErrorCode::NotLocked);
    }
    if balance != vault.total_shares {
        return Err(ErrorCode::InsufficientShares);
    }
    let data = encode_transfer_data(
        &vault.merkle_root,
        &vault.data_hash,
        &vault.creator_hash,
        vault.nonce,
        vault.index,
    );
    Ok((vault.total_shares, data))
}

/// Clears custody after the share burn and the custody release have
/// succeeded: zero fingerprint, vault unlocked, every immutable field kept.
/// Rejected, with the vault untouched, if no asset is in custody.
pub fn withdraw_commit(vault: &mut Vault) -> (r: Result<(), ErrorCode>)
    ensures
        match r {
            Ok(()) => old(vault).is_locked && *final(vault) == clear_vault(*old(vault)),
            Err(e) => {
                &&& *final(vault) == *old(vault)
                &&& e == ErrorCode::NotLocked
                &&& !old(vault).is_locked
            },
        },
        old(vault).wf() ==> final(vault).wf(),
{
    if !vault.is_locked {
        return Err(ErrorCode::NotLocked);
    }
    vault.is_locked = false;
    vault.merkle_root = [0u8; 32];
    vault.data_hash = [0u8; 32];
    vault.creator_hash = [0u8; 32];
    vault.nonce = 0;
    vault.index = 0;
    Ok(())
}

/// The whole withdraw as one atomic unit, with the outcomes of the two
/// external calls given as events: burns the full share supply held by the
/// redeemer, returns the custodied asset to the redeemer, and clears the
/// vault.  On any failure nothing persists and the error says which step
/// refused.
pub fn withdraw_cnft(
    vault: &mut Vault,
    balance: u64,
    burn_ok: bool,
    release_ok: bool,
) -> (r: Result<u64, ErrorCode>)
    ensures
        r == withdraw_result(*old(vault), balance, burn_ok, release_ok),
        *final(vault) == withdraw_post(*old(vault), balance, burn_ok, release_ok),
        r is Err ==> *final(vault) == *old(vault),
        r is Ok ==> !final(vault).is_locked && final(vault).fingerprint_is_zero() && r == Ok::<
            u64,
            ErrorCode,
        >(old(vault).total_shares),
        old(vault).wf() ==> final(vault).wf(),
{
    if !vault.is_locked {
        return Err(ErrorCode::NotLocked);
    }
    if balance != vault.total_shares {
        return Err(ErrorCode::InsufficientShares);
    }
    if !burn_ok {
        return Err(ErrorCode::ShareOperationFailed);
    }
    if !release_ok {
        return Err(ErrorCode::CustodyTransferFailed);
    }
    vault.is_locked = false;
    vault.merkle_root = [0u8; 32];
    vault.data_hash = [0u8; 32];
    vault.creator_hash = [0u8; 32];
    vault.nonce = 0;
    vault.index = 0;
    Ok(vault.total_shares)
}

} // verus!
