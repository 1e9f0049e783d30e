//! The vault record, its well-formedness invariants, and vault creation.

use vstd::prelude::*;

verus! {

/// True iff every byte of the sequence is zero.
pub open spec fn all_zero(s: Seq<u8>) -> bool {
    forall|i: int| 0 <= i < s.len() ==> s[i] == 0
}

/// A persistent vault record.
///
/// Identities (the owner and the share-token class) are carried as their raw
/// 32-byte key material; the custodied asset is identified by its
/// proof-of-state fingerprint (`merkle_root`, `data_hash`, `creator_hash`,
/// `nonce`, `index`), which is all-zero exactly while no asset is in custody.
#[derive(Clone, Copy, Debug, PartialEq, Eq)]
pub struct Vault {
    /// Identity of the account that created the vault.  Immutable.
    pub owner: [u8; 32],
    /// Identity of the fungible share class minted by this vault.  Immutable.
    pub share_mint: [u8; 32],
    /// Fixed positive share supply, set at creation.  Immutable.
    pub total_shares: u64,
    /// True iff an asset is currently in custody.
    pub is_locked: bool,
    /// Merkle root of the custodied asset's state proof.
    pub merkle_root: [u8; 32],
    /// Hash of the custodied asset's data.
    pub data_hash: [u8; 32],
    /// Hash of the custodied asset's creator list.
    pub creator_hash: [u8; 32],
    /// Leaf nonce of the custodied asset.
    pub nonce: u64,
    /// Leaf index of the custodied asset.
    pub index: u32,
    /// Byte completing the vault's deterministic-address derivation.  Immutable.
    pub bump: u8,
    /// Caller-chosen salt distinguishing vaults of one owner.  Immutable.
    pub unique_id: u64,
}

impl Vault {
    /// True iff the recorded asset fingerprint is the zero fingerprint.
    pub open spec fn fingerprint_is_zero(self) -> bool {
        &&& all_zero(self.merkle_root@)
        &&& all_zero(self.data_hash@)
        &&& all_zero(self.creator_hash@)
        &&& self.nonce == 0
        &&& self.index == 0
    }

    /// Well-formedness: the supply is positive, and the vault is locked
    /// exactly when a (necessarily non-zero) fingerprint is recorded.
    pub open spec fn wf(self) -> bool {
        &&& self.total_shares >= 1
        &&& self.is_locked <==> !self.fingerprint_is_zero()
    }

    /// The share supply that may be outstanding for this vault's share
    /// class: the full supply while locked, none while empty.
    pub open spec fn expected_supply(self) -> u64 {
        if self.is_locked {
            self.total_shares
        } else {
            0
        }
    }
}

/// The material with which a caller proves it addresses the right vault:
/// the vault's deterministic address is a function of `(owner, unique_id)`,
/// completed by `bump`.
#[derive(Clone, Copy, Debug)]
pub struct VaultAuthorityProof {
    pub owner: [u8; 32],
    pub unique_id: u64,
    pub bump: u8,
}

impl VaultAuthorityProof {
    /// True iff the proof matches the vault's recorded derivation.
    pub open spec fn matches(self, v: Vault) -> bool {
        &&& self.owner@ == v.owner@
        &&& self.unique_id == v.unique_id
        &&& self.bump == v.bump
    }
}

/// Compares two 32-byte keys for equality.
pub fn bytes32_eq(a: &[u8; 32], b: &[u8; 32]) -> (r: bool)
    ensures
        r <==> a@ == b@,
{
    let mut i: usize = 0;
    while i < 32
        invariant
            i <= 32,
            forall|j: int| 0 <= j < i ==> a@[j] == b@[j],
        decreases 32 - i,
    {
        if a[i] != b[i] {
            assert(a@ !~= b@);
            return false;
        }
        i += 1;
    }
    assert(a@ =~= b@);
    true
}

/// True iff every byte of the key is zero.
pub fn bytes32_is_zero(a: &[u8; 32]) -> (r: bool)
    ensures
        r == all_zero(a@),
{
    let mut i: usize = 0;
    while i < 32
        invariant
            i <= 32,
            forall|j: int| 0 <= j < i ==> a@[j] == 0,
        decreases 32 - i,
    {
        if a[i] != 0 {
            return false;
        }
        i += 1;
    }
    true
}

/// Checks that a caller-supplied authority proof matches the vault's
/// recorded address derivation.
pub fn verify_authority(vault: &Vault, auth: &VaultAuthorityProof) -> (r: bool)
    ensures
        r == auth.matches(*vault),
{
    bytes32_eq(&auth.owner, &vault.owner) && auth.unique_id == vault.unique_id
        && auth.bump == vault.bump
}

/// Creates a new vault record in the empty (unlocked) state.
///
/// `num_shares` is the fixed share supply the vault will mint on deposit;
/// the caller must have allocated `share_mint` as a fresh share class whose
/// sole mint authority is the vault's derived identity.
pub fn initialize_vault(
    owner: [u8; 32],
    share_mint: [u8; 32],
    bump: u8,
    num_shares: u64,
    unique_id: u64,
) -> (v: Vault)
    requires
        num_shares >= 1,
    ensures
        v.owner@ == owner@,
        v.share_mint@ == share_mint@,
        v.total_shares == num_shares,
        !v.is_locked,
        v.fingerprint_is_zero(),
        v.bump == bump,
        v.unique_id == unique_id,
        v.wf(),
        v.expected_supply() == 0,
{
    Vault {
        owner,
        share_mint,
        total_shares: num_shares,
        is_locked: false,
        merkle_root: [0u8; 32],
        data_hash: [0u8; 32],
        creator_hash: [0u8; 32],
        nonce: 0,
        index: 0,
        bump,
        unique_id,
    }
}

} // verus!
