//! The vault protocol as a transition system, and the laws that hold of
//! every run of it: lock exclusivity, fingerprint consistency, share
//! conservation, atomic failure, repeated-deposit rejection, and the
//! deposit/withdraw round trip.

use crate::operations::{deposit_post, deposit_result, withdraw_post, withdraw_result, ErrorCode};
use crate::vault::{Vault, VaultAuthorityProof};
use vstd::prelude::*;

verus! {

/// One request against a vault, together with the outcomes the external
/// custody and share services reported while serving it.
pub enum VaultOp {
    Deposit {
        auth: VaultAuthorityProof,
        dest_class: [u8; 32],
        root: [u8; 32],
        data_hash: [u8; 32],
        creator_hash: [u8; 32],
        nonce: u64,
        index: u32,
        custody_ok: bool,
        mint_ok: bool,
    },
    Withdraw { balance: u64, burn_ok: bool, release_ok: bool },
}

/// What the operation returns when applied to `v`.
pub open spec fn op_result(v: Vault, op: VaultOp) -> Result<u64, ErrorCode> {
    match op {
        VaultOp::Deposit {
            auth,
            dest_class,
            root,
            data_hash,
            creator_hash,
            nonce,
            index,
            custody_ok,
            mint_ok,
        } => deposit_result(
            v, auth, dest_class, root, data_hash, creator_hash, nonce, index, custody_ok, mint_ok,
        ),
        VaultOp::Withdraw { balance, burn_ok, release_ok } => withdraw_result(
            v, balance, burn_ok, release_ok,
        ),
    }
}

/// The vault after the operation is applied to `v`.
pub open spec fn op_post(v: Vault, op: VaultOp) -> Vault {
    match op {
        VaultOp::Deposit {
            auth,
            dest_class,
            root,
            data_hash,
            creator_hash,
            nonce,
            index,
            custody_ok,
            mint_ok,
        } => deposit_post(
            v, auth, dest_class, root, data_hash, creator_hash, nonce, index, custody_ok, mint_ok,
        ),
        VaultOp::Withdraw { balance, burn_ok, release_ok } => withdraw_post(
            v, balance, burn_ok, release_ok,
        ),
    }
}

/// The observable world of one vault: the record itself together with the
/// outstanding supply of its share class, which lives in the external share
/// service's ledger and moves only on the vault's instruction.
pub struct VaultWorld {
    pub vault: Vault,
    pub supply: u64,
}

/// The world after the operation: a successful deposit mints the full share
/// supply, a successful withdraw burns it, and nothing else moves it.
pub open spec fn world_post(w: VaultWorld, op: VaultOp) -> VaultWorld {
    let supply = if op_result(w.vault, op) is Ok {
        match op {
            VaultOp::Deposit { .. } => (w.supply + w.vault.total_shares) as u64,
            VaultOp::Withdraw { .. } => (w.supply - w.vault.total_shares) as u64,
        }
    } else {
        w.supply
    };
    VaultWorld { vault: op_post(w.vault, op), supply }
}

/// The world invariant: the record is well formed — locked exactly when a
/// non-zero fingerprint is recorded — and the outstanding supply is the
/// full share supply while locked and zero while empty, never anything
/// between.
pub open spec fn world_inv(w: VaultWorld) -> bool {
    &&& w.vault.wf()
    &&& w.supply == w.vault.expected_supply()
}

/// Lock exclusivity: a deposit succeeds only from an unlocked vault, a
/// withdraw only from a locked one.
pub proof fn lemma_lock_exclusivity(v: Vault, op: VaultOp)
    ensures
        op is Deposit && op_result(v, op) is Ok ==> !v.is_locked,
        op is Withdraw && op_result(v, op) is Ok ==> v.is_locked,
{
}

/// Atomic failure: an operation that returns an error leaves the vault —
/// its lock and its recorded fingerprint included — exactly as it was.
pub proof fn lemma_atomic_failure(v: Vault, op: VaultOp)
    ensures
        op_result(v, op) is Err ==> op_post(v, op) == v,
{
}

/// Fingerprint consistency and share conservation: every operation carries
/// the world invariant forward.
pub proof fn lemma_step_preserves_inv(w: VaultWorld, op: VaultOp)
    requires
        world_inv(w),
    ensures
        world_inv(world_post(w, op)),
{
}

/// The world after a whole sequence of operations, applied in order.
pub open spec fn world_post_seq(w: VaultWorld, ops: Seq<VaultOp>) -> VaultWorld
    decreases ops.len(),
{
    if ops.len() == 0 {
        w
    } else {
        world_post_seq(world_post(w, ops[0]), ops.drop_first())
    }
}

/// The world invariant holds at every observation point: whatever sequence
/// of operations runs against a well-formed world, the record stays well
/// formed and the outstanding supply stays zero-or-everything.
pub proof fn lemma_inv_reachable(w: VaultWorld, ops: Seq<VaultOp>)
    requires
        world_inv(w),
    ensures
        world_inv(world_post_seq(w, ops)),
    decreases ops.len(),
{
    if ops.len() > 0 {
        lemma_step_preserves_inv(w, ops[0]);
        lemma_inv_reachable(world_post(w, ops[0]), ops.drop_first());
    }
}

/// Repeated-deposit rejection: once a deposit has succeeded, a second
/// deposit by the rightful caller is rejected as `AlreadyLocked` and
/// changes nothing, whatever fingerprint or outcomes it carries.
pub proof fn lemma_deposit_idempotent_rejection(v: Vault, first: VaultOp, second: VaultOp)
    requires
        first is Deposit,
        op_result(v, first) is Ok,
        second matches VaultOp::Deposit { auth, .. } && auth.matches(op_post(v, first)),
    ensures
        op_result(op_post(v, first), second) == Err::<u64, ErrorCode>(ErrorCode::AlreadyLocked),
        op_post(op_post(v, first), second) == op_post(v, first),
{
}

/// Round trip: from a well-formed empty world, a successful deposit leaves
/// the full share supply outstanding, and a withdraw that returns it all,
/// with both external calls succeeding, burns every share, releases the
/// asset, and hands the vault back empty with its identity, share class,
/// supply and derivation unchanged.
pub proof fn lemma_round_trip(w: VaultWorld, dep: VaultOp, wd: VaultOp)
    requires
        world_inv(w),
        !w.vault.is_locked,
        dep is Deposit,
        op_result(w.vault, dep) is Ok,
        wd matches VaultOp::Withdraw { balance, burn_ok, release_ok } && balance
            == w.vault.total_shares && burn_ok && release_ok,
    ensures
        world_post(w, dep).supply == w.vault.total_shares,
        op_result(world_post(w, dep).vault, wd) == Ok::<u64, ErrorCode>(w.vault.total_shares),
        world_post(world_post(w, dep), wd).supply == 0,
        ({
            let back = world_post(world_post(w, dep), wd).vault;
            &&& !back.is_locked
            &&& back.fingerprint_is_zero()
            &&& back.owner@ == w.vault.owner@
            &&& back.share_mint@ == w.vault.share_mint@
            &&& back.total_shares == w.vault.total_shares
            &&& back.bump == w.vault.bump
            &&& back.unique_id == w.vault.unique_id
            &&& back.wf()
        }),
{
}

} // verus!
