//! Byte layouts handed to the host runtime: the custody-transfer request
//! and the vault's address-derivation seeds.

use vstd::bytes::*;
use vstd::prelude::*;

verus! {

/// Operation tag selecting the custody service's transfer operation.
pub const TRANSFER_DISCRIMINATOR: u8 = 6;

/// The custody-transfer request layout: the transfer tag, the three 32-byte
/// proof hashes, then the leaf nonce and leaf index in little-endian form.
pub open spec fn spec_transfer_data(
    root: Seq<u8>,
    data_hash: Seq<u8>,
    creator_hash: Seq<u8>,
    nonce: u64,
    index: u32,
) -> Seq<u8> {
    seq![TRANSFER_DISCRIMINATOR] + root + data_hash + creator_hash + spec_u64_to_le_bytes(nonce)
        + spec_u32_to_le_bytes(index)
}

/// The ASCII bytes of the namespace tag `vault` that begins every vault
/// address derivation.
pub open spec fn spec_vault_seed_tag() -> Seq<u8> {
    seq![118u8, 97u8, 117u8, 108u8, 116u8]
}

/// Appends every byte of `b` to `out`.
pub fn push_bytes(out: &mut Vec<u8>, b: &[u8])
    ensures
        final(out)@ == old(out)@ + b@,
{
    let mut i: usize = 0;
    while i < b.len()
        invariant
            i <= b@.len(),
            out@ == old(out)@ + b@.subrange(0, i as int),
        decreases b@.len() - i,
    {
        out.push(b[i]);
        assert(b@.subrange(0, i as int).push(b@[i as int]) =~= b@.subrange(0, i + 1));
        i += 1;
    }
    assert(old(out)@ + b@.subrange(0, i as int) =~= old(out)@ + b@);
}

/// Encodes the custody-transfer request for the asset identified by the
/// given proof-of-state fingerprint.
pub fn encode_transfer_data(
    root: &[u8; 32],
    data_hash: &[u8; 32],
    creator_hash: &[u8; 32],
    nonce: u64,
    index: u32,
) -> (data: Vec<u8>)
    ensures
        data@ == spec_transfer_data(root@, data_hash@, creator_hash@, nonce, index),
        data@.len() == 109,
{
    let mut data: Vec<u8> = Vec::new();
    data.push(TRANSFER_DISCRIMINATOR);
    push_bytes(&mut data, root.as_slice());
    push_bytes(&mut data, data_hash.as_slice());
    push_bytes(&mut data, creator_hash.as_slice());
    let nonce_bytes = u64_to_le_bytes(nonce);
    push_bytes(&mut data, nonce_bytes.as_slice());
    let index_bytes = u32_to_le_bytes(index);
    push_bytes(&mut data, index_bytes.as_slice());
    assert(data@ =~= spec_transfer_data(root@, data_hash@, creator_hash@, nonce, index));
    data
}

/// Produces the vault's address-derivation seeds, in order: the namespace
/// tag, the owner's key, the salt in little-endian form, and the derivation
/// bump.  Signing on the vault's behalf presents exactly these parts.
pub fn vault_seed_parts(owner: &[u8; 32], unique_id: u64, bump: u8) -> (parts: Vec<Vec<u8>>)
    ensures
        parts@.len() == 4,
        parts@[0]@ == spec_vault_seed_tag(),
        parts@[1]@ == owner@,
        parts@[2]@ == spec_u64_to_le_bytes(unique_id),
        parts@[3]@ == seq![bump],
{
    let mut tag: Vec<u8> = Vec::new();
    tag.push(118);
    tag.push(97);
    tag.push(117);
    tag.push(108);
    tag.push(116);
    assert(tag@ =~= spec_vault_seed_tag());

    let mut owner_part: Vec<u8> = Vec::new();
    push_bytes(&mut owner_part, owner.as_slice());
    assert(owner_part@ =~= owner@);

    let id_part = u64_to_le_bytes(unique_id);

    let mut bump_part: Vec<u8> = Vec::new();
    bump_part.push(bump);
    assert(bump_part@ =~= seq![bump]);

    let mut parts: Vec<Vec<u8>> = Vec::new();
    parts.push(tag);
    parts.push(owner_part);
    parts.push(id_part);
    parts.push(bump_part);
    parts
}

} // verus!
