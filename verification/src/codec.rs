//! The packed wire layout of the three persisted records: fixed-width
//! little-endian integers, no implicit padding, the URI buffer at its full
//! fixed capacity. Decoding recovers every field exactly, so no two distinct
//! records share an encoding and nothing is silently corrupted in storage.

use vstd::prelude::*;
use vstd::bytes::{
    lemma_auto_spec_u32_to_from_le_bytes, lemma_auto_spec_u64_to_from_le_bytes,
    spec_u32_from_le_bytes, spec_u32_to_le_bytes, spec_u64_from_le_bytes, spec_u64_to_le_bytes,
    u32_from_le_bytes, u32_to_le_bytes, u64_from_le_bytes, u64_to_le_bytes,
};
use vstd::slice::{slice_subrange, slice_to_vec};
use crate::keys::Key;
use crate::records::{GlobalState, IpfsMetadataState, UserState};

verus! {

/// Packed size of the global configuration record.
pub const GLOBAL_STATE_LEN: usize = 69;

/// Packed size of a participant record.
pub const USER_STATE_LEN: usize = 33;

/// Packed size of a metadata placeholder record.
pub const IPFS_METADATA_LEN: usize = 109;

/// The packed bytes of the global configuration: the 32-byte admin key, three
/// 4-byte counters, two (4-byte limit, 8-byte price) tier pairs and the
/// 1-byte tier selector.
pub open spec fn spec_encode_global(g: GlobalState) -> Seq<u8> {
    g.admin@ + spec_u32_to_le_bytes(g.user_count) + spec_u32_to_le_bytes(g.total_nft_count)
        + spec_u32_to_le_bytes(g.minted_nft_count) + spec_u32_to_le_bytes(g.og_limit)
        + spec_u64_to_le_bytes(g.og_price) + spec_u32_to_le_bytes(g.wl_limit)
        + spec_u64_to_le_bytes(g.wl_price) + seq![g.cur_wl_type]
}

/// The packed bytes of a participant record: the 32-byte participant key and
/// the 1-byte tier.
pub open spec fn spec_encode_user(u: UserState) -> Seq<u8> {
    u.user@ + seq![u.wl_type]
}

/// The packed bytes of a metadata placeholder: the 8-byte identifier, the
/// 1-byte consumed flag, and the 100-byte URI buffer.
pub open spec fn spec_encode_ipfs(m: IpfsMetadataState) -> Seq<u8> {
    spec_u64_to_le_bytes(m.json_id) + seq![
        if m.is_minted {
            1u8
        } else {
            0u8
        },
    ] + m.json_link@
}

/// Packs the global configuration into its fixed 69-byte layout.
pub fn encode_global(g: &GlobalState) -> (r: Vec<u8>)
    ensures
        r@ == spec_encode_global(*g),
        r@.len() == GLOBAL_STATE_LEN,
{
    proof {
        lemma_auto_spec_u32_to_from_le_bytes();
        lemma_auto_spec_u64_to_from_le_bytes();
    }
    let mut r: Vec<u8> = slice_to_vec(g.admin.bytes.as_slice());
    let mut t = u32_to_le_bytes(g.user_count);
    r.append(&mut t);
    let mut t = u32_to_le_bytes(g.total_nft_count);
    r.append(&mut t);
    let mut t = u32_to_le_bytes(g.minted_nft_count);
    r.append(&mut t);
    let mut t = u32_to_le_bytes(g.og_limit);
    r.append(&mut t);
    let mut t = u64_to_le_bytes(g.og_price);
    r.append(&mut t);
    let mut t = u32_to_le_bytes(g.wl_limit);
    r.append(&mut t);
    let mut t = u64_to_le_bytes(g.wl_price);
    r.append(&mut t);
    r.push(g.cur_wl_type);
    proof {
        assert(r@ =~= spec_encode_global(*g));
    }
    r
}

/// Packs a participant record into its fixed 33-byte layout.
pub fn encode_user(u: &UserState) -> (r: Vec<u8>)
    ensures
        r@ == spec_encode_user(*u),
        r@.len() == USER_STATE_LEN,
{
    let mut r: Vec<u8> = slice_to_vec(u.user.bytes.as_slice());
    r.push(u.wl_type);
    proof {
        assert(r@ =~= spec_encode_user(*u));
    }
    r
}

/// Packs a metadata placeholder into its fixed 109-byte layout.
pub fn encode_ipfs(m: &IpfsMetadataState) -> (r: Vec<u8>)
    requires
        m@.wf(),
    ensures
        r@ == spec_encode_ipfs(*m),
        r@.len() == IPFS_METADATA_LEN,
{
    proof {
        lemma_auto_spec_u64_to_from_le_bytes();
    }
    let mut r: Vec<u8> = u64_to_le_bytes(m.json_id);
    r.push(if m.is_minted { 1u8 } else { 0u8 });
    let mut link = slice_to_vec(m.json_link.as_slice());
    r.append(&mut link);
    proof {
        assert(r@ =~= spec_encode_ipfs(*m));
    }
    r
}

/// Unpacks a global configuration: exactly the 69-byte layout is accepted,
/// and every field is recovered from its own segment.
pub fn decode_global(b: &[u8]) -> (r: Option<GlobalState>)
    ensures
        r is Some <==> b@.len() == GLOBAL_STATE_LEN,
        r matches Some(g) ==> {
            &&& g.admin@ == b@.subrange(0, 32)
            &&& g.user_count == spec_u32_from_le_bytes(b@.subrange(32, 36))
            &&& g.total_nft_count == spec_u32_from_le_bytes(b@.subrange(36, 40))
            &&& g.minted_nft_count == spec_u32_from_le_bytes(b@.subrange(40, 44))
            &&& g.og_limit == spec_u32_from_le_bytes(b@.subrange(44, 48))
            &&& g.og_price == spec_u64_from_le_bytes(b@.subrange(48, 56))
            &&& g.wl_limit == spec_u32_from_le_bytes(b@.subrange(56, 60))
            &&& g.wl_price == spec_u64_from_le_bytes(b@.subrange(60, 68))
            &&& g.cur_wl_type == b@[68]
        },
{
    if b.len() != GLOBAL_STATE_LEN {
        return None;
    }
    Some(
        GlobalState {
            admin: Key::key_from_slice(slice_subrange(b, 0, 32)),
            user_count: u32_from_le_bytes(slice_subrange(b, 32, 36)),
            total_nft_count: u32_from_le_bytes(slice_subrange(b, 36, 40)),
            minted_nft_count: u32_from_le_bytes(slice_subrange(b, 40, 44)),
            og_limit: u32_from_le_bytes(slice_subrange(b, 44, 48)),
            og_price: u64_from_le_bytes(slice_subrange(b, 48, 56)),
            wl_limit: u32_from_le_bytes(slice_subrange(b, 56, 60)),
            wl_price: u64_from_le_bytes(slice_subrange(b, 60, 68)),
            cur_wl_type: b[68],
        },
    )
}

/// Unpacks a participant record: exactly the 33-byte layout is accepted.
pub fn decode_user(b: &[u8]) -> (r: Option<UserState>)
    ensures
        r is Some <==> b@.len() == USER_STATE_LEN,
        r matches Some(u) ==> u.user@ == b@.subrange(0, 32) && u.wl_type == b@[32],
{
    if b.len() != USER_STATE_LEN {
        return None;
    }
    Some(UserState { user: Key::key_from_slice(slice_subrange(b, 0, 32)), wl_type: b[32] })
}

/// Unpacks a metadata placeholder: exactly the 109-byte layout is accepted,
/// with a strict consumed flag — any byte other than 0 or 1 is refused rather
/// than reinterpreted.
pub fn decode_ipfs(b: &[u8]) -> (r: Option<IpfsMetadataState>)
    ensures
        r is Some <==> b@.len() == IPFS_METADATA_LEN && (b@[8] == 0 || b@[8] == 1),
        r matches Some(m) ==> {
            &&& m.json_id == spec_u64_from_le_bytes(b@.subrange(0, 8))
            &&& m.is_minted == (b@[8] == 1)
            &&& m.json_link@ == b@.subrange(9, IPFS_METADATA_LEN as int)
            &&& m@.wf()
        },
{
    if b.len() != IPFS_METADATA_LEN {
        return None;
    }
    let flag = b[8];
    if flag != 0 && flag != 1 {
        return None;
    }
    let link = slice_to_vec(slice_subrange(b, 9, IPFS_METADATA_LEN));
    Some(
        IpfsMetadataState {
            json_id: u64_from_le_bytes(slice_subrange(b, 0, 8)),
            is_minted: flag == 1,
            json_link: link,
        },
    )
}

/// Encoding a global configuration and reading the segments back recovers
/// every field: the layout loses nothing, and no two distinct configurations
/// share an encoding.
pub proof fn lemma_global_encoding_exact(g: GlobalState)
    ensures
        spec_encode_global(g).len() == GLOBAL_STATE_LEN,
        spec_encode_global(g).subrange(0, 32) == g.admin@,
        spec_u32_from_le_bytes(spec_encode_global(g).subrange(32, 36)) == g.user_count,
        spec_u32_from_le_bytes(spec_encode_global(g).subrange(36, 40)) == g.total_nft_count,
        spec_u32_from_le_bytes(spec_encode_global(g).subrange(40, 44)) == g.minted_nft_count,
        spec_u32_from_le_bytes(spec_encode_global(g).subrange(44, 48)) == g.og_limit,
        spec_u64_from_le_bytes(spec_encode_global(g).subrange(48, 56)) == g.og_price,
        spec_u32_from_le_bytes(spec_encode_global(g).subrange(56, 60)) == g.wl_limit,
        spec_u64_from_le_bytes(spec_encode_global(g).subrange(60, 68)) == g.wl_price,
        spec_encode_global(g)[68] == g.cur_wl_type,
{
    lemma_auto_spec_u32_to_from_le_bytes();
    lemma_auto_spec_u64_to_from_le_bytes();
    let e = spec_encode_global(g);
    assert(e.subrange(0, 32) =~= g.admin@);
    assert(e.subrange(32, 36) =~= spec_u32_to_le_bytes(g.user_count));
    assert(e.subrange(36, 40) =~= spec_u32_to_le_bytes(g.total_nft_count));
    assert(e.subrange(40, 44) =~= spec_u32_to_le_bytes(g.minted_nft_count));
    assert(e.subrange(44, 48) =~= spec_u32_to_le_bytes(g.og_limit));
    assert(e.subrange(48, 56) =~= spec_u64_to_le_bytes(g.og_price));
    assert(e.subrange(56, 60) =~= spec_u32_to_le_bytes(g.wl_limit));
    assert(e.subrange(60, 68) =~= spec_u64_to_le_bytes(g.wl_price));
}

/// Encoding a participant record and reading the segments back recovers both
/// fields.
pub proof fn lemma_user_encoding_exact(u: UserState)
    ensures
        spec_encode_user(u).len() == USER_STATE_LEN,
        spec_encode_user(u).subrange(0, 32) == u.user@,
        spec_encode_user(u)[32] == u.wl_type,
{
    assert(spec_encode_user(u).subrange(0, 32) =~= u.user@);
}

/// Encoding a well-formed placeholder and reading the segments back recovers
/// every field, the consumed flag strictly as 0 or 1.
pub proof fn lemma_ipfs_encoding_exact(m: IpfsMetadataState)
    requires
        m@.wf(),
    ensures
        spec_encode_ipfs(m).len() == IPFS_METADATA_LEN,
        spec_u64_from_le_bytes(spec_encode_ipfs(m).subrange(0, 8)) == m.json_id,
        spec_encode_ipfs(m)[8] == if m.is_minted {
            1u8
        } else {
            0u8
        },
        spec_encode_ipfs(m).subrange(9, IPFS_METADATA_LEN as int) == m.json_link@,
{
    lemma_auto_spec_u64_to_from_le_bytes();
    let e = spec_encode_ipfs(m);
    assert(e.subrange(0, 8) =~= spec_u64_to_le_bytes(m.json_id));
    assert(e.subrange(9, IPFS_METADATA_LEN as int) =~= m.json_link@);
}

} // verus!
