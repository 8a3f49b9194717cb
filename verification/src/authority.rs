//! Deterministic derivation of program-owned storage keys and of the
//! program's delegated signing identity, from fixed seeds and the program's
//! own identifier. Derivation is pure: the same inputs always name the same
//! key, so operations can locate records without storing cross-references.

use vstd::prelude::*;
use vstd::string::StringSliceAdditionalSpecFns;
use crate::keys::Key;

verus! {

/// Seed of the global configuration singleton's storage key.
pub open spec fn spec_global_state_seed() -> Seq<u8> {
    "GLOBAL_STATE_SEED1".spec_bytes()
}

/// Seed of a participant record's storage key.
pub open spec fn spec_user_state_seed() -> Seq<u8> {
    "USER_STATE_SEED1".spec_bytes()
}

/// Seed of a metadata placeholder's storage key.
pub open spec fn spec_ipfs_metadata_seed() -> Seq<u8> {
    "IPFS_METADATA_SEED".spec_bytes()
}

/// Seed of the program's delegated signing identity.
pub open spec fn spec_nft_creator_seed() -> Seq<u8> {
    "NFT_CREATOR_SEED".spec_bytes()
}

/// Seed of the global configuration singleton's storage key, as bytes.
pub fn global_state_seed() -> (r: Vec<u8>)
    ensures
        r@ == spec_global_state_seed(),
{
    vstd::slice::slice_to_vec("GLOBAL_STATE_SEED1".as_bytes())
}

/// Seed of a participant record's storage key, as bytes.
pub fn user_state_seed() -> (r: Vec<u8>)
    ensures
        r@ == spec_user_state_seed(),
{
    vstd::slice::slice_to_vec("USER_STATE_SEED1".as_bytes())
}

/// Seed of a metadata placeholder's storage key, as bytes.
pub fn ipfs_metadata_seed() -> (r: Vec<u8>)
    ensures
        r@ == spec_ipfs_metadata_seed(),
{
    vstd::slice::slice_to_vec("IPFS_METADATA_SEED".as_bytes())
}

/// Seed of the program's delegated signing identity, as bytes.
pub fn nft_creator_seed() -> (r: Vec<u8>)
    ensures
        r@ == spec_nft_creator_seed(),
{
    vstd::slice::slice_to_vec("NFT_CREATOR_SEED".as_bytes())
}

/// The byte sequences a list of seed buffers holds.
pub open spec fn seeds_view(seeds: Seq<Vec<u8>>) -> Seq<Seq<u8>> {
    seeds.map_values(|s: Vec<u8>| s@)
}

/// The derived address and bump that the given seeds and program identifier
/// name, if any bump yields one. The derivation is a pure function of its
/// arguments alone.
pub uninterp spec fn derived_address(seeds: Seq<Seq<u8>>, program: Seq<u8>) -> Option<(Seq<u8>, u8)>;

/// Relies on Pubkey::try_find_program_address of solana-program: the search
/// for a program-derived address is a pure computation over the seeds and the
/// program identifier, returning None exactly when no bump seed yields a
/// valid off-curve address.
#[verifier::external_body]
fn try_find_derived_address(seeds: &Vec<Vec<u8>>, program: &Key) -> (r: Option<(Key, u8)>)
    ensures
        r is Some <==> derived_address(seeds_view(seeds@), program@) is Some,
        r matches Some(p) ==> (p.0@, p.1) == derived_address(
            seeds_view(seeds@),
            program@,
        )->Some_0,
{
    let ss: Vec<&[u8]> = seeds.iter().map(|v| v.as_slice()).collect();
    let pk = anchor_lang::solana_program::pubkey::Pubkey::new_from_array(program.bytes);
    anchor_lang::solana_program::pubkey::Pubkey::try_find_program_address(&ss, &pk).map(
        |p: (anchor_lang::solana_program::pubkey::Pubkey, u8)|
            (Key { bytes: p.0.to_bytes() }, p.1),
    )
}

/// Storage key of the global configuration singleton under `program_id`.
pub fn global_state_key(program_id: &Key) -> (r: Option<(Key, u8)>)
    ensures
        r is Some <==> derived_address(seq![spec_global_state_seed()], program_id@) is Some,
        r matches Some(p) ==> (p.0@, p.1) == derived_address(
            seq![spec_global_state_seed()],
            program_id@,
        )->Some_0,
{
    let mut seeds: Vec<Vec<u8>> = Vec::new();
    seeds.push(global_state_seed());
    proof {
        assert(seeds_view(seeds@) =~= seq![spec_global_state_seed()]);
    }
    try_find_derived_address(&seeds, program_id)
}

/// Storage key of `user`'s participant record under `program_id`.
pub fn user_state_key(program_id: &Key, user: &Key) -> (r: Option<(Key, u8)>)
    ensures
        r is Some <==> derived_address(
            seq![spec_user_state_seed(), user@],
            program_id@,
        ) is Some,
        r matches Some(p) ==> (p.0@, p.1) == derived_address(
            seq![spec_user_state_seed(), user@],
            program_id@,
        )->Some_0,
{
    let mut seeds: Vec<Vec<u8>> = Vec::new();
    seeds.push(user_state_seed());
    seeds.push(vstd::slice::slice_to_vec(user.bytes.as_slice()));
    proof {
        assert(seeds_view(seeds@) =~= seq![spec_user_state_seed(), user@]);
    }
    try_find_derived_address(&seeds, program_id)
}

/// Storage key of the placeholder `json_id` names under `program_id`: the
/// identifier enters the derivation as its eight little-endian bytes.
pub fn ipfs_metadata_key(program_id: &Key, json_id: u64) -> (r: Option<(Key, u8)>)
    ensures
        r is Some <==> derived_address(
            seq![spec_ipfs_metadata_seed(), vstd::bytes::spec_u64_to_le_bytes(json_id)],
            program_id@,
        ) is Some,
        r matches Some(p) ==> (p.0@, p.1) == derived_address(
            seq![spec_ipfs_metadata_seed(), vstd::bytes::spec_u64_to_le_bytes(json_id)],
            program_id@,
        )->Some_0,
{
    let mut seeds: Vec<Vec<u8>> = Vec::new();
    seeds.push(ipfs_metadata_seed());
    seeds.push(vstd::bytes::u64_to_le_bytes(json_id));
    proof {
        assert(seeds_view(seeds@) =~= seq![
            spec_ipfs_metadata_seed(),
            vstd::bytes::spec_u64_to_le_bytes(json_id),
        ]);
    }
    try_find_derived_address(&seeds, program_id)
}

/// The program's delegated signing identity under `program_id`, and the bump
/// proving it: the capability the external registry accepts in place of a
/// conventional signature.
pub fn nft_creator_authority(program_id: &Key) -> (r: Option<(Key, u8)>)
    ensures
        r is Some <==> derived_address(seq![spec_nft_creator_seed()], program_id@) is Some,
        r matches Some(p) ==> (p.0@, p.1) == derived_address(
            seq![spec_nft_creator_seed()],
            program_id@,
        )->Some_0,
{
    let mut seeds: Vec<Vec<u8>> = Vec::new();
    seeds.push(nft_creator_seed());
    proof {
        assert(seeds_view(seeds@) =~= seq![spec_nft_creator_seed()]);
    }
    try_find_derived_address(&seeds, program_id)
}

} // verus!
