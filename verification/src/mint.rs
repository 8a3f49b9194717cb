//! The composite mint operation's first half: validating the request against
//! the persisted state and building the three instructions the external
//! collaborators execute — one token-unit mint, one descriptive-metadata
//! record creation, one master-record creation — under the program's derived
//! delegated authority. The second half, committing the state change once the
//! external calls succeeded, is `Ledger::mint_nft_commit`.

use vstd::prelude::*;
use anchor_lang::solana_program::instruction::Instruction;
use anchor_lang::solana_program::program_error::ProgramError;
use anchor_lang::solana_program::pubkey::Pubkey;
use mpl_token_metadata::instructions::{
    CreateMasterEditionV3, CreateMasterEditionV3InstructionArgs, CreateMetadataAccountV3,
    CreateMetadataAccountV3InstructionArgs,
};
use mpl_token_metadata::types::{Creator, DataV2};
use crate::authority::{derived_address, nft_creator_authority, spec_nft_creator_seed};
use crate::errors::{CallOrigin, NftMintError};
use crate::keys::Key;
use crate::ledger::Ledger;
use crate::model::{meta_idx, StateModel};

verus! {

#[verifier::external_type_specification]
#[verifier::external_body]
pub struct ExInstruction(Instruction);

#[verifier::external_type_specification]
#[verifier::external_body]
pub struct ExProgramError(ProgramError);

/// The identities a mint names: the submitting participant (`mint_owner`,
/// also the minting authority via `payer`), the token-unit identity (`mint`),
/// the registry records to create (`metadata`, `acc_master`), the destination
/// token account (`acc_token`) and the maker credited as verified creator.
#[derive(Clone, Copy, Debug)]
pub struct MintNft {
    pub mint_owner: Key,
    pub mint: Key,
    pub metadata: Key,
    pub acc_token: Key,
    pub payer: Key,
    pub acc_master: Key,
    pub maker: Key,
}

/// One entry of a unit's creator list.
#[derive(Clone, Copy, Debug)]
pub struct CreatorShare {
    pub address: Key,
    pub verified: bool,
    pub share: u8,
}

/// The creator list every minted unit carries: exactly the maker, verified
/// with the whole share, and the mint owner, unverified with none.
pub fn mint_creators(maker: &Key, mint_owner: &Key) -> (r: Vec<CreatorShare>)
    ensures
        r@.len() == 2,
        r@[0].address@ == maker@ && r@[0].verified && r@[0].share == 100,
        r@[1].address@ == mint_owner@ && !r@[1].verified && r@[1].share == 0,
{
    let mut r: Vec<CreatorShare> = Vec::new();
    r.push(CreatorShare { address: *maker, verified: true, share: 100 });
    r.push(CreatorShare { address: *mint_owner, verified: false, share: 0 });
    r
}

/// Relies on spl_token::instruction::mint_to (anchor_spl's re-export):
/// building the instruction is a pure computation, and with the token
/// program's own identifier — the only one the body passes — its single
/// failure check passes, so the call returns Ok.
#[verifier::external_body]
fn build_mint_to_instruction(mint: &Key, dest: &Key, owner: &Key, amount: u64) -> (r: Result<
    Instruction,
    ProgramError,
>)
    ensures
        r is Ok,
{
    anchor_spl::token::spl_token::instruction::mint_to(
        &anchor_spl::token::spl_token::id(),
        &Pubkey::new_from_array(mint.bytes),
        &Pubkey::new_from_array(dest.bytes),
        &Pubkey::new_from_array(owner.bytes),
        &[],
        amount,
    )
}

#[verifier::external_type_specification]
#[verifier::external_body]
pub struct ExCreator(Creator);

#[verifier::external_type_specification]
#[verifier::external_body]
pub struct ExDataV2(DataV2);

/// Relies on mpl-token-metadata's Creator: a one-for-one conversion of one
/// creator entry, moving its fields.
#[verifier::external_body]
fn to_creator(c: &CreatorShare) -> (r: Creator) {
    Creator {
        address: Pubkey::new_from_array(c.address.bytes),
        verified: c.verified,
        share: c.share,
    }
}

/// The registry's form of a creator list, entry for entry.
fn to_creator_list(creators: &Vec<CreatorShare>) -> (r: Vec<Creator>)
    ensures
        r@.len() == creators@.len(),
{
    let mut r: Vec<Creator> = Vec::new();
    let mut i: usize = 0;
    while i < creators.len()
        invariant
            i <= creators@.len(),
            r@.len() == i,
        decreases creators@.len() - i,
    {
        r.push(to_creator(&creators[i]));
        i = i + 1;
    }
    r
}

/// Relies on mpl-token-metadata's DataV2: a one-for-one packing of a record's
/// descriptive fields, with no collection or uses attached.
#[verifier::external_body]
fn build_data_v2(
    name: &str,
    symbol: &str,
    uri: &str,
    seller_fee_basis_points: u16,
    creators: Vec<Creator>,
) -> (r: DataV2) {
    DataV2 {
        name: name.to_string(),
        symbol: symbol.to_string(),
        uri: uri.to_string(),
        seller_fee_basis_points,
        creators: Some(creators),
        collection: None,
        uses: None,
    }
}

/// Relies on CreateMetadataAccountV3::instruction of mpl-token-metadata:
/// building the registry's create-metadata instruction is a pure computation
/// over the given accounts and record data; the update authority signs.
#[verifier::external_body]
fn build_create_metadata_instruction(
    metadata: &Key,
    mint: &Key,
    mint_authority: &Key,
    payer: &Key,
    update_authority: &Key,
    data: DataV2,
    is_mutable: bool,
) -> (r: Instruction) {
    CreateMetadataAccountV3 {
        metadata: Pubkey::new_from_array(metadata.bytes),
        mint: Pubkey::new_from_array(mint.bytes),
        mint_authority: Pubkey::new_from_array(mint_authority.bytes),
        payer: Pubkey::new_from_array(payer.bytes),
        update_authority: (Pubkey::new_from_array(update_authority.bytes), true),
        system_program: anchor_lang::solana_program::system_program::ID,
        rent: Some(anchor_lang::solana_program::sysvar::rent::ID),
    }.instruction(CreateMetadataAccountV3InstructionArgs { data, is_mutable, collection_details: None })
}

/// Relies on CreateMasterEditionV3::instruction of mpl-token-metadata:
/// building the registry's create-master-record instruction is a pure
/// computation over the given accounts and the maximum supply.
#[verifier::external_body]
fn build_create_master_edition_instruction(
    edition: &Key,
    mint: &Key,
    update_authority: &Key,
    mint_authority: &Key,
    metadata: &Key,
    payer: &Key,
    max_supply: u64,
) -> (r: Instruction) {
    CreateMasterEditionV3 {
        edition: Pubkey::new_from_array(edition.bytes),
        mint: Pubkey::new_from_array(mint.bytes),
        update_authority: Pubkey::new_from_array(update_authority.bytes),
        mint_authority: Pubkey::new_from_array(mint_authority.bytes),
        payer: Pubkey::new_from_array(payer.bytes),
        metadata: Pubkey::new_from_array(metadata.bytes),
        token_program: anchor_spl::token::spl_token::id(),
        system_program: anchor_lang::solana_program::system_program::ID,
        rent: Some(anchor_lang::solana_program::sysvar::rent::ID),
    }.instruction(CreateMasterEditionV3InstructionArgs { max_supply: Some(max_supply) })
}

/// Everything a prepared mint hands to the external execution environment:
/// the three instructions, in the order they must run, and the delegated
/// signing identity (with its bump) that authorizes the two registry writes.
pub struct MintPlan {
    pub creator_authority: Key,
    pub creator_bump: u8,
    pub mint_ix: Instruction,
    pub metadata_ix: Instruction,
    pub master_ix: Instruction,
}

/// Why a mint request is rejected before any external call, if it is: an
/// empty URI, a missing configuration or placeholder, or a placeholder whose
/// unit was already minted.
pub open spec fn spec_mint_validate(pre: StateModel, uri: Seq<char>, json_id: u64) -> Option<
    NftMintError,
> {
    if uri.len() == 0 {
        Some(NftMintError::InvalidInputError)
    } else if pre.global is None {
        Some(NftMintError::MissingRecordError)
    } else if meta_idx(pre.metadata, json_id) == -1 {
        Some(NftMintError::MissingRecordError)
    } else if pre.metadata[meta_idx(pre.metadata, json_id)].is_minted {
        Some(NftMintError::DuplicateRecordError)
    } else {
        None
    }
}

/// Validates a mint request and, if it stands, builds the mint plan: the
/// token-unit mint instruction, the two registry instructions under the
/// derived delegated authority, with exactly one unit minted and a
/// non-reprintable master record. Reads the state only; committing the state
/// change after the external calls succeed is `Ledger::mint_nft_commit`.
///
/// Two gating decisions are deliberate. A placeholder already consumed is
/// rejected here, so a unit can never be minted twice against one record.
/// The submitting participant's tier is not checked against the active tier,
/// and the minted count is not checked against the tier limits: those checks
/// belong to the command surface in front of this core, as they always have.
pub fn mint_nft_prepare(
    ledger: &Ledger,
    program_id: &Key,
    accounts: &MintNft,
    json_id: u64,
    uri: &str,
    name: &str,
    symbol: &str,
) -> (r: Result<MintPlan, NftMintError>)
    ensures
        match spec_mint_validate(ledger@, uri@, json_id) {
            Some(e) => r == Err::<MintPlan, NftMintError>(e),
            None => match derived_address(seq![spec_nft_creator_seed()], program_id@) {
                Some(d) => r matches Ok(p) && (p.creator_authority@, p.creator_bump) == d,
                None => r == Err::<MintPlan, NftMintError>(
                    NftMintError::ExternalCallError(CallOrigin::Registry),
                ),
            },
        },
{
    if uri.is_empty() {
        return Err(NftMintError::InvalidInputError);
    }
    if ledger.global.is_none() {
        return Err(NftMintError::MissingRecordError);
    }
    let i = match ledger.find_meta(json_id) {
        None => {
            return Err(NftMintError::MissingRecordError);
        },
        Some(i) => i,
    };
    if ledger.metadata[i].is_minted {
        proof {
            assert(ledger@.metadata[i as int] == ledger.metadata@[i as int]@);
        }
        return Err(NftMintError::DuplicateRecordError);
    }
    proof {
        assert(ledger@.metadata[i as int] == ledger.metadata@[i as int]@);
    }
    let (creator_authority, creator_bump) = match nft_creator_authority(program_id) {
        None => {
            return Err(NftMintError::ExternalCallError(CallOrigin::Registry));
        },
        Some(p) => p,
    };
    let mint_ix = match build_mint_to_instruction(
        &accounts.mint,
        &accounts.acc_token,
        &accounts.payer,
        1,
    ) {
        Ok(ix) => ix,
        Err(_) => {
            return Err(NftMintError::ExternalCallError(CallOrigin::TokenMint));
        },
    };
    let creators = mint_creators(&accounts.maker, &accounts.mint_owner);
    let data = build_data_v2(name, symbol, uri, 1, to_creator_list(&creators));
    let metadata_ix = build_create_metadata_instruction(
        &accounts.metadata,
        &accounts.mint,
        &accounts.mint_owner,
        &accounts.payer,
        &accounts.maker,
        data,
        true,
    );
    let master_ix = build_create_master_edition_instruction(
        &accounts.acc_master,
        &accounts.mint,
        &accounts.maker,
        &accounts.mint_owner,
        &accounts.metadata,
        &accounts.payer,
        0,
    );
    Ok(MintPlan { creator_authority, creator_bump, mint_ix, metadata_ix, master_ix })
}

} // verus!
