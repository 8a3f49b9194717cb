use anchor_lang::solana_program::pubkey::Pubkey;
use sol_mint_wl::authority::{
    global_state_key, ipfs_metadata_key, nft_creator_authority, user_state_key,
};
use sol_mint_wl::errors::NftMintError;
use sol_mint_wl::keys::Key;
use sol_mint_wl::ledger::Ledger;
use sol_mint_wl::mint::{mint_nft_prepare, MintNft};

fn key(tag: u8) -> Key {
    let mut bytes = [0u8; 32];
    bytes[0] = tag;
    Key { bytes }
}

fn program_id() -> Key {
    key(90)
}

fn accounts() -> MintNft {
    MintNft {
        mint_owner: key(10),
        mint: key(11),
        metadata: key(12),
        acc_token: key(13),
        payer: key(10),
        acc_master: key(14),
        maker: key(15),
    }
}

#[test]
fn derivation_is_deterministic_and_matches_the_runtime() {
    let (k1, b1) = global_state_key(&program_id()).unwrap();
    let (k2, b2) = global_state_key(&program_id()).unwrap();
    assert_eq!(k1.bytes, k2.bytes);
    assert_eq!(b1, b2);
    // The same derivation computed directly.
    let (expect, bump) = Pubkey::find_program_address(
        &[b"GLOBAL_STATE_SEED1"],
        &Pubkey::new_from_array(program_id().bytes),
    );
    assert_eq!(k1.bytes, expect.to_bytes());
    assert_eq!(b1, bump);
    // A derived key is a new key, not an input handed back.
    assert_ne!(k1.bytes, program_id().bytes);
}

#[test]
fn derivation_separates_record_kinds_and_keys() {
    let p = program_id();
    let global = global_state_key(&p).unwrap().0;
    let user_a = user_state_key(&p, &key(2)).unwrap().0;
    let user_b = user_state_key(&p, &key(3)).unwrap().0;
    let meta_7 = ipfs_metadata_key(&p, 7).unwrap().0;
    let meta_8 = ipfs_metadata_key(&p, 8).unwrap().0;
    let creator = nft_creator_authority(&p).unwrap().0;
    assert_ne!(global.bytes, user_a.bytes);
    assert_ne!(user_a.bytes, user_b.bytes);
    assert_ne!(meta_7.bytes, meta_8.bytes);
    assert_ne!(global.bytes, creator.bytes);

    let (expect_user, _) = Pubkey::find_program_address(
        &[b"USER_STATE_SEED1", &key(2).bytes],
        &Pubkey::new_from_array(p.bytes),
    );
    assert_eq!(user_a.bytes, expect_user.to_bytes());
    let (expect_meta, _) = Pubkey::find_program_address(
        &[b"IPFS_METADATA_SEED", &7u64.to_le_bytes()],
        &Pubkey::new_from_array(p.bytes),
    );
    assert_eq!(meta_7.bytes, expect_meta.to_bytes());
    let (expect_creator, creator_bump) = Pubkey::find_program_address(
        &[b"NFT_CREATOR_SEED"],
        &Pubkey::new_from_array(p.bytes),
    );
    assert_eq!(creator.bytes, expect_creator.to_bytes());
    assert_eq!(nft_creator_authority(&p).unwrap().1, creator_bump);
}

#[test]
fn end_to_end_mint_scenario() {
    let admin = key(1);
    let mut ledger = Ledger::new();
    ledger.initialize(&admin).unwrap();
    ledger.init_ipfs_metadata(&admin, 7, "ipfs://x").unwrap();

    let plan = mint_nft_prepare(&ledger, &program_id(), &accounts(), 7, "ipfs://x", "N", "S")
        .unwrap();

    // The delegated authority is the derived creator identity.
    let (expect_creator, bump) = Pubkey::find_program_address(
        &[b"NFT_CREATOR_SEED"],
        &Pubkey::new_from_array(program_id().bytes),
    );
    assert_eq!(plan.creator_authority.bytes, expect_creator.to_bytes());
    assert_eq!(plan.creator_bump, bump);

    // Exactly one unit is minted to the caller's token account.
    assert_eq!(plan.mint_ix.program_id, anchor_spl::token::ID);
    assert_eq!(plan.mint_ix.data, vec![7u8, 1, 0, 0, 0, 0, 0, 0, 0]);
    assert_eq!(plan.mint_ix.accounts.len(), 3);
    assert_eq!(plan.mint_ix.accounts[0].pubkey.to_bytes(), accounts().mint.bytes);
    assert_eq!(plan.mint_ix.accounts[1].pubkey.to_bytes(), accounts().acc_token.bytes);
    assert_eq!(plan.mint_ix.accounts[2].pubkey.to_bytes(), accounts().payer.bytes);

    // One descriptive-metadata record and one master record, both against the
    // external registry.
    assert_eq!(plan.metadata_ix.program_id, mpl_token_metadata::ID);
    assert_eq!(plan.metadata_ix.data[0], 33);
    let uri_bytes = b"ipfs://x";
    assert!(plan.metadata_ix.data.windows(uri_bytes.len()).any(|w| w == uri_bytes));
    assert_eq!(plan.master_ix.program_id, mpl_token_metadata::ID);
    assert_eq!(plan.master_ix.data[0], 17);
    // Maximum supply 0: the unit is explicitly non-reprintable.
    assert_eq!(plan.master_ix.data[1..], [1, 0, 0, 0, 0, 0, 0, 0, 0]);

    assert_eq!(ledger.mint_nft_commit(7), Ok(()));
    assert_eq!(ledger.global.unwrap().minted_nft_count, 1);
    assert!(ledger.metadata[0].is_minted);

    // A second mint against the consumed placeholder is rejected outright.
    let again = mint_nft_prepare(&ledger, &program_id(), &accounts(), 7, "ipfs://x", "N", "S");
    assert!(matches!(again, Err(NftMintError::DuplicateRecordError)));
    assert_eq!(ledger.mint_nft_commit(7), Err(NftMintError::DuplicateRecordError));
    assert_eq!(ledger.global.unwrap().minted_nft_count, 1);
}

#[test]
fn mint_prepare_before_initialize_is_missing() {
    let ledger = Ledger::new();
    let r = mint_nft_prepare(&ledger, &program_id(), &accounts(), 7, "ipfs://x", "N", "S");
    assert!(matches!(r, Err(NftMintError::MissingRecordError)));
}
