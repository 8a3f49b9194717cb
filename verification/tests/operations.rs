use sol_mint_wl::errors::NftMintError;
use sol_mint_wl::keys::Key;
use sol_mint_wl::ledger::Ledger;
use sol_mint_wl::mint::{mint_creators, mint_nft_prepare, MintNft};
use sol_mint_wl::records::IpfsMetadataState;
use sol_mint_wl::str_test;

fn key(tag: u8) -> Key {
    let mut bytes = [0u8; 32];
    bytes[0] = tag;
    Key::new(bytes)
}

fn accounts() -> MintNft {
    MintNft {
        mint_owner: key(10),
        mint: key(11),
        metadata: key(12),
        acc_token: key(13),
        payer: key(10),
        acc_master: key(14),
        maker: key(15),
    }
}

fn padded(uri: &str) -> Vec<u8> {
    let mut v = uri.as_bytes().to_vec();
    while v.len() < 100 {
        v.push(0);
    }
    v
}

#[test]
fn initialize_sets_admin_and_zeroes_counters() {
    let mut ledger = Ledger::new();
    assert_eq!(ledger.initialize(&key(1)), Ok(()));
    let g = ledger.global.unwrap();
    assert_eq!(g.admin.bytes, key(1).bytes);
    assert_eq!(g.user_count, 0);
    assert_eq!(g.total_nft_count, 0);
    assert_eq!(g.minted_nft_count, 0);
    assert_eq!(g.og_limit, 0);
    assert_eq!(g.og_price, 0);
    assert_eq!(g.wl_limit, 0);
    assert_eq!(g.wl_price, 0);
    assert_eq!(g.cur_wl_type, 0);
}

#[test]
fn initialize_twice_fails_second_time() {
    let mut ledger = Ledger::new();
    assert_eq!(ledger.initialize(&key(1)), Ok(()));
    assert_eq!(ledger.initialize(&key(1)), Err(NftMintError::DuplicateRecordError));
    assert_eq!(ledger.initialize(&key(2)), Err(NftMintError::DuplicateRecordError));
    assert_eq!(ledger.global.unwrap().admin.bytes, key(1).bytes);
}

#[test]
fn participant_count_tracks_live_records() {
    let admin = key(1);
    let mut ledger = Ledger::new();
    ledger.initialize(&admin).unwrap();
    assert_eq!(ledger.init_user_state(&admin, &key(2), 0), Ok(()));
    assert_eq!(ledger.init_user_state(&admin, &key(3), 1), Ok(()));
    assert_eq!(ledger.init_user_state(&admin, &key(4), 1), Ok(()));
    assert_eq!(ledger.global.unwrap().user_count as usize, ledger.users.len());
    assert_eq!(ledger.users.len(), 3);
    assert_eq!(ledger.close_user_state(&admin, &key(3)), Ok(()));
    assert_eq!(ledger.global.unwrap().user_count as usize, ledger.users.len());
    assert_eq!(ledger.users.len(), 2);
    assert_eq!(ledger.init_user_state(&admin, &key(3), 0), Ok(()));
    assert_eq!(ledger.close_user_state(&admin, &key(2)), Ok(()));
    assert_eq!(ledger.close_user_state(&admin, &key(4)), Ok(()));
    assert_eq!(ledger.global.unwrap().user_count as usize, ledger.users.len());
    assert_eq!(ledger.users.len(), 1);
    assert_eq!(ledger.users[0].user.bytes, key(3).bytes);
}

#[test]
fn duplicate_participant_rejected() {
    let admin = key(1);
    let mut ledger = Ledger::new();
    ledger.initialize(&admin).unwrap();
    assert_eq!(ledger.init_user_state(&admin, &key(2), 0), Ok(()));
    assert_eq!(ledger.init_user_state(&admin, &key(2), 1), Err(NftMintError::DuplicateRecordError));
    assert_eq!(ledger.users.len(), 1);
    assert_eq!(ledger.users[0].wl_type, 0);
    assert_eq!(ledger.global.unwrap().user_count, 1);
}

#[test]
fn deregister_at_zero_is_underflow_not_wrap() {
    let admin = key(1);
    let mut ledger = Ledger::new();
    ledger.initialize(&admin).unwrap();
    assert_eq!(ledger.close_user_state(&admin, &key(2)), Err(NftMintError::UnderflowError));
    assert_eq!(ledger.global.unwrap().user_count, 0);
}

#[test]
fn deregister_unknown_participant_is_missing() {
    let admin = key(1);
    let mut ledger = Ledger::new();
    ledger.initialize(&admin).unwrap();
    ledger.init_user_state(&admin, &key(2), 0).unwrap();
    assert_eq!(ledger.close_user_state(&admin, &key(9)), Err(NftMintError::MissingRecordError));
    assert_eq!(ledger.users.len(), 1);
}

#[test]
fn set_global_state_by_non_admin_changes_nothing() {
    let admin = key(1);
    let mut ledger = Ledger::new();
    ledger.initialize(&admin).unwrap();
    ledger.set_global_state(&admin, 7, 70, 0).unwrap();
    ledger.set_global_state(&admin, 8, 80, 1).unwrap();
    assert_eq!(
        ledger.set_global_state(&key(2), 99, 990, 0),
        Err(NftMintError::AuthorizationError)
    );
    assert_eq!(
        ledger.set_global_state(&key(2), 99, 990, 1),
        Err(NftMintError::AuthorizationError)
    );
    let g = ledger.global.unwrap();
    assert_eq!((g.og_limit, g.og_price), (7, 70));
    assert_eq!((g.wl_limit, g.wl_price), (8, 80));
}

#[test]
fn set_global_state_before_initialize_is_missing() {
    let mut ledger = Ledger::new();
    assert_eq!(ledger.set_global_state(&key(1), 5, 50, 0), Err(NftMintError::MissingRecordError));
}

#[test]
fn set_current_wl_type_stores_any_value() {
    let admin = key(1);
    let mut ledger = Ledger::new();
    ledger.initialize(&admin).unwrap();
    assert_eq!(ledger.set_current_wl_type(&admin, 2), Ok(()));
    assert_eq!(ledger.global.unwrap().cur_wl_type, 2);
    assert_eq!(ledger.set_current_wl_type(&admin, 250), Ok(()));
    assert_eq!(ledger.global.unwrap().cur_wl_type, 250);
    assert_eq!(ledger.set_current_wl_type(&key(2), 0), Err(NftMintError::AuthorizationError));
    assert_eq!(ledger.global.unwrap().cur_wl_type, 250);
}

#[test]
fn register_metadata_stores_padded_uri() {
    let admin = key(1);
    let mut ledger = Ledger::new();
    ledger.initialize(&admin).unwrap();
    assert_eq!(ledger.init_ipfs_metadata(&admin, 7, "ipfs://x"), Ok(()));
    assert_eq!(ledger.metadata.len(), 1);
    assert_eq!(ledger.metadata[0].json_id, 7);
    assert!(!ledger.metadata[0].is_minted);
    assert_eq!(ledger.metadata[0].json_link, padded("ipfs://x"));
    assert_eq!(ledger.global.unwrap().total_nft_count, 1);
}

#[test]
fn duplicate_metadata_rejected_and_buffer_untouched() {
    let admin = key(1);
    let mut ledger = Ledger::new();
    ledger.initialize(&admin).unwrap();
    ledger.init_ipfs_metadata(&admin, 7, "ipfs://first").unwrap();
    assert_eq!(
        ledger.init_ipfs_metadata(&admin, 7, "ipfs://second"),
        Err(NftMintError::DuplicateRecordError)
    );
    assert_eq!(ledger.metadata.len(), 1);
    assert_eq!(ledger.metadata[0].json_link, padded("ipfs://first"));
    assert_eq!(ledger.global.unwrap().total_nft_count, 1);
}

#[test]
fn uri_of_101_bytes_is_capacity_error_and_no_record() {
    let admin = key(1);
    let mut ledger = Ledger::new();
    ledger.initialize(&admin).unwrap();
    let long: String = "u".repeat(101);
    assert_eq!(ledger.init_ipfs_metadata(&admin, 7, &long), Err(NftMintError::CapacityError));
    assert_eq!(ledger.metadata.len(), 0);
    assert_eq!(ledger.global.unwrap().total_nft_count, 0);
}

#[test]
fn uri_of_100_bytes_fills_buffer_exactly() {
    let admin = key(1);
    let mut ledger = Ledger::new();
    ledger.initialize(&admin).unwrap();
    let exact: String = "u".repeat(100);
    assert_eq!(ledger.init_ipfs_metadata(&admin, 7, &exact), Ok(()));
    assert_eq!(ledger.metadata[0].json_link, exact.as_bytes().to_vec());
}

#[test]
fn close_metadata_keeps_audit_counter() {
    let admin = key(1);
    let mut ledger = Ledger::new();
    ledger.initialize(&admin).unwrap();
    ledger.init_ipfs_metadata(&admin, 7, "ipfs://x").unwrap();
    ledger.init_ipfs_metadata(&admin, 8, "ipfs://y").unwrap();
    assert_eq!(ledger.close_ipfs_metadata(&admin, 7), Ok(()));
    assert_eq!(ledger.metadata.len(), 1);
    assert_eq!(ledger.metadata[0].json_id, 8);
    assert_eq!(ledger.global.unwrap().total_nft_count, 2);
    assert_eq!(ledger.close_ipfs_metadata(&admin, 7), Err(NftMintError::MissingRecordError));
}

#[test]
fn metadata_operations_require_admin() {
    let admin = key(1);
    let mut ledger = Ledger::new();
    ledger.initialize(&admin).unwrap();
    assert_eq!(
        ledger.init_ipfs_metadata(&key(2), 7, "ipfs://x"),
        Err(NftMintError::AuthorizationError)
    );
    ledger.init_ipfs_metadata(&admin, 7, "ipfs://x").unwrap();
    assert_eq!(ledger.close_ipfs_metadata(&key(2), 7), Err(NftMintError::AuthorizationError));
    assert_eq!(ledger.init_user_state(&key(2), &key(3), 0), Err(NftMintError::AuthorizationError));
    assert_eq!(ledger.close_user_state(&key(2), &key(3)), Err(NftMintError::AuthorizationError));
}

#[test]
fn default_placeholder_is_blank() {
    let d = IpfsMetadataState::default();
    assert_eq!(d.json_id, 0);
    assert!(!d.is_minted);
    assert_eq!(d.json_link, vec![0u8; 100]);
}

#[test]
fn creator_list_is_maker_then_owner() {
    let list = mint_creators(&key(15), &key(10));
    assert_eq!(list.len(), 2);
    assert_eq!(list[0].address.bytes, key(15).bytes);
    assert!(list[0].verified);
    assert_eq!(list[0].share, 100);
    assert_eq!(list[1].address.bytes, key(10).bytes);
    assert!(!list[1].verified);
    assert_eq!(list[1].share, 0);
}

#[test]
fn mint_prepare_rejects_empty_uri() {
    let admin = key(1);
    let mut ledger = Ledger::new();
    ledger.initialize(&admin).unwrap();
    ledger.init_ipfs_metadata(&admin, 7, "ipfs://x").unwrap();
    let r = mint_nft_prepare(&ledger, &key(90), &accounts(), 7, "", "N", "S");
    assert!(matches!(r, Err(NftMintError::InvalidInputError)));
}

#[test]
fn mint_prepare_rejects_unknown_placeholder() {
    let admin = key(1);
    let mut ledger = Ledger::new();
    ledger.initialize(&admin).unwrap();
    let r = mint_nft_prepare(&ledger, &key(90), &accounts(), 7, "ipfs://x", "N", "S");
    assert!(matches!(r, Err(NftMintError::MissingRecordError)));
}

#[test]
fn mint_commit_flips_flag_once() {
    let admin = key(1);
    let mut ledger = Ledger::new();
    ledger.initialize(&admin).unwrap();
    ledger.init_ipfs_metadata(&admin, 7, "ipfs://x").unwrap();
    assert_eq!(ledger.mint_nft_commit(7), Ok(()));
    assert!(ledger.metadata[0].is_minted);
    assert_eq!(ledger.global.unwrap().minted_nft_count, 1);
    assert_eq!(ledger.mint_nft_commit(7), Err(NftMintError::DuplicateRecordError));
    assert_eq!(ledger.global.unwrap().minted_nft_count, 1);
    assert_eq!(ledger.mint_nft_commit(8), Err(NftMintError::MissingRecordError));
}

#[test]
fn str_test_accepts_only_the_greeting() {
    assert_eq!(str_test("hello1"), Ok(()));
    assert_eq!(str_test("hello2"), Err(NftMintError::InvalidInputError));
    assert_eq!(str_test(""), Err(NftMintError::InvalidInputError));
}
