use sol_mint_wl::codec::{
    decode_global, decode_ipfs, decode_user, encode_global, encode_ipfs, encode_user,
};
use sol_mint_wl::keys::Key;
use sol_mint_wl::records::{GlobalState, IpfsMetadataState, UserState};

fn key(tag: u8) -> Key {
    let mut bytes = [0u8; 32];
    bytes[0] = tag;
    Key { bytes }
}

fn sample_global() -> GlobalState {
    GlobalState {
        admin: key(1),
        user_count: 3,
        total_nft_count: 9,
        minted_nft_count: 2,
        og_limit: 100,
        og_price: 1_000_000,
        wl_limit: 500,
        wl_price: 2_000_000,
        cur_wl_type: 1,
    }
}

#[test]
fn global_layout_is_packed_and_round_trips() {
    let g = sample_global();
    let bytes = encode_global(&g);
    assert_eq!(bytes.len(), 69);
    assert_eq!(&bytes[0..32], &g.admin.bytes);
    assert_eq!(&bytes[32..36], &3u32.to_le_bytes());
    assert_eq!(&bytes[36..40], &9u32.to_le_bytes());
    assert_eq!(&bytes[40..44], &2u32.to_le_bytes());
    assert_eq!(&bytes[44..48], &100u32.to_le_bytes());
    assert_eq!(&bytes[48..56], &1_000_000u64.to_le_bytes());
    assert_eq!(&bytes[56..60], &500u32.to_le_bytes());
    assert_eq!(&bytes[60..68], &2_000_000u64.to_le_bytes());
    assert_eq!(bytes[68], 1);
    let d = decode_global(&bytes).unwrap();
    assert_eq!(d.admin.bytes, g.admin.bytes);
    assert_eq!(d.user_count, g.user_count);
    assert_eq!(d.total_nft_count, g.total_nft_count);
    assert_eq!(d.minted_nft_count, g.minted_nft_count);
    assert_eq!(d.og_limit, g.og_limit);
    assert_eq!(d.og_price, g.og_price);
    assert_eq!(d.wl_limit, g.wl_limit);
    assert_eq!(d.wl_price, g.wl_price);
    assert_eq!(d.cur_wl_type, g.cur_wl_type);
}

#[test]
fn global_layout_rejects_wrong_length() {
    let g = sample_global();
    let mut bytes = encode_global(&g);
    bytes.push(0);
    assert!(decode_global(&bytes).is_none());
    assert!(decode_global(&bytes[0..68]).is_none());
    assert!(decode_global(&[]).is_none());
}

#[test]
fn user_layout_round_trips() {
    let u = UserState { user: key(7), wl_type: 1 };
    let bytes = encode_user(&u);
    assert_eq!(bytes.len(), 33);
    assert_eq!(&bytes[0..32], &u.user.bytes);
    assert_eq!(bytes[32], 1);
    let d = decode_user(&bytes).unwrap();
    assert_eq!(d.user.bytes, u.user.bytes);
    assert_eq!(d.wl_type, u.wl_type);
    assert!(decode_user(&bytes[0..32]).is_none());
}

#[test]
fn placeholder_layout_round_trips_and_flag_is_strict() {
    let mut link = b"ipfs://x".to_vec();
    while link.len() < 100 {
        link.push(0);
    }
    let m = IpfsMetadataState { json_id: 7, is_minted: true, json_link: link.clone() };
    let bytes = encode_ipfs(&m);
    assert_eq!(bytes.len(), 109);
    assert_eq!(&bytes[0..8], &7u64.to_le_bytes());
    assert_eq!(bytes[8], 1);
    assert_eq!(&bytes[9..109], link.as_slice());
    let d = decode_ipfs(&bytes).unwrap();
    assert_eq!(d.json_id, 7);
    assert!(d.is_minted);
    assert_eq!(d.json_link, link);
    let mut corrupt = bytes.clone();
    corrupt[8] = 2;
    assert!(decode_ipfs(&corrupt).is_none());
    assert!(decode_ipfs(&bytes[0..108]).is_none());
}
