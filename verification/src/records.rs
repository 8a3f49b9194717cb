//! The three persisted record layouts: the singleton global configuration,
//! the per-participant eligibility record, and the per-unit metadata
//! placeholder, together with their mathematical models.

use vstd::prelude::*;
use crate::keys::Key;

verus! {

/// Fixed capacity, in bytes, of a placeholder's URI buffer.
pub const URI_CAPACITY: usize = 100;

/// Mathematical model of the global configuration record. The counters are
/// unbounded naturals; the stored record holds them in fixed 32-bit fields.
pub struct GlobalModel {
    pub admin: Seq<u8>,
    pub user_count: nat,
    pub total_nft_count: nat,
    pub minted_nft_count: nat,
    pub og_limit: u32,
    pub og_price: u64,
    pub wl_limit: u32,
    pub wl_price: u64,
    pub cur_wl_type: u8,
}

/// The singleton global configuration: the admin identity, the three
/// monotone counters, the two tier limit/price pairs and the selector of the
/// currently active tier (0: priority, 1: general whitelist, 2: public).
#[derive(Clone, Copy, Debug)]
pub struct GlobalState {
    /// Identity of the sole account allowed to configure and to manage
    /// participant and placeholder records. Set once, at creation.
    pub admin: Key,
    /// Number of currently registered participants.
    pub user_count: u32,
    /// Number of metadata placeholders ever registered (never decremented).
    pub total_nft_count: u32,
    /// Number of token units actually minted.
    pub minted_nft_count: u32,
    /// Supply cap of the priority tier.
    pub og_limit: u32,
    /// Advisory price of the priority tier.
    pub og_price: u64,
    /// Supply cap of the general whitelist tier.
    pub wl_limit: u32,
    /// Advisory price of the general whitelist tier.
    pub wl_price: u64,
    /// The presently active tier.
    pub cur_wl_type: u8,
}

impl View for GlobalState {
    type V = GlobalModel;

    open spec fn view(&self) -> GlobalModel {
        GlobalModel {
            admin: self.admin@,
            user_count: self.user_count as nat,
            total_nft_count: self.total_nft_count as nat,
            minted_nft_count: self.minted_nft_count as nat,
            og_limit: self.og_limit,
            og_price: self.og_price,
            wl_limit: self.wl_limit,
            wl_price: self.wl_price,
            cur_wl_type: self.cur_wl_type,
        }
    }
}

/// The global configuration as creation leaves it: the given admin, every
/// counter, limit and price zero, and the priority tier selected.
pub open spec fn fresh_global(admin: Seq<u8>) -> GlobalModel {
    GlobalModel {
        admin: admin,
        user_count: 0,
        total_nft_count: 0,
        minted_nft_count: 0,
        og_limit: 0,
        og_price: 0,
        wl_limit: 0,
        wl_price: 0,
        cur_wl_type: 0,
    }
}

/// Mathematical model of a participant record.
pub struct UserModel {
    pub user: Seq<u8>,
    pub wl_type: u8,
}

/// One eligibility record per registered participant: the participant's
/// identity and the tier it may mint under.
#[derive(Clone, Copy, Debug)]
pub struct UserState {
    pub user: Key,
    pub wl_type: u8,
}

impl View for UserState {
    type V = UserModel;

    open spec fn view(&self) -> UserModel {
        UserModel { user: self.user@, wl_type: self.wl_type }
    }
}

/// Mathematical model of a metadata placeholder.
pub struct MetadataModel {
    pub json_id: u64,
    pub is_minted: bool,
    pub json_link: Seq<u8>,
}

/// One single-use metadata placeholder per prospective token unit: the
/// numeric identifier its storage key is derived from, the consumed flag, and
/// a fixed-capacity buffer holding the content URI with zeroed trailing bytes.
#[derive(Clone, Debug)]
pub struct IpfsMetadataState {
    pub json_id: u64,
    pub is_minted: bool,
    pub json_link: Vec<u8>,
}

impl View for IpfsMetadataState {
    type V = MetadataModel;

    open spec fn view(&self) -> MetadataModel {
        MetadataModel {
            json_id: self.json_id,
            is_minted: self.is_minted,
            json_link: self.json_link@,
        }
    }
}

/// A sequence of `n` zero bytes.
pub open spec fn zero_bytes(n: nat) -> Seq<u8> {
    Seq::new(n, |i: int| 0u8)
}

/// The URI buffer's contents once `link` is stored: the link's bytes followed
/// by zeroes up to the buffer's fixed capacity.
pub open spec fn padded_link(link: Seq<u8>) -> Seq<u8>
    recommends
        link.len() <= URI_CAPACITY,
{
    link + zero_bytes((URI_CAPACITY - link.len()) as nat)
}

impl MetadataModel {
    /// A placeholder is well formed when its buffer has exactly the fixed
    /// capacity.
    pub open spec fn wf(self) -> bool {
        self.json_link.len() == URI_CAPACITY
    }
}

impl Default for IpfsMetadataState {
    /// An unregistered placeholder: identifier zero, not consumed, all-zero
    /// URI buffer.
    fn default() -> (r: IpfsMetadataState)
        ensures
            r@.json_id == 0,
            !r@.is_minted,
            r@.json_link =~= zero_bytes(URI_CAPACITY as nat),
    {
        IpfsMetadataState { json_id: 0, is_minted: false, json_link: vec![0u8; URI_CAPACITY] }
    }
}

} // verus!
