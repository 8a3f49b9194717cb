//! The executable persisted state and the operations a caller can submit
//! against it. Every operation validates, then either fully applies its
//! effect or returns a typed failure leaving the state untouched; each one's
//! contract says it computes exactly the transition of `crate::model`.

use vstd::prelude::*;
use vstd::string::StringSliceAdditionalSpecFns;
use crate::errors::NftMintError;
use crate::keys::Key;
use crate::model::{
    lemma_meta_idx, lemma_user_idx, meta_idx, spec_close_ipfs_metadata, spec_close_user_state,
    spec_init_ipfs_metadata, spec_init_user_state, spec_initialize, spec_mint_commit,
    spec_set_current_wl_type, spec_set_global_state, user_idx, StateModel,
};
use crate::records::{GlobalState, IpfsMetadataState, MetadataModel, UserModel, UserState, URI_CAPACITY};

verus! {

/// The persisted state: the singleton configuration and the live records.
pub struct Ledger {
    pub global: Option<GlobalState>,
    pub users: Vec<UserState>,
    pub metadata: Vec<IpfsMetadataState>,
}

impl View for Ledger {
    type V = StateModel;

    open spec fn view(&self) -> StateModel {
        StateModel {
            global: match self.global {
                Some(g) => Some(g@),
                None => None,
            },
            users: self.users@.map_values(|u: UserState| u@),
            metadata: self.metadata@.map_values(|m: IpfsMetadataState| m@),
        }
    }
}

impl Ledger {
    /// A store holding nothing: the state before initialization.
    pub fn new() -> (r: Ledger)
        ensures
            r@ == crate::model::empty_state(),
    {
        let r = Ledger { global: None, users: Vec::new(), metadata: Vec::new() };
        proof {
            assert(r@.users =~= Seq::<crate::records::UserModel>::empty());
            assert(r@.metadata =~= Seq::<crate::records::MetadataModel>::empty());
        }
        r
    }

    /// Index of the participant record keyed by `key`, if one is live.
    fn find_user(&self, key: &Key) -> (r: Option<usize>)
        ensures
            match r {
                Some(i) => i == user_idx(self@.users, key@) && i < self.users@.len()
                    && self@.users[i as int].user == key@,
                None => user_idx(self@.users, key@) == -1,
            },
    {
        let n = self.users.len();
        let mut i: usize = 0;
        while i < n
            invariant
                i <= n,
                n == self.users@.len(),
                forall|j: int| 0 <= j < i ==> self@.users[j].user != key@,
            decreases n - i,
        {
            if self.users[i].user.key_eq(key) {
                proof {
                    assert(self@.users[i as int] == self.users@[i as int]@);
                    lemma_user_idx(self@.users, key@);
                    let k = user_idx(self@.users, key@);
                    assert(self@.users[i as int].user == key@);
                    assert(k != -1);
                    if k < i {
                        assert(self@.users[k].user != key@);
                    }
                    if k > i {
                        assert(self@.users[i as int].user != key@);
                    }
                }
                return Some(i);
            }
            proof {
                assert(self@.users[i as int] == self.users@[i as int]@);
            }
            i = i + 1;
        }
        proof {
            lemma_user_idx(self@.users, key@);
        }
        None
    }

    /// Index of the placeholder keyed by `json_id`, if one is live.
    pub(crate) fn find_meta(&self, json_id: u64) -> (r: Option<usize>)
        ensures
            match r {
                Some(i) => i == meta_idx(self@.metadata, json_id) && i < self.metadata@.len()
                    && self@.metadata[i as int].json_id == json_id,
                None => meta_idx(self@.metadata, json_id) == -1,
            },
    {
        let n = self.metadata.len();
        let mut i: usize = 0;
        while i < n
            invariant
                i <= n,
                n == self.metadata@.len(),
                forall|j: int| 0 <= j < i ==> self@.metadata[j].json_id != json_id,
            decreases n - i,
        {
            if self.metadata[i].json_id == json_id {
                proof {
                    assert(self@.metadata[i as int] == self.metadata@[i as int]@);
                    lemma_meta_idx(self@.metadata, json_id);
                    let k = meta_idx(self@.metadata, json_id);
                    assert(self@.metadata[i as int].json_id == json_id);
                    assert(k != -1);
                    if k < i {
                        assert(self@.metadata[k].json_id != json_id);
                    }
                    if k > i {
                        assert(self@.metadata[i as int].json_id != json_id);
                    }
                }
                return Some(i);
            }
            proof {
                assert(self@.metadata[i as int] == self.metadata@[i as int]@);
            }
            i = i + 1;
        }
        proof {
            lemma_meta_idx(self@.metadata, json_id);
        }
        None
    }

    /// Whether the configuration exists and `caller` is its admin; the error
    /// to fail with otherwise.
    fn check_admin(&self, caller: &Key) -> (r: Result<(), NftMintError>)
        ensures
            r == match crate::model::admin_gate(self@, caller@) {
                Some(e) => Err::<(), NftMintError>(e),
                None => Ok::<(), NftMintError>(()),
            },
    {
        match &self.global {
            None => Err(NftMintError::MissingRecordError),
            Some(g) => {
                if g.admin.key_eq(caller) {
                    Ok(())
                } else {
                    Err(NftMintError::AuthorizationError)
                }
            },
        }
    }

    /// Creates the singleton configuration with `admin` as its admin and
    /// everything else zero. A second creation fails: not idempotent.
    pub fn initialize(&mut self, admin: &Key) -> (r: Result<(), NftMintError>)
        ensures
            final(self)@ == spec_initialize(old(self)@, admin@).0,
            r == spec_initialize(old(self)@, admin@).1,
    {
        if self.global.is_some() {
            return Err(NftMintError::DuplicateRecordError);
        }
        self.global = Some(
            GlobalState {
                admin: *admin,
                user_count: 0,
                total_nft_count: 0,
                minted_nft_count: 0,
                og_limit: 0,
                og_price: 0,
                wl_limit: 0,
                wl_price: 0,
                cur_wl_type: 0,
            },
        );
        Ok(())
    }

    /// Overwrites one tier's supply cap and price: the priority tier when
    /// `wl_type` is 0, the general whitelist tier otherwise. Admin only; a
    /// rejected call leaves every limit and price unchanged.
    pub fn set_global_state(
        &mut self,
        caller: &Key,
        wl_limit: u32,
        wl_price: u64,
        wl_type: u8,
    ) -> (r: Result<(), NftMintError>)
        ensures
            final(self)@ == spec_set_global_state(old(self)@, caller@, wl_limit, wl_price, wl_type).0,
            r == spec_set_global_state(old(self)@, caller@, wl_limit, wl_price, wl_type).1,
    {
        if let Err(e) = self.check_admin(caller) {
            return Err(e);
        }
        let g = self.global.unwrap();
        if wl_type == 0 {
            self.global = Some(GlobalState { og_limit: wl_limit, og_price: wl_price, ..g });
        } else {
            self.global = Some(GlobalState { wl_limit: wl_limit, wl_price: wl_price, ..g });
        }
        Ok(())
    }

    /// Overwrites the currently active tier. Admin only.
    pub fn set_current_wl_type(&mut self, caller: &Key, wl_type: u8) -> (r: Result<
        (),
        NftMintError,
    >)
        ensures
            final(self)@ == spec_set_current_wl_type(old(self)@, caller@, wl_type).0,
            r == spec_set_current_wl_type(old(self)@, caller@, wl_type).1,
    {
        if let Err(e) = self.check_admin(caller) {
            return Err(e);
        }
        let g = self.global.unwrap();
        self.global = Some(GlobalState { cur_wl_type: wl_type, ..g });
        Ok(())
    }

    /// Registers a participant under a tier and increments the participant
    /// counter. Admin only; fails on a duplicate key.
    pub fn init_user_state(&mut self, caller: &Key, user: &Key, wl_type: u8) -> (r: Result<
        (),
        NftMintError,
    >)
        requires
            old(self)@.global matches Some(g) ==> g.user_count < u32::MAX,
        ensures
            final(self)@ == spec_init_user_state(old(self)@, caller@, user@, wl_type).0,
            r == spec_init_user_state(old(self)@, caller@, user@, wl_type).1,
    {
        if let Err(e) = self.check_admin(caller) {
            return Err(e);
        }
        if self.find_user(user).is_some() {
            return Err(NftMintError::DuplicateRecordError);
        }
        let ghost pre = self@;
        let g = self.global.unwrap();
        self.users.push(UserState { user: *user, wl_type });
        self.global = Some(GlobalState { user_count: g.user_count + 1, ..g });
        proof {
            assert(self@.users =~= pre.users.push(UserModel { user: user@, wl_type }));
        }
        Ok(())
    }

    /// Destroys a participant record and decrements the participant counter.
    /// Admin only; a counter already at zero is refused as an underflow,
    /// never wrapped; fails when the record does not exist.
    pub fn close_user_state(&mut self, caller: &Key, user: &Key) -> (r: Result<(), NftMintError>)
        ensures
            final(self)@ == spec_close_user_state(old(self)@, caller@, user@).0,
            r == spec_close_user_state(old(self)@, caller@, user@).1,
    {
        if let Err(e) = self.check_admin(caller) {
            return Err(e);
        }
        let g = self.global.unwrap();
        if g.user_count == 0 {
            return Err(NftMintError::UnderflowError);
        }
        let i = match self.find_user(user) {
            None => {
                return Err(NftMintError::MissingRecordError);
            },
            Some(i) => i,
        };
        let ghost pre = self@;
        self.users.remove(i);
        self.global = Some(GlobalState { user_count: g.user_count - 1, ..g });
        proof {
            assert(self@.users =~= pre.users.remove(i as int));
        }
        Ok(())
    }

    /// Registers a metadata placeholder holding `json_link`'s bytes, with
    /// zeroed trailing bytes, and increments the historical placeholder
    /// counter. Admin only; fails on a duplicate identifier, and on a URI
    /// longer than the buffer rather than truncating it.
    pub fn init_ipfs_metadata(&mut self, caller: &Key, json_id: u64, json_link: &str) -> (r:
        Result<(), NftMintError>)
        requires
            old(self)@.global matches Some(g) ==> g.total_nft_count < u32::MAX,
        ensures
            final(self)@ == spec_init_ipfs_metadata(
                old(self)@,
                caller@,
                json_id,
                json_link.spec_bytes(),
            ).0,
            r == spec_init_ipfs_metadata(old(self)@, caller@, json_id, json_link.spec_bytes()).1,
    {
        if let Err(e) = self.check_admin(caller) {
            return Err(e);
        }
        if self.find_meta(json_id).is_some() {
            return Err(NftMintError::DuplicateRecordError);
        }
        let bytes: &[u8] = json_link.as_bytes();
        if bytes.len() > URI_CAPACITY {
            return Err(NftMintError::CapacityError);
        }
        let mut buf: Vec<u8> = vstd::slice::slice_to_vec(bytes);
        while buf.len() < URI_CAPACITY
            invariant
                bytes@.len() <= buf@.len() <= URI_CAPACITY,
                buf@ =~= bytes@ + crate::records::zero_bytes((buf@.len() - bytes@.len()) as nat),
            decreases URI_CAPACITY - buf@.len(),
        {
            buf.push(0u8);
        }
        proof {
            assert(buf@ =~= crate::records::padded_link(bytes@));
        }
        let ghost pre = self@;
        let g = self.global.unwrap();
        self.metadata.push(IpfsMetadataState { json_id, is_minted: false, json_link: buf });
        self.global = Some(GlobalState { total_nft_count: g.total_nft_count + 1, ..g });
        proof {
            assert(self@.metadata =~= pre.metadata.push(
                MetadataModel {
                    json_id: json_id,
                    is_minted: false,
                    json_link: crate::records::padded_link(json_link.spec_bytes()),
                },
            ));
        }
        Ok(())
    }

    /// Destroys a metadata placeholder. Admin only; fails when it does not
    /// exist. The historical placeholder counter is deliberately left as an
    /// audit trail.
    pub fn close_ipfs_metadata(&mut self, caller: &Key, json_id: u64) -> (r: Result<
        (),
        NftMintError,
    >)
        ensures
            final(self)@ == spec_close_ipfs_metadata(old(self)@, caller@, json_id).0,
            r == spec_close_ipfs_metadata(old(self)@, caller@, json_id).1,
    {
        if let Err(e) = self.check_admin(caller) {
            return Err(e);
        }
        let i = match self.find_meta(json_id) {
            None => {
                return Err(NftMintError::MissingRecordError);
            },
            Some(i) => i,
        };
        let ghost pre = self@;
        self.metadata.remove(i);
        proof {
            assert(self@.metadata =~= pre.metadata.remove(i as int));
        }
        Ok(())
    }

    /// Commits a mint's state change: marks the placeholder consumed and
    /// increments the minted counter. A placeholder already consumed is
    /// refused, so the consumed flag moves from false to true at most once in
    /// a placeholder's lifetime.
    pub fn mint_nft_commit(&mut self, json_id: u64) -> (r: Result<(), NftMintError>)
        requires
            old(self)@.global matches Some(g) ==> g.minted_nft_count < u32::MAX,
        ensures
            final(self)@ == spec_mint_commit(old(self)@, json_id).0,
            r == spec_mint_commit(old(self)@, json_id).1,
    {
        if self.global.is_none() {
            return Err(NftMintError::MissingRecordError);
        }
        let i = match self.find_meta(json_id) {
            None => {
                return Err(NftMintError::MissingRecordError);
            },
            Some(i) => i,
        };
        if self.metadata[i].is_minted {
            return Err(NftMintError::DuplicateRecordError);
        }
        let ghost pre = self@;
        let mut rec = self.metadata.remove(i);
        rec.is_minted = true;
        self.metadata.insert(i, rec);
        let g = self.global.unwrap();
        self.global = Some(GlobalState { minted_nft_count: g.minted_nft_count + 1, ..g });
        proof {
            assert(self@.metadata =~= pre.metadata.update(
                i as int,
                MetadataModel { is_minted: true, ..pre.metadata[i as int] },
            ));
        }
        Ok(())
    }
}

} // verus!
