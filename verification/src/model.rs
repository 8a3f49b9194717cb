//! The mathematical model of the persisted state and of every operation on
//! it. Each executable operation's contract says that it computes exactly the
//! transition written here.

use vstd::prelude::*;
use crate::errors::NftMintError;
use crate::records::{
    fresh_global, padded_link, GlobalModel, MetadataModel, UserModel, URI_CAPACITY,
};

verus! {

/// The whole persisted state: the singleton configuration (absent until
/// initialization), the live participant records and the live metadata
/// placeholders.
pub struct StateModel {
    pub global: Option<GlobalModel>,
    pub users: Seq<UserModel>,
    pub metadata: Seq<MetadataModel>,
}

/// The state before initialization: no configuration, no records.
pub open spec fn empty_state() -> StateModel {
    StateModel { global: None, users: Seq::empty(), metadata: Seq::empty() }
}

/// Index of the first participant record keyed by `key`, or -1 if none is.
pub open spec fn user_idx(users: Seq<UserModel>, key: Seq<u8>) -> int
    decreases users.len(),
{
    if users.len() == 0 {
        -1
    } else if users[0].user == key {
        0
    } else if user_idx(users.drop_first(), key) == -1 {
        -1
    } else {
        user_idx(users.drop_first(), key) + 1
    }
}

/// Index of the first placeholder keyed by `json_id`, or -1 if none is.
pub open spec fn meta_idx(metadata: Seq<MetadataModel>, json_id: u64) -> int
    decreases metadata.len(),
{
    if metadata.len() == 0 {
        -1
    } else if metadata[0].json_id == json_id {
        0
    } else if meta_idx(metadata.drop_first(), json_id) == -1 {
        -1
    } else {
        meta_idx(metadata.drop_first(), json_id) + 1
    }
}

/// `user_idx` names the first record keyed by `key`, and -1 means no record
/// is.
pub proof fn lemma_user_idx(users: Seq<UserModel>, key: Seq<u8>)
    ensures
        user_idx(users, key) == -1 ==> forall|i: int|
            0 <= i < users.len() ==> users[i].user != key,
        user_idx(users, key) != -1 ==> {
            &&& 0 <= user_idx(users, key) < users.len()
            &&& users[user_idx(users, key)].user == key
            &&& forall|i: int| 0 <= i < user_idx(users, key) ==> users[i].user != key
        },
    decreases users.len(),
{
    if users.len() == 0 {
    } else if users[0].user == key {
    } else {
        let t = users.drop_first();
        lemma_user_idx(t, key);
        if user_idx(t, key) == -1 {
            assert forall|i: int| 0 <= i < users.len() implies users[i].user != key by {
                if i > 0 {
                    assert(users[i] == t[i - 1]);
                }
            }
        } else {
            assert(users[user_idx(users, key)] == t[user_idx(t, key)]);
            assert forall|i: int| 0 <= i < user_idx(users, key) implies users[i].user != key by {
                if i > 0 {
                    assert(users[i] == t[i - 1]);
                }
            }
        }
    }
}

/// `meta_idx` names the first placeholder keyed by `json_id`, and -1 means no
/// placeholder is.
pub proof fn lemma_meta_idx(metadata: Seq<MetadataModel>, json_id: u64)
    ensures
        meta_idx(metadata, json_id) == -1 ==> forall|i: int|
            0 <= i < metadata.len() ==> metadata[i].json_id != json_id,
        meta_idx(metadata, json_id) != -1 ==> {
            &&& 0 <= meta_idx(metadata, json_id) < metadata.len()
            &&& metadata[meta_idx(metadata, json_id)].json_id == json_id
            &&& forall|i: int|
                0 <= i < meta_idx(metadata, json_id) ==> metadata[i].json_id != json_id
        },
    decreases metadata.len(),
{
    if metadata.len() == 0 {
    } else if metadata[0].json_id == json_id {
    } else {
        let t = metadata.drop_first();
        lemma_meta_idx(t, json_id);
        if meta_idx(t, json_id) == -1 {
            assert forall|i: int| 0 <= i < metadata.len() implies metadata[i].json_id != json_id by {
                if i > 0 {
                    assert(metadata[i] == t[i - 1]);
                }
            }
        } else {
            assert(metadata[meta_idx(metadata, json_id)] == t[meta_idx(t, json_id)]);
            assert forall|i: int| 0 <= i < meta_idx(metadata, json_id) implies metadata[i].json_id
                != json_id by {
                if i > 0 {
                    assert(metadata[i] == t[i - 1]);
                }
            }
        }
    }
}

impl StateModel {
    /// Whether a participant record keyed by `key` is live.
    pub open spec fn has_user(self, key: Seq<u8>) -> bool {
        user_idx(self.users, key) != -1
    }

    /// Whether a placeholder keyed by `json_id` is live.
    pub open spec fn has_meta(self, json_id: u64) -> bool {
        meta_idx(self.metadata, json_id) != -1
    }

    /// The invariants every reachable state satisfies: no records before
    /// initialization; the participant counter equals the number of live
    /// participant records; the historical placeholder counter dominates the
    /// number of live placeholders; keys are unique; every stored buffer has
    /// the fixed capacity.
    pub open spec fn wf(self) -> bool {
        &&& (self.global is None ==> self.users.len() == 0 && self.metadata.len() == 0)
        &&& (self.global matches Some(g) ==> {
            &&& g.user_count == self.users.len()
            &&& self.metadata.len() <= g.total_nft_count
        })
        &&& (forall|i: int, j: int|
            0 <= i < j < self.users.len() ==> self.users[i].user != self.users[j].user)
        &&& (forall|i: int, j: int|
            0 <= i < j < self.metadata.len()
                ==> self.metadata[i].json_id != self.metadata[j].json_id)
        &&& (forall|i: int| 0 <= i < self.metadata.len() ==> self.metadata[i].wf())
    }
}

/// The check every admin-gated operation makes first: the configuration must
/// exist and the caller must be the stored admin.
pub open spec fn admin_gate(pre: StateModel, caller: Seq<u8>) -> Option<NftMintError> {
    match pre.global {
        None => Some(NftMintError::MissingRecordError),
        Some(g) => if g.admin != caller {
            Some(NftMintError::AuthorizationError)
        } else {
            None
        },
    }
}

/// Creating the singleton configuration. Fails, and changes nothing, when it
/// already exists: initialization is not idempotent.
pub open spec fn spec_initialize(pre: StateModel, admin: Seq<u8>) -> (StateModel, Result<
    (),
    NftMintError,
>) {
    if pre.global is Some {
        (pre, Err(NftMintError::DuplicateRecordError))
    } else {
        (StateModel { global: Some(fresh_global(admin)), ..pre }, Ok(()))
    }
}

/// Overwriting one tier's supply cap and price: the priority tier when
/// `wl_type` is 0, the general whitelist tier otherwise. Admin only.
pub open spec fn spec_set_global_state(
    pre: StateModel,
    caller: Seq<u8>,
    wl_limit: u32,
    wl_price: u64,
    wl_type: u8,
) -> (StateModel, Result<(), NftMintError>) {
    match admin_gate(pre, caller) {
        Some(e) => (pre, Err(e)),
        None => {
            let g = pre.global->Some_0;
            let g2 = if wl_type == 0 {
                GlobalModel { og_limit: wl_limit, og_price: wl_price, ..g }
            } else {
                GlobalModel { wl_limit: wl_limit, wl_price: wl_price, ..g }
            };
            (StateModel { global: Some(g2), ..pre }, Ok(()))
        },
    }
}

/// Overwriting the currently active tier. Admin only; any value is accepted
/// and stored, as the stored record places no meaning on out-of-range tiers.
pub open spec fn spec_set_current_wl_type(pre: StateModel, caller: Seq<u8>, wl_type: u8) -> (
    StateModel,
    Result<(), NftMintError>,
) {
    match admin_gate(pre, caller) {
        Some(e) => (pre, Err(e)),
        None => (
            StateModel {
                global: Some(GlobalModel { cur_wl_type: wl_type, ..pre.global->Some_0 }),
                ..pre
            },
            Ok(()),
        ),
    }
}

/// Registering a participant under a tier. Admin only; fails on a duplicate
/// key; on success the participant counter grows by one with the new record.
pub open spec fn spec_init_user_state(
    pre: StateModel,
    caller: Seq<u8>,
    user: Seq<u8>,
    wl_type: u8,
) -> (StateModel, Result<(), NftMintError>) {
    match admin_gate(pre, caller) {
        Some(e) => (pre, Err(e)),
        None => if user_idx(pre.users, user) != -1 {
            (pre, Err(NftMintError::DuplicateRecordError))
        } else {
            let g = pre.global->Some_0;
            (
                StateModel {
                    global: Some(GlobalModel { user_count: g.user_count + 1, ..g }),
                    users: pre.users.push(UserModel { user: user, wl_type: wl_type }),
                    ..pre
                },
                Ok(()),
            )
        },
    }
}

/// Destroying a participant record. Admin only; decrementing the counter
/// below zero is refused as an underflow, never wrapped; fails when the
/// record does not exist.
pub open spec fn spec_close_user_state(pre: StateModel, caller: Seq<u8>, user: Seq<u8>) -> (
    StateModel,
    Result<(), NftMintError>,
) {
    match admin_gate(pre, caller) {
        Some(e) => (pre, Err(e)),
        None => {
            let g = pre.global->Some_0;
            if g.user_count == 0 {
                (pre, Err(NftMintError::UnderflowError))
            } else if user_idx(pre.users, user) == -1 {
                (pre, Err(NftMintError::MissingRecordError))
            } else {
                (
                    StateModel {
                        global: Some(GlobalModel { user_count: (g.user_count - 1) as nat, ..g }),
                        users: pre.users.remove(user_idx(pre.users, user)),
                        ..pre
                    },
                    Ok(()),
                )
            }
        },
    }
}

/// Registering a metadata placeholder. Admin only; fails on a duplicate
/// identifier, and on a URI longer than the fixed buffer rather than
/// truncating it; on success the historical placeholder counter grows by one
/// and the buffer holds the URI's bytes with zeroed trailing bytes.
pub open spec fn spec_init_ipfs_metadata(
    pre: StateModel,
    caller: Seq<u8>,
    json_id: u64,
    json_link: Seq<u8>,
) -> (StateModel, Result<(), NftMintError>) {
    match admin_gate(pre, caller) {
        Some(e) => (pre, Err(e)),
        None => if meta_idx(pre.metadata, json_id) != -1 {
            (pre, Err(NftMintError::DuplicateRecordError))
        } else if json_link.len() > URI_CAPACITY {
            (pre, Err(NftMintError::CapacityError))
        } else {
            let g = pre.global->Some_0;
            (
                StateModel {
                    global: Some(GlobalModel { total_nft_count: g.total_nft_count + 1, ..g }),
                    metadata: pre.metadata.push(
                        MetadataModel {
                            json_id: json_id,
                            is_minted: false,
                            json_link: padded_link(json_link),
                        },
                    ),
                    ..pre
                },
                Ok(()),
            )
        },
    }
}

/// Destroying a metadata placeholder. Admin only; fails when the placeholder
/// does not exist. The historical placeholder counter is an audit trail and
/// is deliberately not decremented.
pub open spec fn spec_close_ipfs_metadata(pre: StateModel, caller: Seq<u8>, json_id: u64) -> (
    StateModel,
    Result<(), NftMintError>,
) {
    match admin_gate(pre, caller) {
        Some(e) => (pre, Err(e)),
        None => if meta_idx(pre.metadata, json_id) == -1 {
            (pre, Err(NftMintError::MissingRecordError))
        } else {
            (
                StateModel { metadata: pre.metadata.remove(meta_idx(pre.metadata, json_id)), ..pre },
                Ok(()),
            )
        },
    }
}

/// The state change a successful mint commits: the placeholder is marked
/// consumed and the minted counter grows by one. A placeholder already
/// consumed is refused: its unit exists, and a second mint against it would
/// duplicate that unit.
pub open spec fn spec_mint_commit(pre: StateModel, json_id: u64) -> (StateModel, Result<
    (),
    NftMintError,
>) {
    if pre.global is None {
        (pre, Err(NftMintError::MissingRecordError))
    } else if meta_idx(pre.metadata, json_id) == -1 {
        (pre, Err(NftMintError::MissingRecordError))
    } else if pre.metadata[meta_idx(pre.metadata, json_id)].is_minted {
        (pre, Err(NftMintError::DuplicateRecordError))
    } else {
        let g = pre.global->Some_0;
        let k = meta_idx(pre.metadata, json_id);
        (
            StateModel {
                global: Some(GlobalModel { minted_nft_count: g.minted_nft_count + 1, ..g }),
                metadata: pre.metadata.update(
                    k,
                    MetadataModel { is_minted: true, ..pre.metadata[k] },
                ),
                ..pre
            },
            Ok(()),
        )
    }
}

} // verus!
