//! The global guarantees of the operation set, proved over the model of
//! `crate::model`: the reachable-state invariants, the one-shot nature of
//! initialization, the rejection of duplicate placeholders, and the one-way,
//! once-only life of a placeholder's consumed flag.

use vstd::prelude::*;
use crate::errors::NftMintError;
use crate::model::{
    empty_state, lemma_meta_idx, lemma_user_idx, meta_idx, spec_close_ipfs_metadata,
    spec_close_user_state, spec_init_ipfs_metadata, spec_init_user_state, spec_initialize,
    spec_mint_commit, spec_set_current_wl_type, spec_set_global_state, user_idx, StateModel,
};
use crate::records::MetadataModel;

verus! {

/// One submitted operation, named by its inputs.
pub enum Op {
    Initialize { admin: Seq<u8> },
    SetGlobalState { caller: Seq<u8>, wl_limit: u32, wl_price: u64, wl_type: u8 },
    SetCurrentWlType { caller: Seq<u8>, wl_type: u8 },
    InitUserState { caller: Seq<u8>, user: Seq<u8>, wl_type: u8 },
    CloseUserState { caller: Seq<u8>, user: Seq<u8> },
    InitIpfsMetadata { caller: Seq<u8>, json_id: u64, json_link: Seq<u8> },
    CloseIpfsMetadata { caller: Seq<u8>, json_id: u64 },
    MintNft { json_id: u64 },
}

/// The state `op` leaves behind, and its result.
pub open spec fn step(pre: StateModel, op: Op) -> (StateModel, Result<(), NftMintError>) {
    match op {
        Op::Initialize { admin } => spec_initialize(pre, admin),
        Op::SetGlobalState { caller, wl_limit, wl_price, wl_type } => spec_set_global_state(
            pre,
            caller,
            wl_limit,
            wl_price,
            wl_type,
        ),
        Op::SetCurrentWlType { caller, wl_type } => spec_set_current_wl_type(pre, caller, wl_type),
        Op::InitUserState { caller, user, wl_type } => spec_init_user_state(
            pre,
            caller,
            user,
            wl_type,
        ),
        Op::CloseUserState { caller, user } => spec_close_user_state(pre, caller, user),
        Op::InitIpfsMetadata { caller, json_id, json_link } => spec_init_ipfs_metadata(
            pre,
            caller,
            json_id,
            json_link,
        ),
        Op::CloseIpfsMetadata { caller, json_id } => spec_close_ipfs_metadata(pre, caller, json_id),
        Op::MintNft { json_id } => spec_mint_commit(pre, json_id),
    }
}

/// The state left behind by a whole sequence of operations, submitted in
/// order, each taking effect (or failing and changing nothing) before the
/// next.
pub open spec fn run(pre: StateModel, ops: Seq<Op>) -> StateModel
    decreases ops.len(),
{
    if ops.len() == 0 {
        pre
    } else {
        run(step(pre, ops[0]).0, ops.drop_first())
    }
}

/// Every single operation preserves the state invariants: in particular the
/// participant counter stays equal to the number of live participant records,
/// record keys stay unique, and stored buffers keep the fixed capacity.
pub proof fn lemma_step_preserves_wf(pre: StateModel, op: Op)
    requires
        pre.wf(),
    ensures
        step(pre, op).0.wf(),
{
    let post = step(pre, op).0;
    match op {
        Op::Initialize { admin } => {},
        Op::SetGlobalState { caller, wl_limit, wl_price, wl_type } => {},
        Op::SetCurrentWlType { caller, wl_type } => {},
        Op::InitUserState { caller, user, wl_type } => {
            if step(pre, op).1 is Ok {
                lemma_user_idx(pre.users, user);
                assert forall|i: int, j: int| 0 <= i < j < post.users.len() implies post.users[i].user
                    != post.users[j].user by {
                    if j < pre.users.len() {
                        assert(post.users[i] == pre.users[i]);
                        assert(post.users[j] == pre.users[j]);
                    } else {
                        assert(post.users[i] == pre.users[i]);
                        assert(pre.users[i].user != user);
                    }
                }
            }
        },
        Op::CloseUserState { caller, user } => {
            if step(pre, op).1 is Ok {
                let k = user_idx(pre.users, user);
                lemma_user_idx(pre.users, user);
                assert forall|i: int, j: int| 0 <= i < j < post.users.len() implies post.users[i].user
                    != post.users[j].user by {
                    let a: int = if i < k {
                        i
                    } else {
                        i + 1
                    };
                    let b: int = if j < k {
                        j
                    } else {
                        j + 1
                    };
                    assert(post.users[i] == pre.users[a]);
                    assert(post.users[j] == pre.users[b]);
                }
            }
        },
        Op::InitIpfsMetadata { caller, json_id, json_link } => {
            if step(pre, op).1 is Ok {
                lemma_meta_idx(pre.metadata, json_id);
                assert forall|i: int, j: int|
                    0 <= i < j < post.metadata.len() implies post.metadata[i].json_id
                    != post.metadata[j].json_id by {
                    if j < pre.metadata.len() {
                        assert(post.metadata[i] == pre.metadata[i]);
                        assert(post.metadata[j] == pre.metadata[j]);
                    } else {
                        assert(post.metadata[i] == pre.metadata[i]);
                        assert(pre.metadata[i].json_id != json_id);
                    }
                }
                assert forall|i: int| 0 <= i < post.metadata.len() implies post.metadata[i].wf() by {
                    if i < pre.metadata.len() {
                        assert(post.metadata[i] == pre.metadata[i]);
                    }
                }
            }
        },
        Op::CloseIpfsMetadata { caller, json_id } => {
            if step(pre, op).1 is Ok {
                let k = meta_idx(pre.metadata, json_id);
                lemma_meta_idx(pre.metadata, json_id);
                assert forall|i: int, j: int|
                    0 <= i < j < post.metadata.len() implies post.metadata[i].json_id
                    != post.metadata[j].json_id by {
                    let a: int = if i < k {
                        i
                    } else {
                        i + 1
                    };
                    let b: int = if j < k {
                        j
                    } else {
                        j + 1
                    };
                    assert(post.metadata[i] == pre.metadata[a]);
                    assert(post.metadata[j] == pre.metadata[b]);
                }
                assert forall|i: int| 0 <= i < post.metadata.len() implies post.metadata[i].wf() by {
                    let a: int = if i < k {
                        i
                    } else {
                        i + 1
                    };
                    assert(post.metadata[i] == pre.metadata[a]);
                }
            }
        },
        Op::MintNft { json_id } => {
            if step(pre, op).1 is Ok {
                let k = meta_idx(pre.metadata, json_id);
                lemma_meta_idx(pre.metadata, json_id);
                assert forall|i: int, j: int|
                    0 <= i < j < post.metadata.len() implies post.metadata[i].json_id
                    != post.metadata[j].json_id by {
                    assert(post.metadata[i].json_id == pre.metadata[i].json_id);
                    assert(post.metadata[j].json_id == pre.metadata[j].json_id);
                }
                assert forall|i: int| 0 <= i < post.metadata.len() implies post.metadata[i].wf() by {
                    assert(post.metadata[i].json_link == pre.metadata[i].json_link);
                }
            }
        },
    }
}

/// The invariants hold after any sequence of operations run from scratch.
pub proof fn lemma_run_preserves_wf(pre: StateModel, ops: Seq<Op>)
    requires
        pre.wf(),
    ensures
        run(pre, ops).wf(),
    decreases ops.len(),
{
    if ops.len() > 0 {
        lemma_step_preserves_wf(pre, ops[0]);
        lemma_run_preserves_wf(step(pre, ops[0]).0, ops.drop_first());
    }
}

/// After any sequence of operations run against an initially empty store, the
/// participant counter equals the number of currently-live participant
/// records.
pub proof fn lemma_participant_count_counts_live_records(ops: Seq<Op>)
    ensures
        run(empty_state(), ops).global matches Some(g) ==> g.user_count == run(
            empty_state(),
            ops,
        ).users.len(),
{
    assert(empty_state().wf());
    lemma_run_preserves_wf(empty_state(), ops);
}

/// The admin identity is set exactly once, at creation, and never changes:
/// once the configuration exists, no operation replaces it or its admin.
pub proof fn lemma_admin_never_changes(pre: StateModel, op: Op)
    requires
        pre.global is Some,
    ensures
        step(pre, op).0.global is Some,
        step(pre, op).0.global->Some_0.admin == pre.global->Some_0.admin,
{
}

/// The historical placeholder counter and the minted counter are monotone:
/// no operation ever decreases either.
pub proof fn lemma_audit_counters_monotone(pre: StateModel, op: Op)
    requires
        pre.global is Some,
    ensures
        step(pre, op).0.global->Some_0.total_nft_count >= pre.global->Some_0.total_nft_count,
        step(pre, op).0.global->Some_0.minted_nft_count >= pre.global->Some_0.minted_nft_count,
{
    lemma_admin_never_changes(pre, op);
}

/// Initialization is not idempotent: once it has succeeded, a second
/// initialization against the same singleton fails as a duplicate and changes
/// nothing, whoever attempts it.
pub proof fn lemma_initialize_not_idempotent(pre: StateModel, first: Seq<u8>, second: Seq<u8>)
    requires
        spec_initialize(pre, first).1 is Ok,
    ensures
        spec_initialize(spec_initialize(pre, first).0, second).1 == Err::<(), NftMintError>(
            NftMintError::DuplicateRecordError,
        ),
        spec_initialize(spec_initialize(pre, first).0, second).0 == spec_initialize(pre, first).0,
{
}

/// A caller other than the stored admin cannot reconfigure: the attempt fails
/// as unauthorized and every limit, price and counter is left unchanged.
pub proof fn lemma_non_admin_cannot_configure(
    pre: StateModel,
    caller: Seq<u8>,
    wl_limit: u32,
    wl_price: u64,
    wl_type: u8,
)
    requires
        pre.global matches Some(g) && g.admin != caller,
    ensures
        spec_set_global_state(pre, caller, wl_limit, wl_price, wl_type).1 == Err::<
            (),
            NftMintError,
        >(NftMintError::AuthorizationError),
        spec_set_global_state(pre, caller, wl_limit, wl_price, wl_type).0 == pre,
{
}

/// A URI longer than the fixed buffer is refused outright: the registration
/// reports a capacity failure, stores nothing and truncates nothing.
pub proof fn lemma_overlong_uri_rejected(
    pre: StateModel,
    caller: Seq<u8>,
    json_id: u64,
    json_link: Seq<u8>,
)
    requires
        json_link.len() > crate::records::URI_CAPACITY,
    ensures
        spec_init_ipfs_metadata(pre, caller, json_id, json_link).1 is Ok == false,
        spec_init_ipfs_metadata(pre, caller, json_id, json_link).0 == pre,
        crate::model::admin_gate(pre, caller) is None && !pre.has_meta(json_id)
            ==> spec_init_ipfs_metadata(pre, caller, json_id, json_link).1 == Err::<
            (),
            NftMintError,
        >(NftMintError::CapacityError),
{
}

/// Deregistering a participant when the counter already stands at zero is an
/// underflow failure, never a silent wrap to a large value: the counter and
/// the records are left exactly as they were.
pub proof fn lemma_deregister_at_zero_underflows(pre: StateModel, caller: Seq<u8>, user: Seq<u8>)
    requires
        pre.global matches Some(g) && g.admin == caller && g.user_count == 0,
    ensures
        spec_close_user_state(pre, caller, user).1 == Err::<(), NftMintError>(
            NftMintError::UnderflowError,
        ),
        spec_close_user_state(pre, caller, user).0 == pre,
{
}

/// Registering a placeholder twice under one identifier fails: the second
/// registration reports a duplicate and leaves the whole state — the stored
/// buffer included — exactly as the first left it.
pub proof fn lemma_duplicate_placeholder_rejected(
    pre: StateModel,
    caller: Seq<u8>,
    json_id: u64,
    first_link: Seq<u8>,
    second_link: Seq<u8>,
)
    requires
        spec_init_ipfs_metadata(pre, caller, json_id, first_link).1 is Ok,
    ensures
        spec_init_ipfs_metadata(
            spec_init_ipfs_metadata(pre, caller, json_id, first_link).0,
            caller,
            json_id,
            second_link,
        ).1 == Err::<(), NftMintError>(NftMintError::DuplicateRecordError),
        spec_init_ipfs_metadata(
            spec_init_ipfs_metadata(pre, caller, json_id, first_link).0,
            caller,
            json_id,
            second_link,
        ).0 == spec_init_ipfs_metadata(pre, caller, json_id, first_link).0,
{
    let mid = spec_init_ipfs_metadata(pre, caller, json_id, first_link).0;
    let last = pre.metadata.len() as int;
    assert(mid.metadata[last].json_id == json_id);
    lemma_meta_idx(mid.metadata, json_id);
}

/// Two sequences of placeholders with the same identifiers at every position
/// agree on where any identifier first occurs.
proof fn lemma_meta_idx_same_ids(s1: Seq<MetadataModel>, s2: Seq<MetadataModel>, json_id: u64)
    requires
        s1.len() == s2.len(),
        forall|i: int| 0 <= i < s1.len() ==> s1[i].json_id == s2[i].json_id,
    ensures
        meta_idx(s1, json_id) == meta_idx(s2, json_id),
    decreases s1.len(),
{
    if s1.len() > 0 {
        assert forall|i: int|
            0 <= i < s1.drop_first().len() implies s1.drop_first()[i].json_id
            == s2.drop_first()[i].json_id by {
            assert(s1.drop_first()[i] == s1[i + 1]);
            assert(s2.drop_first()[i] == s2[i + 1]);
        }
        lemma_meta_idx_same_ids(s1.drop_first(), s2.drop_first(), json_id);
    }
}

/// A placeholder is consumed at most once: after a successful mint commit, a
/// second mint commit against the same placeholder is refused as a duplicate
/// and changes nothing.
pub proof fn lemma_mint_consumes_once(pre: StateModel, json_id: u64)
    requires
        spec_mint_commit(pre, json_id).1 is Ok,
    ensures
        spec_mint_commit(spec_mint_commit(pre, json_id).0, json_id).1 == Err::<(), NftMintError>(
            NftMintError::DuplicateRecordError,
        ),
        spec_mint_commit(spec_mint_commit(pre, json_id).0, json_id).0 == spec_mint_commit(
            pre,
            json_id,
        ).0,
{
    let mid = spec_mint_commit(pre, json_id).0;
    let k = meta_idx(pre.metadata, json_id);
    lemma_meta_idx(pre.metadata, json_id);
    lemma_meta_idx_same_ids(pre.metadata, mid.metadata, json_id);
    assert(mid.metadata[k].is_minted);
}

/// A mint request that passes validation owes its commit: once the
/// configuration exists and the placeholder is live and unconsumed, marking
/// it consumed and counting the unit succeeds.
pub proof fn lemma_validated_mint_commits(pre: StateModel, uri: Seq<char>, json_id: u64)
    requires
        crate::mint::spec_mint_validate(pre, uri, json_id) is None,
    ensures
        spec_mint_commit(pre, json_id).1 is Ok,
{
}

/// The consumed flag never moves back: whatever operation runs next, a
/// placeholder that stood consumed is afterwards either gone or still
/// consumed.
pub proof fn lemma_consumed_is_final(pre: StateModel, op: Op, json_id: u64)
    requires
        pre.wf(),
        pre.has_meta(json_id),
        pre.metadata[meta_idx(pre.metadata, json_id)].is_minted,
    ensures
        step(pre, op).0.has_meta(json_id) ==> step(pre, op).0.metadata[meta_idx(
            step(pre, op).0.metadata,
            json_id,
        )].is_minted,

{
    let post = step(pre, op).0;
    let k = meta_idx(pre.metadata, json_id);
    lemma_meta_idx(pre.metadata, json_id);
    // By key uniqueness, the record at `k` is the only one keyed by
    // `json_id`; every way `op` can reshape the sequence leaves each
    // remaining record keyed by `json_id` consumed.
    assert forall|i: int|
        0 <= i < post.metadata.len() && post.metadata[i].json_id == json_id implies post.metadata[i].is_minted by {
        match op {
            Op::Initialize { .. } => {},
            Op::SetGlobalState { .. } => {},
            Op::SetCurrentWlType { .. } => {},
            Op::InitUserState { .. } => {},
            Op::CloseUserState { .. } => {},
            Op::InitIpfsMetadata { caller, json_id: new_id, json_link } => {
                if step(pre, op).1 is Ok {
                    lemma_meta_idx(pre.metadata, new_id);
                    if i < pre.metadata.len() {
                        assert(post.metadata[i] == pre.metadata[i]);
                        assert(i == k);
                    } else {
                        assert(post.metadata[i].json_id == new_id);
                        assert(pre.metadata[k].json_id != new_id);
                    }
                } else {
                    assert(post == pre);
                    assert(i == k);
                }
            },
            Op::CloseIpfsMetadata { caller, json_id: gone_id } => {
                if step(pre, op).1 is Ok {
                    lemma_meta_idx(pre.metadata, gone_id);
                    let r = meta_idx(pre.metadata, gone_id);
                    let a: int = if i < r {
                        i
                    } else {
                        i + 1
                    };
                    assert(post.metadata[i] == pre.metadata[a]);
                    if a < k {
                        assert(pre.metadata[a].json_id != pre.metadata[k].json_id);
                    }
                    if k < a {
                        assert(pre.metadata[k].json_id != pre.metadata[a].json_id);
                    }
                    assert(a == k);
                } else {
                    assert(post == pre);
                    assert(i == k);
                }
            },
            Op::MintNft { json_id: mint_id } => {
                if step(pre, op).1 is Ok {
                    lemma_meta_idx(pre.metadata, mint_id);
                    let r = meta_idx(pre.metadata, mint_id);
                    if i == r {
                    } else {
                        assert(post.metadata[i] == pre.metadata[i]);
                        if i < k {
                            assert(pre.metadata[i].json_id != pre.metadata[k].json_id);
                        }
                        if k < i {
                            assert(pre.metadata[k].json_id != pre.metadata[i].json_id);
                        }
                        assert(i == k);
                    }
                } else {
                    assert(post == pre);
                    assert(i == k);
                }
            },
        }
    }
    if post.has_meta(json_id) {
        lemma_meta_idx(post.metadata, json_id);
    }
}

} // verus!
