//! The Index reconciler: ensures the named index exists on the referenced
//! engine and, when requested, adopts or mints an admin key scoped to the
//! index, materialized into a secret. On deletion the index is removed from
//! the engine only when `deleteOnFinalize` is set and the referenced Server
//! is not itself going away.

use vstd::prelude::*;
use vstd::utf8::{encode_utf8, valid_utf8};

use crate::api::{
    next_offset, server_is_deleting, spec_next_offset, spec_server_is_deleting,
    with_operator_finalizer, Request, ResourceKind, Response,
};
use crate::crds::{IndexObject, IndexStatus};
use crate::engine::{
    find_matching_admin_key, spec_matches_admin, views_of, EngineAction, KeyItem,
};
use crate::names::{
    admin_key_description, admin_key_name, default_admin_secret_name, endpoint_url,
    master_secret_name, operator_finalizer, spec_admin_key_description, spec_admin_key_name,
    spec_default_admin_secret_name, spec_endpoint_url, spec_master_secret_name,
    spec_operator_finalizer,
};
use crate::secrets::{build_stored_secret, spec_stored_key_secret, string_from_utf8};

verus! {

/// Page size of the engine's key listing.
pub open spec fn spec_keys_page_limit() -> u64 {
    1000
}

/// Where an Index reconcile stands.
#[derive(Debug, Clone, PartialEq)]
pub enum IndexStep {
    Init,
    /// Deletion path: asked whether the referenced Server is going away.
    AfterServerCheck,
    /// Deletion path: asked for the master key to drive the engine delete.
    AfterGetMasterForDelete,
    AfterEngineDeleteIndex,
    AfterClearFinalizer,
    AfterEnsureFinalizer,
    AfterGetMaster,
    AfterCreateIndex { master_key: String },
    /// Accumulating the engine's key listing to look for an adoptable admin
    /// key.
    Listing { master_key: String, offset: u64, acc: Vec<KeyItem> },
    AfterCreateAdminKey,
    AfterStoreSecret { message: Option<String> },
    AfterPatchStatus,
    /// Reconciled; requeue after the steady-state interval.
    Done,
    /// Deletion handled and finalizer cleared; await the next change.
    Cleaned,
    /// The reconcile failed; the driver applies the error policy.
    Failed,
}

pub fn index_reconcile_init() -> (s: IndexStep)
    ensures
        s is Init,
{
    IndexStep::Init
}

/// Whether the reconcile ended successfully.
pub fn index_reconcile_done(step: &IndexStep) -> (r: bool)
    ensures
        r == (step is Done || step is Cleaned),
{
    match step {
        IndexStep::Done => true,
        IndexStep::Cleaned => true,
        _ => false,
    }
}

/// Whether the reconcile failed.
pub fn index_reconcile_error(step: &IndexStep) -> (r: bool)
    ensures
        r == (step is Failed),
{
    match step {
        IndexStep::Failed => true,
        _ => false,
    }
}

/// Seconds after which a successful Index reconcile is repeated.
pub fn index_requeue_secs() -> (r: u64)
    ensures
        r == 600,
{
    600
}

/// Seconds after which a failed Index reconcile is retried.
pub fn index_error_requeue_secs() -> (r: u64)
    ensures
        r == 60,
{
    60
}

/// The engine endpoint an Index talks to: its server, in its namespace, on
/// the stock engine port.
pub open spec fn spec_index_endpoint(idx: IndexObject) -> Seq<char> {
    spec_endpoint_url(idx.spec.server_ref@, idx.metadata.namespace@, 7700)
}

/// The namespace the admin-key secret goes to: as declared, defaulting to
/// the resource's own namespace.
pub open spec fn spec_admin_target_ns(idx: IndexObject) -> Seq<char> {
    match idx.spec.admin_key {
        Some(ak) => match ak.secret_namespace {
            Some(s) => s@,
            None => idx.metadata.namespace@,
        },
        None => idx.metadata.namespace@,
    }
}

/// The name the admin-key secret gets: as declared, defaulting to
/// `<uid>-admin-key`.
pub open spec fn spec_admin_secret_name(idx: IndexObject) -> Seq<char> {
    match idx.spec.admin_key {
        Some(ak) => match ak.secret_name {
            Some(s) => s@,
            None => spec_default_admin_secret_name(idx.spec.uid@),
        },
        None => spec_default_admin_secret_name(idx.spec.uid@),
    }
}

/// Whether the Index asks for an admin key at all.
pub open spec fn spec_wants_admin_key(idx: IndexObject) -> bool {
    idx.spec.admin_key matches Some(ak) && ak.create
}

/// The read of the referenced server's master-key secret. The driver treats
/// a missing secret as a failed reconcile; a missing entry answers `None`.
pub open spec fn spec_index_get_master_req(idx: IndexObject, req: Option<Request>) -> bool {
    req matches Some(Request::GetSecretEntry { namespace, name, entry }) && namespace@
        == idx.metadata.namespace@ && name@ == spec_master_secret_name(idx.spec.server_ref@)
        && entry@ == "masterKey"@
}

/// One page request of the engine's key listing.
pub open spec fn spec_index_list_req(
    idx: IndexObject,
    master_key: Seq<char>,
    offset: u64,
    req: Option<Request>,
) -> bool {
    req matches Some(Request::EngineListKeysPage { endpoint, master_key: mk, offset: o, limit })
        && endpoint@ == spec_index_endpoint(idx) && mk@ == master_key && o == offset && limit
        == spec_keys_page_limit()
}

/// The write of the admin-key secret, owned by the Index exactly when it
/// stays in the Index's namespace.
pub open spec fn spec_admin_store_req(
    idx: IndexObject,
    value: Seq<char>,
    req: Option<Request>,
) -> bool {
    req matches Some(Request::CreateSecret { namespace, secret }) && namespace@
        == spec_admin_target_ns(idx) && spec_stored_key_secret(
        "Index"@,
        idx.metadata.namespace@,
        idx.metadata.name@,
        idx.metadata.uid@,
        spec_admin_target_ns(idx),
        spec_admin_secret_name(idx),
        value,
        secret,
    )
}

/// The status patch closing a successful reconcile.
pub open spec fn spec_index_status_req(
    idx: IndexObject,
    message: Option<String>,
    req: Option<Request>,
) -> bool {
    req matches Some(Request::PatchIndexStatus { namespace, name, status }) && namespace@
        == idx.metadata.namespace@ && name@ == idx.metadata.name@ && status.ready
        && (match (status.message, message) {
        (Some(a), Some(b)) => a@ == b@,
        (None, None) => true,
        _ => false,
    })
}

/// A failing step: no request, the error policy takes over.
pub open spec fn spec_index_step_failed(res: (IndexStep, Option<Request>)) -> bool {
    res.0 is Failed && res.1 is None
}

/// The transition relation of the Index reconciler.
pub open spec fn index_step_spec(
    idx: IndexObject,
    resp: Option<Response>,
    step: IndexStep,
    res: (IndexStep, Option<Request>),
) -> bool {
    let ns = idx.metadata.namespace@;
    let name = idx.metadata.name@;
    match step {
        IndexStep::Init => if idx.metadata.deleting {
            &&& res.0 is AfterServerCheck
            &&& (res.1 matches Some(Request::GetServerDeleting { namespace, name: n })
                && namespace@ == ns && n@ == idx.spec.server_ref@)
        } else if views_of(idx.metadata.finalizers@).contains(spec_operator_finalizer()) {
            &&& res.0 is AfterGetMaster
            &&& spec_index_get_master_req(idx, res.1)
        } else {
            &&& res.0 is AfterEnsureFinalizer
            &&& (res.1 matches Some(
                Request::SetFinalizers { kind, namespace, name: n, finalizers },
            ) && kind is Index && namespace@ == ns && n@ == name && (finalizers matches Some(fs)
                && fs@.len() == idx.metadata.finalizers@.len() + 1 && fs@[fs@.len() - 1]@
                == spec_operator_finalizer() && forall|i: int|
                0 <= i < idx.metadata.finalizers@.len() ==> fs@[i]@ == #[trigger] idx.metadata.finalizers@[i]@))
        },
        IndexStep::AfterServerCheck => match resp {
            Some(Response::ServerState { deleting }) => if !spec_server_is_deleting(deleting)
                && idx.spec.delete_on_finalize {
                &&& res.0 is AfterGetMasterForDelete
                &&& spec_index_get_master_req(idx, res.1)
            } else {
                &&& res.0 is AfterClearFinalizer
                &&& spec_index_clear_finalizer_req(idx, res.1)
            },
            _ => spec_index_step_failed(res),
        },
        IndexStep::AfterGetMasterForDelete => match resp {
            Some(Response::SecretEntry(entry)) => match entry {
                Some(bytes) => if valid_utf8(bytes@) {
                    res.0 is AfterEngineDeleteIndex && (res.1 matches Some(
                        Request::EngineDeleteIndex { endpoint, master_key, uid },
                    ) && endpoint@ == spec_index_endpoint(idx) && encode_utf8(master_key@)
                        == bytes@ && uid@ == idx.spec.uid@)
                } else {
                    spec_index_step_failed(res)
                },
                None => spec_index_step_failed(res),
            },
            _ => spec_index_step_failed(res),
        },
        IndexStep::AfterEngineDeleteIndex => if resp matches Some(Response::Done) {
            res.0 is AfterClearFinalizer && spec_index_clear_finalizer_req(idx, res.1)
        } else {
            spec_index_step_failed(res)
        },
        IndexStep::AfterClearFinalizer => if resp matches Some(Response::Done) {
            res.0 is Cleaned && res.1 is None
        } else {
            spec_index_step_failed(res)
        },
        IndexStep::AfterEnsureFinalizer => if resp matches Some(Response::Done) {
            res.0 is AfterGetMaster && spec_index_get_master_req(idx, res.1)
        } else {
            spec_index_step_failed(res)
        },
        IndexStep::AfterGetMaster => match resp {
            Some(Response::SecretEntry(entry)) => match entry {
                Some(bytes) => if valid_utf8(bytes@) {
                    res.0 matches IndexStep::AfterCreateIndex { master_key } && encode_utf8(
                        master_key@,
                    ) == bytes@ && (res.1 matches Some(
                        Request::EngineCreateIndex { endpoint, master_key: mk, uid, primary_key },
                    ) && endpoint@ == spec_index_endpoint(idx) && mk@ == master_key@ && uid@
                        == idx.spec.uid@ && (match (primary_key, idx.spec.primary_key) {
                        (Some(a), Some(b)) => a@ == b@,
                        (None, None) => true,
                        _ => false,
                    }))
                } else {
                    spec_index_step_failed(res)
                },
                None => spec_index_step_failed(res),
            },
            _ => spec_index_step_failed(res),
        },
        IndexStep::AfterCreateIndex { master_key } => if resp matches Some(Response::Done) {
            if spec_wants_admin_key(idx) {
                &&& (res.0 matches IndexStep::Listing { master_key: mk, offset, acc } && mk@
                    == master_key@ && offset == 0 && acc@ =~= Seq::<KeyItem>::empty())
                &&& spec_index_list_req(idx, master_key@, 0, res.1)
            } else {
                &&& (res.0 matches IndexStep::AfterPatchStatus)
                &&& spec_index_status_req(idx, None, res.1)
            }
        } else {
            spec_index_step_failed(res)
        },
        IndexStep::Listing { master_key, offset, acc } => match resp {
            Some(Response::KeysPage { results, total }) => {
                let acc2 = acc@ + results@;
                let off2 = spec_next_offset(offset, results@.len() as nat);
                if off2 >= total {
                    if exists|i: int|
                        0 <= i < acc2.len() && spec_matches_admin(idx.spec.uid@, acc2[i]) {
                        let i = choose|i: int|
                            0 <= i < acc2.len() && spec_matches_admin(idx.spec.uid@, acc2[i])
                                && forall|j: int|
                                0 <= j < i ==> !spec_matches_admin(idx.spec.uid@, #[trigger] acc2[j]);
                        &&& (res.0 matches IndexStep::AfterStoreSecret { message } && (message
                            matches Some(m) && m@ == "adopted existing admin key"@))
                        &&& spec_admin_store_req(idx, acc2[i].key@, res.1)
                    } else {
                        &&& res.0 is AfterCreateAdminKey
                        &&& (res.1 matches Some(
                            Request::EngineCreateKey { endpoint, master_key: mk, draft },
                        ) && endpoint@ == spec_index_endpoint(idx) && mk@ == master_key@
                            && (draft.name@ == spec_admin_key_name(idx.spec.uid@)
                            && (draft.description matches Some(d) && d@
                            == spec_admin_key_description(idx.spec.uid@)) && draft.actions@.len()
                            == 1 && draft.actions@[0] is All && draft.indexes@.len() == 1
                            && draft.indexes@[0]@ == idx.spec.uid@ && draft.expires_at_nanos
                            is None))
                    }
                } else {
                    &&& (res.0 matches IndexStep::Listing { master_key: mk, offset: o, acc: a }
                        && mk@ == master_key@ && o == off2 && a@ == acc2)
                    &&& spec_index_list_req(idx, master_key@, off2, res.1)
                }
            },
            _ => spec_index_step_failed(res),
        },
        IndexStep::AfterCreateAdminKey => match resp {
            Some(Response::KeyCreated { key, uid }) => {
                &&& (res.0 matches IndexStep::AfterStoreSecret { message } && message is None)
                &&& spec_admin_store_req(idx, key@, res.1)
            },
            _ => spec_index_step_failed(res),
        },
        IndexStep::AfterStoreSecret { message } => if resp matches Some(Response::Done) {
            res.0 is AfterPatchStatus && spec_index_status_req(idx, message, res.1)
        } else {
            spec_index_step_failed(res)
        },
        IndexStep::AfterPatchStatus => if resp matches Some(Response::Done) {
            res.0 is Done && res.1 is None
        } else {
            spec_index_step_failed(res)
        },
        IndexStep::Done => res.0 is Done && res.1 is None,
        IndexStep::Cleaned => res.0 is Cleaned && res.1 is None,
        IndexStep::Failed => res.0 is Failed && res.1 is None,
    }
}

/// The merge patch clearing the Index's finalizers.
pub open spec fn spec_index_clear_finalizer_req(idx: IndexObject, req: Option<Request>) -> bool {
    req matches Some(Request::SetFinalizers { kind, namespace, name, finalizers }) && kind
        is Index && namespace@ == idx.metadata.namespace@ && name@ == idx.metadata.name@
        && finalizers is None
}

/// One step of the Index reconcile.
pub fn reconcile_step(idx: &IndexObject, resp: Option<Response>, step: IndexStep) -> (res: (
    IndexStep,
    Option<Request>,
))
    ensures
        index_step_spec(*idx, resp, step, res),
{
    let ns = &idx.metadata.namespace;
    let name = &idx.metadata.name;
    match step {
        IndexStep::Init => {
            if idx.metadata.deleting {
                (
                    IndexStep::AfterServerCheck,
                    Some(
                        Request::GetServerDeleting {
                            namespace: ns.clone(),
                            name: idx.spec.server_ref.clone(),
                        },
                    ),
                )
            } else if crate::api::has_operator_finalizer(&idx.metadata.finalizers) {
                (IndexStep::AfterGetMaster, Some(index_get_master_req(idx)))
            } else {
                let fs = with_operator_finalizer(&idx.metadata.finalizers);
                (
                    IndexStep::AfterEnsureFinalizer,
                    Some(
                        Request::SetFinalizers {
                            kind: ResourceKind::Index,
                            namespace: ns.clone(),
                            name: name.clone(),
                            finalizers: Some(fs),
                        },
                    ),
                )
            }
        },
        IndexStep::AfterServerCheck => {
            match resp {
                Some(Response::ServerState { deleting }) => {
                    if !server_is_deleting(&deleting) && idx.spec.delete_on_finalize {
                        (IndexStep::AfterGetMasterForDelete, Some(index_get_master_req(idx)))
                    } else {
                        (IndexStep::AfterClearFinalizer, Some(index_clear_finalizer_req(idx)))
                    }
                },
                _ => (IndexStep::Failed, None),
            }
        },
        IndexStep::AfterGetMasterForDelete => {
            match resp {
                Some(Response::SecretEntry(entry)) => {
                    match entry {
                        Some(bytes) => {
                            match string_from_utf8(bytes) {
                                Some(master_key) => (
                                    IndexStep::AfterEngineDeleteIndex,
                                    Some(
                                        Request::EngineDeleteIndex {
                                            endpoint: index_endpoint(idx),
                                            master_key,
                                            uid: idx.spec.uid.clone(),
                                        },
                                    ),
                                ),
                                None => (IndexStep::Failed, None),
                            }
                        },
                        None => (IndexStep::Failed, None),
                    }
                },
                _ => (IndexStep::Failed, None),
            }
        },
        IndexStep::AfterEngineDeleteIndex => {
            match resp {
                Some(Response::Done) => (
                    IndexStep::AfterClearFinalizer,
                    Some(index_clear_finalizer_req(idx)),
                ),
                _ => (IndexStep::Failed, None),
            }
        },
        IndexStep::AfterClearFinalizer => {
            match resp {
                Some(Response::Done) => (IndexStep::Cleaned, None),
                _ => (IndexStep::Failed, None),
            }
        },
        IndexStep::AfterEnsureFinalizer => {
            match resp {
                Some(Response::Done) => (IndexStep::AfterGetMaster, Some(index_get_master_req(idx))),
                _ => (IndexStep::Failed, None),
            }
        },
        IndexStep::AfterGetMaster => {
            match resp {
                Some(Response::SecretEntry(entry)) => {
                    match entry {
                        Some(bytes) => {
                            match string_from_utf8(bytes) {
                                Some(master_key) => {
                                    let primary_key: Option<String> = match &idx.spec.primary_key {
                                        Some(p) => Some(p.clone()),
                                        None => None,
                                    };
                                    let req = Request::EngineCreateIndex {
                                        endpoint: index_endpoint(idx),
                                        master_key: master_key.clone(),
                                        uid: idx.spec.uid.clone(),
                                        primary_key,
                                    };
                                    (IndexStep::AfterCreateIndex { master_key }, Some(req))
                                },
                                None => (IndexStep::Failed, None),
                            }
                        },
                        None => (IndexStep::Failed, None),
                    }
                },
                _ => (IndexStep::Failed, None),
            }
        },
        IndexStep::AfterCreateIndex { master_key } => {
            match resp {
                Some(Response::Done) => {
                    let wants = match &idx.spec.admin_key {
                        Some(ak) => ak.create,
                        None => false,
                    };
                    if wants {
                        let req = index_list_req(idx, &master_key, 0);
                        (
                            IndexStep::Listing { master_key, offset: 0, acc: Vec::new() },
                            Some(req),
                        )
                    } else {
                        (IndexStep::AfterPatchStatus, Some(index_status_req(idx, None)))
                    }
                },
                _ => (IndexStep::Failed, None),
            }
        },
        IndexStep::Listing { master_key, offset, acc } => {
            match resp {
                Some(Response::KeysPage { mut results, total }) => {
                    let mut acc2 = acc;
                    let page_len = results.len();
                    acc2.append(&mut results);
                    let off2 = next_offset(offset, page_len);
                    if off2 >= total {
                        match find_matching_admin_key(&acc2, idx.spec.uid.as_str()) {
                            Some(i) => {
                                let value = acc2[i].key.clone();
                                let req = admin_store_req(idx, &value);
                                (
                                    IndexStep::AfterStoreSecret {
                                        message: Some("adopted existing admin key".to_owned()),
                                    },
                                    Some(req),
                                )
                            },
                            None => {
                                let mut actions: Vec<EngineAction> = Vec::new();
                                actions.push(EngineAction::All);
                                let mut indexes: Vec<String> = Vec::new();
                                indexes.push(idx.spec.uid.clone());
                                let draft = crate::api::KeyDraft {
                                    name: admin_key_name(idx.spec.uid.as_str()),
                                    description: Some(
                                        admin_key_description(idx.spec.uid.as_str()),
                                    ),
                                    actions,
                                    indexes,
                                    expires_at_nanos: None,
                                };
                                (
                                    IndexStep::AfterCreateAdminKey,
                                    Some(
                                        Request::EngineCreateKey {
                                            endpoint: index_endpoint(idx),
                                            master_key,
                                            draft,
                                        },
                                    ),
                                )
                            },
                        }
                    } else {
                        let req = index_list_req(idx, &master_key, off2);
                        (
                            IndexStep::Listing { master_key, offset: off2, acc: acc2 },
                            Some(req),
                        )
                    }
                },
                _ => (IndexStep::Failed, None),
            }
        },
        IndexStep::AfterCreateAdminKey => {
            match resp {
                Some(Response::KeyCreated { key, uid: _ }) => {
                    let req = admin_store_req(idx, &key);
                    (IndexStep::AfterStoreSecret { message: None }, Some(req))
                },
                _ => (IndexStep::Failed, None),
            }
        },
        IndexStep::AfterStoreSecret { message } => {
            match resp {
                Some(Response::Done) => {
                    let req = index_status_req(idx, message);
                    (IndexStep::AfterPatchStatus, Some(req))
                },
                _ => (IndexStep::Failed, None),
            }
        },
        IndexStep::AfterPatchStatus => {
            match resp {
                Some(Response::Done) => (IndexStep::Done, None),
                _ => (IndexStep::Failed, None),
            }
        },
        IndexStep::Done => (IndexStep::Done, None),
        IndexStep::Cleaned => (IndexStep::Cleaned, None),
        IndexStep::Failed => (IndexStep::Failed, None),
    }
}

/// Law: a live Index's reconcile puts the operator finalizer in place before
/// anything else: either the resource already carries it, or the very first
/// request patches a finalizer list that carries it (appended to the
/// existing finalizers).
pub proof fn lemma_live_index_reconcile_requests_finalizer(
    idx: IndexObject,
    resp: Option<Response>,
    res: (IndexStep, Option<Request>),
)
    requires
        !idx.metadata.deleting,
        index_step_spec(idx, resp, IndexStep::Init, res),
    ensures
        views_of(idx.metadata.finalizers@).contains(spec_operator_finalizer()) || (res.1 matches
            Some(Request::SetFinalizers { finalizers, .. }) && (finalizers matches Some(fs)
            && views_of(fs@).contains(spec_operator_finalizer()))),
{
    if !views_of(idx.metadata.finalizers@).contains(spec_operator_finalizer()) {
        match res.1 {
            Some(Request::SetFinalizers { finalizers: Some(fs), .. }) => {
                assert(fs@[fs@.len() - 1]@ == spec_operator_finalizer());
                assert(crate::engine::seq_has_view(fs@, spec_operator_finalizer()));
            },
            _ => {},
        }
    }
}

/// Law: once the referenced Server is observed deleting (or gone), the Index
/// reconcile issues no engine call at all: the finalizer is cleared
/// directly, whatever `deleteOnFinalize` says.
pub proof fn lemma_index_skips_engine_when_server_deleting(
    idx: IndexObject,
    deleting: Option<bool>,
    res: (IndexStep, Option<Request>),
)
    requires
        spec_server_is_deleting(deleting),
        index_step_spec(
            idx,
            Some(Response::ServerState { deleting }),
            IndexStep::AfterServerCheck,
            res,
        ),
    ensures
        res.0 is AfterClearFinalizer,
        spec_index_clear_finalizer_req(idx, res.1),
        res.1 matches Some(req) ==> !crate::api::spec_is_engine_request(req),
{
}

/// Law: when the accumulated key listing holds an admin key for the index,
/// the reconcile adopts it: the stored secret carries the first such key's
/// value, the status message reports the adoption, and no engine key is
/// created.
pub proof fn lemma_admin_adoption_creates_no_key(
    idx: IndexObject,
    master_key: String,
    offset: u64,
    acc: Vec<KeyItem>,
    results: Vec<KeyItem>,
    total: u64,
    res: (IndexStep, Option<Request>),
)
    requires
        index_step_spec(
            idx,
            Some(Response::KeysPage { results, total }),
            IndexStep::Listing { master_key, offset, acc },
            res,
        ),
        spec_next_offset(offset, results@.len() as nat) >= total,
        exists|i: int|
            0 <= i < (acc@ + results@).len() && spec_matches_admin(
                idx.spec.uid@,
                (acc@ + results@)[i],
            ),
    ensures
        res.1 matches Some(req) ==> !crate::api::spec_is_engine_request(req),
        res.1 matches Some(Request::CreateSecret { .. }),
        res.0 matches IndexStep::AfterStoreSecret { message } && (message matches Some(m) && m@
            == "adopted existing admin key"@),
{
}

/// View-level agreement of two Index reconcile steps: same position in the
/// reconcile, and any carried payloads agree.
pub open spec fn index_step_like(a: IndexStep, b: IndexStep) -> bool {
    match (a, b) {
        (IndexStep::Init, IndexStep::Init) => true,
        (IndexStep::AfterServerCheck, IndexStep::AfterServerCheck) => true,
        (IndexStep::AfterGetMasterForDelete, IndexStep::AfterGetMasterForDelete) => true,
        (IndexStep::AfterEngineDeleteIndex, IndexStep::AfterEngineDeleteIndex) => true,
        (IndexStep::AfterClearFinalizer, IndexStep::AfterClearFinalizer) => true,
        (IndexStep::AfterEnsureFinalizer, IndexStep::AfterEnsureFinalizer) => true,
        (IndexStep::AfterGetMaster, IndexStep::AfterGetMaster) => true,
        (
            IndexStep::AfterCreateIndex { master_key: k1 },
            IndexStep::AfterCreateIndex { master_key: k2 },
        ) => k1@ == k2@,
        (
            IndexStep::Listing { master_key: k1, offset: o1, acc: a1 },
            IndexStep::Listing { master_key: k2, offset: o2, acc: a2 },
        ) => k1@ == k2@ && o1 == o2 && a1@ == a2@,
        (IndexStep::AfterCreateAdminKey, IndexStep::AfterCreateAdminKey) => true,
        (
            IndexStep::AfterStoreSecret { message: m1 },
            IndexStep::AfterStoreSecret { message: m2 },
        ) => crate::api::opt_view(m1) == crate::api::opt_view(m2),
        (IndexStep::AfterPatchStatus, IndexStep::AfterPatchStatus) => true,
        (IndexStep::Done, IndexStep::Done) => true,
        (IndexStep::Cleaned, IndexStep::Cleaned) => true,
        (IndexStep::Failed, IndexStep::Failed) => true,
        _ => false,
    }
}

/// View-level agreement of two optional requests: same request, with all
/// carried strings and payloads agreeing. Only the requests the Index
/// reconciler issues are compared.
pub open spec fn index_req_like(a: Option<Request>, b: Option<Request>) -> bool {
    match (a, b) {
        (None, None) => true,
        (
            Some(Request::GetServerDeleting { namespace: ns1, name: n1 }),
            Some(Request::GetServerDeleting { namespace: ns2, name: n2 }),
        ) => ns1@ == ns2@ && n1@ == n2@,
        (
            Some(Request::GetSecretEntry { namespace: ns1, name: n1, entry: e1 }),
            Some(Request::GetSecretEntry { namespace: ns2, name: n2, entry: e2 }),
        ) => ns1@ == ns2@ && n1@ == n2@ && e1@ == e2@,
        (
            Some(Request::SetFinalizers { kind: k1, namespace: ns1, name: n1, finalizers: f1 }),
            Some(Request::SetFinalizers { kind: k2, namespace: ns2, name: n2, finalizers: f2 }),
        ) => k1 == k2 && ns1@ == ns2@ && n1@ == n2@ && (match (f1, f2) {
            (Some(l1), Some(l2)) => crate::api::string_lists_agree(l1@, l2@),
            (None, None) => true,
            _ => false,
        }),
        (
            Some(Request::EngineDeleteIndex { endpoint: e1, master_key: k1, uid: u1 }),
            Some(Request::EngineDeleteIndex { endpoint: e2, master_key: k2, uid: u2 }),
        ) => e1@ == e2@ && k1@ == k2@ && u1@ == u2@,
        (
            Some(
                Request::EngineCreateIndex {
                    endpoint: e1,
                    master_key: k1,
                    uid: u1,
                    primary_key: p1,
                },
            ),
            Some(
                Request::EngineCreateIndex {
                    endpoint: e2,
                    master_key: k2,
                    uid: u2,
                    primary_key: p2,
                },
            ),
        ) => e1@ == e2@ && k1@ == k2@ && u1@ == u2@ && crate::api::opt_view(p1)
            == crate::api::opt_view(p2),
        (
            Some(
                Request::EngineListKeysPage { endpoint: e1, master_key: k1, offset: o1, limit: l1 },
            ),
            Some(
                Request::EngineListKeysPage { endpoint: e2, master_key: k2, offset: o2, limit: l2 },
            ),
        ) => e1@ == e2@ && k1@ == k2@ && o1 == o2 && l1 == l2,
        (
            Some(Request::EngineCreateKey { endpoint: e1, master_key: k1, draft: d1 }),
            Some(Request::EngineCreateKey { endpoint: e2, master_key: k2, draft: d2 }),
        ) => e1@ == e2@ && k1@ == k2@ && d1.name@ == d2.name@ && crate::api::opt_view(
            d1.description,
        ) == crate::api::opt_view(d2.description) && d1.actions@ == d2.actions@
            && crate::api::string_lists_agree(d1.indexes@, d2.indexes@) && d1.expires_at_nanos
            == d2.expires_at_nanos,
        (
            Some(Request::CreateSecret { namespace: ns1, secret: s1 }),
            Some(Request::CreateSecret { namespace: ns2, secret: s2 }),
        ) => ns1@ == ns2@ && s1.name@ == s2.name@ && s1.entry_key@ == s2.entry_key@
            && s1.entry_value@ == s2.entry_value@ && (match (s1.owner, s2.owner) {
            (Some(o1), Some(o2)) => crate::secrets::owner_ref_like(o1, o2),
            (None, None) => true,
            _ => false,
        }),
        (
            Some(Request::PatchIndexStatus { namespace: ns1, name: n1, status: st1 }),
            Some(Request::PatchIndexStatus { namespace: ns2, name: n2, status: st2 }),
        ) => ns1@ == ns2@ && n1@ == n2@ && st1.ready == st2.ready && crate::api::opt_view(
            st1.message,
        ) == crate::api::opt_view(st2.message),
        _ => false,
    }
}

/// Law: the Index reconcile is deterministic up to string views, and so
/// idempotent: two reconciles of the same Index that observe the same
/// responses stand at agreeing steps and issue agreeing requests, step by
/// step. In particular a second reconcile of an already-Ready Index repeats
/// exactly the same writes, leaving the cluster unchanged.
pub proof fn lemma_index_reconcile_deterministic(
    idx: IndexObject,
    resp: Option<Response>,
    s1: IndexStep,
    s2: IndexStep,
    res1: (IndexStep, Option<Request>),
    res2: (IndexStep, Option<Request>),
)
    requires
        index_step_like(s1, s2),
        index_step_spec(idx, resp, s1, res1),
        index_step_spec(idx, resp, s2, res2),
    ensures
        index_step_like(res1.0, res2.0),
        index_req_like(res1.1, res2.1),
{
    match (res1.1, res2.1) {
        (
            Some(Request::SetFinalizers { finalizers: Some(f1), .. }),
            Some(Request::SetFinalizers { finalizers: Some(f2), .. }),
        ) => {
            if s1 is Init && !idx.metadata.deleting && !views_of(
                idx.metadata.finalizers@,
            ).contains(spec_operator_finalizer()) {
                lemma_finalizer_append_agree(idx.metadata.finalizers@, f1@, f2@);
            }
        },
        (
            Some(Request::EngineDeleteIndex { master_key: k1, .. }),
            Some(Request::EngineDeleteIndex { master_key: k2, .. }),
        ) => {
            match resp {
                Some(Response::SecretEntry(Some(b))) => {
                    lemma_utf8_encode_injective(k1@, k2@, b@);
                },
                _ => {},
            }
        },
        (
            Some(Request::EngineCreateIndex { master_key: k1, .. }),
            Some(Request::EngineCreateIndex { master_key: k2, .. }),
        ) => {
            match resp {
                Some(Response::SecretEntry(Some(b))) => {
                    lemma_utf8_encode_injective(k1@, k2@, b@);
                },
                _ => {},
            }
        },
        (
            Some(Request::EngineCreateKey { draft: d1, .. }),
            Some(Request::EngineCreateKey { draft: d2, .. }),
        ) => {
            assert(d1.actions@ =~= d2.actions@);
            assert(crate::api::string_lists_agree(d1.indexes@, d2.indexes@));
        },
        _ => {},
    }
    match (res1.0, res2.0) {
        (
            IndexStep::AfterCreateIndex { master_key: k1 },
            IndexStep::AfterCreateIndex { master_key: k2 },
        ) => {
            match resp {
                Some(Response::SecretEntry(Some(b))) => {
                    lemma_utf8_encode_injective(k1@, k2@, b@);
                },
                _ => {},
            }
        },
        _ => {},
    }
}

/// Appending the operator finalizer to the same base list gives agreeing
/// lists.
proof fn lemma_finalizer_append_agree(base: Seq<String>, f1: Seq<String>, f2: Seq<String>)
    requires
        f1.len() == base.len() + 1,
        f2.len() == base.len() + 1,
        f1[f1.len() - 1]@ == spec_operator_finalizer(),
        f2[f2.len() - 1]@ == spec_operator_finalizer(),
        forall|i: int| 0 <= i < base.len() ==> f1[i]@ == #[trigger] base[i]@,
        forall|i: int| 0 <= i < base.len() ==> f2[i]@ == #[trigger] base[i]@,
    ensures
        crate::api::string_lists_agree(f1, f2),
{
    assert forall|i: int| 0 <= i < f1.len() implies f1[i]@ == #[trigger] f2[i]@ by {
        if i < base.len() {
            assert(f1[i]@ == base[i]@);
            assert(f2[i]@ == base[i]@);
        } else {
            assert(f1[i]@ == spec_operator_finalizer());
            assert(f2[i]@ == spec_operator_finalizer());
        }
    }
}

/// UTF-8 encoding is injective: two strings with the same encoding agree.
proof fn lemma_utf8_encode_injective(k1: Seq<char>, k2: Seq<char>, b: Seq<u8>)
    requires
        encode_utf8(k1) == b,
        encode_utf8(k2) == b,
    ensures
        k1 == k2,
{
    vstd::utf8::encode_utf8_decode_utf8(k1);
    vstd::utf8::encode_utf8_decode_utf8(k2);
}

fn index_endpoint(idx: &IndexObject) -> (r: String)
    ensures
        r@ == spec_index_endpoint(*idx),
{
    endpoint_url(idx.spec.server_ref.as_str(), idx.metadata.namespace.as_str(), 7700)
}

fn index_get_master_req(idx: &IndexObject) -> (req: Request)
    ensures
        spec_index_get_master_req(*idx, Some(req)),
{
    Request::GetSecretEntry {
        namespace: idx.metadata.namespace.clone(),
        name: master_secret_name(idx.spec.server_ref.as_str()),
        entry: "masterKey".to_owned(),
    }
}

fn index_clear_finalizer_req(idx: &IndexObject) -> (req: Request)
    ensures
        spec_index_clear_finalizer_req(*idx, Some(req)),
{
    Request::SetFinalizers {
        kind: ResourceKind::Index,
        namespace: idx.metadata.namespace.clone(),
        name: idx.metadata.name.clone(),
        finalizers: None,
    }
}

fn index_list_req(idx: &IndexObject, master_key: &String, offset: u64) -> (req: Request)
    ensures
        spec_index_list_req(*idx, master_key@, offset, Some(req)),
{
    Request::EngineListKeysPage {
        endpoint: index_endpoint(idx),
        master_key: master_key.clone(),
        offset,
        limit: 1000,
    }
}

fn admin_store_req(idx: &IndexObject, value: &String) -> (req: Request)
    ensures
        spec_admin_store_req(*idx, value@, Some(req)),
{
    let target_ns: String = match &idx.spec.admin_key {
        Some(ak) => match &ak.secret_namespace {
            Some(s) => s.clone(),
            None => idx.metadata.namespace.clone(),
        },
        None => idx.metadata.namespace.clone(),
    };
    let secret_name: String = match &idx.spec.admin_key {
        Some(ak) => match &ak.secret_name {
            Some(s) => s.clone(),
            None => default_admin_secret_name(idx.spec.uid.as_str()),
        },
        None => default_admin_secret_name(idx.spec.uid.as_str()),
    };
    let secret = build_stored_secret(
        "Index",
        &idx.metadata.namespace,
        &idx.metadata.name,
        &idx.metadata.uid,
        &target_ns,
        &secret_name,
        value,
    );
    Request::CreateSecret { namespace: target_ns, secret }
}

fn index_status_req(idx: &IndexObject, message: Option<String>) -> (req: Request)
    ensures
        spec_index_status_req(*idx, message, Some(req)),
{
    let msg_copy: Option<String> = match &message {
        Some(m) => Some(m.clone()),
        None => None,
    };
    let status = IndexStatus { ready: true, message: msg_copy };
    Request::PatchIndexStatus {
        namespace: idx.metadata.namespace.clone(),
        name: idx.metadata.name.clone(),
        status,
    }
}

} // verus!
