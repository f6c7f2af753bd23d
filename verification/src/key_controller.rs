//! The Key reconciler: materializes a declared API key into a secret,
//! preferring in order a key value already present in the target secret and
//! confirmed live on the engine, an exactly matching remote key, a relaxed
//! match ignoring name and description, and only then creation of a new key.
//! On deletion the remembered engine key is removed unless the referenced
//! Server is itself going away.

use vstd::prelude::*;
use vstd::utf8::{encode_utf8, valid_utf8};

use crate::api::{
    clone_opt_string, clone_strings, next_offset, opt_string_view_eq, opt_view, server_is_deleting,
    spec_next_offset, spec_server_is_deleting, with_operator_finalizer, KeyDraft, Request,
    ResourceKind, Response,
};
use crate::crds::{KeyObject, KeyStatus};
use crate::engine::{
    find_matching_key, find_relaxed_matching_key, key_exists_by_value, map_actions, nanos_agree,
    parse_rfc3339_opt, spec_action_of, spec_key_exists_by_value, spec_matches_spec,
    spec_matches_spec_relaxed, spec_rfc3339_opt, views_of, KeyItem,
};
use crate::names::{
    endpoint_url, master_secret_name, spec_endpoint_url, spec_master_secret_name,
    spec_operator_finalizer,
};
use crate::secrets::{
    build_stored_secret, existing_secret_key, spec_existing_secret_key, spec_stored_key_secret,
    string_from_utf8,
};

verus! {

/// Where a Key reconcile stands.
#[derive(Debug, Clone, PartialEq)]
pub enum KeyStep {
    Init,
    /// Asked for the referenced server's master key (always first).
    AfterGetMaster,
    /// Deletion path: asked whether the referenced Server is going away.
    AfterServerCheck { master_key: String },
    AfterEngineDeleteKey,
    AfterClearFinalizer,
    AfterEnsureFinalizer { master_key: String },
    /// Asked for the target secret, to reuse a key value already there.
    AfterGetTargetSecret { master_key: String },
    /// Listing the engine's keys to confirm the reused value is live.
    ListingReuse { master_key: String, offset: u64, acc: Vec<KeyItem>, value: String },
    /// Listing the engine's keys for an exact match of the spec.
    ListingExact { master_key: String, offset: u64, acc: Vec<KeyItem> },
    /// Listing the engine's keys for a relaxed match of the spec.
    ListingRelaxed { master_key: String, offset: u64, acc: Vec<KeyItem> },
    AfterCreateKey,
    /// Fetching the Key resource's own uid for the owner reference of a
    /// same-namespace target secret.
    AfterGetOwnerUid { value: String, message: Option<String>, status_uid: Option<String> },
    AfterStoreSecret { message: Option<String>, status_uid: Option<String> },
    AfterPatchStatus,
    /// Reconciled; requeue after the steady-state interval.
    Done,
    /// Deletion handled and finalizer cleared; await the next change.
    Cleaned,
    /// The reconcile failed; the driver applies the error policy.
    Failed,
}

pub fn key_reconcile_init() -> (s: KeyStep)
    ensures
        s is Init,
{
    KeyStep::Init
}

/// Whether the reconcile ended successfully.
pub fn key_reconcile_done(step: &KeyStep) -> (r: bool)
    ensures
        r == (step is Done || step is Cleaned),
{
    match step {
        KeyStep::Done => true,
        KeyStep::Cleaned => true,
        _ => false,
    }
}

/// Whether the reconcile failed.
pub fn key_reconcile_error(step: &KeyStep) -> (r: bool)
    ensures
        r == (step is Failed),
{
    match step {
        KeyStep::Failed => true,
        _ => false,
    }
}

/// Seconds after which a successful Key reconcile is repeated.
pub fn key_requeue_secs() -> (r: u64)
    ensures
        r == 1200,
{
    1200
}

/// Seconds after which a failed Key reconcile is retried.
pub fn key_error_requeue_secs() -> (r: u64)
    ensures
        r == 60,
{
    60
}

/// The engine endpoint a Key talks to: its server, in its namespace, on the
/// stock engine port.
pub open spec fn spec_key_endpoint(key: KeyObject) -> Seq<char> {
    spec_endpoint_url(key.spec.server_ref@, key.metadata.namespace@, 7700)
}

/// The read of the referenced server's master-key secret. The driver treats
/// a missing secret as a failed reconcile; a missing entry answers `None`.
pub open spec fn spec_key_get_master_req(key: KeyObject, req: Option<Request>) -> bool {
    req matches Some(Request::GetSecretEntry { namespace, name, entry }) && namespace@
        == key.metadata.namespace@ && name@ == spec_master_secret_name(key.spec.server_ref@)
        && entry@ == "masterKey"@
}

/// The read of the declared target secret.
pub open spec fn spec_key_target_secret_req(key: KeyObject, req: Option<Request>) -> bool {
    req matches Some(Request::GetTargetSecret { namespace, name }) && namespace@
        == key.spec.secret_namespace@ && name@ == key.spec.secret_name@
}

/// One page request of the engine's key listing.
pub open spec fn spec_key_list_req(
    key: KeyObject,
    master_key: Seq<char>,
    offset: u64,
    req: Option<Request>,
) -> bool {
    req matches Some(Request::EngineListKeysPage { endpoint, master_key: mk, offset: o, limit })
        && endpoint@ == spec_key_endpoint(key) && mk@ == master_key && o == offset && limit
        == crate::index_controller::spec_keys_page_limit()
}

/// The merge patch clearing the Key's finalizers.
pub open spec fn spec_key_clear_finalizer_req(key: KeyObject, req: Option<Request>) -> bool {
    req matches Some(Request::SetFinalizers { kind, namespace, name, finalizers }) && kind is Key
        && namespace@ == key.metadata.namespace@ && name@ == key.metadata.name@ && finalizers
        is None
}

/// Heads into storing `value` at the declared target: a same-namespace target
/// first fetches the Key's own uid for the owner reference, a cross-namespace
/// target is written at once without one.
pub open spec fn spec_key_store_dispatch(
    key: KeyObject,
    value: Seq<char>,
    message: Option<Seq<char>>,
    status_uid: Option<Seq<char>>,
    res: (KeyStep, Option<Request>),
) -> bool {
    if key.spec.secret_namespace@ == key.metadata.namespace@ {
        &&& (res.0 matches KeyStep::AfterGetOwnerUid { value: v, message: m, status_uid: u } && v@
            == value && opt_view(m) == message && opt_view(u) == status_uid)
        &&& (res.1 matches Some(Request::GetObjectUid { kind, namespace, name }) && kind is Key
            && namespace@ == key.metadata.namespace@ && name@ == key.metadata.name@)
    } else {
        &&& (res.0 matches KeyStep::AfterStoreSecret { message: m, status_uid: u }
            && opt_view(m) == message && opt_view(u) == status_uid)
        &&& (res.1 matches Some(Request::CreateSecret { namespace, secret }) && namespace@
            == key.spec.secret_namespace@ && spec_stored_key_secret(
            "Key"@,
            key.metadata.namespace@,
            key.metadata.name@,
            Seq::<char>::empty(),
            key.spec.secret_namespace@,
            key.spec.secret_name@,
            value,
            secret,
        ))
    }
}

/// The status patch closing a successful reconcile.
pub open spec fn spec_key_status_req(
    key: KeyObject,
    message: Option<String>,
    status_uid: Option<String>,
    req: Option<Request>,
) -> bool {
    req matches Some(Request::PatchKeyStatus { namespace, name, status }) && namespace@
        == key.metadata.namespace@ && name@ == key.metadata.name@ && status.ready
        && opt_string_view_eq(status.message, message) && opt_string_view_eq(
        status.uid,
        status_uid,
    )
}

/// The key to be created when nothing could be adopted: named as declared
/// (defaulting to the resource name), with the declared description, actions,
/// index scopes, and a parseable declared expiry; an unparseable expiry is
/// silently dropped.
pub open spec fn spec_key_create_draft(key: KeyObject, draft: KeyDraft) -> bool {
    &&& (match key.spec.name {
        Some(n) => draft.name@ == n@,
        None => draft.name@ == key.metadata.name@,
    })
    &&& opt_string_view_eq(draft.description, key.spec.description)
    &&& draft.actions@.len() == key.spec.actions@.len()
    &&& forall|i: int|
        0 <= i < draft.actions@.len() ==> draft.actions@[i] == spec_action_of(
            key.spec.actions@[i],
        )
    &&& draft.indexes@.len() == key.spec.indexes@.len()
    &&& forall|i: int|
        0 <= i < draft.indexes@.len() ==> draft.indexes@[i]@ == #[trigger] key.spec.indexes@[i]@
    &&& nanos_agree(draft.expires_at_nanos, spec_rfc3339_opt(key.spec.expires_at))
}

/// A failing step: no request, the error policy takes over.
pub open spec fn spec_key_step_failed(res: (KeyStep, Option<Request>)) -> bool {
    res.0 is Failed && res.1 is None
}

/// The transition relation of the Key reconciler.
pub open spec fn key_step_spec(
    key: KeyObject,
    resp: Option<Response>,
    step: KeyStep,
    res: (KeyStep, Option<Request>),
) -> bool {
    let ns = key.metadata.namespace@;
    let name = key.metadata.name@;
    match step {
        KeyStep::Init => {
            &&& res.0 is AfterGetMaster
            &&& spec_key_get_master_req(key, res.1)
        },
        KeyStep::AfterGetMaster => match resp {
            Some(Response::SecretEntry(entry)) => match entry {
                Some(bytes) => if valid_utf8(bytes@) {
                    if key.metadata.deleting {
                        &&& (res.0 matches KeyStep::AfterServerCheck { master_key }
                            && encode_utf8(master_key@) == bytes@)
                        &&& (res.1 matches Some(Request::GetServerDeleting { namespace, name: n })
                            && namespace@ == ns && n@ == key.spec.server_ref@)
                    } else if views_of(key.metadata.finalizers@).contains(
                        spec_operator_finalizer(),
                    ) {
                        &&& (res.0 matches KeyStep::AfterGetTargetSecret { master_key }
                            && encode_utf8(master_key@) == bytes@)
                        &&& spec_key_target_secret_req(key, res.1)
                    } else {
                        &&& (res.0 matches KeyStep::AfterEnsureFinalizer { master_key }
                            && encode_utf8(master_key@) == bytes@)
                        &&& (res.1 matches Some(
                            Request::SetFinalizers { kind, namespace, name: n, finalizers },
                        ) && kind is Key && namespace@ == ns && n@ == name && (finalizers
                            matches Some(fs) && fs@.len() == key.metadata.finalizers@.len() + 1
                            && fs@[fs@.len() - 1]@ == spec_operator_finalizer() && forall|i: int|
                            0 <= i < key.metadata.finalizers@.len() ==> fs@[i]@
                                == #[trigger] key.metadata.finalizers@[i]@))
                    }
                } else {
                    spec_key_step_failed(res)
                },
                None => spec_key_step_failed(res),
            },
            _ => spec_key_step_failed(res),
        },
        KeyStep::AfterServerCheck { master_key } => match resp {
            Some(Response::ServerState { deleting }) => {
                let remembered = spec_remembered_uid(key);
                if !spec_server_is_deleting(deleting) && remembered is Some {
                    &&& res.0 is AfterEngineDeleteKey
                    &&& (res.1 matches Some(
                        Request::EngineDeleteKey { endpoint, master_key: mk, uid },
                    ) && endpoint@ == spec_key_endpoint(key) && mk@ == master_key@ && (remembered
                        matches Some(u) && uid@ == u))
                } else {
                    &&& res.0 is AfterClearFinalizer
                    &&& spec_key_clear_finalizer_req(key, res.1)
                }
            },
            _ => spec_key_step_failed(res),
        },
        KeyStep::AfterEngineDeleteKey => if resp matches Some(Response::Done) {
            res.0 is AfterClearFinalizer && spec_key_clear_finalizer_req(key, res.1)
        } else {
            spec_key_step_failed(res)
        },
        KeyStep::AfterClearFinalizer => if resp matches Some(Response::Done) {
            res.0 is Cleaned && res.1 is None
        } else {
            spec_key_step_failed(res)
        },
        KeyStep::AfterEnsureFinalizer { master_key } => if resp matches Some(Response::Done) {
            &&& (res.0 matches KeyStep::AfterGetTargetSecret { master_key: mk } && mk@
                == master_key@)
            &&& spec_key_target_secret_req(key, res.1)
        } else {
            spec_key_step_failed(res)
        },
        KeyStep::AfterGetTargetSecret { master_key } => match resp {
            Some(Response::TargetSecret { exists, string_entry, data_entry }) => {
                if string_entry is Some || (data_entry matches Some(b) && valid_utf8(b@)) {
                    &&& (res.0 matches KeyStep::ListingReuse {
                        master_key: mk,
                        offset,
                        acc,
                        value,
                    } && mk@ == master_key@ && offset == 0 && acc@ =~= Seq::<KeyItem>::empty()
                        && spec_existing_secret_key(string_entry, data_entry, Some(value)))
                    &&& spec_key_list_req(key, master_key@, 0, res.1)
                } else {
                    &&& (res.0 matches KeyStep::ListingExact { master_key: mk, offset, acc }
                        && mk@ == master_key@ && offset == 0 && acc@ =~= Seq::<KeyItem>::empty())
                    &&& spec_key_list_req(key, master_key@, 0, res.1)
                }
            },
            _ => spec_key_step_failed(res),
        },
        KeyStep::ListingReuse { master_key, offset, acc, value } => match resp {
            Some(Response::KeysPage { results, total }) => {
                let acc2 = acc@ + results@;
                let off2 = spec_next_offset(offset, results@.len() as nat);
                if off2 >= total {
                    if spec_key_exists_by_value(acc2, value@) {
                        spec_key_store_dispatch(
                            key,
                            value@,
                            Some("using key from existing Secret"@),
                            None,
                            res,
                        )
                    } else {
                        &&& (res.0 matches KeyStep::ListingExact { master_key: mk, offset: o, acc: a }
                            && mk@ == master_key@ && o == 0 && a@ =~= Seq::<KeyItem>::empty())
                        &&& spec_key_list_req(key, master_key@, 0, res.1)
                    }
                } else {
                    &&& (res.0 matches KeyStep::ListingReuse {
                        master_key: mk,
                        offset: o,
                        acc: a,
                        value: v,
                    } && mk@ == master_key@ && o == off2 && a@ == acc2 && v@ == value@)
                    &&& spec_key_list_req(key, master_key@, off2, res.1)
                }
            },
            _ => spec_key_step_failed(res),
        },
        KeyStep::ListingExact { master_key, offset, acc } => match resp {
            Some(Response::KeysPage { results, total }) => {
                let acc2 = acc@ + results@;
                let off2 = spec_next_offset(offset, results@.len() as nat);
                if off2 >= total {
                    if exists|i: int|
                        0 <= i < acc2.len() && spec_matches_spec(acc2[i], key.spec) {
                        let i = choose|i: int|
                            0 <= i < acc2.len() && spec_matches_spec(acc2[i], key.spec)
                                && forall|j: int|
                                0 <= j < i ==> !spec_matches_spec(#[trigger] acc2[j], key.spec);
                        spec_key_store_dispatch(
                            key,
                            acc2[i].key@,
                            Some("adopted existing key"@),
                            None,
                            res,
                        )
                    } else {
                        &&& (res.0 matches KeyStep::ListingRelaxed {
                            master_key: mk,
                            offset: o,
                            acc: a,
                        } && mk@ == master_key@ && o == 0 && a@ =~= Seq::<KeyItem>::empty())
                        &&& spec_key_list_req(key, master_key@, 0, res.1)
                    }
                } else {
                    &&& (res.0 matches KeyStep::ListingExact { master_key: mk, offset: o, acc: a }
                        && mk@ == master_key@ && o == off2 && a@ == acc2)
                    &&& spec_key_list_req(key, master_key@, off2, res.1)
                }
            },
            _ => spec_key_step_failed(res),
        },
        KeyStep::ListingRelaxed { master_key, offset, acc } => match resp {
            Some(Response::KeysPage { results, total }) => {
                let acc2 = acc@ + results@;
                let off2 = spec_next_offset(offset, results@.len() as nat);
                if off2 >= total {
                    if exists|i: int|
                        0 <= i < acc2.len() && spec_matches_spec_relaxed(acc2[i], key.spec) {
                        let i = choose|i: int|
                            0 <= i < acc2.len() && spec_matches_spec_relaxed(acc2[i], key.spec)
                                && forall|j: int|
                                0 <= j < i ==> !spec_matches_spec_relaxed(
                                    #[trigger] acc2[j],
                                    key.spec,
                                );
                        spec_key_store_dispatch(
                            key,
                            acc2[i].key@,
                            Some("adopted similar existing key"@),
                            None,
                            res,
                        )
                    } else {
                        &&& res.0 is AfterCreateKey
                        &&& (res.1 matches Some(
                            Request::EngineCreateKey { endpoint, master_key: mk, draft },
                        ) && endpoint@ == spec_key_endpoint(key) && mk@ == master_key@
                            && spec_key_create_draft(key, draft))
                    }
                } else {
                    &&& (res.0 matches KeyStep::ListingRelaxed {
                        master_key: mk,
                        offset: o,
                        acc: a,
                    } && mk@ == master_key@ && o == off2 && a@ == acc2)
                    &&& spec_key_list_req(key, master_key@, off2, res.1)
                }
            },
            _ => spec_key_step_failed(res),
        },
        KeyStep::AfterCreateKey => match resp {
            Some(Response::KeyCreated { key: value, uid }) => spec_key_store_dispatch(
                key,
                value@,
                None,
                Some(uid@),
                res,
            ),
            _ => spec_key_step_failed(res),
        },
        KeyStep::AfterGetOwnerUid { value, message, status_uid } => match resp {
            Some(Response::ObjectUid(uid)) => {
                let owner_uid = match uid {
                    Some(u) => u@,
                    None => Seq::<char>::empty(),
                };
                &&& (res.0 matches KeyStep::AfterStoreSecret { message: m, status_uid: u }
                    && opt_string_view_eq(m, message) && opt_string_view_eq(u, status_uid))
                &&& (res.1 matches Some(Request::CreateSecret { namespace, secret }) && namespace@
                    == key.spec.secret_namespace@ && spec_stored_key_secret(
                    "Key"@,
                    ns,
                    name,
                    owner_uid,
                    key.spec.secret_namespace@,
                    key.spec.secret_name@,
                    value@,
                    secret,
                ))
            },
            _ => spec_key_step_failed(res),
        },
        KeyStep::AfterStoreSecret { message, status_uid } => if resp matches Some(
            Response::Done,
        ) {
            res.0 is AfterPatchStatus && spec_key_status_req(key, message, status_uid, res.1)
        } else {
            spec_key_step_failed(res)
        },
        KeyStep::AfterPatchStatus => if resp matches Some(Response::Done) {
            res.0 is Done && res.1 is None
        } else {
            spec_key_step_failed(res)
        },
        KeyStep::Done => res.0 is Done && res.1 is None,
        KeyStep::Cleaned => res.0 is Cleaned && res.1 is None,
        KeyStep::Failed => res.0 is Failed && res.1 is None,
    }
}

/// The engine uid remembered in status, if any.
pub open spec fn spec_remembered_uid(key: KeyObject) -> Option<Seq<char>> {
    match key.status {
        Some(st) => match st.uid {
            Some(u) => Some(u@),
            None => None,
        },
        None => None,
    }
}

/// One step of the Key reconcile.
pub fn reconcile_step(key: &KeyObject, resp: Option<Response>, step: KeyStep) -> (res: (
    KeyStep,
    Option<Request>,
))
    ensures
        key_step_spec(*key, resp, step, res),
{
    let ns = &key.metadata.namespace;
    let name = &key.metadata.name;
    match step {
        KeyStep::Init => (KeyStep::AfterGetMaster, Some(key_get_master_req(key))),
        KeyStep::AfterGetMaster => {
            match resp {
                Some(Response::SecretEntry(entry)) => {
                    match entry {
                        Some(bytes) => {
                            match string_from_utf8(bytes) {
                                Some(master_key) => {
                                    if key.metadata.deleting {
                                        let req = Request::GetServerDeleting {
                                            namespace: ns.clone(),
                                            name: key.spec.server_ref.clone(),
                                        };
                                        (KeyStep::AfterServerCheck { master_key }, Some(req))
                                    } else if crate::api::has_operator_finalizer(
                                        &key.metadata.finalizers,
                                    ) {
                                        let req = key_target_secret_req(key);
                                        (KeyStep::AfterGetTargetSecret { master_key }, Some(req))
                                    } else {
                                        let fs = with_operator_finalizer(&key.metadata.finalizers);
                                        let req = Request::SetFinalizers {
                                            kind: ResourceKind::Key,
                                            namespace: ns.clone(),
                                            name: name.clone(),
                                            finalizers: Some(fs),
                                        };
                                        (KeyStep::AfterEnsureFinalizer { master_key }, Some(req))
                                    }
                                },
                                None => (KeyStep::Failed, None),
                            }
                        },
                        None => (KeyStep::Failed, None),
                    }
                },
                _ => (KeyStep::Failed, None),
            }
        },
        KeyStep::AfterServerCheck { master_key } => {
            match resp {
                Some(Response::ServerState { deleting }) => {
                    let remembered: Option<String> = match &key.status {
                        Some(st) => match &st.uid {
                            Some(u) => Some(u.clone()),
                            None => None,
                        },
                        None => None,
                    };
                    if !server_is_deleting(&deleting) && remembered.is_some() {
                        let uid = match remembered {
                            Some(u) => u,
                            None => String::new(),
                        };
                        let req = Request::EngineDeleteKey {
                            endpoint: key_endpoint(key),
                            master_key,
                            uid,
                        };
                        (KeyStep::AfterEngineDeleteKey, Some(req))
                    } else {
                        (KeyStep::AfterClearFinalizer, Some(key_clear_finalizer_req(key)))
                    }
                },
                _ => (KeyStep::Failed, None),
            }
        },
        KeyStep::AfterEngineDeleteKey => {
            match resp {
                Some(Response::Done) => (
                    KeyStep::AfterClearFinalizer,
                    Some(key_clear_finalizer_req(key)),
                ),
                _ => (KeyStep::Failed, None),
            }
        },
        KeyStep::AfterClearFinalizer => {
            match resp {
                Some(Response::Done) => (KeyStep::Cleaned, None),
                _ => (KeyStep::Failed, None),
            }
        },
        KeyStep::AfterEnsureFinalizer { master_key } => {
            match resp {
                Some(Response::Done) => {
                    let req = key_target_secret_req(key);
                    (KeyStep::AfterGetTargetSecret { master_key }, Some(req))
                },
                _ => (KeyStep::Failed, None),
            }
        },
        KeyStep::AfterGetTargetSecret { master_key } => {
            match resp {
                Some(Response::TargetSecret { exists: _, string_entry, data_entry }) => {
                    match existing_secret_key(&string_entry, data_entry) {
                        Some(value) => {
                            let req = key_list_req(key, &master_key, 0);
                            (
                                KeyStep::ListingReuse {
                                    master_key,
                                    offset: 0,
                                    acc: Vec::new(),
                                    value,
                                },
                                Some(req),
                            )
                        },
                        None => {
                            let req = key_list_req(key, &master_key, 0);
                            (
                                KeyStep::ListingExact { master_key, offset: 0, acc: Vec::new() },
                                Some(req),
                            )
                        },
                    }
                },
                _ => (KeyStep::Failed, None),
            }
        },
        KeyStep::ListingReuse { master_key, offset, acc, value } => {
            match resp {
                Some(Response::KeysPage { mut results, total }) => {
                    let mut acc2 = acc;
                    let page_len = results.len();
                    acc2.append(&mut results);
                    let off2 = next_offset(offset, page_len);
                    if off2 >= total {
                        if key_exists_by_value(&acc2, &value) {
                            key_store_dispatch(
                                key,
                                value,
                                Some("using key from existing Secret".to_owned()),
                                None,
                            )
                        } else {
                            let req = key_list_req(key, &master_key, 0);
                            (
                                KeyStep::ListingExact { master_key, offset: 0, acc: Vec::new() },
                                Some(req),
                            )
                        }
                    } else {
                        let req = key_list_req(key, &master_key, off2);
                        (
                            KeyStep::ListingReuse { master_key, offset: off2, acc: acc2, value },
                            Some(req),
                        )
                    }
                },
                _ => (KeyStep::Failed, None),
            }
        },
        KeyStep::ListingExact { master_key, offset, acc } => {
            match resp {
                Some(Response::KeysPage { mut results, total }) => {
                    let mut acc2 = acc;
                    let page_len = results.len();
                    acc2.append(&mut results);
                    let off2 = next_offset(offset, page_len);
                    if off2 >= total {
                        match find_matching_key(&acc2, &key.spec) {
                            Some(i) => {
                                let value = acc2[i].key.clone();
                                key_store_dispatch(
                                    key,
                                    value,
                                    Some("adopted existing key".to_owned()),
                                    None,
                                )
                            },
                            None => {
                                let req = key_list_req(key, &master_key, 0);
                                (
                                    KeyStep::ListingRelaxed {
                                        master_key,
                                        offset: 0,
                                        acc: Vec::new(),
                                    },
                                    Some(req),
                                )
                            },
                        }
                    } else {
                        let req = key_list_req(key, &master_key, off2);
                        (
                            KeyStep::ListingExact { master_key, offset: off2, acc: acc2 },
                            Some(req),
                        )
                    }
                },
                _ => (KeyStep::Failed, None),
            }
        },
        KeyStep::ListingRelaxed { master_key, offset, acc } => {
            match resp {
                Some(Response::KeysPage { mut results, total }) => {
                    let mut acc2 = acc;
                    let page_len = results.len();
                    acc2.append(&mut results);
                    let off2 = next_offset(offset, page_len);
                    if off2 >= total {
                        match find_relaxed_matching_key(&acc2, &key.spec) {
                            Some(i) => {
                                let value = acc2[i].key.clone();
                                key_store_dispatch(
                                    key,
                                    value,
                                    Some("adopted similar existing key".to_owned()),
                                    None,
                                )
                            },
                            None => {
                                let draft = key_create_draft(key);
                                let req = Request::EngineCreateKey {
                                    endpoint: key_endpoint(key),
                                    master_key,
                                    draft,
                                };
                                (KeyStep::AfterCreateKey, Some(req))
                            },
                        }
                    } else {
                        let req = key_list_req(key, &master_key, off2);
                        (
                            KeyStep::ListingRelaxed { master_key, offset: off2, acc: acc2 },
                            Some(req),
                        )
                    }
                },
                _ => (KeyStep::Failed, None),
            }
        },
        KeyStep::AfterCreateKey => {
            match resp {
                Some(Response::KeyCreated { key: value, uid }) => key_store_dispatch(
                    key,
                    value,
                    None,
                    Some(uid),
                ),
                _ => (KeyStep::Failed, None),
            }
        },
        KeyStep::AfterGetOwnerUid { value, message, status_uid } => {
            match resp {
                Some(Response::ObjectUid(uid)) => {
                    let owner_uid = match uid {
                        Some(u) => u,
                        None => String::new(),
                    };
                    let secret = build_stored_secret(
                        "Key",
                        ns,
                        name,
                        &owner_uid,
                        &key.spec.secret_namespace,
                        &key.spec.secret_name,
                        &value,
                    );
                    let req = Request::CreateSecret {
                        namespace: key.spec.secret_namespace.clone(),
                        secret,
                    };
                    (KeyStep::AfterStoreSecret { message, status_uid }, Some(req))
                },
                _ => (KeyStep::Failed, None),
            }
        },
        KeyStep::AfterStoreSecret { message, status_uid } => {
            match resp {
                Some(Response::Done) => {
                    let status = KeyStatus {
                        uid: clone_opt_string(&status_uid),
                        ready: true,
                        message: clone_opt_string(&message),
                    };
                    let req = Request::PatchKeyStatus {
                        namespace: ns.clone(),
                        name: name.clone(),
                        status,
                    };
                    (KeyStep::AfterPatchStatus, Some(req))
                },
                _ => (KeyStep::Failed, None),
            }
        },
        KeyStep::AfterPatchStatus => {
            match resp {
                Some(Response::Done) => (KeyStep::Done, None),
                _ => (KeyStep::Failed, None),
            }
        },
        KeyStep::Done => (KeyStep::Done, None),
        KeyStep::Cleaned => (KeyStep::Cleaned, None),
        KeyStep::Failed => (KeyStep::Failed, None),
    }
}

/// Law: a live Key's reconcile puts the operator finalizer in place before
/// anything but the master-key read: either the resource already carries it,
/// or the first request after the read patches a finalizer list that carries
/// it (appended to the existing finalizers).
pub proof fn lemma_live_key_reconcile_requests_finalizer(
    key: KeyObject,
    bytes: Vec<u8>,
    res: (KeyStep, Option<Request>),
)
    requires
        !key.metadata.deleting,
        valid_utf8(bytes@),
        key_step_spec(
            key,
            Some(Response::SecretEntry(Some(bytes))),
            KeyStep::AfterGetMaster,
            res,
        ),
    ensures
        views_of(key.metadata.finalizers@).contains(spec_operator_finalizer()) || (res.1 matches
            Some(Request::SetFinalizers { finalizers, .. }) && (finalizers matches Some(fs)
            && views_of(fs@).contains(spec_operator_finalizer()))),
{
    if !views_of(key.metadata.finalizers@).contains(spec_operator_finalizer()) {
        match res.1 {
            Some(Request::SetFinalizers { finalizers: Some(fs), .. }) => {
                assert(fs@[fs@.len() - 1]@ == spec_operator_finalizer());
                assert(crate::engine::seq_has_view(fs@, spec_operator_finalizer()));
            },
            _ => {},
        }
    }
}

/// Law: once the referenced Server is observed deleting (or gone), the Key
/// reconcile issues no engine call at all: the finalizer is cleared
/// directly, even when a remembered engine uid exists.
pub proof fn lemma_key_skips_engine_when_server_deleting(
    key: KeyObject,
    master_key: String,
    deleting: Option<bool>,
    res: (KeyStep, Option<Request>),
)
    requires
        spec_server_is_deleting(deleting),
        key_step_spec(
            key,
            Some(Response::ServerState { deleting }),
            KeyStep::AfterServerCheck { master_key },
            res,
        ),
    ensures
        res.0 is AfterClearFinalizer,
        spec_key_clear_finalizer_req(key, res.1),
        res.1 matches Some(req) ==> !crate::api::spec_is_engine_request(req),
{
}

/// Law: when the target secret's key value is confirmed live on the engine,
/// the reconcile re-materializes the secret with exactly that value, reports
/// reuse, and neither creates nor adopts any other key.
pub proof fn lemma_reuse_stores_existing_value(
    key: KeyObject,
    master_key: String,
    offset: u64,
    acc: Vec<KeyItem>,
    value: String,
    results: Vec<KeyItem>,
    total: u64,
    res: (KeyStep, Option<Request>),
)
    requires
        key_step_spec(
            key,
            Some(Response::KeysPage { results, total }),
            KeyStep::ListingReuse { master_key, offset, acc, value },
            res,
        ),
        spec_next_offset(offset, results@.len() as nat) >= total,
        spec_key_exists_by_value(acc@ + results@, value@),
    ensures
        spec_key_store_dispatch(
            key,
            value@,
            Some("using key from existing Secret"@),
            None,
            res,
        ),
        res.1 matches Some(req) ==> !crate::api::spec_is_engine_request(req),
{
}

/// Law: when the engine listing holds a key matching the declared spec
/// exactly, the reconcile adopts the first such key: the stored secret
/// carries its value and no engine key is created.
pub proof fn lemma_exact_adoption_stores_matched_value(
    key: KeyObject,
    master_key: String,
    offset: u64,
    acc: Vec<KeyItem>,
    results: Vec<KeyItem>,
    total: u64,
    res: (KeyStep, Option<Request>),
)
    requires
        key_step_spec(
            key,
            Some(Response::KeysPage { results, total }),
            KeyStep::ListingExact { master_key, offset, acc },
            res,
        ),
        spec_next_offset(offset, results@.len() as nat) >= total,
        exists|i: int|
            0 <= i < (acc@ + results@).len() && spec_matches_spec((acc@ + results@)[i], key.spec),
    ensures
        ({
            let all = acc@ + results@;
            let i = choose|i: int|
                0 <= i < all.len() && spec_matches_spec(all[i], key.spec) && forall|j: int|
                    0 <= j < i ==> !spec_matches_spec(#[trigger] all[j], key.spec);
            spec_key_store_dispatch(key, all[i].key@, Some("adopted existing key"@), None, res)
        }),
        res.1 matches Some(req) ==> !crate::api::spec_is_engine_request(req),
{
}

fn key_endpoint(key: &KeyObject) -> (r: String)
    ensures
        r@ == spec_key_endpoint(*key),
{
    endpoint_url(key.spec.server_ref.as_str(), key.metadata.namespace.as_str(), 7700)
}

fn key_get_master_req(key: &KeyObject) -> (req: Request)
    ensures
        spec_key_get_master_req(*key, Some(req)),
{
    Request::GetSecretEntry {
        namespace: key.metadata.namespace.clone(),
        name: master_secret_name(key.spec.server_ref.as_str()),
        entry: "masterKey".to_owned(),
    }
}

fn key_target_secret_req(key: &KeyObject) -> (req: Request)
    ensures
        spec_key_target_secret_req(*key, Some(req)),
{
    Request::GetTargetSecret {
        namespace: key.spec.secret_namespace.clone(),
        name: key.spec.secret_name.clone(),
    }
}

fn key_clear_finalizer_req(key: &KeyObject) -> (req: Request)
    ensures
        spec_key_clear_finalizer_req(*key, Some(req)),
{
    Request::SetFinalizers {
        kind: ResourceKind::Key,
        namespace: key.metadata.namespace.clone(),
        name: key.metadata.name.clone(),
        finalizers: None,
    }
}

fn key_list_req(key: &KeyObject, master_key: &String, offset: u64) -> (req: Request)
    ensures
        spec_key_list_req(*key, master_key@, offset, Some(req)),
{
    Request::EngineListKeysPage {
        endpoint: key_endpoint(key),
        master_key: master_key.clone(),
        offset,
        limit: 1000,
    }
}

fn key_store_dispatch(
    key: &KeyObject,
    value: String,
    message: Option<String>,
    status_uid: Option<String>,
) -> (res: (KeyStep, Option<Request>))
    ensures
        spec_key_store_dispatch(*key, value@, opt_view(message), opt_view(status_uid), res),
{
    if key.spec.secret_namespace.eq(&key.metadata.namespace) {
        let req = Request::GetObjectUid {
            kind: ResourceKind::Key,
            namespace: key.metadata.namespace.clone(),
            name: key.metadata.name.clone(),
        };
        (KeyStep::AfterGetOwnerUid { value, message, status_uid }, Some(req))
    } else {
        let empty_uid = String::new();
        let secret = build_stored_secret(
            "Key",
            &key.metadata.namespace,
            &key.metadata.name,
            &empty_uid,
            &key.spec.secret_namespace,
            &key.spec.secret_name,
            &value,
        );
        let req = Request::CreateSecret {
            namespace: key.spec.secret_namespace.clone(),
            secret,
        };
        (KeyStep::AfterStoreSecret { message, status_uid }, Some(req))
    }
}

fn key_create_draft(key: &KeyObject) -> (draft: KeyDraft)
    ensures
        spec_key_create_draft(*key, draft),
{
    let name: String = match &key.spec.name {
        Some(n) => n.clone(),
        None => key.metadata.name.clone(),
    };
    let description = clone_opt_string(&key.spec.description);
    let actions = map_actions(&key.spec.actions);
    let indexes = clone_strings(&key.spec.indexes);
    let expires_at_nanos = parse_rfc3339_opt(&key.spec.expires_at);
    KeyDraft { name, description, actions, indexes, expires_at_nanos }
}

} // verus!
