//! The Server reconciler: provisions the master-key secret and its
//! operator-namespace mirror, the service and the stateful workload, gates
//! readiness on the engine's health endpoint, and cascades deletion to the
//! dependent Index and Key resources.
//!
//! The reconcile is a state machine: `reconcile_step` consumes the response
//! to the previous request and decides the next request. The driver performs
//! requests until a step returns none, then finishes the reconcile according
//! to `server_reconcile_done` / `server_reconcile_error`.

use vstd::prelude::*;
use vstd::utf8::{encode_utf8, valid_utf8};

use crate::api::{
    fast_delete_targets, has_operator_finalizer, health_ok, spec_fast_delete_targets,
    spec_health_ok, Request, ResourceKind, Response,
};
use crate::crds::ServerObject;
use crate::engine::views_of;
use crate::names::{
    endpoint_url, health_url, master_secret_name, mirror_secret_name, operator_finalizer,
    spec_endpoint_url, spec_health_url, spec_master_secret_name, spec_mirror_secret_name,
    spec_operator_finalizer,
};
use crate::secrets::{
    generate_master_key, owner_ref, spec_master_key_shape, spec_server_owner_ref,
    string_from_utf8, SecretModel,
};
use crate::workload::{
    build_service, build_statefulset, spec_service_fields, spec_statefulset_fields,
};

verus! {

/// Driver-supplied settings of the Server reconciler.
#[derive(Debug, Clone, PartialEq)]
pub struct ServerReconcileConfig {
    /// Namespace holding the master-key mirrors.
    pub operator_namespace: String,
    /// Pause between two health probes.
    pub health_interval_millis: u64,
    /// Attempts after which an unhealthy engine fails the reconcile.
    pub health_max_attempts: u32,
}

/// The stock settings: probe every two seconds, give up after 120 attempts.
pub fn default_server_config(operator_namespace: String) -> (c: ServerReconcileConfig)
    ensures
        c.operator_namespace == operator_namespace,
        c.health_interval_millis == 2000,
        c.health_max_attempts == 120,
{
    ServerReconcileConfig {
        operator_namespace,
        health_interval_millis: 2000,
        health_max_attempts: 120,
    }
}

/// Where a Server reconcile stands: which request is outstanding, and what
/// was decided so far.
#[derive(Debug, Clone, PartialEq)]
pub enum ServerStep {
    Init,
    AfterListKeys,
    AfterDeleteKeys,
    AfterListIndexes,
    AfterDeleteIndexes,
    AfterDeleteMirror,
    AfterClearFinalizer,
    AfterEnsureFinalizer,
    AfterGetMasterSecret,
    AfterCreateMasterSecret { master_key: String },
    AfterApplyMirror { master_key: String },
    AfterApplyService,
    AfterApplyStatefulSet,
    WaitingHealth { attempts: u32 },
    AfterPatchStatus,
    /// Reconciled; requeue after the steady-state interval.
    Done,
    /// Deletion handled and finalizer cleared; await the next change.
    Cleaned,
    /// The reconcile failed; the driver applies the error policy.
    Failed,
}

pub fn server_reconcile_init() -> (s: ServerStep)
    ensures
        s is Init,
{
    ServerStep::Init
}

/// Whether the reconcile ended successfully.
pub fn server_reconcile_done(step: &ServerStep) -> (r: bool)
    ensures
        r == (step is Done || step is Cleaned),
{
    match step {
        ServerStep::Done => true,
        ServerStep::Cleaned => true,
        _ => false,
    }
}

/// Whether the reconcile failed.
pub fn server_reconcile_error(step: &ServerStep) -> (r: bool)
    ensures
        r == (step is Failed),
{
    match step {
        ServerStep::Failed => true,
        _ => false,
    }
}

/// Seconds after which a successful Server reconcile is repeated.
pub fn server_requeue_secs() -> (r: u64)
    ensures
        r == 300,
{
    300
}

/// Seconds after which a failed Server reconcile is retried.
pub fn server_error_requeue_secs() -> (r: u64)
    ensures
        r == 30,
{
    30
}

/// The attempt counter after one more health probe.
pub open spec fn spec_next_attempt(a: u32) -> u32 {
    if a < u32::MAX {
        (a + 1) as u32
    } else {
        a
    }
}

/// The transition relation of the Server reconciler: from the step `step` and
/// the response `resp`, the reconciler moves to `res.0` and requests `res.1`.
/// A response of an unexpected shape fails the reconcile.
pub open spec fn server_step_spec(
    server: ServerObject,
    cfg: ServerReconcileConfig,
    resp: Option<Response>,
    step: ServerStep,
    res: (ServerStep, Option<Request>),
) -> bool {
    let ns = server.metadata.namespace@;
    let name = server.metadata.name@;
    match step {
        ServerStep::Init => if server.metadata.deleting {
            &&& res.0 is AfterListKeys
            &&& (res.1 matches Some(Request::ListChildren { kind, namespace }) && kind is Key
                && namespace@ == ns)
        } else if views_of(server.metadata.finalizers@).contains(spec_operator_finalizer()) {
            &&& res.0 is AfterGetMasterSecret
            &&& spec_get_master_secret_req(ns, name, res.1)
        } else {
            &&& res.0 is AfterEnsureFinalizer
            &&& (res.1 matches Some(
                Request::SetFinalizers { kind, namespace, name: n, finalizers },
            ) && kind is Server && namespace@ == ns && n@ == name && (finalizers matches Some(fs)
                && fs@.len() == 1 && fs@[0]@ == spec_operator_finalizer()))
        },
        ServerStep::AfterListKeys => match resp {
            Some(Response::Children(refs)) => {
                &&& res.0 is AfterDeleteKeys
                &&& (res.1 matches Some(Request::DeleteChildren { kind, namespace, names }) && kind
                    is Key && namespace@ == ns && crate::api::string_views(names@)
                    == spec_fast_delete_targets(refs@, name))
            },
            _ => spec_step_failed(res),
        },
        ServerStep::AfterDeleteKeys => if resp matches Some(Response::Done) {
            &&& res.0 is AfterListIndexes
            &&& (res.1 matches Some(Request::ListChildren { kind, namespace }) && kind is Index
                && namespace@ == ns)
        } else {
            spec_step_failed(res)
        },
        ServerStep::AfterListIndexes => match resp {
            Some(Response::Children(refs)) => {
                &&& res.0 is AfterDeleteIndexes
                &&& (res.1 matches Some(Request::DeleteChildren { kind, namespace, names }) && kind
                    is Index && namespace@ == ns && crate::api::string_views(names@)
                    == spec_fast_delete_targets(refs@, name))
            },
            _ => spec_step_failed(res),
        },
        ServerStep::AfterDeleteIndexes => if resp matches Some(Response::Done) {
            &&& res.0 is AfterDeleteMirror
            &&& (res.1 matches Some(Request::DeleteSecret { namespace, name: n }) && namespace@
                == cfg.operator_namespace@ && n@ == spec_mirror_secret_name(ns, name))
        } else {
            spec_step_failed(res)
        },
        ServerStep::AfterDeleteMirror => if resp matches Some(Response::Done) {
            &&& res.0 is AfterClearFinalizer
            &&& (res.1 matches Some(
                Request::SetFinalizers { kind, namespace, name: n, finalizers },
            ) && kind is Server && namespace@ == ns && n@ == name && finalizers is None)
        } else {
            spec_step_failed(res)
        },
        ServerStep::AfterClearFinalizer => if resp matches Some(Response::Done) {
            res.0 is Cleaned && res.1 is None
        } else {
            spec_step_failed(res)
        },
        ServerStep::AfterEnsureFinalizer => if resp matches Some(Response::Done) {
            &&& res.0 is AfterGetMasterSecret
            &&& spec_get_master_secret_req(ns, name, res.1)
        } else {
            spec_step_failed(res)
        },
        ServerStep::AfterGetMasterSecret => match resp {
            Some(Response::SecretEntry(entry)) => match entry {
                Some(bytes) => if valid_utf8(bytes@) {
                    &&& (res.0 matches ServerStep::AfterApplyMirror { master_key }
                        && encode_utf8(master_key@) == bytes@ && spec_apply_mirror_req(
                        server,
                        cfg,
                        master_key@,
                        res.1,
                    ))
                } else {
                    spec_step_failed(res)
                },
                None => {
                    &&& (res.0 matches ServerStep::AfterCreateMasterSecret { master_key }
                        && spec_master_key_shape(master_key@) && (res.1 matches Some(
                        Request::CreateSecret { namespace, secret },
                    ) && namespace@ == ns && secret.name@ == spec_master_secret_name(name)
                        && secret.entry_key@ == "masterKey"@ && secret.entry_value@ == master_key@
                        && (secret.owner matches Some(o) && spec_server_owner_ref(server, o))))
                },
            },
            _ => spec_step_failed(res),
        },
        ServerStep::AfterCreateMasterSecret { master_key } => if resp matches Some(
            Response::Done,
        ) {
            &&& (res.0 matches ServerStep::AfterApplyMirror { master_key: k } && k@ == master_key@)
            &&& spec_apply_mirror_req(server, cfg, master_key@, res.1)
        } else {
            spec_step_failed(res)
        },
        ServerStep::AfterApplyMirror { master_key } => if resp matches Some(Response::Done) {
            &&& res.0 is AfterApplyService
            &&& (res.1 matches Some(Request::ApplyService { namespace, service }) && namespace@
                == ns && spec_service_fields(name, server.spec.port, service)
                && spec_server_owner_ref(server, service.owner))
        } else {
            spec_step_failed(res)
        },
        ServerStep::AfterApplyService => if resp matches Some(Response::Done) {
            &&& res.0 is AfterApplyStatefulSet
            &&& (res.1 matches Some(Request::ApplyStatefulSet { namespace, statefulset })
                && namespace@ == ns && spec_statefulset_fields(name, server.spec, statefulset)
                && spec_server_owner_ref(server, statefulset.owner))
        } else {
            spec_step_failed(res)
        },
        ServerStep::AfterApplyStatefulSet => if resp matches Some(Response::Done) {
            &&& (res.0 matches ServerStep::WaitingHealth { attempts } && attempts == 1)
            &&& spec_probe_req(server, 0, res.1)
        } else {
            spec_step_failed(res)
        },
        ServerStep::WaitingHealth { attempts } => match resp {
            Some(Response::HealthStatus(status)) => if spec_health_ok(status) {
                &&& res.0 is AfterPatchStatus
                &&& (res.1 matches Some(Request::PatchServerStatus { namespace, name: n, status })
                    && namespace@ == ns && n@ == name && status.ready && (status.endpoint
                    matches Some(e) && e@ == spec_endpoint_url(name, ns, server.spec.port))
                    && status.message is None)
            } else if attempts > cfg.health_max_attempts {
                spec_step_failed(res)
            } else {
                &&& (res.0 matches ServerStep::WaitingHealth { attempts: a } && a
                    == spec_next_attempt(attempts))
                &&& spec_probe_req(server, cfg.health_interval_millis, res.1)
            },
            _ => spec_step_failed(res),
        },
        ServerStep::AfterPatchStatus => if resp matches Some(Response::Done) {
            res.0 is Done && res.1 is None
        } else {
            spec_step_failed(res)
        },
        ServerStep::Done => res.0 is Done && res.1 is None,
        ServerStep::Cleaned => res.0 is Cleaned && res.1 is None,
        ServerStep::Failed => res.0 is Failed && res.1 is None,
    }
}

/// A failing step: no request, the error policy takes over.
pub open spec fn spec_step_failed(res: (ServerStep, Option<Request>)) -> bool {
    res.0 is Failed && res.1 is None
}

/// The read of the master-key secret's `masterKey` entry.
pub open spec fn spec_get_master_secret_req(
    ns: Seq<char>,
    name: Seq<char>,
    req: Option<Request>,
) -> bool {
    req matches Some(Request::GetSecretEntry { namespace, name: n, entry }) && namespace@ == ns
        && n@ == spec_master_secret_name(name) && entry@ == "masterKey"@
}

/// The server-side apply of the operator-namespace mirror secret, carrying
/// the master key and no owner reference.
pub open spec fn spec_apply_mirror_req(
    server: ServerObject,
    cfg: ServerReconcileConfig,
    master_key: Seq<char>,
    req: Option<Request>,
) -> bool {
    req matches Some(Request::ApplySecret { namespace, secret }) && namespace@
        == cfg.operator_namespace@ && secret.name@ == spec_mirror_secret_name(
        server.metadata.namespace@,
        server.metadata.name@,
    ) && secret.owner is None && secret.entry_key@ == "masterKey"@ && secret.entry_value@
        == master_key
}

/// The health probe of the server's endpoint.
pub open spec fn spec_probe_req(server: ServerObject, delay: u64, req: Option<Request>) -> bool {
    req matches Some(Request::ProbeHealth { url, delay_before_millis }) && url@ == spec_health_url(
        spec_endpoint_url(server.metadata.name@, server.metadata.namespace@, server.spec.port),
    ) && delay_before_millis == delay
}

/// One step of the Server reconcile.
pub fn reconcile_step(
    server: &ServerObject,
    cfg: &ServerReconcileConfig,
    resp: Option<Response>,
    step: ServerStep,
) -> (res: (ServerStep, Option<Request>))
    ensures
        server_step_spec(*server, *cfg, resp, step, res),
{
    let ns = &server.metadata.namespace;
    let name = &server.metadata.name;
    match step {
        ServerStep::Init => {
            if server.metadata.deleting {
                (
                    ServerStep::AfterListKeys,
                    Some(
                        Request::ListChildren { kind: ResourceKind::Key, namespace: ns.clone() },
                    ),
                )
            } else if has_operator_finalizer(&server.metadata.finalizers) {
                (ServerStep::AfterGetMasterSecret, Some(get_master_secret_req(ns, name)))
            } else {
                let mut fs: Vec<String> = Vec::new();
                fs.push(operator_finalizer());
                (
                    ServerStep::AfterEnsureFinalizer,
                    Some(
                        Request::SetFinalizers {
                            kind: ResourceKind::Server,
                            namespace: ns.clone(),
                            name: name.clone(),
                            finalizers: Some(fs),
                        },
                    ),
                )
            }
        },
        ServerStep::AfterListKeys => {
            match resp {
                Some(Response::Children(refs)) => {
                    let names = fast_delete_targets(&refs, name);
                    (
                        ServerStep::AfterDeleteKeys,
                        Some(
                            Request::DeleteChildren {
                                kind: ResourceKind::Key,
                                namespace: ns.clone(),
                                names,
                            },
                        ),
                    )
                },
                _ => (ServerStep::Failed, None),
            }
        },
        ServerStep::AfterDeleteKeys => {
            match resp {
                Some(Response::Done) => (
                    ServerStep::AfterListIndexes,
                    Some(
                        Request::ListChildren { kind: ResourceKind::Index, namespace: ns.clone() },
                    ),
                ),
                _ => (ServerStep::Failed, None),
            }
        },
        ServerStep::AfterListIndexes => {
            match resp {
                Some(Response::Children(refs)) => {
                    let names = fast_delete_targets(&refs, name);
                    (
                        ServerStep::AfterDeleteIndexes,
                        Some(
                            Request::DeleteChildren {
                                kind: ResourceKind::Index,
                                namespace: ns.clone(),
                                names,
                            },
                        ),
                    )
                },
                _ => (ServerStep::Failed, None),
            }
        },
        ServerStep::AfterDeleteIndexes => {
            match resp {
                Some(Response::Done) => (
                    ServerStep::AfterDeleteMirror,
                    Some(
                        Request::DeleteSecret {
                            namespace: cfg.operator_namespace.clone(),
                            name: mirror_secret_name(ns.as_str(), name.as_str()),
                        },
                    ),
                ),
                _ => (ServerStep::Failed, None),
            }
        },
        ServerStep::AfterDeleteMirror => {
            match resp {
                Some(Response::Done) => (
                    ServerStep::AfterClearFinalizer,
                    Some(
                        Request::SetFinalizers {
                            kind: ResourceKind::Server,
                            namespace: ns.clone(),
                            name: name.clone(),
                            finalizers: None,
                        },
                    ),
                ),
                _ => (ServerStep::Failed, None),
            }
        },
        ServerStep::AfterClearFinalizer => {
            match resp {
                Some(Response::Done) => (ServerStep::Cleaned, None),
                _ => (ServerStep::Failed, None),
            }
        },
        ServerStep::AfterEnsureFinalizer => {
            match resp {
                Some(Response::Done) => (
                    ServerStep::AfterGetMasterSecret,
                    Some(get_master_secret_req(ns, name)),
                ),
                _ => (ServerStep::Failed, None),
            }
        },
        ServerStep::AfterGetMasterSecret => {
            match resp {
                Some(Response::SecretEntry(entry)) => {
                    match entry {
                        Some(bytes) => {
                            match string_from_utf8(bytes) {
                                Some(master_key) => {
                                    let req = apply_mirror_req(server, cfg, &master_key);
                                    (ServerStep::AfterApplyMirror { master_key }, Some(req))
                                },
                                None => (ServerStep::Failed, None),
                            }
                        },
                        None => {
                            let master_key = generate_master_key();
                            let secret = SecretModel {
                                name: master_secret_name(name.as_str()),
                                owner: Some(owner_ref(server)),
                                entry_key: "masterKey".to_owned(),
                                entry_value: master_key.clone(),
                            };
                            (
                                ServerStep::AfterCreateMasterSecret { master_key },
                                Some(
                                    Request::CreateSecret { namespace: ns.clone(), secret },
                                ),
                            )
                        },
                    }
                },
                _ => (ServerStep::Failed, None),
            }
        },
        ServerStep::AfterCreateMasterSecret { master_key } => {
            match resp {
                Some(Response::Done) => {
                    let req = apply_mirror_req(server, cfg, &master_key);
                    (ServerStep::AfterApplyMirror { master_key }, Some(req))
                },
                _ => (ServerStep::Failed, None),
            }
        },
        ServerStep::AfterApplyMirror { master_key: _ } => {
            match resp {
                Some(Response::Done) => {
                    let owner = owner_ref(server);
                    let service = build_service(name.as_str(), server.spec.port, &owner);
                    (
                        ServerStep::AfterApplyService,
                        Some(Request::ApplyService { namespace: ns.clone(), service }),
                    )
                },
                _ => (ServerStep::Failed, None),
            }
        },
        ServerStep::AfterApplyService => {
            match resp {
                Some(Response::Done) => {
                    let owner = owner_ref(server);
                    let statefulset = build_statefulset(name.as_str(), &server.spec, &owner);
                    (
                        ServerStep::AfterApplyStatefulSet,
                        Some(Request::ApplyStatefulSet { namespace: ns.clone(), statefulset }),
                    )
                },
                _ => (ServerStep::Failed, None),
            }
        },
        ServerStep::AfterApplyStatefulSet => {
            match resp {
                Some(Response::Done) => (
                    ServerStep::WaitingHealth { attempts: 1 },
                    Some(probe_req(server, 0)),
                ),
                _ => (ServerStep::Failed, None),
            }
        },
        ServerStep::WaitingHealth { attempts } => {
            match resp {
                Some(Response::HealthStatus(status)) => {
                    if health_ok(&status) {
                        let endpoint = endpoint_url(name.as_str(), ns.as_str(), server.spec.port);
                        let status = crate::crds::ServerStatus {
                            ready: true,
                            endpoint: Some(endpoint),
                            message: None,
                        };
                        (
                            ServerStep::AfterPatchStatus,
                            Some(
                                Request::PatchServerStatus {
                                    namespace: ns.clone(),
                                    name: name.clone(),
                                    status,
                                },
                            ),
                        )
                    } else if attempts > cfg.health_max_attempts {
                        (ServerStep::Failed, None)
                    } else {
                        let a = if attempts < u32::MAX {
                            attempts + 1
                        } else {
                            attempts
                        };
                        (
                            ServerStep::WaitingHealth { attempts: a },
                            Some(probe_req(server, cfg.health_interval_millis)),
                        )
                    }
                },
                _ => (ServerStep::Failed, None),
            }
        },
        ServerStep::AfterPatchStatus => {
            match resp {
                Some(Response::Done) => (ServerStep::Done, None),
                _ => (ServerStep::Failed, None),
            }
        },
        ServerStep::Done => (ServerStep::Done, None),
        ServerStep::Cleaned => (ServerStep::Cleaned, None),
        ServerStep::Failed => (ServerStep::Failed, None),
    }
}

/// Law: a live Server's reconcile puts the operator finalizer in place
/// before anything else: either the resource already carries it, or the very
/// first request patches a finalizer list that carries it.
pub proof fn lemma_live_reconcile_requests_finalizer(
    server: ServerObject,
    cfg: ServerReconcileConfig,
    resp: Option<Response>,
    res: (ServerStep, Option<Request>),
)
    requires
        !server.metadata.deleting,
        server_step_spec(server, cfg, resp, ServerStep::Init, res),
    ensures
        views_of(server.metadata.finalizers@).contains(spec_operator_finalizer()) || (res.1
            matches Some(Request::SetFinalizers { finalizers, .. }) && (finalizers matches Some(fs)
            && views_of(fs@).contains(spec_operator_finalizer()))),
{
    if !views_of(server.metadata.finalizers@).contains(spec_operator_finalizer()) {
        match res.1 {
            Some(Request::SetFinalizers { finalizers: Some(fs), .. }) => {
                assert(fs@[0]@ == spec_operator_finalizer());
                assert(crate::engine::seq_has_view(fs@, spec_operator_finalizer()));
            },
            _ => {},
        }
    }
}

/// Law: when no master-key secret exists yet, one reconcile first creates it
/// with a fresh 64-character alphanumeric key, under a controller owner
/// reference, and then applies the operator-namespace mirror with exactly the
/// same key.
pub proof fn lemma_fresh_master_key_created_and_mirrored(
    server: ServerObject,
    cfg: ServerReconcileConfig,
    res1: (ServerStep, Option<Request>),
    res2: (ServerStep, Option<Request>),
)
    requires
        server_step_spec(
            server,
            cfg,
            Some(Response::SecretEntry(None)),
            ServerStep::AfterGetMasterSecret,
            res1,
        ),
        server_step_spec(server, cfg, Some(Response::Done), res1.0, res2),
    ensures
        ({
            &&& (res1.1 matches Some(Request::CreateSecret { namespace: ns1, secret: master })
                && ns1@ == server.metadata.namespace@ && master.name@ == spec_master_secret_name(
                server.metadata.name@,
            ) && master.entry_key@ == "masterKey"@ && spec_master_key_shape(master.entry_value@)
                && (master.owner matches Some(o) && spec_server_owner_ref(server, o)) && (res2.1
                matches Some(Request::ApplySecret { namespace: ns2, secret: mirror }) && ns2@
                == cfg.operator_namespace@ && mirror.name@ == spec_mirror_secret_name(
                server.metadata.namespace@,
                server.metadata.name@,
            ) && mirror.entry_key@ == "masterKey"@ && mirror.owner is None
                && mirror.entry_value@ == master.entry_value@))
        }),
{
}

/// Law: when the master-key secret already exists and decodes, the mirror
/// applied to the operator namespace carries exactly its content.
pub proof fn lemma_existing_master_key_mirrored(
    server: ServerObject,
    cfg: ServerReconcileConfig,
    bytes: Vec<u8>,
    res: (ServerStep, Option<Request>),
)
    requires
        valid_utf8(bytes@),
        server_step_spec(
            server,
            cfg,
            Some(Response::SecretEntry(Some(bytes))),
            ServerStep::AfterGetMasterSecret,
            res,
        ),
    ensures
        res.1 matches Some(Request::ApplySecret { namespace, secret }) && namespace@
            == cfg.operator_namespace@ && secret.name@ == spec_mirror_secret_name(
            server.metadata.namespace@,
            server.metadata.name@,
        ) && secret.owner is None && encode_utf8(secret.entry_value@) == bytes@,
{
}

/// Law: a deleting Server's reconcile asks to delete exactly the dependent
/// children that reference it by name. The transition relation says the
/// requested names are `spec_fast_delete_targets` of the listed children;
/// this law says those targets are precisely the children whose `serverRef`
/// names the server: every such child is among the names, and every name
/// comes from such a child.
pub proof fn lemma_cascade_deletes_all_referencing_children(
    refs: Seq<crate::crds::ChildRef>,
    server: Seq<char>,
    names: Seq<String>,
)
    requires
        crate::api::string_views(names) == spec_fast_delete_targets(refs, server),
    ensures
        forall|i: int|
            0 <= i < refs.len() && (#[trigger] refs[i]).server_ref@ == server
                ==> spec_some_name_is(names, refs[i].name@),
        forall|k: int|
            0 <= k < names.len() ==> spec_some_child_references(
                refs,
                server,
                #[trigger] names[k]@,
            ),
{
    crate::api::lemma_fast_delete_targets_exact(refs, server);
    let t = crate::api::string_views(names);
    assert(t.len() == names.len());
    assert forall|i: int|
        0 <= i < refs.len() && (#[trigger] refs[i]).server_ref@ == server implies
        spec_some_name_is(names, refs[i].name@) by {
        assert(t.contains(refs[i].name@));
        let k = choose|k: int| 0 <= k < t.len() && t[k] == refs[i].name@;
        assert(names[k]@ == refs[i].name@);
    }
    assert forall|k: int| 0 <= k < names.len() implies spec_some_child_references(
        refs,
        server,
        names[k]@,
    ) by {
        assert(t[k] == names[k]@);
        assert(t.contains(t[k]));
        assert(spec_fast_delete_targets(refs, server).contains(t[k]));
        let i = choose|i: int|
            0 <= i < refs.len() && refs[i].server_ref@ == server && refs[i].name@ == t[k];
        assert(0 <= i < refs.len() && refs[i].server_ref@ == server && refs[i].name@
            == names[k]@);
    }
}

/// Whether some element of `names` has view `v`.
pub open spec fn spec_some_name_is(names: Seq<String>, v: Seq<char>) -> bool {
    exists|k: int| 0 <= k < names.len() && names[k]@ == v
}

/// Whether some listed child references `server` under the name `v`.
pub open spec fn spec_some_child_references(
    refs: Seq<crate::crds::ChildRef>,
    server: Seq<char>,
    v: Seq<char>,
) -> bool {
    exists|i: int| 0 <= i < refs.len() && refs[i].server_ref@ == server && refs[i].name@ == v
}

/// Law: the deletion path removes the operator-namespace mirror secret and
/// then clears the Server's finalizer.
pub proof fn lemma_deletion_removes_mirror_then_finalizer(
    server: ServerObject,
    cfg: ServerReconcileConfig,
    res1: (ServerStep, Option<Request>),
    res2: (ServerStep, Option<Request>),
)
    requires
        server_step_spec(
            server,
            cfg,
            Some(Response::Done),
            ServerStep::AfterDeleteIndexes,
            res1,
        ),
        server_step_spec(server, cfg, Some(Response::Done), res1.0, res2),
    ensures
        res1.1 matches Some(Request::DeleteSecret { namespace, name }) && namespace@
            == cfg.operator_namespace@ && name@ == spec_mirror_secret_name(
            server.metadata.namespace@,
            server.metadata.name@,
        ),
        res2.1 matches Some(Request::SetFinalizers { kind, finalizers, .. }) && kind is Server
            && finalizers is None,
{
}

/// Law: the Server reconciler never talks to the engine's administrative
/// API: in particular the cascading fast-delete of dependent children issues
/// no engine deletions.
pub proof fn lemma_server_reconcile_never_calls_engine(
    server: ServerObject,
    cfg: ServerReconcileConfig,
    resp: Option<Response>,
    step: ServerStep,
    res: (ServerStep, Option<Request>),
)
    requires
        server_step_spec(server, cfg, resp, step, res),
    ensures
        res.1 matches Some(req) ==> !crate::api::spec_is_engine_request(req),
{
}

/// Law: readiness is gated on the engine's health endpoint: the status patch
/// reporting `ready` is requested only after a successful probe, an
/// unsuccessful probe within the attempt budget schedules exactly one more
/// probe after the configured pause, and an exhausted budget fails the
/// reconcile.
pub proof fn lemma_health_gating(
    server: ServerObject,
    cfg: ServerReconcileConfig,
    status: Option<u16>,
    attempts: u32,
    res: (ServerStep, Option<Request>),
)
    requires
        server_step_spec(
            server,
            cfg,
            Some(Response::HealthStatus(status)),
            ServerStep::WaitingHealth { attempts },
            res,
        ),
    ensures
        res.1 matches Some(Request::PatchServerStatus { status: st, .. }) ==> spec_health_ok(
            status,
        ) && st.ready,
        !spec_health_ok(status) && attempts > cfg.health_max_attempts ==> res.0 is Failed && res.1
            is None,
        !spec_health_ok(status) && attempts <= cfg.health_max_attempts ==> ((res.0 matches
            ServerStep::WaitingHealth { attempts: a } && a == spec_next_attempt(attempts))
            && spec_probe_req(server, cfg.health_interval_millis, res.1)),
{
}

fn get_master_secret_req(ns: &String, name: &String) -> (req: Request)
    ensures
        spec_get_master_secret_req(ns@, name@, Some(req)),
{
    Request::GetSecretEntry {
        namespace: ns.clone(),
        name: master_secret_name(name.as_str()),
        entry: "masterKey".to_owned(),
    }
}

fn apply_mirror_req(server: &ServerObject, cfg: &ServerReconcileConfig, master_key: &String) -> (
    req: Request)
    ensures
        spec_apply_mirror_req(*server, *cfg, master_key@, Some(req)),
{
    let secret = SecretModel {
        name: mirror_secret_name(
            server.metadata.namespace.as_str(),
            server.metadata.name.as_str(),
        ),
        owner: None,
        entry_key: "masterKey".to_owned(),
        entry_value: master_key.clone(),
    };
    Request::ApplySecret { namespace: cfg.operator_namespace.clone(), secret }
}

fn probe_req(server: &ServerObject, delay: u64) -> (req: Request)
    ensures
        spec_probe_req(*server, delay, Some(req)),
{
    let endpoint = endpoint_url(
        server.metadata.name.as_str(),
        server.metadata.namespace.as_str(),
        server.spec.port,
    );
    Request::ProbeHealth { url: health_url(endpoint.as_str()), delay_before_millis: delay }
}

} // verus!
