//! The requests a reconciler hands to its driver and the responses it gets
//! back, plus the small shared decisions over observed cluster state. The
//! driver performs each request (a cluster API call or an engine HTTP call)
//! and feeds the outcome into the next reconcile step.

use vstd::prelude::*;

use crate::crds::{ChildRef, IndexStatus, KeyStatus, ServerStatus};
use crate::engine::{contains_string, views_of, EngineAction, KeyItem};
use crate::names::{operator_finalizer, spec_operator_finalizer};
use crate::secrets::SecretModel;
use crate::workload::{ServiceModel, StatefulSetModel};

verus! {

/// The custom kinds a request can address.
#[derive(Debug, Clone, Copy, PartialEq, Eq)]
pub enum ResourceKind {
    Server,
    Index,
    Key,
}

/// A key to be created on the engine.
#[derive(Debug, Clone, PartialEq)]
pub struct KeyDraft {
    pub name: String,
    pub description: Option<String>,
    pub actions: Vec<EngineAction>,
    pub indexes: Vec<String>,
    /// Expiry as nanoseconds since the Unix epoch; unset when the declared
    /// expiry is absent or unparseable.
    pub expires_at_nanos: Option<i128>,
}

/// One request a reconcile step asks its driver to perform.
#[derive(Debug, Clone, PartialEq)]
pub enum Request {
    /// List the Index or Key resources of a namespace.
    ListChildren { kind: ResourceKind, namespace: String },
    /// Clear the finalizers of each named resource by merge patch, then
    /// delete it; 404 is ignored for both calls.
    DeleteChildren { kind: ResourceKind, namespace: String, names: Vec<String> },
    /// Delete a secret; 404 is ignored.
    DeleteSecret { namespace: String, name: String },
    /// Merge-patch the finalizer list of a resource; `None` clears it.
    SetFinalizers {
        kind: ResourceKind,
        namespace: String,
        name: String,
        finalizers: Option<Vec<String>>,
    },
    /// Fetch one entry of a secret. For an optional read the driver answers
    /// a missing secret with a missing entry; where the secret is required
    /// it fails the reconcile on 404 instead.
    GetSecretEntry { namespace: String, name: String, entry: String },
    /// Fetch the `key` entry of the target secret, both its plain and its
    /// binary form; 404 answers as absent.
    GetTargetSecret { namespace: String, name: String },
    /// Create a secret; 409 counts as success.
    CreateSecret { namespace: String, secret: SecretModel },
    /// Server-side apply of a secret under the operator's field manager.
    ApplySecret { namespace: String, secret: SecretModel },
    /// Server-side apply of the service.
    ApplyService { namespace: String, service: ServiceModel },
    /// Server-side apply of the stateful workload.
    ApplyStatefulSet { namespace: String, statefulset: StatefulSetModel },
    /// Sleep `delay_before_millis`, then probe the URL with a one-second
    /// request timeout, answering the HTTP status (absent on transport
    /// failure).
    ProbeHealth { url: String, delay_before_millis: u64 },
    /// Whether the named Server resource is being deleted; absent when it no
    /// longer exists.
    GetServerDeleting { namespace: String, name: String },
    /// The cluster-assigned uid of a resource; absent when the fetch fails.
    GetObjectUid { kind: ResourceKind, namespace: String, name: String },
    /// Merge-patch the status sub-resource of a Server.
    PatchServerStatus { namespace: String, name: String, status: ServerStatus },
    /// Merge-patch the status sub-resource of an Index.
    PatchIndexStatus { namespace: String, name: String, status: IndexStatus },
    /// Merge-patch the status sub-resource of a Key.
    PatchKeyStatus { namespace: String, name: String, status: KeyStatus },
    /// Create the index on the engine (accepting "already exists") and wait
    /// for the task to complete.
    EngineCreateIndex {
        endpoint: String,
        master_key: String,
        uid: String,
        primary_key: Option<String>,
    },
    /// Delete the index on the engine and wait for the task to complete.
    EngineDeleteIndex { endpoint: String, master_key: String, uid: String },
    /// Fetch one page of the engine's key listing.
    EngineListKeysPage { endpoint: String, master_key: String, offset: u64, limit: u64 },
    /// Create a key on the engine.
    EngineCreateKey { endpoint: String, master_key: String, draft: KeyDraft },
    /// Delete a key on the engine by uid.
    EngineDeleteKey { endpoint: String, master_key: String, uid: String },
}

/// The driver's answer to the previous request.
#[derive(Debug, Clone, PartialEq)]
pub enum Response {
    /// The request completed; nothing further to report.
    Done,
    /// The listed children, each with its name and server reference.
    Children(Vec<ChildRef>),
    /// The requested secret entry, absent when secret or entry is missing.
    SecretEntry(Option<Vec<u8>>),
    /// The target secret's `key` entry in both forms; `exists` is false when
    /// the secret is absent altogether.
    TargetSecret { exists: bool, string_entry: Option<String>, data_entry: Option<Vec<u8>> },
    /// Whether the referenced Server is being deleted, absent when gone.
    ServerState { deleting: Option<bool> },
    /// The fetched resource uid, absent when the fetch failed.
    ObjectUid(Option<String>),
    /// The HTTP status of the health probe, absent on transport failure.
    HealthStatus(Option<u16>),
    /// One page of the engine's key listing with the reported total.
    KeysPage { results: Vec<KeyItem>, total: u64 },
    /// The created engine key.
    KeyCreated { key: String, uid: String },
}

/// Whether a request talks to the engine rather than the cluster API.
pub open spec fn spec_is_engine_request(req: Request) -> bool {
    ||| req is EngineCreateIndex
    ||| req is EngineDeleteIndex
    ||| req is EngineListKeysPage
    ||| req is EngineCreateKey
    ||| req is EngineDeleteKey
}

/// View-level agreement of two string lists, element by element.
pub open spec fn string_lists_agree(a: Seq<String>, b: Seq<String>) -> bool {
    a.len() == b.len() && forall|i: int| 0 <= i < a.len() ==> a[i]@ == #[trigger] b[i]@
}

/// The view of an optional string.
pub open spec fn opt_view(s: Option<String>) -> Option<Seq<char>> {
    match s {
        Some(x) => Some(x@),
        None => None,
    }
}

/// View-level agreement of two optional strings.
pub open spec fn opt_string_view_eq(a: Option<String>, b: Option<String>) -> bool {
    match (a, b) {
        (Some(x), Some(y)) => x@ == y@,
        (None, None) => true,
        _ => false,
    }
}

/// Copies a list of strings unchanged.
pub fn clone_strings(v: &Vec<String>) -> (r: Vec<String>)
    ensures
        r@.len() == v@.len(),
        forall|i: int| 0 <= i < r@.len() ==> r@[i]@ == #[trigger] v@[i]@,
{
    let mut out: Vec<String> = Vec::new();
    let mut i: usize = 0;
    while i < v.len()
        invariant
            i <= v@.len(),
            out@.len() == i,
            forall|j: int| 0 <= j < i ==> out@[j]@ == #[trigger] v@[j]@,
        decreases v@.len() - i,
    {
        out.push(v[i].clone());
        i += 1;
    }
    out
}

/// Copies an optional string unchanged.
pub fn clone_opt_string(v: &Option<String>) -> (r: Option<String>)
    ensures
        opt_string_view_eq(r, *v),
{
    match v {
        Some(s) => Some(s.clone()),
        None => None,
    }
}

/// Whether a health probe outcome counts as healthy: any 2xx status.
pub open spec fn spec_health_ok(status: Option<u16>) -> bool {
    status matches Some(s) && 200 <= s < 300
}

pub fn health_ok(status: &Option<u16>) -> (r: bool)
    ensures
        r == spec_health_ok(*status),
{
    match status {
        Some(s) => 200 <= *s && *s < 300,
        None => false,
    }
}

/// Whether the referenced Server blocks engine cleanup: it does when it is
/// being deleted, and a Server that no longer exists counts as deleted.
pub open spec fn spec_server_is_deleting(state: Option<bool>) -> bool {
    match state {
        Some(deleting) => deleting,
        None => true,
    }
}

pub fn server_is_deleting(state: &Option<bool>) -> (r: bool)
    ensures
        r == spec_server_is_deleting(*state),
{
    match state {
        Some(deleting) => *deleting,
        None => true,
    }
}

/// Whether a finalizer list already carries the operator finalizer.
pub fn has_operator_finalizer(finalizers: &Vec<String>) -> (r: bool)
    ensures
        r == views_of(finalizers@).contains(spec_operator_finalizer()),
{
    let f = operator_finalizer();
    contains_string(finalizers, &f)
}

/// The finalizer list with the operator finalizer appended.
pub fn with_operator_finalizer(finalizers: &Vec<String>) -> (r: Vec<String>)
    ensures
        r@.len() == finalizers@.len() + 1,
        forall|i: int| 0 <= i < finalizers@.len() ==> r@[i]@ == #[trigger] finalizers@[i]@,
        r@[finalizers@.len() as int]@ == spec_operator_finalizer(),
        views_of(r@).contains(spec_operator_finalizer()),
{
    let mut out: Vec<String> = Vec::new();
    let mut i: usize = 0;
    while i < finalizers.len()
        invariant
            i <= finalizers@.len(),
            out@.len() == i,
            forall|j: int| 0 <= j < i ==> out@[j]@ == #[trigger] finalizers@[j]@,
        decreases finalizers@.len() - i,
    {
        out.push(finalizers[i].clone());
        i += 1;
    }
    out.push(operator_finalizer());
    proof {
        let last = out@.len() - 1;
        assert(out@[last]@ == spec_operator_finalizer());
        assert(crate::engine::seq_has_view(out@, spec_operator_finalizer()));
    }
    out
}

/// The views of a list of strings, in order.
pub open spec fn string_views(s: Seq<String>) -> Seq<Seq<char>> {
    s.map_values(|x: String| x@)
}

/// The names of the listed children that reference the server, in listing
/// order.
pub open spec fn spec_fast_delete_targets(refs: Seq<ChildRef>, server: Seq<char>) -> Seq<
    Seq<char>,
>
    decreases refs.len(),
{
    if refs.len() == 0 {
        Seq::empty()
    } else {
        let rest = spec_fast_delete_targets(refs.drop_last(), server);
        if refs.last().server_ref@ == server {
            rest.push(refs.last().name@)
        } else {
            rest
        }
    }
}

/// Every child referencing the server is among the targets, and every target
/// comes from such a child.
pub proof fn lemma_fast_delete_targets_exact(refs: Seq<ChildRef>, server: Seq<char>)
    ensures
        forall|i: int|
            0 <= i < refs.len() && (#[trigger] refs[i]).server_ref@ == server
                ==> spec_fast_delete_targets(refs, server).contains(refs[i].name@),
        forall|v: Seq<char>|
            spec_fast_delete_targets(refs, server).contains(v) ==> exists|i: int|
                0 <= i < refs.len() && refs[i].server_ref@ == server && refs[i].name@ == v,
    decreases refs.len(),
{
    if refs.len() > 0 {
        lemma_fast_delete_targets_exact(refs.drop_last(), server);
        let rest = spec_fast_delete_targets(refs.drop_last(), server);
        let all = spec_fast_delete_targets(refs, server);
        assert forall|i: int|
            0 <= i < refs.len() && (#[trigger] refs[i]).server_ref@ == server implies all.contains(
            refs[i].name@,
        ) by {
            if i < refs.len() - 1 {
                assert(refs.drop_last()[i] == refs[i]);
                assert(rest.contains(refs[i].name@));
                let j = choose|j: int| 0 <= j < rest.len() && rest[j] == refs[i].name@;
                assert(all[j] == refs[i].name@);
            } else {
                assert(refs.last().server_ref@ == server);
                assert(all.last() == refs[i].name@);
            }
        }
        assert forall|v: Seq<char>| all.contains(v) implies exists|i: int|
            0 <= i < refs.len() && refs[i].server_ref@ == server && refs[i].name@ == v by {
            let j = choose|j: int| 0 <= j < all.len() && all[j] == v;
            if j < rest.len() {
                assert(rest[j] == v);
                assert(rest.contains(v));
                let i = choose|i: int|
                    0 <= i < refs.drop_last().len() && refs.drop_last()[i].server_ref@ == server
                        && refs.drop_last()[i].name@ == v;
                assert(refs[i] == refs.drop_last()[i]);
            } else {
                assert(refs.last().server_ref@ == server && refs.last().name@ == v);
                assert(refs[refs.len() - 1].server_ref@ == server);
            }
        }
    }
}

/// Selects the children to fast-delete when their server is going away:
/// exactly those whose `server_ref` names the server.
pub fn fast_delete_targets(refs: &Vec<ChildRef>, server: &String) -> (r: Vec<String>)
    ensures
        string_views(r@) == spec_fast_delete_targets(refs@, server@),
{
    let mut out: Vec<String> = Vec::new();
    let mut i: usize = 0;
    proof {
        assert(refs@.take(0) =~= Seq::<ChildRef>::empty());
        assert(string_views(out@) =~= spec_fast_delete_targets(refs@.take(0), server@));
    }
    while i < refs.len()
        invariant
            i <= refs@.len(),
            string_views(out@) == spec_fast_delete_targets(refs@.take(i as int), server@),
        decreases refs@.len() - i,
    {
        proof {
            assert(refs@.take(i + 1).drop_last() =~= refs@.take(i as int));
            assert(refs@.take(i + 1).last() == refs@[i as int]);
        }
        if refs[i].server_ref.eq(server) {
            out.push(refs[i].name.clone());
            proof {
                assert(string_views(out@) =~= spec_fast_delete_targets(refs@.take(i + 1), server@));
            }
        } else {
            proof {
                assert(string_views(out@) =~= spec_fast_delete_targets(refs@.take(i + 1), server@));
            }
        }
        i += 1;
    }
    proof {
        assert(refs@.take(refs@.len() as int) =~= refs@);
    }
    out
}

/// The next page offset after a page of `page_len` results, capped at the
/// integer range.
pub open spec fn spec_next_offset(offset: u64, page_len: nat) -> u64 {
    if offset + page_len <= u64::MAX {
        (offset + page_len) as u64
    } else {
        u64::MAX
    }
}

pub fn next_offset(offset: u64, page_len: usize) -> (r: u64)
    ensures
        r == spec_next_offset(offset, page_len as nat),
{
    if (page_len as u64) <= u64::MAX - offset {
        offset + (page_len as u64)
    } else {
        u64::MAX
    }
}

} // verus!
