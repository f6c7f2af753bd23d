//! The three custom kinds the operator manages, with their spec and status
//! sub-objects, and a plain model of the object metadata the reconcilers read.

use vstd::prelude::*;

verus! {

/// Desired state of a `Server`: a stateful search-engine workload plus the
/// service exposing it.
#[derive(Debug, Clone, PartialEq)]
pub struct ServerSpec {
    /// Container image; when absent the stock engine image is used.
    pub image: Option<String>,
    /// Replica count of the stateful workload.
    pub replicas: i32,
    /// Storage size for the data volume, e.g. "10Gi"; no volume when absent.
    pub storage: Option<String>,
    /// Service exposure mode: ClusterIP, NodePort or LoadBalancer.
    pub service_type: String,
    /// Port the engine serves HTTP on.
    pub port: u16,
}

/// Observed state of a `Server`.
#[derive(Debug, Clone, PartialEq)]
pub struct ServerStatus {
    pub ready: bool,
    /// In-cluster endpoint URL once the engine is reachable.
    pub endpoint: Option<String>,
    pub message: Option<String>,
}

pub fn default_replicas() -> (r: i32)
    ensures
        r == 1,
{
    1
}

pub fn default_service_type() -> (r: String)
    ensures
        r@ == "ClusterIP"@,
{
    "ClusterIP".to_owned()
}

pub fn default_port() -> (r: u16)
    ensures
        r == 7700,
{
    7700
}

/// Desired state of an `Index`: a named index on the referenced server.
#[derive(Debug, Clone, PartialEq)]
pub struct IndexSpec {
    /// Name of a Server in the same namespace.
    pub server_ref: String,
    /// Index identifier on the engine.
    pub uid: String,
    /// Optional primary key of the index.
    pub primary_key: Option<String>,
    /// Delete the index on the engine when the resource is deleted.
    pub delete_on_finalize: bool,
    /// Optionally mint an admin key scoped to this index.
    pub admin_key: Option<IndexAdminKeySpec>,
}

/// Observed state of an `Index`.
#[derive(Debug, Clone, PartialEq)]
pub struct IndexStatus {
    pub ready: bool,
    pub message: Option<String>,
}

/// Request for an admin key scoped to one index, stored into a secret.
#[derive(Debug, Clone, PartialEq)]
pub struct IndexAdminKeySpec {
    /// Create the admin key at all.
    pub create: bool,
    /// Namespace for the secret; the resource's own namespace when absent.
    pub secret_namespace: Option<String>,
    /// Name for the secret; `<uid>-admin-key` when absent.
    pub secret_name: Option<String>,
}

/// Desired state of a `Key`: a general-purpose API key on the referenced
/// server, materialized into a secret.
#[derive(Debug, Clone, PartialEq)]
pub struct KeySpec {
    /// Name of a Server in the same namespace.
    pub server_ref: String,
    /// Display name of the engine key.
    pub name: Option<String>,
    /// Description of the engine key.
    pub description: Option<String>,
    /// Actions the key grants, e.g. "search", "documents.add".
    pub actions: Vec<String>,
    /// Index scopes, e.g. "*" or specific uids.
    pub indexes: Vec<String>,
    /// Optional RFC 3339 expiry.
    pub expires_at: Option<String>,
    /// Namespace of the secret holding the key value.
    pub secret_namespace: String,
    /// Name of the secret holding the key value.
    pub secret_name: String,
}

/// Observed state of a `Key`.
#[derive(Debug, Clone, PartialEq)]
pub struct KeyStatus {
    /// Engine-assigned uid of the key, when the operator created it.
    pub uid: Option<String>,
    pub ready: bool,
    pub message: Option<String>,
}

/// Desired state of a `Policy`. The kind is declared but has no reconciler.
#[derive(Debug, Clone, PartialEq)]
pub struct PolicySpec {
    /// Name of a Server in the same namespace.
    pub server_ref: String,
    /// Ensure a default set of keys.
    pub default_search_key: bool,
}

/// Observed state of a `Policy`.
#[derive(Debug, Clone, PartialEq)]
pub struct PolicyStatus {
    pub applied: bool,
    pub message: Option<String>,
}

/// The part of an object's metadata the reconcilers read.
#[derive(Debug, Clone, PartialEq)]
pub struct Metadata {
    pub name: String,
    pub namespace: String,
    /// Cluster-assigned uid, used in owner references.
    pub uid: String,
    /// Whether the deletion timestamp is set.
    pub deleting: bool,
    pub finalizers: Vec<String>,
}

/// A `Server` resource as the reconciler observes it.
#[derive(Debug, Clone, PartialEq)]
pub struct ServerObject {
    pub metadata: Metadata,
    pub spec: ServerSpec,
}

/// An `Index` resource as the reconciler observes it.
#[derive(Debug, Clone, PartialEq)]
pub struct IndexObject {
    pub metadata: Metadata,
    pub spec: IndexSpec,
}

/// A `Key` resource as the reconciler observes it.
#[derive(Debug, Clone, PartialEq)]
pub struct KeyObject {
    pub metadata: Metadata,
    pub spec: KeySpec,
    pub status: Option<KeyStatus>,
}

/// Name and server reference of a dependent resource, as returned by listing
/// the Index or Key resources of a namespace.
#[derive(Debug, Clone, PartialEq)]
pub struct ChildRef {
    pub name: String,
    pub server_ref: String,
}

} // verus!
