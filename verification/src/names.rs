//! The exact names and URLs the operator derives from a resource: secret
//! names, the in-cluster endpoint, engine URLs, and the operator finalizer.

use vstd::prelude::*;
use vstd::string::StringExecFns;

use crate::strutil::{spec_dec_digits, u64_to_dec_string};

verus! {

/// The finalizer every managed resource bears while live.
pub open spec fn spec_operator_finalizer() -> Seq<char> {
    "meili.operator.dev/finalizer"@
}

pub fn operator_finalizer() -> (r: String)
    ensures
        r@ == spec_operator_finalizer(),
{
    "meili.operator.dev/finalizer".to_owned()
}

/// Name of the master-key secret in the server's own namespace.
pub open spec fn spec_master_secret_name(server: Seq<char>) -> Seq<char> {
    server + "-meili-master"@
}

pub fn master_secret_name(server: &str) -> (r: String)
    ensures
        r@ == spec_master_secret_name(server@),
{
    server.to_owned().concat("-meili-master")
}

/// Name of the operator-namespace mirror of the master-key secret.
pub open spec fn spec_mirror_secret_name(namespace: Seq<char>, server: Seq<char>) -> Seq<char> {
    namespace + "-"@ + server + "-meili-master"@
}

pub fn mirror_secret_name(namespace: &str, server: &str) -> (r: String)
    ensures
        r@ == spec_mirror_secret_name(namespace@, server@),
{
    let r = namespace.to_owned().concat("-").concat(server).concat("-meili-master");
    proof {
        assert(r@ =~= spec_mirror_secret_name(namespace@, server@));
    }
    r
}

/// The in-cluster endpoint URL of a server's engine.
pub open spec fn spec_endpoint_url(server: Seq<char>, namespace: Seq<char>, port: u16) -> Seq<
    char,
> {
    "http://"@ + server + "."@ + namespace + ".svc.cluster.local:"@ + spec_dec_digits(port as int)
}

pub fn endpoint_url(server: &str, namespace: &str, port: u16) -> (r: String)
    ensures
        r@ == spec_endpoint_url(server@, namespace@, port),
{
    let digits = u64_to_dec_string(port as u64);
    let r = "http://".to_owned().concat(server).concat(".").concat(namespace).concat(
        ".svc.cluster.local:",
    ).concat(digits.as_str());
    proof {
        assert(r@ =~= spec_endpoint_url(server@, namespace@, port));
    }
    r
}

/// The engine's health probe URL under an endpoint.
pub open spec fn spec_health_url(endpoint: Seq<char>) -> Seq<char> {
    endpoint + "/health"@
}

pub fn health_url(endpoint: &str) -> (r: String)
    ensures
        r@ == spec_health_url(endpoint@),
{
    endpoint.to_owned().concat("/health")
}

/// One page of the engine's key listing under an endpoint.
pub open spec fn spec_keys_page_url(endpoint: Seq<char>, offset: u64, limit: u64) -> Seq<char> {
    endpoint + "/keys?offset="@ + spec_dec_digits(offset as int) + "&limit="@ + spec_dec_digits(
        limit as int,
    )
}

pub fn keys_page_url(endpoint: &str, offset: u64, limit: u64) -> (r: String)
    ensures
        r@ == spec_keys_page_url(endpoint@, offset, limit),
{
    let off = u64_to_dec_string(offset);
    let lim = u64_to_dec_string(limit);
    let r = endpoint.to_owned().concat("/keys?offset=").concat(off.as_str()).concat(
        "&limit=",
    ).concat(lim.as_str());
    proof {
        assert(r@ =~= spec_keys_page_url(endpoint@, offset, limit));
    }
    r
}

/// The bearer-token authorization header value for a master key.
pub open spec fn spec_bearer_token(master_key: Seq<char>) -> Seq<char> {
    "Bearer "@ + master_key
}

pub fn bearer_token(master_key: &str) -> (r: String)
    ensures
        r@ == spec_bearer_token(master_key@),
{
    "Bearer ".to_owned().concat(master_key)
}

/// Display name of the admin key minted for an index.
pub open spec fn spec_admin_key_name(uid: Seq<char>) -> Seq<char> {
    uid + "-admin"@
}

pub fn admin_key_name(uid: &str) -> (r: String)
    ensures
        r@ == spec_admin_key_name(uid@),
{
    uid.to_owned().concat("-admin")
}

/// Description of the admin key minted for an index.
pub open spec fn spec_admin_key_description(uid: Seq<char>) -> Seq<char> {
    "Admin key for index "@ + uid
}

pub fn admin_key_description(uid: &str) -> (r: String)
    ensures
        r@ == spec_admin_key_description(uid@),
{
    "Admin key for index ".to_owned().concat(uid)
}

/// Default name of the secret holding an index admin key.
pub open spec fn spec_default_admin_secret_name(uid: Seq<char>) -> Seq<char> {
    uid + "-admin-key"@
}

pub fn default_admin_secret_name(uid: &str) -> (r: String)
    ensures
        r@ == spec_default_admin_secret_name(uid@),
{
    uid.to_owned().concat("-admin-key")
}

} // verus!
