//! Secrets as the operator writes them: the master key and its mirror, and
//! the secrets holding API-key values, with their ownership rules.

use vstd::prelude::*;
use vstd::utf8::{encode_utf8, valid_utf8};

use crate::crds::ServerObject;

verus! {

/// A controller owner reference, as attached to derived objects.
#[derive(Debug, Clone, PartialEq)]
pub struct OwnerRef {
    pub api_version: String,
    pub kind: String,
    pub name: String,
    pub uid: String,
    pub controller: bool,
    pub block_owner_deletion: bool,
}

/// Field-wise agreement of two owner references.
pub open spec fn owner_ref_like(a: OwnerRef, b: OwnerRef) -> bool {
    &&& a.api_version@ == b.api_version@
    &&& a.kind@ == b.kind@
    &&& a.name@ == b.name@
    &&& a.uid@ == b.uid@
    &&& a.controller == b.controller
    &&& a.block_owner_deletion == b.block_owner_deletion
}

/// The owner reference a server puts on its derived objects.
pub open spec fn spec_server_owner_ref(server: ServerObject, o: OwnerRef) -> bool {
    &&& o.api_version@ == "meili.operator.dev/v1beta1"@
    &&& o.kind@ == "Server"@
    &&& o.name@ == server.metadata.name@
    &&& o.uid@ == server.metadata.uid@
    &&& o.controller
    &&& o.block_owner_deletion
}

pub fn owner_ref(server: &ServerObject) -> (o: OwnerRef)
    ensures
        spec_server_owner_ref(*server, o),
{
    OwnerRef {
        api_version: "meili.operator.dev/v1beta1".to_owned(),
        kind: "Server".to_owned(),
        name: server.metadata.name.clone(),
        uid: server.metadata.uid.clone(),
        controller: true,
        block_owner_deletion: true,
    }
}

pub fn clone_owner_ref(o: &OwnerRef) -> (r: OwnerRef)
    ensures
        owner_ref_like(r, *o),
{
    OwnerRef {
        api_version: o.api_version.clone(),
        kind: o.kind.clone(),
        name: o.name.clone(),
        uid: o.uid.clone(),
        controller: o.controller,
        block_owner_deletion: o.block_owner_deletion,
    }
}

/// A secret as the operator writes it: a name, at most one owner reference,
/// and a single entry.
#[derive(Debug, Clone, PartialEq)]
pub struct SecretModel {
    pub name: String,
    pub owner: Option<OwnerRef>,
    pub entry_key: String,
    pub entry_value: String,
}

/// A secret holding an API-key value under entry `key`, owned by the
/// originating resource exactly when it lives in that resource's namespace:
/// ownership cannot cross namespaces.
pub open spec fn spec_stored_key_secret(
    kind: Seq<char>,
    owner_ns: Seq<char>,
    owner_name: Seq<char>,
    owner_uid: Seq<char>,
    target_ns: Seq<char>,
    name: Seq<char>,
    value: Seq<char>,
    s: SecretModel,
) -> bool {
    &&& s.name@ == name
    &&& s.entry_key@ == "key"@
    &&& s.entry_value@ == value
    &&& owner_ns == target_ns ==> (s.owner matches Some(o) && o.api_version@
        == "meili.operator.dev/v1alpha1"@ && o.kind@ == kind && o.name@ == owner_name && o.uid@
        == owner_uid && o.controller && o.block_owner_deletion)
    &&& owner_ns != target_ns ==> s.owner is None
}

/// Builds the secret that materializes an API-key value for an Index or Key
/// resource, attaching the owner reference only for a same-namespace target.
pub fn build_stored_secret(
    kind: &str,
    owner_ns: &String,
    owner_name: &String,
    owner_uid: &String,
    target_ns: &String,
    name: &String,
    value: &String,
) -> (s: SecretModel)
    ensures
        spec_stored_key_secret(
            kind@,
            owner_ns@,
            owner_name@,
            owner_uid@,
            target_ns@,
            name@,
            value@,
            s,
        ),
{
    let owner: Option<OwnerRef> = if owner_ns.eq(target_ns) {
        Some(
            OwnerRef {
                api_version: "meili.operator.dev/v1alpha1".to_owned(),
                kind: kind.to_owned(),
                name: owner_name.clone(),
                uid: owner_uid.clone(),
                controller: true,
                block_owner_deletion: true,
            },
        )
    } else {
        None
    };
    SecretModel { name: name.clone(), owner, entry_key: "key".to_owned(), entry_value: value.clone() }
}

/// The key value a pre-existing target secret provides: the plain `key` entry
/// when present, else the binary `key` entry when it decodes as UTF-8.
pub open spec fn spec_existing_secret_key(
    string_entry: Option<String>,
    data_entry: Option<Vec<u8>>,
    r: Option<String>,
) -> bool {
    match string_entry {
        Some(v) => r matches Some(x) && x@ == v@,
        None => match data_entry {
            Some(b) => if valid_utf8(b@) {
                r matches Some(x) && encode_utf8(x@) == b@
            } else {
                r is None
            },
            None => r is None,
        },
    }
}

/// Extracts the key value from a pre-existing target secret's entries.
pub fn existing_secret_key(string_entry: &Option<String>, data_entry: Option<Vec<u8>>) -> (r:
    Option<String>)
    ensures
        spec_existing_secret_key(*string_entry, data_entry, r),
{
    match string_entry {
        Some(v) => Some(v.clone()),
        None => match data_entry {
            Some(b) => string_from_utf8(b),
            None => None,
        },
    }
}

/// One character of the master-key alphabet: ASCII letters and digits.
pub open spec fn is_alnum_char(c: char) -> bool {
    ('a' <= c && c <= 'z') || ('A' <= c && c <= 'Z') || ('0' <= c && c <= '9')
}

/// A freshly generated master key: 64 characters, all alphanumeric.
pub open spec fn spec_master_key_shape(s: Seq<char>) -> bool {
    s.len() == 64 && forall|i: int| 0 <= i < s.len() ==> is_alnum_char(#[trigger] s[i])
}

/// Relies on rand's `Alphanumeric::sample_string` over the thread-local
/// CSPRNG: a string of exactly the requested number of characters, each drawn
/// from a-z, A-Z, 0-9. Nothing further is assumed of the drawn characters.
#[verifier::external_body]
pub(crate) fn generate_master_key() -> (r: String)
    ensures
        spec_master_key_shape(r@),
{
    rand::distr::SampleString::sample_string(&rand::distr::Alphanumeric, &mut rand::rng(), 64)
}

/// Relies on std's `String::from_utf8`: succeeds exactly on valid UTF-8 input,
/// returning the string those bytes encode.
#[verifier::external_body]
pub(crate) fn string_from_utf8(bytes: Vec<u8>) -> (r: Option<String>)
    ensures
        r is Some <==> valid_utf8(bytes@),
        r matches Some(s) ==> encode_utf8(s@) == bytes@,
{
    String::from_utf8(bytes).ok()
}

} // verus!
