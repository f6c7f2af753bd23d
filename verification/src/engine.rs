//! The engine's key table as the operator sees it: listed key rows, the
//! unordered comparisons used to adopt pre-existing keys, and the mapping from
//! canonical action strings to engine-native enumerants.

use vstd::prelude::*;
use vstd::string::StringExecFns;

use crate::names::{
    admin_key_description, admin_key_name, spec_admin_key_description, spec_admin_key_name,
};

verus! {

/// One row of the engine's key listing.
#[derive(Debug, Clone, PartialEq)]
pub struct KeyItem {
    pub name: Option<String>,
    pub description: Option<String>,
    /// The key value itself.
    pub key: String,
    /// Engine-assigned uid.
    pub uid: String,
    pub actions: Vec<String>,
    pub indexes: Vec<String>,
    /// RFC 3339 expiry, when the key expires at all.
    pub expires_at: Option<String>,
}

/// Whether some element of `s` has view `v`.
pub open spec fn seq_has_view(s: Seq<String>, v: Seq<char>) -> bool {
    exists|i: int| 0 <= i < s.len() && s[i]@ == v
}

/// The set of character sequences occurring in `s`: repetition and order are
/// forgotten.
pub open spec fn views_of(s: Seq<String>) -> Set<Seq<char>> {
    Set::new(|v: Seq<char>| seq_has_view(s, v))
}

pub(crate) fn contains_string(v: &Vec<String>, x: &String) -> (r: bool)
    ensures
        r == views_of(v@).contains(x@),
{
    let mut i: usize = 0;
    while i < v.len()
        invariant
            i <= v@.len(),
            forall|j: int| 0 <= j < i ==> v@[j]@ != x@,
        decreases v@.len() - i,
    {
        if x.eq(&v[i]) {
            return true;
        }
        i += 1;
    }
    false
}

/// Compares two lists as sets: equal exactly when every element of one occurs
/// in the other, regardless of order and repetition.
pub fn eq_unordered(a: &Vec<String>, b: &Vec<String>) -> (r: bool)
    ensures
        r == (views_of(a@) == views_of(b@)),
{
    let mut i: usize = 0;
    while i < a.len()
        invariant
            i <= a@.len(),
            forall|j: int| 0 <= j < i ==> views_of(b@).contains(#[trigger] a@[j]@),
        decreases a@.len() - i,
    {
        if !contains_string(b, &a[i]) {
            proof {
                assert(seq_has_view(a@, a@[i as int]@));
                assert(views_of(a@).contains(a@[i as int]@));
                assert(views_of(a@) != views_of(b@));
            }
            return false;
        }
        i += 1;
    }
    let mut k: usize = 0;
    while k < b.len()
        invariant
            k <= b@.len(),
            forall|j: int| 0 <= j < a@.len() ==> views_of(b@).contains(#[trigger] a@[j]@),
            forall|j: int| 0 <= j < k ==> views_of(a@).contains(#[trigger] b@[j]@),
        decreases b@.len() - k,
    {
        if !contains_string(a, &b[k]) {
            proof {
                assert(seq_has_view(b@, b@[k as int]@));
                assert(views_of(b@).contains(b@[k as int]@));
                assert(views_of(a@) != views_of(b@));
            }
            return false;
        }
        k += 1;
    }
    proof {
        assert forall|v: Seq<char>| views_of(a@).contains(v) implies views_of(
            b@,
        ).contains(v) by {
            let j = choose|j: int| 0 <= j < a@.len() && a@[j]@ == v;
            assert(views_of(b@).contains(a@[j]@));
        }
        assert forall|v: Seq<char>| views_of(b@).contains(v) implies views_of(
            a@,
        ).contains(v) by {
            let j = choose|j: int| 0 <= j < b@.len() && b@[j]@ == v;
            assert(views_of(a@).contains(b@[j]@));
        }
        assert(views_of(a@) =~= views_of(b@));
    }
    true
}

/// The unordered comparison is an equivalence on the underlying sets:
/// reflexive, symmetric, and unaffected by permutation and repetition of the
/// compared lists.
pub proof fn lemma_eq_unordered_equivalence(a: Seq<String>, b: Seq<String>)
    ensures
        views_of(a) == views_of(a),
        (views_of(a) == views_of(b)) == (views_of(b) == views_of(a)),
        a.to_multiset() == b.to_multiset() ==> views_of(a) == views_of(b),
{
    broadcast use vstd::seq_lib::group_to_multiset_ensures;

    if a.to_multiset() == b.to_multiset() {
        assert forall|v: Seq<char>| views_of(a).contains(v) implies views_of(b).contains(v) by {
            let i = choose|i: int| 0 <= i < a.len() && a[i]@ == v;
            assert(a.contains(a[i]));
            assert(b.to_multiset().count(a[i]) > 0);
            assert(b.contains(a[i]));
            let j = choose|j: int| 0 <= j < b.len() && b[j] == a[i];
            assert(seq_has_view(b, v));
        }
        assert forall|v: Seq<char>| views_of(b).contains(v) implies views_of(a).contains(v) by {
            let i = choose|i: int| 0 <= i < b.len() && b[i]@ == v;
            assert(b.contains(b[i]));
            assert(a.to_multiset().count(b[i]) > 0);
            assert(a.contains(b[i]));
            let j = choose|j: int| 0 <= j < a.len() && a[j] == b[i];
            assert(seq_has_view(a, v));
        }
        assert(views_of(a) =~= views_of(b));
    }
}

/// How an optional declared field constrains an observed field: a declared
/// value must match, an absent declaration accepts anything.
pub open spec fn spec_same_string_opt(a: Option<String>, b: Option<String>) -> bool {
    match (a, b) {
        (Some(x), Some(y)) => x@ == y@,
        (None, _) => true,
        _ => false,
    }
}

pub fn same_string_opt(a: &Option<String>, b: &Option<String>) -> (r: bool)
    ensures
        r == spec_same_string_opt(*a, *b),
{
    match (a, b) {
        (Some(x), Some(y)) => x.eq(y),
        (None, _) => true,
        _ => false,
    }
}

/// The instant named by an RFC 3339 string, in nanoseconds since the Unix
/// epoch; absent when the string does not parse.
pub uninterp spec fn rfc3339_nanos(s: Seq<char>) -> Option<int>;

/// Relies on time's `OffsetDateTime::parse` with the RFC 3339 well-known
/// format, and on `unix_timestamp_nanos`: the parsed instant is a function of
/// the text alone (the text carries its own UTC offset), reduced here to
/// nanoseconds since the Unix epoch.
#[verifier::external_body]
fn parse_rfc3339_nanos(s: &str) -> (r: Option<i128>)
    ensures
        r is Some <==> rfc3339_nanos(s@) is Some,
        r matches Some(n) ==> rfc3339_nanos(s@) == Some(n as int),
{
    time::OffsetDateTime::parse(s, &time::format_description::well_known::Rfc3339).ok().map(|t|
        t.unix_timestamp_nanos(),
    )
}

/// The instant named by an optional RFC 3339 string.
pub open spec fn spec_rfc3339_opt(s: Option<String>) -> Option<int> {
    match s {
        Some(v) => rfc3339_nanos(v@),
        None => None,
    }
}

/// How a parsed result in machine integers agrees with the mathematical one.
pub open spec fn nanos_agree(r: Option<i128>, m: Option<int>) -> bool {
    match (r, m) {
        (Some(a), Some(b)) => a as int == b,
        (None, None) => true,
        _ => false,
    }
}

/// Parses an optional RFC 3339 string to nanoseconds since the Unix epoch;
/// `None` when absent or unparseable.
pub fn parse_rfc3339_opt(s: &Option<String>) -> (r: Option<i128>)
    ensures
        nanos_agree(r, spec_rfc3339_opt(*s)),
{
    match s {
        Some(v) => parse_rfc3339_nanos(v.as_str()),
        None => None,
    }
}

/// How a declared expiry constrains an observed one: a declared expiry must
/// name the same instant (both sides parsed; two unparseable sides agree), an
/// absent declaration accepts anything.
pub open spec fn spec_expiry_matches(se: Option<String>, ie: Option<String>) -> bool {
    match (se, ie) {
        (Some(s), Some(i)) => rfc3339_nanos(s@) == rfc3339_nanos(i@),
        (Some(_), None) => false,
        _ => true,
    }
}

fn expiry_matches(se: &Option<String>, ie: &Option<String>) -> (r: bool)
    ensures
        r == spec_expiry_matches(*se, *ie),
{
    match (se, ie) {
        (Some(s), Some(i)) => {
            let ps = parse_rfc3339_nanos(s.as_str());
            let pi = parse_rfc3339_nanos(i.as_str());
            match (ps, pi) {
                (Some(x), Some(y)) => x == y,
                (None, None) => true,
                _ => false,
            }
        },
        (Some(_), None) => false,
        _ => true,
    }
}

/// Copies the declared action strings unchanged, as the canonical form used
/// for comparison against listed keys.
pub fn normalize_actions(spec_actions: &Vec<String>) -> (r: Vec<String>)
    ensures
        r@.len() == spec_actions@.len(),
        forall|i: int| 0 <= i < r@.len() ==> r@[i]@ == spec_actions@[i]@,
        views_of(r@) == views_of(spec_actions@),
{
    let mut out: Vec<String> = Vec::new();
    let mut i: usize = 0;
    while i < spec_actions.len()
        invariant
            i <= spec_actions@.len(),
            out@.len() == i,
            forall|j: int| 0 <= j < i ==> out@[j]@ == spec_actions@[j]@,
        decreases spec_actions@.len() - i,
    {
        out.push(spec_actions[i].clone());
        i += 1;
    }
    proof {
        assert forall|v: Seq<char>| views_of(out@).contains(v) implies views_of(
            spec_actions@,
        ).contains(v) by {
            let j = choose|j: int| 0 <= j < out@.len() && out@[j]@ == v;
            assert(seq_has_view(spec_actions@, v));
        }
        assert forall|v: Seq<char>| views_of(spec_actions@).contains(v) implies views_of(
            out@,
        ).contains(v) by {
            let j = choose|j: int| 0 <= j < spec_actions@.len() && spec_actions@[j]@ == v;
            assert(out@[j]@ == v);
            assert(seq_has_view(out@, v));
        }
        assert(views_of(out@) =~= views_of(spec_actions@));
    }
    out
}

/// Whether a listed key satisfies the declared spec exactly: name and
/// description as declared, actions and indexes as unordered sets, and the
/// expiry naming the same instant.
pub open spec fn spec_matches_spec(item: KeyItem, key: crate::crds::KeySpec) -> bool {
    &&& spec_same_string_opt(key.name, item.name)
    &&& spec_same_string_opt(key.description, item.description)
    &&& views_of(key.actions@) == views_of(item.actions@)
    &&& views_of(key.indexes@) == views_of(item.indexes@)
    &&& spec_expiry_matches(key.expires_at, item.expires_at)
}

pub fn matches_spec(item: &KeyItem, key: &crate::crds::KeySpec) -> (r: bool)
    ensures
        r == spec_matches_spec(*item, *key),
{
    if !same_string_opt(&key.name, &item.name) {
        return false;
    }
    if !same_string_opt(&key.description, &item.description) {
        return false;
    }
    let norm = normalize_actions(&key.actions);
    if !eq_unordered(&norm, &item.actions) {
        return false;
    }
    if !eq_unordered(&key.indexes, &item.indexes) {
        return false;
    }
    expiry_matches(&key.expires_at, &item.expires_at)
}

/// Whether a listed key satisfies the declared spec up to name and
/// description: only actions, indexes and expiry are compared.
pub open spec fn spec_matches_spec_relaxed(item: KeyItem, key: crate::crds::KeySpec) -> bool {
    &&& views_of(key.actions@) == views_of(item.actions@)
    &&& views_of(key.indexes@) == views_of(item.indexes@)
    &&& spec_expiry_matches(key.expires_at, item.expires_at)
}

pub fn matches_spec_relaxed(item: &KeyItem, key: &crate::crds::KeySpec) -> (r: bool)
    ensures
        r == spec_matches_spec_relaxed(*item, *key),
{
    let norm = normalize_actions(&key.actions);
    if !eq_unordered(&norm, &item.actions) {
        return false;
    }
    if !eq_unordered(&key.indexes, &item.indexes) {
        return false;
    }
    expiry_matches(&key.expires_at, &item.expires_at)
}

/// Whether a listed key is the admin key of the index `index_uid`: grants the
/// wildcard action, is scoped to exactly that index, and bears the admin name
/// and description derived from the uid.
pub open spec fn spec_matches_admin(index_uid: Seq<char>, item: KeyItem) -> bool {
    &&& views_of(item.actions@).contains("*"@)
    &&& views_of(item.indexes@) == Set::<Seq<char>>::empty().insert(index_uid)
    &&& item.name matches Some(n) && n@ == spec_admin_key_name(index_uid)
    &&& item.description matches Some(d) && d@ == spec_admin_key_description(index_uid)
}

pub fn matches_admin(index_uid: &str, item: &KeyItem) -> (r: bool)
    ensures
        r == spec_matches_admin(index_uid@, *item),
{
    let star: String = "*".to_owned();
    let actions_ok = contains_string(&item.actions, &star);
    let mut expected: Vec<String> = Vec::new();
    expected.push(index_uid.to_owned());
    let indexes_ok = eq_unordered(&expected, &item.indexes);
    proof {
        assert forall|v: Seq<char>| views_of(expected@).contains(v) implies Set::<
            Seq<char>,
        >::empty().insert(index_uid@).contains(v) by {
            let j = choose|j: int| 0 <= j < expected@.len() && expected@[j]@ == v;
        }
        assert forall|v: Seq<char>|
            Set::<Seq<char>>::empty().insert(index_uid@).contains(v) implies views_of(
            expected@,
        ).contains(v) by {
            assert(expected@[0]@ == v);
        }
        assert(views_of(expected@) =~= Set::<Seq<char>>::empty().insert(index_uid@));
    }
    let name_ok = match &item.name {
        Some(n) => n.eq(&admin_key_name(index_uid)),
        None => false,
    };
    let desc_ok = match &item.description {
        Some(d) => d.eq(&admin_key_description(index_uid)),
        None => false,
    };
    actions_ok && indexes_ok && name_ok && desc_ok
}

/// Finds the first listed key matching the spec exactly.
pub fn find_matching_key(items: &Vec<KeyItem>, key: &crate::crds::KeySpec) -> (r: Option<usize>)
    ensures
        r matches Some(i) ==> i < items@.len() && spec_matches_spec(items@[i as int], *key)
            && forall|j: int| 0 <= j < i ==> !spec_matches_spec(#[trigger] items@[j], *key),
        r is None ==> forall|j: int|
            0 <= j < items@.len() ==> !spec_matches_spec(#[trigger] items@[j], *key),
{
    let mut i: usize = 0;
    while i < items.len()
        invariant
            i <= items@.len(),
            forall|j: int| 0 <= j < i ==> !spec_matches_spec(#[trigger] items@[j], *key),
        decreases items@.len() - i,
    {
        if matches_spec(&items[i], key) {
            return Some(i);
        }
        i += 1;
    }
    None
}

/// Finds the first listed key matching the spec up to name and description.
pub fn find_relaxed_matching_key(items: &Vec<KeyItem>, key: &crate::crds::KeySpec) -> (r: Option<
    usize,
>)
    ensures
        r matches Some(i) ==> i < items@.len() && spec_matches_spec_relaxed(
            items@[i as int],
            *key,
        ) && forall|j: int|
            0 <= j < i ==> !spec_matches_spec_relaxed(#[trigger] items@[j], *key),
        r is None ==> forall|j: int|
            0 <= j < items@.len() ==> !spec_matches_spec_relaxed(#[trigger] items@[j], *key),
{
    let mut i: usize = 0;
    while i < items.len()
        invariant
            i <= items@.len(),
            forall|j: int| 0 <= j < i ==> !spec_matches_spec_relaxed(#[trigger] items@[j], *key),
        decreases items@.len() - i,
    {
        if matches_spec_relaxed(&items[i], key) {
            return Some(i);
        }
        i += 1;
    }
    None
}

/// Finds the first listed key that is the admin key of the index `index_uid`.
pub fn find_matching_admin_key(items: &Vec<KeyItem>, index_uid: &str) -> (r: Option<usize>)
    ensures
        r matches Some(i) ==> i < items@.len() && spec_matches_admin(
            index_uid@,
            items@[i as int],
        ) && forall|j: int|
            0 <= j < i ==> !spec_matches_admin(index_uid@, #[trigger] items@[j]),
        r is None ==> forall|j: int|
            0 <= j < items@.len() ==> !spec_matches_admin(index_uid@, #[trigger] items@[j]),
{
    let mut i: usize = 0;
    while i < items.len()
        invariant
            i <= items@.len(),
            forall|j: int| 0 <= j < i ==> !spec_matches_admin(index_uid@, #[trigger] items@[j]),
        decreases items@.len() - i,
    {
        if matches_admin(index_uid, &items[i]) {
            return Some(i);
        }
        i += 1;
    }
    None
}

/// Whether some listed key has exactly the value `value`.
pub open spec fn spec_key_exists_by_value(items: Seq<KeyItem>, value: Seq<char>) -> bool {
    exists|i: int| 0 <= i < items.len() && items[i].key@ == value
}

pub fn key_exists_by_value(items: &Vec<KeyItem>, value: &String) -> (r: bool)
    ensures
        r == spec_key_exists_by_value(items@, value@),
{
    let mut i: usize = 0;
    while i < items.len()
        invariant
            i <= items@.len(),
            forall|j: int| 0 <= j < i ==> (#[trigger] items@[j]).key@ != value@,
        decreases items@.len() - i,
    {
        if items[i].key.eq(value) {
            proof {
                assert(spec_key_exists_by_value(items@, value@));
            }
            return true;
        }
        i += 1;
    }
    false
}

/// An engine-native key action. Unknown canonical strings pass through, so
/// the operator stays forward-compatible with new engine actions.
#[derive(Debug, Clone, PartialEq)]
pub enum EngineAction {
    All,
    Search,
    DocumentsAdd,
    DocumentsGet,
    DocumentsDelete,
    IndexesCreate,
    IndexesGet,
    IndexesUpdate,
    IndexesDelete,
    TasksGet,
    SettingsGet,
    SettingsUpdate,
    StatsGet,
    DumpsCreate,
    DumpsGet,
    Version,
    KeyGet,
    KeyCreate,
    KeyUpdate,
    KeyDelete,
    Unknown(String),
}

/// The engine action named by a canonical string.
pub open spec fn spec_action_of(s: String) -> EngineAction {
    if s@ == "*"@ {
        EngineAction::All
    } else if s@ == "search"@ {
        EngineAction::Search
    } else if s@ == "documents.add"@ {
        EngineAction::DocumentsAdd
    } else if s@ == "documents.get"@ {
        EngineAction::DocumentsGet
    } else if s@ == "documents.delete"@ {
        EngineAction::DocumentsDelete
    } else if s@ == "indexes.create"@ {
        EngineAction::IndexesCreate
    } else if s@ == "indexes.get"@ {
        EngineAction::IndexesGet
    } else if s@ == "indexes.update"@ {
        EngineAction::IndexesUpdate
    } else if s@ == "indexes.delete"@ {
        EngineAction::IndexesDelete
    } else if s@ == "tasks.get"@ {
        EngineAction::TasksGet
    } else if s@ == "settings.get"@ {
        EngineAction::SettingsGet
    } else if s@ == "settings.update"@ {
        EngineAction::SettingsUpdate
    } else if s@ == "stats.get"@ {
        EngineAction::StatsGet
    } else if s@ == "dumps.create"@ {
        EngineAction::DumpsCreate
    } else if s@ == "dumps.get"@ {
        EngineAction::DumpsGet
    } else if s@ == "version"@ {
        EngineAction::Version
    } else if s@ == "keys.get"@ {
        EngineAction::KeyGet
    } else if s@ == "keys.create"@ {
        EngineAction::KeyCreate
    } else if s@ == "keys.update"@ {
        EngineAction::KeyUpdate
    } else if s@ == "keys.delete"@ {
        EngineAction::KeyDelete
    } else {
        EngineAction::Unknown(s)
    }
}

/// Maps one canonical action string to the engine-native enumerant.
pub fn action_of(s: &String) -> (r: EngineAction)
    ensures
        r == spec_action_of(*s),
{
    if s.eq(&"*".to_owned()) {
        EngineAction::All
    } else if s.eq(&"search".to_owned()) {
        EngineAction::Search
    } else if s.eq(&"documents.add".to_owned()) {
        EngineAction::DocumentsAdd
    } else if s.eq(&"documents.get".to_owned()) {
        EngineAction::DocumentsGet
    } else if s.eq(&"documents.delete".to_owned()) {
        EngineAction::DocumentsDelete
    } else if s.eq(&"indexes.create".to_owned()) {
        EngineAction::IndexesCreate
    } else if s.eq(&"indexes.get".to_owned()) {
        EngineAction::IndexesGet
    } else if s.eq(&"indexes.update".to_owned()) {
        EngineAction::IndexesUpdate
    } else if s.eq(&"indexes.delete".to_owned()) {
        EngineAction::IndexesDelete
    } else if s.eq(&"tasks.get".to_owned()) {
        EngineAction::TasksGet
    } else if s.eq(&"settings.get".to_owned()) {
        EngineAction::SettingsGet
    } else if s.eq(&"settings.update".to_owned()) {
        EngineAction::SettingsUpdate
    } else if s.eq(&"stats.get".to_owned()) {
        EngineAction::StatsGet
    } else if s.eq(&"dumps.create".to_owned()) {
        EngineAction::DumpsCreate
    } else if s.eq(&"dumps.get".to_owned()) {
        EngineAction::DumpsGet
    } else if s.eq(&"version".to_owned()) {
        EngineAction::Version
    } else if s.eq(&"keys.get".to_owned()) {
        EngineAction::KeyGet
    } else if s.eq(&"keys.create".to_owned()) {
        EngineAction::KeyCreate
    } else if s.eq(&"keys.update".to_owned()) {
        EngineAction::KeyUpdate
    } else if s.eq(&"keys.delete".to_owned()) {
        EngineAction::KeyDelete
    } else {
        EngineAction::Unknown(s.clone())
    }
}

/// Maps every canonical action string of a declared spec.
pub fn map_actions(actions: &Vec<String>) -> (r: Vec<EngineAction>)
    ensures
        r@.len() == actions@.len(),
        forall|i: int| 0 <= i < r@.len() ==> r@[i] == spec_action_of(actions@[i]),
{
    let mut out: Vec<EngineAction> = Vec::new();
    let mut i: usize = 0;
    while i < actions.len()
        invariant
            i <= actions@.len(),
            out@.len() == i,
            forall|j: int| 0 <= j < i ==> out@[j] == spec_action_of(actions@[j]),
        decreases actions@.len() - i,
    {
        out.push(action_of(&actions[i]));
        i += 1;
    }
    out
}

} // verus!
