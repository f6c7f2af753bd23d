use meilisearch_operator::crds::KeySpec;
use meilisearch_operator::engine::{
    action_of, eq_unordered, key_exists_by_value, matches_admin, matches_spec,
    matches_spec_relaxed, normalize_actions, parse_rfc3339_opt, same_string_opt, EngineAction,
    KeyItem,
};

fn strings(v: &[&str]) -> Vec<String> {
    v.iter().map(|s| s.to_string()).collect()
}

fn item(
    name: Option<&str>,
    description: Option<&str>,
    key: &str,
    actions: &[&str],
    indexes: &[&str],
    expires_at: Option<&str>,
) -> KeyItem {
    KeyItem {
        name: name.map(|s| s.to_string()),
        description: description.map(|s| s.to_string()),
        key: key.to_string(),
        uid: "uid-0".to_string(),
        actions: strings(actions),
        indexes: strings(indexes),
        expires_at: expires_at.map(|s| s.to_string()),
    }
}

fn key_spec(
    name: Option<&str>,
    description: Option<&str>,
    actions: &[&str],
    indexes: &[&str],
    expires_at: Option<&str>,
) -> KeySpec {
    KeySpec {
        server_ref: "demo".to_string(),
        name: name.map(|s| s.to_string()),
        description: description.map(|s| s.to_string()),
        actions: strings(actions),
        indexes: strings(indexes),
        expires_at: expires_at.map(|s| s.to_string()),
        secret_namespace: "ns1".to_string(),
        secret_name: "sec".to_string(),
    }
}

#[test]
fn eq_unordered_ignores_order_and_repetition() {
    // The sets {1,2} are equal even though one side repeats an element.
    assert!(eq_unordered(&strings(&["1", "2", "2"]), &strings(&["2", "1"])));
}

#[test]
fn eq_unordered_is_reflexive_and_symmetric() {
    let a = strings(&["x", "y"]);
    let b = strings(&["y", "x", "x"]);
    assert!(eq_unordered(&a, &a));
    assert_eq!(eq_unordered(&a, &b), eq_unordered(&b, &a));
}

#[test]
fn eq_unordered_detects_difference() {
    assert!(!eq_unordered(&strings(&["1", "2"]), &strings(&["1"])));
    assert!(!eq_unordered(&strings(&[]), &strings(&["1"])));
    assert!(eq_unordered(&strings(&[]), &strings(&[])));
}

#[test]
fn normalize_actions_copies_unchanged() {
    let a = strings(&["search", "*"]);
    assert_eq!(normalize_actions(&a), a);
}

#[test]
fn same_string_opt_treats_absent_as_wildcard() {
    assert!(same_string_opt(&None, &Some("anything".to_string())));
    assert!(same_string_opt(&None, &None));
    assert!(same_string_opt(&Some("a".to_string()), &Some("a".to_string())));
    assert!(!same_string_opt(&Some("a".to_string()), &Some("b".to_string())));
    assert!(!same_string_opt(&Some("a".to_string()), &None));
}

#[test]
fn parse_rfc3339_opt_parses_instants() {
    assert_eq!(
        parse_rfc3339_opt(&Some("1970-01-01T00:00:01Z".to_string())),
        Some(1_000_000_000i128)
    );
    assert_eq!(parse_rfc3339_opt(&Some("not a date".to_string())), None);
    assert_eq!(parse_rfc3339_opt(&None), None);
}

#[test]
fn matches_spec_compares_expiry_as_instants() {
    // The same instant written with two different offsets must match: the
    // comparison goes through parsing, not through the raw strings.
    let spec = key_spec(
        Some("k"),
        None,
        &["search"],
        &["*"],
        Some("2024-01-01T00:00:00Z"),
    );
    let it = item(
        Some("k"),
        Some("whatever"),
        "v",
        &["search"],
        &["*"],
        Some("2024-01-01T01:00:00+01:00"),
    );
    assert!(matches_spec(&it, &spec));

    let it_other = item(
        Some("k"),
        None,
        "v",
        &["search"],
        &["*"],
        Some("2024-01-01T00:00:01Z"),
    );
    assert!(!matches_spec(&it_other, &spec));

    // A declared expiry against a key that never expires is no match.
    let it_none = item(Some("k"), None, "v", &["search"], &["*"], None);
    assert!(!matches_spec(&it_none, &spec));
}

#[test]
fn matches_spec_compares_sets_not_lists() {
    let spec = key_spec(None, None, &["a", "b"], &["i1", "i2"], None);
    let it = item(
        Some("any"),
        Some("any"),
        "v",
        &["b", "a", "a"],
        &["i2", "i1"],
        Some("2030-01-01T00:00:00Z"),
    );
    // Absent name/description/expiry in the spec accept anything.
    assert!(matches_spec(&it, &spec));
    let it_bad = item(None, None, "v", &["b"], &["i2", "i1"], None);
    assert!(!matches_spec(&it_bad, &spec));
}

#[test]
fn matches_spec_relaxed_ignores_name_and_description() {
    let spec = key_spec(Some("search"), Some("x"), &["search"], &["*"], None);
    let it = item(Some("legacy"), Some("old"), "v", &["search"], &["*"], None);
    assert!(!matches_spec(&it, &spec));
    assert!(matches_spec_relaxed(&it, &spec));
}

#[test]
fn matches_admin_requires_exact_scope_and_naming() {
    let good = item(
        Some("prod-admin"),
        Some("Admin key for index prod"),
        "v",
        &["*", "search"],
        &["prod"],
        None,
    );
    assert!(matches_admin("prod", &good));

    let wrong_name = item(
        Some("prod"),
        Some("Admin key for index prod"),
        "v",
        &["*"],
        &["prod"],
        None,
    );
    assert!(!matches_admin("prod", &wrong_name));

    let wrong_scope = item(
        Some("prod-admin"),
        Some("Admin key for index prod"),
        "v",
        &["*"],
        &["prod", "other"],
        None,
    );
    assert!(!matches_admin("prod", &wrong_scope));

    let no_wildcard = item(
        Some("prod-admin"),
        Some("Admin key for index prod"),
        "v",
        &["search"],
        &["prod"],
        None,
    );
    assert!(!matches_admin("prod", &no_wildcard));
}

#[test]
fn key_exists_by_value_finds_raw_values() {
    let items = vec![
        item(None, None, "ABC", &["search"], &["*"], None),
        item(None, None, "DEF", &["*"], &["*"], None),
    ];
    assert!(key_exists_by_value(&items, &"ABC".to_string()));
    assert!(!key_exists_by_value(&items, &"XYZ".to_string()));
}

#[test]
fn action_mapping_knows_canonical_strings() {
    assert_eq!(action_of(&"*".to_string()), EngineAction::All);
    assert_eq!(action_of(&"search".to_string()), EngineAction::Search);
    assert_eq!(
        action_of(&"documents.add".to_string()),
        EngineAction::DocumentsAdd
    );
    assert_eq!(action_of(&"keys.delete".to_string()), EngineAction::KeyDelete);
    assert_eq!(
        action_of(&"experimental.new".to_string()),
        EngineAction::Unknown("experimental.new".to_string())
    );
}
