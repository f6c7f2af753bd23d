use meilisearch_operator::api::{Request, ResourceKind, Response};
use meilisearch_operator::crds::{KeyObject, KeySpec, KeyStatus, Metadata};
use meilisearch_operator::engine::{EngineAction, KeyItem};
use meilisearch_operator::key_controller::{
    key_reconcile_done, key_reconcile_error, key_reconcile_init, reconcile_step, KeyStep,
};

fn key_object(name: &str, ns: &str, spec: KeySpec, deleting: bool, status: Option<KeyStatus>) -> KeyObject {
    KeyObject {
        metadata: Metadata {
            name: name.to_string(),
            namespace: ns.to_string(),
            uid: "cr-uid".to_string(),
            deleting,
            finalizers: vec!["meili.operator.dev/finalizer".to_string()],
        },
        spec,
        status,
    }
}

fn spec(
    name: Option<&str>,
    description: Option<&str>,
    actions: &[&str],
    indexes: &[&str],
    expires_at: Option<&str>,
    secret_namespace: &str,
    secret_name: &str,
) -> KeySpec {
    KeySpec {
        server_ref: "demo".to_string(),
        name: name.map(|s| s.to_string()),
        description: description.map(|s| s.to_string()),
        actions: actions.iter().map(|s| s.to_string()).collect(),
        indexes: indexes.iter().map(|s| s.to_string()).collect(),
        expires_at: expires_at.map(|s| s.to_string()),
        secret_namespace: secret_namespace.to_string(),
        secret_name: secret_name.to_string(),
    }
}

fn item(name: &str, description: &str, value: &str, actions: &[&str], indexes: &[&str]) -> KeyItem {
    KeyItem {
        name: Some(name.to_string()),
        description: Some(description.to_string()),
        key: value.to_string(),
        uid: "engine-uid".to_string(),
        actions: actions.iter().map(|s| s.to_string()).collect(),
        indexes: indexes.iter().map(|s| s.to_string()).collect(),
        expires_at: None,
    }
}

fn drive(key: &KeyObject, answers: Vec<Response>) -> (Vec<Request>, KeyStep) {
    let mut requests = Vec::new();
    let mut step = key_reconcile_init();
    let mut resp: Option<Response> = None;
    let mut answers = answers.into_iter();
    loop {
        let (next, req) = reconcile_step(key, resp, step);
        step = next;
        match req {
            Some(r) => {
                requests.push(r);
                resp = Some(answers.next().expect("an answer for every request"));
            }
            None => return (requests, step),
        }
    }
}

fn empty_target() -> Response {
    Response::TargetSecret {
        exists: false,
        string_entry: None,
        data_entry: None,
    }
}

#[test]
fn key_relaxed_adoption() {
    // The exact match fails on name/description, the relaxed match adopts.
    let k = key_object(
        "k1",
        "ns1",
        spec(Some("search"), Some("x"), &["search"], &["*"], None, "other-ns", "sec"),
        false,
        None,
    );
    let legacy = item("legacy", "old", "LEGACY-VALUE", &["search"], &["*"]);
    let answers = vec![
        Response::SecretEntry(Some(b"MASTER".to_vec())),
        empty_target(),
        Response::KeysPage {
            results: vec![legacy.clone()],
            total: 1,
        },
        Response::KeysPage {
            results: vec![legacy],
            total: 1,
        },
        Response::Done,
        Response::Done,
    ];
    let (requests, step) = drive(&k, answers);
    assert!(key_reconcile_done(&step));

    // One listing for the exact pass, one for the relaxed pass.
    assert!(matches!(&requests[2], Request::EngineListKeysPage { .. }));
    assert!(matches!(&requests[3], Request::EngineListKeysPage { .. }));
    match &requests[4] {
        Request::CreateSecret { namespace, secret } => {
            assert_eq!(namespace, "other-ns");
            assert_eq!(secret.name, "sec");
            assert_eq!(secret.entry_value, "LEGACY-VALUE");
            // Cross-namespace targets carry no owner reference.
            assert!(secret.owner.is_none());
        }
        other => panic!("unexpected request: {:?}", other),
    }
    match &requests[5] {
        Request::PatchKeyStatus { status, .. } => {
            assert!(status.ready);
            assert_eq!(status.uid, None);
            assert_eq!(
                status.message,
                Some("adopted similar existing key".to_string())
            );
        }
        other => panic!("unexpected request: {:?}", other),
    }
    assert!(requests
        .iter()
        .all(|r| !matches!(r, Request::EngineCreateKey { .. })));
}

#[test]
fn key_reuse_from_existing_secret() {
    // The target secret already holds `key=ABC` and the engine lists a key
    // with that value: the secret is re-written unchanged, no key is created.
    let k = key_object(
        "k1",
        "my-ns",
        spec(None, None, &["search"], &["*"], None, "my-ns", "my-key"),
        false,
        None,
    );
    let engine_row = item("whoever", "whatever", "ABC", &["documents.add"], &["idx"]);
    let answers = vec![
        Response::SecretEntry(Some(b"MASTER".to_vec())),
        Response::TargetSecret {
            exists: true,
            string_entry: None,
            data_entry: Some(b"ABC".to_vec()),
        },
        Response::KeysPage {
            results: vec![engine_row],
            total: 1,
        },
        Response::ObjectUid(Some("cr-uid".to_string())),
        Response::Done,
        Response::Done,
    ];
    let (requests, step) = drive(&k, answers);
    assert!(key_reconcile_done(&step));

    assert!(matches!(&requests[1], Request::GetTargetSecret { namespace, name } if namespace == "my-ns" && name == "my-key"));
    assert!(matches!(
        &requests[3],
        Request::GetObjectUid {
            kind: ResourceKind::Key,
            ..
        }
    ));
    match &requests[4] {
        Request::CreateSecret { namespace, secret } => {
            assert_eq!(namespace, "my-ns");
            assert_eq!(secret.name, "my-key");
            assert_eq!(secret.entry_value, "ABC");
            let o = secret.owner.as_ref().expect("same-namespace owner");
            assert_eq!(o.kind, "Key");
            assert_eq!(o.uid, "cr-uid");
        }
        other => panic!("unexpected request: {:?}", other),
    }
    match &requests[5] {
        Request::PatchKeyStatus { status, .. } => {
            assert!(status.ready);
            assert_eq!(status.uid, None);
            assert_eq!(
                status.message,
                Some("using key from existing Secret".to_string())
            );
        }
        other => panic!("unexpected request: {:?}", other),
    }
    assert!(requests
        .iter()
        .all(|r| !matches!(r, Request::EngineCreateKey { .. })));
}

#[test]
fn key_rematerializes_same_value_after_secret_loss() {
    // First reconcile adopts an exact match; after the target secret is
    // deleted, the next reconcile adopts the same key again, so the secret
    // reappears with the same value.
    let k = key_object(
        "k1",
        "ns1",
        spec(Some("n"), Some("d"), &["search"], &["*"], None, "other-ns", "sec"),
        false,
        None,
    );
    let exact = item("n", "d", "STABLE-VALUE", &["search"], &["*"]);
    let answers = || {
        vec![
            Response::SecretEntry(Some(b"MASTER".to_vec())),
            empty_target(),
            Response::KeysPage {
                results: vec![exact.clone()],
                total: 1,
            },
            Response::Done,
            Response::Done,
        ]
    };
    let extract = |requests: &[Request]| -> String {
        requests
            .iter()
            .find_map(|r| match r {
                Request::CreateSecret { secret, .. } => Some(secret.entry_value.clone()),
                _ => None,
            })
            .expect("a secret write")
    };
    let (first, _) = drive(&k, answers());
    let (second, _) = drive(&k, answers());
    assert_eq!(extract(&first), "STABLE-VALUE");
    assert_eq!(extract(&second), "STABLE-VALUE");
    let msg = |requests: &[Request]| -> Option<String> {
        requests.iter().find_map(|r| match r {
            Request::PatchKeyStatus { status, .. } => status.message.clone(),
            _ => None,
        })
    };
    assert_eq!(msg(&first), Some("adopted existing key".to_string()));
    assert_eq!(msg(&second), Some("adopted existing key".to_string()));
}

#[test]
fn key_creation_maps_actions_and_defaults_name() {
    // Nothing to reuse or adopt: a key is created, named after the resource,
    // with mapped actions and the engine uid remembered in status.
    let k = key_object(
        "my-key-cr",
        "ns1",
        spec(
            None,
            Some("desc"),
            &["search", "frobnicate.everything"],
            &["idx1"],
            Some("2030-01-01T00:00:00Z"),
            "other-ns",
            "sec",
        ),
        false,
        None,
    );
    let answers = vec![
        Response::SecretEntry(Some(b"MASTER".to_vec())),
        empty_target(),
        Response::KeysPage {
            results: vec![],
            total: 0,
        },
        Response::KeysPage {
            results: vec![],
            total: 0,
        },
        Response::KeyCreated {
            key: "NEW-VALUE".to_string(),
            uid: "engine-uid-9".to_string(),
        },
        Response::Done,
        Response::Done,
    ];
    let (requests, step) = drive(&k, answers);
    assert!(key_reconcile_done(&step));

    match &requests[4] {
        Request::EngineCreateKey { draft, .. } => {
            assert_eq!(draft.name, "my-key-cr");
            assert_eq!(draft.description, Some("desc".to_string()));
            assert_eq!(
                draft.actions,
                vec![
                    EngineAction::Search,
                    EngineAction::Unknown("frobnicate.everything".to_string())
                ]
            );
            assert_eq!(draft.indexes, vec!["idx1".to_string()]);
            // 2030-01-01T00:00:00Z in nanoseconds since the epoch.
            assert_eq!(draft.expires_at_nanos, Some(1_893_456_000_000_000_000i128));
        }
        other => panic!("unexpected request: {:?}", other),
    }
    match &requests[5] {
        Request::CreateSecret { secret, .. } => {
            assert_eq!(secret.entry_value, "NEW-VALUE");
        }
        other => panic!("unexpected request: {:?}", other),
    }
    match &requests[6] {
        Request::PatchKeyStatus { status, .. } => {
            assert!(status.ready);
            assert_eq!(status.uid, Some("engine-uid-9".to_string()));
            assert_eq!(status.message, None);
        }
        other => panic!("unexpected request: {:?}", other),
    }
}

#[test]
fn key_adoption_takes_first_of_equal_matches() {
    let k = key_object(
        "k1",
        "ns1",
        spec(Some("n"), Some("d"), &["search"], &["*"], None, "other-ns", "sec"),
        false,
        None,
    );
    let first = item("n", "d", "FIRST", &["search"], &["*"]);
    let second = item("n", "d", "SECOND", &["search"], &["*"]);
    let answers = vec![
        Response::SecretEntry(Some(b"MASTER".to_vec())),
        empty_target(),
        Response::KeysPage {
            results: vec![first, second],
            total: 2,
        },
        Response::Done,
        Response::Done,
    ];
    let (requests, _) = drive(&k, answers);
    match requests
        .iter()
        .find_map(|r| match r {
            Request::CreateSecret { secret, .. } => Some(secret.entry_value.clone()),
            _ => None,
        }) {
        Some(v) => assert_eq!(v, "FIRST"),
        None => panic!("no secret write"),
    }
}

#[test]
fn key_listing_pages_until_total() {
    let k = key_object(
        "k1",
        "ns1",
        spec(Some("n"), Some("d"), &["search"], &["*"], None, "other-ns", "sec"),
        false,
        None,
    );
    let filler_a = item("a", "a", "A", &["documents.get"], &["x"]);
    let filler_b = item("b", "b", "B", &["documents.get"], &["x"]);
    let exact = item("n", "d", "WANTED", &["search"], &["*"]);
    let answers = vec![
        Response::SecretEntry(Some(b"MASTER".to_vec())),
        empty_target(),
        Response::KeysPage {
            results: vec![filler_a.clone(), filler_b.clone()],
            total: 3,
        },
        Response::KeysPage {
            results: vec![exact],
            total: 3,
        },
        Response::Done,
        Response::Done,
    ];
    let (requests, step) = drive(&k, answers);
    assert!(key_reconcile_done(&step));
    assert!(matches!(&requests[2], Request::EngineListKeysPage { offset: 0, limit: 1000, .. }));
    assert!(matches!(&requests[3], Request::EngineListKeysPage { offset: 2, limit: 1000, .. }));
    match requests
        .iter()
        .find_map(|r| match r {
            Request::CreateSecret { secret, .. } => Some(secret.entry_value.clone()),
            _ => None,
        }) {
        Some(v) => assert_eq!(v, "WANTED"),
        None => panic!("no secret write"),
    }
}

#[test]
fn key_creation_drops_unparseable_expiry() {
    let k = key_object(
        "k1",
        "ns1",
        spec(Some("n"), None, &["search"], &["*"], Some("not-a-date"), "other-ns", "sec"),
        false,
        None,
    );
    let answers = vec![
        Response::SecretEntry(Some(b"MASTER".to_vec())),
        empty_target(),
        Response::KeysPage { results: vec![], total: 0 },
        Response::KeysPage { results: vec![], total: 0 },
        Response::KeyCreated {
            key: "V".to_string(),
            uid: "u".to_string(),
        },
        Response::Done,
        Response::Done,
    ];
    let (requests, _) = drive(&k, answers);
    match &requests[4] {
        Request::EngineCreateKey { draft, .. } => {
            assert_eq!(draft.name, "n");
            assert_eq!(draft.expires_at_nanos, None);
        }
        other => panic!("unexpected request: {:?}", other),
    }
}

#[test]
fn deleting_key_skips_engine_when_server_deleting() {
    let k = key_object(
        "k1",
        "ns1",
        spec(None, None, &["search"], &["*"], None, "ns1", "sec"),
        true,
        Some(KeyStatus {
            uid: Some("engine-uid".to_string()),
            ready: true,
            message: None,
        }),
    );
    let answers = vec![
        Response::SecretEntry(Some(b"MASTER".to_vec())),
        Response::ServerState { deleting: None },
        Response::Done,
    ];
    let (requests, step) = drive(&k, answers);
    assert!(key_reconcile_done(&step));
    // A vanished server counts as deleting: no engine call is made.
    assert!(requests
        .iter()
        .all(|r| !matches!(r, Request::EngineDeleteKey { .. })));
    assert!(matches!(
        &requests[2],
        Request::SetFinalizers {
            kind: ResourceKind::Key,
            finalizers: None,
            ..
        }
    ));
}

#[test]
fn deleting_key_removes_remembered_engine_key() {
    let k = key_object(
        "k1",
        "ns1",
        spec(None, None, &["search"], &["*"], None, "ns1", "sec"),
        true,
        Some(KeyStatus {
            uid: Some("engine-uid".to_string()),
            ready: true,
            message: None,
        }),
    );
    let answers = vec![
        Response::SecretEntry(Some(b"MASTER".to_vec())),
        Response::ServerState {
            deleting: Some(false),
        },
        Response::Done,
        Response::Done,
    ];
    let (requests, step) = drive(&k, answers);
    assert!(key_reconcile_done(&step));
    assert!(matches!(&requests[2], Request::EngineDeleteKey { uid, .. } if uid == "engine-uid"));
}

#[test]
fn missing_master_secret_entry_fails_key_reconcile() {
    let k = key_object(
        "k1",
        "ns1",
        spec(None, None, &["search"], &["*"], None, "ns1", "sec"),
        false,
        None,
    );
    let (step, req) = reconcile_step(
        &k,
        Some(Response::SecretEntry(None)),
        KeyStep::AfterGetMaster,
    );
    assert!(req.is_none());
    assert!(key_reconcile_error(&step));
}

#[test]
fn reuse_value_not_on_engine_falls_back_to_adoption() {
    // A stale secret value that no longer exists on the engine is not
    // reused; the reconcile proceeds to matching.
    let k = key_object(
        "k1",
        "ns1",
        spec(Some("n"), Some("d"), &["search"], &["*"], None, "other-ns", "sec"),
        false,
        None,
    );
    let exact = item("n", "d", "CURRENT", &["search"], &["*"]);
    let answers = vec![
        Response::SecretEntry(Some(b"MASTER".to_vec())),
        Response::TargetSecret {
            exists: true,
            string_entry: Some("STALE".to_string()),
            data_entry: None,
        },
        Response::KeysPage {
            results: vec![exact.clone()],
            total: 1,
        },
        Response::KeysPage {
            results: vec![exact],
            total: 1,
        },
        Response::Done,
        Response::Done,
    ];
    let (requests, step) = drive(&k, answers);
    assert!(key_reconcile_done(&step));
    match requests
        .iter()
        .find_map(|r| match r {
            Request::CreateSecret { secret, .. } => Some(secret.entry_value.clone()),
            _ => None,
        }) {
        Some(v) => assert_eq!(v, "CURRENT"),
        None => panic!("no secret write"),
    }
}
