use meilisearch_operator::api::{Request, ResourceKind, Response};
use meilisearch_operator::crds::{IndexAdminKeySpec, IndexObject, IndexSpec, Metadata};
use meilisearch_operator::engine::KeyItem;
use meilisearch_operator::index_controller::{
    index_reconcile_done, index_reconcile_error, index_reconcile_init, reconcile_step, IndexStep,
};

fn index(name: &str, ns: &str, uid: &str, deleting: bool, admin: bool) -> IndexObject {
    IndexObject {
        metadata: Metadata {
            name: name.to_string(),
            namespace: ns.to_string(),
            uid: "cr-uid".to_string(),
            deleting,
            finalizers: vec!["meili.operator.dev/finalizer".to_string()],
        },
        spec: IndexSpec {
            server_ref: "demo".to_string(),
            uid: uid.to_string(),
            primary_key: None,
            delete_on_finalize: false,
            admin_key: if admin {
                Some(IndexAdminKeySpec {
                    create: true,
                    secret_namespace: None,
                    secret_name: None,
                })
            } else {
                None
            },
        },
    }
}

fn admin_item(uid: &str, value: &str) -> KeyItem {
    KeyItem {
        name: Some(format!("{}-admin", uid)),
        description: Some(format!("Admin key for index {}", uid)),
        key: value.to_string(),
        uid: "engine-uid".to_string(),
        actions: vec!["*".to_string()],
        indexes: vec![uid.to_string()],
        expires_at: None,
    }
}

/// Drives one full reconcile, answering every request in the given order,
/// and returns the issued requests.
fn drive(idx: &IndexObject, answers: Vec<Response>) -> (Vec<Request>, IndexStep) {
    let mut requests = Vec::new();
    let mut step = index_reconcile_init();
    let mut resp: Option<Response> = None;
    let mut answers = answers.into_iter();
    loop {
        let (next, req) = reconcile_step(idx, resp, step);
        step = next;
        match req {
            Some(r) => {
                requests.push(r);
                resp = Some(answers.next().expect("an answer for every request"));
            }
            None => return (requests, step),
        }
    }
}

#[test]
fn index_admin_key_adoption() {
    let idx = index("prod", "ns1", "prod", false, true);
    let answers = vec![
        Response::SecretEntry(Some(b"MASTER".to_vec())),
        Response::Done,
        Response::KeysPage {
            results: vec![admin_item("prod", "ADOPTED-VALUE")],
            total: 1,
        },
        Response::Done,
        Response::Done,
    ];
    let (requests, step) = drive(&idx, answers);
    assert!(index_reconcile_done(&step));

    assert!(matches!(&requests[0], Request::GetSecretEntry { name, .. } if name == "demo-meili-master"));
    match &requests[1] {
        Request::EngineCreateIndex {
            endpoint,
            master_key,
            uid,
            primary_key,
        } => {
            assert_eq!(endpoint, "http://demo.ns1.svc.cluster.local:7700");
            assert_eq!(master_key, "MASTER");
            assert_eq!(uid, "prod");
            assert_eq!(primary_key, &None);
        }
        other => panic!("unexpected request: {:?}", other),
    }
    assert!(matches!(&requests[2], Request::EngineListKeysPage { offset: 0, limit: 1000, .. }));
    match &requests[3] {
        Request::CreateSecret { namespace, secret } => {
            assert_eq!(namespace, "ns1");
            assert_eq!(secret.name, "prod-admin-key");
            assert_eq!(secret.entry_key, "key");
            assert_eq!(secret.entry_value, "ADOPTED-VALUE");
            let o = secret.owner.as_ref().expect("same-namespace owner");
            assert_eq!(o.kind, "Index");
            assert_eq!(o.uid, "cr-uid");
        }
        other => panic!("unexpected request: {:?}", other),
    }
    match &requests[4] {
        Request::PatchIndexStatus { status, .. } => {
            assert!(status.ready);
            assert_eq!(
                status.message,
                Some("adopted existing admin key".to_string())
            );
        }
        other => panic!("unexpected request: {:?}", other),
    }

    // Adoption issued no engine key creation.
    assert!(requests
        .iter()
        .all(|r| !matches!(r, Request::EngineCreateKey { .. })));
}

#[test]
fn index_admin_key_created_when_none_matches() {
    let idx = index("prod", "ns1", "prod", false, true);
    let stranger = KeyItem {
        name: Some("other".to_string()),
        description: None,
        key: "X".to_string(),
        uid: "u".to_string(),
        actions: vec!["search".to_string()],
        indexes: vec!["prod".to_string()],
        expires_at: None,
    };
    let answers = vec![
        Response::SecretEntry(Some(b"MASTER".to_vec())),
        Response::Done,
        Response::KeysPage {
            results: vec![stranger],
            total: 1,
        },
        Response::KeyCreated {
            key: "FRESH".to_string(),
            uid: "engine-uid-2".to_string(),
        },
        Response::Done,
        Response::Done,
    ];
    let (requests, step) = drive(&idx, answers);
    assert!(index_reconcile_done(&step));

    match &requests[3] {
        Request::EngineCreateKey { draft, .. } => {
            assert_eq!(draft.name, "prod-admin");
            assert_eq!(
                draft.description,
                Some("Admin key for index prod".to_string())
            );
            assert_eq!(draft.indexes, vec!["prod".to_string()]);
            assert_eq!(draft.expires_at_nanos, None);
        }
        other => panic!("unexpected request: {:?}", other),
    }
    match &requests[4] {
        Request::CreateSecret { secret, .. } => {
            assert_eq!(secret.entry_value, "FRESH");
        }
        other => panic!("unexpected request: {:?}", other),
    }
    match &requests[5] {
        Request::PatchIndexStatus { status, .. } => {
            assert!(status.ready);
            assert_eq!(status.message, None);
        }
        other => panic!("unexpected request: {:?}", other),
    }
}

#[test]
fn index_listing_pages_until_total() {
    let idx = index("prod", "ns1", "prod", false, true);
    let answers = vec![
        Response::SecretEntry(Some(b"MASTER".to_vec())),
        Response::Done,
        Response::KeysPage {
            results: vec![admin_item("unrelated-1", "A"), admin_item("unrelated-2", "B")],
            total: 3,
        },
        Response::KeysPage {
            results: vec![admin_item("prod", "FOUND")],
            total: 3,
        },
        Response::Done,
        Response::Done,
    ];
    let (requests, step) = drive(&idx, answers);
    assert!(index_reconcile_done(&step));
    assert!(matches!(&requests[2], Request::EngineListKeysPage { offset: 0, .. }));
    assert!(matches!(&requests[3], Request::EngineListKeysPage { offset: 2, .. }));
    assert!(matches!(&requests[4], Request::CreateSecret { secret, .. } if secret.entry_value == "FOUND"));
}

#[test]
fn index_reconcile_is_idempotent() {
    // An already-Ready index reconciled twice with the same observations
    // issues exactly the same writes.
    let idx = index("prod", "ns1", "prod", false, true);
    let answers = || {
        vec![
            Response::SecretEntry(Some(b"MASTER".to_vec())),
            Response::Done,
            Response::KeysPage {
                results: vec![admin_item("prod", "ADOPTED-VALUE")],
                total: 1,
            },
            Response::Done,
            Response::Done,
        ]
    };
    let (first, step1) = drive(&idx, answers());
    let (second, step2) = drive(&idx, answers());
    assert_eq!(first, second);
    assert_eq!(step1, step2);
}

#[test]
fn index_without_admin_key_patches_status_directly() {
    let idx = index("plain", "ns1", "plain", false, false);
    let answers = vec![
        Response::SecretEntry(Some(b"MASTER".to_vec())),
        Response::Done,
        Response::Done,
    ];
    let (requests, step) = drive(&idx, answers);
    assert!(index_reconcile_done(&step));
    assert_eq!(requests.len(), 3);
    assert!(matches!(&requests[2], Request::PatchIndexStatus { status, .. } if status.ready && status.message.is_none()));
}

#[test]
fn deleting_index_skips_engine_when_server_deleting() {
    let mut idx = index("prod", "ns1", "prod", true, false);
    idx.spec.delete_on_finalize = true;
    let answers = vec![
        Response::ServerState {
            deleting: Some(true),
        },
        Response::Done,
    ];
    let (requests, step) = drive(&idx, answers);
    assert!(index_reconcile_done(&step));
    assert!(matches!(&requests[0], Request::GetServerDeleting { .. }));
    assert!(matches!(
        &requests[1],
        Request::SetFinalizers {
            kind: ResourceKind::Index,
            finalizers: None,
            ..
        }
    ));
    assert!(requests
        .iter()
        .all(|r| !matches!(r, Request::EngineDeleteIndex { .. })));
}

#[test]
fn deleting_index_removes_engine_index_when_asked() {
    let mut idx = index("prod", "ns1", "prod", true, false);
    idx.spec.delete_on_finalize = true;
    let answers = vec![
        Response::ServerState {
            deleting: Some(false),
        },
        Response::SecretEntry(Some(b"MASTER".to_vec())),
        Response::Done,
        Response::Done,
    ];
    let (requests, step) = drive(&idx, answers);
    assert!(index_reconcile_done(&step));
    assert!(matches!(&requests[2], Request::EngineDeleteIndex { uid, .. } if uid == "prod"));
    assert!(matches!(
        &requests[3],
        Request::SetFinalizers {
            finalizers: None,
            ..
        }
    ));
}

#[test]
fn missing_master_secret_entry_fails_index_reconcile() {
    let idx = index("prod", "ns1", "prod", false, false);
    let (step, req) = reconcile_step(
        &idx,
        Some(Response::SecretEntry(None)),
        IndexStep::AfterGetMaster,
    );
    assert!(req.is_none());
    assert!(index_reconcile_error(&step));
}
