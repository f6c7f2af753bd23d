use meilisearch_operator::api::{Request, ResourceKind, Response};
use meilisearch_operator::crds::{ChildRef, Metadata, ServerObject, ServerSpec};
use meilisearch_operator::server_controller::{
    default_server_config, reconcile_step, server_reconcile_done, server_reconcile_error,
    server_reconcile_init, ServerReconcileConfig, ServerStep,
};

fn server(name: &str, ns: &str, deleting: bool, finalizers: Vec<String>) -> ServerObject {
    ServerObject {
        metadata: Metadata {
            name: name.to_string(),
            namespace: ns.to_string(),
            uid: "uid-1".to_string(),
            deleting,
            finalizers,
        },
        spec: ServerSpec {
            image: None,
            replicas: 1,
            storage: Some("1Gi".to_string()),
            service_type: "ClusterIP".to_string(),
            port: 7700,
        },
    }
}

fn cfg() -> ServerReconcileConfig {
    default_server_config("meilisearch-operator".to_string())
}

#[test]
fn server_creation_happy_path() {
    let srv = server("demo", "ns1", false, vec![]);
    let cfg = cfg();

    let (step, req) = reconcile_step(&srv, &cfg, None, server_reconcile_init());
    match req {
        Some(Request::SetFinalizers {
            kind,
            namespace,
            name,
            finalizers,
        }) => {
            assert_eq!(kind, ResourceKind::Server);
            assert_eq!(namespace, "ns1");
            assert_eq!(name, "demo");
            assert_eq!(
                finalizers,
                Some(vec!["meili.operator.dev/finalizer".to_string()])
            );
        }
        other => panic!("unexpected request: {:?}", other),
    }

    let (step, req) = reconcile_step(&srv, &cfg, Some(Response::Done), step);
    match req {
        Some(Request::GetSecretEntry {
            namespace,
            name,
            entry,
        }) => {
            assert_eq!(namespace, "ns1");
            assert_eq!(name, "demo-meili-master");
            assert_eq!(entry, "masterKey");
        }
        other => panic!("unexpected request: {:?}", other),
    }

    // No master-key secret yet: one is generated and created with ownership.
    let (step, req) = reconcile_step(&srv, &cfg, Some(Response::SecretEntry(None)), step);
    let generated = match req {
        Some(Request::CreateSecret { namespace, secret }) => {
            assert_eq!(namespace, "ns1");
            assert_eq!(secret.name, "demo-meili-master");
            assert_eq!(secret.entry_key, "masterKey");
            let o = secret.owner.expect("controller owner reference");
            assert_eq!(o.kind, "Server");
            assert_eq!(o.name, "demo");
            assert!(o.controller);
            assert!(o.block_owner_deletion);
            secret.entry_value
        }
        other => panic!("unexpected request: {:?}", other),
    };
    assert_eq!(generated.len(), 64);
    assert!(generated.chars().all(|c| c.is_ascii_alphanumeric()));

    // The mirror carries the identical key, without an owner reference.
    let (step, req) = reconcile_step(&srv, &cfg, Some(Response::Done), step);
    match req {
        Some(Request::ApplySecret { namespace, secret }) => {
            assert_eq!(namespace, "meilisearch-operator");
            assert_eq!(secret.name, "ns1-demo-meili-master");
            assert_eq!(secret.entry_key, "masterKey");
            assert_eq!(secret.entry_value, generated);
            assert!(secret.owner.is_none());
        }
        other => panic!("unexpected request: {:?}", other),
    }

    let (step, req) = reconcile_step(&srv, &cfg, Some(Response::Done), step);
    match req {
        Some(Request::ApplyService { namespace, service }) => {
            assert_eq!(namespace, "ns1");
            assert_eq!(service.name, "demo");
            assert_eq!(service.selector_app, "demo");
            assert_eq!(service.port, 7700);
        }
        other => panic!("unexpected request: {:?}", other),
    }

    let (step, req) = reconcile_step(&srv, &cfg, Some(Response::Done), step);
    match req {
        Some(Request::ApplyStatefulSet {
            namespace,
            statefulset,
        }) => {
            assert_eq!(namespace, "ns1");
            assert_eq!(statefulset.name, "demo");
            assert_eq!(statefulset.replicas, 1);
            let claim = statefulset.volume_claim.expect("volume claim");
            assert_eq!(claim.storage, "1Gi");
        }
        other => panic!("unexpected request: {:?}", other),
    }

    let (step, req) = reconcile_step(&srv, &cfg, Some(Response::Done), step);
    match req {
        Some(Request::ProbeHealth {
            url,
            delay_before_millis,
        }) => {
            assert_eq!(url, "http://demo.ns1.svc.cluster.local:7700/health");
            assert_eq!(delay_before_millis, 0);
        }
        other => panic!("unexpected request: {:?}", other),
    }

    let (step, req) = reconcile_step(&srv, &cfg, Some(Response::HealthStatus(Some(200))), step);
    match req {
        Some(Request::PatchServerStatus {
            namespace,
            name,
            status,
        }) => {
            assert_eq!(namespace, "ns1");
            assert_eq!(name, "demo");
            assert!(status.ready);
            assert_eq!(
                status.endpoint,
                Some("http://demo.ns1.svc.cluster.local:7700".to_string())
            );
            assert_eq!(status.message, None);
        }
        other => panic!("unexpected request: {:?}", other),
    }

    let (step, req) = reconcile_step(&srv, &cfg, Some(Response::Done), step);
    assert!(req.is_none());
    assert!(server_reconcile_done(&step));
    assert!(!server_reconcile_error(&step));
}

#[test]
fn generates_64_char_key() {
    let srv = server("demo", "ns1", false, vec![]);
    let (_, req) = reconcile_step(
        &srv,
        &cfg(),
        Some(Response::SecretEntry(None)),
        ServerStep::AfterGetMasterSecret,
    );
    let key = match req {
        Some(Request::CreateSecret { secret, .. }) => secret.entry_value,
        other => panic!("unexpected request: {:?}", other),
    };
    assert_eq!(key.len(), 64);
}

#[test]
fn server_deletion_cascade() {
    let srv = server("demo", "ns1", true, vec!["meili.operator.dev/finalizer".to_string()]);
    let cfg = cfg();
    let mut requests: Vec<Request> = Vec::new();

    let (step, req) = reconcile_step(&srv, &cfg, None, server_reconcile_init());
    requests.push(req.clone().unwrap());
    assert!(matches!(
        req,
        Some(Request::ListChildren {
            kind: ResourceKind::Key,
            ..
        })
    ));

    let children = vec![
        ChildRef {
            name: "k1".to_string(),
            server_ref: "demo".to_string(),
        },
        ChildRef {
            name: "k-other".to_string(),
            server_ref: "other-server".to_string(),
        },
    ];
    let (step, req) = reconcile_step(&srv, &cfg, Some(Response::Children(children)), step);
    requests.push(req.clone().unwrap());
    match req {
        Some(Request::DeleteChildren { kind, names, .. }) => {
            assert_eq!(kind, ResourceKind::Key);
            assert_eq!(names, vec!["k1".to_string()]);
        }
        other => panic!("unexpected request: {:?}", other),
    }

    let (step, req) = reconcile_step(&srv, &cfg, Some(Response::Done), step);
    requests.push(req.clone().unwrap());
    assert!(matches!(
        req,
        Some(Request::ListChildren {
            kind: ResourceKind::Index,
            ..
        })
    ));

    let indexes = vec![ChildRef {
        name: "i1".to_string(),
        server_ref: "demo".to_string(),
    }];
    let (step, req) = reconcile_step(&srv, &cfg, Some(Response::Children(indexes)), step);
    requests.push(req.clone().unwrap());
    match req {
        Some(Request::DeleteChildren { kind, names, .. }) => {
            assert_eq!(kind, ResourceKind::Index);
            assert_eq!(names, vec!["i1".to_string()]);
        }
        other => panic!("unexpected request: {:?}", other),
    }

    let (step, req) = reconcile_step(&srv, &cfg, Some(Response::Done), step);
    requests.push(req.clone().unwrap());
    match req {
        Some(Request::DeleteSecret { namespace, name }) => {
            assert_eq!(namespace, "meilisearch-operator");
            assert_eq!(name, "ns1-demo-meili-master");
        }
        other => panic!("unexpected request: {:?}", other),
    }

    let (step, req) = reconcile_step(&srv, &cfg, Some(Response::Done), step);
    requests.push(req.clone().unwrap());
    match req {
        Some(Request::SetFinalizers {
            kind, finalizers, ..
        }) => {
            assert_eq!(kind, ResourceKind::Server);
            assert_eq!(finalizers, None);
        }
        other => panic!("unexpected request: {:?}", other),
    }

    let (step, req) = reconcile_step(&srv, &cfg, Some(Response::Done), step);
    assert!(req.is_none());
    assert!(server_reconcile_done(&step));

    // The whole cascade never touched the engine's administrative API.
    for r in &requests {
        assert!(!matches!(
            r,
            Request::EngineCreateIndex { .. }
                | Request::EngineDeleteIndex { .. }
                | Request::EngineListKeysPage { .. }
                | Request::EngineCreateKey { .. }
                | Request::EngineDeleteKey { .. }
        ));
    }
}

#[test]
fn health_gating_waits_for_first_success() {
    let srv = server("demo", "ns1", false, vec![]);
    let cfg = ServerReconcileConfig {
        operator_namespace: "meilisearch-operator".to_string(),
        health_interval_millis: 10,
        health_max_attempts: 5,
    };

    // Engine unhealthy at first: every failed probe schedules another after
    // the configured pause.
    let mut step = ServerStep::WaitingHealth { attempts: 1 };
    for _ in 0..3 {
        let (next, req) =
            reconcile_step(&srv, &cfg, Some(Response::HealthStatus(Some(503))), step);
        match req {
            Some(Request::ProbeHealth {
                delay_before_millis,
                ..
            }) => assert_eq!(delay_before_millis, 10),
            other => panic!("unexpected request: {:?}", other),
        }
        step = next;
    }
    assert_eq!(step, ServerStep::WaitingHealth { attempts: 4 });

    // The first 2xx ends the wait and reports readiness.
    let (step_ok, req) = reconcile_step(
        &srv,
        &cfg,
        Some(Response::HealthStatus(Some(200))),
        step.clone(),
    );
    assert!(matches!(req, Some(Request::PatchServerStatus { .. })));
    assert!(matches!(step_ok, ServerStep::AfterPatchStatus));

    // A transport failure is no success either.
    let (_, req) = reconcile_step(&srv, &cfg, Some(Response::HealthStatus(None)), step);
    assert!(matches!(req, Some(Request::ProbeHealth { .. })));
}

#[test]
fn health_gating_fails_after_budget() {
    let srv = server("demo", "ns1", false, vec![]);
    let cfg = ServerReconcileConfig {
        operator_namespace: "meilisearch-operator".to_string(),
        health_interval_millis: 10,
        health_max_attempts: 2,
    };
    let mut step = ServerStep::WaitingHealth { attempts: 1 };
    let mut probes = 1u32;
    loop {
        let (next, req) =
            reconcile_step(&srv, &cfg, Some(Response::HealthStatus(Some(503))), step);
        step = next;
        match req {
            Some(Request::ProbeHealth { .. }) => probes += 1,
            None => break,
            other => panic!("unexpected request: {:?}", other),
        }
    }
    assert!(server_reconcile_error(&step));
    // The budget admits max_attempts probes plus the final check.
    assert_eq!(probes, 3);
}

#[test]
fn master_key_decode_failure_fails_reconcile() {
    let srv = server("demo", "ns1", false, vec![]);
    let (step, req) = reconcile_step(
        &srv,
        &cfg(),
        Some(Response::SecretEntry(Some(vec![0xff, 0xfe]))),
        ServerStep::AfterGetMasterSecret,
    );
    assert!(req.is_none());
    assert!(server_reconcile_error(&step));
}

#[test]
fn unexpected_response_fails_reconcile() {
    let srv = server("demo", "ns1", false, vec![]);
    let (step, req) = reconcile_step(
        &srv,
        &cfg(),
        Some(Response::Done),
        ServerStep::AfterGetMasterSecret,
    );
    assert!(req.is_none());
    assert!(server_reconcile_error(&step));
}

#[test]
fn existing_master_key_is_reused_not_regenerated() {
    let srv = server(
        "demo",
        "ns1",
        false,
        vec!["meili.operator.dev/finalizer".to_string()],
    );
    let cfg = cfg();

    // With the finalizer already present, the reconcile goes straight to the
    // master-key secret.
    let (step, req) = reconcile_step(&srv, &cfg, None, server_reconcile_init());
    assert!(matches!(req, Some(Request::GetSecretEntry { .. })));

    let (_, req) = reconcile_step(
        &srv,
        &cfg,
        Some(Response::SecretEntry(Some(b"EXISTINGKEY".to_vec()))),
        step,
    );
    match req {
        Some(Request::ApplySecret { secret, .. }) => {
            assert_eq!(secret.name, "ns1-demo-meili-master");
            assert_eq!(secret.entry_value, "EXISTINGKEY");
        }
        other => panic!("unexpected request: {:?}", other),
    }
}
