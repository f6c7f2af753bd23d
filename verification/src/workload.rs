//! The derived workload objects a server is realized by: the service and the
//! stateful workload, modelled down to the fields the operator sets.

use vstd::prelude::*;
use vstd::string::StringExecFns;

use crate::crds::ServerSpec;
use crate::names::{master_secret_name, spec_master_secret_name};
use crate::secrets::{clone_owner_ref, owner_ref_like, OwnerRef};
use crate::strutil::{spec_dec_digits, u64_to_dec_string};

verus! {

/// An HTTP probe against the engine's health endpoint.
#[derive(Debug, Clone, PartialEq)]
pub struct ProbeModel {
    pub path: String,
    pub port: u16,
    pub initial_delay_seconds: i32,
    pub period_seconds: i32,
    pub timeout_seconds: i32,
}

/// The engine container of the stateful workload.
#[derive(Debug, Clone, PartialEq)]
pub struct ContainerModel {
    pub name: String,
    pub image: String,
    pub args: Vec<String>,
    pub container_port: u16,
    /// Environment variable fed from the master-key secret.
    pub env_name: String,
    pub env_secret_name: String,
    pub env_secret_key: String,
    pub liveness: ProbeModel,
    pub readiness: ProbeModel,
    /// Volume mount for the data volume, present exactly when storage is set.
    pub data_mount: Option<MountModel>,
}

/// A volume mount by name and path.
#[derive(Debug, Clone, PartialEq)]
pub struct MountModel {
    pub name: String,
    pub mount_path: String,
}

/// The volume claim template backing the data volume.
#[derive(Debug, Clone, PartialEq)]
pub struct VolumeClaimModel {
    pub name: String,
    pub access_mode: String,
    pub storage: String,
}

/// The service exposing a server.
#[derive(Debug, Clone, PartialEq)]
pub struct ServiceModel {
    pub name: String,
    pub owner: OwnerRef,
    pub selector_app: String,
    pub port: u16,
}

/// The stateful workload realizing a server.
#[derive(Debug, Clone, PartialEq)]
pub struct StatefulSetModel {
    pub name: String,
    pub owner: OwnerRef,
    pub service_name: String,
    pub replicas: i32,
    pub selector_app: String,
    pub labels_app: String,
    /// Volume-claim retention on deletion of the workload.
    pub pvc_when_deleted: String,
    /// Volume-claim retention on scale-down.
    pub pvc_when_scaled: String,
    pub container: ContainerModel,
    pub volume_claim: Option<VolumeClaimModel>,
}

/// What the built service must look like for server `name` on `port`, its
/// owner reference aside.
pub open spec fn spec_service_fields(name: Seq<char>, port: u16, s: ServiceModel) -> bool {
    &&& s.name@ == name
    &&& s.selector_app@ == name
    &&& s.port == port
}

/// What the built service must look like for server `name` on `port`.
pub open spec fn spec_service_model(name: Seq<char>, port: u16, owner: OwnerRef, s: ServiceModel,
) -> bool {
    &&& spec_service_fields(name, port, s)
    &&& owner_ref_like(s.owner, owner)
}

/// Builds the service for a server: named like the server, selecting
/// `app=<name>`, exposing the configured port.
pub fn build_service(name: &str, port: u16, owner: &OwnerRef) -> (s: ServiceModel)
    ensures
        spec_service_model(name@, port, *owner, s),
{
    ServiceModel {
        name: name.to_owned(),
        owner: clone_owner_ref(owner),
        selector_app: name.to_owned(),
        port,
    }
}

/// The container image used when the spec names none.
pub open spec fn spec_default_image() -> Seq<char> {
    "getmeili/meilisearch:latest"@
}

/// The engine's listen address argument for a port.
pub open spec fn spec_http_addr_arg(port: u16) -> Seq<char> {
    "0.0.0.0:"@ + spec_dec_digits(port as int)
}

/// What the built stateful workload must look like for server `name` with
/// spec `spec`: the image (or its default), the engine arguments, the master
/// key environment, both health probes, and the storage volume exactly when
/// requested.
pub open spec fn spec_statefulset_fields(
    name: Seq<char>,
    spec: ServerSpec,
    s: StatefulSetModel,
) -> bool {
    &&& s.name@ == name
    &&& s.service_name@ == name
    &&& s.replicas == spec.replicas
    &&& s.selector_app@ == name
    &&& s.labels_app@ == name
    &&& s.pvc_when_deleted@ == "Delete"@
    &&& s.pvc_when_scaled@ == "Retain"@
    &&& s.container.name@ == "meilisearch"@
    &&& (match spec.image {
        Some(im) => s.container.image@ == im@,
        None => s.container.image@ == spec_default_image(),
    })
    &&& s.container.args@.len() == 3
    &&& s.container.args@[0]@ == "meilisearch"@
    &&& s.container.args@[1]@ == "--http-addr"@
    &&& s.container.args@[2]@ == spec_http_addr_arg(spec.port)
    &&& s.container.container_port == spec.port
    &&& s.container.env_name@ == "MEILI_MASTER_KEY"@
    &&& s.container.env_secret_name@ == spec_master_secret_name(name)
    &&& s.container.env_secret_key@ == "masterKey"@
    &&& spec_health_probe(s.container.liveness, spec.port, 5)
    &&& spec_health_probe(s.container.readiness, spec.port, 3)
    &&& (match spec.storage {
        Some(size) => {
            &&& (s.container.data_mount matches Some(m) && m.name@ == "data"@ && m.mount_path@
                == "/meili_data"@)
            &&& (s.volume_claim matches Some(c) && c.name@ == "data"@ && c.access_mode@
                == "ReadWriteOnce"@ && c.storage@ == size@)
        },
        None => s.container.data_mount is None && s.volume_claim is None,
    })
}

/// What the built stateful workload must look like, owner reference included.
pub open spec fn spec_statefulset_model(
    name: Seq<char>,
    spec: ServerSpec,
    owner: OwnerRef,
    s: StatefulSetModel,
) -> bool {
    &&& spec_statefulset_fields(name, spec, s)
    &&& owner_ref_like(s.owner, owner)
}

/// An HTTP probe of `/health` on the engine port with the stock period and
/// timeout and the given initial delay.
pub open spec fn spec_health_probe(p: ProbeModel, port: u16, initial_delay: i32) -> bool {
    &&& p.path@ == "/health"@
    &&& p.port == port
    &&& p.initial_delay_seconds == initial_delay
    &&& p.period_seconds == 5
    &&& p.timeout_seconds == 2
}

fn build_probe(port: u16, initial_delay: i32) -> (p: ProbeModel)
    ensures
        p.path@ == "/health"@,
        p.port == port,
        p.initial_delay_seconds == initial_delay,
        p.period_seconds == 5,
        p.timeout_seconds == 2,
{
    ProbeModel {
        path: "/health".to_owned(),
        port,
        initial_delay_seconds: initial_delay,
        period_seconds: 5,
        timeout_seconds: 2,
    }
}

/// Builds the stateful workload for a server.
pub fn build_statefulset(name: &str, spec: &ServerSpec, owner: &OwnerRef) -> (s: StatefulSetModel)
    ensures
        spec_statefulset_model(name@, *spec, *owner, s),
{
    let image: String = match &spec.image {
        Some(im) => im.clone(),
        None => "getmeili/meilisearch:latest".to_owned(),
    };
    let mut args: Vec<String> = Vec::new();
    args.push("meilisearch".to_owned());
    args.push("--http-addr".to_owned());
    let addr = "0.0.0.0:".to_owned().concat(u64_to_dec_string(spec.port as u64).as_str());
    args.push(addr);
    let data_mount: Option<MountModel> = match &spec.storage {
        Some(_) => Some(
            MountModel { name: "data".to_owned(), mount_path: "/meili_data".to_owned() },
        ),
        None => None,
    };
    let volume_claim: Option<VolumeClaimModel> = match &spec.storage {
        Some(size) => Some(
            VolumeClaimModel {
                name: "data".to_owned(),
                access_mode: "ReadWriteOnce".to_owned(),
                storage: size.clone(),
            },
        ),
        None => None,
    };
    let container = ContainerModel {
        name: "meilisearch".to_owned(),
        image,
        args,
        container_port: spec.port,
        env_name: "MEILI_MASTER_KEY".to_owned(),
        env_secret_name: master_secret_name(name),
        env_secret_key: "masterKey".to_owned(),
        liveness: build_probe(spec.port, 5),
        readiness: build_probe(spec.port, 3),
        data_mount,
    };
    StatefulSetModel {
        name: name.to_owned(),
        owner: clone_owner_ref(owner),
        service_name: name.to_owned(),
        replicas: spec.replicas,
        selector_app: name.to_owned(),
        labels_app: name.to_owned(),
        pvc_when_deleted: "Delete".to_owned(),
        pvc_when_scaled: "Retain".to_owned(),
        container,
        volume_claim,
    }
}

} // verus!
