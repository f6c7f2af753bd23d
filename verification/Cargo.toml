[package]
name = "meilisearch-operator"
version = "0.1.0"
edition = "2021"
publish = false

[dependencies]
anyhow = "*"
futures = "*"
k8s-openapi = { version = "=0.27.1", features = ["latest"] }
kube = { version = "=3.1.0", features = ["runtime", "derive"] }
meilisearch-sdk = "=0.33.0"
rand = "=0.10.3"
reqwest = { version = "*", default-features = false, features = ["json", "rustls-tls"] }
schemars = "*"
serde = { version = "*", features = ["derive"] }
serde_json = "*"
serde_yaml = "*"
thiserror = "*"
time = { version = "=0.3.55", features = ["parsing"] }
tokio = { version = "*", features = ["macros", "rt-multi-thread", "signal", "time"] }
tracing = "*"
tracing-subscriber = { version = "*", features = ["env-filter"] }
