//! A Kubernetes operator for a search-engine service: declarative `Server`,
//! `Index` and `Key` resources are reconciled against cluster objects and the
//! engine's administrative HTTP state. The reconcilers are written as state
//! machines: each step consumes the response to the previous request and
//! decides the next request, so every decision the operator makes is verified.
//! Performing the requests (cluster API calls, engine HTTP calls) is left to a
//! thin driver around this crate.

pub mod api;
pub mod crds;
pub mod engine;
pub mod index_controller;
pub mod key_controller;
pub mod names;
pub mod secrets;
pub mod server_controller;
pub mod strutil;
pub mod workload;
