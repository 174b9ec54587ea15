//! Declarative test-network topologies and convergence polling.
//!
//! The crate describes a short-lived multi-node blockchain test network as an
//! immutable topology descriptor, validates it, derives a deterministic launch
//! plan (chain spec, spawn order, port assignment), models the live network
//! handle that a launcher returns, and decides when a convergence wait
//! (block height, metric threshold, state predicate) is satisfied.
//! Process spawning, RPC and telemetry I/O are left to an outer layer that
//! consults these decisions.

pub mod builder;
pub mod errors;
pub mod genesis;
pub mod handle;
pub mod plan;
pub mod poller;
pub mod scenarios;
pub mod topology;
