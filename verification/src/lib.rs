//! A single-process host for two concurrent network services: an RPC endpoint
//! serving one example call, and an HTTP endpoint exposing operational metrics
//! for that call. This library holds the verified core: the greeting
//! operation, the SLO objective registry, the metrics registry that the
//! instrumented handler feeds and the exporter reads, the per-service
//! shutdown state machine, and the orchestrator's decisions. The listeners
//! themselves (sockets, tasks, clocks) live outside the library and drive
//! these functions with plain values.

pub mod config;
pub mod exporter;
pub mod greet;
pub mod metrics;
pub mod objective;
pub mod orchestrator;
pub mod shutdown;
