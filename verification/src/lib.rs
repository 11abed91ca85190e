//! Per-connection admission and service dispatch for a network server
//! runtime: the control-message protocol a listener's worker-local service
//! consumes, the adapter that gates each accepted stream on combined
//! readiness and accounts for it while a handler processes it, and the
//! factory machinery that builds, tags and replicates per-listener services
//! across workers.

pub mod counter;
pub mod factory;
pub mod handler;
pub mod pool;
pub mod service;
pub mod stream;
