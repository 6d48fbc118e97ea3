//! Core of a readiness sidecar: a set of independent health probes feeds one
//! aggregated verdict that an HTTP endpoint can expose.
//!
//! The library holds the verified logic of the system: the probe outcome
//! model, the per-probe decision rules (file markers, TCP liveness, HTTP
//! response classification), the PROXY protocol preamble encodings, the
//! aggregation policy that folds the ordered probe results into a single
//! verdict, and the shared store that publishes the latest verdict.
//! Performing the actual network and filesystem I/O is left to the caller,
//! which hands the observed results to the functions here.

pub mod check_result;
pub mod file_checks;
pub mod http_check;
pub mod laws;
pub mod net_addr;
pub mod numfmt;
pub mod options;
pub mod proxy;
pub mod status_checker;
pub mod status_holder;
pub mod status_manager;
pub mod tcp_check;
