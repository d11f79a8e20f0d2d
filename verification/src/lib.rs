//! Verified core of a small networking and infrastructure toolkit: peer
//! identities and connection bookkeeping for a QUIC network, a canonical
//! ordered set, telemetry and storage option handling.

pub mod anemo;
pub mod serde_lib;
pub mod typed_store_macros;
pub mod telemetry;
pub mod rccheck;
pub mod mysten_network;
pub mod component;
pub mod span_latency_prom;
