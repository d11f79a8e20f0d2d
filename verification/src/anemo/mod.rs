//! A peer-to-peer network over QUIC: identities, connection bookkeeping and
//! transport settings.
pub mod common;
pub mod config;
pub mod connection;
pub mod network;
