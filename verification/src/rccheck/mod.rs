//! Certificates and key encodings for signature schemes.
pub mod ed25519_certgen;
