//! Cryptographic core of a secure-messaging backend: per-user signing
//! identities, recovery phrases that deterministically re-derive a symmetric
//! key, authenticated encryption of message payloads, and hybrid wrapping of
//! per-message keys for a recipient's RSA public key.

pub mod config;
pub mod crypto;
pub mod encoding;
pub mod errors;
