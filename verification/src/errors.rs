use vstd::prelude::*;

verus! {

/// Closed set of failure categories surfaced by every operation of this
/// library. Cryptographic failures are reported without detail on purpose:
/// revealing why a decryption failed would hand an oracle to an attacker.
#[derive(Clone, Copy, Debug, PartialEq, Eq, Structural)]
pub enum AppError {
    /// Any cryptographic operation failure: key generation, malformed key
    /// encoding, AEAD seal/open failure (including tamper detection), RSA
    /// wrap/unwrap failure, invalid or corrupted mnemonic phrase.
    CryptoError,
    /// Configuration file unreadable or unparsable.
    ConfigError,
    /// Structured (de)serialization failure of persisted configuration or
    /// metadata.
    SerializationError,
    /// Any failure from the storage collaborator, opaque to this library.
    DatabaseError,
    /// Catch-all for conditions that should be unreachable given correct
    /// inputs.
    UnexpectedError,
}

} // verus!
