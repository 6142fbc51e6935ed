//! Core of an end-to-end encrypted paste service: key management, the
//! authenticated-encryption envelope, identifier generation, and the paste
//! lifecycle (expiry, burn-after-read, and reaping) over a record store.

use vstd::prelude::*;

pub mod encryption;
pub mod ids;
pub mod lifecycle;
pub mod links;
pub mod models;
pub mod text;

verus! {

/// The errors this library surfaces to callers.
#[derive(Debug, PartialEq, Eq, Structural, Clone, Copy)]
pub enum PasteError {
    /// A transported key did not decode to exactly 32 bytes of valid base64.
    InvalidKey,
    /// Authenticated decryption failed: malformed encoding, truncated input,
    /// a wrong key, or a tampered ciphertext. Deliberately not distinguished
    /// further, to avoid acting as an oracle.
    DecryptionFailure,
    /// No servable record: the id never existed or the record has expired.
    NotFound,
    /// The store refused an operation (for example an id collision on insert).
    StoreError,
}

impl PasteError {
    /// A short description for surfacing the error, deliberately as opaque
    /// as the taxonomy itself: nothing distinguishes a wrong key from a
    /// tampered ciphertext, or a missing record from an expired one.
    pub fn message(&self) -> (r: &'static str)
        ensures
            self is InvalidKey ==> r@ == "invalid key"@,
            self is DecryptionFailure ==> r@ == "decryption failed"@,
            self is NotFound ==> r@ == "not found"@,
            self is StoreError ==> r@ == "store error"@,
    {
        match self {
            PasteError::InvalidKey => "invalid key",
            PasteError::DecryptionFailure => "decryption failed",
            PasteError::NotFound => "not found",
            PasteError::StoreError => "store error",
        }
    }
}

} // verus!
