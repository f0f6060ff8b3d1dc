//! Classified errors: every failure ends its operation and names the
//! operation and the kind of failure, never key material.
use vstd::prelude::*;

verus! {

/// The kinds of failure an operation can end with.
#[derive(Clone, Copy, Debug, PartialEq, Eq, Structural)]
pub enum ErrorKind {
    /// A missing, malformed or mistyped request field (bad base64 or hex, a
    /// digest that is not 32 bytes, an IV or tag of the wrong size); always
    /// detected before any call to the key service.
    InvalidRequest,
    /// No key reference is configured, or the service does not know it.
    KeyReferenceMissing,
    /// The key service failed, or answered with something unusable.
    KmsUnavailable,
    /// The key service refused the caller.
    KmsUnauthorized,
    /// The key service throttled the caller.
    KmsThrottled,
    /// A wrapped key could not be unwrapped to an AES-256 key (wrong key
    /// reference or corrupted wrapped key).
    KeyUnwrapError,
    /// The GCM tag does not authenticate the ciphertext.
    AuthenticationFailure,
    /// A payload exceeds what the cipher or the key service accepts.
    PayloadTooLarge,
    /// The local random source failed.
    CipherFailure,
}

/// The operations of the protocol.
#[derive(Clone, Copy, Debug, PartialEq, Eq, Structural)]
pub enum Operation {
    EnvelopeEncrypt,
    EnvelopeDecrypt,
    HybridEncrypt,
    HybridDecrypt,
    Sign,
    Verify,
    Mac,
}

/// A failed operation: which one, and why.
#[derive(Clone, Copy, Debug, PartialEq, Eq, Structural)]
pub struct OpError {
    pub operation: Operation,
    pub kind: ErrorKind,
}

} // verus!
