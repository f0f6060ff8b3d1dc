//! The key-management service as the protocol sees it: the calls an
//! operation asks for and the replies it is handed back. The service is
//! reached by whoever runs the operation; nothing here performs a call.
use vstd::prelude::*;
use crate::error::ErrorKind;

verus! {

/// How the service is to unwrap a wrapped key.
#[derive(Clone, Copy, Debug, PartialEq, Eq, Structural)]
pub enum WrapScheme {
    /// A data key that the service issued under a symmetric key.
    DataKey,
    /// A key wrapped with RSA-OAEP and SHA-256 under an asymmetric key.
    RsaOaepSha256,
}

/// Whether a payload to sign or verify is the message itself or its SHA-256
/// digest.
#[derive(Clone, Copy, Debug, PartialEq, Eq, Structural)]
pub enum MessageForm {
    Raw,
    Digest,
}

/// A call to the key service; each names the key reference it is made under.
pub enum KmsCall {
    /// Issue a fresh AES-256 data key, in plaintext and wrapped.
    GenerateDataKey { key_ref: String },
    /// Unwrap `wrapped` back to the plaintext key.
    Unwrap { key_ref: String, wrapped: Vec<u8>, scheme: WrapScheme },
    /// Wrap `plaintext` with RSA-OAEP and SHA-256.
    Wrap { key_ref: String, plaintext: Vec<u8> },
    /// Sign `payload` with ECDSA P-256 and SHA-256.
    Sign { key_ref: String, payload: Vec<u8>, form: MessageForm },
    /// Verify `signature` over `payload` with ECDSA P-256 and SHA-256.
    Verify { key_ref: String, payload: Vec<u8>, signature: Vec<u8>, form: MessageForm },
    /// Compute an HMAC-SHA256 of `message`.
    GenerateMac { key_ref: String, message: Vec<u8> },
}

/// How a call to the key service failed.
#[derive(Clone, Copy, Debug, PartialEq, Eq, Structural)]
pub enum KmsFault {
    Unauthorized,
    KeyNotFound,
    Throttled,
    Unavailable,
    /// The wrapped key was not produced under this reference, or was altered.
    InvalidCiphertext,
    /// The plaintext to wrap exceeds the key's capacity.
    PayloadTooLarge,
}

/// The answer to a call to the key service.
pub enum KmsReply {
    DataKey { plaintext: Vec<u8>, wrapped: Vec<u8> },
    Unwrapped { plaintext: Vec<u8> },
    Wrapped { ciphertext: Vec<u8> },
    Signature { signature: Vec<u8> },
    Verdict { valid: bool },
    Mac { mac: Vec<u8> },
    Fault { fault: KmsFault },
}

/// The error kind that a service fault is reported as.
pub open spec fn fault_kind(f: KmsFault) -> ErrorKind {
    match f {
        KmsFault::Unauthorized => ErrorKind::KmsUnauthorized,
        KmsFault::KeyNotFound => ErrorKind::KeyReferenceMissing,
        KmsFault::Throttled => ErrorKind::KmsThrottled,
        KmsFault::Unavailable => ErrorKind::KmsUnavailable,
        KmsFault::InvalidCiphertext => ErrorKind::KeyUnwrapError,
        KmsFault::PayloadTooLarge => ErrorKind::PayloadTooLarge,
    }
}

/// Classifies a service fault.
pub fn classify_fault(f: KmsFault) -> (k: ErrorKind)
    ensures
        k == fault_kind(f),
{
    match f {
        KmsFault::Unauthorized => ErrorKind::KmsUnauthorized,
        KmsFault::KeyNotFound => ErrorKind::KeyReferenceMissing,
        KmsFault::Throttled => ErrorKind::KmsThrottled,
        KmsFault::Unavailable => ErrorKind::KmsUnavailable,
        KmsFault::InvalidCiphertext => ErrorKind::KeyUnwrapError,
        KmsFault::PayloadTooLarge => ErrorKind::PayloadTooLarge,
    }
}

} // verus!
