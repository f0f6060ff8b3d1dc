//! Cryptographic operations whose root keys stay in a remote key-management
//! service: envelope encryption (AES-256-GCM under a service-issued data key),
//! hybrid encryption (AES-256-CTR under a local key that the service wraps),
//! and signing, verification and MAC generation delegated to the service.
pub mod codec;
pub mod cipher;
pub mod error;
pub mod kms;
pub mod envelope;
pub mod hybrid;
pub mod signing;
pub mod dispatch;
pub mod laws;
