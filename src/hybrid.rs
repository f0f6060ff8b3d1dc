//! Hybrid mode: AES-256-CTR under a fresh local key, the key wrapped by the
//! key service with RSA-OAEP. Counter mode carries no tag, so a corrupted
//! ciphertext decrypts, without error, to altered plaintext; the wire format
//! is kept as it is for compatibility with data already encrypted.
use vstd::prelude::*;
use crate::cipher::{ctr_apply, ctr_transform, IV_LEN, KEY_LEN, MAX_CIPHER_INPUT};
use crate::codec::{base64_decoding, base64_text, decode_base64, encode_base64, is_base64_text};
use crate::error::ErrorKind;

verus! {

/// A hybrid-mode message on the wire: every field is standard base64 text.
pub struct HybridEnvelope {
    pub ciphertext: String,
    pub iv: String,
    pub encrypted_key: String,
}

/// The fields of a hybrid-mode message, decoded and checked for size.
pub struct DecodedHybrid {
    pub ciphertext: Vec<u8>,
    pub iv: Vec<u8>,
    pub wrapped_key: Vec<u8>,
}

impl DecodedHybrid {
    /// Sizes that the cipher needs: a 16-byte IV and a ciphertext the cipher
    /// accepts in one call.
    pub open spec fn well_sized(&self) -> bool {
        &&& self.iv@.len() == IV_LEN
        &&& self.ciphertext@.len() <= MAX_CIPHER_INPUT
    }
}

/// Whether `e` is well formed: base64 fields and a 16-byte IV.
pub open spec fn hybrid_is_well_formed(e: &HybridEnvelope) -> bool {
    &&& is_base64_text(e.ciphertext@)
    &&& is_base64_text(e.iv@)
    &&& is_base64_text(e.encrypted_key@)
    &&& base64_decoding(e.iv@).len() == IV_LEN
}

/// Decodes and checks the fields of a hybrid-mode message. Fails with
/// `InvalidRequest` on a malformed message, and with `PayloadTooLarge` on a
/// ciphertext the cipher cannot take in one call.
pub fn decode_hybrid(e: &HybridEnvelope) -> (r: Result<DecodedHybrid, ErrorKind>)
    ensures
        !hybrid_is_well_formed(e) ==> r == Err::<DecodedHybrid, ErrorKind>(
            ErrorKind::InvalidRequest,
        ),
        hybrid_is_well_formed(e) && base64_decoding(e.ciphertext@).len() > MAX_CIPHER_INPUT ==> r
            == Err::<DecodedHybrid, ErrorKind>(ErrorKind::PayloadTooLarge),
        hybrid_is_well_formed(e) && base64_decoding(e.ciphertext@).len() <= MAX_CIPHER_INPUT
            ==> r is Ok,
        r is Ok ==> r->Ok_0.ciphertext@ == base64_decoding(e.ciphertext@),
        r is Ok ==> r->Ok_0.iv@ == base64_decoding(e.iv@),
        r is Ok ==> r->Ok_0.wrapped_key@ == base64_decoding(e.encrypted_key@),
        r is Ok ==> r->Ok_0.well_sized(),
{
    let ciphertext = match decode_base64(e.ciphertext.as_str()) {
        Some(b) => b,
        None => return Err(ErrorKind::InvalidRequest),
    };
    let iv = match decode_base64(e.iv.as_str()) {
        Some(b) => b,
        None => return Err(ErrorKind::InvalidRequest),
    };
    let wrapped_key = match decode_base64(e.encrypted_key.as_str()) {
        Some(b) => b,
        None => return Err(ErrorKind::InvalidRequest),
    };
    if iv.len() != IV_LEN {
        return Err(ErrorKind::InvalidRequest);
    }
    if ciphertext.len() > MAX_CIPHER_INPUT {
        return Err(ErrorKind::PayloadTooLarge);
    }
    Ok(DecodedHybrid { ciphertext, iv, wrapped_key })
}

/// Encodes the parts of a hybrid-mode message for the wire.
pub fn encode_hybrid(ciphertext: &[u8], iv: &[u8], wrapped_key: &[u8]) -> (e: HybridEnvelope)
    ensures
        e.ciphertext@ == base64_text(ciphertext@),
        e.iv@ == base64_text(iv@),
        e.encrypted_key@ == base64_text(wrapped_key@),
{
    HybridEnvelope {
        ciphertext: encode_base64(ciphertext),
        iv: encode_base64(iv),
        encrypted_key: encode_base64(wrapped_key),
    }
}

/// Encrypts `message` with AES-256-CTR under the local key `key` and the IV
/// `iv`.
pub fn seal_hybrid(message: &[u8], key: &[u8], iv: &[u8]) -> (r: Vec<u8>)
    requires
        key@.len() == KEY_LEN,
        iv@.len() == IV_LEN,
        message@.len() <= MAX_CIPHER_INPUT,
    ensures
        r@ == ctr_apply(key@, iv@, message@),
{
    ctr_transform(key, iv, message)
}

/// Decrypts a decoded hybrid-mode message under the unwrapped key `key`.
/// A key that is not 32 bytes long cannot be the AES key
/// (`KeyUnwrapError`). There is no integrity check: under a 32-byte key any
/// ciphertext decrypts.
pub fn open_hybrid(d: &DecodedHybrid, key: &[u8]) -> (r: Result<Vec<u8>, ErrorKind>)
    requires
        d.well_sized(),
    ensures
        key@.len() != KEY_LEN ==> r == Err::<Vec<u8>, ErrorKind>(ErrorKind::KeyUnwrapError),
        key@.len() == KEY_LEN ==> r is Ok,
        r is Ok ==> r->Ok_0@ == ctr_apply(key@, d.iv@, d.ciphertext@),
{
    if key.len() != KEY_LEN {
        return Err(ErrorKind::KeyUnwrapError);
    }
    Ok(ctr_transform(key, d.iv.as_slice(), d.ciphertext.as_slice()))
}

} // verus!
