//! Envelope mode: AES-256-GCM under a data key that the key service issues
//! and later unwraps. The GCM tag is the integrity check of the protocol: no
//! plaintext leaves `open_envelope` unless the tag authenticates the
//! ciphertext.
use vstd::prelude::*;
use crate::cipher::{
    gcm_apply, gcm_open, gcm_seal, gcm_tag, IV_LEN, KEY_LEN, MAX_CIPHER_INPUT, TAG_LEN,
};
use crate::codec::{base64_decoding, base64_text, decode_base64, encode_base64, is_base64_text};
use crate::error::ErrorKind;

verus! {

/// An envelope on the wire: every field is standard base64 text.
pub struct Envelope {
    pub ciphertext: String,
    pub iv: String,
    pub tag: String,
    pub encrypted_key: String,
}

/// The fields of an envelope, decoded and checked for size.
pub struct DecodedEnvelope {
    pub ciphertext: Vec<u8>,
    pub iv: Vec<u8>,
    pub tag: Vec<u8>,
    pub wrapped_key: Vec<u8>,
}

impl DecodedEnvelope {
    /// Sizes that the cipher needs: a 16-byte IV, a 16-byte tag, and a
    /// ciphertext the cipher accepts in one call.
    pub open spec fn well_sized(&self) -> bool {
        &&& self.iv@.len() == IV_LEN
        &&& self.tag@.len() == TAG_LEN
        &&& self.ciphertext@.len() <= MAX_CIPHER_INPUT
    }
}

/// Whether every field of `e` is base64 text.
pub open spec fn envelope_is_base64(e: &Envelope) -> bool {
    &&& is_base64_text(e.ciphertext@)
    &&& is_base64_text(e.iv@)
    &&& is_base64_text(e.tag@)
    &&& is_base64_text(e.encrypted_key@)
}

/// Whether `e` is a well-formed envelope: base64 fields, a 16-byte IV and a
/// 16-byte tag.
pub open spec fn envelope_is_well_formed(e: &Envelope) -> bool {
    &&& envelope_is_base64(e)
    &&& base64_decoding(e.iv@).len() == IV_LEN
    &&& base64_decoding(e.tag@).len() == TAG_LEN
}

/// Decodes and checks the fields of an envelope. Fails with `InvalidRequest`
/// on a malformed envelope, and with `PayloadTooLarge` on a ciphertext the
/// cipher cannot take in one call.
pub fn decode_envelope(e: &Envelope) -> (r: Result<DecodedEnvelope, ErrorKind>)
    ensures
        !envelope_is_well_formed(e) ==> r == Err::<DecodedEnvelope, ErrorKind>(
            ErrorKind::InvalidRequest,
        ),
        envelope_is_well_formed(e) && base64_decoding(e.ciphertext@).len() > MAX_CIPHER_INPUT
            ==> r == Err::<DecodedEnvelope, ErrorKind>(ErrorKind::PayloadTooLarge),
        envelope_is_well_formed(e) && base64_decoding(e.ciphertext@).len() <= MAX_CIPHER_INPUT
            ==> r is Ok,
        r is Ok ==> r->Ok_0.ciphertext@ == base64_decoding(e.ciphertext@),
        r is Ok ==> r->Ok_0.iv@ == base64_decoding(e.iv@),
        r is Ok ==> r->Ok_0.tag@ == base64_decoding(e.tag@),
        r is Ok ==> r->Ok_0.wrapped_key@ == base64_decoding(e.encrypted_key@),
        r is Ok ==> r->Ok_0.well_sized(),
{
    let ciphertext = match decode_base64(e.ciphertext.as_str()) {
        Some(b) => b,
        None => return Err(ErrorKind::InvalidRequest),
    };
    let iv = match decode_base64(e.iv.as_str()) {
        Some(b) => b,
        None => return Err(ErrorKind::InvalidRequest),
    };
    let tag = match decode_base64(e.tag.as_str()) {
        Some(b) => b,
        None => return Err(ErrorKind::InvalidRequest),
    };
    let wrapped_key = match decode_base64(e.encrypted_key.as_str()) {
        Some(b) => b,
        None => return Err(ErrorKind::InvalidRequest),
    };
    if iv.len() != IV_LEN || tag.len() != TAG_LEN {
        return Err(ErrorKind::InvalidRequest);
    }
    if ciphertext.len() > MAX_CIPHER_INPUT {
        return Err(ErrorKind::PayloadTooLarge);
    }
    Ok(DecodedEnvelope { ciphertext, iv, tag, wrapped_key })
}

/// Encodes the parts of a sealed message as an envelope.
pub fn encode_envelope(ciphertext: &[u8], iv: &[u8], tag: &[u8], wrapped_key: &[u8]) -> (e:
    Envelope)
    ensures
        e.ciphertext@ == base64_text(ciphertext@),
        e.iv@ == base64_text(iv@),
        e.tag@ == base64_text(tag@),
        e.encrypted_key@ == base64_text(wrapped_key@),
{
    Envelope {
        ciphertext: encode_base64(ciphertext),
        iv: encode_base64(iv),
        tag: encode_base64(tag),
        encrypted_key: encode_base64(wrapped_key),
    }
}

/// Encrypts `message` with AES-256-GCM under the data key `data_key` and the
/// IV `iv`, and packs the result with the wrapped form of the data key.
/// It succeeds for every 32-byte data key; a data key of another length is
/// an unusable answer of the key service (`KmsUnavailable`).
pub fn seal_envelope(message: &[u8], data_key: &[u8], wrapped_key: &[u8], iv: &[u8]) -> (r:
    Result<Envelope, ErrorKind>)
    requires
        iv@.len() == IV_LEN,
        message@.len() <= MAX_CIPHER_INPUT,
    ensures
        data_key@.len() != KEY_LEN ==> r == Err::<Envelope, ErrorKind>(ErrorKind::KmsUnavailable),
        data_key@.len() == KEY_LEN ==> r is Ok,
        r is Ok ==> r->Ok_0.ciphertext@ == base64_text(gcm_apply(data_key@, iv@, message@)),
        r is Ok ==> r->Ok_0.tag@ == base64_text(
            gcm_tag(data_key@, iv@, gcm_apply(data_key@, iv@, message@)),
        ),
        r is Ok ==> gcm_tag(data_key@, iv@, gcm_apply(data_key@, iv@, message@)).len() == TAG_LEN,
        r is Ok ==> r->Ok_0.iv@ == base64_text(iv@),
        r is Ok ==> r->Ok_0.encrypted_key@ == base64_text(wrapped_key@),
{
    if data_key.len() != KEY_LEN {
        return Err(ErrorKind::KmsUnavailable);
    }
    let sealed = gcm_seal(data_key, iv, message);
    Ok(encode_envelope(sealed.ciphertext.as_slice(), iv, sealed.tag.as_slice(), wrapped_key))
}

/// Decrypts a decoded envelope under the unwrapped data key `data_key`.
/// A key that is not 32 bytes long cannot be the data key
/// (`KeyUnwrapError`). Otherwise it succeeds exactly where the tag
/// authenticates the ciphertext; where it does not, the result is
/// `AuthenticationFailure` and no plaintext is returned.
pub fn open_envelope(d: &DecodedEnvelope, data_key: &[u8]) -> (r: Result<Vec<u8>, ErrorKind>)
    requires
        d.well_sized(),
    ensures
        data_key@.len() != KEY_LEN ==> r == Err::<Vec<u8>, ErrorKind>(ErrorKind::KeyUnwrapError),
        data_key@.len() == KEY_LEN && d.tag@ != gcm_tag(data_key@, d.iv@, d.ciphertext@) ==> r
            == Err::<Vec<u8>, ErrorKind>(ErrorKind::AuthenticationFailure),
        data_key@.len() == KEY_LEN && d.tag@ == gcm_tag(data_key@, d.iv@, d.ciphertext@) ==> r is Ok,
        r is Ok ==> d.tag@ == gcm_tag(data_key@, d.iv@, d.ciphertext@),
        r is Ok ==> r->Ok_0@ == gcm_apply(data_key@, d.iv@, d.ciphertext@),
{
    if data_key.len() != KEY_LEN {
        return Err(ErrorKind::KeyUnwrapError);
    }
    match gcm_open(data_key, d.iv.as_slice(), d.ciphertext.as_slice(), d.tag.as_slice()) {
        Some(plain) => Ok(plain),
        None => Err(ErrorKind::AuthenticationFailure),
    }
}

} // verus!
