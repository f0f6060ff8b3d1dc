//! Signing, verification and MAC generation. The key service does all the
//! cryptography; this side only validates and encodes. Digests are checked
//! to be exactly 32 bytes, and signatures to be base64, before any call.
use vstd::prelude::*;
use crate::codec::{
    base64_decoding, hex_bytes, is_base64_text, is_hex_text, decode_base64, parse_digest_hex,
    DIGEST_LEN,
};
use crate::error::ErrorKind;
use crate::kms::MessageForm;

verus! {

/// What is signed or verified: the message itself, or its SHA-256 digest in
/// hexadecimal.
pub enum SignInput {
    Message { message: Vec<u8> },
    DigestHex { digest: String },
}

/// Whether `input` can be signed: a message always can, a digest only where it
/// is hexadecimal text of exactly 32 bytes.
pub open spec fn sign_input_is_valid(input: &SignInput) -> bool {
    match input {
        SignInput::Message { .. } => true,
        SignInput::DigestHex { digest } => is_hex_text(digest@) && hex_bytes(digest@).len()
            == DIGEST_LEN,
    }
}

/// The bytes handed to the key service for `input`.
pub open spec fn sign_payload(input: &SignInput) -> Seq<u8> {
    match input {
        SignInput::Message { message } => message@,
        SignInput::DigestHex { digest } => hex_bytes(digest@),
    }
}

/// The form in which `input` reaches the key service.
pub open spec fn sign_form(input: &SignInput) -> MessageForm {
    match input {
        SignInput::Message { .. } => MessageForm::Raw,
        SignInput::DigestHex { .. } => MessageForm::Digest,
    }
}

/// The payload and its form for a sign or verify call; `InvalidRequest` for a
/// digest that is not hexadecimal text of exactly 32 bytes.
pub fn signing_payload(input: &SignInput) -> (r: Result<(Vec<u8>, MessageForm), ErrorKind>)
    ensures
        r is Ok <==> sign_input_is_valid(input),
        r is Err ==> r->Err_0 == ErrorKind::InvalidRequest,
        r matches Ok((p, f)) ==> p@ == sign_payload(input) && f == sign_form(input),
{
    match input {
        SignInput::Message { message } => Ok((message.clone(), MessageForm::Raw)),
        SignInput::DigestHex { digest } => match parse_digest_hex(digest.as_str()) {
            Some(d) => Ok((d, MessageForm::Digest)),
            None => Err(ErrorKind::InvalidRequest),
        },
    }
}

/// Decodes a base64 signature; `InvalidRequest` where it is not base64 text
/// (such a signature is never reported as merely invalid).
pub fn decode_signature(signature: &str) -> (r: Result<Vec<u8>, ErrorKind>)
    ensures
        r is Ok <==> is_base64_text(signature@),
        r is Ok ==> r->Ok_0@ == base64_decoding(signature@),
        r is Err ==> r->Err_0 == ErrorKind::InvalidRequest,
{
    match decode_base64(signature) {
        Some(s) => Ok(s),
        None => Err(ErrorKind::InvalidRequest),
    }
}

} // verus!
