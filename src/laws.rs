//! Properties of the protocol that relate several steps: round trips through
//! both encryption modes, how each mode answers tampering, the checks made
//! before any call to the key service, and how signatures travel.
use vstd::prelude::*;
use crate::cipher::{
    ctr_apply, ctr_keystream, gcm_apply, gcm_tag, lemma_ctr_involution, lemma_gcm_involution, KEY_LEN,
    MAX_CIPHER_INPUT,
};
use crate::codec::{
    base64_decoding, hex_bytes, is_base64_text, is_hex_text,
    lemma_base64_decoding_of_text, DIGEST_LEN,
};
use crate::dispatch::{
    complete_post, failed, prepare_post, Pending, Prepared, Request, Response,
};
use crate::envelope::{DecodedEnvelope, Envelope};
use crate::error::{ErrorKind, OpError, Operation};
use crate::hybrid::{DecodedHybrid, HybridEnvelope};
use crate::kms::{KmsCall, KmsReply, MessageForm, WrapScheme};
use crate::signing::{sign_form, sign_payload, SignInput};

verus! {

/// `s` with bit `j` flipped (bit `j % 8` of byte `j / 8`).
pub open spec fn flip_bit(s: Seq<u8>, j: int) -> Seq<u8> {
    s.update(j / 8, s[j / 8] ^ (1u8 << ((j % 8) as u8)))
}

proof fn lemma_flip_bit_changes(s: Seq<u8>, j: int)
    requires
        0 <= j < 8 * s.len(),
    ensures
        flip_bit(s, j) != s,
        flip_bit(s, j).len() == s.len(),
{
    let b = s[j / 8];
    let k = (j % 8) as u8;
    assert(b ^ (1u8 << k) != b) by (bit_vector)
        requires
            k < 8,
    ;
    assert(flip_bit(s, j)[j / 8] != s[j / 8]);
}

/// Envelope round trip. Whatever message Envelope-Encrypt seals under a data
/// key and its wrapped form, Envelope-Decrypt of the resulting envelope asks
/// the service to unwrap exactly that wrapped form; and when the service
/// gives back the same data key (the same key reference, or one resolving to
/// the same key), the tag check passes and decryption returns the original
/// message.
pub proof fn lemma_envelope_round_trip(
    message: Vec<u8>,
    data_key: Vec<u8>,
    wrapped: Vec<u8>,
    envelope: Envelope,
    key_ref: Seq<char>,
    prepared: Result<Prepared, OpError>,
    opened: Result<Response, OpError>,
)
    requires
        message@.len() <= MAX_CIPHER_INPUT,
        complete_post(
            &Pending::EnvelopeSeal { message },
            &KmsReply::DataKey { plaintext: data_key, wrapped },
            Ok(Response::Envelope { envelope }),
        ),
        key_ref.len() > 0,
        prepare_post(&Request::EnvelopeDecrypt { envelope }, key_ref, prepared),
        prepared is Ok ==> complete_post(
            &prepared->Ok_0.pending,
            &KmsReply::Unwrapped { plaintext: data_key },
            opened,
        ),
    ensures
        prepared is Ok,
        prepared->Ok_0.call matches KmsCall::Unwrap { wrapped: w, scheme, .. } && w@ == wrapped@
            && scheme == WrapScheme::DataKey,
        opened matches Ok(Response::Message { message: m }) && m@ == message@,
{
    let iv = base64_decoding(envelope.iv@);
    let k = data_key@;
    let c = gcm_apply(k, iv, message@);
    lemma_base64_decoding_of_text(c);
    lemma_base64_decoding_of_text(gcm_tag(k, iv, c));
    lemma_base64_decoding_of_text(wrapped@);
    lemma_gcm_involution(k, iv, message@);
}

/// Hybrid round trip. Whatever message Hybrid-Encrypt seals, with whatever
/// fresh key, Hybrid-Decrypt of the result asks the service to unwrap exactly
/// the wrapped key; and when the service gives back that key, decryption
/// returns the original message.
pub proof fn lemma_hybrid_round_trip(
    message: Vec<u8>,
    key_ref: Seq<char>,
    sealing: Prepared,
    wrapped: Vec<u8>,
    hybrid: HybridEnvelope,
    prepared: Result<Prepared, OpError>,
    opened: Result<Response, OpError>,
)
    requires
        prepare_post(&Request::HybridEncrypt { message }, key_ref, Ok(sealing)),
        complete_post(
            &sealing.pending,
            &KmsReply::Wrapped { ciphertext: wrapped },
            Ok(Response::Hybrid { hybrid }),
        ),
        prepare_post(&Request::HybridDecrypt { hybrid }, key_ref, prepared),
        prepared is Ok && sealing.call is Wrap ==> complete_post(
            &prepared->Ok_0.pending,
            &KmsReply::Unwrapped { plaintext: sealing.call->plaintext },
            opened,
        ),
    ensures
        sealing.call is Wrap,
        prepared is Ok,
        prepared->Ok_0.call matches KmsCall::Unwrap { wrapped: w, scheme, .. } && w@ == wrapped@
            && scheme == WrapScheme::RsaOaepSha256,
        opened matches Ok(Response::Message { message: m }) && m@ == message@,
{
    let key = sealing.call->plaintext@;
    let iv = sealing.pending->iv@;
    let c = sealing.pending->ciphertext@;
    lemma_base64_decoding_of_text(c);
    lemma_base64_decoding_of_text(iv);
    lemma_base64_decoding_of_text(wrapped@);
    lemma_ctr_involution(key, iv, message@);
}

/// Envelope mode detects a tampered tag: where the ciphertext is authentic
/// and the tag has any one bit flipped, decryption fails with
/// `AuthenticationFailure`, whatever else happens.
pub proof fn lemma_envelope_tag_tamper(
    decoded: DecodedEnvelope,
    data_key: Vec<u8>,
    authentic: Seq<u8>,
    j: int,
    opened: Result<Response, OpError>,
)
    requires
        decoded.well_sized(),
        data_key@.len() == KEY_LEN,
        authentic == gcm_tag(data_key@, decoded.iv@, decoded.ciphertext@),
        0 <= j < 8 * authentic.len(),
        decoded.tag@ == flip_bit(authentic, j),
        complete_post(
            &Pending::EnvelopeOpen { envelope: decoded },
            &KmsReply::Unwrapped { plaintext: data_key },
            opened,
        ),
    ensures
        failed(opened, Operation::EnvelopeDecrypt, ErrorKind::AuthenticationFailure),
{
    lemma_flip_bit_changes(authentic, j);
}

/// Envelope mode detects a tampered ciphertext: where the tag is authentic
/// for a ciphertext and the ciphertext has any one bit flipped, decryption
/// fails with `AuthenticationFailure`. The one exception is a forgery, where
/// the tag of the altered ciphertext equals the original tag.
pub proof fn lemma_envelope_ciphertext_tamper(
    decoded: DecodedEnvelope,
    data_key: Vec<u8>,
    authentic: Seq<u8>,
    j: int,
    opened: Result<Response, OpError>,
)
    requires
        decoded.well_sized(),
        data_key@.len() == KEY_LEN,
        0 <= j < 8 * authentic.len(),
        decoded.ciphertext@ == flip_bit(authentic, j),
        decoded.tag@ == gcm_tag(data_key@, decoded.iv@, authentic),
        gcm_tag(data_key@, decoded.iv@, flip_bit(authentic, j)) != gcm_tag(
            data_key@,
            decoded.iv@,
            authentic,
        ),
        complete_post(
            &Pending::EnvelopeOpen { envelope: decoded },
            &KmsReply::Unwrapped { plaintext: data_key },
            opened,
        ),
    ensures
        failed(opened, Operation::EnvelopeDecrypt, ErrorKind::AuthenticationFailure),
{
}

/// Envelope mode never returns a message that the tag does not vouch for:
/// whatever the envelope holds, a decrypted message is the decryption of a
/// ciphertext whose tag, under the unwrapped key and the IV, is the one
/// presented.
pub proof fn lemma_envelope_open_is_authenticated(
    decoded: DecodedEnvelope,
    data_key: Vec<u8>,
    opened: Result<Response, OpError>,
)
    requires
        decoded.well_sized(),
        complete_post(
            &Pending::EnvelopeOpen { envelope: decoded },
            &KmsReply::Unwrapped { plaintext: data_key },
            opened,
        ),
        opened is Ok,
    ensures
        data_key@.len() == KEY_LEN,
        decoded.tag@ == gcm_tag(data_key@, decoded.iv@, decoded.ciphertext@),
        opened matches Ok(Response::Message { message: m }) && m@ == gcm_apply(
            data_key@,
            decoded.iv@,
            decoded.ciphertext@,
        ),
{
}

/// Hybrid mode does not detect tampering (counter mode has no tag): where
/// the ciphertext of a message has one bit flipped, decryption succeeds and
/// returns the original message with that same bit flipped.
pub proof fn lemma_hybrid_tamper_undetected(
    decoded: DecodedHybrid,
    key: Vec<u8>,
    message: Seq<u8>,
    j: int,
    opened: Result<Response, OpError>,
)
    requires
        decoded.well_sized(),
        key@.len() == KEY_LEN,
        0 <= j < 8 * message.len(),
        decoded.ciphertext@ == flip_bit(ctr_apply(key@, decoded.iv@, message), j),
        complete_post(
            &Pending::HybridOpen { hybrid: decoded },
            &KmsReply::Unwrapped { plaintext: key },
            opened,
        ),
    ensures
        opened matches Ok(Response::Message { message: m }) && m@ == flip_bit(message, j) && m@
            != message,
{
    let k = key@;
    let iv = decoded.iv@;
    let c = ctr_apply(k, iv, message);
    let out = ctr_apply(k, iv, decoded.ciphertext@);
    let want = flip_bit(message, j);
    let p = j / 8;
    let mask = 1u8 << ((j % 8) as u8);
    assert forall|i: int| 0 <= i < message.len() implies out[i] == want[i] by {
        let ks = ctr_keystream(k, iv, i as nat);
        let d = message[i];
        if i == p {
            assert(((d ^ ks) ^ mask) ^ ks == d ^ mask) by (bit_vector);
        } else {
            assert((d ^ ks) ^ ks == d) by (bit_vector);
        }
    }
    assert(out =~= want);
    lemma_flip_bit_changes(message, j);
}

/// A digest that is not hexadecimal text of exactly 32 bytes is rejected
/// with `InvalidRequest` before any call to the key service, for signing and
/// for verification alike.
pub proof fn lemma_digest_checked_before_call(
    digest: String,
    signature: String,
    key_ref: Seq<char>,
    signed: Result<Prepared, OpError>,
    verified: Result<Prepared, OpError>,
)
    requires
        key_ref.len() > 0,
        !(is_hex_text(digest@) && hex_bytes(digest@).len() == DIGEST_LEN),
        prepare_post(&Request::Sign { input: SignInput::DigestHex { digest } }, key_ref, signed),
        prepare_post(
            &Request::Verify { input: SignInput::DigestHex { digest }, signature },
            key_ref,
            verified,
        ),
    ensures
        failed(signed, Operation::Sign, ErrorKind::InvalidRequest),
        failed(verified, Operation::Verify, ErrorKind::InvalidRequest),
{
}

/// In hybrid mode the service only ever wraps the 32-byte AES key, so the
/// length of the message has no bearing on the wrap call.
pub proof fn lemma_hybrid_wraps_only_the_key(
    message: Vec<u8>,
    key_ref: Seq<char>,
    prepared: Result<Prepared, OpError>,
)
    requires
        prepare_post(&Request::HybridEncrypt { message }, key_ref, prepared),
        prepared is Ok,
    ensures
        prepared->Ok_0.call matches KmsCall::Wrap { plaintext, .. } && plaintext@.len() == KEY_LEN,
{
}

/// Signatures travel unchanged: the signature that Sign returns, given back
/// to Verify with the same input, reaches the service as exactly the bytes
/// the service produced, over exactly the payload that was signed and in
/// the same form; and Verify reports the service's verdict as it is.
pub proof fn lemma_sign_then_verify(
    input: SignInput,
    key_ref: Seq<char>,
    signing: Prepared,
    signature: Vec<u8>,
    signature_text: String,
    verifying: Result<Prepared, OpError>,
    valid: bool,
    verdict: Result<Response, OpError>,
)
    requires
        prepare_post(&Request::Sign { input }, key_ref, Ok(signing)),
        complete_post(
            &Pending::Sign,
            &KmsReply::Signature { signature },
            Ok(Response::Signature { signature: signature_text }),
        ),
        prepare_post(&Request::Verify { input, signature: signature_text }, key_ref, verifying),
        complete_post(&Pending::Verify, &KmsReply::Verdict { valid }, verdict),
    ensures
        signing.call matches KmsCall::Sign { payload, form, .. } && payload@ == sign_payload(&input)
            && form == sign_form(&input),
        verifying matches Ok(p) && p.call matches KmsCall::Verify { payload, signature: s, form, .. }
            && payload@ == sign_payload(&input) && s@ == signature@ && form == sign_form(&input),
        verdict == Ok::<Response, OpError>(Response::Verified { valid }),
{
    lemma_base64_decoding_of_text(signature@);
}

/// Verification of a message other than the signed one presents the service
/// with the other message, never with the signed one.
pub proof fn lemma_verify_other_message(
    message: Vec<u8>,
    other: Vec<u8>,
    signature_text: String,
    key_ref: Seq<char>,
    verifying: Result<Prepared, OpError>,
)
    requires
        other@ != message@,
        prepare_post(
            &Request::Verify { input: SignInput::Message { message: other }, signature: signature_text },
            key_ref,
            verifying,
        ),
    ensures
        verifying matches Ok(p) ==> p.call matches KmsCall::Verify { payload, form, .. } && payload@
            != message@ && form == MessageForm::Raw,
{
}

/// A signature that is not base64 text makes Verify fail with
/// `InvalidRequest` before any call, rather than report it invalid.
pub proof fn lemma_verify_rejects_bad_signature(
    input: SignInput,
    signature_text: String,
    key_ref: Seq<char>,
    verifying: Result<Prepared, OpError>,
)
    requires
        key_ref.len() > 0,
        !is_base64_text(signature_text@),
        prepare_post(&Request::Verify { input, signature: signature_text }, key_ref, verifying),
    ensures
        failed(verifying, Operation::Verify, ErrorKind::InvalidRequest),
{
}

} // verus!
