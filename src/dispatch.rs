//! The operation dispatcher. An operation runs in two steps around exactly one
//! call to the key service: `prepare` validates the request and says which
//! call to make (or fails before any call is made), and `complete` takes the
//! service's reply and finishes the operation. No state survives an
//! operation.
use vstd::prelude::*;
use crate::cipher::{
    ctr_apply, gcm_apply, gcm_tag, random_bytes, IV_LEN, KEY_LEN, MAX_CIPHER_INPUT, TAG_LEN,
};
use crate::codec::{
    base64_decoding, base64_text, encode_base64, is_base64_text, lemma_base64_round_trip,
};
use crate::envelope::{
    decode_envelope, envelope_is_well_formed, open_envelope, seal_envelope, DecodedEnvelope,
    Envelope,
};
use crate::error::{ErrorKind, OpError, Operation};
use crate::hybrid::{
    decode_hybrid, encode_hybrid, hybrid_is_well_formed, open_hybrid, seal_hybrid, DecodedHybrid,
    HybridEnvelope,
};
use crate::kms::{classify_fault, fault_kind, KmsCall, KmsReply, WrapScheme};
use crate::signing::{
    decode_signature, sign_form, sign_input_is_valid, sign_payload, signing_payload, SignInput,
};

verus! {

/// A request for one operation.
pub enum Request {
    EnvelopeEncrypt { message: Vec<u8> },
    EnvelopeDecrypt { envelope: Envelope },
    HybridEncrypt { message: Vec<u8> },
    HybridDecrypt { hybrid: HybridEnvelope },
    Sign { input: SignInput },
    Verify { input: SignInput, signature: String },
    Mac { message: Vec<u8> },
}

impl Request {
    pub open spec fn operation(&self) -> Operation {
        match self {
            Request::EnvelopeEncrypt { .. } => Operation::EnvelopeEncrypt,
            Request::EnvelopeDecrypt { .. } => Operation::EnvelopeDecrypt,
            Request::HybridEncrypt { .. } => Operation::HybridEncrypt,
            Request::HybridDecrypt { .. } => Operation::HybridDecrypt,
            Request::Sign { .. } => Operation::Sign,
            Request::Verify { .. } => Operation::Verify,
            Request::Mac { .. } => Operation::Mac,
        }
    }
}

/// The result of a successful operation.
pub enum Response {
    /// Envelope-Encrypt.
    Envelope { envelope: Envelope },
    /// Hybrid-Encrypt.
    Hybrid { hybrid: HybridEnvelope },
    /// Envelope-Decrypt and Hybrid-Decrypt: the recovered message.
    Message { message: Vec<u8> },
    /// Sign and MAC generation: base64 text of the signature or MAC.
    Signature { signature: String },
    /// Verify.
    Verified { valid: bool },
}

/// What an operation keeps between its call to the key service and the
/// reply. It never holds key material.
pub enum Pending {
    EnvelopeSeal { message: Vec<u8> },
    EnvelopeOpen { envelope: DecodedEnvelope },
    HybridSeal { ciphertext: Vec<u8>, iv: Vec<u8> },
    HybridOpen { hybrid: DecodedHybrid },
    Sign,
    Verify,
    Mac,
}

impl Pending {
    pub open spec fn operation(&self) -> Operation {
        match self {
            Pending::EnvelopeSeal { .. } => Operation::EnvelopeEncrypt,
            Pending::EnvelopeOpen { .. } => Operation::EnvelopeDecrypt,
            Pending::HybridSeal { .. } => Operation::HybridEncrypt,
            Pending::HybridOpen { .. } => Operation::HybridDecrypt,
            Pending::Sign => Operation::Sign,
            Pending::Verify => Operation::Verify,
            Pending::Mac => Operation::Mac,
        }
    }

    /// The sizes that `prepare` guarantees of what it keeps.
    pub open spec fn well_sized(&self) -> bool {
        match self {
            Pending::EnvelopeSeal { message } => message@.len() <= MAX_CIPHER_INPUT,
            Pending::EnvelopeOpen { envelope } => envelope.well_sized(),
            Pending::HybridSeal { iv, .. } => iv@.len() == IV_LEN,
            Pending::HybridOpen { hybrid } => hybrid.well_sized(),
            _ => true,
        }
    }
}

/// A validated request: the call to make, and what to keep until its reply.
pub struct Prepared {
    pub call: KmsCall,
    pub pending: Pending,
}

/// Whether `r` is the failure of `operation` with `kind`.
pub open spec fn failed<T>(r: Result<T, OpError>, operation: Operation, kind: ErrorKind) -> bool {
    r matches Err(e) && e == (OpError { operation, kind })
}

/// What `prepare` returns for `request` under `key_ref`. An empty key
/// reference, or a request that fails validation, ends the operation before
/// any call to the key service. In hybrid mode the key and IV are fresh
/// random values: the call wraps a 32-byte key, and the kept ciphertext is
/// the message under that key and a 16-byte IV.
pub open spec fn prepare_post(request: &Request, key_ref: Seq<char>, r: Result<Prepared, OpError>) -> bool {
    let op = request.operation();
    if key_ref.len() == 0 {
        failed(r, op, ErrorKind::KeyReferenceMissing)
    } else {
        match request {
            Request::EnvelopeEncrypt { message } => if message@.len() > MAX_CIPHER_INPUT {
                failed(r, op, ErrorKind::PayloadTooLarge)
            } else {
                &&& r matches Ok(p)
                &&& p.call matches KmsCall::GenerateDataKey { key_ref: k }
                &&& k@ == key_ref
                &&& p.pending matches Pending::EnvelopeSeal { message: m }
                &&& m@ == message@
            },
            Request::EnvelopeDecrypt { envelope } => if !envelope_is_well_formed(envelope) {
                failed(r, op, ErrorKind::InvalidRequest)
            } else if base64_decoding(envelope.ciphertext@).len() > MAX_CIPHER_INPUT {
                failed(r, op, ErrorKind::PayloadTooLarge)
            } else {
                &&& r matches Ok(p)
                &&& p.call matches KmsCall::Unwrap { key_ref: k, wrapped, scheme }
                &&& k@ == key_ref
                &&& wrapped@ == base64_decoding(envelope.encrypted_key@)
                &&& scheme == WrapScheme::DataKey
                &&& p.pending matches Pending::EnvelopeOpen { envelope: d }
                &&& d.ciphertext@ == base64_decoding(envelope.ciphertext@)
                &&& d.iv@ == base64_decoding(envelope.iv@)
                &&& d.tag@ == base64_decoding(envelope.tag@)
                &&& d.wrapped_key@ == base64_decoding(envelope.encrypted_key@)
            },
            Request::HybridEncrypt { message } => if message@.len() > MAX_CIPHER_INPUT {
                failed(r, op, ErrorKind::PayloadTooLarge)
            } else {
                ||| failed(r, op, ErrorKind::CipherFailure)
                ||| {
                    &&& r matches Ok(p)
                    &&& p.call matches KmsCall::Wrap { key_ref: k, plaintext }
                    &&& k@ == key_ref
                    &&& plaintext@.len() == KEY_LEN
                    &&& p.pending matches Pending::HybridSeal { ciphertext, iv }
                    &&& iv@.len() == IV_LEN
                    &&& ciphertext@ == ctr_apply(plaintext@, iv@, message@)
                }
            },
            Request::HybridDecrypt { hybrid } => if !hybrid_is_well_formed(hybrid) {
                failed(r, op, ErrorKind::InvalidRequest)
            } else if base64_decoding(hybrid.ciphertext@).len() > MAX_CIPHER_INPUT {
                failed(r, op, ErrorKind::PayloadTooLarge)
            } else {
                &&& r matches Ok(p)
                &&& p.call matches KmsCall::Unwrap { key_ref: k, wrapped, scheme }
                &&& k@ == key_ref
                &&& wrapped@ == base64_decoding(hybrid.encrypted_key@)
                &&& scheme == WrapScheme::RsaOaepSha256
                &&& p.pending matches Pending::HybridOpen { hybrid: d }
                &&& d.ciphertext@ == base64_decoding(hybrid.ciphertext@)
                &&& d.iv@ == base64_decoding(hybrid.iv@)
                &&& d.wrapped_key@ == base64_decoding(hybrid.encrypted_key@)
            },
            Request::Sign { input } => if !sign_input_is_valid(input) {
                failed(r, op, ErrorKind::InvalidRequest)
            } else {
                &&& r matches Ok(p)
                &&& p.call matches KmsCall::Sign { key_ref: k, payload, form }
                &&& k@ == key_ref
                &&& payload@ == sign_payload(input)
                &&& form == sign_form(input)
                &&& p.pending is Sign
            },
            Request::Verify { input, signature } => if !sign_input_is_valid(input)
                || !is_base64_text(signature@) {
                failed(r, op, ErrorKind::InvalidRequest)
            } else {
                &&& r matches Ok(p)
                &&& p.call matches KmsCall::Verify { key_ref: k, payload, signature: s, form }
                &&& k@ == key_ref
                &&& payload@ == sign_payload(input)
                &&& s@ == base64_decoding(signature@)
                &&& form == sign_form(input)
                &&& p.pending is Verify
            },
            Request::Mac { message } => {
                &&& r matches Ok(p)
                &&& p.call matches KmsCall::GenerateMac { key_ref: k, message: m }
                &&& k@ == key_ref
                &&& m@ == message@
                &&& p.pending is Mac
            },
        }
    }
}

fn fail<T>(operation: Operation, kind: ErrorKind) -> (r: Result<T, OpError>)
    ensures
        failed(r, operation, kind),
{
    Err(OpError { operation, kind })
}

/// The hybrid-mode encryption step with the key and IV given.
fn prepare_hybrid_seal(key_ref: String, message: &[u8], key: Vec<u8>, iv: Vec<u8>) -> (r: Result<
    Prepared,
    OpError,
>)
    requires
        key@.len() == KEY_LEN,
        iv@.len() == IV_LEN,
        message@.len() <= MAX_CIPHER_INPUT,
    ensures
        ({
            &&& r matches Ok(p)
            &&& p.call matches KmsCall::Wrap { key_ref: k, plaintext }
            &&& k@ == key_ref@
            &&& plaintext@ == key@
            &&& p.pending matches Pending::HybridSeal { ciphertext, iv: v }
            &&& v@ == iv@
            &&& ciphertext@ == ctr_apply(key@, iv@, message@)
        }),
{
    let ciphertext = seal_hybrid(message, key.as_slice(), iv.as_slice());
    Ok(
        Prepared {
            call: KmsCall::Wrap { key_ref, plaintext: key },
            pending: Pending::HybridSeal { ciphertext, iv },
        },
    )
}

/// Validates `request` and names the call to the key service it needs, under
/// the key reference `key_ref`; see `prepare_post`.
pub fn prepare(request: Request, key_ref: &str) -> (r: Result<Prepared, OpError>)
    ensures
        prepare_post(&request, key_ref@, r),
        r matches Ok(p) ==> p.pending.well_sized() && p.pending.operation() == request.operation(),
{
    if key_ref.is_empty() {
        return fail(operation_of(&request), ErrorKind::KeyReferenceMissing);
    }
    let k = key_ref.to_owned();
    match request {
        Request::EnvelopeEncrypt { message } => {
            if message.len() > MAX_CIPHER_INPUT {
                return fail(Operation::EnvelopeEncrypt, ErrorKind::PayloadTooLarge);
            }
            Ok(
                Prepared {
                    call: KmsCall::GenerateDataKey { key_ref: k },
                    pending: Pending::EnvelopeSeal { message },
                },
            )
        },
        Request::EnvelopeDecrypt { envelope } => match decode_envelope(&envelope) {
            Ok(d) => {
                let wrapped = d.wrapped_key.clone();
                Ok(
                    Prepared {
                        call: KmsCall::Unwrap { key_ref: k, wrapped, scheme: WrapScheme::DataKey },
                        pending: Pending::EnvelopeOpen { envelope: d },
                    },
                )
            },
            Err(kind) => fail(Operation::EnvelopeDecrypt, kind),
        },
        Request::HybridEncrypt { message } => {
            if message.len() > MAX_CIPHER_INPUT {
                return fail(Operation::HybridEncrypt, ErrorKind::PayloadTooLarge);
            }
            let key = match random_bytes(KEY_LEN) {
                Some(b) => b,
                None => return fail(Operation::HybridEncrypt, ErrorKind::CipherFailure),
            };
            let iv = match random_bytes(IV_LEN) {
                Some(b) => b,
                None => return fail(Operation::HybridEncrypt, ErrorKind::CipherFailure),
            };
            prepare_hybrid_seal(k, message.as_slice(), key, iv)
        },
        Request::HybridDecrypt { hybrid } => match decode_hybrid(&hybrid) {
            Ok(d) => {
                let wrapped = d.wrapped_key.clone();
                Ok(
                    Prepared {
                        call: KmsCall::Unwrap {
                            key_ref: k,
                            wrapped,
                            scheme: WrapScheme::RsaOaepSha256,
                        },
                        pending: Pending::HybridOpen { hybrid: d },
                    },
                )
            },
            Err(kind) => fail(Operation::HybridDecrypt, kind),
        },
        Request::Sign { input } => match signing_payload(&input) {
            Ok((payload, form)) => Ok(
                Prepared { call: KmsCall::Sign { key_ref: k, payload, form }, pending: Pending::Sign },
            ),
            Err(kind) => fail(Operation::Sign, kind),
        },
        Request::Verify { input, signature } => {
            let (payload, form) = match signing_payload(&input) {
                Ok(pf) => pf,
                Err(kind) => return fail(Operation::Verify, kind),
            };
            let signature = match decode_signature(signature.as_str()) {
                Ok(s) => s,
                Err(kind) => return fail(Operation::Verify, kind),
            };
            Ok(
                Prepared {
                    call: KmsCall::Verify { key_ref: k, payload, signature, form },
                    pending: Pending::Verify,
                },
            )
        },
        Request::Mac { message } => Ok(
            Prepared { call: KmsCall::GenerateMac { key_ref: k, message }, pending: Pending::Mac },
        ),
    }
}

/// What `complete` returns for `pending` and the service's `reply`. A fault
/// is classified by `fault_kind`; a reply that does not answer the call, or
/// that `pending` is not sized as `prepare` leaves it, counts as an unusable
/// answer of the service (`KmsUnavailable`). In envelope mode the IV is a
/// fresh random value.
pub open spec fn complete_post(pending: &Pending, reply: &KmsReply, r: Result<Response, OpError>) -> bool {
    let op = pending.operation();
    if reply is Fault {
        failed(r, op, fault_kind(reply->fault))
    } else if !pending.well_sized() {
        failed(r, op, ErrorKind::KmsUnavailable)
    } else {
        match pending {
            Pending::EnvelopeSeal { message } => match reply {
                KmsReply::DataKey { plaintext, wrapped } => if plaintext@.len() != KEY_LEN {
                    failed(r, op, ErrorKind::KmsUnavailable)
                } else {
                    ||| failed(r, op, ErrorKind::CipherFailure)
                    ||| {
                        &&& r matches Ok(Response::Envelope { envelope: e })
                        &&& is_base64_text(e.iv@)
                        &&& base64_decoding(e.iv@).len() == IV_LEN
                        &&& e.ciphertext@ == base64_text(
                            gcm_apply(plaintext@, base64_decoding(e.iv@), message@),
                        )
                        &&& e.tag@ == base64_text(
                            gcm_tag(
                                plaintext@,
                                base64_decoding(e.iv@),
                                gcm_apply(plaintext@, base64_decoding(e.iv@), message@),
                            ),
                        )
                        &&& gcm_tag(
                            plaintext@,
                            base64_decoding(e.iv@),
                            gcm_apply(plaintext@, base64_decoding(e.iv@), message@),
                        ).len() == TAG_LEN
                        &&& e.encrypted_key@ == base64_text(wrapped@)
                    }
                },
                _ => failed(r, op, ErrorKind::KmsUnavailable),
            },
            Pending::EnvelopeOpen { envelope: d } => match reply {
                KmsReply::Unwrapped { plaintext } => if plaintext@.len() != KEY_LEN {
                    failed(r, op, ErrorKind::KeyUnwrapError)
                } else if d.tag@ != gcm_tag(plaintext@, d.iv@, d.ciphertext@) {
                    failed(r, op, ErrorKind::AuthenticationFailure)
                } else {
                    &&& r matches Ok(Response::Message { message: m })
                    &&& m@ == gcm_apply(plaintext@, d.iv@, d.ciphertext@)
                },
                _ => failed(r, op, ErrorKind::KmsUnavailable),
            },
            Pending::HybridSeal { ciphertext, iv } => match reply {
                KmsReply::Wrapped { ciphertext: w } => {
                    &&& r matches Ok(Response::Hybrid { hybrid: e })
                    &&& e.ciphertext@ == base64_text(ciphertext@)
                    &&& e.iv@ == base64_text(iv@)
                    &&& e.encrypted_key@ == base64_text(w@)
                },
                _ => failed(r, op, ErrorKind::KmsUnavailable),
            },
            Pending::HybridOpen { hybrid: d } => match reply {
                KmsReply::Unwrapped { plaintext } => if plaintext@.len() != KEY_LEN {
                    failed(r, op, ErrorKind::KeyUnwrapError)
                } else {
                    &&& r matches Ok(Response::Message { message: m })
                    &&& m@ == ctr_apply(plaintext@, d.iv@, d.ciphertext@)
                },
                _ => failed(r, op, ErrorKind::KmsUnavailable),
            },
            Pending::Sign => match reply {
                KmsReply::Signature { signature } => {
                    &&& r matches Ok(Response::Signature { signature: s })
                    &&& s@ == base64_text(signature@)
                },
                _ => failed(r, op, ErrorKind::KmsUnavailable),
            },
            Pending::Verify => match reply {
                KmsReply::Verdict { valid } => r matches Ok(Response::Verified { valid: v }) && v
                    == valid,
                _ => failed(r, op, ErrorKind::KmsUnavailable),
            },
            Pending::Mac => match reply {
                KmsReply::Mac { mac } => {
                    &&& r matches Ok(Response::Signature { signature: s })
                    &&& s@ == base64_text(mac@)
                },
                _ => failed(r, op, ErrorKind::KmsUnavailable),
            },
        }
    }
}

/// Whether `pending` is sized as `prepare` leaves it.
fn pending_well_sized(pending: &Pending) -> (b: bool)
    ensures
        b == pending.well_sized(),
{
    match pending {
        Pending::EnvelopeSeal { message } => message.len() <= MAX_CIPHER_INPUT,
        Pending::EnvelopeOpen { envelope } => envelope.iv.len() == IV_LEN && envelope.tag.len()
            == TAG_LEN && envelope.ciphertext.len() <= MAX_CIPHER_INPUT,
        Pending::HybridSeal { iv, .. } => iv.len() == IV_LEN,
        Pending::HybridOpen { hybrid } => hybrid.iv.len() == IV_LEN && hybrid.ciphertext.len()
            <= MAX_CIPHER_INPUT,
        _ => true,
    }
}

/// The operation that `pending` belongs to.
pub fn pending_operation(pending: &Pending) -> (op: Operation)
    ensures
        op == pending.operation(),
{
    match pending {
        Pending::EnvelopeSeal { .. } => Operation::EnvelopeEncrypt,
        Pending::EnvelopeOpen { .. } => Operation::EnvelopeDecrypt,
        Pending::HybridSeal { .. } => Operation::HybridEncrypt,
        Pending::HybridOpen { .. } => Operation::HybridDecrypt,
        Pending::Sign => Operation::Sign,
        Pending::Verify => Operation::Verify,
        Pending::Mac => Operation::Mac,
    }
}

/// The envelope-mode encryption step with the IV given.
fn complete_envelope_seal(message: &[u8], data_key: &[u8], wrapped: &[u8], iv: &[u8]) -> (r:
    Result<Response, OpError>)
    requires
        message@.len() <= MAX_CIPHER_INPUT,
        data_key@.len() == KEY_LEN,
        iv@.len() == IV_LEN,
    ensures
        ({
            &&& r matches Ok(Response::Envelope { envelope: e })
            &&& e.iv@ == base64_text(iv@)
            &&& e.ciphertext@ == base64_text(gcm_apply(data_key@, iv@, message@))
            &&& e.tag@ == base64_text(gcm_tag(data_key@, iv@, gcm_apply(data_key@, iv@, message@)))
            &&& gcm_tag(data_key@, iv@, gcm_apply(data_key@, iv@, message@)).len() == TAG_LEN
            &&& e.encrypted_key@ == base64_text(wrapped@)
        }),
{
    match seal_envelope(message, data_key, wrapped, iv) {
        Ok(envelope) => Ok(Response::Envelope { envelope }),
        Err(kind) => fail(Operation::EnvelopeEncrypt, kind),
    }
}

/// Finishes the operation that `pending` belongs to with the service's
/// `reply`; see `complete_post`.
pub fn complete(pending: Pending, reply: KmsReply) -> (r: Result<Response, OpError>)
    ensures
        complete_post(&pending, &reply, r),
{
    let op = pending_operation(&pending);
    if let KmsReply::Fault { fault } = reply {
        return fail(op, classify_fault(fault));
    }
    if !pending_well_sized(&pending) {
        return fail(op, ErrorKind::KmsUnavailable);
    }
    match pending {
        Pending::EnvelopeSeal { message } => match reply {
            KmsReply::DataKey { plaintext, wrapped } => {
                if plaintext.len() != KEY_LEN {
                    return fail(op, ErrorKind::KmsUnavailable);
                }
                let iv = match random_bytes(IV_LEN) {
                    Some(b) => b,
                    None => return fail(op, ErrorKind::CipherFailure),
                };
                let r = complete_envelope_seal(
                    message.as_slice(),
                    plaintext.as_slice(),
                    wrapped.as_slice(),
                    iv.as_slice(),
                );
                proof {
                    match r {
                        Ok(Response::Envelope { envelope: ref e }) => {
                            lemma_base64_round_trip(iv@, base64_decoding(e.iv@));
                        },
                        _ => {},
                    }
                }
                r
            },
            _ => fail(op, ErrorKind::KmsUnavailable),
        },
        Pending::EnvelopeOpen { envelope } => match reply {
            KmsReply::Unwrapped { plaintext } => match open_envelope(&envelope, plaintext.as_slice()) {
                Ok(message) => Ok(Response::Message { message }),
                Err(kind) => fail(op, kind),
            },
            _ => fail(op, ErrorKind::KmsUnavailable),
        },
        Pending::HybridSeal { ciphertext, iv } => match reply {
            KmsReply::Wrapped { ciphertext: wrapped } => Ok(
                Response::Hybrid {
                    hybrid: encode_hybrid(ciphertext.as_slice(), iv.as_slice(), wrapped.as_slice()),
                },
            ),
            _ => fail(op, ErrorKind::KmsUnavailable),
        },
        Pending::HybridOpen { hybrid } => match reply {
            KmsReply::Unwrapped { plaintext } => match open_hybrid(&hybrid, plaintext.as_slice()) {
                Ok(message) => Ok(Response::Message { message }),
                Err(kind) => fail(op, kind),
            },
            _ => fail(op, ErrorKind::KmsUnavailable),
        },
        Pending::Sign => match reply {
            KmsReply::Signature { signature } => Ok(
                Response::Signature { signature: encode_base64(signature.as_slice()) },
            ),
            _ => fail(op, ErrorKind::KmsUnavailable),
        },
        Pending::Verify => match reply {
            KmsReply::Verdict { valid } => Ok(Response::Verified { valid }),
            _ => fail(op, ErrorKind::KmsUnavailable),
        },
        Pending::Mac => match reply {
            KmsReply::Mac { mac } => Ok(Response::Signature { signature: encode_base64(mac.as_slice()) }),
            _ => fail(op, ErrorKind::KmsUnavailable),
        },
    }
}

/// The operation that `request` asks for.
pub fn operation_of(request: &Request) -> (op: Operation)
    ensures
        op == request.operation(),
{
    match request {
        Request::EnvelopeEncrypt { .. } => Operation::EnvelopeEncrypt,
        Request::EnvelopeDecrypt { .. } => Operation::EnvelopeDecrypt,
        Request::HybridEncrypt { .. } => Operation::HybridEncrypt,
        Request::HybridDecrypt { .. } => Operation::HybridDecrypt,
        Request::Sign { .. } => Operation::Sign,
        Request::Verify { .. } => Operation::Verify,
        Request::Mac { .. } => Operation::Mac,
    }
}

} // verus!
