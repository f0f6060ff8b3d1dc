use std::collections::HashMap;

use kms_crypto::codec::{decode_base64, encode_base64};
use kms_crypto::dispatch::{complete, prepare, Pending, Prepared, Request, Response};
use kms_crypto::envelope::{Envelope, DecodedEnvelope};
use kms_crypto::error::{ErrorKind, OpError, Operation};
use kms_crypto::hybrid::HybridEnvelope;
use kms_crypto::kms::{KmsCall, KmsFault, KmsReply, MessageForm, WrapScheme};
use kms_crypto::signing::SignInput;

use openssl::ec::{EcGroup, EcKey};
use openssl::ecdsa::EcdsaSig;
use openssl::hash::MessageDigest;
use openssl::nid::Nid;
use openssl::pkey::{PKey, Private};
use openssl::sign::Signer;
use openssl::symm::{decrypt_aead, encrypt_aead, Cipher};

/// An in-memory key service doing real cryptography, one root key per known
/// key reference.
struct FakeKms {
    roots: HashMap<String, [u8; 32]>,
    signing: HashMap<String, EcKey<Private>>,
    calls: usize,
    wrapped_sizes: Vec<usize>,
}

impl FakeKms {
    fn new(refs: &[&str]) -> FakeKms {
        let mut roots = HashMap::new();
        let mut signing = HashMap::new();
        let group = EcGroup::from_curve_name(Nid::X9_62_PRIME256V1).unwrap();
        for r in refs {
            roots.insert(r.to_string(), openssl::sha::sha256(r.as_bytes()));
            signing.insert(r.to_string(), EcKey::generate(&group).unwrap());
        }
        FakeKms { roots, signing, calls: 0, wrapped_sizes: vec![] }
    }

    fn wrap(root: &[u8; 32], plaintext: &[u8]) -> Vec<u8> {
        let mut iv = [0u8; 12];
        openssl::rand::rand_bytes(&mut iv).unwrap();
        let mut tag = [0u8; 16];
        let ct = encrypt_aead(Cipher::aes_256_gcm(), root, Some(&iv), &[], plaintext, &mut tag)
            .unwrap();
        let mut out = iv.to_vec();
        out.extend_from_slice(&tag);
        out.extend_from_slice(&ct);
        out
    }

    fn unwrap(root: &[u8; 32], wrapped: &[u8]) -> Option<Vec<u8>> {
        if wrapped.len() < 28 {
            return None;
        }
        let (iv, rest) = wrapped.split_at(12);
        let (tag, ct) = rest.split_at(16);
        decrypt_aead(Cipher::aes_256_gcm(), root, Some(iv), &[], ct, tag).ok()
    }

    fn handle(&mut self, call: KmsCall) -> KmsReply {
        self.calls += 1;
        let fault = KmsReply::Fault { fault: KmsFault::KeyNotFound };
        match call {
            KmsCall::GenerateDataKey { key_ref } => match self.roots.get(&key_ref) {
                Some(root) => {
                    let mut key = vec![0u8; 32];
                    openssl::rand::rand_bytes(&mut key).unwrap();
                    let wrapped = FakeKms::wrap(root, &key);
                    KmsReply::DataKey { plaintext: key, wrapped }
                }
                None => fault,
            },
            KmsCall::Unwrap { key_ref, wrapped, .. } => match self.roots.get(&key_ref) {
                Some(root) => match FakeKms::unwrap(root, &wrapped) {
                    Some(plaintext) => KmsReply::Unwrapped { plaintext },
                    None => KmsReply::Fault { fault: KmsFault::InvalidCiphertext },
                },
                None => fault,
            },
            KmsCall::Wrap { key_ref, plaintext } => match self.roots.get(&key_ref) {
                Some(root) => {
                    self.wrapped_sizes.push(plaintext.len());
                    if plaintext.len() > 190 {
                        KmsReply::Fault { fault: KmsFault::PayloadTooLarge }
                    } else {
                        KmsReply::Wrapped { ciphertext: FakeKms::wrap(root, &plaintext) }
                    }
                }
                None => fault,
            },
            KmsCall::Sign { key_ref, payload, form } => match self.signing.get(&key_ref) {
                Some(key) => {
                    let digest = match form {
                        MessageForm::Raw => openssl::sha::sha256(&payload).to_vec(),
                        MessageForm::Digest => payload,
                    };
                    let sig = EcdsaSig::sign(&digest, key).unwrap();
                    KmsReply::Signature { signature: sig.to_der().unwrap() }
                }
                None => fault,
            },
            KmsCall::Verify { key_ref, payload, signature, form } => {
                match self.signing.get(&key_ref) {
                    Some(key) => {
                        let digest = match form {
                            MessageForm::Raw => openssl::sha::sha256(&payload).to_vec(),
                            MessageForm::Digest => payload,
                        };
                        let valid = match EcdsaSig::from_der(&signature) {
                            Ok(sig) => sig.verify(&digest, key).unwrap_or(false),
                            Err(_) => false,
                        };
                        KmsReply::Verdict { valid }
                    }
                    None => fault,
                }
            }
            KmsCall::GenerateMac { key_ref, message } => match self.roots.get(&key_ref) {
                Some(root) => {
                    let pkey = PKey::hmac(root).unwrap();
                    let mut signer = Signer::new(MessageDigest::sha256(), &pkey).unwrap();
                    KmsReply::Mac { mac: signer.sign_oneshot_to_vec(&message).unwrap() }
                }
                None => fault,
            },
        }
    }
}

fn run(kms: &mut FakeKms, request: Request, key_ref: &str) -> Result<Response, OpError> {
    let Prepared { call, pending } = prepare(request, key_ref)?;
    let reply = kms.handle(call);
    complete(pending, reply)
}

fn envelope_encrypt(kms: &mut FakeKms, message: &[u8], key_ref: &str) -> Envelope {
    match run(kms, Request::EnvelopeEncrypt { message: message.to_vec() }, key_ref) {
        Ok(Response::Envelope { envelope }) => envelope,
        _ => panic!("envelope encryption failed"),
    }
}

fn hybrid_encrypt(kms: &mut FakeKms, message: &[u8], key_ref: &str) -> HybridEnvelope {
    match run(kms, Request::HybridEncrypt { message: message.to_vec() }, key_ref) {
        Ok(Response::Hybrid { hybrid }) => hybrid,
        _ => panic!("hybrid encryption failed"),
    }
}

fn copy_envelope(e: &Envelope) -> Envelope {
    Envelope {
        ciphertext: e.ciphertext.clone(),
        iv: e.iv.clone(),
        tag: e.tag.clone(),
        encrypted_key: e.encrypted_key.clone(),
    }
}

fn flip_bit_in_field(field: &str, bit: usize) -> String {
    let mut bytes = decode_base64(field).unwrap();
    bytes[bit / 8] ^= 1 << (bit % 8);
    encode_base64(&bytes)
}

fn decrypted(r: Result<Response, OpError>) -> Vec<u8> {
    match r {
        Ok(Response::Message { message }) => message,
        _ => panic!("decryption failed"),
    }
}

fn kind_of(r: Result<Response, OpError>) -> ErrorKind {
    match r {
        Err(e) => e.kind,
        Ok(_) => panic!("operation succeeded"),
    }
}

fn sign(kms: &mut FakeKms, input: SignInput, key_ref: &str) -> String {
    match run(kms, Request::Sign { input }, key_ref) {
        Ok(Response::Signature { signature }) => signature,
        _ => panic!("signing failed"),
    }
}

fn verify(kms: &mut FakeKms, input: SignInput, signature: &str, key_ref: &str) -> Result<Response, OpError> {
    run(kms, Request::Verify { input, signature: signature.to_string() }, key_ref)
}

fn raw(m: &[u8]) -> SignInput {
    SignInput::Message { message: m.to_vec() }
}

#[test]
fn envelope_round_trip() {
    let mut kms = FakeKms::new(&["K1"]);
    for m in [&b""[..], b"a", b"hello", &[0u8, 255, 7, 9, 100][..], &vec![42u8; 5000][..]] {
        let e = envelope_encrypt(&mut kms, m, "K1");
        assert_eq!(decode_base64(&e.iv).unwrap().len(), 16);
        assert_eq!(decode_base64(&e.tag).unwrap().len(), 16);
        assert_eq!(decode_base64(&e.ciphertext).unwrap().len(), m.len());
        let out = run(&mut kms, Request::EnvelopeDecrypt { envelope: e }, "K1");
        assert_eq!(decrypted(out), m.to_vec());
    }
}

#[test]
fn envelope_ciphertext_hides_message() {
    let mut kms = FakeKms::new(&["K1"]);
    let e = envelope_encrypt(&mut kms, b"attack at dawn", "K1");
    assert_ne!(decode_base64(&e.ciphertext).unwrap(), b"attack at dawn".to_vec());
    let e2 = envelope_encrypt(&mut kms, b"attack at dawn", "K1");
    assert_ne!(e.iv, e2.iv);
}

#[test]
fn hybrid_round_trip() {
    let mut kms = FakeKms::new(&["R1"]);
    for m in [&b""[..], b"x", b"hello world", &vec![3u8; 10000][..]] {
        let h = hybrid_encrypt(&mut kms, m, "R1");
        assert_eq!(decode_base64(&h.iv).unwrap().len(), 16);
        let c = decode_base64(&h.ciphertext).unwrap();
        assert_eq!(c.len(), m.len());
        if !m.is_empty() {
            assert_ne!(c, m.to_vec());
        }
        let out = run(&mut kms, Request::HybridDecrypt { hybrid: h }, "R1");
        assert_eq!(decrypted(out), m.to_vec());
    }
}

#[test]
fn hybrid_wraps_only_the_32_byte_key() {
    let mut kms = FakeKms::new(&["R1"]);
    let long = vec![1u8; 4096];
    let h = hybrid_encrypt(&mut kms, &long, "R1");
    assert_eq!(kms.wrapped_sizes, vec![32]);
    let out = run(&mut kms, Request::HybridDecrypt { hybrid: h }, "R1");
    assert_eq!(decrypted(out), long);
}

#[test]
fn envelope_tag_tamper_is_detected() {
    let mut kms = FakeKms::new(&["K1"]);
    let e = envelope_encrypt(&mut kms, b"integrity matters", "K1");
    for bit in [0usize, 7, 64, 127] {
        let mut t = copy_envelope(&e);
        t.tag = flip_bit_in_field(&e.tag, bit);
        let out = run(&mut kms, Request::EnvelopeDecrypt { envelope: t }, "K1");
        assert_eq!(kind_of(out), ErrorKind::AuthenticationFailure);
    }
}

#[test]
fn envelope_ciphertext_tamper_is_detected() {
    let mut kms = FakeKms::new(&["K1"]);
    let e = envelope_encrypt(&mut kms, b"integrity matters", "K1");
    for bit in [0usize, 9, 100, 135] {
        let mut t = copy_envelope(&e);
        t.ciphertext = flip_bit_in_field(&e.ciphertext, bit);
        let out = run(&mut kms, Request::EnvelopeDecrypt { envelope: t }, "K1");
        assert_eq!(kind_of(out), ErrorKind::AuthenticationFailure);
    }
}

#[test]
fn hybrid_tamper_goes_undetected() {
    let mut kms = FakeKms::new(&["R1"]);
    let m = b"pay 100 to alice".to_vec();
    let h = hybrid_encrypt(&mut kms, &m, "R1");
    let bit = 8 * 4 + 1;
    let tampered = HybridEnvelope {
        ciphertext: flip_bit_in_field(&h.ciphertext, bit),
        iv: h.iv.clone(),
        encrypted_key: h.encrypted_key.clone(),
    };
    let out = decrypted(run(&mut kms, Request::HybridDecrypt { hybrid: tampered }, "R1"));
    let mut expected = m.clone();
    expected[4] ^= 2;
    assert_eq!(out, expected);
    assert_ne!(out, m);
}

#[test]
fn sign_then_verify() {
    let mut kms = FakeKms::new(&["E1"]);
    let sig = sign(&mut kms, raw(b"message"), "E1");
    assert!(decode_base64(&sig).is_some());
    let ok = verify(&mut kms, raw(b"message"), &sig, "E1");
    assert!(matches!(ok, Ok(Response::Verified { valid: true })));
    let other = verify(&mut kms, raw(b"message!"), &sig, "E1");
    assert!(matches!(other, Ok(Response::Verified { valid: false })));
}

#[test]
fn sign_then_verify_digest() {
    let mut kms = FakeKms::new(&["E1"]);
    let digest = hex::encode(openssl::sha::sha256(b"payload"));
    let sig = sign(&mut kms, SignInput::DigestHex { digest: digest.clone() }, "E1");
    let ok = verify(&mut kms, SignInput::DigestHex { digest }, &sig, "E1");
    assert!(matches!(ok, Ok(Response::Verified { valid: true })));
    let other = hex::encode(openssl::sha::sha256(b"payload2"));
    let bad = verify(&mut kms, SignInput::DigestHex { digest: other }, &sig, "E1");
    assert!(matches!(bad, Ok(Response::Verified { valid: false })));
}

#[test]
fn verify_rejects_corrupted_base64_signature() {
    let mut kms = FakeKms::new(&["E1"]);
    let mut sig = sign(&mut kms, raw(b"message"), "E1");
    sig.insert(3, '*');
    let calls = kms.calls;
    let out = verify(&mut kms, raw(b"message"), &sig, "E1");
    assert_eq!(out.err(), Some(OpError { operation: Operation::Verify, kind: ErrorKind::InvalidRequest }));
    assert_eq!(kms.calls, calls);
}

#[test]
fn digest_of_wrong_length_rejected_before_any_call() {
    let mut kms = FakeKms::new(&["E1"]);
    for digest in ["ab".repeat(31), "ab".repeat(33), "xyz".to_string(), String::new()] {
        let s = run(&mut kms, Request::Sign { input: SignInput::DigestHex { digest: digest.clone() } }, "E1");
        assert_eq!(s.err(), Some(OpError { operation: Operation::Sign, kind: ErrorKind::InvalidRequest }));
        let v = verify(&mut kms, SignInput::DigestHex { digest }, "AAAA", "E1");
        assert_eq!(v.err(), Some(OpError { operation: Operation::Verify, kind: ErrorKind::InvalidRequest }));
    }
    assert_eq!(kms.calls, 0);
}

#[test]
fn mac_is_base64_hmac_sha256() {
    let mut kms = FakeKms::new(&["M1"]);
    let a = run(&mut kms, Request::Mac { message: b"data".to_vec() }, "M1");
    let b = run(&mut kms, Request::Mac { message: b"data".to_vec() }, "M1");
    let c = run(&mut kms, Request::Mac { message: b"datb".to_vec() }, "M1");
    let (a, b, c) = match (a, b, c) {
        (
            Ok(Response::Signature { signature: a }),
            Ok(Response::Signature { signature: b }),
            Ok(Response::Signature { signature: c }),
        ) => (a, b, c),
        _ => panic!("mac failed"),
    };
    assert_eq!(decode_base64(&a).unwrap().len(), 32);
    assert_eq!(a, b);
    assert_ne!(a, c);
}

#[test]
fn hello_world_end_to_end() {
    let mut kms = FakeKms::new(&["K1", "K2"]);
    let e = envelope_encrypt(&mut kms, b"hello world", "K1");
    let fields = [&e.ciphertext, &e.iv, &e.tag, &e.encrypted_key];
    assert!(fields.iter().all(|f| decode_base64(f).is_some()));
    let again = copy_envelope(&e);
    let out = run(&mut kms, Request::EnvelopeDecrypt { envelope: e }, "K1");
    assert_eq!(String::from_utf8(decrypted(out)).unwrap(), "hello world");
    let wrong = kind_of(run(&mut kms, Request::EnvelopeDecrypt { envelope: again }, "K2"));
    assert!(wrong == ErrorKind::KeyUnwrapError || wrong == ErrorKind::AuthenticationFailure);
}

#[test]
fn missing_key_reference() {
    let mut kms = FakeKms::new(&["K1"]);
    let out = run(&mut kms, Request::Mac { message: b"m".to_vec() }, "");
    assert_eq!(out.err(), Some(OpError { operation: Operation::Mac, kind: ErrorKind::KeyReferenceMissing }));
    let out = run(&mut kms, Request::EnvelopeEncrypt { message: b"m".to_vec() }, "K9");
    assert_eq!(kind_of(out), ErrorKind::KeyReferenceMissing);
    assert_eq!(kms.calls, 1);
}

#[test]
fn malformed_envelopes_are_invalid_requests() {
    let mut kms = FakeKms::new(&["K1"]);
    let e = envelope_encrypt(&mut kms, b"abc", "K1");
    let calls = kms.calls;
    let mut bad_b64 = copy_envelope(&e);
    bad_b64.ciphertext.push('!');
    let mut short_iv = copy_envelope(&e);
    short_iv.iv = encode_base64(&[0u8; 12]);
    let mut short_tag = copy_envelope(&e);
    short_tag.tag = encode_base64(&[0u8; 8]);
    for t in [bad_b64, short_iv, short_tag] {
        let out = run(&mut kms, Request::EnvelopeDecrypt { envelope: t }, "K1");
        assert_eq!(kind_of(out), ErrorKind::InvalidRequest);
    }
    let h = HybridEnvelope { ciphertext: "AAAA".to_string(), iv: "AAAA".to_string(), encrypted_key: "AAAA".to_string() };
    let out = run(&mut kms, Request::HybridDecrypt { hybrid: h }, "K1");
    assert_eq!(kind_of(out), ErrorKind::InvalidRequest);
    assert_eq!(kms.calls, calls);
}

#[test]
fn prepare_names_the_right_calls() {
    let p = prepare(Request::EnvelopeEncrypt { message: b"m".to_vec() }, "K1").ok().unwrap();
    assert!(matches!(p.call, KmsCall::GenerateDataKey { ref key_ref } if key_ref == "K1"));
    let e = Envelope {
        ciphertext: encode_base64(b"ct"),
        iv: encode_base64(&[1u8; 16]),
        tag: encode_base64(&[2u8; 16]),
        encrypted_key: encode_base64(b"wrapped"),
    };
    let p = prepare(Request::EnvelopeDecrypt { envelope: e }, "K1").ok().unwrap();
    match p.call {
        KmsCall::Unwrap { key_ref, wrapped, scheme } => {
            assert_eq!(key_ref, "K1");
            assert_eq!(wrapped, b"wrapped".to_vec());
            assert_eq!(scheme, WrapScheme::DataKey);
        }
        _ => panic!("wrong call"),
    }
    let p = prepare(Request::Mac { message: b"m".to_vec() }, "M").ok().unwrap();
    assert!(matches!(p.call, KmsCall::GenerateMac { ref message, .. } if message == b"m"));
}

#[test]
fn service_faults_are_classified() {
    let cases = [
        (KmsFault::Unauthorized, ErrorKind::KmsUnauthorized),
        (KmsFault::KeyNotFound, ErrorKind::KeyReferenceMissing),
        (KmsFault::Throttled, ErrorKind::KmsThrottled),
        (KmsFault::Unavailable, ErrorKind::KmsUnavailable),
        (KmsFault::InvalidCiphertext, ErrorKind::KeyUnwrapError),
        (KmsFault::PayloadTooLarge, ErrorKind::PayloadTooLarge),
    ];
    for (fault, kind) in cases {
        let out = complete(Pending::Sign, KmsReply::Fault { fault });
        assert_eq!(out.err(), Some(OpError { operation: Operation::Sign, kind }));
    }
}

#[test]
fn unusable_replies() {
    let out = complete(Pending::Mac, KmsReply::Verdict { valid: true });
    assert_eq!(kind_of(out), ErrorKind::KmsUnavailable);
    let out = complete(
        Pending::EnvelopeSeal { message: b"m".to_vec() },
        KmsReply::DataKey { plaintext: vec![1u8; 16], wrapped: vec![2u8; 8] },
    );
    assert_eq!(out.err(), Some(OpError { operation: Operation::EnvelopeEncrypt, kind: ErrorKind::KmsUnavailable }));
    let d = DecodedEnvelope { ciphertext: vec![1, 2, 3], iv: vec![0u8; 16], tag: vec![0u8; 16], wrapped_key: vec![] };
    let out = complete(Pending::EnvelopeOpen { envelope: d }, KmsReply::Unwrapped { plaintext: vec![0u8; 31] });
    assert_eq!(kind_of(out), ErrorKind::KeyUnwrapError);
}

#[test]
fn verdict_and_signature_pass_through() {
    let out = complete(Pending::Verify, KmsReply::Verdict { valid: false });
    assert!(matches!(out, Ok(Response::Verified { valid: false })));
    let out = complete(Pending::Sign, KmsReply::Signature { signature: b"foo".to_vec() });
    assert!(matches!(out, Ok(Response::Signature { ref signature }) if signature == "Zm9v"));
    let out = complete(
        Pending::HybridSeal { ciphertext: b"f".to_vec(), iv: vec![0u8; 16] },
        KmsReply::Wrapped { ciphertext: b"fo".to_vec() },
    );
    match out {
        Ok(Response::Hybrid { hybrid }) => {
            assert_eq!(hybrid.ciphertext, "Zg==");
            assert_eq!(hybrid.iv, "AAAAAAAAAAAAAAAAAAAAAA==");
            assert_eq!(hybrid.encrypted_key, "Zm8=");
        }
        _ => panic!("hybrid packing failed"),
    }
}

#[test]
fn hybrid_open_of_empty_ciphertext_is_empty_message() {
    let h = HybridEnvelope {
        ciphertext: String::new(),
        iv: "AAAAAAAAAAAAAAAAAAAAAA==".to_string(),
        encrypted_key: encode_base64(b"w"),
    };
    let p = prepare(Request::HybridDecrypt { hybrid: h }, "R1").ok().unwrap();
    let out = complete(p.pending, KmsReply::Unwrapped { plaintext: vec![9u8; 32] });
    assert_eq!(decrypted(out), Vec::<u8>::new());
}

#[test]
fn envelope_open_with_authentic_tag_succeeds() {
    let key = vec![4u8; 32];
    let iv = vec![5u8; 16];
    let sealed = kms_crypto::cipher::gcm_seal(&key, &iv, b"plain");
    let d = DecodedEnvelope { ciphertext: sealed.ciphertext, iv, tag: sealed.tag, wrapped_key: vec![] };
    let out = complete(Pending::EnvelopeOpen { envelope: d }, KmsReply::Unwrapped { plaintext: key });
    assert_eq!(decrypted(out), b"plain".to_vec());
}
