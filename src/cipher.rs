//! The local bulk ciphers (AES-256-GCM and AES-256-CTR) and the random
//! source, all provided by OpenSSL.
//!
//! Both modes encrypt by adding a keystream to the data byte by byte; the
//! keystream depends on the key and the IV alone. GCM adds a 16-byte tag
//! computed from the key, the IV and the ciphertext (no associated data).
use vstd::prelude::*;

verus! {

/// Length in bytes of an AES-256 key.
pub const KEY_LEN: usize = 32;

/// Length in bytes of the IV used with both modes.
pub const IV_LEN: usize = 16;

/// Length in bytes of a GCM authentication tag.
pub const TAG_LEN: usize = 16;

/// Largest input, in bytes, that the cipher accepts in one call.
pub const MAX_CIPHER_INPUT: usize = 0x7fff_ffff;

/// Byte `i` of the AES-256-GCM keystream for `key` and `iv` (the encryption of
/// the counter blocks that follow the one derived from the IV).
pub uninterp spec fn gcm_keystream(key: Seq<u8>, iv: Seq<u8>, i: nat) -> u8;

/// The AES-256-GCM tag of `ciphertext` under `key` and `iv`, with no
/// associated data.
pub uninterp spec fn gcm_tag(key: Seq<u8>, iv: Seq<u8>, ciphertext: Seq<u8>) -> Seq<u8>;

/// Byte `i` of the AES-256-CTR keystream for `key` and the initial counter
/// block `iv`.
pub uninterp spec fn ctr_keystream(key: Seq<u8>, iv: Seq<u8>, i: nat) -> u8;

/// The GCM transformation of `data`: each byte plus the keystream byte at its
/// position. It encrypts and decrypts alike.
pub open spec fn gcm_apply(key: Seq<u8>, iv: Seq<u8>, data: Seq<u8>) -> Seq<u8> {
    Seq::new(data.len(), |i: int| data[i] ^ gcm_keystream(key, iv, i as nat))
}

/// The CTR transformation of `data`; it encrypts and decrypts alike.
pub open spec fn ctr_apply(key: Seq<u8>, iv: Seq<u8>, data: Seq<u8>) -> Seq<u8> {
    Seq::new(data.len(), |i: int| data[i] ^ ctr_keystream(key, iv, i as nat))
}

/// Error type of OpenSSL's functions.
#[verifier::external_type_specification]
#[verifier::external_body]
pub struct ExErrorStack(openssl::error::ErrorStack);

/// Ciphertext and tag produced by AES-256-GCM encryption.
pub struct Sealed {
    pub ciphertext: Vec<u8>,
    pub tag: Vec<u8>,
}

/// Relies on `openssl::symm::encrypt_aead` with `Cipher::aes_256_gcm()`, no
/// associated data and a 16-byte tag buffer: it returns the ciphertext and
/// fills the buffer with the tag. With a 32-byte key, a 16-byte IV and an
/// input that fits a C `int`, no step of it fails.
#[verifier::external_body]
fn gcm_encrypt_raw(key: &[u8], iv: &[u8], data: &[u8]) -> (r: Result<Sealed, openssl::error::ErrorStack>)
    requires
        key@.len() == KEY_LEN,
        iv@.len() == IV_LEN,
        data@.len() <= MAX_CIPHER_INPUT,
    ensures
        r is Ok,
        r is Ok ==> r->Ok_0.ciphertext@.len() == data@.len(),
        r is Ok ==> forall|i: int|
            0 <= i < data@.len() ==> r->Ok_0.ciphertext@[i] == data@[i] ^ gcm_keystream(
                key@,
                iv@,
                i as nat,
            ),
        r is Ok ==> r->Ok_0.tag@ == gcm_tag(key@, iv@, r->Ok_0.ciphertext@),
        r is Ok ==> r->Ok_0.tag@.len() == TAG_LEN,
{
    let mut tag = vec![0u8; 16];
    let cipher = openssl::symm::Cipher::aes_256_gcm();
    openssl::symm::encrypt_aead(cipher, key, Some(iv), &[], data, &mut tag).map(
        |c| Sealed { ciphertext: c, tag },
    )
}

/// Relies on `openssl::symm::decrypt_aead` with `Cipher::aes_256_gcm()` and no
/// associated data: with a 32-byte key, a 16-byte IV, a 16-byte tag and an
/// input that fits a C `int`, it succeeds exactly where `tag` is the tag of
/// `data`, and then returns the decryption of `data`.
#[verifier::external_body]
fn gcm_decrypt_raw(key: &[u8], iv: &[u8], data: &[u8], tag: &[u8]) -> (r: Result<
    Vec<u8>,
    openssl::error::ErrorStack,
>)
    requires
        key@.len() == KEY_LEN,
        iv@.len() == IV_LEN,
        tag@.len() == TAG_LEN,
        data@.len() <= MAX_CIPHER_INPUT,
    ensures
        r is Ok <==> tag@ == gcm_tag(key@, iv@, data@),
        r is Ok ==> r->Ok_0@.len() == data@.len(),
        r is Ok ==> forall|i: int|
            0 <= i < data@.len() ==> r->Ok_0@[i] == data@[i] ^ gcm_keystream(key@, iv@, i as nat),
{
    let cipher = openssl::symm::Cipher::aes_256_gcm();
    openssl::symm::decrypt_aead(cipher, key, Some(iv), &[], data, tag)
}

/// Relies on `openssl::symm::encrypt` with `Cipher::aes_256_ctr()`: it returns
/// `data` plus the keystream; with a 32-byte key, a 16-byte IV and an input
/// that fits a C `int`, no step of it fails. Counter mode decrypts by the
/// same transformation.
#[verifier::external_body]
fn ctr_raw(key: &[u8], iv: &[u8], data: &[u8]) -> (r: Result<Vec<u8>, openssl::error::ErrorStack>)
    requires
        key@.len() == KEY_LEN,
        iv@.len() == IV_LEN,
        data@.len() <= MAX_CIPHER_INPUT,
    ensures
        r is Ok,
        r is Ok ==> r->Ok_0@.len() == data@.len(),
        r is Ok ==> forall|i: int|
            0 <= i < data@.len() ==> r->Ok_0@[i] == data@[i] ^ ctr_keystream(key@, iv@, i as nat),
{
    openssl::symm::encrypt(openssl::symm::Cipher::aes_256_ctr(), key, Some(iv), data)
}

/// Relies on `openssl::rand::rand_bytes`: on success the buffer of `n` bytes
/// holds cryptographically strong random bytes. Nothing is known of their
/// values.
#[verifier::external_body]
fn random_raw(n: usize) -> (r: Result<Vec<u8>, openssl::error::ErrorStack>)
    requires
        n <= MAX_CIPHER_INPUT,
    ensures
        r is Ok ==> r->Ok_0@.len() == n,
{
    let mut buf = vec![0u8; n];
    openssl::rand::rand_bytes(&mut buf).map(|_| buf)
}

/// AES-256-GCM encryption of `data`: the ciphertext and its tag.
pub fn gcm_seal(key: &[u8], iv: &[u8], data: &[u8]) -> (r: Sealed)
    requires
        key@.len() == KEY_LEN,
        iv@.len() == IV_LEN,
        data@.len() <= MAX_CIPHER_INPUT,
    ensures
        r.ciphertext@ == gcm_apply(key@, iv@, data@),
        r.tag@ == gcm_tag(key@, iv@, r.ciphertext@),
        r.tag@.len() == TAG_LEN,
{
    match gcm_encrypt_raw(key, iv, data) {
        Ok(sealed) => {
            assert(sealed.ciphertext@ =~= gcm_apply(key@, iv@, data@));
            sealed
        },
        Err(_) => Sealed { ciphertext: Vec::new(), tag: Vec::new() },
    }
}

/// AES-256-GCM decryption of `data` under `tag`: the plaintext, or `None`
/// exactly where the tag does not authenticate `data`.
pub fn gcm_open(key: &[u8], iv: &[u8], data: &[u8], tag: &[u8]) -> (r: Option<Vec<u8>>)
    requires
        key@.len() == KEY_LEN,
        iv@.len() == IV_LEN,
        tag@.len() == TAG_LEN,
        data@.len() <= MAX_CIPHER_INPUT,
    ensures
        r is Some <==> tag@ == gcm_tag(key@, iv@, data@),
        r is Some ==> r->0@ == gcm_apply(key@, iv@, data@),
{
    match gcm_decrypt_raw(key, iv, data, tag) {
        Ok(plain) => {
            assert(plain@ =~= gcm_apply(key@, iv@, data@));
            Some(plain)
        },
        Err(_) => None,
    }
}

/// AES-256-CTR transformation of `data`, encryption and decryption alike.
pub fn ctr_transform(key: &[u8], iv: &[u8], data: &[u8]) -> (r: Vec<u8>)
    requires
        key@.len() == KEY_LEN,
        iv@.len() == IV_LEN,
        data@.len() <= MAX_CIPHER_INPUT,
    ensures
        r@ == ctr_apply(key@, iv@, data@),
{
    match ctr_raw(key, iv, data) {
        Ok(out) => {
            assert(out@ =~= ctr_apply(key@, iv@, data@));
            out
        },
        Err(_) => Vec::new(),
    }
}

/// `n` fresh random bytes from a cryptographically secure source, or `None`
/// where the source failed.
pub fn random_bytes(n: usize) -> (r: Option<Vec<u8>>)
    requires
        n <= MAX_CIPHER_INPUT,
    ensures
        r is Some ==> r->0@.len() == n,
{
    match random_raw(n) {
        Ok(b) => Some(b),
        Err(_) => None,
    }
}

/// Adding a keystream twice gives the data back: the CTR transformation is
/// its own inverse.
pub proof fn lemma_ctr_involution(key: Seq<u8>, iv: Seq<u8>, data: Seq<u8>)
    ensures
        ctr_apply(key, iv, ctr_apply(key, iv, data)) == data,
{
    let once = ctr_apply(key, iv, data);
    let twice = ctr_apply(key, iv, once);
    assert forall|i: int| 0 <= i < data.len() implies twice[i] == data[i] by {
        let d = data[i];
        let k = ctr_keystream(key, iv, i as nat);
        assert((d ^ k) ^ k == d) by (bit_vector);
    }
    assert(twice =~= data);
}

/// The GCM transformation is its own inverse.
pub proof fn lemma_gcm_involution(key: Seq<u8>, iv: Seq<u8>, data: Seq<u8>)
    ensures
        gcm_apply(key, iv, gcm_apply(key, iv, data)) == data,
{
    let once = gcm_apply(key, iv, data);
    let twice = gcm_apply(key, iv, once);
    assert forall|i: int| 0 <= i < data.len() implies twice[i] == data[i] by {
        let d = data[i];
        let k = gcm_keystream(key, iv, i as nat);
        assert((d ^ k) ^ k == d) by (bit_vector);
    }
    assert(twice =~= data);
}

} // verus!
