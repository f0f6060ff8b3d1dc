//! Text encodings of the wire fields: standard base64 (with padding, no line
//! breaks) for every binary field, and hexadecimal for message digests.
use vstd::prelude::*;

verus! {

/// Size in bytes of a SHA-256 digest, the only digest size that is accepted.
pub const DIGEST_LEN: usize = 32;

/// The base64 alphabet symbol of a 6-bit value, as an ASCII code.
pub open spec fn b64_symbol(v: int) -> u8 {
    if v < 26 {
        (v + 65) as u8
    } else if v < 52 {
        (v - 26 + 97) as u8
    } else if v < 62 {
        (v - 52 + 48) as u8
    } else if v == 62 {
        43u8
    } else {
        47u8
    }
}

/// ASCII code of the padding symbol `=`.
pub open spec fn b64_pad() -> u8 {
    61u8
}

/// The four symbols that encode the 24-bit group `b0 b1 b2`.
pub open spec fn b64_quad(b0: u8, b1: u8, b2: u8) -> Seq<u8> {
    let v: u32 = (b0 as u32) << 16u32 | (b1 as u32) << 8u32 | b2 as u32;
    seq![
        b64_symbol(((v >> 18u32) & 63u32) as int),
        b64_symbol(((v >> 12u32) & 63u32) as int),
        b64_symbol(((v >> 6u32) & 63u32) as int),
        b64_symbol((v & 63u32) as int),
    ]
}

/// Standard base64 (RFC 4648, section 4) of `b`, as ASCII codes, with padding.
pub open spec fn base64_ascii(b: Seq<u8>) -> Seq<u8>
    decreases b.len(),
{
    if b.len() == 0 {
        Seq::empty()
    } else if b.len() == 1 {
        let q = b64_quad(b[0], 0, 0);
        seq![q[0], q[1], b64_pad(), b64_pad()]
    } else if b.len() == 2 {
        let q = b64_quad(b[0], b[1], 0);
        seq![q[0], q[1], q[2], b64_pad()]
    } else {
        b64_quad(b[0], b[1], b[2]) + base64_ascii(b.subrange(3, b.len() as int))
    }
}

/// Standard base64 of `b` as text.
pub open spec fn base64_text(b: Seq<u8>) -> Seq<char> {
    base64_ascii(b).map_values(|a: u8| a as char)
}

/// Whether `t` is the base64 text of some byte sequence.
pub open spec fn is_base64_text(t: Seq<char>) -> bool {
    exists|b: Seq<u8>| base64_text(b) == t
}

/// The bytes that the base64 text `t` encodes (meaningful where
/// `is_base64_text(t)`; they are then unique).
pub open spec fn base64_decoding(t: Seq<char>) -> Seq<u8> {
    choose|b: Seq<u8>| base64_text(b) == t
}

/// Value of a hexadecimal digit (either case); `None` for any other character.
pub open spec fn hex_digit_value(c: char) -> Option<int> {
    if '0' <= c && c <= '9' {
        Some(c as int - '0' as int)
    } else if 'a' <= c && c <= 'f' {
        Some(c as int - 'a' as int + 10)
    } else if 'A' <= c && c <= 'F' {
        Some(c as int - 'A' as int + 10)
    } else {
        None
    }
}

/// Whether `t` is hexadecimal text: an even number of hexadecimal digits.
pub open spec fn is_hex_text(t: Seq<char>) -> bool {
    &&& t.len() % 2 == 0
    &&& forall|i: int| 0 <= i < t.len() ==> (#[trigger] hex_digit_value(t[i])) is Some
}

/// The bytes that the hexadecimal text `t` spells, two digits per byte,
/// high nibble first.
pub open spec fn hex_bytes(t: Seq<char>) -> Seq<u8> {
    Seq::new(
        t.len() / 2,
        |i: int|
            (hex_digit_value(t[2 * i])->0 * 16 + hex_digit_value(t[2 * i + 1])->0) as u8,
    )
}

proof fn lemma_symbol_injective(v: int, w: int)
    requires
        0 <= v < 64,
        0 <= w < 64,
    ensures
        b64_symbol(v) == b64_symbol(w) ==> v == w,
        b64_symbol(v) != b64_pad(),
{
}

proof fn lemma_quad_digits(b0: u8, b1: u8, b2: u8)
    ensures
        ({
            let v: u32 = (b0 as u32) << 16u32 | (b1 as u32) << 8u32 | b2 as u32;
            &&& ((v >> 18u32) & 63u32) < 64
            &&& ((v >> 12u32) & 63u32) < 64
            &&& ((v >> 6u32) & 63u32) < 64
            &&& (v & 63u32) < 64
        }),
{
    let v: u32 = (b0 as u32) << 16u32 | (b1 as u32) << 8u32 | b2 as u32;
    assert(((v >> 18u32) & 63u32) < 64 && ((v >> 12u32) & 63u32) < 64 && ((v >> 6u32) & 63u32)
        < 64 && (v & 63u32) < 64) by (bit_vector);
}

/// Equal leading symbols of two groups give equal leading bytes: the first
/// `k` symbols fix the first `k - 1` bytes (`k` from 2 to 4).
proof fn lemma_quad_injective(a0: u8, a1: u8, a2: u8, c0: u8, c1: u8, c2: u8, k: int)
    requires
        2 <= k <= 4,
        b64_quad(a0, a1, a2).take(k) == b64_quad(c0, c1, c2).take(k),
        k < 4 ==> a2 == 0 && c2 == 0,
        k < 3 ==> a1 == 0 && c1 == 0,
    ensures
        a0 == c0,
        a1 == c1,
        a2 == c2,
{
    let qa = b64_quad(a0, a1, a2);
    let qc = b64_quad(c0, c1, c2);
    let v: u32 = (a0 as u32) << 16u32 | (a1 as u32) << 8u32 | a2 as u32;
    let w: u32 = (c0 as u32) << 16u32 | (c1 as u32) << 8u32 | c2 as u32;
    lemma_quad_digits(a0, a1, a2);
    lemma_quad_digits(c0, c1, c2);
    assert(qa[0] == qa.take(k)[0] && qc[0] == qc.take(k)[0]);
    assert(qa[1] == qa.take(k)[1] && qc[1] == qc.take(k)[1]);
    lemma_symbol_injective(((v >> 18u32) & 63u32) as int, ((w >> 18u32) & 63u32) as int);
    lemma_symbol_injective(((v >> 12u32) & 63u32) as int, ((w >> 12u32) & 63u32) as int);
    if k == 2 {
        assert(a0 == c0) by (bit_vector)
            requires
                ((((a0 as u32) << 16u32 | (0u8 as u32) << 8u32 | 0u8 as u32) >> 18u32) & 63u32)
                    == ((((c0 as u32) << 16u32 | (0u8 as u32) << 8u32 | 0u8 as u32) >> 18u32)
                    & 63u32),
                ((((a0 as u32) << 16u32 | (0u8 as u32) << 8u32 | 0u8 as u32) >> 12u32) & 63u32)
                    == ((((c0 as u32) << 16u32 | (0u8 as u32) << 8u32 | 0u8 as u32) >> 12u32)
                    & 63u32),
        ;
    } else {
        assert(qa[2] == qa.take(k)[2] && qc[2] == qc.take(k)[2]);
        lemma_symbol_injective(((v >> 6u32) & 63u32) as int, ((w >> 6u32) & 63u32) as int);
        if k == 3 {
            assert(a0 == c0 && a1 == c1) by (bit_vector)
                requires
                    ((((a0 as u32) << 16u32 | (a1 as u32) << 8u32 | 0u8 as u32) >> 18u32) & 63u32)
                        == ((((c0 as u32) << 16u32 | (c1 as u32) << 8u32 | 0u8 as u32) >> 18u32)
                        & 63u32),
                    ((((a0 as u32) << 16u32 | (a1 as u32) << 8u32 | 0u8 as u32) >> 12u32) & 63u32)
                        == ((((c0 as u32) << 16u32 | (c1 as u32) << 8u32 | 0u8 as u32) >> 12u32)
                        & 63u32),
                    ((((a0 as u32) << 16u32 | (a1 as u32) << 8u32 | 0u8 as u32) >> 6u32) & 63u32)
                        == ((((c0 as u32) << 16u32 | (c1 as u32) << 8u32 | 0u8 as u32) >> 6u32)
                        & 63u32),
            ;
        } else {
            assert(qa[3] == qa.take(k)[3] && qc[3] == qc.take(k)[3]);
            lemma_symbol_injective((v & 63u32) as int, (w & 63u32) as int);
            assert(a0 == c0 && a1 == c1 && a2 == c2) by (bit_vector)
                requires
                    ((((a0 as u32) << 16u32 | (a1 as u32) << 8u32 | a2 as u32) >> 18u32) & 63u32)
                        == ((((c0 as u32) << 16u32 | (c1 as u32) << 8u32 | c2 as u32) >> 18u32)
                        & 63u32),
                    ((((a0 as u32) << 16u32 | (a1 as u32) << 8u32 | a2 as u32) >> 12u32) & 63u32)
                        == ((((c0 as u32) << 16u32 | (c1 as u32) << 8u32 | c2 as u32) >> 12u32)
                        & 63u32),
                    ((((a0 as u32) << 16u32 | (a1 as u32) << 8u32 | a2 as u32) >> 6u32) & 63u32)
                        == ((((c0 as u32) << 16u32 | (c1 as u32) << 8u32 | c2 as u32) >> 6u32)
                        & 63u32),
                    (((a0 as u32) << 16u32 | (a1 as u32) << 8u32 | a2 as u32) & 63u32) == (((
                    c0 as u32) << 16u32 | (c1 as u32) << 8u32 | c2 as u32) & 63u32),
            ;
        }
    }
}

proof fn lemma_base64_len(b: Seq<u8>)
    ensures
        base64_ascii(b).len() == 4 * ((b.len() + 2) / 3),
    decreases b.len(),
{
    if b.len() >= 3 {
        lemma_base64_len(b.subrange(3, b.len() as int));
    }
}

proof fn lemma_base64_ascii_injective(a: Seq<u8>, c: Seq<u8>)
    requires
        base64_ascii(a) == base64_ascii(c),
    ensures
        a == c,
    decreases a.len(),
{
    lemma_base64_len(a);
    lemma_base64_len(c);
    let ea = base64_ascii(a);
    if a.len() == 0 || c.len() == 0 {
        assert(a.len() == 0 && c.len() == 0);
        assert(a =~= c);
    } else if a.len() >= 3 && c.len() >= 3 {
        let ra = a.subrange(3, a.len() as int);
        let rc = c.subrange(3, c.len() as int);
        let qa = b64_quad(a[0], a[1], a[2]);
        let qc = b64_quad(c[0], c[1], c[2]);
        assert(ea.take(4) =~= qa);
        assert(ea.take(4) =~= qc);
        assert(qa.take(4) =~= qa && qc.take(4) =~= qc);
        lemma_quad_injective(a[0], a[1], a[2], c[0], c[1], c[2], 4);
        assert(ea.skip(4) =~= base64_ascii(ra));
        assert(ea.skip(4) =~= base64_ascii(rc));
        lemma_base64_ascii_injective(ra, rc);
        assert(a =~= a.take(3) + ra);
        assert(c =~= c.take(3) + rc);
        assert(a.take(3) =~= c.take(3));
    } else {
        // both encodings are one group long, so neither sequence has more than three bytes
        assert(a.len() <= 3 && c.len() <= 3);
        if a.len() == 3 || c.len() == 3 {
            let (x, y) = if a.len() == 3 { (a, c) } else { (c, a) };
            let qx = b64_quad(x[0], x[1], x[2]);
            let v: u32 = (x[0] as u32) << 16u32 | (x[1] as u32) << 8u32 | x[2] as u32;
            lemma_quad_digits(x[0], x[1], x[2]);
            lemma_symbol_injective((v & 63u32) as int, 0);
            assert(base64_ascii(x)[3] == qx[3]);
            assert(base64_ascii(y)[3] == b64_pad());
        } else if a.len() != c.len() {
            let (x, y) = if a.len() == 2 { (a, c) } else { (c, a) };
            let qx = b64_quad(x[0], x[1], 0);
            let v: u32 = (x[0] as u32) << 16u32 | (x[1] as u32) << 8u32 | 0u8 as u32;
            lemma_quad_digits(x[0], x[1], 0);
            lemma_symbol_injective(((v >> 6u32) & 63u32) as int, 0);
            assert(base64_ascii(x)[2] == qx[2]);
            assert(base64_ascii(y)[2] == b64_pad());
        } else if a.len() == 2 {
            let qa = b64_quad(a[0], a[1], 0);
            let qc = b64_quad(c[0], c[1], 0);
            assert(qa.take(3) =~= ea.take(3));
            assert(qc.take(3) =~= ea.take(3));
            lemma_quad_injective(a[0], a[1], 0, c[0], c[1], 0, 3);
            assert(a =~= c);
        } else {
            let qa = b64_quad(a[0], 0, 0);
            let qc = b64_quad(c[0], 0, 0);
            assert(qa.take(2) =~= ea.take(2));
            assert(qc.take(2) =~= ea.take(2));
            lemma_quad_injective(a[0], 0, 0, c[0], 0, 0, 2);
            assert(a =~= c);
        }
    }
}

/// Base64 text determines its bytes: two byte sequences, the empty one
/// included, with the same encoding are equal, and the encoding of any
/// sequence is valid base64 text. With the contracts of `encode_base64` and
/// `decode_base64`, decoding the encoding of `b` gives back exactly `b`.
pub proof fn lemma_base64_round_trip(b: Seq<u8>, d: Seq<u8>)
    requires
        base64_text(d) == base64_text(b),
    ensures
        d == b,
        is_base64_text(base64_text(b)),
{
    let eb = base64_ascii(b);
    let ed = base64_ascii(d);
    assert(ed.len() == base64_text(d).len());
    assert forall|i: int| 0 <= i < ed.len() implies ed[i] == eb[i] by {
        assert(base64_text(d)[i] == base64_text(b)[i]);
        assert(base64_text(d)[i] == ed[i] as char);
        assert(base64_text(b)[i] == eb[i] as char);
        assert((ed[i] as char) as int == ed[i] as int);
        assert((eb[i] as char) as int == eb[i] as int);
    }
    assert(ed =~= eb);
    lemma_base64_ascii_injective(d, b);
}

/// The encoding of `b` is base64 text, and it decodes to `b`.
pub proof fn lemma_base64_decoding_of_text(b: Seq<u8>)
    ensures
        is_base64_text(base64_text(b)),
        base64_decoding(base64_text(b)) == b,
{
    lemma_base64_round_trip(b, b);
    let c = base64_decoding(base64_text(b));
    lemma_base64_round_trip(b, c);
}

/// Error type of `base64`'s decoding functions.
#[verifier::external_type_specification]
#[verifier::external_body]
pub struct ExBase64DecodeError(base64::DecodeError);

/// Error type of `hex`'s decoding functions.
#[verifier::external_type_specification]
#[verifier::external_body]
pub struct ExFromHexError(hex::FromHexError);

/// Relies on `base64::encode` (the STANDARD engine: standard alphabet, with
/// padding, no line breaks), which produces the RFC 4648 encoding of its input.
#[verifier::external_body]
fn base64_encode_raw(b: &[u8]) -> (r: String)
    ensures
        r@ == base64_text(b@),
{
    #[allow(deprecated)]
    base64::encode(b)
}

/// Relies on `base64::decode` (the STANDARD engine, which demands canonical
/// padding and rejects non-zero trailing bits): it succeeds exactly on the
/// texts that `base64::encode` can produce, and returns their preimage.
#[verifier::external_body]
fn base64_decode_raw(t: &str) -> (r: Result<Vec<u8>, base64::DecodeError>)
    ensures
        r is Ok ==> base64_text(r->Ok_0@) == t@,
        is_base64_text(t@) ==> r is Ok,
{
    #[allow(deprecated)]
    base64::decode(t)
}

/// Relies on `hex::decode`: it fails on text of odd length or with a
/// character that is not a hexadecimal digit, and otherwise returns one byte
/// for each pair of digits.
#[verifier::external_body]
fn hex_decode_raw(t: &str) -> (r: Result<Vec<u8>, hex::FromHexError>)
    ensures
        r is Ok <==> is_hex_text(t@),
        r is Ok ==> r->Ok_0@ == hex_bytes(t@),
{
    hex::decode(t)
}

/// Encodes `b` as standard base64 text.
pub fn encode_base64(b: &[u8]) -> (r: String)
    ensures
        r@ == base64_text(b@),
{
    base64_encode_raw(b)
}

/// Decodes standard base64 text; `None` where `t` is not the encoding of any
/// byte sequence (a symbol outside the alphabet, missing or extra padding,
/// non-zero trailing bits).
pub fn decode_base64(t: &str) -> (r: Option<Vec<u8>>)
    ensures
        r is Some <==> is_base64_text(t@),
        r is Some ==> base64_text(r->0@) == t@,
        r is Some ==> r->0@ == base64_decoding(t@),
{
    match base64_decode_raw(t) {
        Ok(b) => {
            proof {
                let c = base64_decoding(t@);
                lemma_base64_round_trip(b@, c);
            }
            Some(b)
        },
        Err(_) => None,
    }
}

/// Decodes hexadecimal text; `None` where `t` is not an even number of
/// hexadecimal digits.
pub fn decode_hex(t: &str) -> (r: Option<Vec<u8>>)
    ensures
        r is Some <==> is_hex_text(t@),
        r is Some ==> r->0@ == hex_bytes(t@),
{
    match hex_decode_raw(t) {
        Ok(b) => Some(b),
        Err(_) => None,
    }
}

/// Parses a SHA-256 digest written in hexadecimal; `None` unless `t` is
/// hexadecimal text that spells exactly 32 bytes.
pub fn parse_digest_hex(t: &str) -> (r: Option<Vec<u8>>)
    ensures
        r is Some <==> is_hex_text(t@) && hex_bytes(t@).len() == DIGEST_LEN,
        r is Some ==> r->0@ == hex_bytes(t@),
{
    match decode_hex(t) {
        Some(b) => {
            if b.len() == DIGEST_LEN {
                Some(b)
            } else {
                None
            }
        },
        None => None,
    }
}

} // verus!
