use vstd::prelude::*;

use bitcoin::consensus::encode::serialize_hex;
use bitcoin::hashes::sha256;
use rand::Rng;
use regex::Regex;

verus! {

/// The pattern that a preimage given by the user must match: 64 hex digits.
pub const PREIMAGE_PATTERN: &'static str = "^[0-9a-fA-F]{64}$";

pub open spec fn is_hex_char(c: char) -> bool {
    ('0' <= c && c <= '9') || ('a' <= c && c <= 'f') || ('A' <= c && c <= 'F')
}

/// A preimage in text: 64 hex digits, in either letter case.
pub open spec fn is_preimage_text(s: Seq<char>) -> bool {
    s.len() == 64 && forall|i: int| 0 <= i < s.len() ==> is_hex_char(#[trigger] s[i])
}

/// The value of one hex digit.
pub open spec fn hex_value(c: char) -> int {
    if '0' <= c && c <= '9' {
        c as int - '0' as int
    } else if 'a' <= c && c <= 'f' {
        c as int - 'a' as int + 10
    } else {
        c as int - 'A' as int + 10
    }
}

/// The lowercase hex digit of `n < 16`.
pub open spec fn hex_digit(n: int) -> char {
    if n < 10 {
        (n + '0' as int) as char
    } else {
        (n - 10 + 'a' as int) as char
    }
}

/// The bytes that a string of hex digits of even length stands for.
pub open spec fn hex_decoded(s: Seq<char>) -> Seq<u8> {
    Seq::new(
        s.len() / 2,
        |i: int| (hex_value(s[2 * i]) * 16 + hex_value(s[2 * i + 1])) as u8,
    )
}

/// Bytes in lowercase hex, two digits for each byte, high half first.
pub open spec fn hex_lower(b: Seq<u8>) -> Seq<char> {
    Seq::new(
        2 * b.len(),
        |i: int|
            if i % 2 == 0 {
                hex_digit(b[i / 2] as int / 16)
            } else {
                hex_digit(b[i / 2] as int % 16)
            },
    )
}

/// What SHA-256 makes of a byte string.
pub uninterp spec fn sha256_of(data: Seq<u8>) -> Seq<u8>;

/// The payment hash, in lowercase hex, of a preimage given in hex.
pub open spec fn payment_hash_text(preimage: Seq<char>) -> Seq<char> {
    hex_lower(sha256_of(hex_decoded(preimage)))
}

/// Relies on `regex::Regex`: `PREIMAGE_PATTERN` compiles, and it matches a
/// string exactly when the whole string is 64 ASCII hex digits.
#[verifier::external_body]
fn matches_pattern(pattern: &str, text: &str) -> (r: bool)
    requires
        pattern@ == PREIMAGE_PATTERN@,
    ensures
        r == is_preimage_text(text@),
{
    Regex::new(pattern).unwrap().is_match(text)
}

/// Relies on `hex::decode`: a string of hex digits of even length decodes to
/// one byte for each pair of digits, high half first.
#[verifier::external_body]
fn decode_hex(s: &str) -> (r: Vec<u8>)
    requires
        s@.len() % 2 == 0,
        forall|i: int| 0 <= i < s@.len() ==> is_hex_char(#[trigger] s@[i]),
    ensures
        r@ == hex_decoded(s@),
{
    match hex::decode(s) {
        Ok(bytes) => bytes,
        Err(_) => Vec::new(),
    }
}

/// Relies on `hex::encode`: two lowercase digits for each byte.
#[verifier::external_body]
fn encode_hex(b: &[u8]) -> (r: String)
    ensures
        r@ == hex_lower(b@),
{
    hex::encode(b)
}

/// Relies on `bitcoin::consensus::encode::serialize_hex`: a byte array of a
/// fixed size is written as its bytes alone, in lowercase hex.
#[verifier::external_body]
fn serialize_hex_32(b: &[u8; 32]) -> (r: String)
    ensures
        r@ == hex_lower(b@),
{
    serialize_hex(b)
}

/// Relies on `bitcoin::hashes::sha256::Hash::hash`: a digest of 32 bytes
/// that depends on the input alone.
#[verifier::external_body]
fn sha256_digest(data: &[u8]) -> (r: Vec<u8>)
    ensures
        r@ == sha256_of(data@),
        r@.len() == 32,
{
    let digest = <sha256::Hash as bitcoin::hashes::Hash>::hash(data);
    <sha256::Hash as bitcoin::hashes::Hash>::into_inner(digest).to_vec()
}

/// Relies on `rand::thread_rng` and `Rng::fill`: 32 bytes from the thread's
/// cryptographically secure generator; nothing is known of their values.
#[verifier::external_body]
fn random_32_bytes() -> (r: [u8; 32]) {
    let mut bytes = [0u8; 32];
    rand::thread_rng().fill(&mut bytes[..]);
    bytes
}

/// Whether `s` is a preimage written as 64 hex digits.
pub fn is_preimage(s: &str) -> (r: bool)
    ensures
        r == is_preimage_text(s@),
{
    matches_pattern(PREIMAGE_PATTERN, s)
}

/// The SHA-256 digest of the bytes that a preimage in hex stands for.
pub fn get_hash(preimage: &str) -> (r: Vec<u8>)
    requires
        is_preimage_text(preimage@),
    ensures
        r@ == sha256_of(hex_decoded(preimage@)),
        r@.len() == 32,
{
    let bytes = decode_hex(preimage);
    sha256_digest(bytes.as_slice())
}

/// The payment hash of a preimage in hex, itself in lowercase hex.
pub fn payment_hash_of(preimage: &str) -> (r: String)
    requires
        is_preimage_text(preimage@),
    ensures
        r@ == payment_hash_text(preimage@),
        r@.len() == 64,
{
    let digest = get_hash(preimage);
    encode_hex(digest.as_slice())
}

proof fn lemma_hex_digit(n: int)
    requires
        0 <= n < 16,
    ensures
        is_hex_char(hex_digit(n)),
        hex_value(hex_digit(n)) == n,
        'a' <= hex_digit(n) ==> hex_digit(n) <= 'f',
{
}

/// Lowercase hex of any 32 bytes is a preimage in text, and decodes back to
/// the same bytes.
pub proof fn lemma_hex_round_trip(b: Seq<u8>)
    ensures
        hex_decoded(hex_lower(b)) == b,
        b.len() == 32 ==> is_preimage_text(hex_lower(b)),
{
    let h = hex_lower(b);
    assert forall|i: int| 0 <= i < h.len() implies is_hex_char(#[trigger] h[i]) by {
        if i % 2 == 0 {
            lemma_hex_digit(b[i / 2] as int / 16);
        } else {
            lemma_hex_digit(b[i / 2] as int % 16);
        }
    }
    assert forall|i: int| 0 <= i < b.len() implies #[trigger] hex_decoded(h)[i] == b[i] by {
        assert((2 * i) / 2 == i);
        assert((2 * i + 1) / 2 == i);
        assert((2 * i) % 2 == 0);
        assert((2 * i + 1) % 2 == 1);
        lemma_hex_digit(b[i] as int / 16);
        lemma_hex_digit(b[i] as int % 16);
    }
    assert(hex_decoded(h) =~= b);
}

/// A fresh random preimage in lowercase hex, with the SHA-256 digest of its
/// bytes.
pub fn get_preimage_and_hash() -> (r: (String, Vec<u8>))
    ensures
        is_preimage_text(r.0@),
        r.1@ == sha256_of(hex_decoded(r.0@)),
        r.1@.len() == 32,
{
    let bytes = random_32_bytes();
    let text = serialize_hex_32(&bytes);
    let digest = sha256_digest(&bytes);
    proof {
        lemma_hex_round_trip(bytes@);
    }
    (text, digest)
}

} // verus!
