//! OAuth helpers: PKCE code verifier and S256 challenge, and the random
//! state parameter.
use vstd::prelude::*;

use base64::Engine;
use rand::{Rng, RngCore};
use sha2::Digest;

use crate::text::{byte_len, string_from_chars};

verus! {

/// Trusted: calls `rand::thread_rng().gen_range(0..bound)`, which the rand
/// documentation says returns a value in the half-open range (and panics
/// on an empty range, which `requires` rules out). The value itself is
/// random and is not named.
#[verifier::external_body]
fn random_index(bound: usize) -> (r: usize)
    requires
        bound > 0,
    ensures
        r < bound,
{
    rand::thread_rng().gen_range(0..bound)
}

/// Trusted: fills `n` bytes with `RngCore::fill_bytes` from `rand::thread_rng()`;
/// only the length of the random result is stated.
#[verifier::external_body]
fn random_bytes(n: usize) -> (r: Vec<u8>)
    ensures
        r@.len() == n,
{
    let mut bytes = vec![0u8; n];
    RngCore::fill_bytes(&mut rand::thread_rng(), &mut bytes);
    bytes
}

/// The PKCE verifier alphabet `A-Z a-z 0-9 - . _ ~`, by position.
pub open spec fn verifier_char(i: nat) -> char {
    if i < 26 {
        ((65 + i) as u32) as char
    } else if i < 52 {
        ((97 + i - 26) as u32) as char
    } else if i < 62 {
        ((48 + i - 52) as u32) as char
    } else if i == 62 {
        '-'
    } else if i == 63 {
        '.'
    } else if i == 64 {
        '_'
    } else {
        '~'
    }
}

/// The unreserved characters that a PKCE code verifier may hold.
pub open spec fn is_verifier_char(c: char) -> bool {
    ('A' <= c && c <= 'Z') || ('a' <= c && c <= 'z') || ('0' <= c && c <= '9') || c == '-' || c
        == '.' || c == '_' || c == '~'
}

fn charset_char(i: usize) -> (c: char)
    requires
        i < 66,
    ensures
        c == verifier_char(i as nat),
        is_verifier_char(c),
        c as u32 <= 0x7F,
{
    if i < 26 {
        (65 + i as u8) as char
    } else if i < 52 {
        (97 + (i - 26) as u8) as char
    } else if i < 62 {
        (48 + (i - 52) as u8) as char
    } else if i == 62 {
        '-'
    } else if i == 63 {
        '.'
    } else if i == 64 {
        '_'
    } else {
        '~'
    }
}

/// Generate a PKCE code verifier: 128 characters, each drawn at random
/// from the unreserved alphabet.
pub fn generate_code_verifier() -> (r: String)
    ensures
        r@.len() == 128,
        byte_len(r@) == 128,
        forall|i: int| 0 <= i < r@.len() ==> is_verifier_char(#[trigger] r@[i]),
{
    let mut chars: Vec<char> = Vec::new();
    for _k in 0..128usize
        invariant
            chars@.len() == _k,
            forall|i: int| 0 <= i < chars@.len() ==> is_verifier_char(#[trigger] chars@[i]),
            forall|i: int| 0 <= i < chars@.len() ==> (#[trigger] chars@[i]) as u32 <= 0x7F,
    {
        let idx = random_index(66);
        chars.push(charset_char(idx));
    }
    proof {
        crate::content_splitter::lemma_ascii_byte_len(chars@);
    }
    string_from_chars(&chars)
}

/// The SHA-256 digest of `data`.
pub uninterp spec fn sha256(data: Seq<u8>) -> Seq<u8>;

/// Trusted: calls `sha2::Sha256::digest`; the digest is named, and its
/// length (the 32-byte output size of SHA-256) is stated.
#[verifier::external_body]
pub(crate) fn sha256_digest(data: &[u8]) -> (r: Vec<u8>)
    ensures
        r@ == sha256(data@),
        r@.len() == 32,
{
    sha2::Sha256::digest(data).to_vec()
}

/// The URL-safe base64 text of `data`, without padding.
pub uninterp spec fn base64_url_no_pad(data: Seq<u8>) -> Seq<char>;

/// Trusted: calls `base64::engine::general_purpose::URL_SAFE_NO_PAD.encode`;
/// the text is named, and its length (four characters per three bytes,
/// rounded up, as the unpadded encoding produces) is stated.
#[verifier::external_body]
fn base64_url_encode(data: &[u8]) -> (r: String)
    ensures
        r@ == base64_url_no_pad(data@),
        r@.len() == (4 * data@.len() + 2) / 3,
{
    base64::engine::general_purpose::URL_SAFE_NO_PAD.encode(data)
}

/// The standard (padded) base64 text of `data`.
pub uninterp spec fn base64_standard(data: Seq<u8>) -> Seq<char>;

/// Trusted: calls `base64::engine::general_purpose::STANDARD.encode`; the
/// text is named, and its length (four characters for every three bytes or
/// part of three, with padding) is stated.
#[verifier::external_body]
pub(crate) fn base64_standard_encode(data: &[u8]) -> (r: String)
    ensures
        r@ == base64_standard(data@),
        r@.len() == 4 * ((data@.len() + 2) / 3),
{
    base64::engine::general_purpose::STANDARD.encode(data)
}

/// Generate the S256 code challenge of a verifier: the unpadded URL-safe
/// base64 of the SHA-256 of its UTF-8 bytes (43 characters).
pub fn generate_code_challenge(verifier: &str) -> (r: String)
    ensures
        r@ == base64_url_no_pad(sha256(vstd::utf8::encode_utf8(verifier@))),
        r@.len() == 43,
{
    let digest = sha256_digest(verifier.as_bytes());
    base64_url_encode(digest.as_slice())
}

/// Lowercase hexadecimal digit of `d < 16`.
pub open spec fn hex_digit(d: nat) -> char {
    if d < 10 {
        ((48 + d) as u32) as char
    } else {
        ((97 + d - 10) as u32) as char
    }
}

/// Lowercase hexadecimal text of `bytes`, two digits per byte.
pub open spec fn hex_lower(bytes: Seq<u8>) -> Seq<char>
    decreases bytes.len(),
{
    if bytes.len() == 0 {
        seq![]
    } else {
        hex_lower(bytes.drop_last()) + seq![
            hex_digit((bytes.last() / 16) as nat),
            hex_digit((bytes.last() % 16) as nat),
        ]
    }
}

pub open spec fn is_hex_char(c: char) -> bool {
    ('0' <= c && c <= '9') || ('a' <= c && c <= 'f')
}

fn hex_char(d: u8) -> (c: char)
    requires
        d < 16,
    ensures
        c == hex_digit(d as nat),
        is_hex_char(c),
{
    if d < 10 {
        (48 + d) as char
    } else {
        (97 + (d - 10)) as char
    }
}

proof fn lemma_hex_lower_props(bytes: Seq<u8>)
    ensures
        hex_lower(bytes).len() == 2 * bytes.len(),
        forall|i: int| 0 <= i < hex_lower(bytes).len() ==> is_hex_char(#[trigger] hex_lower(bytes)[i]),
    decreases bytes.len(),
{
    if bytes.len() > 0 {
        lemma_hex_lower_props(bytes.drop_last());
        let b = bytes.last();
        let d1 = hex_digit((b / 16) as nat);
        let d2 = hex_digit((b % 16) as nat);
        assert(is_hex_char(d1) && is_hex_char(d2));
    }
}

/// `bytes` as two lowercase hex digits each (`format!("{:02x}")` per byte).
pub fn to_hex_lower(bytes: &[u8]) -> (r: String)
    ensures
        r@ == hex_lower(bytes@),
{
    let mut out: Vec<char> = Vec::new();
    let n = bytes.len();
    for i in 0..n
        invariant
            n == bytes@.len(),
            out@ == hex_lower(bytes@.take(i as int)),
    {
        let b = bytes[i];
        out.push(hex_char(b / 16));
        out.push(hex_char(b % 16));
        proof {
            assert(bytes@.take(i + 1).drop_last() =~= bytes@.take(i as int));
            assert(out@ =~= hex_lower(bytes@.take(i + 1)));
        }
    }
    assert(bytes@.take(n as int) =~= bytes@);
    string_from_chars(&out)
}

/// Generate a random OAuth state: 32 random bytes as 64 lowercase hex digits.
pub fn generate_state() -> (r: String)
    ensures
        r@.len() == 64,
        forall|i: int| 0 <= i < r@.len() ==> is_hex_char(#[trigger] r@[i]),
        exists|b: Seq<u8>| b.len() == 32 && r@ == hex_lower(b),
{
    let bytes = random_bytes(32);
    let s = to_hex_lower(bytes.as_slice());
    proof {
        lemma_hex_lower_props(bytes@);
    }
    s
}

} // verus!
