//! Outbound webhooks: HMAC-SHA256 signing of the payload and the
//! classification of delivery results.
use vstd::prelude::*;

use crate::pkce::{hex_lower, sha256, sha256_digest};
use crate::text::{push_str_chars, string_from_chars};

verus! {

/// The SHA-256 block size in bytes.
pub open spec fn block_size() -> nat {
    64
}

/// The HMAC key block: keys longer than a block are hashed first, then the
/// key is padded with zero bytes to the block size.
pub open spec fn key_block(key: Seq<u8>) -> Seq<u8> {
    let k = if key.len() > block_size() {
        sha256(key)
    } else {
        key
    };
    k + Seq::new((block_size() - k.len()) as nat, |i: int| 0u8)
}

/// Each byte of `s` XOR `pad`.
pub open spec fn xor_pad(s: Seq<u8>, pad: u8) -> Seq<u8> {
    s.map_values(|b: u8| b ^ pad)
}

/// HMAC-SHA256 (RFC 2104): `H((K' ^ opad) || H((K' ^ ipad) || m))`.
pub open spec fn hmac_sha256_spec(key: Seq<u8>, message: Seq<u8>) -> Seq<u8> {
    let kb = key_block(key);
    sha256(xor_pad(kb, 0x5c) + sha256(xor_pad(kb, 0x36) + message))
}

fn xor_into(out: &mut Vec<u8>, kb: &Vec<u8>, pad: u8)
    ensures
        final(out)@ == old(out)@ + xor_pad(kb@, pad),
{
    let n = kb.len();
    for i in 0..n
        invariant
            n == kb@.len(),
            out@ == old(out)@ + xor_pad(kb@.take(i as int), pad),
    {
        out.push(kb[i] ^ pad);
        assert(out@ =~= old(out)@ + xor_pad(kb@.take(i + 1), pad));
    }
    assert(kb@.take(n as int) =~= kb@);
}

/// Compute HMAC-SHA256 of `message` under `key`.
pub fn hmac_sha256(key: &[u8], message: &[u8]) -> (r: Vec<u8>)
    ensures
        r@ == hmac_sha256_spec(key@, message@),
        r@.len() == 32,
{
    let mut kb: Vec<u8> = if key.len() > 64 {
        sha256_digest(key)
    } else {
        vstd::slice::slice_to_vec(key)
    };
    let ghost k = kb@;
    while kb.len() < 64
        invariant
            k.len() <= kb@.len() <= 64,
            kb@ == k + Seq::new((kb@.len() - k.len()) as nat, |i: int| 0u8),
        decreases 64 - kb@.len(),
    {
        kb.push(0u8);
        assert(kb@ =~= k + Seq::new((kb@.len() - k.len()) as nat, |i: int| 0u8));
    }
    assert(kb@ =~= key_block(key@));
    let mut inner: Vec<u8> = Vec::new();
    xor_into(&mut inner, &kb, 0x36);
    let m = message.len();
    for i in 0..m
        invariant
            m == message@.len(),
            inner@ == xor_pad(kb@, 0x36) + message@.take(i as int),
    {
        inner.push(message[i]);
        assert(inner@ =~= xor_pad(kb@, 0x36) + message@.take(i + 1));
    }
    assert(message@.take(m as int) =~= message@);
    let inner_hash = sha256_digest(inner.as_slice());
    let mut outer: Vec<u8> = Vec::new();
    xor_into(&mut outer, &kb, 0x5c);
    for i in 0..32usize
        invariant
            inner_hash@.len() == 32,
            outer@ == xor_pad(kb@, 0x5c) + inner_hash@.take(i as int),
    {
        outer.push(inner_hash[i]);
        assert(outer@ =~= xor_pad(kb@, 0x5c) + inner_hash@.take(i + 1));
    }
    assert(inner_hash@.take(32) =~= inner_hash@);
    sha256_digest(outer.as_slice())
}

/// Trusted: calls `hex::encode`, which the hex crate documents as encoding
/// each byte as two lowercase hexadecimal characters.
#[verifier::external_body]
fn hex_encode(data: &[u8]) -> (r: String)
    ensures
        r@ == hex_lower(data@),
{
    hex::encode(data)
}

/// The `X-Webhook-Signature` header value: `sha256=` and the hex HMAC of the
/// body under the webhook's secret.
pub fn webhook_signature(secret: &str, body: &str) -> (r: String)
    ensures
        r@ == "sha256="@ + hex_lower(
            hmac_sha256_spec(vstd::utf8::encode_utf8(secret@), vstd::utf8::encode_utf8(body@)),
        ),
{
    let sig = hmac_sha256(secret.as_bytes(), body.as_bytes());
    let hex = hex_encode(sig.as_slice());
    let mut out: Vec<char> = Vec::new();
    push_str_chars(&mut out, "sha256=");
    push_str_chars(&mut out, hex.as_str());
    string_from_chars(&out)
}

/// Delivery status recorded for a webhook attempt.
#[derive(PartialEq, Eq, Structural, Clone, Copy)]
pub enum DeliveryStatus {
    Delivered,
    Failed,
}

/// A response of 200 or 201 counts as delivered; any other response, or no
/// response, as failed.
pub fn delivery_status(status_code: Option<u16>) -> (r: DeliveryStatus)
    ensures
        r == (match status_code {
            Some(c) => if c == 200 || c == 201 {
                DeliveryStatus::Delivered
            } else {
                DeliveryStatus::Failed
            },
            None => DeliveryStatus::Failed,
        }),
{
    match status_code {
        Some(c) => if c == 200 || c == 201 {
            DeliveryStatus::Delivered
        } else {
            DeliveryStatus::Failed
        },
        None => DeliveryStatus::Failed,
    }
}

impl DeliveryStatus {
    /// The status as stored: `delivered` or `failed`.
    pub fn as_str(&self) -> (r: &'static str)
        ensures
            r@ == (match self {
                DeliveryStatus::Delivered => "delivered"@,
                DeliveryStatus::Failed => "failed"@,
            }),
    {
        match self {
            DeliveryStatus::Delivered => "delivered",
            DeliveryStatus::Failed => "failed",
        }
    }
}

} // verus!
