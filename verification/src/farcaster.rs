//! Farcaster through the Neynar API: the cast request, what its answer
//! means, and how a signer is shown as a connectable account.
use vstd::prelude::*;

use crate::content_splitter::{char_index_at_byte, cut, has_cut};
use crate::json::{json_get2, str_at, Json};
use crate::meta::opt_str;
use crate::providers::{map_error_spec, ProviderKind};
use crate::social::{PageInfo, ProviderError, PublishResult};
use crate::text::{byte_len, byte_len_of, chars_of, opt_str_view, push_str_chars, string_from_chars};

verus! {

/// Publishing needs the Neynar API key.
pub fn neynar_key(key: Option<&str>) -> (r: Result<String, ProviderError>)
    ensures
        match key {
            Some(k) => r matches Ok(x) && x@ == k@,
            None => r matches Err(ProviderError::Api(m)) && m@
                == "NEYNAR_API_KEY not configured. Set it in your .env file."@,
        },
{
    match key {
        Some(k) => Ok(k.to_owned()),
        None => Err(ProviderError::Api("NEYNAR_API_KEY not configured. Set it in your .env file.".to_owned())),
    }
}

/// `{"signer_uuid": signer, "text": text}`.
pub fn cast_body(signer_uuid: &str, text: &str) -> (r: Json)
    ensures
        crate::business_profile::is_string_object(r, seq![("signer_uuid"@, signer_uuid@), ("text"@, text@)]),
{
    let mut f: Vec<(String, Json)> = Vec::new();
    f.push(("signer_uuid".to_owned(), Json::Str(signer_uuid.to_owned())));
    f.push(("text".to_owned(), Json::Str(text.to_owned())));
    Json::Object(f)
}

/// The hash of a created cast (`unknown` when the answer has none).
pub open spec fn cast_hash(json: Json) -> Seq<char> {
    match opt_str(json_get2(json, "cast"@, "hash"@)) {
        Some(h) => h,
        None => "unknown"@,
    }
}

/// What a cast answer means: on 200 or 201 the cast and its Warpcast
/// address; otherwise the provider's message for the body and status, else
/// the answer's `message`, else its `error`, else a fixed text. `json` is
/// the body read as JSON (`null` when it is not).
pub fn cast_outcome(status: u16, body: &str, json: &Json) -> (r: Result<PublishResult, ProviderError>)
    ensures
        (status == 200 || status == 201) ==> (r matches Ok(p) && p.platform_post_id@ == cast_hash(*json)
            && opt_str_view(p.platform_post_url) == Some("https://warpcast.com/"@ + cast_hash(*json))
            && p.status@ == "published"@),
        !(status == 200 || status == 201) ==> (r matches Err(ProviderError::Api(m)) && m@ == match map_error_spec(
            ProviderKind::Farcaster,
            body@,
            status,
            None,
        ) {
            Some(c) => c,
            None => match str_at(*json, "message"@) {
                Some(x) => x,
                None => match str_at(*json, "error"@) {
                    Some(x) => x,
                    None => "Farcaster publish failed"@,
                },
            },
        }),
{
    if status == 200 || status == 201 {
        let hash = match json.get2("cast", "hash") {
            Some(v) => match v.as_str() {
                Some(h) => h.to_owned(),
                None => "unknown".to_owned(),
            },
            None => "unknown".to_owned(),
        };
        let mut url: Vec<char> = Vec::new();
        push_str_chars(&mut url, "https://warpcast.com/");
        push_str_chars(&mut url, hash.as_str());
        return Ok(
            PublishResult {
                platform_post_id: hash,
                platform_post_url: Some(string_from_chars(&url)),
                status: "published".to_owned(),
            },
        );
    }
    if let Some(custom) = ProviderKind::Farcaster.map_error(body, status, None) {
        return Err(ProviderError::Api(custom));
    }
    let m = match json.str_at("message") {
        Some(x) => x.to_owned(),
        None => match json.str_at("error") {
            Some(x) => x.to_owned(),
            None => "Farcaster publish failed".to_owned(),
        },
    };
    Err(ProviderError::Api(m))
}

/// Text longer than `limit` bytes shortened to its first `head` and last
/// `tail` bytes around `...`.
pub open spec fn abbreviated(s: Seq<char>, limit: nat, head: nat, tail: nat) -> Seq<char> {
    if byte_len(s) > limit {
        s.take(cut(s, head)) + "..."@ + s.skip(cut(s, (byte_len(s) - tail) as nat))
    } else {
        s
    }
}

/// The cuts that `abbreviated` makes fall on character boundaries.
pub open spec fn can_abbreviate(s: Seq<char>, limit: nat, head: nat, tail: nat) -> bool {
    byte_len(s) > limit ==> has_cut(s, head) && byte_len(s) >= tail && has_cut(
        s,
        (byte_len(s) - tail) as nat,
    )
}

/// `s` shortened as `abbreviated` describes.
pub fn abbreviate(s: &str, limit: usize, head: usize, tail: usize) -> (r: String)
    requires
        byte_len(s@) <= usize::MAX,
        can_abbreviate(s@, limit as nat, head as nat, tail as nat),
    ensures
        r@ == abbreviated(s@, limit as nat, head as nat, tail as nat),
{
    let v = chars_of(s);
    let len = byte_len_of(&v);
    if len <= limit {
        return s.to_owned();
    }
    let a = char_index_at_byte(&v, head);
    let b = char_index_at_byte(&v, len - tail);
    let mut out: Vec<char> = Vec::new();
    let mut i: usize = 0;
    while i < a
        invariant
            a <= v@.len(),
            i <= a,
            out@ == v@.take(i as int),
        decreases a - i,
    {
        out.push(v[i]);
        i = i + 1;
        assert(out@ =~= v@.take(i as int));
    }
    push_str_chars(&mut out, "...");
    let ghost mid = out@;
    let mut k: usize = b;
    while k < v.len()
        invariant
            b <= k <= v@.len(),
            out@ == mid + v@.subrange(b as int, k as int),
        decreases v@.len() - k,
    {
        out.push(v[k]);
        k = k + 1;
        assert(out@ =~= mid + v@.subrange(b as int, k as int));
    }
    assert(v@.subrange(b as int, v@.len() as int) =~= v@.skip(b as int));
    string_from_chars(&out)
}

/// A long signer is shown by its first six and last four bytes.
pub open spec fn signer_display(s: Seq<char>) -> Seq<char> {
    abbreviated(s, 10, 6, 4)
}

/// The signer as the one account a Farcaster connection has.
pub fn signer_page(signer: &str) -> (r: PageInfo)
    requires
        byte_len(signer@) <= usize::MAX,
        can_abbreviate(signer@, 10, 6, 4),
    ensures
        r.id@ == signer@,
        r.name@ == "Farcaster ("@ + signer_display(signer@) + ")"@,
        opt_str_view(r.access_token) == Some(signer@),
        r.picture is None,
        opt_str_view(r.username) == Some(signer@),
{
    let shown = abbreviate(signer, 10, 6, 4);
    let mut name: Vec<char> = Vec::new();
    push_str_chars(&mut name, "Farcaster (");
    push_str_chars(&mut name, shown.as_str());
    push_str_chars(&mut name, ")");
    PageInfo {
        id: signer.to_owned(),
        name: string_from_chars(&name),
        access_token: Some(signer.to_owned()),
        picture: None,
        username: Some(signer.to_owned()),
    }
}

} // verus!
