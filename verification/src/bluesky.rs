//! Bluesky (AT Protocol): the session and handle answers, the post record
//! and its image embed, and the answer to creating the record.
use vstd::prelude::*;

use crate::json::{str_at, str_or, str_or_owned, Json};
use crate::social::{MediaAttachment, ProviderError, PublishResult};
use crate::text::{after_last, after_last_str, opt_str_view, push_str_chars, starts_with, str_starts_with, string_from_chars};

verus! {

/// The session token of a `createSession` answer.
pub fn session_token(status: u16, json: &Json) -> (r: Result<String, ProviderError>)
    ensures
        status == 200 ==> match str_at(*json, "accessJwt"@) {
            Some(t) => r matches Ok(x) && x@ == t,
            None => r matches Err(ProviderError::Auth(m)) && m@ == "Missing accessJwt"@,
        },
        status != 200 ==> (r matches Err(ProviderError::Auth(m)) && m@ == str_or(
            *json,
            "message"@,
            "Bluesky auth failed"@,
        )),
{
    if status == 200 {
        match json.str_at("accessJwt") {
            Some(t) => Ok(t.to_owned()),
            None => Err(ProviderError::Auth("Missing accessJwt".to_owned())),
        }
    } else {
        Err(ProviderError::Auth(str_or_owned(json, "message", "Bluesky auth failed")))
    }
}

/// The DID of a `resolveHandle` answer.
pub fn resolved_did(json: &Json) -> (r: Result<String, ProviderError>)
    ensures
        match str_at(*json, "did"@) {
            Some(d) => r matches Ok(x) && x@ == d,
            None => r matches Err(ProviderError::Auth(m)) && m@ == "Could not resolve handle"@,
        },
{
    match json.str_at("did") {
        Some(d) => Ok(d.to_owned()),
        None => Err(ProviderError::Auth("Could not resolve handle".to_owned())),
    }
}

/// The attachment that becomes the post's image: the first image.
pub open spec fn first_image_spec(media: Seq<MediaAttachment>) -> Option<int>
    decreases media.len(),
{
    if media.len() == 0 {
        None
    } else if starts_with(media[0].mime_type@, "image/"@) {
        Some(0)
    } else {
        match first_image_spec(media.drop_first()) {
            Some(i) => Some(i + 1),
            None => None,
        }
    }
}

pub fn first_image(media: &Vec<MediaAttachment>) -> (r: Option<usize>)
    ensures
        match first_image_spec(media@) {
            Some(i) => r == Some(i as usize),
            None => r is None,
        },
{
    let n = media.len();
    assert(media@.skip(0) =~= media@);
    for i in 0..n
        invariant
            n == media@.len(),
            first_image_spec(media@) == match first_image_spec(media@.skip(i as int)) {
                Some(j) => Some(j + i),
                None => None,
            },
    {
        assert(media@.skip(i as int)[0] == media@[i as int]);
        assert(media@.skip(i as int).drop_first() =~= media@.skip(i + 1));
        if str_starts_with(media[i].mime_type.as_str(), "image/") {
            return Some(i);
        }
    }
    assert(media@.skip(n as int).len() == 0);
    None
}

/// `{"$type": "app.bsky.embed.images", "images": [{"alt": alt, "image": blob}]}`.
pub fn images_embed(alt: Option<&str>, blob: Json) -> (r: Json)
    ensures
        r matches Json::Object(f) && f@.len() == 2 && f@[0].0@ == "$type"@ && f@[0].1
            == Json::Str(f@[0].1->Str_0) && f@[0].1->Str_0@ == "app.bsky.embed.images"@ && f@[1].0@
            == "images"@ && f@[1].1 is Array && f@[1].1->Array_0@.len() == 1 && image_entry(
            f@[1].1->Array_0@[0],
            match alt {
                Some(a) => a@,
                None => ""@,
            },
            blob,
        ),
{
    let alt_text = match alt {
        Some(a) => a.to_owned(),
        None => "".to_owned(),
    };
    let mut entry: Vec<(String, Json)> = Vec::new();
    entry.push(("alt".to_owned(), Json::Str(alt_text)));
    entry.push(("image".to_owned(), blob));
    let mut images: Vec<Json> = Vec::new();
    images.push(Json::Object(entry));
    let mut f: Vec<(String, Json)> = Vec::new();
    f.push(("$type".to_owned(), Json::Str("app.bsky.embed.images".to_owned())));
    f.push(("images".to_owned(), Json::Array(images)));
    Json::Object(f)
}

/// `{"alt": alt, "image": blob}`.
pub open spec fn image_entry(j: Json, alt: Seq<char>, blob: Json) -> bool {
    match j {
        Json::Object(e) => e@.len() == 2 && e@[0].0@ == "alt"@ && (e@[0].1 matches Json::Str(a)
            && a@ == alt) && e@[1].0@ == "image"@ && e@[1].1 == blob,
        _ => false,
    }
}

/// The post record: its type, creation time, text and, when given, embed.
pub fn post_record(text: &str, created_at: &str, embed: Option<Json>) -> (r: Json)
    ensures
        r matches Json::Object(f) && f@.len() == (if embed is Some { 4int } else { 3int }) && f@[0].0@
            == "$type"@ && (f@[0].1 matches Json::Str(t) && t@ == "app.bsky.feed.post"@) && f@[1].0@
            == "createdAt"@ && (f@[1].1 matches Json::Str(c) && c@ == created_at@) && f@[2].0@
            == "text"@ && (f@[2].1 matches Json::Str(x) && x@ == text@) && (embed matches Some(e)
            ==> f@[3].0@ == "embed"@ && f@[3].1 == e),
{
    let mut f: Vec<(String, Json)> = Vec::new();
    f.push(("$type".to_owned(), Json::Str("app.bsky.feed.post".to_owned())));
    f.push(("createdAt".to_owned(), Json::Str(created_at.to_owned())));
    f.push(("text".to_owned(), Json::Str(text.to_owned())));
    match embed {
        Some(e) => f.push(("embed".to_owned(), e)),
        None => {},
    }
    Json::Object(f)
}

/// `{"repo": did, "collection": "app.bsky.feed.post", "record": record}`.
pub fn create_record_body(did: &str, record: Json) -> (r: Json)
    ensures
        r matches Json::Object(f) && f@.len() == 3 && f@[0].0@ == "repo"@ && (f@[0].1 matches Json::Str(
            d,
        ) && d@ == did@) && f@[1].0@ == "collection"@ && (f@[1].1 matches Json::Str(c) && c@
            == "app.bsky.feed.post"@) && f@[2].0@ == "record"@ && f@[2].1 == record,
{
    let mut f: Vec<(String, Json)> = Vec::new();
    f.push(("repo".to_owned(), Json::Str(did.to_owned())));
    f.push(("collection".to_owned(), Json::Str("app.bsky.feed.post".to_owned())));
    f.push(("record".to_owned(), record));
    Json::Object(f)
}

/// The answer to creating the post: on 200 its `cid` and the post's web
/// address `https://bsky.app/profile/{handle}/post/{rkey}`, the record key
/// being the end of its `uri`; otherwise an error with its `message`.
pub fn publish_outcome(status: u16, json: &Json, handle: &str) -> (r: Result<PublishResult, ProviderError>)
    ensures
        status == 200 ==> (r matches Ok(p) && p.platform_post_id@ == str_or(*json, "cid"@, ""@)
            && opt_str_view(p.platform_post_url) == Some("https://bsky.app/profile/"@ + handle@
            + "/post/"@ + after_last(str_or(*json, "uri"@, ""@), '/')) && p.status@ == "published"@),
        status != 200 ==> (r matches Err(ProviderError::Api(m)) && m@ == str_or(
            *json,
            "message"@,
            "Bluesky publish failed"@,
        )),
{
    if status != 200 {
        return Err(ProviderError::Api(str_or_owned(json, "message", "Bluesky publish failed")));
    }
    let uri = str_or_owned(json, "uri", "");
    let rkey = after_last_str(uri.as_str(), '/');
    let mut out: Vec<char> = Vec::new();
    push_str_chars(&mut out, "https://bsky.app/profile/");
    push_str_chars(&mut out, handle);
    push_str_chars(&mut out, "/post/");
    push_str_chars(&mut out, rkey.as_str());
    Ok(
        PublishResult {
            platform_post_id: str_or_owned(json, "cid", ""),
            platform_post_url: Some(string_from_chars(&out)),
            status: "published".to_owned(),
        },
    )
}


} // verus!
