//! Publishing to Instagram through media containers: the forms that create
//! a container (one image, a carousel item, a carousel, or a standalone
//! account's image or video), the form that publishes it, and what the
//! Graph API answers.
use vstd::prelude::*;

use crate::json::{json_get, str_at, Json};
use crate::providers::pairs_view;
use crate::social::{ProviderError, PublishResult};
use crate::text::{contains, join, join_strings, push_str_chars, str_contains, string_from_chars};

verus! {

/// A Feed post needs media.
pub fn require_feed_media(media_count: usize) -> (r: Result<(), ProviderError>)
    ensures
        media_count == 0 ==> (r matches Err(ProviderError::InvalidRequest(m)) && m@
            == "Instagram Feed posts require at least one media attachment (image or video)."@),
        media_count > 0 ==> r is Ok,
{
    if media_count == 0 {
        Err(
            ProviderError::InvalidRequest(
                "Instagram Feed posts require at least one media attachment (image or video).".to_owned(),
            ),
        )
    } else {
        Ok(())
    }
}

/// A standalone account's post needs media.
pub fn require_standalone_media(media_count: usize) -> (r: Result<(), ProviderError>)
    ensures
        media_count == 0 ==> (r matches Err(ProviderError::InvalidRequest(m)) && m@
            == "Instagram requires at least one media attachment"@),
        media_count > 0 ==> r is Ok,
{
    if media_count == 0 {
        Err(ProviderError::InvalidRequest("Instagram requires at least one media attachment".to_owned()))
    } else {
        Ok(())
    }
}

/// Failing to find the business account behind the token.
pub fn business_account_error(reason: &str) -> (r: ProviderError)
    ensures
        r matches ProviderError::Api(m) && m@ == "Cannot resolve IG business account: "@ + reason@,
{
    let mut out: Vec<char> = Vec::new();
    push_str_chars(&mut out, "Cannot resolve IG business account: ");
    push_str_chars(&mut out, reason);
    ProviderError::Api(string_from_chars(&out))
}

fn push_pair(v: &mut Vec<(String, String)>, k: &str, val: &str)
    ensures
        pairs_view(final(v)@) == pairs_view(old(v)@).push((k@, val@)),
{
    v.push((k.to_owned(), val.to_owned()));
    proof {
        assert(pairs_view(v@) =~= pairs_view(old(v)@).push((k@, val@)));
    }
}

/// The form of a single-image container: the image, the token, and either
/// the caption or, for a carousel item, `is_carousel_item=true`.
pub open spec fn container_form_spec(media_url: Seq<char>, token: Seq<char>, caption: Seq<char>, carousel_item: bool) -> Seq<(Seq<char>, Seq<char>)> {
    seq![("image_url"@, media_url), ("access_token"@, token)] + if carousel_item {
        seq![("is_carousel_item"@, "true"@)]
    } else {
        seq![("caption"@, caption)]
    }
}

pub fn container_form(media_url: &str, access_token: &str, caption: &str, carousel_item: bool) -> (r: Vec<(String, String)>)
    ensures
        pairs_view(r@) == container_form_spec(media_url@, access_token@, caption@, carousel_item),
{
    let mut v: Vec<(String, String)> = Vec::new();
    assert(pairs_view(v@) =~= seq![]);
    push_pair(&mut v, "image_url", media_url);
    push_pair(&mut v, "access_token", access_token);
    if carousel_item {
        push_pair(&mut v, "is_carousel_item", "true");
    } else {
        push_pair(&mut v, "caption", caption);
    }
    proof {
        assert(pairs_view(v@) =~= container_form_spec(media_url@, access_token@, caption@, carousel_item));
    }
    v
}

/// The form of a carousel container: its children's container ids joined
/// by commas, the caption and the token.
pub fn carousel_form(children: &Vec<String>, caption: &str, access_token: &str) -> (r: Vec<(String, String)>)
    ensures
        pairs_view(r@) == seq![
            ("media_type"@, "CAROUSEL"@),
            ("children"@, join(children@.map_values(|s: String| s@), ","@)),
            ("caption"@, caption@),
            ("access_token"@, access_token@),
        ],
{
    let joined = join_strings(children, ",");
    let mut v: Vec<(String, String)> = Vec::new();
    assert(pairs_view(v@) =~= seq![]);
    push_pair(&mut v, "media_type", "CAROUSEL");
    push_pair(&mut v, "children", joined.as_str());
    push_pair(&mut v, "caption", caption);
    push_pair(&mut v, "access_token", access_token);
    v
}

/// A standalone account's container: a video when the first URL names an
/// MP4 file, else an image; the caption only for a single attachment.
pub open spec fn standalone_form_spec(first_url: Seq<char>, media_count: nat, token: Seq<char>, caption: Seq<char>) -> Seq<(Seq<char>, Seq<char>)> {
    let video = contains(first_url, ".mp4"@);
    seq![
        (if video { "video_url"@ } else { "image_url"@ }, first_url),
        ("media_type"@, if video { "VIDEO"@ } else { "IMAGE"@ }),
        ("access_token"@, token),
    ] + if media_count == 1 {
        seq![("caption"@, caption)]
    } else {
        seq![]
    }
}

pub fn standalone_container_form(first_url: &str, media_count: usize, access_token: &str, caption: &str) -> (r: Vec<(String, String)>)
    ensures
        pairs_view(r@) == standalone_form_spec(first_url@, media_count as nat, access_token@, caption@),
{
    let video = str_contains(first_url, ".mp4");
    let mut v: Vec<(String, String)> = Vec::new();
    assert(pairs_view(v@) =~= seq![]);
    if video {
        push_pair(&mut v, "video_url", first_url);
        push_pair(&mut v, "media_type", "VIDEO");
    } else {
        push_pair(&mut v, "image_url", first_url);
        push_pair(&mut v, "media_type", "IMAGE");
    }
    push_pair(&mut v, "access_token", access_token);
    if media_count == 1 {
        push_pair(&mut v, "caption", caption);
    }
    proof {
        assert(pairs_view(v@) =~= standalone_form_spec(first_url@, media_count as nat, access_token@, caption@));
    }
    v
}

/// The form that publishes a container.
pub fn publish_form(creation_id: &str, access_token: &str) -> (r: Vec<(String, String)>)
    ensures
        pairs_view(r@) == seq![("creation_id"@, creation_id@), ("access_token"@, access_token@)],
{
    let mut v: Vec<(String, String)> = Vec::new();
    assert(pairs_view(v@) =~= seq![]);
    push_pair(&mut v, "creation_id", creation_id);
    push_pair(&mut v, "access_token", access_token);
    v
}

/// What a create or publish call answered: an error object gives its
/// `message` (or `fallback`); otherwise the new object's `id`, and without
/// one an error made of `missing` and the answer as printed (`printed`).
pub open spec fn created_id_spec(json: Json, fallback: Seq<char>, missing: Seq<char>, printed: Seq<char>) -> Result<Seq<char>, Seq<char>> {
    match json_get(json, "error"@) {
        Some(Json::Object(e)) => Err(
            match str_at(Json::Object(e), "message"@) {
                Some(m) => m,
                None => fallback,
            },
        ),
        _ => match str_at(json, "id"@) {
            Some(id) => Ok(id),
            None => Err(missing + printed),
        },
    }
}

pub fn created_id(json: &Json, fallback: &str, missing: &str, printed: &str) -> (r: Result<String, ProviderError>)
    ensures
        match created_id_spec(*json, fallback@, missing@, printed@) {
            Ok(id) => r matches Ok(x) && x@ == id,
            Err(m) => r matches Err(ProviderError::Api(x)) && x@ == m,
        },
{
    if let Some(err) = json.get("error") {
        if let Json::Object(_) = err {
            let m = match err.str_at("message") {
                Some(m) => m.to_owned(),
                None => fallback.to_owned(),
            };
            return Err(ProviderError::Api(m));
        }
    }
    match json.str_at("id") {
        Some(id) => Ok(id.to_owned()),
        None => {
            let mut out: Vec<char> = Vec::new();
            push_str_chars(&mut out, missing);
            push_str_chars(&mut out, printed);
            Err(ProviderError::Api(string_from_chars(&out)))
        },
    }
}

/// A published Instagram post: its media id and `https://instagram.com/p/{id}`.
pub fn instagram_published(media_id: String) -> (r: PublishResult)
    ensures
        r.platform_post_id == media_id,
        r.platform_post_url matches Some(u) && u@ == "https://instagram.com/p/"@ + media_id@,
        r.status@ == "published"@,
{
    let mut out: Vec<char> = Vec::new();
    push_str_chars(&mut out, "https://instagram.com/p/");
    push_str_chars(&mut out, media_id.as_str());
    PublishResult { platform_post_url: Some(string_from_chars(&out)), platform_post_id: media_id, status: "published".to_owned() }
}

} // verus!
