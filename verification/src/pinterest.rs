//! Pinterest: pins and their bodies, boards, the answers to publishing and
//! the account and token answers.
use vstd::prelude::*;

use crate::json::{json_get, keys_of, push_member, str_at, str_or, str_or_owned, Json};
use crate::social::{AuthToken, PageInfo, PostContent, ProviderError, PublishResult};
use crate::text::{contains, opt_str_view, push_str_chars, str_contains, string_from_chars};
use crate::tokens::{auth_view, TokenGrant};

verus! {

/// An API answer: success for a 2xx status, an expired token for 401,
/// otherwise an error with the answer's `message`, else
/// `Pinterest API error`.
pub fn pinterest_status(status: u16, json: &Json) -> (r: Result<(), ProviderError>)
    ensures
        200 <= status <= 299 ==> r is Ok,
        status == 401 ==> r matches Err(ProviderError::TokenExpired),
        !(200 <= status <= 299) && status != 401 ==> (r matches Err(ProviderError::Api(m)) && m@
            == str_or(*json, "message"@, "Pinterest API error"@)),
{
    crate::linkedin::linkedin_status(status, json, false, "Pinterest API error")
}

/// What publishing a post takes: a video pin (its first medium's address
/// holds `.mp4`), or creating a pin with this body.
pub enum PinPlan {
    Video,
    Pin(Json),
}

/// The media source of an image pin: one image by address, or several
/// (`multiple_image_urls`, each `{"url"}`, in order).
pub open spec fn media_source_ok(src: Json, post: PostContent) -> bool {
    if post.media@.len() == 1 {
        keys_of(src) == seq!["source_type"@, "url"@] && str_at(src, "source_type"@) == Some(
            "image_url"@,
        ) && str_at(src, "url"@) == Some(post.media@[0].url@)
    } else {
        keys_of(src) == seq!["source_type"@, "items"@] && str_at(src, "source_type"@) == Some(
            "multiple_image_urls"@,
        ) && match json_get(src, "items"@) {
            Some(Json::Array(items)) => items@.len() == post.media@.len() && forall|i: int|
                0 <= i < items@.len() ==> keys_of(#[trigger] items@[i]) == seq!["url"@] && str_at(
                    items@[i],
                    "url"@,
                ) == Some(post.media@[i].url@),
            _ => false,
        }
    }
}

/// `[k]` when `v` is non-empty.
pub open spec fn key_if_nonempty(v: Seq<char>, k: Seq<char>) -> Seq<Seq<char>> {
    if v.len() > 0 {
        seq![k]
    } else {
        seq![]
    }
}

fn url_item(url: &str) -> (r: Json)
    ensures
        keys_of(r) == seq!["url"@],
        str_at(r, "url"@) == Some(url@),
{
    crate::linkedin::obj1("url", Json::Str(url.to_owned()))
}

fn media_source(post: &PostContent) -> (r: Json)
    ensures
        media_source_ok(r, *post),
{
    let mut f: Vec<(String, Json)> = Vec::new();
    proof {
        assert(f@.map_values(|p: (String, Json)| p.0@) =~= Seq::<Seq<char>>::empty());
        reveal_strlit("source_type");
        reveal_strlit("url");
        reveal_strlit("items");
        assert("source_type"@[0] == 's' && "url"@[0] == 'u' && "items"@[0] == 'i');
    }
    if post.media.len() == 1 {
        push_member(&mut f, "source_type", Json::Str("image_url".to_owned()));
        push_member(&mut f, "url", Json::Str(post.media[0].url.clone()));
        let r = Json::Object(f);
        assert(keys_of(r) =~= seq!["source_type"@, "url"@]);
        r
    } else {
        let mut items: Vec<Json> = Vec::new();
        let n = post.media.len();
        for i in 0..n
            invariant
                n == post.media@.len(),
                items@.len() == i,
                forall|k: int| 0 <= k < i ==> keys_of(#[trigger] items@[k]) == seq!["url"@] && str_at(
                    items@[k],
                    "url"@,
                ) == Some(post.media@[k].url@),
        {
            items.push(url_item(post.media[i].url.as_str()));
        }
        push_member(&mut f, "source_type", Json::Str("multiple_image_urls".to_owned()));
        push_member(&mut f, "items", Json::Array(items));
        let r = Json::Object(f);
        assert(keys_of(r) =~= seq!["source_type"@, "items"@]);
        r
    }
}

/// The plan for publishing a post to the board the settings name (which
/// must be given): a video pin, or a pin with the board, the post's text as
/// description, the media source, and the settings' `title` and `link` when
/// non-empty.
pub fn pin_plan(post: &PostContent) -> (r: Result<PinPlan, ProviderError>)
    ensures
        match str_at(post.settings, "board"@) {
            None => r matches Err(ProviderError::InvalidRequest(m)) && m@ == "Missing board in settings"@,
            Some(board) => if post.media@.len() > 0 && contains(post.media@[0].url@, ".mp4"@) {
                r matches Ok(PinPlan::Video)
            } else {
                r matches Ok(PinPlan::Pin(b)) && {
                    let title = str_or(post.settings, "title"@, ""@);
                    let link = str_or(post.settings, "link"@, ""@);
                    &&& keys_of(b) == seq!["board_id"@, "description"@, "media_source"@]
                        + key_if_nonempty(title, "title"@) + key_if_nonempty(link, "link"@)
                    &&& str_at(b, "board_id"@) == Some(board)
                    &&& str_at(b, "description"@) == Some(post.content@)
                    &&& match json_get(b, "media_source"@) {
                        Some(src) => media_source_ok(src, *post),
                        None => false,
                    }
                    &&& str_at(b, "title"@) == if title.len() > 0 {
                        Some(title)
                    } else {
                        None
                    }
                    &&& str_at(b, "link"@) == if link.len() > 0 {
                        Some(link)
                    } else {
                        None
                    }
                }
            },
        },
{
    let board = match post.settings.str_at("board") {
        Some(b) => b,
        None => {
            return Err(ProviderError::InvalidRequest("Missing board in settings".to_owned()));
        },
    };
    if post.media.len() > 0 && str_contains(post.media[0].url.as_str(), ".mp4") {
        return Ok(PinPlan::Video);
    }
    let title = str_or_owned(&post.settings, "title", "");
    let link = str_or_owned(&post.settings, "link", "");
    let mut f: Vec<(String, Json)> = Vec::new();
    proof {
        assert(f@.map_values(|p: (String, Json)| p.0@) =~= Seq::<Seq<char>>::empty());
        reveal_strlit("board_id");
        reveal_strlit("description");
        reveal_strlit("media_source");
        reveal_strlit("title");
        reveal_strlit("link");
        assert("board_id"@[0] == 'b' && "description"@[0] == 'd' && "media_source"@[0] == 'm');
        assert("title"@[0] == 't' && "link"@[0] == 'l');
    }
    push_member(&mut f, "board_id", Json::Str(board.to_owned()));
    push_member(&mut f, "description", Json::Str(post.content.clone()));
    push_member(&mut f, "media_source", media_source(post));
    if title.as_str().unicode_len() > 0 {
        push_member(&mut f, "title", Json::Str(title));
    }
    if link.as_str().unicode_len() > 0 {
        push_member(&mut f, "link", Json::Str(link));
    }
    let b = Json::Object(f);
    assert(keys_of(b) =~= seq!["board_id"@, "description"@, "media_source"@] + key_if_nonempty(
        str_or(post.settings, "title"@, ""@),
        "title"@,
    ) + key_if_nonempty(str_or(post.settings, "link"@, ""@), "link"@));
    Ok(PinPlan::Pin(b))
}

/// The answer to creating a pin: its `id` and its address
/// `https://www.pinterest.com/pin/{id}`; without an id, an error with the
/// answer's `message`, else `Pinterest publish failed`.
pub fn pin_outcome(json: &Json) -> (r: Result<PublishResult, ProviderError>)
    ensures
        match str_at(*json, "id"@) {
            Some(id) => r matches Ok(p) && p.platform_post_id@ == id && opt_str_view(
                p.platform_post_url,
            ) == Some("https://www.pinterest.com/pin/"@ + id) && p.status@ == "published"@,
            None => r matches Err(ProviderError::Api(m)) && m@ == str_or(
                *json,
                "message"@,
                "Pinterest publish failed"@,
            ),
        },
{
    match json.str_at("id") {
        Some(id) => {
            let mut out: Vec<char> = Vec::new();
            push_str_chars(&mut out, "https://www.pinterest.com/pin/");
            push_str_chars(&mut out, id);
            Ok(
                PublishResult {
                    platform_post_id: id.to_owned(),
                    platform_post_url: Some(string_from_chars(&out)),
                    status: "published".to_owned(),
                },
            )
        },
        None => Err(ProviderError::Api(str_or_owned(json, "message", "Pinterest publish failed"))),
    }
}

/// The boards of a boards answer (`items`), each with its `id` and `name`
/// and nothing else.
pub fn boards(json: &Json) -> (r: Vec<PageInfo>)
    ensures
        r@.len() == match json_get(*json, "items"@) {
            Some(Json::Array(items)) => items@.len(),
            _ => 0,
        },
        match json_get(*json, "items"@) {
            Some(Json::Array(items)) => forall|i: int|
                0 <= i < r@.len() ==> (#[trigger] r@[i]).id@ == str_or(items@[i], "id"@, ""@)
                    && r@[i].name@ == str_or(items@[i], "name"@, ""@) && r@[i].access_token is None
                    && r@[i].picture is None && r@[i].username is None,
            _ => true,
        },
{
    let mut out: Vec<PageInfo> = Vec::new();
    if let Some(Json::Array(items)) = json.get("items") {
        let n = items.len();
        for i in 0..n
            invariant
                n == items@.len(),
                out@.len() == i,
                forall|k: int|
                    0 <= k < i ==> (#[trigger] out@[k]).id@ == str_or(items@[k], "id"@, ""@)
                        && out@[k].name@ == str_or(items@[k], "name"@, ""@) && out@[k].access_token
                        is None && out@[k].picture is None && out@[k].username is None,
        {
            out.push(
                PageInfo {
                    id: str_or_owned(&items[i], "id", ""),
                    name: str_or_owned(&items[i], "name", ""),
                    access_token: None,
                    picture: None,
                    username: None,
                },
            );
        }
    }
    out
}

/// The connection after a code exchange: the grant and the account's `id`,
/// `username` as both name and username, and `profile_image`.
pub fn pinterest_auth_token(grant: TokenGrant, user: &Json) -> (r: AuthToken)
    ensures
        auth_view(r) == (
            grant.access_token@,
            opt_str_view(grant.refresh_token),
            grant.expires_in,
            str_or(*user, "id"@, ""@),
            str_or(*user, "username"@, ""@),
            str_or(*user, "username"@, ""@),
            str_at(*user, "profile_image"@),
        ),
{
    AuthToken {
        access_token: grant.access_token,
        refresh_token: grant.refresh_token,
        expires_in: grant.expires_in,
        provider_user_id: str_or_owned(user, "id", ""),
        name: str_or_owned(user, "username", ""),
        username: str_or_owned(user, "username", ""),
        picture: crate::json::own_opt(user.str_at("profile_image")),
    }
}

/// How many boards are scanned for recent pins: a fifth of the limit, at
/// least one and at most ten.
pub fn boards_to_scan(limit: u32) -> (r: u32)
    ensures
        r == if limit / 5 < 1 {
            1
        } else if limit / 5 > 10 {
            10
        } else {
            limit / 5
        },
{
    let n = limit / 5;
    if n < 1 {
        1
    } else if n > 10 {
        10
    } else {
        n
    }
}

/// One pin of a board listing, before its timestamp is read.
pub struct PinPost {
    pub platform_post_id: String,
    pub text: String,
    pub title: Option<String>,
    /// `media.images.originals.url`.
    pub media_url: Option<String>,
    /// The pin's `link`, else `https://www.pinterest.com/pin/{id}`.
    pub url: String,
    pub created_at: String,
}

/// The fields of a pin: `id`, `description` and `created_at` (empty when
/// absent), `title`, the full-size image and the address.
pub fn pin_post(item: &Json) -> (r: PinPost)
    ensures
        r.platform_post_id@ == str_or(*item, "id"@, ""@),
        r.text@ == str_or(*item, "description"@, ""@),
        opt_str_view(r.title) == str_at(*item, "title"@),
        opt_str_view(r.media_url) == match crate::json::json_get3(
            *item,
            "media"@,
            "images"@,
            "originals"@,
        ) {
            Some(o) => str_at(o, "url"@),
            None => None,
        },
        r.url@ == match str_at(*item, "link"@) {
            Some(l) => l,
            None => "https://www.pinterest.com/pin/"@ + str_or(*item, "id"@, ""@),
        },
        r.created_at@ == str_or(*item, "created_at"@, ""@),
{
    let id = str_or_owned(item, "id", "");
    let url = match item.str_at("link") {
        Some(l) => l.to_owned(),
        None => {
            let mut out: Vec<char> = Vec::new();
            push_str_chars(&mut out, "https://www.pinterest.com/pin/");
            push_str_chars(&mut out, id.as_str());
            string_from_chars(&out)
        },
    };
    PinPost {
        platform_post_id: id,
        text: str_or_owned(item, "description", ""),
        title: crate::json::own_opt(item.str_at("title")),
        media_url: match item.get3("media", "images", "originals") {
            Some(o) => crate::json::own_opt(o.str_at("url")),
            None => None,
        },
        url,
        created_at: str_or_owned(item, "created_at", ""),
    }
}

} // verus!
