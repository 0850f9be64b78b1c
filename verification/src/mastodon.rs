//! Mastodon: the API answers, timelines and search, media upload, the
//! status body and the app registration and token requests of the OAuth
//! flow.
use vstd::prelude::*;

use crate::json::{json_as_bool, json_get, keys_of, push_member, str_at, str_or, str_or_owned, Json};
use crate::meta::int_text;
use crate::providers::{scopes_spec, ProviderKind};
use crate::social::{AuthToken, MediaAttachment, PageInfo, PostContent, ProviderError, PublishResult};
use crate::text::{join, join_strings, opt_str_view, push_str_chars, starts_with, str_starts_with, string_from_chars};
use crate::tokens::{auth_view, TokenGrant};

verus! {

/// An API answer: success for a 2xx status, an expired token for 401,
/// otherwise an error with the answer's `error`, else
/// `Unknown Mastodon API error`.
pub fn mastodon_status(status: u16, json: &Json) -> (r: Result<(), ProviderError>)
    ensures
        200 <= status <= 299 ==> r is Ok,
        status == 401 ==> r matches Err(ProviderError::TokenExpired),
        !(200 <= status <= 299) && status != 401 ==> (r matches Err(ProviderError::Api(m)) && m@
            == str_or(*json, "error"@, "Unknown Mastodon API error"@)),
{
    if 200 <= status && status <= 299 {
        return Ok(());
    }
    if status == 401 {
        return Err(ProviderError::TokenExpired);
    }
    Err(ProviderError::Api(str_or_owned(json, "error", "Unknown Mastodon API error")))
}

/// The timeline a name asks for: `home`, `public?local=true` for `local`,
/// `trends` for `trending`, `public`; `home` for anything else.
pub open spec fn timeline_spec(t: Seq<char>) -> Seq<char> {
    if t == "local"@ {
        "public?local=true"@
    } else if t == "trending"@ {
        "trends"@
    } else if t == "public"@ {
        "public"@
    } else {
        "home"@
    }
}

/// The API path of a timeline: `/api/v1/trends/statuses?limit={n}` for the
/// trends, else `/api/v1/timelines/{timeline}?limit={n}`.
pub open spec fn timeline_path_spec(t: Seq<char>, limit: i32) -> Seq<char> {
    let tl = timeline_spec(t);
    if tl == "trends"@ {
        "/api/v1/trends/statuses?limit="@ + int_text(limit as int)
    } else {
        "/api/v1/timelines/"@ + tl + "?limit="@ + int_text(limit as int)
    }
}

/// The API path of the named timeline, as `timeline_path_spec` describes.
pub fn timeline_path(timeline_type: &str, limit: i32) -> (r: String)
    ensures
        r@ == timeline_path_spec(timeline_type@, limit),
{
    let t = crate::text::chars_of(timeline_type);
    let tl: &str = if crate::text::is_lit(&t, "local") {
        "public?local=true"
    } else if crate::text::is_lit(&t, "trending") {
        "trends"
    } else if crate::text::is_lit(&t, "public") {
        "public"
    } else {
        "home"
    };
    proof {
        reveal_strlit("trends");
        reveal_strlit("public?local=true");
        reveal_strlit("public");
        reveal_strlit("home");
    }
    let mut out: Vec<char> = Vec::new();
    if crate::text::str_eq(tl, "trends") {
        push_str_chars(&mut out, "/api/v1/trends/statuses?limit=");
    } else {
        push_str_chars(&mut out, "/api/v1/timelines/");
        push_str_chars(&mut out, tl);
        push_str_chars(&mut out, "?limit=");
    }
    crate::meta::push_i64(&mut out, limit as i64);
    string_from_chars(&out)
}

/// The API path of a search: `/api/v2/search?q={query, escaped}&limit={n}`.
pub fn search_path(query: &str, limit: i32) -> (r: String)
    ensures
        r@ == "/api/v2/search?q="@ + crate::fediverse::escape_bytes(
            vstd::utf8::encode_utf8(query@),
        ) + "&limit="@ + int_text(limit as int),
{
    let q = crate::fediverse::urlencoding(query);
    let mut out: Vec<char> = Vec::new();
    push_str_chars(&mut out, "/api/v2/search?q=");
    push_str_chars(&mut out, q.as_str());
    push_str_chars(&mut out, "&limit=");
    crate::meta::push_i64(&mut out, limit as i64);
    string_from_chars(&out)
}

/// The file extension an upload of this MIME type is named with.
pub open spec fn media_extension_spec(mime: Seq<char>) -> Seq<char> {
    if starts_with(mime, "image/jpeg"@) || mime == "image/jpg"@ {
        "jpg"@
    } else if starts_with(mime, "image/png"@) {
        "png"@
    } else if starts_with(mime, "image/gif"@) {
        "gif"@
    } else if starts_with(mime, "image/webp"@) {
        "webp"@
    } else if starts_with(mime, "video/"@) {
        "mp4"@
    } else {
        "jpg"@
    }
}

/// The file extension for an uploaded medium of type `mime`.
pub fn media_extension(mime: &str) -> (r: &'static str)
    ensures
        r@ == media_extension_spec(mime@),
{
    if str_starts_with(mime, "image/jpeg") || crate::text::str_eq(mime, "image/jpg") {
        "jpg"
    } else if str_starts_with(mime, "image/png") {
        "png"
    } else if str_starts_with(mime, "image/gif") {
        "gif"
    } else if str_starts_with(mime, "image/webp") {
        "webp"
    } else if str_starts_with(mime, "video/") {
        "mp4"
    } else {
        "jpg"
    }
}

/// The MIME type a medium is uploaded as: its own, or `image/jpeg` when it
/// has none.
pub fn upload_mime(media: &MediaAttachment) -> (r: &str)
    ensures
        r@ == if media.mime_type@.len() == 0 {
            "image/jpeg"@
        } else {
            media.mime_type@
        },
{
    if media.mime_type.as_str().unicode_len() == 0 {
        "image/jpeg"
    } else {
        media.mime_type.as_str()
    }
}

/// The answer to an upload: the medium's `id`; an error with the answer's
/// `error` (else `Media upload failed`) on a failing status, or when the id
/// is missing.
pub fn upload_outcome(status: u16, json: &Json) -> (r: Result<String, ProviderError>)
    ensures
        !(200 <= status <= 299) ==> (r matches Err(ProviderError::Api(m)) && m@ == str_or(
            *json,
            "error"@,
            "Media upload failed"@,
        )),
        200 <= status <= 299 ==> match str_at(*json, "id"@) {
            Some(id) => r matches Ok(x) && x@ == id,
            None => r matches Err(ProviderError::Api(m)) && m@ == "Missing media ID from response"@,
        },
{
    if !(200 <= status && status <= 299) {
        return Err(ProviderError::Api(str_or_owned(json, "error", "Media upload failed")));
    }
    match json.str_at("id") {
        Some(id) => Ok(id.to_owned()),
        None => Err(ProviderError::Api("Missing media ID from response".to_owned())),
    }
}

/// `[k]` when `present`.
pub open spec fn opt_key(present: bool, k: Seq<char>) -> Seq<Seq<char>> {
    if present {
        seq![k]
    } else {
        seq![]
    }
}

/// The boolean `settings[key]`, if it is one.
pub open spec fn bool_at(j: Json, key: Seq<char>) -> Option<bool> {
    match json_get(j, key) {
        Some(v) => json_as_bool(v),
        None => None,
    }
}

/// The members of a status body, in order: `status`, `visibility`, then
/// `media_ids` when media were uploaded, and `in_reply_to_id`,
/// `spoiler_text`, `language` and `sensitive` when the settings give them.
pub open spec fn status_keys(settings: Json, has_media: bool) -> Seq<Seq<char>> {
    seq!["status"@, "visibility"@] + opt_key(has_media, "media_ids"@) + opt_key(
        str_at(settings, "in_reply_to_id"@) is Some,
        "in_reply_to_id"@,
    ) + opt_key(str_at(settings, "spoiler_text"@) is Some, "spoiler_text"@) + opt_key(
        str_at(settings, "language"@) is Some,
        "language"@,
    ) + opt_key(bool_at(settings, "sensitive"@) is Some, "sensitive"@)
}

/// The string member `key` of `r` is that of the settings, present exactly
/// when the settings give it.
pub open spec fn copied_str(r: Json, settings: Json, key: Seq<char>) -> bool {
    (json_get(r, key) is Some <==> str_at(settings, key) is Some) && str_at(r, key) == str_at(
        settings,
        key,
    )
}

/// `j` is an array of the strings `ids`, in order.
pub open spec fn is_id_array(j: Json, ids: Seq<String>) -> bool {
    j matches Json::Array(a) && a@.len() == ids.len() && forall|i: int|
        0 <= i < ids.len() ==> crate::linkedin::is_str(#[trigger] a@[i], ids[i]@)
}

fn id_array(ids: &Vec<String>) -> (r: Json)
    ensures
        is_id_array(r, ids@),
{
    let mut a: Vec<Json> = Vec::new();
    let n = ids.len();
    for i in 0..n
        invariant
            n == ids@.len(),
            a@.len() == i,
            forall|k: int| 0 <= k < i ==> crate::linkedin::is_str(#[trigger] a@[k], ids@[k]@),
    {
        a.push(Json::Str(ids[i].clone()));
    }
    Json::Array(a)
}

/// The body of a new status: the post's text, its visibility (`public` by
/// default), the uploaded media and the optional settings, as
/// `status_keys` lists them.
pub fn status_body(post: &PostContent, media_ids: &Vec<String>) -> (r: Json)
    ensures
        keys_of(r) == status_keys(post.settings, media_ids@.len() > 0),
        str_at(r, "status"@) == Some(post.content@),
        str_at(r, "visibility"@) == Some(str_or(post.settings, "visibility"@, "public"@)),
        match json_get(r, "media_ids"@) {
            Some(a) => media_ids@.len() > 0 && is_id_array(a, media_ids@),
            None => media_ids@.len() == 0,
        },
        copied_str(r, post.settings, "in_reply_to_id"@),
        copied_str(r, post.settings, "spoiler_text"@),
        copied_str(r, post.settings, "language"@),
        json_get(r, "sensitive"@) == match bool_at(post.settings, "sensitive"@) {
            Some(b) => Some(Json::Bool(b)),
            None => None,
        },
{
    let mut f: Vec<(String, Json)> = Vec::new();
    proof {
        assert(f@.map_values(|p: (String, Json)| p.0@) =~= Seq::<Seq<char>>::empty());
        reveal_strlit("status");
        reveal_strlit("visibility");
        reveal_strlit("media_ids");
        reveal_strlit("in_reply_to_id");
        reveal_strlit("spoiler_text");
        reveal_strlit("language");
        reveal_strlit("sensitive");
        assert("status"@[0] == 's' && "status"@[1] == 't' && "visibility"@[0] == 'v');
        assert("media_ids"@[0] == 'm' && "in_reply_to_id"@[0] == 'i' && "language"@[0] == 'l');
        assert("spoiler_text"@[0] == 's' && "spoiler_text"@[1] == 'p');
        assert("sensitive"@[0] == 's' && "sensitive"@[1] == 'e');
    }
    push_member(&mut f, "status", Json::Str(post.content.clone()));
    push_member(&mut f, "visibility", Json::Str(str_or_owned(&post.settings, "visibility", "public")));
    if media_ids.len() > 0 {
        push_member(&mut f, "media_ids", id_array(media_ids));
    }
    if let Some(x) = post.settings.str_at("in_reply_to_id") {
        push_member(&mut f, "in_reply_to_id", Json::Str(x.to_owned()));
    }
    if let Some(x) = post.settings.str_at("spoiler_text") {
        push_member(&mut f, "spoiler_text", Json::Str(x.to_owned()));
    }
    if let Some(x) = post.settings.str_at("language") {
        push_member(&mut f, "language", Json::Str(x.to_owned()));
    }
    if let Some(v) = post.settings.get("sensitive") {
        if let Some(b) = v.as_bool() {
            push_member(&mut f, "sensitive", Json::Bool(b));
        }
    }
    let r = Json::Object(f);
    assert(keys_of(r) =~= status_keys(post.settings, media_ids@.len() > 0));
    r
}

/// The answer to posting a status: its `id` (empty when absent) and `url`;
/// on a failing status an error with the answer's `error`, else
/// `Publish failed`.
pub fn publish_outcome(status: u16, json: &Json) -> (r: Result<PublishResult, ProviderError>)
    ensures
        !(200 <= status <= 299) ==> (r matches Err(ProviderError::Api(m)) && m@ == str_or(
            *json,
            "error"@,
            "Publish failed"@,
        )),
        200 <= status <= 299 ==> (r matches Ok(p) && p.platform_post_id@ == str_or(*json, "id"@, ""@)
            && opt_str_view(p.platform_post_url) == str_at(*json, "url"@) && p.status@
            == "published"@),
{
    if !(200 <= status && status <= 299) {
        return Err(ProviderError::Api(str_or_owned(json, "error", "Publish failed")));
    }
    Ok(
        PublishResult {
            platform_post_id: str_or_owned(json, "id", ""),
            platform_post_url: crate::json::own_opt(json.str_at("url")),
            status: "published".to_owned(),
        },
    )
}

/// The page profile of an account answer: `id`, `display_name`, the given
/// token, `avatar` and `username`.
pub fn account_page(info: &Json, access_token: &str) -> (r: PageInfo)
    ensures
        r.id@ == str_or(*info, "id"@, ""@),
        r.name@ == str_or(*info, "display_name"@, ""@),
        opt_str_view(r.access_token) == Some(access_token@),
        opt_str_view(r.picture) == str_at(*info, "avatar"@),
        opt_str_view(r.username) == str_at(*info, "username"@),
{
    PageInfo {
        id: str_or_owned(info, "id", ""),
        name: str_or_owned(info, "display_name", ""),
        access_token: Some(access_token.to_owned()),
        picture: crate::json::own_opt(info.str_at("avatar")),
        username: crate::json::own_opt(info.str_at("username")),
    }
}

/// The scopes asked for, separated by spaces.
pub open spec fn scope_text() -> Seq<char> {
    join(scopes_spec(ProviderKind::Mastodon), " "@)
}

fn scope_string() -> (r: String)
    ensures
        r@ == scope_text(),
{
    let scopes = ProviderKind::Mastodon.scopes();
    assert(scopes@.map_values(|q: String| q@) =~= scopes_spec(ProviderKind::Mastodon));
    join_strings(&scopes, " ")
}

/// The body registering the app on an instance: its name, the redirect
/// address, the scopes and, when `with_website`, the app's website.
pub fn app_registration_body(redirect_uri: &str, with_website: bool) -> (r: Json)
    ensures
        keys_of(r) == seq!["client_name"@, "redirect_uris"@, "scopes"@] + opt_key(
            with_website,
            "website"@,
        ),
        str_at(r, "client_name"@) == Some("Social Forge"@),
        str_at(r, "redirect_uris"@) == Some(redirect_uri@),
        str_at(r, "scopes"@) == Some(scope_text()),
        str_at(r, "website"@) == if with_website {
            Some("https://social-forge.app"@)
        } else {
            None
        },
{
    let mut f: Vec<(String, Json)> = Vec::new();
    proof {
        assert(f@.map_values(|p: (String, Json)| p.0@) =~= Seq::<Seq<char>>::empty());
        reveal_strlit("client_name");
        reveal_strlit("redirect_uris");
        reveal_strlit("scopes");
        reveal_strlit("website");
        assert("client_name"@[0] == 'c' && "redirect_uris"@[0] == 'r' && "scopes"@[0] == 's');
        assert("website"@[0] == 'w');
    }
    push_member(&mut f, "client_name", Json::Str("Social Forge".to_owned()));
    push_member(&mut f, "redirect_uris", Json::Str(redirect_uri.to_owned()));
    push_member(&mut f, "scopes", Json::Str(scope_string()));
    if with_website {
        push_member(&mut f, "website", Json::Str("https://social-forge.app".to_owned()));
    }
    let r = Json::Object(f);
    assert(keys_of(r) =~= seq!["client_name"@, "redirect_uris"@, "scopes"@] + opt_key(
        with_website,
        "website"@,
    ));
    r
}

/// The app credentials of a registration answer: `client_id` and
/// `client_secret`. A failing status gives an authorization error with the
/// answer's `error` (else `fallback`); a missing field gives one naming it
/// (`... from app registration` unless `short`).
pub fn app_credentials(status: u16, json: &Json, fallback: &str, short: bool) -> (r: Result<(String, String), ProviderError>)
    ensures
        !(200 <= status <= 299) ==> (r matches Err(ProviderError::Auth(m)) && m@ == str_or(
            *json,
            "error"@,
            fallback@,
        )),
        200 <= status <= 299 ==> match (str_at(*json, "client_id"@), str_at(*json, "client_secret"@)) {
            (Some(id), Some(secret)) => r matches Ok((a, b)) && a@ == id && b@ == secret,
            (None, _) => r matches Err(ProviderError::Auth(m)) && m@ == if short {
                "Missing client_id"@
            } else {
                "Missing client_id from app registration"@
            },
            (Some(_), None) => r matches Err(ProviderError::Auth(m)) && m@ == if short {
                "Missing client_secret"@
            } else {
                "Missing client_secret from app registration"@
            },
        },
{
    if !(200 <= status && status <= 299) {
        return Err(ProviderError::Auth(str_or_owned(json, "error", fallback)));
    }
    let id = match json.str_at("client_id") {
        Some(id) => id,
        None => {
            return Err(
                ProviderError::Auth(
                    if short {
                        "Missing client_id".to_owned()
                    } else {
                        "Missing client_id from app registration".to_owned()
                    },
                ),
            );
        },
    };
    let secret = match json.str_at("client_secret") {
        Some(s) => s,
        None => {
            return Err(
                ProviderError::Auth(
                    if short {
                        "Missing client_secret".to_owned()
                    } else {
                        "Missing client_secret from app registration".to_owned()
                    },
                ),
            );
        },
    };
    Ok((id.to_owned(), secret.to_owned()))
}

/// The body of a token request with the app credentials: for an
/// authorization `code` (with the redirect address), or for a refresh token
/// (`code` is `None`), with the scopes.
pub fn token_request_body(
    client_id: &str,
    client_secret: &str,
    code: Option<(&str, &str)>,
    refresh_token: &str,
) -> (r: Json)
    ensures
        keys_of(r) == match code {
            Some(_) => seq![
                "client_id"@,
                "client_secret"@,
                "grant_type"@,
                "code"@,
                "redirect_uri"@,
                "scope"@,
            ],
            None => seq!["client_id"@, "client_secret"@, "grant_type"@, "refresh_token"@, "scope"@],
        },
        str_at(r, "client_id"@) == Some(client_id@),
        str_at(r, "client_secret"@) == Some(client_secret@),
        str_at(r, "scope"@) == Some(scope_text()),
        match code {
            Some((c, redirect)) => str_at(r, "grant_type"@) == Some("authorization_code"@) && str_at(
                r,
                "code"@,
            ) == Some(c@) && str_at(r, "redirect_uri"@) == Some(redirect@),
            None => str_at(r, "grant_type"@) == Some("refresh_token"@) && str_at(
                r,
                "refresh_token"@,
            ) == Some(refresh_token@),
        },
{
    let mut f: Vec<(String, Json)> = Vec::new();
    proof {
        assert(f@.map_values(|p: (String, Json)| p.0@) =~= Seq::<Seq<char>>::empty());
        reveal_strlit("client_id");
        reveal_strlit("client_secret");
        reveal_strlit("grant_type");
        reveal_strlit("code");
        reveal_strlit("redirect_uri");
        reveal_strlit("refresh_token");
        reveal_strlit("scope");
        assert("client_id"@[0] == 'c' && "client_id"@.len() == 9 && "client_secret"@[0] == 'c');
        assert("client_secret"@.len() == 13 && "grant_type"@[0] == 'g' && "code"@[0] == 'c');
        assert("code"@.len() == 4 && "redirect_uri"@[0] == 'r' && "refresh_token"@[0] == 'r');
        assert("redirect_uri"@[2] == 'd' && "refresh_token"@[2] == 'f' && "scope"@[0] == 's');
    }
    push_member(&mut f, "client_id", Json::Str(client_id.to_owned()));
    push_member(&mut f, "client_secret", Json::Str(client_secret.to_owned()));
    match code {
        Some((c, redirect)) => {
            push_member(&mut f, "grant_type", Json::Str("authorization_code".to_owned()));
            push_member(&mut f, "code", Json::Str(c.to_owned()));
            push_member(&mut f, "redirect_uri", Json::Str(redirect.to_owned()));
        },
        None => {
            push_member(&mut f, "grant_type", Json::Str("refresh_token".to_owned()));
            push_member(&mut f, "refresh_token", Json::Str(refresh_token.to_owned()));
        },
    }
    push_member(&mut f, "scope", Json::Str(scope_string()));
    let r = Json::Object(f);
    proof {
        if code is Some {
            assert(keys_of(r) =~= seq![
                "client_id"@,
                "client_secret"@,
                "grant_type"@,
                "code"@,
                "redirect_uri"@,
                "scope"@,
            ]);
        } else {
            assert(keys_of(r) =~= seq![
                "client_id"@,
                "client_secret"@,
                "grant_type"@,
                "refresh_token"@,
                "scope"@,
            ]);
        }
    }
    r
}

/// The token answer: its grant, or on a failing status an authorization
/// error with the answer's `error`, else `fallback`.
pub fn token_answer(status: u16, json: &Json, fallback: &str) -> (r: Result<TokenGrant, ProviderError>)
    ensures
        !(200 <= status <= 299) ==> (r matches Err(ProviderError::Auth(m)) && m@ == str_or(
            *json,
            "error"@,
            fallback@,
        )),
        200 <= status <= 299 ==> match str_at(*json, "access_token"@) {
            Some(t) => r matches Ok(g) && g.access_token@ == t && opt_str_view(g.refresh_token)
                == str_at(*json, "refresh_token"@) && g.expires_in == crate::tokens::expires_spec(
                *json,
            ),
            None => r matches Err(ProviderError::Auth(m)) && m@ == "Missing access_token"@,
        },
{
    if !(200 <= status && status <= 299) {
        return Err(ProviderError::Auth(str_or_owned(json, "error", fallback)));
    }
    crate::tokens::token_grant(json)
}

/// The connection after a code exchange: the grant and the account's `id`,
/// `display_name`, `username` (empty when absent) and `avatar`.
pub fn mastodon_auth_token(grant: TokenGrant, user: &Json) -> (r: AuthToken)
    ensures
        auth_view(r) == (
            grant.access_token@,
            opt_str_view(grant.refresh_token),
            grant.expires_in,
            str_or(*user, "id"@, ""@),
            str_or(*user, "display_name"@, ""@),
            str_or(*user, "username"@, ""@),
            str_at(*user, "avatar"@),
        ),
{
    AuthToken {
        access_token: grant.access_token,
        refresh_token: grant.refresh_token,
        expires_in: grant.expires_in,
        provider_user_id: str_or_owned(user, "id", ""),
        name: str_or_owned(user, "display_name", ""),
        username: str_or_owned(user, "username", ""),
        picture: crate::json::own_opt(user.str_at("avatar")),
    }
}

} // verus!
