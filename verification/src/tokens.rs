//! OAuth token answers and the account profiles that complete a
//! connection: what each provider's token endpoint and profile lookup give.
use vstd::prelude::*;

use crate::json::{
    array_at, json_as_u64, json_get, json_get2, json_get3, json_index, own_opt, str_at, str_or,
    str_or_owned, Json,
};
use crate::meta::opt_str;
use crate::social::{AuthToken, ProviderError};
use crate::text::{decimal, opt_str_view, push_decimal_u64, push_str_chars, string_from_chars};

verus! {

/// The tokens a token endpoint granted.
pub struct TokenGrant {
    pub access_token: String,
    pub refresh_token: Option<String>,
    pub expires_in: Option<u32>,
}

/// `expires_in` as a `u32` (the low 32 bits of the number).
pub open spec fn expires_spec(json: Json) -> Option<u32> {
    match json_get(json, "expires_in"@) {
        Some(v) => match json_as_u64(v) {
            Some(n) => Some(n as u32),
            None => None,
        },
        None => None,
    }
}

fn expires_exec(json: &Json) -> (r: Option<u32>)
    ensures
        r == expires_spec(*json),
{
    match json.get("expires_in") {
        Some(v) => match v.as_u64() {
            Some(n) => Some(n as u32),
            None => None,
        },
        None => None,
    }
}

/// A token answer: its `access_token` (an authorization error when
/// missing), `refresh_token` and `expires_in`.
pub fn token_grant(json: &Json) -> (r: Result<TokenGrant, ProviderError>)
    ensures
        match str_at(*json, "access_token"@) {
            Some(t) => r matches Ok(g) && g.access_token@ == t && opt_str_view(g.refresh_token)
                == str_at(*json, "refresh_token"@) && g.expires_in == expires_spec(*json),
            None => r matches Err(ProviderError::Auth(m)) && m@ == "Missing access_token"@,
        },
{
    match json.str_at("access_token") {
        Some(t) => Ok(
            TokenGrant {
                access_token: t.to_owned(),
                refresh_token: own_opt(json.str_at("refresh_token")),
                expires_in: expires_exec(json),
            },
        ),
        None => Err(ProviderError::Auth("Missing access_token".to_owned())),
    }
}

/// The error of a refused token exchange: its `error_description`, else
/// its `error`, else a fixed text.
pub open spec fn exchange_error_text(json: Json) -> Seq<char> {
    match str_at(json, "error_description"@) {
        Some(d) => d,
        None => str_or(json, "error"@, "Token exchange failed"@),
    }
}

pub fn token_exchange_error(json: &Json) -> (r: ProviderError)
    ensures
        r matches ProviderError::Auth(m) && m@ == exchange_error_text(*json),
{
    let m = match json.str_at("error_description") {
        Some(d) => d.to_owned(),
        None => str_or_owned(json, "error", "Token exchange failed"),
    };
    ProviderError::Auth(m)
}

/// The long-lived token of a Meta token exchange: the answer's token, or
/// the short-lived one when it has none; its expiry; no refresh token.
pub fn long_lived_grant(json: &Json, short_token: String) -> (r: TokenGrant)
    ensures
        r.access_token@ == match str_at(*json, "access_token"@) {
            Some(t) => t,
            None => short_token@,
        },
        r.refresh_token is None,
        r.expires_in == expires_spec(*json),
{
    let access_token = match json.str_at("access_token") {
        Some(t) => t.to_owned(),
        None => short_token,
    };
    TokenGrant { access_token, refresh_token: None, expires_in: expires_exec(json) }
}

/// The fields of a connection: token, refresh token, expiry, account id,
/// name, username and picture.
pub open spec fn auth_view(a: AuthToken) -> (Seq<char>, Option<Seq<char>>, Option<u32>, Seq<char>, Seq<char>, Seq<char>, Option<Seq<char>>) {
    (
        a.access_token@,
        opt_str_view(a.refresh_token),
        a.expires_in,
        a.provider_user_id@,
        a.name@,
        a.username@,
        opt_str_view(a.picture),
    )
}

/// A Google account (Calendar, Drive, Gmail, Business Profile) from the
/// userinfo answer: `id`, `name`, `email` as the username, `picture`.
pub fn google_auth_token(grant: TokenGrant, user: &Json) -> (r: AuthToken)
    ensures
        auth_view(r) == (
            grant.access_token@,
            opt_str_view(grant.refresh_token),
            grant.expires_in,
            str_or(*user, "id"@, ""@),
            str_or(*user, "name"@, ""@),
            str_or(*user, "email"@, ""@),
            str_at(*user, "picture"@),
        ),
{
    AuthToken {
        access_token: grant.access_token,
        refresh_token: grant.refresh_token,
        expires_in: grant.expires_in,
        provider_user_id: str_or_owned(user, "id", ""),
        name: str_or_owned(user, "name", ""),
        username: str_or_owned(user, "email", ""),
        picture: own_opt(user.str_at("picture")),
    }
}

fn picture_url(user: &Json) -> (r: Option<String>)
    ensures
        opt_str_view(r) == opt_str(json_get3(*user, "picture"@, "data"@, "url"@)),
{
    match user.get3("picture", "data", "url") {
        Some(v) => own_opt(v.as_str()),
        None => None,
    }
}

/// A Facebook user from `/me`: `id` (`me` when absent), `name` (`Facebook
/// User` when absent) also as the username, and the picture URL.
pub fn facebook_auth_token(grant: TokenGrant, me: &Json) -> (r: AuthToken)
    ensures
        auth_view(r) == (
            grant.access_token@,
            None::<Seq<char>>,
            grant.expires_in,
            str_or(*me, "id"@, "me"@),
            str_or(*me, "name"@, "Facebook User"@),
            str_or(*me, "name"@, "Facebook User"@),
            opt_str(json_get3(*me, "picture"@, "data"@, "url"@)),
        ),
{
    let name = str_or_owned(me, "name", "Facebook User");
    let username = str_or_owned(me, "name", "Facebook User");
    AuthToken {
        access_token: grant.access_token,
        refresh_token: None,
        expires_in: grant.expires_in,
        provider_user_id: str_or_owned(me, "id", "me"),
        name,
        username,
        picture: picture_url(me),
    }
}

/// The Facebook user behind an Instagram (business) connection: `id`,
/// `name` (`Instagram` when absent), no username, the picture URL.
pub fn instagram_auth_token(grant: TokenGrant, me: &Json) -> (r: AuthToken)
    ensures
        auth_view(r) == (
            grant.access_token@,
            None::<Seq<char>>,
            grant.expires_in,
            str_or(*me, "id"@, ""@),
            str_or(*me, "name"@, "Instagram"@),
            ""@,
            opt_str(json_get3(*me, "picture"@, "data"@, "url"@)),
        ),
{
    AuthToken {
        access_token: grant.access_token,
        refresh_token: None,
        expires_in: grant.expires_in,
        provider_user_id: str_or_owned(me, "id", ""),
        name: str_or_owned(me, "name", "Instagram"),
        username: "".to_owned(),
        picture: picture_url(me),
    }
}

/// An Instagram (standalone) account: the long-lived token also serves as
/// the refresh token; `user_id`, `name`, `username`, `profile_picture_url`.
pub fn instagram_standalone_auth_token(grant: TokenGrant, user: &Json) -> (r: AuthToken)
    ensures
        auth_view(r) == (
            grant.access_token@,
            Some(grant.access_token@),
            grant.expires_in,
            str_or(*user, "user_id"@, ""@),
            str_or(*user, "name"@, ""@),
            str_or(*user, "username"@, ""@),
            str_at(*user, "profile_picture_url"@),
        ),
{
    let refresh = grant.access_token.clone();
    AuthToken {
        access_token: grant.access_token,
        refresh_token: Some(refresh),
        expires_in: grant.expires_in,
        provider_user_id: str_or_owned(user, "user_id", ""),
        name: str_or_owned(user, "name", ""),
        username: str_or_owned(user, "username", ""),
        picture: own_opt(user.str_at("profile_picture_url")),
    }
}

/// The first entry of a list member, or `null`.
pub open spec fn first_or_null(json: Json, key: Seq<char>) -> Json {
    match array_at(json, key) {
        Some(items) => if items.len() > 0 {
            items[0]
        } else {
            Json::Null
        },
        None => Json::Null,
    }
}

/// The first of two string members that is present.
pub open spec fn either_str(j: Json, a: Seq<char>, b: Seq<char>) -> Option<Seq<char>> {
    match str_at(j, a) {
        Some(s) => Some(s),
        None => str_at(j, b),
    }
}

fn either_str_exec(j: &Json, a: &str, b: &str) -> (r: Option<String>)
    ensures
        opt_str_view(r) == either_str(*j, a@, b@),
{
    match j.str_at(a) {
        Some(s) => Some(s.to_owned()),
        None => own_opt(j.str_at(b)),
    }
}

/// A Kick account from the users answer (its first `data` entry): `id`,
/// `name` (or `display_name`), `username`, `profile_image` (or `avatar`).
pub fn kick_auth_token(grant: TokenGrant, users: &Json) -> (r: AuthToken)
    ensures
        auth_view(r) == {
            let u = first_or_null(*users, "data"@);
            (
                grant.access_token@,
                opt_str_view(grant.refresh_token),
                grant.expires_in,
                str_or(u, "id"@, ""@),
                match either_str(u, "name"@, "display_name"@) {
                    Some(n) => n,
                    None => ""@,
                },
                str_or(u, "username"@, ""@),
                either_str(u, "profile_image"@, "avatar"@),
            )
        },
{
    let null = Json::Null;
    let u: &Json = match users.array_at("data") {
        Some(items) => if items.len() > 0 {
            &items[0]
        } else {
            &null
        },
        None => &null,
    };
    let name = match either_str_exec(u, "name", "display_name") {
        Some(n) => n,
        None => "".to_owned(),
    };
    AuthToken {
        access_token: grant.access_token,
        refresh_token: grant.refresh_token,
        expires_in: grant.expires_in,
        provider_user_id: str_or_owned(u, "id", ""),
        name,
        username: str_or_owned(u, "username", ""),
        picture: either_str_exec(u, "profile_image", "avatar"),
    }
}

/// `value[k1][k2].as_str().unwrap_or(default)`.
pub open spec fn str2_or(j: Json, k1: Seq<char>, k2: Seq<char>, default: Seq<char>) -> Seq<char> {
    match opt_str(json_get2(j, k1, k2)) {
        Some(s) => s,
        None => default,
    }
}

fn str2_or_owned(j: &Json, k1: &str, k2: &str, default: &str) -> (r: String)
    ensures
        r@ == str2_or(*j, k1@, k2@, default@),
{
    match j.get2(k1, k2) {
        Some(v) => match v.as_str() {
            Some(s) => s.to_owned(),
            None => default.to_owned(),
        },
        None => default.to_owned(),
    }
}

/// A Discord server connection: the server (`guild.id` of the token
/// answer) with the application's name (`Discord Server` when absent), its
/// bot's username, and the bot's avatar URL.
pub fn discord_auth_token(grant: TokenGrant, token_json: &Json, me: &Json) -> (r: AuthToken)
    ensures
        auth_view(r) == {
            let app = json_index(*me, "application"@);
            (
                grant.access_token@,
                opt_str_view(grant.refresh_token),
                grant.expires_in,
                str2_or(*token_json, "guild"@, "id"@, ""@),
                str_or(app, "name"@, "Discord Server"@),
                str2_or(app, "bot"@, "username"@, ""@),
                Some(
                    "https://cdn.discordapp.com/avatars/"@ + str2_or(app, "bot"@, "id"@, ""@) + "/"@
                        + str2_or(app, "bot"@, "avatar"@, ""@) + ".png"@,
                ),
            )
        },
{
    let null = Json::Null;
    let app: &Json = match me.get("application") {
        Some(a) => a,
        None => &null,
    };
    let mut pic: Vec<char> = Vec::new();
    push_str_chars(&mut pic, "https://cdn.discordapp.com/avatars/");
    push_str_chars(&mut pic, str2_or_owned(app, "bot", "id", "").as_str());
    push_str_chars(&mut pic, "/");
    push_str_chars(&mut pic, str2_or_owned(app, "bot", "avatar", "").as_str());
    push_str_chars(&mut pic, ".png");
    AuthToken {
        access_token: grant.access_token,
        refresh_token: grant.refresh_token,
        expires_in: grant.expires_in,
        provider_user_id: str2_or_owned(token_json, "guild", "id", ""),
        name: str_or_owned(app, "name", "Discord Server"),
        username: str2_or_owned(app, "bot", "username", ""),
        picture: Some(string_from_chars(&pic)),
    }
}

/// A numeric id in decimal, or empty when it is not a non-negative integer.
pub open spec fn u64_text(json: Json, key: Seq<char>) -> Seq<char> {
    match json_get(json, key) {
        Some(v) => match json_as_u64(v) {
            Some(n) => decimal(n as nat),
            None => ""@,
        },
        None => ""@,
    }
}

fn u64_text_exec(json: &Json, key: &str) -> (r: String)
    ensures
        r@ == u64_text(*json, key@),
{
    match json.get(key) {
        Some(v) => match v.as_u64() {
            Some(n) => {
                let mut out: Vec<char> = Vec::new();
                push_decimal_u64(&mut out, n);
                string_from_chars(&out)
            },
            None => "".to_owned(),
        },
        None => "".to_owned(),
    }
}

/// A GitHub connection made with a personal access token, from `/user`: a
/// refused token is an authorization error with the answer's `message`;
/// else the numeric `id`, `name` (or `login`), `login`, `avatar_url`.
pub fn github_auth_token(token: String, success: bool, user: &Json) -> (r: Result<AuthToken, ProviderError>)
    ensures
        !success ==> (r matches Err(ProviderError::Auth(m)) && m@ == str_or(
            *user,
            "message"@,
            "Failed to authenticate with GitHub PAT"@,
        )),
        success ==> (r matches Ok(a) && auth_view(a) == (
            token@,
            None::<Seq<char>>,
            None::<u32>,
            u64_text(*user, "id"@),
            match str_at(*user, "name"@) {
                Some(n) => n,
                None => str_or(*user, "login"@, ""@),
            },
            str_or(*user, "login"@, ""@),
            str_at(*user, "avatar_url"@),
        )),
{
    if !success {
        return Err(
            ProviderError::Auth(str_or_owned(user, "message", "Failed to authenticate with GitHub PAT")),
        );
    }
    let name = match user.str_at("name") {
        Some(n) => n.to_owned(),
        None => str_or_owned(user, "login", ""),
    };
    Ok(
        AuthToken {
            access_token: token,
            refresh_token: None,
            expires_in: None,
            provider_user_id: u64_text_exec(user, "id"),
            name,
            username: str_or_owned(user, "login", ""),
            picture: own_opt(user.str_at("avatar_url")),
        },
    )
}

/// The error of a refused token refresh: its `error_description`, else
/// its `error`, else a fixed text.
pub fn token_refresh_error(json: &Json) -> (r: ProviderError)
    ensures
        r matches ProviderError::Auth(m) && m@ == match str_at(*json, "error_description"@) {
            Some(d) => d,
            None => str_or(*json, "error"@, "Token refresh failed"@),
        },
{
    let m = match json.str_at("error_description") {
        Some(d) => d.to_owned(),
        None => str_or_owned(json, "error", "Token refresh failed"),
    };
    ProviderError::Auth(m)
}

/// The connection after a token refresh: the new token and expiry, no
/// profile fields, and as refresh token the newly granted one when
/// `prefer_new` and there is one, else the one used for the refresh.
pub fn refreshed_auth_token(grant: TokenGrant, used_refresh_token: &str, prefer_new: bool) -> (r: AuthToken)
    ensures
        auth_view(r) == (
            grant.access_token@,
            Some(
                if prefer_new && grant.refresh_token is Some {
                    grant.refresh_token->Some_0@
                } else {
                    used_refresh_token@
                },
            ),
            grant.expires_in,
            ""@,
            ""@,
            ""@,
            None::<Seq<char>>,
        ),
{
    let refresh = match grant.refresh_token {
        Some(t) => if prefer_new {
            t
        } else {
            used_refresh_token.to_owned()
        },
        None => used_refresh_token.to_owned(),
    };
    AuthToken {
        access_token: grant.access_token,
        refresh_token: Some(refresh),
        expires_in: grant.expires_in,
        provider_user_id: "".to_owned(),
        name: "".to_owned(),
        username: "".to_owned(),
        picture: None,
    }
}

} // verus!
