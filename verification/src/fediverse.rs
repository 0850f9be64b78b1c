//! Fediverse details: query-string escaping, and Lemmy's stored
//! credentials, post body and answers.
use vstd::prelude::*;

use crate::json::{get_i64, json_get, keys_of, push_member, str_at, str_or, str_or_owned, Json};
use crate::mastodon::{copied_str, opt_key};
use crate::social::{AuthToken, PageInfo, PostContent, ProviderError, PublishResult};
use crate::text::{decimal, opt_str_view, push_str_chars, string_from_chars};

verus! {

/// Bytes that stand for themselves in a query string: ASCII letters,
/// digits, `-`, `_`, `.` and `~`.
pub open spec fn is_unreserved(b: u8) -> bool {
    (65 <= b <= 90) || (97 <= b <= 122) || (48 <= b <= 57) || b == 45 || b == 95 || b == 46 || b
        == 126
}

/// An uppercase hexadecimal digit.
pub open spec fn hex_upper(d: nat) -> char {
    if d < 10 {
        ((48 + d) as u32) as char
    } else {
        ((65 + d - 10) as u32) as char
    }
}

/// One byte escaped: kept when unreserved, a space as `%20`, else `%XX`.
pub open spec fn escape_byte(b: u8) -> Seq<char> {
    if is_unreserved(b) {
        seq![(b as u32) as char]
    } else if b == 32 {
        seq!['%', '2', '0']
    } else {
        seq!['%', hex_upper((b / 16) as nat), hex_upper((b % 16) as nat)]
    }
}

/// Every byte escaped in turn.
pub open spec fn escape_bytes(bytes: Seq<u8>) -> Seq<char>
    decreases bytes.len(),
{
    if bytes.len() == 0 {
        seq![]
    } else {
        escape_bytes(bytes.drop_last()) + escape_byte(bytes.last())
    }
}

fn hex_upper_char(d: u8) -> (c: char)
    requires
        d < 16,
    ensures
        c == hex_upper(d as nat),
{
    if d < 10 {
        (48 + d) as char
    } else {
        (65 + (d - 10)) as char
    }
}

/// The text escaped for a query string, byte by byte of its UTF-8 form.
pub fn urlencoding(s: &str) -> (r: String)
    ensures
        r@ == escape_bytes(vstd::utf8::encode_utf8(s@)),
{
    let bytes = s.as_bytes();
    let mut out: Vec<char> = Vec::new();
    let n = bytes.len();
    for i in 0..n
        invariant
            n == bytes@.len(),
            bytes@ == vstd::utf8::encode_utf8(s@),
            out@ == escape_bytes(bytes@.take(i as int)),
    {
        let b = bytes[i];
        assert(bytes@.take(i + 1).drop_last() =~= bytes@.take(i as int));
        assert(bytes@.take(i + 1).last() == b);
        let ghost before = out@;
        if (65 <= b && b <= 90) || (97 <= b && b <= 122) || (48 <= b && b <= 57) || b == 45 || b
            == 95 || b == 46 || b == 126 {
            out.push(b as char);
        } else if b == 32 {
            out.push('%');
            out.push('2');
            out.push('0');
        } else {
            out.push('%');
            out.push(hex_upper_char(b / 16));
            out.push(hex_upper_char(b % 16));
        }
        assert(out@ =~= before + escape_byte(b));
    }
    assert(bytes@.take(n as int) =~= bytes@);
    crate::text::string_from_chars(&out)
}

/// The Lemmy instance used when the credentials name none.
pub open spec fn default_lemmy_instance() -> Seq<char> {
    "https://lemmy.world"@
}

/// The API key and instance URL of a Lemmy connection, from its stored
/// credentials `{"api_key": ..., "instance_url": ...}` (`None` when they
/// are not JSON): a missing key is empty, a missing instance the default.
pub open spec fn lemmy_creds_spec(creds: Option<Json>) -> (Seq<char>, Seq<char>) {
    match creds {
        Some(c) => (str_or(c, "api_key"@, ""@), str_or(c, "instance_url"@, default_lemmy_instance())),
        None => (""@, default_lemmy_instance()),
    }
}

pub fn parse_creds(creds: Option<&Json>) -> (r: (String, String))
    ensures
        (r.0@, r.1@) == lemmy_creds_spec(
            match creds {
                Some(c) => Some(*c),
                None => None,
            },
        ),
{
    match creds {
        Some(c) => {
            let key = str_or_owned(c, "api_key", "");
            let instance = str_or_owned(c, "instance_url", "https://lemmy.world");
            (key, instance)
        },
        None => ("".to_owned(), "https://lemmy.world".to_owned()),
    }
}

/// A character that may appear in escaped text: an unreserved character,
/// `%`, or an uppercase hexadecimal digit.
pub open spec fn is_query_safe(c: char) -> bool {
    let v = c as u32;
    (65 <= v <= 90) || (97 <= v <= 122) || (48 <= v <= 57) || v == 45 || v == 95 || v == 46 || v == 126
        || v == 37
}

/// Law: escaped text holds only unreserved characters, `%` and hex digits,
/// so it never holds a space, `&`, `=` or `#`.
pub proof fn lemma_escape_is_query_safe(bytes: Seq<u8>)
    ensures
        forall|i: int| 0 <= i < escape_bytes(bytes).len() ==> is_query_safe(#[trigger] escape_bytes(bytes)[i]),
    decreases bytes.len(),
{
    if bytes.len() > 0 {
        lemma_escape_is_query_safe(bytes.drop_last());
        let b = bytes.last();
        let hi = (b / 16) as nat;
        let lo = (b % 16) as nat;
        assert(is_query_safe(hex_upper(hi)) && is_query_safe(hex_upper(lo)));
        let head = escape_bytes(bytes.drop_last());
        let tail = escape_byte(b);
        assert forall|i: int| 0 <= i < tail.len() implies is_query_safe(#[trigger] tail[i]) by {
            if is_unreserved(b) {
                assert(tail[i] == (b as u32) as char);
            }
        }
        assert forall|i: int| 0 <= i < escape_bytes(bytes).len() implies is_query_safe(
            #[trigger] escape_bytes(bytes)[i],
        ) by {
            if i < head.len() {
                assert(escape_bytes(bytes)[i] == head[i]);
            } else {
                assert(escape_bytes(bytes)[i] == tail[i - head.len()]);
            }
        }
    }
}

/// The title of a Lemmy post: the settings' `title`, else the content's
/// first line, else `Untitled`.
pub open spec fn lemmy_title(settings: Json, content: Seq<char>) -> Seq<char> {
    match str_at(settings, "title"@) {
        Some(t) => t,
        None => match crate::articles::first_line(content) {
            Some(l) => l,
            None => "Untitled"@,
        },
    }
}

/// The members of a Lemmy post body: `name`, `body`, `auth`, then the
/// settings' `community_id`, `community` (as `community_name`) and `url`
/// when given, and `community_name` `main` when neither community is.
pub open spec fn lemmy_keys(settings: Json) -> Seq<Seq<char>> {
    let id = get_i64(settings, "community_id"@);
    let name = str_at(settings, "community"@);
    seq!["name"@, "body"@, "auth"@] + opt_key(id is Some, "community_id"@) + opt_key(
        name is Some,
        "community_name"@,
    ) + opt_key(str_at(settings, "url"@) is Some, "url"@) + opt_key(
        id is None && name is None,
        "community_name"@,
    )
}

/// The body of a new Lemmy post, as `lemmy_keys` lists its members.
pub fn lemmy_post_body(api_key: &str, post: &PostContent) -> (r: Json)
    ensures
        keys_of(r) == lemmy_keys(post.settings),
        str_at(r, "name"@) == Some(lemmy_title(post.settings, post.content@)),
        str_at(r, "body"@) == Some(post.content@),
        str_at(r, "auth"@) == Some(api_key@),
        json_get(r, "community_id"@) == match get_i64(post.settings, "community_id"@) {
            Some(c) => Some(Json::Int(c)),
            None => None,
        },
        str_at(r, "community_name"@) == match str_at(post.settings, "community"@) {
            Some(c) => Some(c),
            None => if get_i64(post.settings, "community_id"@) is None {
                Some("main"@)
            } else {
                None
            },
        },
        json_get(r, "community_name"@) is Some <==> (str_at(post.settings, "community"@) is Some
            || get_i64(post.settings, "community_id"@) is None),
        copied_str(r, post.settings, "url"@),
{
    let title: String = match post.settings.str_at("title") {
        Some(t) => t.to_owned(),
        None => {
            let v = crate::text::chars_of(post.content.as_str());
            match crate::articles::first_line_exec(&v) {
                Some(l) => string_from_chars(&l),
                None => "Untitled".to_owned(),
            }
        },
    };
    let mut f: Vec<(String, Json)> = Vec::new();
    proof {
        assert(f@.map_values(|p: (String, Json)| p.0@) =~= Seq::<Seq<char>>::empty());
        reveal_strlit("name");
        reveal_strlit("body");
        reveal_strlit("auth");
        reveal_strlit("community_id");
        reveal_strlit("community_name");
        reveal_strlit("url");
        assert("name"@[0] == 'n' && "body"@[0] == 'b' && "auth"@[0] == 'a' && "url"@[0] == 'u');
        assert("community_id"@[0] == 'c' && "community_name"@[0] == 'c');
        assert("community_id"@[10] == 'i' && "community_name"@[10] == 'n');
    }
    push_member(&mut f, "name", Json::Str(title));
    push_member(&mut f, "body", Json::Str(post.content.clone()));
    push_member(&mut f, "auth", Json::Str(api_key.to_owned()));
    let community_id: Option<i64> = match post.settings.get("community_id") {
        Some(v) => v.as_i64(),
        None => None,
    };
    let community = post.settings.str_at("community");
    if let Some(c) = community_id {
        push_member(&mut f, "community_id", Json::Int(c));
    }
    if let Some(c) = community {
        push_member(&mut f, "community_name", Json::Str(c.to_owned()));
    }
    if let Some(u) = post.settings.str_at("url") {
        push_member(&mut f, "url", Json::Str(u.to_owned()));
    }
    if community_id.is_none() && community.is_none() {
        push_member(&mut f, "community_name", Json::Str("main".to_owned()));
    }
    let r = Json::Object(f);
    assert(keys_of(r) =~= lemmy_keys(post.settings));
    r
}

/// The answer to creating a Lemmy post: on 200 the post's id
/// (`post_view.post.id`, in decimal, empty when absent) and address
/// (`ap_id`); otherwise an error with the answer's `error`, else its
/// `message`, else `Lemmy publish failed` (`json` is `null` when the answer
/// is not JSON).
pub fn lemmy_publish_outcome(status: u16, json: &Json) -> (r: Result<PublishResult, ProviderError>)
    ensures
        status == 200 ==> (r matches Ok(p) && p.platform_post_id@ == match crate::json::json_get3(
            *json,
            "post_view"@,
            "post"@,
            "id"@,
        ) {
            Some(v) => match crate::json::json_as_u64(v) {
                Some(n) => decimal(n as nat),
                None => ""@,
            },
            None => ""@,
        } && opt_str_view(p.platform_post_url) == match crate::json::json_get2(
            *json,
            "post_view"@,
            "post"@,
        ) {
            Some(post) => str_at(post, "ap_id"@),
            None => None,
        } && p.status@ == "published"@),
        status != 200 ==> (r matches Err(ProviderError::Api(m)) && m@ == crate::linkedin::message_or(
            *json,
            "error"@,
            Some("message"@),
            "Lemmy publish failed"@,
        )),
{
    if status != 200 {
        return Err(
            ProviderError::Api(
                crate::linkedin::message_or_exec(json, "error", Some("message"), "Lemmy publish failed"),
            ),
        );
    }
    let id: String = match json.get3("post_view", "post", "id") {
        Some(v) => match v.as_u64() {
            Some(n) => {
                let mut out: Vec<char> = Vec::new();
                crate::text::push_decimal_u64(&mut out, n);
                string_from_chars(&out)
            },
            None => "".to_owned(),
        },
        None => "".to_owned(),
    };
    proof {
        reveal_strlit("");
    }
    let url = match json.get2("post_view", "post") {
        Some(post) => crate::json::own_opt(post.str_at("ap_id")),
        None => None,
    };
    Ok(PublishResult { platform_post_id: id, platform_post_url: url, status: "published".to_owned() })
}

/// The API key and instance of credentials given when connecting (`None`
/// when they are not JSON): the key must be present and non-empty; the
/// instance defaults.
pub fn lemmy_credentials(creds: Option<&Json>) -> (r: Result<(String, String), ProviderError>)
    ensures
        match creds {
            None => r matches Err(ProviderError::Auth(m)) && m@
                == "Invalid credentials format. Expected JSON with api_key and instance_url."@,
            Some(c) => match str_at(*c, "api_key"@) {
                None => r matches Err(ProviderError::Auth(m)) && m@
                    == "Missing 'api_key' in credentials"@,
                Some(k) => if k.len() == 0 {
                    r matches Err(ProviderError::Auth(m)) && m@ == "api_key must not be empty."@
                } else {
                    r matches Ok((a, i)) && a@ == k && i@ == str_or(
                        *c,
                        "instance_url"@,
                        default_lemmy_instance(),
                    )
                },
            },
        },
{
    let c = match creds {
        Some(c) => c,
        None => {
            return Err(
                ProviderError::Auth(
                    "Invalid credentials format. Expected JSON with api_key and instance_url.".to_owned(),
                ),
            );
        },
    };
    let key = match c.str_at("api_key") {
        Some(k) => k,
        None => {
            return Err(ProviderError::Auth("Missing 'api_key' in credentials".to_owned()));
        },
    };
    if key.unicode_len() == 0 {
        return Err(ProviderError::Auth("api_key must not be empty.".to_owned()));
    }
    Ok((key.to_owned(), str_or_owned(c, "instance_url", "https://lemmy.world")))
}

/// The site of a site answer (`site_view.site`), `null` when absent.
pub open spec fn site_of(site: Json) -> Json {
    match crate::json::json_get2(site, "site_view"@, "site"@) {
        Some(s) => s,
        None => Json::Null,
    }
}

/// The connection to a Lemmy instance: the stored credentials as its token,
/// the site's name (`Lemmy` when absent) and its lowercase as the
/// username, and the site icon.
pub fn lemmy_auth_token(site: &Json, stored_credentials: String) -> (r: AuthToken)
    ensures
        crate::tokens::auth_view(r) == (
            stored_credentials@,
            None::<Seq<char>>,
            None::<u32>,
            "lemmy"@,
            str_or(site_of(*site), "name"@, "Lemmy"@),
            crate::engagement::unicode_lowercase(str_or(site_of(*site), "name"@, "Lemmy"@)),
            str_at(site_of(*site), "icon"@),
        ),
{
    let null = Json::Null;
    let s: &Json = match site.get2("site_view", "site") {
        Some(s) => s,
        None => &null,
    };
    let name = str_or_owned(s, "name", "Lemmy");
    let username = crate::engagement::to_lowercase(name.as_str());
    AuthToken {
        access_token: stored_credentials,
        refresh_token: None,
        expires_in: None,
        provider_user_id: "lemmy".to_owned(),
        name,
        username,
        picture: crate::json::own_opt(s.str_at("icon")),
    }
}

/// The single page of a Lemmy connection: the site, named by its `name`
/// (`Lemmy` when absent), with its icon and its `actor_id` without leading
/// `https://` or `http://` as username.
pub fn lemmy_site_page(site: &Json, access_token: &str) -> (r: PageInfo)
    ensures
        r.id@ == "site"@,
        r.name@ == str_or(site_of(*site), "name"@, "Lemmy"@),
        opt_str_view(r.access_token) == Some(access_token@),
        opt_str_view(r.picture) == str_at(site_of(*site), "icon"@),
        opt_str_view(r.username) == match str_at(site_of(*site), "actor_id"@) {
            Some(a) => Some(
                crate::text::trim_prefix_all(
                    crate::text::trim_prefix_all(a, "https://"@),
                    "http://"@,
                ),
            ),
            None => None,
        },
{
    let null = Json::Null;
    let s: &Json = match site.get2("site_view", "site") {
        Some(s) => s,
        None => &null,
    };
    PageInfo {
        id: "site".to_owned(),
        name: str_or_owned(s, "name", "Lemmy"),
        access_token: Some(access_token.to_owned()),
        picture: crate::json::own_opt(s.str_at("icon")),
        username: match s.str_at("actor_id") {
            Some(a) => {
                let t = crate::text::trim_prefix_all_exec(a, "https://");
                Some(crate::text::trim_prefix_all_exec(t.as_str(), "http://"))
            },
            None => None,
        },
    }
}

/// An address on a Lemmy instance: the instance without trailing slashes,
/// then `path`.
pub fn lemmy_api_url(instance_url: &str, path: &str) -> (r: String)
    ensures
        r@ == crate::providers::trim_end_slashes(instance_url@) + path@,
{
    let base = crate::providers::trim_end_slashes_exec(instance_url);
    let mut out: Vec<char> = Vec::new();
    push_str_chars(&mut out, base.as_str());
    push_str_chars(&mut out, path);
    string_from_chars(&out)
}

} // verus!
