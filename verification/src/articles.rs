//! Long-form platforms (Dev.to, Hashnode, Medium): the article title taken
//! from the settings or the first line, the tags, the request bodies, and
//! what each platform's answer means.
use vstd::prelude::*;

use crate::json::{
    array_at, json_as_bool, json_as_str, json_as_u64, json_get, json_get2, str_at, str_or,
    str_or_owned, Json,
};
use crate::meta::opt_str;
use crate::social::{ProviderError, PublishResult};
use crate::text::{
    chars_match_at, chars_of, decimal, occurs_at, opt_str_view, push_decimal_u64, starts_with,
    string_from_chars, trim, trim_chars,
};

verus! {

/// The number of characters before the first line feed.
pub open spec fn line_end(s: Seq<char>) -> nat
    decreases s.len(),
{
    if s.len() == 0 || s[0] == '\n' {
        0
    } else {
        1 + line_end(s.drop_first())
    }
}

proof fn lemma_line_end(s: Seq<char>)
    ensures
        line_end(s) <= s.len(),
        forall|i: int| 0 <= i < line_end(s) ==> #[trigger] s[i] != '\n',
        line_end(s) < s.len() ==> s[line_end(s) as int] == '\n',
    decreases s.len(),
{
    if s.len() > 0 && s[0] != '\n' {
        lemma_line_end(s.drop_first());
        assert forall|i: int| 0 < i < line_end(s) implies #[trigger] s[i] != '\n' by {
            assert(s[i] == s.drop_first()[i - 1]);
        }
    }
}

/// `str::lines().next()`: nothing for empty text; else the text up to the
/// first line feed, without a carriage return just before it.
pub open spec fn first_line(s: Seq<char>) -> Option<Seq<char>> {
    if s.len() == 0 {
        None
    } else {
        let e = line_end(s);
        let l = s.take(e as int);
        if e < s.len() && l.len() > 0 && l.last() == '\r' {
            Some(l.drop_last())
        } else {
            Some(l)
        }
    }
}

pub(crate) fn first_line_exec(v: &Vec<char>) -> (r: Option<Vec<char>>)
    ensures
        match first_line(v@) {
            Some(l) => r matches Some(x) && x@ == l,
            None => r is None,
        },
{
    if v.len() == 0 {
        return None;
    }
    proof {
        lemma_line_end(v@);
    }
    let mut out: Vec<char> = Vec::new();
    let mut i: usize = 0;
    while i < v.len() && v[i] != '\n'
        invariant
            i <= v@.len(),
            i <= line_end(v@),
            out@ == v@.take(i as int),
            line_end(v@) <= v@.len(),
            forall|k: int| 0 <= k < line_end(v@) ==> #[trigger] v@[k] != '\n',
            line_end(v@) < v@.len() ==> v@[line_end(v@) as int] == '\n',
        decreases v@.len() - i,
    {
        out.push(v[i]);
        i = i + 1;
        assert(out@ =~= v@.take(i as int));
    }
    assert(i == line_end(v@));
    if i < v.len() && out.len() > 0 && out[out.len() - 1] == '\r' {
        out.pop();
    }
    Some(out)
}

/// `str::trim_start_matches(p)`: every leading repetition of `p` removed.
pub open spec fn strip_all(s: Seq<char>, p: Seq<char>) -> Seq<char>
    decreases s.len(),
{
    if p.len() > 0 && starts_with(s, p) {
        strip_all(s.skip(p.len() as int), p)
    } else {
        s
    }
}

fn strip_all_exec(v: &Vec<char>, p: &str) -> (r: Vec<char>)
    ensures
        r@ == strip_all(v@, p@),
{
    let w = chars_of(p);
    let mut pos: usize = 0;
    assert(v@.skip(0) =~= v@);
    let mut more = true;
    let vl = v.len();
    while more
        invariant
            vl == v@.len(),
            pos <= v@.len(),
            w@ == p@,
            strip_all(v@, p@) == if more {
                strip_all(v@.skip(pos as int), p@)
            } else {
                v@.skip(pos as int)
            },
        decreases v@.len() - pos + if more { 1int } else { 0int },
    {
        if w.len() > 0 && chars_match_at(v, pos, &w) {
            assert(occurs_at(v@, w@, pos as int));
            assert(pos + w@.len() <= v@.len());
            assert(v@.skip(pos as int).take(w@.len() as int) =~= v@.subrange(pos as int, pos + w@.len()));
            assert(v@.skip(pos as int).skip(w@.len() as int) =~= v@.skip(pos + w@.len()));
            pos = pos + w.len();
        } else {
            proof {
                if w@.len() > 0 && starts_with(v@.skip(pos as int), w@) {
                    assert(v@.skip(pos as int).take(w@.len() as int) =~= v@.subrange(
                        pos as int,
                        pos + w@.len(),
                    ));
                }
            }
            more = false;
        }
    }
    let mut out: Vec<char> = Vec::new();
    let n = v.len();
    let mut k = pos;
    while k < n
        invariant
            pos <= k <= n == v@.len(),
            out@ == v@.subrange(pos as int, k as int),
        decreases n - k,
    {
        out.push(v[k]);
        k = k + 1;
        assert(out@ =~= v@.subrange(pos as int, k as int));
    }
    assert(out@ =~= v@.skip(pos as int));
    out
}

/// The title drawn from the content: its first line (`Untitled` for empty
/// content) without leading `# ` and `#` marks, trimmed.
pub open spec fn title_from_content(content: Seq<char>) -> Seq<char> {
    let line = match first_line(content) {
        Some(l) => l,
        None => "Untitled"@,
    };
    trim(strip_all(strip_all(line, "# "@), "#"@))
}

/// The article title: the `title` setting, else the one drawn from the content.
pub open spec fn article_title_spec(settings: Json, content: Seq<char>) -> Seq<char> {
    match str_at(settings, "title"@) {
        Some(t) => t,
        None => title_from_content(content),
    }
}

pub fn article_title(settings: &Json, content: &str) -> (r: String)
    ensures
        r@ == article_title_spec(*settings, content@),
{
    if let Some(t) = settings.str_at("title") {
        return t.to_owned();
    }
    let v = chars_of(content);
    let line = match first_line_exec(&v) {
        Some(l) => l,
        None => chars_of("Untitled"),
    };
    let a = strip_all_exec(&line, "# ");
    let b = strip_all_exec(&a, "#");
    let t = trim_chars(&b);
    string_from_chars(&t)
}

/// The strings among `items`, in order.
pub open spec fn strings_in(items: Seq<Json>) -> Seq<Seq<char>>
    decreases items.len(),
{
    if items.len() == 0 {
        seq![]
    } else {
        let rest = strings_in(items.drop_last());
        match json_as_str(items.last()) {
            Some(s) => rest.push(s),
            None => rest,
        }
    }
}

/// The string tags of the settings (none without a `tags` array).
pub open spec fn tags_spec(settings: Json) -> Seq<Seq<char>> {
    match array_at(settings, "tags"@) {
        Some(items) => strings_in(items),
        None => seq![],
    }
}

/// The texts of a list of strings.
pub open spec fn texts(v: Seq<String>) -> Seq<Seq<char>> {
    v.map_values(|s: String| s@)
}

/// The first `limit` string tags of the settings (all of them without a
/// limit).
pub fn string_tags(settings: &Json, limit: Option<usize>) -> (r: Vec<String>)
    ensures
        texts(r@) == match limit {
            Some(n) => if tags_spec(*settings).len() <= n {
                tags_spec(*settings)
            } else {
                tags_spec(*settings).take(n as int)
            },
            None => tags_spec(*settings),
        },
{
    let mut out: Vec<String> = Vec::new();
    match settings.array_at("tags") {
        Some(items) => {
            let n = items.len();
            for i in 0..n
                invariant
                    n == items@.len(),
                    array_at(*settings, "tags"@) == Some(items@),
                    texts(out@) == match limit {
                        Some(m) => if strings_in(items@.take(i as int)).len() <= m {
                            strings_in(items@.take(i as int))
                        } else {
                            strings_in(items@.take(i as int)).take(m as int)
                        },
                        None => strings_in(items@.take(i as int)),
                    },
            {
                assert(items@.take(i + 1).drop_last() =~= items@.take(i as int));
                assert(items@.take(i + 1).last() == items@[i as int]);
                if let Some(s) = items[i].as_str() {
                    let full = match limit {
                        Some(m) => out.len() >= m,
                        None => false,
                    };
                    let ghost before = out@;
                    if !full {
                        out.push(s.to_owned());
                        assert(texts(out@) =~= texts(before).push(s@));
                    }
                    proof {
                        let prev = strings_in(items@.take(i as int));
                        let next = strings_in(items@.take(i + 1));
                        assert(next == prev.push(s@));
                        if let Some(m) = limit {
                            if prev.len() > m {
                                assert(next.take(m as int) =~= prev.take(m as int));
                            } else if prev.len() == m {
                                assert(next.take(m as int) =~= prev);
                            }
                        }
                    }
                }
            }
            assert(items@.take(n as int) =~= items@);
        },
        None => {},
    }
    proof {
        if array_at(*settings, "tags"@) is None {
            assert(texts(out@) =~= seq![]);
        }
    }
    out
}

/// Dev.to's `published` setting (a draft by default).
pub fn devto_published(settings: &Json) -> (r: bool)
    ensures
        r == match json_get(*settings, "published"@) {
            Some(v) => match json_as_bool(v) {
                Some(b) => b,
                None => false,
            },
            None => false,
        },
{
    match settings.get("published") {
        Some(v) => match v.as_bool() {
            Some(b) => b,
            None => false,
        },
        None => false,
    }
}

/// Medium's `publish_status` setting (`draft` by default).
pub fn medium_publish_status(settings: &Json) -> (r: String)
    ensures
        r@ == str_or(*settings, "publish_status"@, "draft"@),
{
    str_or_owned(settings, "publish_status", "draft")
}

fn str_list(items: Vec<String>) -> (r: Json)
    ensures
        r matches Json::Array(v) && v@.len() == items@.len() && forall|i: int|
            0 <= i < items@.len() ==> json_as_str(#[trigger] v@[i]) == Some(items@[i]@),
{
    let mut out: Vec<Json> = Vec::new();
    let mut rest = items;
    let ghost all = rest@;
    while rest.len() > 0
        invariant
            out@.len() + rest@.len() == all.len(),
            rest@ == all.take(rest@.len() as int),
            forall|i: int|
                0 <= i < out@.len() ==> json_as_str(#[trigger] out@[i]) == Some(
                    all[all.len() - 1 - i]@,
                ),
        decreases rest@.len(),
    {
        let s = rest.pop().unwrap();
        assert(rest@ =~= all.take(rest@.len() as int));
        out.push(Json::Str(s));
    }
    let mut rev: Vec<Json> = Vec::new();
    let ghost outs = out@;
    while out.len() > 0
        invariant
            rev@.len() + out@.len() == all.len(),
            out@ == outs.take(out@.len() as int),
            outs.len() == all.len(),
            forall|i: int|
                0 <= i < outs.len() ==> json_as_str(#[trigger] outs[i]) == Some(
                    all[all.len() - 1 - i]@,
                ),
            forall|i: int|
                0 <= i < rev@.len() ==> json_as_str(#[trigger] rev@[i]) == Some(all[i]@),
        decreases out@.len(),
    {
        let j = out.pop().unwrap();
        assert(out@ =~= outs.take(out@.len() as int));
        assert(j == outs[out@.len() as int]);
        rev.push(j);
    }
    Json::Array(rev)
}

/// The Dev.to request: `{"article": {"title", "body_markdown", "tags", "published"}}`.
pub fn devto_body(title: String, content: &str, tags: Vec<String>, published: bool) -> (r: Json)
    ensures
        r matches Json::Object(outer) && outer@.len() == 1 && outer@[0].0@ == "article"@
            && devto_article_fields(outer@[0].1, title@, content@, texts(tags@), published),
{
    let mut fields: Vec<(String, Json)> = Vec::new();
    fields.push(("title".to_owned(), Json::Str(title)));
    fields.push(("body_markdown".to_owned(), Json::Str(content.to_owned())));
    fields.push(("tags".to_owned(), str_list(tags)));
    fields.push(("published".to_owned(), Json::Bool(published)));
    let mut outer: Vec<(String, Json)> = Vec::new();
    let article = Json::Object(fields);
    outer.push(("article".to_owned(), article));
    Json::Object(outer)
}

/// A JSON list of exactly these strings.
pub open spec fn is_str_list(j: Json, items: Seq<Seq<char>>) -> bool {
    match j {
        Json::Array(v) => v@.len() == items.len() && forall|i: int|
            0 <= i < items.len() ==> json_as_str(#[trigger] v@[i]) == Some(items[i]),
        _ => false,
    }
}

/// The article object of a Dev.to request.
pub open spec fn devto_article_fields(a: Json, title: Seq<char>, content: Seq<char>, tags: Seq<Seq<char>>, published: bool) -> bool {
    match a {
        Json::Object(f) => f@.len() == 4 && f@[0].0@ == "title"@ && json_as_str(f@[0].1) == Some(
            title,
        ) && f@[1].0@ == "body_markdown"@ && json_as_str(f@[1].1) == Some(content) && f@[2].0@
            == "tags"@ && is_str_list(f@[2].1, tags) && f@[3].0@ == "published"@ && f@[3].1
            == Json::Bool(published),
        _ => false,
    }
}

/// An answer the platform accepted (200 or 201).
pub open spec fn accepted(status: u16) -> bool {
    status == 200 || status == 201
}

/// A 4xx answer.
pub open spec fn client_error(status: u16) -> bool {
    400 <= status <= 499
}

/// The result of a Dev.to publish: the article's numeric `id` and `url`,
/// published or a draft as requested; for a 4xx the answer's `error`, else
/// its `message`, else a fixed text; for other failures its `error`.
pub open spec fn devto_error_text(status: u16, json: Json) -> Seq<char> {
    if client_error(status) {
        match str_at(json, "error"@) {
            Some(e) => e,
            None => str_or(json, "message"@, "Dev.to publish failed"@),
        }
    } else {
        str_or(json, "error"@, "Dev.to API error"@)
    }
}

pub open spec fn devto_id_text(json: Json) -> Seq<char> {
    match json_get(json, "id"@) {
        Some(v) => match json_as_u64(v) {
            Some(n) => decimal(n as nat),
            None => ""@,
        },
        None => ""@,
    }
}

pub fn devto_outcome(status: u16, json: &Json, published: bool) -> (r: Result<PublishResult, ProviderError>)
    ensures
        accepted(status) ==> (r matches Ok(p) && p.platform_post_id@ == devto_id_text(*json)
            && opt_str_view(p.platform_post_url) == str_at(*json, "url"@) && p.status@ == if published {
            "published"@
        } else {
            "draft"@
        }),
        !accepted(status) ==> (r matches Err(ProviderError::Api(m)) && m@ == devto_error_text(status, *json)),
{
    if status == 200 || status == 201 {
        let id = match json.get("id") {
            Some(v) => match v.as_u64() {
                Some(n) => {
                    let mut out: Vec<char> = Vec::new();
                    push_decimal_u64(&mut out, n);
                    string_from_chars(&out)
                },
                None => "".to_owned(),
            },
            None => "".to_owned(),
        };
        let status_text = if published {
            "published".to_owned()
        } else {
            "draft".to_owned()
        };
        return Ok(
            PublishResult {
                platform_post_id: id,
                platform_post_url: crate::json::own_opt(json.str_at("url")),
                status: status_text,
            },
        );
    }
    let msg = if 400 <= status && status <= 499 {
        match json.str_at("error") {
            Some(e) => e.to_owned(),
            None => str_or_owned(json, "message", "Dev.to publish failed"),
        }
    } else {
        str_or_owned(json, "error", "Dev.to API error")
    };
    Err(ProviderError::Api(msg))
}

/// Hashnode needs the publication to post to.
pub fn hashnode_publication_id(settings: &Json) -> (r: Result<String, ProviderError>)
    ensures
        match str_at(*settings, "publication_id"@) {
            Some(p) => r matches Ok(x) && x@ == p,
            None => r matches Err(ProviderError::Api(m)) && m@ == "Missing publication_id in settings"@,
        },
{
    match settings.str_at("publication_id") {
        Some(p) => Ok(p.to_owned()),
        None => Err(ProviderError::Api("Missing publication_id in settings".to_owned())),
    }
}

/// The first of two string members that is present.
pub open spec fn str_either(j: Json, a: Seq<char>, b: Seq<char>) -> Option<Seq<char>> {
    match str_at(j, a) {
        Some(s) => Some(s),
        None => str_at(j, b),
    }
}

fn str_either_exec(j: &Json, a: &str, b: &str) -> (r: Option<String>)
    ensures
        opt_str_view(r) == str_either(*j, a@, b@),
{
    match j.str_at(a) {
        Some(s) => Some(s.to_owned()),
        None => crate::json::own_opt(j.str_at(b)),
    }
}

/// A member, or `null` when absent (`value[key]`).
fn member_or_null<'a>(j: &'a Json, key: &str, null: &'a Json) -> (r: &'a Json)
    requires
        *null == Json::Null,
    ensures
        *r == crate::json::json_index(*j, key@),
{
    match j.get(key) {
        Some(v) => v,
        None => null,
    }
}

/// The result of a Hashnode publish: the `post`'s `_id` (or `id`) and its
/// `url` (or `slug`); for a 4xx the answer's `message`, else its `error`,
/// else a fixed text; for other failures a fixed text.
pub open spec fn hashnode_error_text(status: u16, json: Json) -> Seq<char> {
    if client_error(status) {
        match str_either(json, "message"@, "error"@) {
            Some(m) => m,
            None => "Hashnode publish failed"@,
        }
    } else {
        "Hashnode API error"@
    }
}

pub fn hashnode_outcome(status: u16, json: &Json) -> (r: Result<PublishResult, ProviderError>)
    ensures
        accepted(status) ==> (r matches Ok(p) && p.platform_post_id@ == match str_either(
            crate::json::json_index(*json, "post"@),
            "_id"@,
            "id"@,
        ) {
            Some(id) => id,
            None => ""@,
        } && opt_str_view(p.platform_post_url) == str_either(
            crate::json::json_index(*json, "post"@),
            "url"@,
            "slug"@,
        ) && p.status@ == "published"@),
        !accepted(status) ==> (r matches Err(ProviderError::Api(m)) && m@ == hashnode_error_text(status, *json)),
{
    if status == 200 || status == 201 {
        let null = Json::Null;
        let post = member_or_null(json, "post", &null);
        let id = match str_either_exec(post, "_id", "id") {
            Some(i) => i,
            None => "".to_owned(),
        };
        return Ok(
            PublishResult {
                platform_post_id: id,
                platform_post_url: str_either_exec(post, "url", "slug"),
                status: "published".to_owned(),
            },
        );
    }
    let msg = if 400 <= status && status <= 499 {
        match str_either_exec(json, "message", "error") {
            Some(m) => m,
            None => "Hashnode publish failed".to_owned(),
        }
    } else {
        "Hashnode API error".to_owned()
    };
    Err(ProviderError::Api(msg))
}

/// `value["errors"][0]["message"]`.
pub open spec fn first_error_message(json: Json) -> Option<Seq<char>> {
    match array_at(json, "errors"@) {
        Some(items) => if items.len() > 0 {
            str_at(items[0], "message"@)
        } else {
            None
        },
        None => None,
    }
}

fn first_error_message_exec(json: &Json) -> (r: Option<String>)
    ensures
        opt_str_view(r) == first_error_message(*json),
{
    match json.array_at("errors") {
        Some(items) => if items.len() > 0 {
            crate::json::own_opt(items[0].str_at("message"))
        } else {
            None
        },
        None => None,
    }
}

/// The result of a Medium publish: `data.id` and `data.url` with the
/// requested publish status; failures carry `errors[0].message` or a fixed
/// text.
pub fn medium_outcome(status: u16, json: &Json, publish_status: String) -> (r: Result<PublishResult, ProviderError>)
    ensures
        accepted(status) ==> (r matches Ok(p) && p.platform_post_id@ == match opt_str(
            json_get2(*json, "data"@, "id"@),
        ) {
            Some(id) => id,
            None => ""@,
        } && opt_str_view(p.platform_post_url) == opt_str(json_get2(*json, "data"@, "url"@))
            && p.status == publish_status),
        !accepted(status) ==> (r matches Err(ProviderError::Api(m)) && m@ == match first_error_message(*json) {
            Some(msg) => msg,
            None => if client_error(status) {
                "Medium publish failed"@
            } else {
                "Medium API error"@
            },
        }),
{
    if status == 200 || status == 201 {
        let id = match json.get2("data", "id") {
            Some(v) => match v.as_str() {
                Some(s) => s.to_owned(),
                None => "".to_owned(),
            },
            None => "".to_owned(),
        };
        let url = match json.get2("data", "url") {
            Some(v) => crate::json::own_opt(v.as_str()),
            None => None,
        };
        return Ok(PublishResult { platform_post_id: id, platform_post_url: url, status: publish_status });
    }
    let msg = match first_error_message_exec(json) {
        Some(m) => m,
        None => if 400 <= status && status <= 499 {
            "Medium publish failed".to_owned()
        } else {
            "Medium API error".to_owned()
        },
    };
    Err(ProviderError::Api(msg))
}

/// The Medium author id from `/me`: `data.id` on a 200; a missing id is an
/// API error; a 4xx an authorization error with `errors[0].message`; other
/// failures an API error with it.
pub fn medium_author_id(status: u16, json: &Json) -> (r: Result<String, ProviderError>)
    ensures
        status == 200 ==> match opt_str(json_get2(*json, "data"@, "id"@)) {
            Some(id) => r matches Ok(x) && x@ == id,
            None => r matches Err(ProviderError::Api(m)) && m@ == "Missing user ID in Medium response"@,
        },
        status != 200 && client_error(status) ==> (r matches Err(ProviderError::Auth(m)) && m@
            == match first_error_message(*json) {
            Some(msg) => msg,
            None => "Medium auth failed"@,
        }),
        status != 200 && !client_error(status) ==> (r matches Err(ProviderError::Api(m)) && m@
            == match first_error_message(*json) {
            Some(msg) => msg,
            None => "Medium API error"@,
        }),
{
    if status == 200 {
        return match json.get2("data", "id") {
            Some(v) => match v.as_str() {
                Some(s) => Ok(s.to_owned()),
                None => Err(ProviderError::Api("Missing user ID in Medium response".to_owned())),
            },
            None => Err(ProviderError::Api("Missing user ID in Medium response".to_owned())),
        };
    }
    if 400 <= status && status <= 499 {
        let m = match first_error_message_exec(json) {
            Some(m) => m,
            None => "Medium auth failed".to_owned(),
        };
        Err(ProviderError::Auth(m))
    } else {
        let m = match first_error_message_exec(json) {
            Some(m) => m,
            None => "Medium API error".to_owned(),
        };
        Err(ProviderError::Api(m))
    }
}

/// The Medium request: `{"title", "contentFormat": "markdown", "content",
/// "tags", "publishStatus"}`.
pub fn medium_body(title: String, content: &str, tags: Vec<String>, publish_status: String) -> (r: Json)
    ensures
        r matches Json::Object(f) && f@.len() == 5 && f@[0].0@ == "title"@ && json_as_str(f@[0].1)
            == Some(title@) && f@[1].0@ == "contentFormat"@ && json_as_str(f@[1].1) == Some(
            "markdown"@,
        ) && f@[2].0@ == "content"@ && json_as_str(f@[2].1) == Some(content@) && f@[3].0@
            == "tags"@ && is_str_list(f@[3].1, texts(tags@)) && f@[4].0@ == "publishStatus"@
            && json_as_str(f@[4].1) == Some(publish_status@),
{
    let mut f: Vec<(String, Json)> = Vec::new();
    f.push(("title".to_owned(), Json::Str(title)));
    f.push(("contentFormat".to_owned(), Json::Str("markdown".to_owned())));
    f.push(("content".to_owned(), Json::Str(content.to_owned())));
    f.push(("tags".to_owned(), str_list(tags)));
    f.push(("publishStatus".to_owned(), Json::Str(publish_status)));
    Json::Object(f)
}

/// The Hashnode request: `{"title", "contentMarkdown", "tags",
/// "isRepublished": false}`, the tags being the settings' `tags` array.
pub fn hashnode_body(title: String, content: &str, tags: Vec<Json>) -> (r: Json)
    ensures
        r matches Json::Object(f) && f@.len() == 4 && f@[0].0@ == "title"@ && json_as_str(f@[0].1)
            == Some(title@) && f@[1].0@ == "contentMarkdown"@ && json_as_str(f@[1].1) == Some(
            content@,
        ) && f@[2].0@ == "tags"@ && f@[2].1 == Json::Array(tags) && f@[3].0@ == "isRepublished"@
            && f@[3].1 == Json::Bool(false),
{
    let mut f: Vec<(String, Json)> = Vec::new();
    f.push(("title".to_owned(), Json::Str(title)));
    f.push(("contentMarkdown".to_owned(), Json::Str(content.to_owned())));
    f.push(("tags".to_owned(), Json::Array(tags)));
    f.push(("isRepublished".to_owned(), Json::Bool(false)));
    Json::Object(f)
}

/// The profile check before listing publications: a non-200 answer is an
/// error with its `message`.
pub fn hashnode_profile_check(status: u16, json: &Json) -> (r: Result<(), ProviderError>)
    ensures
        status == 200 ==> r is Ok,
        status != 200 ==> (r matches Err(ProviderError::Api(m)) && m@ == str_or(
            *json,
            "message"@,
            "Failed to fetch Hashnode user info"@,
        )),
{
    if status == 200 {
        Ok(())
    } else {
        Err(ProviderError::Api(str_or_owned(json, "message", "Failed to fetch Hashnode user info")))
    }
}

/// A publication as a connectable page: its `_id`, `title` (a fixed name
/// when absent) and `logo` (or `logoUrl`).
pub open spec fn publication_spec(entry: Json) -> (Seq<char>, Seq<char>, Option<Seq<char>>) {
    let p = crate::json::json_index(entry, "publication"@);
    (
        str_or(p, "_id"@, ""@),
        str_or(p, "title"@, "Hashnode Publication"@),
        match str_at(p, "logo"@) {
            Some(l) => Some(l),
            None => str_at(p, "logoUrl"@),
        },
    )
}

/// The page view of a publication: id, name and picture.
pub open spec fn publication_view(p: crate::social::PageInfo) -> (Seq<char>, Seq<char>, Option<Seq<char>>) {
    (p.id@, p.name@, opt_str_view(p.picture))
}

fn publication(entry: &Json) -> (r: crate::social::PageInfo)
    ensures
        publication_view(r) == publication_spec(*entry),
        r.access_token is None,
        r.username is None,
{
    let null = Json::Null;
    let p: &Json = match entry.get("publication") {
        Some(p) => p,
        None => &null,
    };
    let picture = match p.str_at("logo") {
        Some(l) => Some(l.to_owned()),
        None => crate::json::own_opt(p.str_at("logoUrl")),
    };
    crate::social::PageInfo {
        id: str_or_owned(p, "_id", ""),
        name: str_or_owned(p, "title", "Hashnode Publication"),
        access_token: None,
        picture,
        username: None,
    }
}

/// The user's publications as pages (none without a `publications` list);
/// a non-200 answer is an error with its `message`.
pub fn hashnode_publications(status: u16, json: &Json) -> (r: Result<Vec<crate::social::PageInfo>, ProviderError>)
    ensures
        status != 200 ==> (r matches Err(ProviderError::Api(m)) && m@ == str_or(
            *json,
            "message"@,
            "Failed to fetch Hashnode publications"@,
        )),
        status == 200 ==> (r matches Ok(v) && v@.map_values(|p: crate::social::PageInfo| publication_view(p))
            == match array_at(*json, "publications"@) {
            Some(items) => items.map_values(|e: Json| publication_spec(e)),
            None => seq![],
        } && forall|i: int| 0 <= i < v@.len() ==> (#[trigger] v@[i]).access_token is None && v@[i].username is None),
{
    if status != 200 {
        return Err(ProviderError::Api(str_or_owned(json, "message", "Failed to fetch Hashnode publications")));
    }
    let mut out: Vec<crate::social::PageInfo> = Vec::new();
    match json.array_at("publications") {
        Some(items) => {
            let n = items.len();
            for i in 0..n
                invariant
                    n == items@.len(),
                    out@.map_values(|p: crate::social::PageInfo| publication_view(p)) == items@.take(
                        i as int,
                    ).map_values(|e: Json| publication_spec(e)),
                    forall|k: int| 0 <= k < out@.len() ==> (#[trigger] out@[k]).access_token is None && out@[k].username is None,
            {
                let p = publication(&items[i]);
                let ghost before = out@;
                let ghost pv = publication_view(p);
                out.push(p);
                assert(out@.map_values(|p: crate::social::PageInfo| publication_view(p)) =~= before.map_values(
                    |p: crate::social::PageInfo| publication_view(p),
                ).push(pv));
                assert(items@.take(i + 1).map_values(|e: Json| publication_spec(e)) =~= items@.take(
                    i as int,
                ).map_values(|e: Json| publication_spec(e)).push(publication_spec(items@[i as int])));
                assert(out@.map_values(|p: crate::social::PageInfo| publication_view(p)) =~= items@.take(
                    i + 1,
                ).map_values(|e: Json| publication_spec(e)));
            }
            assert(items@.take(n as int) =~= items@);
        },
        None => {
            assert(out@.map_values(|p: crate::social::PageInfo| publication_view(p)) =~= seq![]);
        },
    }
    Ok(out)
}

} // verus!
