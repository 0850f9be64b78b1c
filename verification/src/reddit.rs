//! Reddit: submissions and comments, the answers to them, karma, inbox
//! mentions, and the account and token answers.
use vstd::prelude::*;

use crate::engagement::{to_lowercase, unicode_lowercase};
use crate::json::{json_get, json_get2, str_at, str_or, str_or_owned, Json};
use crate::meta::{int_text, InsightSeries};
use crate::providers::pairs_view;
use crate::social::{AnalyticsDataPoint, AuthToken, MentionResult, PostContent, ProviderError, PublishResult};
use crate::text::{
    trim_prefix_all, trim_prefix_all_exec, chars_of, contains, opt_str_view, push_str_chars, starts_with, str_contains, str_starts_with,
    string_from_chars,
};
use crate::tokens::auth_view;

verus! {

/// `s` begins with `/r/`.
pub open spec fn marker_at(s: Seq<char>) -> bool {
    s.len() >= 3 && s[0] == '/' && s[1] == 'r' && s[2] == '/'
}

/// `s` with every `/r/` taken out, matches found left to right without
/// overlap (`str::replace("/r/", "")`).
pub open spec fn strip_sub_marker(s: Seq<char>) -> Seq<char>
    decreases s.len(),
{
    if s.len() == 0 {
        s
    } else if marker_at(s) {
        strip_sub_marker(s.skip(3))
    } else {
        seq![s[0]] + strip_sub_marker(s.skip(1))
    }
}

fn strip_sub_marker_exec(s: &str) -> (r: String)
    ensures
        r@ == strip_sub_marker(s@),
{
    let v = chars_of(s);
    let n = v.len();
    let mut out: Vec<char> = Vec::new();
    let mut i: usize = 0;
    assert(v@.skip(0) =~= v@);
    while i < n
        invariant
            n == v@.len(),
            i <= n,
            out@ + strip_sub_marker(v@.skip(i as int)) == strip_sub_marker(v@),
        decreases n - i,
    {
        let ghost rest = v@.skip(i as int);
        if n - i >= 3 && v[i] == '/' && v[i + 1] == 'r' && v[i + 2] == '/' {
            assert(marker_at(rest));
            assert(rest.skip(3) =~= v@.skip(i + 3));
            i = i + 3;
        } else {
            assert(!marker_at(rest));
            assert(rest.skip(1) =~= v@.skip(i + 1));
            let ghost before = out@;
            out.push(v[i]);
            assert(out@ + strip_sub_marker(v@.skip(i + 1)) =~= before + strip_sub_marker(rest));
            i = i + 1;
        }
    }
    assert(v@.skip(n as int) =~= Seq::<char>::empty());
    assert(out@ + Seq::<char>::empty() =~= out@);
    string_from_chars(&out)
}

/// The kind of a submission: `video` when the first medium's address holds
/// `.mp4`, `image` for other media, `self` for text.
pub open spec fn submit_kind(post: PostContent) -> Seq<char> {
    if post.media@.len() > 0 {
        if contains(post.media@[0].url@, ".mp4"@) {
            "video"@
        } else {
            "image"@
        }
    } else {
        "self"@
    }
}

/// The form of a submission to the subreddit `sr` titled `title`:
/// `api_type`, `title`, `kind`, `text`, `sr`, then the first medium's `url`
/// and the `flair_id` when there are.
pub open spec fn submit_pairs(post: PostContent, sr: Seq<char>, title: Seq<char>) -> Seq<(Seq<char>, Seq<char>)> {
    seq![
        ("api_type"@, "json"@),
        ("title"@, title),
        ("kind"@, submit_kind(post)),
        ("text"@, post.content@),
        ("sr"@, unicode_lowercase(strip_sub_marker(sr))),
    ] + (if post.media@.len() > 0 {
        seq![("url"@, post.media@[0].url@)]
    } else {
        seq![]
    }) + match str_at(post.settings, "flair"@) {
        Some(f) => seq![("flair_id"@, f)],
        None => seq![],
    }
}

/// The form holds the pair `("kind", k)`, and no other `kind`.
pub open spec fn form_kind_is(form: Seq<(Seq<char>, Seq<char>)>, k: Seq<char>) -> bool {
    &&& form.contains(("kind"@, k))
    &&& forall|i: int| 0 <= i < form.len() && (#[trigger] form[i]).0 == "kind"@ ==> form[i].1 == k
}

/// Law: a submission without media is a text post (`self`); one whose first
/// medium's address holds `.mp4` is a video; any other medium makes an image
/// post.
pub proof fn lemma_submission_kind(post: PostContent, sr: Seq<char>, title: Seq<char>)
    ensures
        post.media@.len() == 0 ==> form_kind_is(submit_pairs(post, sr, title), "self"@),
        post.media@.len() > 0 && contains(post.media@[0].url@, ".mp4"@) ==> form_kind_is(
            submit_pairs(post, sr, title),
            "video"@,
        ),
        post.media@.len() > 0 && !contains(post.media@[0].url@, ".mp4"@) ==> form_kind_is(
            submit_pairs(post, sr, title),
            "image"@,
        ),
{
    reveal_strlit("kind");
    reveal_strlit("api_type");
    reveal_strlit("title");
    reveal_strlit("text");
    reveal_strlit("sr");
    reveal_strlit("url");
    reveal_strlit("flair_id");
    let form = submit_pairs(post, sr, title);
    assert(form[2] == ("kind"@, submit_kind(post)));
    assert("kind"@.len() != "api_type"@.len());
    assert("kind"@.len() != "title"@.len());
    assert("kind"@[0] != "text"@[0]);
    assert("kind"@.len() != "sr"@.len());
    assert("kind"@.len() != "url"@.len());
    assert("kind"@.len() != "flair_id"@.len());
    assert forall|i: int| 0 <= i < form.len() && (#[trigger] form[i]).0 == "kind"@ implies form[i].1
        == submit_kind(post) by {
        if i != 2 {
            assert(form[i].0 != "kind"@);
        }
    }
}

fn pair(k: &str, v: &str) -> (r: (String, String))
    ensures
        r.0@ == k@,
        r.1@ == v@,
{
    (k.to_owned(), v.to_owned())
}

/// The form submitting a post: its subreddit (without `/r/`, lowercased)
/// and title come from the settings, which must give both.
pub fn submit_form(post: &PostContent) -> (r: Result<Vec<(String, String)>, ProviderError>)
    ensures
        match (str_at(post.settings, "subreddit"@), str_at(post.settings, "title"@)) {
            (None, _) => r matches Err(ProviderError::InvalidRequest(m)) && m@
                == "Missing subreddit in settings"@,
            (Some(_), None) => r matches Err(ProviderError::InvalidRequest(m)) && m@
                == "Missing title in settings"@,
            (Some(sr), Some(t)) => r matches Ok(v) && pairs_view(v@) == submit_pairs(*post, sr, t),
        },
{
    let sr = match post.settings.str_at("subreddit") {
        Some(s) => s,
        None => {
            return Err(ProviderError::InvalidRequest("Missing subreddit in settings".to_owned()));
        },
    };
    let stripped = strip_sub_marker_exec(sr);
    let subreddit = to_lowercase(stripped.as_str());
    let title = match post.settings.str_at("title") {
        Some(t) => t,
        None => {
            return Err(ProviderError::InvalidRequest("Missing title in settings".to_owned()));
        },
    };
    let kind = if post.media.len() > 0 {
        if str_contains(post.media[0].url.as_str(), ".mp4") {
            "video"
        } else {
            "image"
        }
    } else {
        "self"
    };
    let mut v: Vec<(String, String)> = Vec::new();
    v.push(pair("api_type", "json"));
    v.push(pair("title", title));
    v.push(pair("kind", kind));
    v.push(pair("text", post.content.as_str()));
    v.push(pair("sr", subreddit.as_str()));
    if post.media.len() > 0 {
        v.push(pair("url", post.media[0].url.as_str()));
    }
    if let Some(f) = post.settings.str_at("flair") {
        v.push(pair("flair_id", f));
    }
    assert(pairs_view(v@) =~= submit_pairs(*post, sr@, title@));
    Ok(v)
}

/// The message of the first error of an answer (`json.errors[0][1]`), else
/// `Unknown error`.
pub open spec fn first_error(json: Json) -> Seq<char> {
    match json_get2(json, "json"@, "errors"@) {
        Some(Json::Array(errs)) => if errs@.len() > 0 {
            match errs@[0] {
                Json::Array(e) => if e@.len() > 1 {
                    match crate::json::json_as_str(e@[1]) {
                        Some(m) => m,
                        None => "Unknown error"@,
                    }
                } else {
                    "Unknown error"@
                },
                _ => "Unknown error"@,
            }
        } else {
            "Unknown error"@
        },
        _ => "Unknown error"@,
    }
}

fn first_error_exec(json: &Json) -> (r: String)
    ensures
        r@ == first_error(*json),
{
    if let Some(Json::Array(errs)) = json.get2("json", "errors") {
        if errs.len() > 0 {
            if let Json::Array(e) = &errs[0] {
                if e.len() > 1 {
                    if let Some(m) = e[1].as_str() {
                        return m.to_owned();
                    }
                }
            }
        }
    }
    "Unknown error".to_owned()
}

/// The answer to a submission: the post's `json.data.id` and `url`; when
/// the id is missing or empty, an error with the first error's message.
pub fn submit_result(json: &Json) -> (r: Result<PublishResult, ProviderError>)
    ensures
        ({
            let data = match json_get2(*json, "json"@, "data"@) {
                Some(d) => d,
                None => Json::Null,
            };
            if str_or(data, "id"@, ""@).len() == 0 {
                r matches Err(ProviderError::Api(m)) && m@ == first_error(*json)
            } else {
                r matches Ok(p) && p.platform_post_id@ == str_or(data, "id"@, ""@) && opt_str_view(
                    p.platform_post_url,
                ) == Some(str_or(data, "url"@, ""@)) && p.status@ == "published"@
            }
        }),
{
    let null = Json::Null;
    let data: &Json = match json.get2("json", "data") {
        Some(d) => d,
        None => &null,
    };
    let id = str_or_owned(data, "id", "");
    if id.as_str().unicode_len() == 0 {
        return Err(ProviderError::Api(first_error_exec(json)));
    }
    Ok(
        PublishResult {
            platform_post_id: id,
            platform_post_url: Some(str_or_owned(data, "url", "")),
            status: "published".to_owned(),
        },
    )
}

/// The thing a comment answers: the id itself when it already names a post
/// (`t3_`) or comment (`t1_`), else the post `t3_{id}`.
pub fn comment_thing_id(post_id: &str) -> (r: String)
    ensures
        r@ == if starts_with(post_id@, "t3_"@) || starts_with(post_id@, "t1_"@) {
            post_id@
        } else {
            "t3_"@ + post_id@
        },
{
    if str_starts_with(post_id, "t3_") || str_starts_with(post_id, "t1_") {
        post_id.to_owned()
    } else {
        let mut out: Vec<char> = Vec::new();
        push_str_chars(&mut out, "t3_");
        push_str_chars(&mut out, post_id);
        string_from_chars(&out)
    }
}

/// The id of the first created thing: `json.data.things[0].data.id`.
pub open spec fn comment_id_spec(json: Json) -> Seq<char> {
    match crate::json::json_get3(json, "json"@, "data"@, "things"@) {
        Some(Json::Array(things)) => if things@.len() > 0 {
            match json_get(things@[0], "data"@) {
                Some(d) => str_or(d, "id"@, ""@),
                None => ""@,
            }
        } else {
            ""@
        },
        _ => ""@,
    }
}

/// The answer to a comment: the new comment's id, or, when it is missing or
/// empty, an error with the first error's message.
pub fn comment_result(json: &Json) -> (r: Result<PublishResult, ProviderError>)
    ensures
        comment_id_spec(*json).len() == 0 ==> (r matches Err(ProviderError::Api(m)) && m@
            == first_error(*json)),
        comment_id_spec(*json).len() > 0 ==> (r matches Ok(p) && p.platform_post_id@
            == comment_id_spec(*json) && p.platform_post_url is None && p.status@ == "published"@),
{
    let mut id = "".to_owned();
    proof {
        reveal_strlit("");
    }
    if let Some(Json::Array(things)) = json.get3("json", "data", "things") {
        if things.len() > 0 {
            if let Some(d) = things[0].get("data") {
                id = str_or_owned(d, "id", "");
            }
        }
    }
    if id.as_str().unicode_len() == 0 {
        return Err(ProviderError::Api(first_error_exec(json)));
    }
    Ok(PublishResult { platform_post_id: id, platform_post_url: None, status: "published".to_owned() })
}

/// The error of a direct-message answer that reports one:
/// `Reddit DM error: {message}` for the first of a non-empty error list.
pub fn dm_error(json: &Json) -> (r: Option<ProviderError>)
    ensures
        match json_get2(*json, "json"@, "errors"@) {
            Some(Json::Array(errs)) => if errs@.len() > 0 {
                r matches Some(ProviderError::Api(m)) && m@ == "Reddit DM error: "@ + first_error(
                    *json,
                )
            } else {
                r is None
            },
            _ => r is None,
        },
{
    if let Some(Json::Array(errs)) = json.get2("json", "errors") {
        if errs.len() > 0 {
            let mut out: Vec<char> = Vec::new();
            push_str_chars(&mut out, "Reddit DM error: ");
            let m = first_error_exec(json);
            push_str_chars(&mut out, m.as_str());
            return Some(ProviderError::Api(string_from_chars(&out)));
        }
    }
    None
}

/// The karma of one subreddit: its link and comment karma (0 when absent)
/// as two points dated `link_karma` and `comment_karma`, labelled
/// `r/{sr}` (`unknown` when absent).
pub open spec fn karma_spec(entry: Json) -> (Seq<char>, Seq<(Seq<char>, Seq<char>)>) {
    (
        "r/"@ + str_or(entry, "sr"@, "unknown"@),
        seq![
            (int_text(crate::json::int_or_zero(entry, "link_karma"@) as int), "link_karma"@),
            (int_text(crate::json::int_or_zero(entry, "comment_karma"@) as int), "comment_karma"@),
        ],
    )
}

fn int_point(n: i64, date: &str) -> (r: AnalyticsDataPoint)
    ensures
        crate::meta::point_view(r) == (int_text(n as int), date@),
{
    let mut total: Vec<char> = Vec::new();
    crate::meta::push_i64(&mut total, n);
    assert(total@ =~= int_text(n as int));
    AnalyticsDataPoint { total: string_from_chars(&total), date: date.to_owned() }
}

fn karma_series(entry: &Json) -> (r: InsightSeries)
    ensures
        crate::meta::series_view(r) == karma_spec(*entry),
{
    let mut label: Vec<char> = Vec::new();
    push_str_chars(&mut label, "r/");
    let sr = str_or_owned(entry, "sr", "unknown");
    push_str_chars(&mut label, sr.as_str());
    let mut points: Vec<AnalyticsDataPoint> = Vec::new();
    points.push(int_point(crate::json::int_field(entry, "link_karma"), "link_karma"));
    points.push(int_point(crate::json::int_field(entry, "comment_karma"), "comment_karma"));
    let r = InsightSeries { label: string_from_chars(&label), points };
    assert(crate::meta::series_view(r).1 =~= karma_spec(*entry).1);
    r
}

/// The karma of each subreddit in a karma answer's `data`, in order.
pub fn karma(json: &Json) -> (r: Vec<InsightSeries>)
    ensures
        r@.map_values(|s: InsightSeries| crate::meta::series_view(s)) == match json_get(
            *json,
            "data"@,
        ) {
            Some(Json::Array(es)) => es@.map_values(|e: Json| karma_spec(e)),
            _ => seq![],
        },
{
    let mut out: Vec<InsightSeries> = Vec::new();
    if let Some(Json::Array(es)) = json.get("data") {
        let n = es.len();
        for i in 0..n
            invariant
                n == es@.len(),
                out@.map_values(|s: InsightSeries| crate::meta::series_view(s)) == es@.take(
                    i as int,
                ).map_values(|e: Json| karma_spec(e)),
        {
            let ghost before = out@;
            let series = karma_series(&es[i]);
            out.push(series);
            assert(es@.take(i + 1) =~= es@.take(i as int).push(es@[i as int]));
            assert(out@.map_values(|s: InsightSeries| crate::meta::series_view(s)) =~= before.map_values(
                |s: InsightSeries| crate::meta::series_view(s),
            ).push(karma_spec(es@[i as int])));
            assert(out@.map_values(|s: InsightSeries| crate::meta::series_view(s)) =~= es@.take(
                i + 1,
            ).map_values(|e: Json| karma_spec(e)));
        }
        assert(es@.take(n as int) =~= es@);
    } else {
        assert(out@.map_values(|s: InsightSeries| crate::meta::series_view(s)) =~= Seq::<
            (Seq<char>, Seq<(Seq<char>, Seq<char>)>),
        >::empty());
    }
    out
}

/// A message of the inbox listing matches a query when the query is empty
/// or its lowercased subject contains the lowercased query.
pub open spec fn mention_matches(msg: Json, query: Seq<char>) -> bool {
    query.len() == 0 || contains(unicode_lowercase(str_or(msg, "subject"@, ""@)), unicode_lowercase(query))
}

/// The mention offered for an inbox message: its `id` and the label
/// `u/{author}: {subject}`.
pub open spec fn mention_spec(msg: Json) -> (Seq<char>, Seq<char>) {
    (
        str_or(msg, "id"@, ""@),
        "u/"@ + str_or(msg, "author"@, ""@) + ": "@ + str_or(msg, "subject"@, ""@),
    )
}

/// The mentions of the messages among `children` that match `query`.
pub open spec fn mentions_spec(children: Seq<Json>, query: Seq<char>) -> Seq<(Seq<char>, Seq<char>)>
    decreases children.len(),
{
    if children.len() == 0 {
        seq![]
    } else {
        let rest = mentions_spec(children.drop_last(), query);
        let msg = crate::json::json_index(children.last(), "data"@);
        if mention_matches(msg, query) {
            rest.push(mention_spec(msg))
        } else {
            rest
        }
    }
}

pub open spec fn mention_view(m: MentionResult) -> (Seq<char>, Seq<char>) {
    (m.id@, m.label@)
}

/// The inbox messages whose subject matches `query`, as mentions without
/// image or caching hint.
pub fn inbox_mentions(json: &Json, query: &str) -> (r: Vec<MentionResult>)
    ensures
        r@.map_values(|m: MentionResult| mention_view(m)) == match json_get2(
            *json,
            "data"@,
            "children"@,
        ) {
            Some(Json::Array(cs)) => mentions_spec(cs@, query@),
            _ => seq![],
        },
        forall|i: int| 0 <= i < r@.len() ==> (#[trigger] r@[i]).image is None && r@[i].do_not_cache is None,
{
    let mut out: Vec<MentionResult> = Vec::new();
    let query_lower = to_lowercase(query);
    let null = Json::Null;
    if let Some(Json::Array(cs)) = json.get2("data", "children") {
        let n = cs.len();
        assert(cs@.take(0) =~= Seq::<Json>::empty());
        for i in 0..n
            invariant
                n == cs@.len(),
                query_lower@ == unicode_lowercase(query@),
                null == Json::Null,
                out@.map_values(|m: MentionResult| mention_view(m)) == mentions_spec(
                    cs@.take(i as int),
                    query@,
                ),
                forall|k: int| 0 <= k < out@.len() ==> (#[trigger] out@[k]).image is None
                    && out@[k].do_not_cache is None,
        {
            assert(cs@.take(i + 1).drop_last() =~= cs@.take(i as int));
            assert(cs@.take(i + 1).last() == cs@[i as int]);
            let msg: &Json = match cs[i].get("data") {
                Some(d) => d,
                None => &null,
            };
            let subject = str_or_owned(msg, "subject", "");
            let subject_lower = to_lowercase(subject.as_str());
            let keep = query.unicode_len() == 0 || str_contains(
                subject_lower.as_str(),
                query_lower.as_str(),
            );
            assert(*msg == crate::json::json_index(cs@[i as int], "data"@));
            assert(keep == mention_matches(*msg, query@));
            if keep {
                let mut label: Vec<char> = Vec::new();
                push_str_chars(&mut label, "u/");
                let author = str_or_owned(msg, "author", "");
                push_str_chars(&mut label, author.as_str());
                push_str_chars(&mut label, ": ");
                push_str_chars(&mut label, subject.as_str());
                let ghost before = out@;
                out.push(
                    MentionResult {
                        id: str_or_owned(msg, "id", ""),
                        label: string_from_chars(&label),
                        image: None,
                        do_not_cache: None,
                    },
                );
                assert(out@.map_values(|m: MentionResult| mention_view(m)) =~= before.map_values(
                    |m: MentionResult| mention_view(m),
                ).push(mention_spec(*msg)));
            }
        }
        assert(cs@.take(n as int) =~= cs@);
    } else {
        assert(out@.map_values(|m: MentionResult| mention_view(m)) =~= Seq::<
            (Seq<char>, Seq<char>),
        >::empty());
    }
    out
}

/// The text before the first `?` (all of it without one).
pub open spec fn before_query(s: Seq<char>) -> Seq<char>
    decreases s.len(),
{
    if s.len() == 0 {
        s
    } else if s[0] == '?' {
        seq![]
    } else {
        seq![s[0]] + before_query(s.skip(1))
    }
}

fn before_query_exec(s: &str) -> (r: String)
    ensures
        r@ == before_query(s@),
{
    let v = chars_of(s);
    let n = v.len();
    let mut out: Vec<char> = Vec::new();
    let mut i: usize = 0;
    assert(v@.skip(0) =~= v@);
    while i < n && v[i] != '?'
        invariant
            n == v@.len(),
            i <= n,
            out@ + before_query(v@.skip(i as int)) == before_query(v@),
        decreases n - i,
    {
        assert(v@.skip(i as int).skip(1) =~= v@.skip(i + 1));
        let ghost before = out@;
        out.push(v[i]);
        assert(out@ + before_query(v@.skip(i + 1)) =~= before + before_query(v@.skip(i as int)));
        i = i + 1;
    }
    assert(before_query(v@.skip(i as int)) =~= Seq::<char>::empty()) by {
        if i < n {
            assert(v@.skip(i as int)[0] == v@[i as int]);
        }
    }
    assert(out@ + Seq::<char>::empty() =~= out@);
    string_from_chars(&out)
}

/// The account answer names a user (a non-empty `name`); an answer without
/// one means the token was revoked.
pub fn me_has_name(user: &Json) -> (r: bool)
    ensures
        r == (str_at(*user, "name"@) matches Some(n) && n.len() > 0),
{
    match user.str_at("name") {
        Some(n) => n.unicode_len() > 0,
        None => false,
    }
}

/// The connection for an accepted access token: a day-long token with the
/// given refresh token, the account's `id`, its `name` as both name and
/// username, and its icon without the query part.
pub fn me_auth_token(token: &str, refresh_token: Option<String>, user: &Json) -> (r: AuthToken)
    ensures
        auth_view(r) == (
            token@,
            opt_str_view(refresh_token),
            Some(86400u32),
            str_or(*user, "id"@, ""@),
            str_or(*user, "name"@, ""@),
            str_or(*user, "name"@, ""@),
            match str_at(*user, "icon_img"@) {
                Some(icon) => Some(before_query(icon)),
                None => None,
            },
        ),
{
    AuthToken {
        access_token: token.to_owned(),
        refresh_token,
        expires_in: Some(86400),
        provider_user_id: str_or_owned(user, "id", ""),
        name: str_or_owned(user, "name", ""),
        username: str_or_owned(user, "name", ""),
        picture: match user.str_at("icon_img") {
            Some(icon) => Some(before_query_exec(icon)),
            None => None,
        },
    }
}

/// The token of a password-grant answer and its lifetime (the low 32 bits
/// of `expires_in`, an hour when absent).
pub fn password_grant_result(json: &Json) -> (r: Result<(String, u32), ProviderError>)
    ensures
        match str_at(*json, "access_token"@) {
            Some(t) => r matches Ok((a, e)) && a@ == t && e == match crate::tokens::expires_spec(
                *json,
            ) {
                Some(x) => x,
                None => 3600u32,
            },
            None => r matches Err(ProviderError::Auth(m)) && m@ == "Missing access_token"@,
        },
{
    match crate::tokens::token_grant(json) {
        Ok(g) => Ok(
            (
                g.access_token,
                match g.expires_in {
                    Some(x) => x,
                    None => 3600,
                },
            ),
        ),
        Err(e) => Err(e),
    }
}

/// The listing path of a subreddit: `/r/{name}/{sort}`, the name without
/// leading `r/` and lowercased; a `t` (time) parameter joins the `limit` for
/// the `top` and `controversial` sorts.
pub fn browse_request(subreddit: &str, sort: &str, limit: u32, time: &str) -> (r: (String, Vec<(String, String)>))
    ensures
        r.0@ == "/r/"@ + unicode_lowercase(trim_prefix_all(subreddit@, "r/"@)) + "/"@ + sort@,
        pairs_view(r.1@) == seq![("limit"@, crate::text::decimal(limit as nat))] + if sort@
            == "top"@ || sort@ == "controversial"@ {
            seq![("t"@, time@)]
        } else {
            seq![]
        },
{
    let trimmed = trim_prefix_all_exec(subreddit, "r/");
    let clean = to_lowercase(trimmed.as_str());
    let mut path: Vec<char> = Vec::new();
    push_str_chars(&mut path, "/r/");
    push_str_chars(&mut path, clean.as_str());
    push_str_chars(&mut path, "/");
    push_str_chars(&mut path, sort);
    let mut limit_s: Vec<char> = Vec::new();
    crate::text::push_decimal_u64(&mut limit_s, limit as u64);
    let mut params: Vec<(String, String)> = Vec::new();
    params.push(("limit".to_owned(), string_from_chars(&limit_s)));
    if crate::text::str_eq(sort, "top") || crate::text::str_eq(sort, "controversial") {
        params.push(pair("t", time));
    }
    let r = (string_from_chars(&path), params);
    assert(pairs_view(r.1@) =~= seq![("limit"@, crate::text::decimal(limit as nat))] + if sort@
        == "top"@ || sort@ == "controversial"@ {
        seq![("t"@, time@)]
    } else {
        seq![]
    });
    r
}

/// The subreddit of the info answer about a post
/// (`data.children[0].data.subreddit`), else `Post not found`.
pub fn post_subreddit(info: &Json) -> (r: Result<String, ProviderError>)
    ensures
        match crate::json::json_get2(*info, "data"@, "children"@) {
            Some(Json::Array(cs)) => if cs@.len() > 0 {
                match crate::json::json_get2(cs@[0], "data"@, "subreddit"@) {
                    Some(Json::Str(s)) => r matches Ok(x) && x@ == s@,
                    _ => r matches Err(ProviderError::Api(m)) && m@ == "Post not found"@,
                }
            } else {
                r matches Err(ProviderError::Api(m)) && m@ == "Post not found"@
            },
            _ => r matches Err(ProviderError::Api(m)) && m@ == "Post not found"@,
        },
{
    if let Some(Json::Array(cs)) = info.get2("data", "children") {
        if cs.len() > 0 {
            if let Some(Json::Str(s)) = cs[0].get2("data", "subreddit") {
                return Ok(s.clone());
            }
        }
    }
    Err(ProviderError::Api("Post not found".to_owned()))
}

/// The comments path of a post in a subreddit:
/// `/r/{subreddit}/comments/{id}`, the id without leading `t3_`.
pub fn comments_path(subreddit: &str, post_id: &str) -> (r: String)
    ensures
        r@ == "/r/"@ + subreddit@ + "/comments/"@ + trim_prefix_all(post_id@, "t3_"@),
{
    let pid = trim_prefix_all_exec(post_id, "t3_");
    let mut out: Vec<char> = Vec::new();
    push_str_chars(&mut out, "/r/");
    push_str_chars(&mut out, subreddit);
    push_str_chars(&mut out, "/comments/");
    push_str_chars(&mut out, pid.as_str());
    string_from_chars(&out)
}

/// The path and parameters of a search: within a subreddit
/// (`/r/{name}/search`, the name without leading `r/`, lowercased) or
/// everywhere (`/search`), with the query, sort, limit, time and whether it
/// is restricted to the subreddit.
pub fn search_request(query: &str, subreddit: Option<&str>, sort: &str, limit: u32, time: &str) -> (r: (String, Vec<(String, String)>))
    ensures
        r.0@ == match subreddit {
            Some(sub) => "/r/"@ + unicode_lowercase(trim_prefix_all(sub@, "r/"@)) + "/search"@,
            None => "/search"@,
        },
        pairs_view(r.1@) == seq![
            ("q"@, query@),
            ("sort"@, sort@),
            ("limit"@, crate::text::decimal(limit as nat)),
            ("t"@, time@),
            (
                "restrict_sr"@,
                if subreddit is Some {
                    "true"@
                } else {
                    "false"@
                },
            ),
        ],
{
    let path = match subreddit {
        Some(sub) => {
            let trimmed = trim_prefix_all_exec(sub, "r/");
            let clean = to_lowercase(trimmed.as_str());
            let mut out: Vec<char> = Vec::new();
            push_str_chars(&mut out, "/r/");
            push_str_chars(&mut out, clean.as_str());
            push_str_chars(&mut out, "/search");
            string_from_chars(&out)
        },
        None => "/search".to_owned(),
    };
    let mut limit_s: Vec<char> = Vec::new();
    crate::text::push_decimal_u64(&mut limit_s, limit as u64);
    let mut params: Vec<(String, String)> = Vec::new();
    params.push(pair("q", query));
    params.push(pair("sort", sort));
    params.push(("limit".to_owned(), string_from_chars(&limit_s)));
    params.push(pair("t", time));
    params.push(
        pair(
            "restrict_sr",
            if subreddit.is_some() {
                "true"
            } else {
                "false"
            },
        ),
    );
    let r = (path, params);
    assert(pairs_view(r.1@) =~= seq![
        ("q"@, query@),
        ("sort"@, sort@),
        ("limit"@, crate::text::decimal(limit as nat)),
        ("t"@, time@),
        (
            "restrict_sr"@,
            if subreddit is Some {
                "true"@
            } else {
                "false"@
            },
        ),
    ]);
    r
}

/// The connection after refreshing with the configured refresh token: the
/// new `access_token` (nothing when the answer lacks one) with its
/// `expires_in`, keeping the configured refresh token, without profile.
pub fn refresh_answer(json: &Json, configured_refresh: &str) -> (r: Option<AuthToken>)
    ensures
        match str_at(*json, "access_token"@) {
            Some(t) => r matches Some(a) && auth_view(a) == (
                t,
                Some(configured_refresh@),
                crate::tokens::expires_spec(*json),
                ""@,
                ""@,
                ""@,
                None::<Seq<char>>,
            ),
            None => r is None,
        },
{
    match crate::tokens::token_grant(json) {
        Ok(g) => Some(crate::tokens::refreshed_auth_token(g, configured_refresh, false)),
        Err(_) => None,
    }
}

} // verus!
