//! GitHub REST API: which statuses mean success and which error each
//! failure becomes, the listing parameters, repositories as pages, and
//! issue bodies.
use vstd::prelude::*;

use crate::engagement::{to_lowercase, unicode_lowercase};
use crate::json::{json_get, json_get2, keys_of, push_member, str_at, str_or, str_or_owned, Json};
use crate::providers::pairs_view;
use crate::social::PageInfo;
use crate::social::ProviderError;
use crate::text::{chars_contain, chars_of, contains, decimal, opt_str_view, push_decimal_u64, push_str_chars, string_from_chars};

verus! {

/// The call that was answered.
#[derive(PartialEq, Eq, Structural, Clone, Copy)]
pub enum GithubCall {
    Get,
    Post,
}

/// Whether the answer is a success: any 2xx for a read, 200 or 201 for a write.
pub open spec fn github_success(call: GithubCall, status: u16) -> bool {
    match call {
        GithubCall::Get => 200 <= status <= 299,
        GithubCall::Post => status == 200 || status == 201,
    }
}

/// The kind and message of a failed call, from the status and the
/// answer's `message`: 401 an authorization error (0); 403 a rate limit (1)
/// when the message says so in any case, else an API error (2); 404, for
/// reads only, an API error; 422 an invalid request (3); anything else an
/// API error.
pub open spec fn github_failure(call: GithubCall, status: u16, json: Json) -> (nat, Seq<char>) {
    if status == 401 {
        (0, str_or(json, "message"@, "Authentication failed"@))
    } else if status == 403 {
        let m = str_or(json, "message"@, "Forbidden"@);
        (if contains(unicode_lowercase(m), "rate limit"@) { 1 } else { 2 }, m)
    } else if status == 404 && call == GithubCall::Get {
        (2, str_or(json, "message"@, "Resource not found"@))
    } else if status == 422 {
        (3, str_or(json, "message"@, "Validation error"@))
    } else {
        (2, str_or(json, "message"@, "GitHub API error"@))
    }
}

/// The kind and message of an error.
pub open spec fn error_kind(e: ProviderError) -> Option<(nat, Seq<char>)> {
    match e {
        ProviderError::Auth(m) => Some((0, m@)),
        ProviderError::RateLimited(m) => Some((1, m@)),
        ProviderError::Api(m) => Some((2, m@)),
        ProviderError::InvalidRequest(m) => Some((3, m@)),
        _ => None,
    }
}

/// What a GitHub answer means.
pub fn github_answer(call: GithubCall, status: u16, json: &Json) -> (r: Result<(), ProviderError>)
    ensures
        github_success(call, status) ==> r is Ok,
        !github_success(call, status) ==> (r matches Err(e) && error_kind(e) == Some(
            github_failure(call, status, *json),
        )),
{
    let ok = match call {
        GithubCall::Get => 200 <= status && status <= 299,
        GithubCall::Post => status == 200 || status == 201,
    };
    if ok {
        return Ok(());
    }
    if status == 401 {
        return Err(ProviderError::Auth(str_or_owned(json, "message", "Authentication failed")));
    }
    if status == 403 {
        let m = str_or_owned(json, "message", "Forbidden");
        let lower = to_lowercase(m.as_str());
        let lv = chars_of(lower.as_str());
        let pat = chars_of("rate limit");
        if chars_contain(&lv, &pat) {
            return Err(ProviderError::RateLimited(m));
        } else {
            return Err(ProviderError::Api(m));
        }
    }
    if status == 404 && call == GithubCall::Get {
        return Err(ProviderError::Api(str_or_owned(json, "message", "Resource not found")));
    }
    if status == 422 {
        return Err(ProviderError::InvalidRequest(str_or_owned(json, "message", "Validation error")));
    }
    Err(ProviderError::Api(str_or_owned(json, "message", "GitHub API error")))
}

/// The page size of a listing: `limit` kept within 1 to 100.
pub open spec fn per_page_spec(limit: u32) -> Seq<char> {
    decimal(
        if limit < 1 {
            1nat
        } else if limit > 100 {
            100nat
        } else {
            limit as nat
        },
    )
}

fn per_page(limit: u32) -> (r: String)
    ensures
        r@ == per_page_spec(limit),
{
    let n: u64 = if limit < 1 {
        1
    } else if limit > 100 {
        100
    } else {
        limit as u64
    };
    let mut out: Vec<char> = Vec::new();
    push_decimal_u64(&mut out, n);
    string_from_chars(&out)
}

/// The parameters of a listing of issues or pull requests in `state`, or of
/// repositories (no state): the page size, most recently updated first.
pub fn sorted_listing_params(limit: u32, state: Option<&str>) -> (r: Vec<(String, String)>)
    ensures
        pairs_view(r@) == match state {
            Some(st) => seq![("state"@, st@)],
            None => seq![],
        } + seq![("per_page"@, per_page_spec(limit)), ("sort"@, "updated"@), ("direction"@, "desc"@)],
{
    let mut p: Vec<(String, String)> = Vec::new();
    if let Some(st) = state {
        p.push(("state".to_owned(), st.to_owned()));
    }
    p.push(("per_page".to_owned(), per_page(limit)));
    p.push(("sort".to_owned(), "updated".to_owned()));
    p.push(("direction".to_owned(), "desc".to_owned()));
    assert(pairs_view(p@) =~= match state {
        Some(st) => seq![("state"@, st@)],
        None => seq![],
    } + seq![("per_page"@, per_page_spec(limit)), ("sort"@, "updated"@), ("direction"@, "desc"@)]);
    p
}

/// The parameters of a plain listing (commits, branches, releases,
/// contributors) or of a search for `query`: the query first, then the page
/// size.
pub fn page_params(limit: u32, query: Option<&str>) -> (r: Vec<(String, String)>)
    ensures
        pairs_view(r@) == match query {
            Some(q) => seq![("q"@, q@)],
            None => seq![],
        } + seq![("per_page"@, per_page_spec(limit))],
{
    let mut p: Vec<(String, String)> = Vec::new();
    if let Some(q) = query {
        p.push(("q".to_owned(), q.to_owned()));
    }
    p.push(("per_page".to_owned(), per_page(limit)));
    assert(pairs_view(p@) =~= match query {
        Some(q) => seq![("q"@, q@)],
        None => seq![],
    } + seq![("per_page"@, per_page_spec(limit))]);
    p
}

/// A repository as a page: its numeric `id` in decimal (empty when absent),
/// `full_name`, the token, and its owner's avatar and login.
pub open spec fn repo_page_spec(r: Json, token: Seq<char>) -> (Seq<char>, Seq<char>, Option<Seq<char>>, Option<Seq<char>>, Option<Seq<char>>) {
    (
        match json_get(r, "id"@) {
            Some(v) => match crate::json::json_as_u64(v) {
                Some(n) => decimal(n as nat),
                None => ""@,
            },
            None => ""@,
        },
        str_or(r, "full_name"@, ""@),
        Some(token),
        match json_get(r, "owner"@) {
            Some(o) => str_at(o, "avatar_url"@),
            None => None,
        },
        match json_get(r, "owner"@) {
            Some(o) => str_at(o, "login"@),
            None => None,
        },
    )
}

/// The page of a repository answer, as `repo_page_spec` describes.
pub fn repo_page(r: &Json, access_token: &str) -> (p: PageInfo)
    ensures
        crate::meta::page_info_view(p) == repo_page_spec(*r, access_token@),
{
    let id: String = match r.get("id") {
        Some(v) => match v.as_u64() {
            Some(n) => {
                let mut out: Vec<char> = Vec::new();
                push_decimal_u64(&mut out, n);
                string_from_chars(&out)
            },
            None => "".to_owned(),
        },
        None => "".to_owned(),
    };
    proof {
        reveal_strlit("");
    }
    let (picture, username) = match r.get("owner") {
        Some(o) => (crate::json::own_opt(o.str_at("avatar_url")), crate::json::own_opt(o.str_at("login"))),
        None => (None, None),
    };
    PageInfo {
        id,
        name: str_or_owned(r, "full_name", ""),
        access_token: Some(access_token.to_owned()),
        picture,
        username,
    }
}

/// The member's repositories as pages; a failing status is an error with
/// the answer's `message`, else `Failed to fetch repositories`, and an
/// answer that is not a list gives none.
pub fn repositories(status: u16, json: &Json, access_token: &str) -> (r: Result<Vec<PageInfo>, ProviderError>)
    ensures
        !(200 <= status <= 299) ==> (r matches Err(ProviderError::Api(m)) && m@ == str_or(
            *json,
            "message"@,
            "Failed to fetch repositories"@,
        )),
        200 <= status <= 299 ==> (r matches Ok(v) && v@.map_values(|p: PageInfo| crate::meta::page_info_view(p))
            == match *json {
            Json::Array(items) => items@.map_values(|it: Json| repo_page_spec(it, access_token@)),
            _ => seq![],
        }),
{
    if !(200 <= status && status <= 299) {
        return Err(ProviderError::Api(str_or_owned(json, "message", "Failed to fetch repositories")));
    }
    let mut out: Vec<PageInfo> = Vec::new();
    if let Json::Array(items) = json {
        let n = items.len();
        for i in 0..n
            invariant
                n == items@.len(),
                out@.map_values(|p: PageInfo| crate::meta::page_info_view(p)) == items@.take(
                    i as int,
                ).map_values(|it: Json| repo_page_spec(it, access_token@)),
        {
            let ghost before = out@;
            out.push(repo_page(&items[i], access_token));
            assert(items@.take(i + 1) =~= items@.take(i as int).push(items@[i as int]));
            assert(out@.map_values(|p: PageInfo| crate::meta::page_info_view(p)) =~= before.map_values(
                |p: PageInfo| crate::meta::page_info_view(p),
            ).push(repo_page_spec(items@[i as int], access_token@)));
        }
        assert(items@.take(n as int) =~= items@);
    } else {
        assert(out@.map_values(|p: PageInfo| crate::meta::page_info_view(p)) =~= Seq::<
            (Seq<char>, Seq<char>, Option<Seq<char>>, Option<Seq<char>>, Option<Seq<char>>),
        >::empty());
    }
    Ok(out)
}

/// The value of a run of decimal digits.
pub open spec fn digits_value(s: Seq<char>) -> nat
    decreases s.len(),
{
    if s.len() == 0 {
        0
    } else {
        digits_value(s.drop_last()) * 10 + (s.last() as nat - '0' as nat) as nat
    }
}

/// Only decimal digits, at least one.
pub open spec fn all_digits(s: Seq<char>) -> bool {
    s.len() > 0 && forall|i: int| 0 <= i < s.len() ==> '0' <= #[trigger] s[i] <= '9'
}

/// `str::parse::<u64>` succeeds: digits after an optional `+`, of a value
/// that fits 64 bits.
pub open spec fn parses_as_u64(s: Seq<char>) -> bool {
    let d = if s.len() > 0 && s[0] == '+' {
        s.drop_first()
    } else {
        s
    };
    all_digits(d) && digits_value(d) <= u64::MAX
}

fn parses_as_u64_exec(s: &str) -> (r: bool)
    ensures
        r == parses_as_u64(s@),
{
    let v = chars_of(s);
    let n = v.len();
    let start: usize = if n > 0 && v[0] == '+' {
        1
    } else {
        0
    };
    let ghost d = if s@.len() > 0 && s@[0] == '+' {
        s@.drop_first()
    } else {
        s@
    };
    assert(d =~= v@.skip(start as int));
    if start >= n {
        return false;
    }
    let mut value: u64 = 0;
    let mut i: usize = start;
    assert(v@.skip(start as int).take(0) =~= Seq::<char>::empty());
    while i < n
        invariant
            start <= i <= n,
            n == v@.len(),
            v@ == s@,
            d == v@.skip(start as int),
            d == (if s@.len() > 0 && s@[0] == '+' {
                s@.drop_first()
            } else {
                s@
            }),
            forall|k: int| 0 <= k < i - start ==> '0' <= #[trigger] d[k] <= '9',
            value == digits_value(d.take(i - start)),
        decreases n - i,
    {
        let c = v[i];
        if !('0' <= c && c <= '9') {
            assert(!all_digits(d)) by {
                assert(d[i - start] == c);
            }
            return false;
        }
        let digit: u64 = (c as u64) - ('0' as u64);
        assert(d.take(i - start + 1).drop_last() =~= d.take(i - start));
        assert(d.take(i - start + 1).last() == c);
        if value > (u64::MAX - digit) / 10 {
            proof {
                assert(digits_value(d.take(i - start + 1)) > u64::MAX) by (nonlinear_arith)
                    requires
                        digits_value(d.take(i - start + 1)) == value * 10 + digit,
                        value > (u64::MAX - digit) / 10,
                        digit <= 9,
                ;
                lemma_digits_value_prefix_le(d, i - start + 1);
            }
            return false;
        }
        assert(value * 10 + digit <= u64::MAX) by (nonlinear_arith)
            requires
                value <= (u64::MAX - digit) / 10,
                digit <= 9,
        ;
        value = value * 10 + digit;
        i = i + 1;
    }
    assert(d.take(n - start) =~= d);
    true
}

/// A longer prefix of digits never has a smaller value.
proof fn lemma_digits_value_prefix_le(d: Seq<char>, k: int)
    requires
        0 <= k <= d.len(),
    ensures
        digits_value(d.take(k)) <= digits_value(d),
    decreases d.len() - k,
{
    if k < d.len() {
        lemma_digits_value_prefix_le(d, k + 1);
        assert(d.take(k + 1).drop_last() =~= d.take(k));
        assert(digits_value(d.take(k)) <= digits_value(d.take(k + 1))) by (nonlinear_arith)
            requires
                digits_value(d.take(k + 1)) == digits_value(d.take(k)) * 10 + (d.take(k + 1).last() as nat - '0' as nat) as nat,
        ;
    } else {
        assert(d.take(k) =~= d);
    }
}

/// The path of a repository named by `page_id`: by numeric id
/// (`/repositories/{id}`) when it parses as one, else by full name
/// (`/repos/{owner/repo}`).
pub fn repo_path(page_id: &str) -> (r: String)
    ensures
        r@ == if parses_as_u64(page_id@) {
            "/repositories/"@ + page_id@
        } else {
            "/repos/"@ + page_id@
        },
{
    let mut out: Vec<char> = Vec::new();
    if parses_as_u64_exec(page_id) {
        push_str_chars(&mut out, "/repositories/");
    } else {
        push_str_chars(&mut out, "/repos/");
    }
    push_str_chars(&mut out, page_id);
    string_from_chars(&out)
}

/// The body of a new issue: `{"title", "body"}`.
pub fn issue_body(title: &str, body: &str) -> (r: Json)
    ensures
        keys_of(r) == seq!["title"@, "body"@],
        str_at(r, "title"@) == Some(title@),
        str_at(r, "body"@) == Some(body@),
{
    let mut f: Vec<(String, Json)> = Vec::new();
    proof {
        assert(f@.map_values(|p: (String, Json)| p.0@) =~= Seq::<Seq<char>>::empty());
        reveal_strlit("title");
        reveal_strlit("body");
        assert("title"@[0] == 't' && "body"@[0] == 'b');
    }
    push_member(&mut f, "title", Json::Str(title.to_owned()));
    push_member(&mut f, "body", Json::Str(body.to_owned()));
    let r = Json::Object(f);
    assert(keys_of(r) =~= seq!["title"@, "body"@]);
    r
}

/// The path of a repository's content at `path` (its leading slashes
/// taken off): `/repos/{owner}/{repo}/contents/{path}`.
pub fn content_path(owner: &str, repo: &str, path: &str) -> (r: String)
    ensures
        r@ == "/repos/"@ + owner@ + "/"@ + repo@ + "/contents/"@ + crate::text::trim_prefix_all(
            path@,
            "/"@,
        ),
{
    let p = crate::text::trim_prefix_all_exec(path, "/");
    let mut out: Vec<char> = Vec::new();
    push_str_chars(&mut out, "/repos/");
    push_str_chars(&mut out, owner);
    push_str_chars(&mut out, "/");
    push_str_chars(&mut out, repo);
    push_str_chars(&mut out, "/contents/");
    push_str_chars(&mut out, p.as_str());
    string_from_chars(&out)
}

} // verus!
