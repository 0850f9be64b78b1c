//! Link handling in post content: stripping URLs (for platforms that
//! downrank external links) and choosing and replacing URLs to shorten.
use vstd::prelude::*;

use crate::json::{json_as_str, json_index, Json};
use crate::text::{
    is_ws, leading_ws, trailing_ws, lemma_leading_ws_bounds, lemma_trailing_ws_bounds, byte_len, byte_len_of, chars_contain, chars_of, chars_match_at, contains, push_all,
    string_from_chars, trim, trim_chars,
};

verus! {

/// A character that the URL pattern's class `[^\s<>"']` accepts: anything
/// but Unicode whitespace, `<`, `>`, `"` and `'`.
pub open spec fn is_url_char(c: char) -> bool {
    !is_ws(c) && c != '<' && c != '>' && c != '"' && c != '\''
}

/// Length of the scheme (`https://` or `http://`) that `x` begins with, or 0.
pub open spec fn scheme_len(x: Seq<char>) -> int {
    if x.len() >= 8 && x.take(8) == "https://"@ {
        8
    } else if x.len() >= 7 && x.take(7) == "http://"@ {
        7
    } else {
        0
    }
}

/// Whether a match of the URL pattern `https?://[^\s<>"']+` begins at the
/// start of `x`: a scheme followed by at least one URL character.
pub open spec fn url_start(x: Seq<char>) -> bool {
    let k = scheme_len(x);
    k > 0 && k < x.len() && is_url_char(x[k])
}

/// Number of URL characters at the start of `x`.
pub open spec fn url_run_len(x: Seq<char>) -> nat
    decreases x.len(),
{
    if x.len() > 0 && is_url_char(x[0]) {
        1 + url_run_len(x.drop_first())
    } else {
        0
    }
}

/// Length of the match that begins at the start of `x`: the scheme, then as
/// many URL characters as follow (the repetition is greedy).
pub open spec fn url_match_len(x: Seq<char>) -> int {
    scheme_len(x) + url_run_len(x.skip(scheme_len(x)))
}

pub proof fn lemma_url_run_len(x: Seq<char>)
    ensures
        url_run_len(x) <= x.len(),
        forall|i: int| 0 <= i < url_run_len(x) ==> is_url_char(#[trigger] x[i]),
        url_run_len(x) < x.len() ==> !is_url_char(x[url_run_len(x) as int]),
    decreases x.len(),
{
    if x.len() > 0 && is_url_char(x[0]) {
        lemma_url_run_len(x.drop_first());
        assert forall|i: int| 0 <= i < url_run_len(x) implies is_url_char(#[trigger] x[i]) by {
            if i > 0 {
                assert(x[i] == x.drop_first()[i - 1]);
            }
        }
    }
}

/// A match is non-empty, lies within `x`, and is followed by a character that
/// is no URL character, or by the end of `x`.
pub proof fn lemma_url_match_len(x: Seq<char>)
    requires
        url_start(x),
    ensures
        scheme_len(x) < url_match_len(x) <= x.len(),
        url_match_len(x) < x.len() ==> !is_url_char(x[url_match_len(x)]),
{
    let k = scheme_len(x);
    lemma_url_run_len(x.skip(k));
    assert(x.skip(k)[0] == x[k]);
    if url_match_len(x) < x.len() {
        assert(x.skip(k)[url_run_len(x.skip(k)) as int] == x[url_match_len(x)]);
    }
}

/// The text that `Regex::replace_all` leaves when every match of the URL
/// pattern, leftmost first and not overlapping, is replaced by nothing.
pub open spec fn without_urls(x: Seq<char>) -> Seq<char>
    decreases x.len(),
{
    if x.len() == 0 {
        x
    } else if url_start(x) {
        proof {
            lemma_url_match_len(x);
        }
        without_urls(x.skip(url_match_len(x)))
    } else {
        seq![x[0]] + without_urls(x.drop_first())
    }
}

/// Whether the URL pattern matches somewhere in `x` (`Regex::is_match`).
pub open spec fn has_url_match(x: Seq<char>) -> bool {
    exists|i: int| 0 <= i < x.len() && #[trigger] url_start(x.skip(i))
}

/// The successive matches of the URL pattern in `x`, leftmost first and not
/// overlapping (`Regex::find_iter`).
pub open spec fn url_matches(x: Seq<char>) -> Seq<Seq<char>>
    decreases x.len(),
{
    if x.len() == 0 {
        seq![]
    } else if url_start(x) {
        proof {
            lemma_url_match_len(x);
        }
        seq![x.take(url_match_len(x))] + url_matches(x.skip(url_match_len(x)))
    } else {
        url_matches(x.drop_first())
    }
}

/// The scheme and the character after it are URL characters; a match begins
/// with `h`.
proof fn lemma_url_start_chars(x: Seq<char>)
    requires
        url_start(x),
    ensures
        forall|i: int| 0 <= i <= scheme_len(x) ==> is_url_char(#[trigger] x[i]),
        x[0] == 'h',
{
    reveal_strlit("https://");
    reveal_strlit("http://");
    let k = scheme_len(x);
    assert forall|i: int| 0 <= i <= k implies is_url_char(#[trigger] x[i]) by {
        if i < k {
            assert(x[i] == x.take(k)[i]);
        }
    }
    assert(x[0] == x.take(k)[0]);
}

/// Whether a match begins at the start of a text depends only on the scheme
/// and the character after it.
proof fn lemma_url_start_prefix(x: Seq<char>, y: Seq<char>)
    requires
        url_start(x),
        y.len() > scheme_len(x),
        y.take(scheme_len(x) + 1) == x.take(scheme_len(x) + 1),
    ensures
        url_start(y),
{
    reveal_strlit("https://");
    reveal_strlit("http://");
    let k = scheme_len(x);
    assert(y[k] == y.take(k + 1)[k]);
    assert(x[k] == x.take(k + 1)[k]);
    assert(y.take(k) =~= y.take(k + 1).take(k));
    assert(x.take(k) =~= x.take(k + 1).take(k));
    if k == 7 {
        // `x` does not begin with `https://`: its fifth character is `:`.
        assert(x[4] == x.take(7)[4]);
        assert(y[4] == y.take(8)[4]) by {
            assert(y[4] == y.take(k + 1)[4]);
            assert(x[4] == x.take(k + 1)[4]);
        }
        if y.len() >= 8 {
            assert(y.take(8)[4] != "https://"@[4]);
        }
    }
}

/// A text in which the pattern does not match comes back unchanged.
pub proof fn lemma_no_match_unchanged(x: Seq<char>)
    requires
        !has_url_match(x),
    ensures
        without_urls(x) == x,
    decreases x.len(),
{
    if x.len() > 0 {
        assert(x.skip(0) =~= x);
        let rest = x.drop_first();
        assert forall|i: int| 0 <= i < rest.len() implies !#[trigger] url_start(rest.skip(i)) by {
            assert(rest.skip(i) =~= x.skip(i + 1));
        }
        lemma_no_match_unchanged(rest);
        assert(x =~= seq![x[0]] + rest);
    }
}

/// While what `without_urls` gives back is made of URL characters, it is
/// the text itself: nothing was removed there, and no match begins at the
/// start.
proof fn lemma_kept_prefix(x: Seq<char>, n: int)
    requires
        0 < n <= without_urls(x).len(),
        forall|i: int| 0 <= i < n ==> is_url_char(#[trigger] without_urls(x)[i]),
    ensures
        n <= x.len(),
        without_urls(x).take(n) == x.take(n),
        !url_start(x),
    decreases x.len(),
{
    let out = without_urls(x);
    if x.len() == 0 {
    } else if url_start(x) {
        lemma_url_match_len(x);
        let y = x.skip(url_match_len(x));
        assert(out == without_urls(y));
        if y.len() > 0 {
            assert(y[0] == x[url_match_len(x)]);
            if url_start(y) {
                lemma_url_start_chars(y);
            }
            assert(without_urls(y) == seq![y[0]] + without_urls(y.drop_first()));
            assert(out[0] == y[0]);
            assert(is_url_char(out[0]));
        } else {
            assert(without_urls(y) == y);
        }
    } else {
        let rest = x.drop_first();
        if n > 1 {
            let r = without_urls(rest);
            assert forall|i: int| 0 <= i < n - 1 implies is_url_char(#[trigger] r[i]) by {
                assert(r[i] == out[i + 1]);
            }
            lemma_kept_prefix(rest, n - 1);
            assert(out.take(n) =~= seq![x[0]] + r.take(n - 1));
            assert(x.take(n) =~= seq![x[0]] + rest.take(n - 1));
        } else {
            assert(out.take(n) =~= x.take(n));
        }
    }
}

/// Every tail of what `without_urls` gives back is what it gives back for
/// some tail of the text.
proof fn lemma_stripped_tail(x: Seq<char>, p: int) -> (j: int)
    requires
        0 <= p <= without_urls(x).len(),
    ensures
        0 <= j <= x.len(),
        without_urls(x).skip(p) == without_urls(x.skip(j)),
    decreases x.len(),
{
    if p == 0 {
        assert(x.skip(0) =~= x);
        assert(without_urls(x).skip(0) =~= without_urls(x));
        0
    } else if url_start(x) {
        lemma_url_match_len(x);
        let m = url_match_len(x);
        let j2 = lemma_stripped_tail(x.skip(m), p);
        assert(x.skip(m).skip(j2) =~= x.skip(m + j2));
        m + j2
    } else {
        let rest = x.drop_first();
        let j2 = lemma_stripped_tail(rest, p - 1);
        assert(without_urls(x).skip(p) =~= without_urls(rest).skip(p - 1));
        assert(rest.skip(j2) =~= x.skip(1 + j2));
        1 + j2
    }
}

/// Removing the matches leaves no match: what follows a removed match is no
/// URL character, so no new match forms across the cut.
pub proof fn lemma_without_urls_has_none(x: Seq<char>)
    ensures
        !has_url_match(without_urls(x)),
{
    let out = without_urls(x);
    if has_url_match(out) {
        let p = choose|p: int| 0 <= p < out.len() && #[trigger] url_start(out.skip(p));
        let j = lemma_stripped_tail(x, p);
        let big = out.skip(p);
        let y = x.skip(j);
        let k = scheme_len(big);
        lemma_url_start_chars(big);
        lemma_kept_prefix(y, k + 1);
        lemma_url_start_prefix(big, y);
    }
}

/// A match in the trimmed text is a match in the text.
proof fn lemma_trim_match_back(x: Seq<char>)
    requires
        has_url_match(trim(x)),
    ensures
        has_url_match(x),
{
    let a = leading_ws(x) as int;
    let t1 = x.skip(a);
    let t = trim(x);
    lemma_leading_ws_bounds(x);
    lemma_trailing_ws_bounds(t1);
    assert(t =~= x.subrange(a, a + t.len()));
    let p = choose|p: int| 0 <= p < t.len() && #[trigger] url_start(t.skip(p));
    let big = t.skip(p);
    let k = scheme_len(big);
    assert(big.take(k + 1) =~= x.skip(a + p).take(k + 1));
    lemma_url_start_prefix(big, x.skip(a + p));
    assert(url_start(x.skip(a + p)));
}

/// A match in the text lies inside its trimmed form: a match begins and ends
/// with characters that are no whitespace.
proof fn lemma_trim_match_kept(x: Seq<char>)
    requires
        has_url_match(x),
    ensures
        has_url_match(trim(x)),
{
    let i = choose|i: int| 0 <= i < x.len() && #[trigger] url_start(x.skip(i));
    let big = x.skip(i);
    let k = scheme_len(big);
    lemma_url_start_chars(big);
    let a = leading_ws(x) as int;
    let t1 = x.skip(a);
    let t = trim(x);
    lemma_leading_ws_bounds(x);
    lemma_trailing_ws_bounds(t1);
    assert(x[i] == big[0]);
    assert(x[i + k] == big[k]);
    assert(a <= i);
    assert(t1[i + k - a] == x[i + k]);
    assert(i + k - a < t1.len() - trailing_ws(t1));
    let q = i - a;
    assert(t.skip(q).take(k + 1) =~= big.take(k + 1));
    lemma_url_start_prefix(big, t.skip(q));
}

/// Trimming a trimmed text changes nothing.
proof fn lemma_trim_twice(x: Seq<char>)
    ensures
        trim(trim(x)) == trim(x),
{
    let t1 = x.skip(leading_ws(x) as int);
    let t = trim(x);
    lemma_leading_ws_bounds(x);
    lemma_trailing_ws_bounds(t1);
    if t.len() > 0 {
        assert(t[0] == t1[0]);
        assert(t[t.len() - 1] == t1[t1.len() - trailing_ws(t1) - 1]);
    }
    assert(leading_ws(t) == 0);
    assert(t.skip(0) =~= t);
    assert(trailing_ws(t) == 0);
    assert(t.take(t.len() as int) =~= t);
}

/// Stripped text holds no URL.
pub proof fn lemma_strip_links_leaves_no_url(text: Seq<char>)
    ensures
        !has_url_match(trim(without_urls(text))),
{
    lemma_without_urls_has_none(text);
    if has_url_match(trim(without_urls(text))) {
        lemma_trim_match_back(without_urls(text));
    }
}

/// Stripping links twice gives what stripping once gives.
pub proof fn lemma_strip_links_idempotent(text: Seq<char>)
    ensures
        trim(without_urls(trim(without_urls(text)))) == trim(without_urls(text)),
{
    let once = trim(without_urls(text));
    lemma_strip_links_leaves_no_url(text);
    lemma_no_match_unchanged(once);
    lemma_trim_twice(without_urls(text));
}

/// Text holds a URL exactly when stripping links changes more than the
/// surrounding whitespace.
pub proof fn lemma_has_urls_iff_strip_changes(text: Seq<char>)
    ensures
        has_url_match(text) <==> trim(without_urls(text)) != trim(text),
{
    if has_url_match(text) {
        lemma_trim_match_kept(text);
        lemma_strip_links_leaves_no_url(text);
    } else {
        lemma_no_match_unchanged(text);
    }
}

/// The URL pattern, in the syntax of the `regex` crate.
pub const URL_PATTERN: &'static str = "https?://[^\\s<>\"']+";

/// The text of the URL pattern.
pub open spec fn url_pattern() -> Seq<char> {
    "https?://[^\\s<>\"']+"@
}

/// Trusted: compiles `pattern` with `regex::Regex::new` and calls
/// `replace_all` with an empty replacement, which removes every match,
/// leftmost first.
#[verifier::external_body]
fn remove_url_matches(pattern: &str, text: &str) -> (r: String)
    requires
        pattern@ == url_pattern(),
    ensures
        r@ == without_urls(text@),
{
    regex::Regex::new(pattern).unwrap().replace_all(text, "").into_owned()
}

/// Trusted: compiles `pattern` with `regex::Regex::new` and calls
/// `is_match`.
#[verifier::external_body]
fn url_pattern_matches(pattern: &str, text: &str) -> (r: bool)
    requires
        pattern@ == url_pattern(),
    ensures
        r == has_url_match(text@),
{
    regex::Regex::new(pattern).unwrap().is_match(text)
}

/// Trusted: compiles `pattern` with `regex::Regex::new` and calls
/// `find_iter`, keeping each match's text.
#[verifier::external_body]
fn find_url_matches(pattern: &str, text: &str) -> (r: Vec<String>)
    requires
        pattern@ == url_pattern(),
    ensures
        r@.map_values(|m: String| m@) == url_matches(text@),
{
    regex::Regex::new(pattern).unwrap().find_iter(text).map(|m| m.as_str().to_string()).collect()
}

/// Strip all URLs from text, then trim surrounding whitespace.
pub fn strip_links(text: &str) -> (r: String)
    ensures
        r@ == trim(without_urls(text@)),
        !has_url_match(text@) ==> r@ == trim(text@),
{
    let removed = remove_url_matches(URL_PATTERN, text);
    proof {
        if !has_url_match(text@) {
            lemma_no_match_unchanged(text@);
        }
    }
    let v = chars_of(removed.as_str());
    let t = trim_chars(&v);
    string_from_chars(&t)
}

/// Check if the text contains any URLs that could be shortened.
pub fn has_urls(text: &str) -> (r: bool)
    ensures
        r == has_url_match(text@),
{
    url_pattern_matches(URL_PATTERN, text)
}

/// URLs already short (a `dub.sh` link, or under 30 bytes) are left alone.
pub open spec fn should_shorten_spec(url: Seq<char>) -> bool {
    !contains(url, "dub.sh"@) && byte_len(url) >= 30
}

pub fn should_shorten(url: &str) -> (r: bool)
    requires
        byte_len(url@) <= usize::MAX,
    ensures
        r == should_shorten_spec(url@),
{
    let v = chars_of(url);
    let pat = chars_of("dub.sh");
    !chars_contain(&v, &pat) && byte_len_of(&v) >= 30
}

/// The URLs of `text` that shortening would replace, in order of appearance.
pub fn shortenable_urls(text: &str) -> (r: Vec<String>)
    ensures
        r@.map_values(|m: String| m@) == url_matches(text@).filter(|u: Seq<char>| should_shorten_spec(u)),
{
    let found = find_url_matches(URL_PATTERN, text);
    let ghost all = found@.map_values(|m: String| m@);
    let mut out: Vec<String> = Vec::new();
    let n = found.len();
    for i in 0..n
        invariant
            n == found@.len(),
            all == found@.map_values(|m: String| m@),
            out@.map_values(|m: String| m@) == all.take(i as int).filter(|u: Seq<char>| should_shorten_spec(u)),
    {
        proof {
            assert(all.take(i + 1).drop_last() =~= all.take(i as int));
            assert(all.take(i + 1).last() == found@[i as int]@);
        }
        let keep = short_candidate(&found[i]);
        if keep {
            out.push(found[i].clone());
        }
        proof {
            reveal_with_fuel(Seq::filter, 1);
            assert(out@.map_values(|m: String| m@) =~= all.take(i + 1).filter(|u: Seq<char>| should_shorten_spec(u)));
        }
    }
    assert(all.take(n as int) =~= all);
    out
}

fn short_candidate(url: &String) -> (r: bool)
    ensures
        r == should_shorten_spec(url@),
{
    let v = chars_of(url.as_str());
    let pat = chars_of("dub.sh");
    if chars_contain(&v, &pat) {
        return false;
    }
    // A URL of 30 characters or more has at least 30 bytes; below that,
    // count the bytes (at most 4 per character).
    if v.len() >= 30 {
        proof {
            crate::text::lemma_byte_len_ge_len(v@);
        }
        return true;
    }
    proof {
        crate::text::lemma_byte_len_le_4len(v@);
    }
    byte_len_of(&v) >= 30
}

/// Every occurrence of `from` (leftmost first, not overlapping) replaced by
/// `to`, as `str::replace` does for a non-empty pattern.
pub open spec fn replace_all(s: Seq<char>, from: Seq<char>, to: Seq<char>) -> Seq<char>
    decreases s.len(),
{
    if from.len() == 0 || s.len() < from.len() {
        s
    } else if s.take(from.len() as int) == from {
        to + replace_all(s.skip(from.len() as int), from, to)
    } else {
        seq![s[0]] + replace_all(s.drop_first(), from, to)
    }
}

/// `text` with every occurrence of `url` replaced by `short`.
pub fn replace_url(text: &str, url: &str, short: &str) -> (r: String)
    requires
        url@.len() > 0,
    ensures
        r@ == replace_all(text@, url@, short@),
{
    let v = chars_of(text);
    let from = chars_of(url);
    let to = chars_of(short);
    let mut out: Vec<char> = Vec::new();
    let mut i: usize = 0;
    let n = v.len();
    assert(v@.skip(0) =~= v@);
    while i < n
        invariant
            n == v@.len(),
            i <= n,
            from@ == url@,
            from@.len() > 0,
            out@ + replace_all(v@.skip(i as int), from@, to@) == replace_all(v@, from@, to@),
        decreases n - i,
    {
        let ghost rest = v@.skip(i as int);
        if n - i >= from.len() && chars_match_at(&v, i, &from) {
            proof {
                assert(rest.take(from@.len() as int) =~= v@.subrange(i as int, i + from@.len()));
                assert(rest.skip(from@.len() as int) =~= v@.skip(i + from@.len()));
            }
            let ghost before = out@;
            push_all(&mut out, &to);
            i = i + from.len();
            assert(out@ + replace_all(v@.skip(i as int), from@, to@) =~= before + replace_all(rest, from@, to@));
        } else {
            proof {
                if rest.len() >= from@.len() {
                    assert(rest.take(from@.len() as int) =~= v@.subrange(i as int, i + from@.len()));
                }
                assert(rest.drop_first() =~= v@.skip(i + 1));
            }
            let ghost before = out@;
            out.push(v[i]);
            i = i + 1;
            proof {
                if rest.len() < from@.len() {
                    // The tail is shorter than the pattern: it is copied as is.
                    assert(replace_all(rest, from@, to@) == rest);
                    assert(rest =~= seq![rest[0]] + rest.drop_first());
                    lemma_replace_short(rest.drop_first(), from@, to@);
                }
            }
            assert(out@ + replace_all(v@.skip(i as int), from@, to@) =~= before + replace_all(rest, from@, to@));
        }
    }
    assert(v@.skip(n as int) =~= Seq::<char>::empty());
    assert(out@ =~= replace_all(v@, from@, to@));
    string_from_chars(&out)
}

/// The text after shortening: for each URL in turn, left to right, every
/// occurrence is replaced by its short link where shortening succeeded; a
/// failed shortening leaves the text as it was.
pub open spec fn applied_links(text: Seq<char>, results: Seq<(String, Result<String, String>)>) -> Seq<char>
    decreases results.len(),
{
    if results.len() == 0 {
        text
    } else {
        let prev = applied_links(text, results.drop_last());
        match results.last().1 {
            Ok(short) => replace_all(prev, results.last().0@, short@),
            Err(_) => prev,
        }
    }
}

/// Apply the outcome of shortening each URL to `text`: each URL whose
/// shortening succeeded is replaced everywhere by its short link, in the
/// order given; the others stay in place.
pub fn apply_short_links(text: &str, results: &Vec<(String, Result<String, String>)>) -> (r: String)
    requires
        forall|i: int| 0 <= i < results@.len() ==> (#[trigger] results@[i]).0@.len() > 0,
    ensures
        r@ == applied_links(text@, results@),
{
    let mut out = text.to_string();
    let n = results.len();
    for i in 0..n
        invariant
            n == results@.len(),
            forall|j: int| 0 <= j < results@.len() ==> (#[trigger] results@[j]).0@.len() > 0,
            out@ == applied_links(text@, results@.take(i as int)),
    {
        proof {
            assert(results@.take(i + 1).drop_last() =~= results@.take(i as int));
            assert(results@.take(i + 1).last() == results@[i as int]);
        }
        let entry = &results[i];
        match &entry.1 {
            Ok(short) => {
                out = replace_url(out.as_str(), entry.0.as_str(), short.as_str());
            },
            Err(_) => {},
        }
    }
    assert(results@.take(n as int) =~= results@);
    out
}

/// When no shortening succeeded, the text comes back as it was.
pub proof fn lemma_failed_shortening_keeps_text(text: Seq<char>, results: Seq<(String, Result<String, String>)>)
    requires
        forall|i: int| 0 <= i < results.len() ==> (#[trigger] results[i]).1 is Err,
    ensures
        applied_links(text, results) == text,
    decreases results.len(),
{
    if results.len() > 0 {
        let rest = results.drop_last();
        assert forall|i: int| 0 <= i < rest.len() implies (#[trigger] rest[i]).1 is Err by {
            assert(rest[i] == results[i]);
        }
        assert(results.last() == results[results.len() - 1]);
        lemma_failed_shortening_keeps_text(text, rest);
    }
}

proof fn lemma_replace_short(s: Seq<char>, from: Seq<char>, to: Seq<char>)
    requires
        s.len() < from.len(),
    ensures
        replace_all(s, from, to) == s,
{
}

/// The short link in a Dub.co response, or the error that the response
/// carries none.
pub fn short_link_from_response(json: &Json) -> (r: Result<String, String>)
    ensures
        match json_as_str(json_index(*json, "shortLink"@)) {
            Some(s) => r matches Ok(x) && x@ == s,
            None => r matches Err(e) && e@ == "Dub.co response missing shortLink"@,
        },
{
    match json.get("shortLink") {
        Some(v) => match v.as_str() {
            Some(s) => Ok(s.to_owned()),
            None => Err("Dub.co response missing shortLink".to_owned()),
        },
        None => Err("Dub.co response missing shortLink".to_owned()),
    }
}

} // verus!
