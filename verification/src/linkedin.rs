//! LinkedIn: media URNs and their resolution, the posts, comments and
//! social-action counts of the REST answers, publishing, and finding the
//! first link in a message's attachment data.
use vstd::prelude::*;

use crate::json::{lemma_entries_get_absent, lemma_entries_get_at, keys_of, entries_get, get_i64, json_as_str, json_get, json_get2, str_at, str_or, str_or_owned, Json};
use crate::providers::pairs_view;
use crate::social::{DmConversation, DmMessage, MediaAttachment, ProviderError, PublishResult, ReconnectResult};
use crate::text::{after_last, after_last_str, decimal, push_decimal_u64, chars_of, contains, str_contains, is_lit, opt_str_view, push_all, push_str_chars, starts_with, str_starts_with, string_from_chars};

verus! {

/// A string that is an HTTP(S) URL.
pub open spec fn is_http_url(s: Seq<char>) -> bool {
    starts_with(s, "http://"@) || starts_with(s, "https://"@)
}

/// The first string in `j`, searched depth-first in document order, that
/// starts with `http://` or `https://`.
pub open spec fn first_url(j: Json) -> Option<Seq<char>>
    decreases j,
{
    match j {
        Json::Str(s) => if is_http_url(s@) {
            Some(s@)
        } else {
            None
        },
        Json::Array(items) => first_url_in(items@),
        Json::Object(entries) => first_url_in_entries(entries@),
        _ => None,
    }
}

/// The first URL among `items`, in order.
pub open spec fn first_url_in(items: Seq<Json>) -> Option<Seq<char>>
    decreases items,
{
    if items.len() == 0 {
        None
    } else {
        match first_url(items[0]) {
            Some(u) => Some(u),
            None => first_url_in(items.subrange(1, items.len() as int)),
        }
    }
}

/// The first URL among the member values, in order.
pub open spec fn first_url_in_entries(entries: Seq<(String, Json)>) -> Option<Seq<char>>
    decreases entries,
{
    if entries.len() == 0 {
        None
    } else {
        match first_url(entries[0].1) {
            Some(u) => Some(u),
            None => first_url_in_entries(entries.subrange(1, entries.len() as int)),
        }
    }
}

/// The first HTTP(S) URL anywhere in a JSON value.
pub fn find_first_url(val: &Json) -> (r: Option<String>)
    ensures
        opt_str_view(r) == first_url(*val),
    decreases val,
{
    match val {
        Json::Str(s) => {
            if str_starts_with(s.as_str(), "http://") || str_starts_with(s.as_str(), "https://") {
                Some(s.clone())
            } else {
                None
            }
        },
        Json::Array(items) => {
            let n = items.len();
            assert(items@.subrange(0, n as int) =~= items@);
            for i in 0..n
                invariant
                    n == items@.len(),
                    *val == Json::Array(*items),
                    first_url(*val) == first_url_in(items@.subrange(i as int, n as int)),
            {
                assert(items@.subrange(i as int, n as int)[0] == items@[i as int]);
                assert(items@.subrange(i as int, n as int).subrange(1, n - i) =~= items@.subrange(
                    i + 1,
                    n as int,
                ));
                let found = find_first_url(&items[i]);
                if found.is_some() {
                    return found;
                }
            }
            None
        },
        Json::Object(entries) => {
            let n = entries.len();
            assert(entries@.subrange(0, n as int) =~= entries@);
            for i in 0..n
                invariant
                    n == entries@.len(),
                    *val == Json::Object(*entries),
                    first_url(*val) == first_url_in_entries(entries@.subrange(i as int, n as int)),
            {
                assert(entries@.subrange(i as int, n as int)[0] == entries@[i as int]);
                assert(entries@.subrange(i as int, n as int).subrange(1, n - i) =~= entries@.subrange(
                    i + 1,
                    n as int,
                ));
                let found = find_first_url(&entries[i].1);
                if found.is_some() {
                    return found;
                }
            }
            None
        },
        _ => None,
    }
}

/// Law: what the search finds is an HTTP(S) URL.
pub proof fn lemma_first_url_is_http(j: Json)
    ensures
        first_url(j) matches Some(u) ==> is_http_url(u),
    decreases j,
{
    match j {
        Json::Array(items) => lemma_first_url_in_is_http(items@),
        Json::Object(entries) => lemma_first_url_in_entries_is_http(entries@),
        _ => {},
    }
}

proof fn lemma_first_url_in_is_http(items: Seq<Json>)
    ensures
        first_url_in(items) matches Some(u) ==> is_http_url(u),
    decreases items,
{
    if items.len() > 0 {
        lemma_first_url_is_http(items[0]);
        lemma_first_url_in_is_http(items.subrange(1, items.len() as int));
    }
}

proof fn lemma_first_url_in_entries_is_http(entries: Seq<(String, Json)>)
    ensures
        first_url_in_entries(entries) matches Some(u) ==> is_http_url(u),
    decreases entries,
{
    if entries.len() > 0 {
        lemma_first_url_is_http(entries[0].1);
        lemma_first_url_in_entries_is_http(entries.subrange(1, entries.len() as int));
    }
}


/// The fields of `s` between occurrences of `sep`, as `str::split` gives
/// them (one empty field for the empty text).
pub open spec fn split_fields(s: Seq<char>, sep: char) -> Seq<Seq<char>>
    decreases s.len(),
{
    if s.len() == 0 {
        seq![seq![]]
    } else {
        let f = split_fields(s.drop_last(), sep);
        if s.last() == sep {
            f.push(seq![])
        } else {
            f.update(f.len() - 1, f.last().push(s.last()))
        }
    }
}

/// The REST address of the asset a media URN (`urn:li:image:ID`,
/// `urn:li:video:ID`) names: the third `:`-field picks images or videos,
/// the fourth is the asset id. Other URNs name nothing.
pub open spec fn media_asset_url_spec(urn: Seq<char>) -> Option<Seq<char>> {
    let f = split_fields(urn, ':');
    if f.len() < 4 {
        None
    } else if f[2] == "image"@ {
        Some("https://api.linkedin.com/rest/images/"@ + f[3])
    } else if f[2] == "video"@ {
        Some("https://api.linkedin.com/rest/videos/"@ + f[3])
    } else {
        None
    }
}

/// The address to fetch to resolve a media URN, as `media_asset_url_spec`
/// describes.
pub fn media_asset_url(media_urn: &str) -> (r: Option<String>)
    ensures
        opt_str_view(r) == media_asset_url_spec(media_urn@),
{
    let cs = chars_of(media_urn);
    let n = cs.len();
    let mut count: usize = 0;
    let mut kind: Vec<char> = Vec::new();
    let mut id: Vec<char> = Vec::new();
    assert(cs@.take(0) =~= Seq::<char>::empty());
    for i in 0..n
        invariant
            n == cs@.len(),
            count <= i,
            split_fields(cs@.take(i as int), ':').len() == count + 1,
            count >= 2 ==> kind@ == split_fields(cs@.take(i as int), ':')[2],
            count < 2 ==> kind@ == Seq::<char>::empty(),
            count >= 3 ==> id@ == split_fields(cs@.take(i as int), ':')[3],
            count < 3 ==> id@ == Seq::<char>::empty(),
    {
        let c = cs[i];
        proof {
            assert(cs@.take(i + 1).drop_last() =~= cs@.take(i as int));
            assert(cs@.take(i + 1).last() == c);
        }
        if c == ':' {
            count = count + 1;
        } else if count == 2 {
            kind.push(c);
        } else if count == 3 {
            id.push(c);
        }
    }
    assert(cs@.take(n as int) =~= cs@);
    if count < 3 {
        return None;
    }
    let mut out: Vec<char> = Vec::new();
    if is_lit(&kind, "image") {
        push_str_chars(&mut out, "https://api.linkedin.com/rest/images/");
    } else if is_lit(&kind, "video") {
        push_str_chars(&mut out, "https://api.linkedin.com/rest/videos/");
    } else {
        return None;
    }
    push_all(&mut out, &id);
    Some(string_from_chars(&out))
}

/// The first stream location of `value.playbackStreams`, when the first
/// stream has one.
pub open spec fn stream_url_spec(j: Json) -> Option<Seq<char>> {
    match json_get2(j, "value"@, "playbackStreams"@) {
        Some(Json::Array(streams)) => if streams@.len() > 0 {
            match json_get(streams@[0], "streamLocations"@) {
                Some(Json::Array(locs)) => if locs@.len() > 0 {
                    str_at(locs@[0], "url"@)
                } else {
                    None
                },
                _ => None,
            }
        } else {
            None
        },
        _ => None,
    }
}

/// The media address in an asset answer: `value.downloadUrl`, else the first
/// stream location, else the first HTTP(S) URL anywhere in it.
pub open spec fn resolved_media_url_spec(j: Json) -> Option<Seq<char>> {
    match crate::meta::opt_str(json_get2(j, "value"@, "downloadUrl"@)) {
        Some(u) => Some(u),
        None => match stream_url_spec(j) {
            Some(u) => Some(u),
            None => first_url(j),
        },
    }
}

fn stream_url(j: &Json) -> (r: Option<&str>)
    ensures
        match stream_url_spec(*j) {
            Some(u) => r matches Some(x) && x@ == u,
            None => r is None,
        },
{
    if let Some(Json::Array(streams)) = j.get2("value", "playbackStreams") {
        if streams.len() > 0 {
            if let Some(Json::Array(locs)) = streams[0].get("streamLocations") {
                if locs.len() > 0 {
                    return locs[0].str_at("url");
                }
            }
        }
    }
    None
}

/// The media address in the answer to fetching an asset, as
/// `resolved_media_url_spec` describes.
pub fn resolved_media_url(json: &Json) -> (r: Option<String>)
    ensures
        opt_str_view(r) == resolved_media_url_spec(*json),
{
    if let Some(v) = json.get2("value", "downloadUrl") {
        if let Some(u) = v.as_str() {
            return Some(u.to_owned());
        }
    }
    if let Some(u) = stream_url(json) {
        return Some(u.to_owned());
    }
    find_first_url(json)
}


/// A post's `commentary` is an object without `text`: reading its text
/// panics there.
pub open spec fn commentary_panics(element: Json) -> bool {
    json_get(element, "commentary"@) matches Some(Json::Object(m)) && entries_get(m@, "text"@)
        is None
}

/// A post's text: `commentary` as a string, or the `text` of `commentary`
/// as an object; empty otherwise.
pub open spec fn commentary_spec(element: Json) -> Seq<char> {
    match json_get(element, "commentary"@) {
        Some(Json::Str(s)) => s@,
        Some(Json::Object(m)) => match entries_get(m@, "text"@) {
            Some(t) => match json_as_str(t) {
                Some(x) => x,
                None => ""@,
            },
            None => ""@,
        },
        _ => ""@,
    }
}

/// One post of the REST posts answer, before its media are resolved.
pub struct LinkedinPost {
    /// The post URN.
    pub platform_post_id: String,
    pub text: String,
    /// `createdAt`, in milliseconds since the epoch.
    pub created_at_ms: Option<i64>,
    /// `https://www.linkedin.com/feed/update/{urn}`.
    pub url: String,
}

/// The fields of a post element; nothing for an element without an `id`
/// (or with an empty one), which is skipped.
pub fn linkedin_post(element: &Json) -> (r: Option<LinkedinPost>)
    requires
        !commentary_panics(*element),
    ensures
        str_or(*element, "id"@, ""@).len() == 0 <==> r is None,
        r matches Some(p) ==> {
            &&& p.platform_post_id@ == str_or(*element, "id"@, ""@)
            &&& p.text@ == commentary_spec(*element)
            &&& p.created_at_ms == get_i64(*element, "createdAt"@)
            &&& p.url@ == "https://www.linkedin.com/feed/update/"@ + str_or(*element, "id"@, ""@)
        },
{
    let urn = str_or_owned(element, "id", "");
    if urn.as_str().unicode_len() == 0 {
        return None;
    }
    let text: String = match element.get("commentary") {
        Some(Json::Str(s)) => s.clone(),
        Some(c) => match c.get("text") {
            Some(t) => match t.as_str() {
                Some(x) => x.to_owned(),
                None => "".to_owned(),
            },
            None => "".to_owned(),
        },
        None => "".to_owned(),
    };
    proof {
        reveal_strlit("");
    }
    let created_at_ms = match element.get("createdAt") {
        Some(v) => v.as_i64(),
        None => None,
    };
    let mut out: Vec<char> = Vec::new();
    push_str_chars(&mut out, "https://www.linkedin.com/feed/update/");
    push_str_chars(&mut out, urn.as_str());
    Some(LinkedinPost { platform_post_id: urn, text, created_at_ms, url: string_from_chars(&out) })
}


/// A media reference of a post: a URN to resolve (or, for an article, the
/// thumbnail address itself) and its title.
pub struct LinkedinMediaRef {
    pub urn: String,
    pub title: Option<String>,
}

/// The media references of a post's `content`, by kind.
pub struct LinkedinMediaRefs {
    /// `content.media`.
    pub single: Option<LinkedinMediaRef>,
    /// The URNs of the first four `content.multiImage` items that have one.
    pub multi: Vec<String>,
    /// `content.article`, when its thumbnail is a non-empty string.
    pub article: Option<LinkedinMediaRef>,
    /// `content.singlefile`.
    pub file: Option<LinkedinMediaRef>,
}

pub open spec fn ref_view(r: Option<LinkedinMediaRef>) -> Option<(Seq<char>, Option<Seq<char>>)> {
    match r {
        Some(m) => Some((m.urn@, opt_str_view(m.title))),
        None => None,
    }
}

/// The reference in `o[key]`: its `id` and `title`, when it has an `id`.
pub open spec fn urn_ref_spec(o: Json, key: Seq<char>) -> Option<(Seq<char>, Option<Seq<char>>)> {
    match json_get(o, key) {
        Some(m) => match str_at(m, "id"@) {
            Some(urn) => Some((urn, str_at(m, "title"@))),
            None => None,
        },
        None => None,
    }
}

/// The article reference: its non-empty `thumbnail` and its `title`.
pub open spec fn article_ref_spec(o: Json) -> Option<(Seq<char>, Option<Seq<char>>)> {
    match json_get(o, "article"@) {
        Some(a) => match str_at(a, "thumbnail"@) {
            Some(t) => if t.len() > 0 {
                Some((t, str_at(a, "title"@)))
            } else {
                None
            },
            None => None,
        },
        None => None,
    }
}

/// The `id` of each of `items` that has one, in order.
pub open spec fn ids_spec(items: Seq<Json>) -> Seq<Seq<char>>
    decreases items.len(),
{
    if items.len() == 0 {
        seq![]
    } else {
        let rest = ids_spec(items.drop_last());
        match str_at(items.last(), "id"@) {
            Some(id) => rest.push(id),
            None => rest,
        }
    }
}

/// The first `n` items (all of them when there are fewer).
pub open spec fn first_n<T>(items: Seq<T>, n: int) -> Seq<T> {
    if items.len() <= n {
        items
    } else {
        items.take(n)
    }
}

/// The URNs of the first four carousel images.
pub open spec fn multi_spec(o: Json) -> Seq<Seq<char>> {
    match json_get(o, "multiImage"@) {
        Some(Json::Array(items)) => ids_spec(first_n(items@, 4)),
        _ => seq![],
    }
}

/// The `content` of a post, unless absent or `null`.
pub open spec fn content_spec(element: Json) -> Option<Json> {
    match json_get(element, "content"@) {
        Some(Json::Null) => None,
        other => other,
    }
}

fn urn_ref(o: &Json, key: &str) -> (r: Option<LinkedinMediaRef>)
    ensures
        ref_view(r) == urn_ref_spec(*o, key@),
{
    match o.get(key) {
        Some(m) => match m.str_at("id") {
            Some(urn) => Some(
                LinkedinMediaRef { urn: urn.to_owned(), title: crate::json::own_opt(m.str_at("title")) },
            ),
            None => None,
        },
        None => None,
    }
}

fn article_ref(o: &Json) -> (r: Option<LinkedinMediaRef>)
    ensures
        ref_view(r) == article_ref_spec(*o),
{
    match o.get("article") {
        Some(a) => match a.str_at("thumbnail") {
            Some(t) => if t.unicode_len() > 0 {
                Some(LinkedinMediaRef { urn: t.to_owned(), title: crate::json::own_opt(a.str_at("title")) })
            } else {
                None
            },
            None => None,
        },
        None => None,
    }
}

fn multi_ids(o: &Json) -> (r: Vec<String>)
    ensures
        r@.map_values(|s: String| s@) == multi_spec(*o),
{
    let mut out: Vec<String> = Vec::new();
    if let Some(Json::Array(items)) = o.get("multiImage") {
        let n: usize = if items.len() <= 4 {
            items.len()
        } else {
            4
        };
        assert(first_n(items@, 4) =~= items@.take(n as int));
        for i in 0..n
            invariant
                n <= items@.len(),
                out@.map_values(|s: String| s@) == ids_spec(items@.take(i as int)),
        {
            assert(items@.take(i + 1).drop_last() =~= items@.take(i as int));
            assert(items@.take(i + 1).last() == items@[i as int]);
            if let Some(id) = items[i].str_at("id") {
                out.push(id.to_owned());
                assert(out@.map_values(|s: String| s@) =~= ids_spec(items@.take(i as int)).push(id@));
            }
        }
    }
    out
}

/// The media references of a post element's `content`; none when it has no
/// `content` or a `null` one.
pub fn linkedin_media_refs(element: &Json) -> (r: LinkedinMediaRefs)
    ensures
        match content_spec(*element) {
            Some(c) => {
                &&& ref_view(r.single) == urn_ref_spec(c, "media"@)
                &&& r.multi@.map_values(|s: String| s@) == multi_spec(c)
                &&& ref_view(r.article) == article_ref_spec(c)
                &&& ref_view(r.file) == urn_ref_spec(c, "singlefile"@)
            },
            None => r.single is None && r.multi@.len() == 0 && r.article is None && r.file is None,
        },
{
    match element.get("content") {
        Some(Json::Null) => {},
        Some(c) => {
            return LinkedinMediaRefs {
                single: urn_ref(c, "media"),
                multi: multi_ids(c),
                article: article_ref(c),
                file: urn_ref(c, "singlefile"),
            };
        },
        None => {},
    }
    LinkedinMediaRefs { single: None, multi: Vec::new(), article: None, file: None }
}


/// Address, MIME type and alt text of an attachment.
pub open spec fn attachment_view(m: MediaAttachment) -> (Seq<char>, Seq<char>, Option<Seq<char>>) {
    (m.url@, m.mime_type@, opt_str_view(m.alt))
}

/// The addresses among `urls`, in order.
pub open spec fn resolved_spec(urls: Seq<Option<String>>) -> Seq<Seq<char>>
    decreases urls.len(),
{
    if urls.len() == 0 {
        seq![]
    } else {
        let rest = resolved_spec(urls.drop_last());
        match urls.last() {
            Some(u) => rest.push(u@),
            None => rest,
        }
    }
}

/// A post's media, given what resolving its references gave: the single
/// medium (a video when its URN holds `:video:`); else the resolved carousel
/// images; else the article thumbnail; else the resolved file as a PDF; else
/// none.
pub open spec fn linkedin_media_spec(
    refs: LinkedinMediaRefs,
    single_url: Option<Seq<char>>,
    multi_urls: Seq<Option<String>>,
    file_url: Option<Seq<char>>,
) -> Seq<(Seq<char>, Seq<char>, Option<Seq<char>>)> {
    let images = resolved_spec(multi_urls);
    if refs.single is Some && single_url is Some {
        let m = refs.single->0;
        seq![
            (
                single_url->0,
                if contains(m.urn@, ":video:"@) {
                    "video/mp4"@
                } else {
                    "image/jpeg"@
                },
                opt_str_view(m.title),
            ),
        ]
    } else if images.len() > 0 {
        images.map_values(|u: Seq<char>| (u, "image/jpeg"@, None::<Seq<char>>))
    } else if refs.article is Some {
        seq![(refs.article->0.urn@, "image/jpeg"@, opt_str_view(refs.article->0.title))]
    } else if refs.file is Some && file_url is Some {
        seq![(file_url->0, "application/pdf"@, opt_str_view(refs.file->0.title))]
    } else {
        seq![]
    }
}

fn attachment(url: String, mime: &str, alt: Option<String>) -> (r: MediaAttachment)
    ensures
        r.url == url,
        r.mime_type@ == mime@,
        r.alt == alt,
        r.poster_url is None,
{
    MediaAttachment { url, mime_type: mime.to_owned(), alt, poster_url: None }
}

/// A post's media from its references and the addresses resolving them gave
/// (`single_url` for `refs.single`, `multi_urls` for the carousel, in order,
/// `file_url` for `refs.file`), as `linkedin_media_spec` describes. Stages
/// after the first that gives media need not be resolved.
pub fn linkedin_media(
    refs: &LinkedinMediaRefs,
    single_url: Option<String>,
    multi_urls: Vec<Option<String>>,
    file_url: Option<String>,
) -> (r: Vec<MediaAttachment>)
    ensures
        r@.map_values(|m: MediaAttachment| attachment_view(m)) == linkedin_media_spec(
            *refs,
            opt_str_view(single_url),
            multi_urls@,
            opt_str_view(file_url),
        ),
        forall|i: int| 0 <= i < r@.len() ==> (#[trigger] r@[i]).poster_url is None,
{
    let mut out: Vec<MediaAttachment> = Vec::new();
    if let Some(m) = &refs.single {
        if let Some(u) = single_url {
            let mime = if str_contains(m.urn.as_str(), ":video:") {
                "video/mp4"
            } else {
                "image/jpeg"
            };
            out.push(attachment(u, mime, crate::text::clone_opt(&m.title)));
            assert(out@.map_values(|m: MediaAttachment| attachment_view(m)) =~= linkedin_media_spec(
                *refs,
                opt_str_view(single_url),
                multi_urls@,
                opt_str_view(file_url),
            ));
            return out;
        }
    }
    let ghost urls = multi_urls@;
    let n = multi_urls.len();
    let mut rest = multi_urls;
    let mut taken: usize = 0;
    assert(urls.take(0) =~= Seq::<Option<String>>::empty());
    while taken < n
        invariant
            n == urls.len(),
            taken <= n,
            rest@ == urls.skip(taken as int),
            out@.map_values(|m: MediaAttachment| attachment_view(m)) == resolved_spec(
                urls.take(taken as int),
            ).map_values(|u: Seq<char>| (u, "image/jpeg"@, None::<Seq<char>>)),
            forall|i: int| 0 <= i < out@.len() ==> (#[trigger] out@[i]).poster_url is None,
        decreases n - taken,
    {
        let item = rest.remove(0);
        proof {
            assert(urls.take(taken + 1).drop_last() =~= urls.take(taken as int));
            assert(urls.take(taken + 1).last() == urls[taken as int]);
            assert(rest@ =~= urls.skip(taken + 1));
        }
        if let Some(u) = item {
            let ghost prev = out@;
            out.push(attachment(u, "image/jpeg", None));
            assert(out@.map_values(|m: MediaAttachment| attachment_view(m)) =~= prev.map_values(
                |m: MediaAttachment| attachment_view(m),
            ).push((u@, "image/jpeg"@, None::<Seq<char>>)));
        }
        taken = taken + 1;
        assert(resolved_spec(urls.take(taken as int)).map_values(
            |u: Seq<char>| (u, "image/jpeg"@, None::<Seq<char>>),
        ) =~= out@.map_values(|m: MediaAttachment| attachment_view(m)));
    }
    assert(urls.take(n as int) =~= urls);
    if out.len() > 0 {
        return out;
    }
    if let Some(a) = &refs.article {
        out.push(attachment(a.urn.clone(), "image/jpeg", crate::text::clone_opt(&a.title)));
        assert(out@.map_values(|m: MediaAttachment| attachment_view(m)) =~= linkedin_media_spec(
            *refs,
            opt_str_view(single_url),
            urls,
            opt_str_view(file_url),
        ));
        return out;
    }
    if let Some(f) = &refs.file {
        if let Some(u) = file_url {
            out.push(attachment(u, "application/pdf", crate::text::clone_opt(&f.title)));
            assert(out@.map_values(|m: MediaAttachment| attachment_view(m)) =~= linkedin_media_spec(
                *refs,
                opt_str_view(single_url),
                urls,
                opt_str_view(file_url),
            ));
            return out;
        }
    }
    assert(out@.map_values(|m: MediaAttachment| attachment_view(m)) =~= linkedin_media_spec(
        *refs,
        opt_str_view(single_url),
        urls,
        opt_str_view(file_url),
    ));
    out
}


/// `value[key].as_str()` of a JSON answer, else `value[alt].as_str()` when
/// `alt` is given, else `default`.
pub open spec fn message_or(j: Json, key: Seq<char>, alt: Option<Seq<char>>, default: Seq<char>) -> Seq<char> {
    match str_at(j, key) {
        Some(m) => m,
        None => match alt {
            Some(k) => str_or(j, k, default),
            None => default,
        },
    }
}

pub(crate) fn message_or_exec(j: &Json, key: &str, alt: Option<&str>, default: &str) -> (r: String)
    ensures
        r@ == message_or(
            *j,
            key@,
            match alt {
                Some(k) => Some(k@),
                None => None,
            },
            default@,
        ),
{
    match j.str_at(key) {
        Some(m) => m.to_owned(),
        None => match alt {
            Some(k) => str_or_owned(j, k, default),
            None => default.to_owned(),
        },
    }
}

/// The REST helpers' reading of an answer: success for a 2xx status, an
/// expired token for 401, otherwise an error with the answer's `message`
/// (else its `error_description`, when `with_description`), else
/// `fallback`.
pub fn linkedin_status(status: u16, json: &Json, with_description: bool, fallback: &str) -> (r: Result<(), ProviderError>)
    ensures
        200 <= status <= 299 ==> r is Ok,
        status == 401 ==> r matches Err(ProviderError::TokenExpired),
        !(200 <= status <= 299) && status != 401 ==> (r matches Err(ProviderError::Api(m)) && m@
            == message_or(
            *json,
            "message"@,
            if with_description {
                Some("error_description"@)
            } else {
                None
            },
            fallback@,
        )),
{
    if 200 <= status && status <= 299 {
        return Ok(());
    }
    if status == 401 {
        return Err(ProviderError::TokenExpired);
    }
    let alt = if with_description {
        Some("error_description")
    } else {
        None
    };
    Err(ProviderError::Api(message_or_exec(json, "message", alt, fallback)))
}

/// The member id (`sub`) of a profile answer.
pub fn linkedin_user_id(profile: &Json) -> (r: Result<String, ProviderError>)
    ensures
        match str_at(*profile, "sub"@) {
            Some(id) => r matches Ok(x) && x@ == id,
            None => r matches Err(ProviderError::Api(m)) && m@ == "Could not get LinkedIn user ID"@,
        },
{
    match profile.str_at("sub") {
        Some(id) => Ok(id.to_owned()),
        None => Err(ProviderError::Api("Could not get LinkedIn user ID".to_owned())),
    }
}

/// The number of posts to ask for: `limit` kept within 1 to 100.
pub open spec fn posts_count(limit: u32) -> u32 {
    if limit < 1 {
        1
    } else if limit > 100 {
        100
    } else {
        limit
    }
}

/// The address listing an author's posts:
/// `https://api.linkedin.com/v2/rest/posts?author={urn, escaped}&count={n}`.
pub fn posts_url(author_urn: &str, limit: u32) -> (r: String)
    ensures
        r@ == "https://api.linkedin.com/v2/rest/posts?author="@ + crate::fediverse::escape_bytes(
            vstd::utf8::encode_utf8(author_urn@),
        ) + "&count="@ + decimal(posts_count(limit) as nat),
{
    let count: u32 = if limit < 1 {
        1
    } else if limit > 100 {
        100
    } else {
        limit
    };
    let encoded = crate::fediverse::urlencoding(author_urn);
    let mut out: Vec<char> = Vec::new();
    push_str_chars(&mut out, "https://api.linkedin.com/v2/rest/posts?author=");
    push_str_chars(&mut out, encoded.as_str());
    push_str_chars(&mut out, "&count=");
    push_decimal_u64(&mut out, count as u64);
    string_from_chars(&out)
}

/// One comment of the REST comments answer.
pub struct LinkedinComment {
    pub id: String,
    /// The end of the `actor` URN.
    pub author_name: Option<String>,
    pub text: String,
    /// `createdAt`, in milliseconds since the epoch.
    pub created_at_ms: Option<i64>,
    pub like_count: i32,
}

/// `likesSummary.totalLikes`, or 0.
pub open spec fn total_likes(e: Json) -> i64 {
    match json_get2(e, "likesSummary"@, "totalLikes"@) {
        Some(v) => match crate::json::json_as_i64(v) {
            Some(n) => n,
            None => 0,
        },
        None => 0,
    }
}

/// The fields of a comment element: `id` and `message.text` (empty when
/// absent), the text after the last `:` of `actor`, `createdAt`, and the
/// like count cut to 32 bits.
pub fn linkedin_comment(element: &Json) -> (r: LinkedinComment)
    ensures
        r.id@ == str_or(*element, "id"@, ""@),
        r.text@ == match crate::meta::opt_str(json_get2(*element, "message"@, "text"@)) {
            Some(t) => t,
            None => ""@,
        },
        opt_str_view(r.author_name) == match str_at(*element, "actor"@) {
            Some(a) => Some(after_last(a, ':')),
            None => None,
        },
        r.created_at_ms == get_i64(*element, "createdAt"@),
        r.like_count == total_likes(*element) as i32,
{
    let text = match element.get2("message", "text") {
        Some(v) => match v.as_str() {
            Some(t) => t.to_owned(),
            None => "".to_owned(),
        },
        None => "".to_owned(),
    };
    proof {
        reveal_strlit("");
    }
    let likes: i64 = match element.get2("likesSummary", "totalLikes") {
        Some(v) => match v.as_i64() {
            Some(n) => n,
            None => 0,
        },
        None => 0,
    };
    LinkedinComment {
        id: str_or_owned(element, "id", ""),
        author_name: match element.str_at("actor") {
            Some(a) => Some(after_last_str(a, ':')),
            None => None,
        },
        text,
        created_at_ms: match element.get("createdAt") {
            Some(v) => v.as_i64(),
            None => None,
        },
        like_count: likes as i32,
    }
}


/// `[(name, n)]` when `value[k1][k2]` is an `i64` `n`; empty otherwise.
pub open spec fn i64_entry(j: Json, k1: Seq<char>, k2: Seq<char>, name: Seq<char>) -> Seq<(Seq<char>, i64)> {
    match json_get2(j, k1, k2) {
        Some(v) => match crate::json::json_as_i64(v) {
            Some(n) => seq![(name, n)],
            None => seq![],
        },
        None => seq![],
    }
}

/// The like, comment and share counts of a social-actions answer, under the
/// names `likeCount`, `commentCount` and `shareCount`, those present.
pub open spec fn engagement_spec(j: Json) -> Seq<(Seq<char>, i64)> {
    i64_entry(j, "likesSummary"@, "totalLikes"@, "likeCount"@) + i64_entry(
        j,
        "commentsSummary"@,
        "totalFirstLevelComments"@,
        "commentCount"@,
    ) + i64_entry(j, "sharesSummary"@, "totalShares"@, "shareCount"@)
}

fn push_i64_entry(out: &mut Vec<(String, i64)>, j: &Json, k1: &str, k2: &str, name: &str)
    ensures
        final(out)@.map_values(|p: (String, i64)| (p.0@, p.1)) == old(out)@.map_values(
            |p: (String, i64)| (p.0@, p.1),
        ) + i64_entry(*j, k1@, k2@, name@),
{
    let ghost before = out@;
    if let Some(v) = j.get2(k1, k2) {
        if let Some(n) = v.as_i64() {
            out.push((name.to_owned(), n));
            assert(out@.map_values(|p: (String, i64)| (p.0@, p.1)) =~= before.map_values(
                |p: (String, i64)| (p.0@, p.1),
            ) + i64_entry(*j, k1@, k2@, name@));
            return;
        }
    }
    assert(out@.map_values(|p: (String, i64)| (p.0@, p.1)) =~= before.map_values(
        |p: (String, i64)| (p.0@, p.1),
    ) + i64_entry(*j, k1@, k2@, name@));
}

/// The engagement counts of a post, as `engagement_spec` describes; nothing
/// when the answer holds none of them.
pub fn linkedin_engagement(json: &Json) -> (r: Option<Vec<(String, i64)>>)
    ensures
        match r {
            Some(v) => v@.map_values(|p: (String, i64)| (p.0@, p.1)) == engagement_spec(*json)
                && v@.len() > 0,
            None => engagement_spec(*json).len() == 0,
        },
{
    let mut out: Vec<(String, i64)> = Vec::new();
    assert(out@.map_values(|p: (String, i64)| (p.0@, p.1)) =~= Seq::<(Seq<char>, i64)>::empty());
    push_i64_entry(&mut out, json, "likesSummary", "totalLikes", "likeCount");
    push_i64_entry(&mut out, json, "commentsSummary", "totalFirstLevelComments", "commentCount");
    push_i64_entry(&mut out, json, "sharesSummary", "totalShares", "shareCount");
    assert(out@.map_values(|p: (String, i64)| (p.0@, p.1)) =~= engagement_spec(*json));
    if out.len() == 0 {
        None
    } else {
        Some(out)
    }
}

/// `[(label, n in decimal)]` when `value[k1][k2]` is an unsigned integer `n`.
pub open spec fn u64_metric(j: Json, k1: Seq<char>, k2: Seq<char>, label: Seq<char>) -> Seq<(Seq<char>, Seq<char>)> {
    match json_get2(j, k1, k2) {
        Some(v) => match crate::json::json_as_u64(v) {
            Some(n) => seq![(label, decimal(n as nat))],
            None => seq![],
        },
        None => seq![],
    }
}

/// The `likes`, `comments` and `shares` totals of a social-actions answer,
/// those present.
pub open spec fn post_metrics_spec(j: Json) -> Seq<(Seq<char>, Seq<char>)> {
    u64_metric(j, "likesSummary"@, "totalLikes"@, "likes"@) + u64_metric(
        j,
        "commentsSummary"@,
        "totalFirstLevelComments"@,
        "comments"@,
    ) + u64_metric(j, "sharesSummary"@, "totalShares"@, "shares"@)
}

fn push_u64_metric(out: &mut Vec<(String, String)>, j: &Json, k1: &str, k2: &str, label: &str)
    ensures
        pairs_view(final(out)@) == pairs_view(old(out)@) + u64_metric(*j, k1@, k2@, label@),
{
    let ghost before = out@;
    if let Some(v) = j.get2(k1, k2) {
        if let Some(n) = v.as_u64() {
            let mut total: Vec<char> = Vec::new();
            push_decimal_u64(&mut total, n);
            assert(total@ =~= decimal(n as nat));
            out.push((label.to_owned(), string_from_chars(&total)));
            assert(pairs_view(out@) =~= pairs_view(before) + u64_metric(*j, k1@, k2@, label@));
            return;
        }
    }
    assert(pairs_view(out@) =~= pairs_view(before) + u64_metric(*j, k1@, k2@, label@));
}

/// A post's analytics from the social-actions answer: an expired token on
/// 401; on another failing status an error with the answer's `message`,
/// else `LinkedIn post analytics error`; otherwise the labelled totals of
/// `post_metrics_spec`.
pub fn post_metrics(status: u16, json: &Json) -> (r: Result<Vec<(String, String)>, ProviderError>)
    ensures
        status == 401 ==> r matches Err(ProviderError::TokenExpired),
        status != 401 && !(200 <= status <= 299) ==> (r matches Err(ProviderError::Api(m)) && m@
            == str_or(*json, "message"@, "LinkedIn post analytics error"@)),
        200 <= status <= 299 ==> (r matches Ok(v) && pairs_view(v@) == post_metrics_spec(*json)),
{
    if status == 401 {
        return Err(ProviderError::TokenExpired);
    }
    if !(200 <= status && status <= 299) {
        return Err(ProviderError::Api(str_or_owned(json, "message", "LinkedIn post analytics error")));
    }
    let mut out: Vec<(String, String)> = Vec::new();
    assert(pairs_view(out@) =~= Seq::<(Seq<char>, Seq<char>)>::empty());
    push_u64_metric(&mut out, json, "likesSummary", "totalLikes", "likes");
    push_u64_metric(&mut out, json, "commentsSummary", "totalFirstLevelComments", "comments");
    push_u64_metric(&mut out, json, "sharesSummary", "totalShares", "shares");
    assert(pairs_view(out@) =~= post_metrics_spec(*json));
    Ok(out)
}

/// The connection count of a network-size answer (`firstDegreeSize`), in
/// decimal.
pub fn connections_total(json: &Json) -> (r: Option<String>)
    ensures
        opt_str_view(r) == match json_get(*json, "firstDegreeSize"@) {
            Some(v) => match crate::json::json_as_u64(v) {
                Some(n) => Some(decimal(n as nat)),
                None => None,
            },
            None => None,
        },
{
    match json.get("firstDegreeSize") {
        Some(v) => match v.as_u64() {
            Some(n) => {
                let mut total: Vec<char> = Vec::new();
                push_decimal_u64(&mut total, n);
                Some(string_from_chars(&total))
            },
            None => None,
        },
        None => None,
    }
}


/// `j` is the string `s`.
pub open spec fn is_str(j: Json, s: Seq<char>) -> bool {
    j matches Json::Str(x) && x@ == s
}

pub(crate) fn obj1(k: &str, v: Json) -> (r: Json)
    ensures
        keys_of(r) == seq![k@],
        json_get(r, k@) == Some(v),
{
    let mut f: Vec<(String, Json)> = Vec::new();
    f.push((k.to_owned(), v));
    let r = Json::Object(f);
    assert(keys_of(r) =~= seq![k@]);
    r
}

/// The share content of a UGC post: one `com.linkedin.ugc.ShareContent`
/// member holding the commentary `{"text": content}`, the media category
/// and, for a reply, the `parentComment`.
pub open spec fn share_content_ok(sc: Json, content: Seq<char>, has_media: bool, parent: Option<Seq<char>>) -> bool {
    &&& keys_of(sc) == seq!["com.linkedin.ugc.ShareContent"@]
    &&& match json_get(sc, "com.linkedin.ugc.ShareContent"@) {
        Some(share) => {
            &&& keys_of(share) == match parent {
                Some(_) => seq!["shareCommentary"@, "shareMediaCategory"@, "parentComment"@],
                None => seq!["shareCommentary"@, "shareMediaCategory"@],
            }
            &&& str_at(share, "parentComment"@) == parent
            &&& match json_get(share, "shareCommentary"@) {
                Some(c) => keys_of(c) == seq!["text"@] && str_at(c, "text"@) == Some(content),
                None => false,
            }
            &&& str_at(share, "shareMediaCategory"@) == Some(
                if has_media {
                    "IMAGE"@
                } else {
                    "NONE"@
                },
            )
        },
        None => false,
    }
}

/// A UGC share body: by `author`, published, public, with the text
/// `content`, media category `IMAGE` or `NONE`, and for a reply the parent
/// comment.
pub open spec fn ugc_share_ok(b: Json, author: Seq<char>, content: Seq<char>, has_media: bool, parent: Option<Seq<char>>) -> bool {
    &&& keys_of(b) == seq!["author"@, "lifecycleState"@, "specificContent"@, "visibility"@]
    &&& str_at(b, "author"@) == Some(author)
    &&& str_at(b, "lifecycleState"@) == Some("PUBLISHED"@)
    &&& match json_get(b, "specificContent"@) {
        Some(sc) => share_content_ok(sc, content, has_media, parent),
        None => false,
    }
    &&& match json_get(b, "visibility"@) {
        Some(v) => keys_of(v) == seq!["com.linkedin.ugc.MemberNetworkVisibility"@] && str_at(
            v,
            "com.linkedin.ugc.MemberNetworkVisibility"@,
        ) == Some("PUBLIC"@),
        None => false,
    }
}

/// The text of an optional string slice.
pub open spec fn opt_view(o: Option<&str>) -> Option<Seq<char>> {
    match o {
        Some(c) => Some(c@),
        None => None,
    }
}

/// The body of a UGC share by `author` with the text `content`, as
/// `ugc_share_ok` describes.
pub fn ugc_share_body(author: &str, content: &str, has_media: bool, parent_comment: Option<&str>) -> (r: Json)
    ensures
        ugc_share_ok(r, author@, content@, has_media, opt_view(parent_comment)),
{
    let commentary = obj1("text", Json::Str(content.to_owned()));
    let category = if has_media {
        "IMAGE"
    } else {
        "NONE"
    };
    let mut share_f: Vec<(String, Json)> = Vec::new();
    share_f.push(("shareCommentary".to_owned(), commentary));
    share_f.push(("shareMediaCategory".to_owned(), Json::Str(category.to_owned())));
    if let Some(c) = parent_comment {
        share_f.push(("parentComment".to_owned(), Json::Str(c.to_owned())));
    }
    let share = Json::Object(share_f);
    let sc = obj1("com.linkedin.ugc.ShareContent", share);
    let vis = obj1("com.linkedin.ugc.MemberNetworkVisibility", Json::Str("PUBLIC".to_owned()));
    let mut f: Vec<(String, Json)> = Vec::new();
    f.push(("author".to_owned(), Json::Str(author.to_owned())));
    f.push(("lifecycleState".to_owned(), Json::Str("PUBLISHED".to_owned())));
    f.push(("specificContent".to_owned(), sc));
    f.push(("visibility".to_owned(), vis));
    let b = Json::Object(f);
    proof {
        reveal_strlit("parentComment");
        assert(keys_of(share) =~= match parent_comment {
            Some(_) => seq!["shareCommentary"@, "shareMediaCategory"@, "parentComment"@],
            None => seq!["shareCommentary"@, "shareMediaCategory"@],
        });
        assert(keys_of(b) =~= seq!["author"@, "lifecycleState"@, "specificContent"@, "visibility"@]);
        reveal_strlit("author");
        reveal_strlit("lifecycleState");
        reveal_strlit("specificContent");
        reveal_strlit("visibility");
        reveal_strlit("shareCommentary");
        reveal_strlit("shareMediaCategory");
        assert(f@[0].0@ == "author"@ && f@[1].0@ == "lifecycleState"@ && f@[2].0@
            == "specificContent"@ && f@[3].0@ == "visibility"@);
        assert("author"@[0] != "lifecycleState"@[0] && "author"@[0] != "specificContent"@[0]);
        assert("lifecycleState"@[0] != "specificContent"@[0] && "author"@[0] != "visibility"@[0]);
        assert("lifecycleState"@[0] != "visibility"@[0] && "specificContent"@[0] != "visibility"@[0]);
        assert(share_f@[0].0@ == "shareCommentary"@ && share_f@[1].0@ == "shareMediaCategory"@);
        assert("shareCommentary"@[5] != "shareMediaCategory"@[5]);
        lemma_entries_get_at(f@, "author"@, 0);
        lemma_entries_get_at(f@, "lifecycleState"@, 1);
        lemma_entries_get_at(f@, "specificContent"@, 2);
        lemma_entries_get_at(f@, "visibility"@, 3);
        lemma_entries_get_at(share_f@, "shareCommentary"@, 0);
        lemma_entries_get_at(share_f@, "shareMediaCategory"@, 1);
        if parent_comment is Some {
            assert(share_f@[2].0@ == "parentComment"@);
            assert("shareCommentary"@[0] != "parentComment"@[0]);
            assert("shareMediaCategory"@[0] != "parentComment"@[0]);
            lemma_entries_get_at(share_f@, "parentComment"@, 2);
        } else {
            assert(share_f@.len() == 2);
            assert("shareCommentary"@[0] != "parentComment"@[0]);
            assert("shareMediaCategory"@[0] != "parentComment"@[0]);
            lemma_entries_get_absent(share_f@, "parentComment"@);
        }
    }
    b
}

/// The body of a UGC share by the member `urn:li:person:{sub}` of a profile
/// answer (see `ugc_share_body`); a profile without `sub` gives an error.
pub fn ugc_post_body(profile: &Json, content: &str, has_media: bool, parent_comment: Option<&str>) -> (r: Result<Json, ProviderError>)
    ensures
        match str_at(*profile, "sub"@) {
            None => r matches Err(ProviderError::Api(m)) && m@ == "Could not get user profile"@,
            Some(sub) => r matches Ok(b) && ugc_share_ok(
                b,
                "urn:li:person:"@ + sub,
                content@,
                has_media,
                opt_view(parent_comment),
            ),
        },
{
    let sub = match profile.str_at("sub") {
        Some(s) => s,
        None => {
            return Err(ProviderError::Api("Could not get user profile".to_owned()));
        },
    };
    let mut author: Vec<char> = Vec::new();
    push_str_chars(&mut author, "urn:li:person:");
    push_str_chars(&mut author, sub);
    let a = string_from_chars(&author);
    Ok(ugc_share_body(a.as_str(), content, has_media, parent_comment))
}

pub(crate) fn created_outcome(
    status: u16,
    location: &str,
    json: &Json,
    sent_status: &str,
    expired_on_401: bool,
    with_description: bool,
    fallback: &str,
) -> (r: Result<PublishResult, ProviderError>)
    ensures
        status == 201 ==> (r matches Ok(p) && p.platform_post_id@ == after_last(location@, '/')
            && p.platform_post_url is None && p.status@ == sent_status@),
        status != 201 && status == 401 && expired_on_401 ==> r matches Err(
            ProviderError::TokenExpired,
        ),
        status != 201 && !(status == 401 && expired_on_401) ==> (r matches Err(ProviderError::Api(m))
            && m@ == message_or(
            *json,
            "message"@,
            if with_description {
                Some("error_description"@)
            } else {
                None
            },
            fallback@,
        )),
{
    if status == 201 {
        return Ok(
            PublishResult {
                platform_post_id: after_last_str(location, '/'),
                platform_post_url: None,
                status: sent_status.to_owned(),
            },
        );
    }
    if status == 401 && expired_on_401 {
        return Err(ProviderError::TokenExpired);
    }
    let alt = if with_description {
        Some("error_description")
    } else {
        None
    };
    Err(ProviderError::Api(message_or_exec(json, "message", alt, fallback)))
}

/// The answer to a UGC share: on 201 the post id is the end of the
/// `location` header (after its last `/`), with no address; on 401 an
/// expired token; otherwise an error with the answer's `message`, else its
/// `error_description`, else `LinkedIn publish failed`.
pub fn ugc_publish_outcome(status: u16, location: &str, json: &Json) -> (r: Result<PublishResult, ProviderError>)
    ensures
        status == 201 ==> (r matches Ok(p) && p.platform_post_id@ == after_last(location@, '/')
            && p.platform_post_url is None && p.status@ == "published"@),
        status == 401 ==> r matches Err(ProviderError::TokenExpired),
        status != 201 && status != 401 ==> (r matches Err(ProviderError::Api(m)) && m@ == message_or(
            *json,
            "message"@,
            Some("error_description"@),
            "LinkedIn publish failed"@,
        )),
{
    created_outcome(status, location, json, "published", true, true, "LinkedIn publish failed")
}

/// The answer to a reply share: on 201 the reply id is the end of the
/// `location` header; otherwise an error with the answer's `message`, else
/// its `error_description`, else `LinkedIn reply failed`.
pub fn reply_outcome(status: u16, location: &str, json: &Json) -> (r: Result<PublishResult, ProviderError>)
    ensures
        status == 201 ==> (r matches Ok(p) && p.platform_post_id@ == after_last(location@, '/')
            && p.platform_post_url is None && p.status@ == "published"@),
        status != 201 ==> (r matches Err(ProviderError::Api(m)) && m@ == message_or(
            *json,
            "message"@,
            Some("error_description"@),
            "LinkedIn reply failed"@,
        )),
{
    created_outcome(status, location, json, "published", false, true, "LinkedIn reply failed")
}

/// The answer to sending a direct message: on 201 the message id is the end
/// of the `location` header, with status `sent`; otherwise an error with the
/// answer's `message`, else its `error_description`, else
/// `LinkedIn send DM failed`.
pub fn dm_outcome(status: u16, location: &str, json: &Json) -> (r: Result<PublishResult, ProviderError>)
    ensures
        status == 201 ==> (r matches Ok(p) && p.platform_post_id@ == after_last(location@, '/')
            && p.platform_post_url is None && p.status@ == "sent"@),
        status != 201 ==> (r matches Err(ProviderError::Api(m)) && m@ == message_or(
            *json,
            "message"@,
            Some("error_description"@),
            "LinkedIn send DM failed"@,
        )),
{
    created_outcome(status, location, json, "sent", false, true, "LinkedIn send DM failed")
}

/// The body of a direct message to `recipient`:
/// `{"recipients": {"elements": [{"id": recipient}]}, "messageBody": {"text"}}`.
pub fn dm_body(recipient: &str, content: &str) -> (r: Json)
    ensures
        keys_of(r) == seq!["recipients"@, "messageBody"@],
        match json_get(r, "recipients"@) {
            Some(rc) => keys_of(rc) == seq!["elements"@] && match json_get(rc, "elements"@) {
                Some(Json::Array(items)) => items@.len() == 1 && keys_of(items@[0]) == seq!["id"@]
                    && str_at(items@[0], "id"@) == Some(recipient@),
                _ => false,
            },
            None => false,
        },
        match json_get(r, "messageBody"@) {
            Some(m) => keys_of(m) == seq!["text"@] && str_at(m, "text"@) == Some(content@),
            None => false,
        },
{
    let mut items: Vec<Json> = Vec::new();
    items.push(obj1("id", Json::Str(recipient.to_owned())));
    let rc = obj1("elements", Json::Array(items));
    let m = obj1("text", Json::Str(content.to_owned()));
    let mut f: Vec<(String, Json)> = Vec::new();
    f.push(("recipients".to_owned(), rc));
    f.push(("messageBody".to_owned(), m));
    let r = Json::Object(f);
    proof {
        reveal_strlit("recipients");
        reveal_strlit("messageBody");
        assert(keys_of(r) =~= seq!["recipients"@, "messageBody"@]);
        assert(f@[0].0@ == "recipients"@ && f@[1].0@ == "messageBody"@);
        assert("recipients"@[0] != "messageBody"@[0]);
        lemma_entries_get_at(f@, "recipients"@, 0);
        lemma_entries_get_at(f@, "messageBody"@, 1);
    }
    r
}

/// The number of messages or conversations to ask for: at most 50.
pub open spec fn dm_count(limit: u32) -> u32 {
    if limit < 50 {
        limit
    } else {
        50
    }
}

/// The address searching the conversations:
/// `https://api.linkedin.com/v2/messages?action=search&count={n}`.
pub fn dm_conversations_url(limit: u32) -> (r: String)
    ensures
        r@ == "https://api.linkedin.com/v2/messages?action=search&count="@ + decimal(
            dm_count(limit) as nat,
        ),
{
    let n: u32 = if limit < 50 {
        limit
    } else {
        50
    };
    let mut out: Vec<char> = Vec::new();
    push_str_chars(&mut out, "https://api.linkedin.com/v2/messages?action=search&count=");
    push_decimal_u64(&mut out, n as u64);
    string_from_chars(&out)
}

/// The address listing a conversation's messages:
/// `...messages?action=byConversation&conversationId={id}&count={n}`.
pub fn dm_messages_url(conversation_id: &str, limit: u32) -> (r: String)
    ensures
        r@ == "https://api.linkedin.com/v2/messages?action=byConversation&conversationId="@
            + conversation_id@ + "&count="@ + decimal(dm_count(limit) as nat),
{
    let n: u32 = if limit < 50 {
        limit
    } else {
        50
    };
    let mut out: Vec<char> = Vec::new();
    push_str_chars(
        &mut out,
        "https://api.linkedin.com/v2/messages?action=byConversation&conversationId=",
    );
    push_str_chars(&mut out, conversation_id);
    push_str_chars(&mut out, "&count=");
    push_decimal_u64(&mut out, n as u64);
    string_from_chars(&out)
}

/// The `id` of the first participant, else empty.
pub open spec fn first_participant(e: Json) -> Seq<char> {
    match json_get(e, "participants"@) {
        Some(Json::Array(ps)) => if ps@.len() > 0 {
            str_or(ps@[0], "id"@, ""@)
        } else {
            ""@
        },
        _ => ""@,
    }
}

/// A conversation of the search answer: `conversationId`, the first
/// participant, the `body` and `createdAt`, no names and nothing unread.
pub fn dm_conversation(elem: &Json) -> (r: DmConversation)
    ensures
        r.id@ == str_or(*elem, "conversationId"@, ""@),
        r.participant@ == first_participant(*elem),
        r.participant_name is None,
        r.participant_avatar is None,
        opt_str_view(r.last_message) == str_at(*elem, "body"@),
        r.last_message_at == get_i64(*elem, "createdAt"@),
        r.unread_count == 0,
{
    let participant = match elem.get("participants") {
        Some(Json::Array(ps)) => if ps.len() > 0 {
            str_or_owned(&ps[0], "id", "")
        } else {
            "".to_owned()
        },
        _ => "".to_owned(),
    };
    proof {
        reveal_strlit("");
    }
    DmConversation {
        id: str_or_owned(elem, "conversationId", ""),
        participant,
        participant_name: None,
        participant_avatar: None,
        last_message: crate::json::own_opt(elem.str_at("body")),
        last_message_at: match elem.get("createdAt") {
            Some(v) => v.as_i64(),
            None => None,
        },
        unread_count: 0,
    }
}

/// A message of a conversation: `id`, the `id` of the `sender` object, the
/// `body` (empty when absent) and `createdAt`; read, with no media.
pub fn dm_message(elem: &Json, conversation_id: &str) -> (r: DmMessage)
    ensures
        r.id@ == str_or(*elem, "id"@, ""@),
        r.conversation_id@ == conversation_id@,
        r.sender@ == match json_get(*elem, "sender"@) {
            Some(s) => str_or(s, "id"@, ""@),
            None => ""@,
        },
        r.sender_name is None,
        r.content@ == str_or(*elem, "body"@, ""@),
        r.media@.len() == 0,
        r.created_at == get_i64(*elem, "createdAt"@),
        r.read,
{
    let sender = match elem.get("sender") {
        Some(s) => str_or_owned(s, "id", ""),
        None => "".to_owned(),
    };
    proof {
        reveal_strlit("");
    }
    DmMessage {
        id: str_or_owned(elem, "id", ""),
        conversation_id: conversation_id.to_owned(),
        sender,
        sender_name: None,
        content: str_or_owned(elem, "body", ""),
        media: Vec::new(),
        created_at: match elem.get("createdAt") {
            Some(v) => v.as_i64(),
            None => None,
        },
        read: true,
    }
}

/// The account of a profile answer: `sub` and `name` (empty when absent),
/// the given token, `picture` and `preferred_username`.
pub fn linkedin_reconnect(profile: &Json, access_token: &str) -> (r: ReconnectResult)
    ensures
        r.id@ == str_or(*profile, "sub"@, ""@),
        r.name@ == str_or(*profile, "name"@, ""@),
        r.access_token@ == access_token@,
        opt_str_view(r.picture) == str_at(*profile, "picture"@),
        opt_str_view(r.username) == str_at(*profile, "preferred_username"@),
{
    ReconnectResult {
        id: str_or_owned(profile, "sub", ""),
        name: str_or_owned(profile, "name", ""),
        access_token: access_token.to_owned(),
        picture: crate::json::own_opt(profile.str_at("picture")),
        username: crate::json::own_opt(profile.str_at("preferred_username")),
    }
}

/// The body of a comment by `actor_urn` on `post_urn`:
/// `{"actor", "message": {"text"}, "object"}`.
pub fn comment_body(post_urn: &str, actor_urn: &str, message: &str) -> (r: Json)
    ensures
        keys_of(r) == seq!["actor"@, "message"@, "object"@],
        str_at(r, "actor"@) == Some(actor_urn@),
        json_get(r, "message"@) matches Some(m) && keys_of(m) == seq!["text"@] && str_at(m, "text"@)
            == Some(message@),
        str_at(r, "object"@) == Some(post_urn@),
{
    let m = obj1("text", Json::Str(message.to_owned()));
    let mut f: Vec<(String, Json)> = Vec::new();
    f.push(("actor".to_owned(), Json::Str(actor_urn.to_owned())));
    f.push(("message".to_owned(), m));
    f.push(("object".to_owned(), Json::Str(post_urn.to_owned())));
    let r = Json::Object(f);
    proof {
        assert(keys_of(r) =~= seq!["actor"@, "message"@, "object"@]);
        reveal_strlit("actor");
        reveal_strlit("message");
        reveal_strlit("object");
        assert(f@[0].0@ == "actor"@ && f@[1].0@ == "message"@ && f@[2].0@ == "object"@);
        assert("actor"@.len() != "message"@.len() && "actor"@.len() != "object"@.len());
        assert("message"@[0] != "object"@[0]);
        lemma_entries_get_at(f@, "actor"@, 0);
        lemma_entries_get_at(f@, "message"@, 1);
        lemma_entries_get_at(f@, "object"@, 2);
    }
    r
}


/// The answer to asking a post's social actions: an expired token on 401,
/// nothing on another failing status, else the counts of
/// `linkedin_engagement`.
pub fn engagement_outcome(status: u16, json: &Json) -> (r: Result<Option<Vec<(String, i64)>>, ProviderError>)
    ensures
        status == 401 ==> r matches Err(ProviderError::TokenExpired),
        status != 401 && !(200 <= status <= 299) ==> r matches Ok(None),
        200 <= status <= 299 ==> match r {
            Ok(Some(v)) => v@.map_values(|p: (String, i64)| (p.0@, p.1)) == engagement_spec(*json)
                && v@.len() > 0,
            Ok(None) => engagement_spec(*json).len() == 0,
            Err(_) => false,
        },
{
    if status == 401 {
        return Err(ProviderError::TokenExpired);
    }
    if !(200 <= status && status <= 299) {
        return Ok(None);
    }
    Ok(linkedin_engagement(json))
}

/// The answer to creating a comment: the created comment on 201, an expired
/// token on 401, otherwise an error with the answer's `message`, else
/// `fallback`.
pub fn comment_created(status: u16, json: Json, fallback: &str) -> (r: Result<Json, ProviderError>)
    ensures
        status == 201 ==> r == Ok::<Json, ProviderError>(json),
        status == 401 ==> r matches Err(ProviderError::TokenExpired),
        status != 201 && status != 401 ==> (r matches Err(ProviderError::Api(m)) && m@ == str_or(
            json,
            "message"@,
            fallback@,
        )),
{
    if status == 201 {
        return Ok(json);
    }
    if status == 401 {
        return Err(ProviderError::TokenExpired);
    }
    Err(ProviderError::Api(str_or_owned(&json, "message", fallback)))
}


proof fn lemma_ids_no_longer(items: Seq<Json>)
    ensures
        ids_spec(items).len() <= items.len(),
    decreases items.len(),
{
    if items.len() > 0 {
        lemma_ids_no_longer(items.drop_last());
    }
}

/// Law: a post's carousel never asks for more than four images to be
/// resolved.
pub proof fn lemma_carousel_at_most_four(content: Json)
    ensures
        multi_spec(content).len() <= 4,
{
    match json_get(content, "multiImage"@) {
        Some(Json::Array(items)) => lemma_ids_no_longer(first_n(items@, 4)),
        _ => {},
    }
}

} // verus!
