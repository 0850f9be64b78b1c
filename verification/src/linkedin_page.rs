//! LinkedIn company pages: the organizations an administrator manages,
//! their logos, page posts, share statistics and publishing as a page.
use vstd::prelude::*;

use crate::json::{get_i64, json_as_str, json_get, json_get3, json_index, str_at, str_or, str_or_owned, Json};
use crate::linkedin::{
    created_outcome, linkedin_status, stream_url_spec, ugc_share_body, ugc_share_ok,
    LinkedinPost,
};
use crate::providers::pairs_view;
use crate::social::{PageInfo, ProviderError, PublishResult};
use crate::text::{
    after_last, after_last_str, contains, decimal, opt_str_view, push_decimal_u64, push_str_chars,
    str_contains, string_from_chars,
};

verus! {

/// `urn:li:organization:{org_id}`.
pub fn org_urn(org_id: &str) -> (r: String)
    ensures
        r@ == "urn:li:organization:"@ + org_id@,
{
    let mut out: Vec<char> = Vec::new();
    push_str_chars(&mut out, "urn:li:organization:");
    push_str_chars(&mut out, org_id);
    string_from_chars(&out)
}

/// The logo address in an organization's decoration: the `identifier` of
/// the first identifier of the first element of `logoV2["original~"]`.
pub open spec fn decoration_logo(target: Json) -> Option<Seq<char>> {
    match json_get3(target, "logoV2"@, "original~"@, "elements"@) {
        Some(Json::Array(els)) => if els@.len() > 0 {
            match json_get(els@[0], "identifiers"@) {
                Some(Json::Array(ids)) => if ids@.len() > 0 {
                    str_at(ids@[0], "identifier"@)
                } else {
                    None
                },
                _ => None,
            }
        } else {
            None
        },
        _ => None,
    }
}

fn decoration_logo_exec(target: &Json) -> (r: Option<String>)
    ensures
        opt_str_view(r) == decoration_logo(*target),
{
    if let Some(Json::Array(els)) = target.get3("logoV2", "original~", "elements") {
        if els.len() > 0 {
            if let Some(Json::Array(ids)) = els[0].get("identifiers") {
                if ids.len() > 0 {
                    return crate::json::own_opt(ids[0].str_at("identifier"));
                }
            }
        }
    }
    None
}

/// An organization the member administers, from an access-control element:
/// the id is the end of the `organizationalTarget` URN; name, username and
/// decoration logo come from the decorated `organizationalTarget~`.
pub fn org_page(e: &Json, access_token: &str) -> (r: PageInfo)
    ensures
        r.id@ == after_last(str_or(*e, "organizationalTarget"@, ""@), ':'),
        r.name@ == str_or(json_index(*e, "organizationalTarget~"@), "localizedName"@, ""@),
        opt_str_view(r.access_token) == Some(access_token@),
        opt_str_view(r.picture) == decoration_logo(json_index(*e, "organizationalTarget~"@)),
        opt_str_view(r.username) == str_at(json_index(*e, "organizationalTarget~"@), "vanityName"@),
{
    let null = Json::Null;
    let target: &Json = match e.get("organizationalTarget~") {
        Some(t) => t,
        None => &null,
    };
    let urn = str_or_owned(e, "organizationalTarget", "");
    PageInfo {
        id: after_last_str(urn.as_str(), ':'),
        name: str_or_owned(target, "localizedName", ""),
        access_token: Some(access_token.to_owned()),
        picture: decoration_logo_exec(target),
        username: crate::json::own_opt(target.str_at("vanityName")),
    }
}

/// A page without a decoration logo but with an id has its logo fetched
/// separately.
pub fn needs_logo_fetch(page: &PageInfo) -> (r: bool)
    ensures
        r == (page.picture is None && page.id@.len() > 0),
{
    page.picture.is_none() && page.id.as_str().unicode_len() > 0
}

/// The id of an organization answer: `id` as an unsigned number in decimal,
/// else as a string, else the asked `page_id`.
pub open spec fn org_id_spec(json: Json, page_id: Seq<char>) -> Seq<char> {
    match json_get(json, "id"@) {
        Some(v) => match crate::json::json_as_u64(v) {
            Some(n) => decimal(n as nat),
            None => match json_as_str(v) {
                Some(s) => s,
                None => page_id,
            },
        },
        None => page_id,
    }
}

/// The page profile of an organization answer (its decoration logo, if
/// any; see `needs_logo_fetch`).
pub fn org_page_info(json: &Json, page_id: &str, access_token: &str) -> (r: PageInfo)
    ensures
        r.id@ == org_id_spec(*json, page_id@),
        r.name@ == str_or(*json, "localizedName"@, ""@),
        opt_str_view(r.access_token) == Some(access_token@),
        opt_str_view(r.picture) == decoration_logo(*json),
        opt_str_view(r.username) == str_at(*json, "vanityName"@),
{
    let id: String = match json.get("id") {
        Some(v) => match v.as_u64() {
            Some(n) => {
                let mut out: Vec<char> = Vec::new();
                push_decimal_u64(&mut out, n);
                string_from_chars(&out)
            },
            None => match v.as_str() {
                Some(s) => s.to_owned(),
                None => page_id.to_owned(),
            },
        },
        None => page_id.to_owned(),
    };
    PageInfo {
        id,
        name: str_or_owned(json, "localizedName", ""),
        access_token: Some(access_token.to_owned()),
        picture: decoration_logo_exec(json),
        username: crate::json::own_opt(json.str_at("vanityName")),
    }
}

/// The address of an organization's logo image:
/// `https://api.linkedin.com/rest/images/{logoV2.original, escaped}`.
pub fn logo_image_url(json: &Json) -> (r: Option<String>)
    ensures
        match crate::meta::opt_str(crate::json::json_get2(*json, "logoV2"@, "original"@)) {
            Some(urn) => r matches Some(u) && u@ == "https://api.linkedin.com/rest/images/"@
                + crate::fediverse::escape_bytes(vstd::utf8::encode_utf8(urn)),
            None => r is None,
        },
{
    match json.get2("logoV2", "original") {
        Some(v) => match v.as_str() {
            Some(urn) => {
                let encoded = crate::fediverse::urlencoding(urn);
                let mut out: Vec<char> = Vec::new();
                push_str_chars(&mut out, "https://api.linkedin.com/rest/images/");
                push_str_chars(&mut out, encoded.as_str());
                Some(string_from_chars(&out))
            },
            None => None,
        },
        None => None,
    }
}

/// The logo's `downloadUrl` from the image answer (absent when the
/// organization names no logo); `No logo found` otherwise.
pub fn logo_download(image: Option<&Json>) -> (r: Result<String, ProviderError>)
    ensures
        match image {
            Some(j) => match str_at(*j, "downloadUrl"@) {
                Some(u) => r matches Ok(x) && x@ == u,
                None => r matches Err(ProviderError::Api(m)) && m@ == "No logo found"@,
            },
            None => r matches Err(ProviderError::Api(m)) && m@ == "No logo found"@,
        },
{
    if let Some(j) = image {
        if let Some(u) = j.str_at("downloadUrl") {
            return Ok(u.to_owned());
        }
    }
    Err(ProviderError::Api("No logo found".to_owned()))
}

/// The organization to act as: the first administered page.
pub fn first_org_id(pages: &Vec<PageInfo>) -> (r: Result<String, ProviderError>)
    ensures
        pages@.len() > 0 ==> (r matches Ok(id) && id@ == pages@[0].id@),
        pages@.len() == 0 ==> (r matches Err(ProviderError::Auth(m)) && m@
            == "No LinkedIn organizations found"@),
{
    if pages.len() > 0 {
        Ok(pages[0].id.clone())
    } else {
        Err(ProviderError::Auth("No LinkedIn organizations found".to_owned()))
    }
}

/// The body of a UGC share as the organization `org_id` (see
/// `ugc_share_body`).
pub fn page_share_body(org_id: &str, content: &str, has_media: bool) -> (r: Json)
    ensures
        ugc_share_ok(r, "urn:li:organization:"@ + org_id@, content@, has_media, None),
{
    let author = org_urn(org_id);
    ugc_share_body(author.as_str(), content, has_media, None)
}

/// The answer to sharing as a page: on 201 the post id is the end of the
/// `location` header; on 401 an expired token; otherwise an error with the
/// answer's `message`, else `LinkedIn Page publish failed`.
pub fn page_publish_outcome(status: u16, location: &str, json: &Json) -> (r: Result<PublishResult, ProviderError>)
    ensures
        status == 201 ==> (r matches Ok(p) && p.platform_post_id@ == after_last(location@, '/')
            && p.platform_post_url is None && p.status@ == "published"@),
        status == 401 ==> r matches Err(ProviderError::TokenExpired),
        status != 201 && status != 401 ==> (r matches Err(ProviderError::Api(m)) && m@ == str_or(
            *json,
            "message"@,
            "LinkedIn Page publish failed"@,
        )),
{
    created_outcome(status, location, json, "published", true, false, "LinkedIn Page publish failed")
}

/// The address listing a page's posts:
/// `https://api.linkedin.com/v2/rest/posts?author=urn:li:organization:{id}&count={n}`,
/// the count kept within 1 to 100.
pub fn page_posts_url(page_id: &str, limit: u32) -> (r: String)
    ensures
        r@ == "https://api.linkedin.com/v2/rest/posts?author=urn:li:organization:"@ + page_id@
            + "&count="@ + decimal(crate::linkedin::posts_count(limit) as nat),
{
    let count: u32 = if limit < 1 {
        1
    } else if limit > 100 {
        100
    } else {
        limit
    };
    let mut out: Vec<char> = Vec::new();
    push_str_chars(&mut out, "https://api.linkedin.com/v2/rest/posts?author=urn:li:organization:");
    push_str_chars(&mut out, page_id);
    push_str_chars(&mut out, "&count=");
    push_decimal_u64(&mut out, count as u64);
    string_from_chars(&out)
}

/// The page-posts answer: success, an expired token, or an error with its
/// `message`, else `LinkedIn Page API error`.
pub fn page_posts_status(status: u16, json: &Json) -> (r: Result<(), ProviderError>)
    ensures
        200 <= status <= 299 ==> r is Ok,
        status == 401 ==> r matches Err(ProviderError::TokenExpired),
        !(200 <= status <= 299) && status != 401 ==> (r matches Err(ProviderError::Api(m)) && m@
            == str_or(*json, "message"@, "LinkedIn Page API error"@)),
{
    linkedin_status(status, json, false, "LinkedIn Page API error")
}

/// A failure to list a page's posts that calls for resolving the
/// organization id again and retrying: an API error whose message says
/// `No virtual resource` or `not found`.
pub fn page_posts_retry(e: &ProviderError) -> (r: bool)
    ensures
        r == (e matches ProviderError::Api(m) && (contains(m@, "No virtual resource"@) || contains(
            m@,
            "not found"@,
        ))),
{
    match e {
        ProviderError::Api(m) => str_contains(m.as_str(), "No virtual resource") || str_contains(
            m.as_str(),
            "not found",
        ),
        _ => false,
    }
}

/// A page post's `commentary` is an object without `text`: reading its text
/// panics there.
pub open spec fn page_commentary_panics(element: Json) -> bool {
    crate::linkedin::commentary_panics(element)
}

/// A page post's text: the `text` of `commentary` as an object; empty
/// otherwise.
pub open spec fn page_commentary_spec(element: Json) -> Seq<char> {
    match json_get(element, "commentary"@) {
        Some(Json::Object(m)) => match crate::json::entries_get(m@, "text"@) {
            Some(t) => match json_as_str(t) {
                Some(x) => x,
                None => ""@,
            },
            None => ""@,
        },
        _ => ""@,
    }
}

/// The fields of a page post element (an element without `id` gives an
/// empty one).
pub fn page_post(element: &Json) -> (r: LinkedinPost)
    requires
        !page_commentary_panics(*element),
    ensures
        r.platform_post_id@ == str_or(*element, "id"@, ""@),
        r.text@ == page_commentary_spec(*element),
        r.created_at_ms == get_i64(*element, "createdAt"@),
        r.url@ == "https://www.linkedin.com/feed/update/"@ + str_or(*element, "id"@, ""@),
{
    let urn = str_or_owned(element, "id", "");
    let text: String = match element.get("commentary") {
        Some(c) => if c.is_object() {
            match c.get("text") {
                Some(t) => match t.as_str() {
                    Some(x) => x.to_owned(),
                    None => "".to_owned(),
                },
                None => "".to_owned(),
            }
        } else {
            "".to_owned()
        },
        None => "".to_owned(),
    };
    proof {
        reveal_strlit("");
    }
    let mut out: Vec<char> = Vec::new();
    push_str_chars(&mut out, "https://www.linkedin.com/feed/update/");
    push_str_chars(&mut out, urn.as_str());
    LinkedinPost {
        platform_post_id: urn,
        text,
        created_at_ms: match element.get("createdAt") {
            Some(v) => v.as_i64(),
            None => None,
        },
        url: string_from_chars(&out),
    }
}

/// The media address in an asset answer, for pages: `value.downloadUrl`,
/// else the first stream location.
pub open spec fn page_media_url_spec(j: Json) -> Option<Seq<char>> {
    match crate::meta::opt_str(crate::json::json_get2(j, "value"@, "downloadUrl"@)) {
        Some(u) => Some(u),
        None => stream_url_spec(j),
    }
}

/// The media address in the answer to fetching an asset for a page post.
pub fn page_media_url(json: &Json) -> (r: Option<String>)
    ensures
        opt_str_view(r) == page_media_url_spec(*json),
{
    if let Some(v) = json.get2("value", "downloadUrl") {
        if let Some(u) = v.as_str() {
            return Some(u.to_owned());
        }
    }
    if let Some(Json::Array(streams)) = json.get2("value", "playbackStreams") {
        if streams.len() > 0 {
            if let Some(Json::Array(locs)) = streams[0].get("streamLocations") {
                if locs.len() > 0 {
                    return crate::json::own_opt(locs[0].str_at("url"));
                }
            }
        }
    }
    None
}

/// A statistics answer: an expired token on 401, the rate limit on 429, an
/// error with its `message` (else `fallback`) on another failing status.
pub fn stats_status(status: u16, json: &Json, fallback: &str) -> (r: Result<(), ProviderError>)
    ensures
        status == 401 ==> r matches Err(ProviderError::TokenExpired),
        status == 429 ==> (r matches Err(ProviderError::RateLimited(m)) && m@
            == "LinkedIn API rate limit"@),
        status != 401 && status != 429 && !(200 <= status <= 299) ==> (r matches Err(
            ProviderError::Api(m),
        ) && m@ == str_or(*json, "message"@, fallback@)),
        status != 401 && status != 429 && 200 <= status <= 299 ==> r is Ok,
{
    if status == 401 {
        return Err(ProviderError::TokenExpired);
    }
    if status == 429 {
        return Err(ProviderError::RateLimited("LinkedIn API rate limit".to_owned()));
    }
    if !(200 <= status && status <= 299) {
        return Err(ProviderError::Api(str_or_owned(json, "message", fallback)));
    }
    Ok(())
}


/// Each member of `entries` whose value is an unsigned integer, as its name
/// and the number in decimal, in order.
pub open spec fn stat_entries(entries: Seq<(String, Json)>) -> Seq<(Seq<char>, Seq<char>)>
    decreases entries.len(),
{
    if entries.len() == 0 {
        seq![]
    } else {
        let rest = stat_entries(entries.drop_last());
        match crate::json::json_as_u64(entries.last().1) {
            Some(n) => rest.push((entries.last().0@, decimal(n as nat))),
            None => rest,
        }
    }
}

/// The statistics of one element: those of its `totalShareStatistics`
/// object.
pub open spec fn element_stats(e: Json) -> Seq<(Seq<char>, Seq<char>)> {
    match json_get(e, "totalShareStatistics"@) {
        Some(Json::Object(m)) => stat_entries(m@),
        _ => seq![],
    }
}

/// The statistics of all elements, in order.
pub open spec fn share_stats_spec(elems: Seq<Json>) -> Seq<(Seq<char>, Seq<char>)>
    decreases elems.len(),
{
    if elems.len() == 0 {
        seq![]
    } else {
        share_stats_spec(elems.drop_last()) + element_stats(elems.last())
    }
}

fn push_element_stats(out: &mut Vec<(String, String)>, e: &Json)
    ensures
        pairs_view(final(out)@) == pairs_view(old(out)@) + element_stats(*e),
{
    let ghost before = out@;
    if let Some(Json::Object(m)) = e.get("totalShareStatistics") {
        let n = m.len();
        assert(m@.take(0) =~= Seq::<(String, Json)>::empty());
        for i in 0..n
            invariant
                n == m@.len(),
                pairs_view(out@) == pairs_view(before) + stat_entries(m@.take(i as int)),
        {
            assert(m@.take(i + 1).drop_last() =~= m@.take(i as int));
            assert(m@.take(i + 1).last() == m@[i as int]);
            let ghost mid = out@;
            if let Some(v) = m[i].1.as_u64() {
                let mut total: Vec<char> = Vec::new();
                push_decimal_u64(&mut total, v);
                assert(total@ =~= decimal(v as nat));
                out.push((m[i].0.clone(), string_from_chars(&total)));
                assert(pairs_view(out@) =~= pairs_view(mid).push((m@[i as int].0@, decimal(v as nat))));
            }
            assert(pairs_view(out@) =~= pairs_view(before) + stat_entries(m@.take(i + 1)));
        }
        assert(m@.take(n as int) =~= m@);
    } else {
        assert(pairs_view(out@) =~= pairs_view(before) + element_stats(*e));
    }
}

/// The share statistics of a statistics answer: every unsigned member of
/// each element's `totalShareStatistics`, labelled by its name.
pub fn share_statistics(json: &Json) -> (r: Vec<(String, String)>)
    ensures
        pairs_view(r@) == match json_get(*json, "elements"@) {
            Some(Json::Array(es)) => share_stats_spec(es@),
            _ => seq![],
        },
{
    let mut out: Vec<(String, String)> = Vec::new();
    assert(pairs_view(out@) =~= Seq::<(Seq<char>, Seq<char>)>::empty());
    if let Some(Json::Array(es)) = json.get("elements") {
        let n = es.len();
        assert(es@.take(0) =~= Seq::<Json>::empty());
        for i in 0..n
            invariant
                n == es@.len(),
                pairs_view(out@) == share_stats_spec(es@.take(i as int)),
        {
            assert(es@.take(i + 1).drop_last() =~= es@.take(i as int));
            assert(es@.take(i + 1).last() == es@[i as int]);
            push_element_stats(&mut out, &es[i]);
        }
        assert(es@.take(n as int) =~= es@);
    }
    out
}

/// The follower count of a network-size answer: an expired token on 401,
/// the rate limit on 429; on success the `firstDegreeSize` of the first
/// element, in decimal, if any; nothing on another failing status.
pub fn follower_total(status: u16, json: &Json) -> (r: Result<Option<String>, ProviderError>)
    ensures
        status == 401 ==> r matches Err(ProviderError::TokenExpired),
        status == 429 ==> (r matches Err(ProviderError::RateLimited(m)) && m@
            == "LinkedIn API rate limit"@),
        status != 401 && status != 429 && !(200 <= status <= 299) ==> r matches Ok(None),
        status != 401 && status != 429 && 200 <= status <= 299 ==> match r {
            Ok(o) => opt_str_view(o) == match json_get(*json, "elements"@) {
                Some(Json::Array(es)) => if es@.len() > 0 {
                    match json_get(es@[0], "firstDegreeSize"@) {
                        Some(v) => match crate::json::json_as_u64(v) {
                            Some(n) => Some(decimal(n as nat)),
                            None => None,
                        },
                        None => None,
                    }
                } else {
                    None
                },
                _ => None,
            },
            Err(_) => false,
        },
{
    if status == 401 {
        return Err(ProviderError::TokenExpired);
    }
    if status == 429 {
        return Err(ProviderError::RateLimited("LinkedIn API rate limit".to_owned()));
    }
    if !(200 <= status && status <= 299) {
        return Ok(None);
    }
    if let Some(Json::Array(es)) = json.get("elements") {
        if es.len() > 0 {
            return Ok(crate::linkedin::connections_total(&es[0]));
        }
    }
    Ok(None)
}

} // verus!
