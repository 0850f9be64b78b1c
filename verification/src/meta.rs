//! Facebook and Instagram Graph API handling: public media URLs, the media
//! of feed attachments, and the pages and Instagram accounts that a user
//! token can reach.
use vstd::prelude::*;

use crate::json::{
    array_at, json_as_str, json_get, json_get2, json_get3, null_at, own_opt, str_at, str_or,
    str_or_owned, Json,
};
use crate::providers::{trim_end_slashes, trim_end_slashes_exec, ProviderKind};
use crate::social::{MediaAttachment, PageInfo};
use crate::text::{
    chars_eq, chars_lt, chars_of, clone_opt, contains, lemma_str_lt_asym, lemma_str_lt_total,
    lemma_str_lt_trans, str_le, str_lt, opt_str_view, push_str_chars, starts_with, str_contains, str_starts_with,
    string_from_chars,
};

verus! {

/// A media path served by this application itself (`/api/media/...` or
/// `/media/...`), which the Graph API cannot fetch as it is.
pub open spec fn is_local_media(url: Seq<char>) -> bool {
    starts_with(url, "/api/media/"@) || starts_with(url, "/media/"@)
}

/// The URL a provider fetches media from: for Facebook, local media paths
/// are prefixed with the application's public URL (without its trailing
/// slashes); every other URL, and every other provider, keeps it as it is.
pub open spec fn resolved_media_url(k: ProviderKind, url: Seq<char>, app_url: Seq<char>) -> Seq<char> {
    if k == ProviderKind::Facebook && is_local_media(url) {
        trim_end_slashes(app_url) + url
    } else {
        url
    }
}

impl ProviderKind {
    /// The attachment with its URL made fetchable by the platform; the other
    /// fields are kept.
    pub fn resolve_media_url(&self, attachment: &MediaAttachment, app_url: &str) -> (r: MediaAttachment)
        ensures
            r.url@ == resolved_media_url(*self, attachment.url@, app_url@),
            r.mime_type == attachment.mime_type,
            r.alt == attachment.alt,
            r.poster_url == attachment.poster_url,
    {
        let local = str_starts_with(attachment.url.as_str(), "/api/media/") || str_starts_with(
            attachment.url.as_str(),
            "/media/",
        );
        let url = if *self == ProviderKind::Facebook && local {
            let base = trim_end_slashes_exec(app_url);
            let mut out = chars_of(base.as_str());
            push_str_chars(&mut out, attachment.url.as_str());
            string_from_chars(&out)
        } else {
            attachment.url.clone()
        };
        MediaAttachment {
            url,
            mime_type: attachment.mime_type.clone(),
            alt: clone_opt(&attachment.alt),
            poster_url: clone_opt(&attachment.poster_url),
        }
    }
}

/// An attachment type that names a video.
pub open spec fn is_video_type(t: Seq<char>) -> bool {
    contains(t, "video"@) || t == "animated_video"@
}

/// A URL with a video file extension.
pub open spec fn has_video_ext(url: Seq<char>) -> bool {
    contains(url, ".mp4"@) || contains(url, ".webm"@) || contains(url, ".mov"@)
}

/// The media URL and MIME type of one feed attachment: `media.source` first
/// (a video when the type or the extension says so, a GIF by extension,
/// else a JPEG), then the `media.image.src` thumbnail (a JPEG), then the
/// attachment's `url` (a video by extension, else a JPEG).
pub open spec fn single_media_spec(a: Json) -> Option<(Seq<char>, Seq<char>)> {
    let t = str_or(a, "type"@, ""@);
    match opt_str(json_get2(a, "media"@, "source"@)) {
        Some(url) => Some(
            (
                url,
                if is_video_type(t) || has_video_ext(url) {
                    "video/mp4"@
                } else if contains(url, ".gif"@) {
                    "image/gif"@
                } else {
                    "image/jpeg"@
                },
            ),
        ),
        None => match opt_str(json_get3(a, "media"@, "image"@, "src"@)) {
            Some(url) => Some((url, "image/jpeg"@)),
            None => match str_at(a, "url"@) {
                Some(url) => Some(
                    (
                        url,
                        if has_video_ext(url) {
                            "video/mp4"@
                        } else {
                            "image/jpeg"@
                        },
                    ),
                ),
                None => None,
            },
        },
    }
}

/// The string inside an optional JSON value.
pub open spec fn opt_str(o: Option<Json>) -> Option<Seq<char>> {
    match o {
        Some(v) => json_as_str(v),
        None => None,
    }
}

fn opt_json_str(o: Option<&Json>) -> (r: Option<&str>)
    ensures
        match opt_str(
            match o {
                Some(v) => Some(*v),
                None => None,
            },
        ) {
            Some(s) => r matches Some(x) && x@ == s,
            None => r is None,
        },
{
    match o {
        Some(v) => v.as_str(),
        None => None,
    }
}

fn has_video_ext_exec(url: &str) -> (r: bool)
    ensures
        r == has_video_ext(url@),
{
    str_contains(url, ".mp4") || str_contains(url, ".webm") || str_contains(url, ".mov")
}

fn media_of(url: &str, mime: &str) -> (r: MediaAttachment)
    ensures
        r.url@ == url@,
        r.mime_type@ == mime@,
        r.alt is None,
        r.poster_url is None,
{
    MediaAttachment { url: url.to_owned(), mime_type: mime.to_owned(), alt: None, poster_url: None }
}

/// The media of one feed attachment, as `single_media_spec` describes.
pub fn extract_single_media(a: &Json) -> (r: Option<MediaAttachment>)
    ensures
        match single_media_spec(*a) {
            Some((url, mime)) => r matches Some(m) && m.url@ == url && m.mime_type@ == mime
                && m.alt is None && m.poster_url is None,
            None => r is None,
        },
{
    let t: &str = match a.str_at("type") {
        Some(t) => t,
        None => "",
    };
    let is_video = str_contains(t, "video") || crate::text::str_eq(t, "animated_video");
    if let Some(url) = opt_json_str(a.get2("media", "source")) {
        let mime = if is_video || has_video_ext_exec(url) {
            "video/mp4"
        } else if str_contains(url, ".gif") {
            "image/gif"
        } else {
            "image/jpeg"
        };
        return Some(media_of(url, mime));
    }
    if let Some(url) = opt_json_str(a.get3("media", "image", "src")) {
        return Some(media_of(url, "image/jpeg"));
    }
    if let Some(url) = a.str_at("url") {
        let mime = if has_video_ext_exec(url) {
            "video/mp4"
        } else {
            "image/jpeg"
        };
        return Some(media_of(url, mime));
    }
    None
}

/// URL and MIME type of each attachment, in order.
pub open spec fn media_views(v: Seq<MediaAttachment>) -> Seq<(Seq<char>, Seq<char>)> {
    v.map_values(|m: MediaAttachment| (m.url@, m.mime_type@))
}

/// Every attachment carries neither alt text nor a poster.
pub open spec fn bare_media(v: Seq<MediaAttachment>) -> bool {
    forall|i: int| 0 <= i < v.len() ==> (#[trigger] v[i]).alt is None && v[i].poster_url is None
}

/// The media of each of `items` that has any, in order.
pub open spec fn media_list_spec(items: Seq<Json>) -> Seq<(Seq<char>, Seq<char>)>
    decreases items.len(),
{
    if items.len() == 0 {
        seq![]
    } else {
        let rest = media_list_spec(items.drop_last());
        match single_media_spec(items.last()) {
            Some(m) => rest.push(m),
            None => rest,
        }
    }
}

/// The media of each item that has any, in order.
pub fn extract_media_list(items: &Vec<Json>) -> (r: Vec<MediaAttachment>)
    ensures
        media_views(r@) == media_list_spec(items@),
        bare_media(r@),
{
    let mut out: Vec<MediaAttachment> = Vec::new();
    let n = items.len();
    for i in 0..n
        invariant
            n == items@.len(),
            media_views(out@) == media_list_spec(items@.take(i as int)),
            bare_media(out@),
    {
        assert(items@.take(i + 1).drop_last() =~= items@.take(i as int));
        assert(items@.take(i + 1).last() == items@[i as int]);
        if let Some(m) = extract_single_media(&items[i]) {
            out.push(m);
            assert(media_views(out@) =~= media_views(out@.drop_last()).push((m.url@, m.mime_type@)));
        }
    }
    assert(items@.take(n as int) =~= items@);
    out
}

/// What to do with one attachment of a feed post.
pub enum AttachmentStep {
    /// These media, found in the attachment itself.
    Media(Vec<MediaAttachment>),
    /// Fetch the playable source of this video, then call
    /// `video_fetch_outcome` with the result.
    FetchVideo(String),
}

/// Albums give the media of their sub-attachments; a video with a target id
/// needs its playable source fetched; every other attachment gives its own
/// media, if any.
pub open spec fn attachment_step_spec(a: Json) -> (bool, Seq<char>, Seq<(Seq<char>, Seq<char>)>) {
    let t = str_or(a, "type"@, ""@);
    let own = match single_media_spec(a) {
        Some(m) => seq![m],
        None => seq![],
    };
    if t == "album"@ || t == "multiple"@ {
        (false, ""@, match json_get2(a, "subattachments"@, "data"@) {
            Some(Json::Array(children)) => media_list_spec(children@),
            _ => seq![],
        })
    } else if is_video_type(t) {
        match opt_str(json_get2(a, "target"@, "id"@)) {
            Some(id) => (true, id, seq![]),
            None => (false, ""@, own),
        }
    } else {
        (false, ""@, own)
    }
}

fn own_media(a: &Json) -> (r: Vec<MediaAttachment>)
    ensures
        media_views(r@) == match single_media_spec(*a) {
            Some(m) => seq![m],
            None => seq![],
        },
        bare_media(r@),
{
    let mut out: Vec<MediaAttachment> = Vec::new();
    if let Some(m) = extract_single_media(a) {
        out.push(m);
    }
    proof {
        assert(media_views(out@) =~= match single_media_spec(*a) {
            Some(m) => seq![m],
            None => seq![],
        });
    }
    out
}

/// The step that one feed attachment calls for.
pub fn plan_attachment(a: &Json) -> (r: AttachmentStep)
    ensures
        match r {
            AttachmentStep::Media(v) => !attachment_step_spec(*a).0 && media_views(v@)
                == attachment_step_spec(*a).2 && bare_media(v@),
            AttachmentStep::FetchVideo(id) => attachment_step_spec(*a).0 && id@
                == attachment_step_spec(*a).1,
        },
{
    let t: &str = match a.str_at("type") {
        Some(t) => t,
        None => "",
    };
    if crate::text::str_eq(t, "album") || crate::text::str_eq(t, "multiple") {
        let v = match a.get2("subattachments", "data") {
            Some(Json::Array(children)) => extract_media_list(children),
            _ => Vec::new(),
        };
        proof {
            assert(media_views(v@) =~= attachment_step_spec(*a).2);
        }
        return AttachmentStep::Media(v);
    }
    if str_contains(t, "video") || crate::text::str_eq(t, "animated_video") {
        if let Some(id) = opt_json_str(a.get2("target", "id")) {
            return AttachmentStep::FetchVideo(id.to_owned());
        }
    }
    AttachmentStep::Media(own_media(a))
}

/// After fetching a video's source: the fetched URL as an MP4 video, or,
/// when the fetch failed, the attachment's own media.
pub fn video_fetch_outcome(a: &Json, fetched: Option<String>) -> (r: Option<MediaAttachment>)
    ensures
        match fetched {
            Some(url) => r matches Some(m) && m.url == url && m.mime_type@ == "video/mp4"@
                && m.alt is None && m.poster_url is None,
            None => match single_media_spec(*a) {
                Some((url, mime)) => r matches Some(m) && m.url@ == url && m.mime_type@ == mime
                    && m.alt is None && m.poster_url is None,
                None => r is None,
            },
        },
{
    match fetched {
        Some(url) => Some(
            MediaAttachment { url, mime_type: "video/mp4".to_owned(), alt: None, poster_url: None },
        ),
        None => extract_single_media(a),
    }
}

/// One post of a page feed, before its media and timestamp are attached.
pub struct FeedPost {
    pub platform_post_id: String,
    /// The message, or the story when the message is empty.
    pub text: String,
    pub url: Option<String>,
    /// `created_time` as the API gives it.
    pub created_time: Option<String>,
}

/// The text of a feed post: its message, or its story when the message is
/// empty.
pub open spec fn feed_text_spec(item: Json) -> Seq<char> {
    let message = str_or(item, "message"@, ""@);
    if message.len() == 0 {
        str_or(item, "story"@, ""@)
    } else {
        message
    }
}

/// The fields of a feed item (`id`, text, `permalink_url`, `created_time`).
pub fn feed_post(item: &Json) -> (r: FeedPost)
    ensures
        r.platform_post_id@ == str_or(*item, "id"@, ""@),
        r.text@ == feed_text_spec(*item),
        opt_str_view(r.url) == str_at(*item, "permalink_url"@),
        opt_str_view(r.created_time) == str_at(*item, "created_time"@),
{
    let message = str_or_owned(item, "message", "");
    proof {
        reveal_strlit("");
        assert(message@.len() == 0 <==> message@ =~= ""@);
    }
    let text = if crate::text::str_eq(message.as_str(), "") {
        str_or_owned(item, "story", "")
    } else {
        message
    };
    FeedPost {
        platform_post_id: str_or_owned(item, "id", ""),
        text,
        url: own_opt(item.str_at("permalink_url")),
        created_time: own_opt(item.str_at("created_time")),
    }
}

/// The fields of a page profile: id, name, token, picture and username.
pub open spec fn page_info_view(p: PageInfo) -> (Seq<char>, Seq<char>, Option<Seq<char>>, Option<Seq<char>>, Option<Seq<char>>) {
    (p.id@, p.name@, opt_str_view(p.access_token), opt_str_view(p.picture), opt_str_view(p.username))
}

/// A page profile read from a Graph API page object, with the given token:
/// `id` and `name` (empty when absent), `picture.data.url` and `username`.
pub open spec fn page_info_spec(page: Json, token: Option<Seq<char>>) -> (Seq<char>, Seq<char>, Option<Seq<char>>, Option<Seq<char>>, Option<Seq<char>>) {
    (
        str_or(page, "id"@, ""@),
        str_or(page, "name"@, ""@),
        token,
        opt_str(json_get3(page, "picture"@, "data"@, "url"@)),
        str_at(page, "username"@),
    )
}

fn page_info_with(page: &Json, access_token: Option<String>) -> (r: PageInfo)
    ensures
        page_info_view(r) == page_info_spec(*page, opt_str_view(access_token)),
{
    PageInfo {
        id: str_or_owned(page, "id", ""),
        name: str_or_owned(page, "name", ""),
        access_token,
        picture: own_opt(opt_json_str(page.get3("picture", "data", "url"))),
        username: own_opt(page.str_at("username")),
    }
}

/// The profile of a single page (no token), as the page lookup returns it.
pub fn page_profile(page: &Json) -> (r: PageInfo)
    ensures
        page_info_view(r) == page_info_spec(*page, None),
{
    page_info_with(page, None)
}

/// A page the user's token reaches, with the Instagram business account
/// linked to it, if the listing names one.
pub struct GraphPage {
    pub info: PageInfo,
    pub ig_account_id: Option<String>,
}

pub open spec fn graph_page_view(p: GraphPage) -> ((Seq<char>, Seq<char>, Option<Seq<char>>, Option<Seq<char>>, Option<Seq<char>>), Option<Seq<char>>) {
    (page_info_view(p.info), opt_str_view(p.ig_account_id))
}

/// A page of a listing: its profile with its own `access_token`, and
/// `instagram_business_account.id`.
pub open spec fn graph_page_spec(item: Json) -> ((Seq<char>, Seq<char>, Option<Seq<char>>, Option<Seq<char>>, Option<Seq<char>>), Option<Seq<char>>) {
    (
        page_info_spec(item, str_at(item, "access_token"@)),
        opt_str(json_get2(item, "instagram_business_account"@, "id"@)),
    )
}

fn graph_page(item: &Json) -> (r: GraphPage)
    ensures
        graph_page_view(r) == graph_page_spec(*item),
{
    let token = own_opt(item.str_at("access_token"));
    GraphPage {
        info: page_info_with(item, token),
        ig_account_id: own_opt(opt_json_str(item.get2("instagram_business_account", "id"))),
    }
}

/// Some collected page has this id.
pub open spec fn has_page_id(
    pages: Seq<((Seq<char>, Seq<char>, Option<Seq<char>>, Option<Seq<char>>, Option<Seq<char>>), Option<Seq<char>>)>,
    id: Seq<char>,
) -> bool {
    exists|i: int| 0 <= i < pages.len() && (#[trigger] pages[i]).0.0 == id
}

/// The pages after reading `data`: each item with a string `id` that is not
/// collected yet is added at the end; the first listing of a page wins.
pub open spec fn absorb_pages(
    pages: Seq<((Seq<char>, Seq<char>, Option<Seq<char>>, Option<Seq<char>>, Option<Seq<char>>), Option<Seq<char>>)>,
    data: Seq<Json>,
) -> Seq<((Seq<char>, Seq<char>, Option<Seq<char>>, Option<Seq<char>>, Option<Seq<char>>), Option<Seq<char>>)>
    decreases data.len(),
{
    if data.len() == 0 {
        pages
    } else {
        let p = absorb_pages(pages, data.drop_last());
        let item = data.last();
        match str_at(item, "id"@) {
            Some(id) => if has_page_id(p, id) {
                p
            } else {
                p.push(graph_page_spec(item))
            },
            None => p,
        }
    }
}

/// The pages collected from the listing endpoints, each once.
pub struct PageCollector {
    pub pages: Vec<GraphPage>,
}

impl PageCollector {
    pub open spec fn view_pages(&self) -> Seq<((Seq<char>, Seq<char>, Option<Seq<char>>, Option<Seq<char>>, Option<Seq<char>>), Option<Seq<char>>)> {
        self.pages@.map_values(|p: GraphPage| graph_page_view(p))
    }

    pub fn new() -> (r: PageCollector)
        ensures
            r.pages@.len() == 0,
    {
        PageCollector { pages: Vec::new() }
    }

    fn has_page(&self, id: &str) -> (r: bool)
        ensures
            r == has_page_id(self.view_pages(), id@),
    {
        let target = chars_of(id);
        let n = self.pages.len();
        for i in 0..n
            invariant
                n == self.pages@.len(),
                target@ == id@,
                forall|j: int| 0 <= j < i ==> (#[trigger] self.view_pages()[j]).0.0 != id@,
        {
            let pid = chars_of(self.pages[i].info.id.as_str());
            if chars_eq(&pid, &target) {
                assert(self.view_pages()[i as int].0.0 == id@);
                return true;
            }
        }
        false
    }

    /// Reads one response of a page listing. An error response is skipped
    /// and ends the listing; otherwise its `data` pages are collected and
    /// the result is the `paging.next` URL to fetch next, if any.
    pub fn absorb(&mut self, response: &Json) -> (next: Option<String>)
        ensures
            match json_get(*response, "error"@) {
                Some(Json::Object(_)) => final(self).view_pages() == old(self).view_pages() && next is None,
                _ => final(self).view_pages() == match array_at(*response, "data"@) {
                    Some(data) => absorb_pages(old(self).view_pages(), data),
                    None => old(self).view_pages(),
                } && opt_str_view(next) == opt_str(json_get2(*response, "paging"@, "next"@)),
            },
    {
        if let Some(Json::Object(_)) = response.get("error") {
            return None;
        }
        if let Some(data) = response.array_at("data") {
            let ghost start = self.view_pages();
            let n = data.len();
            for i in 0..n
                invariant
                    n == data@.len(),
                    self.view_pages() == absorb_pages(start, data@.take(i as int)),
            {
                assert(data@.take(i + 1).drop_last() =~= data@.take(i as int));
                assert(data@.take(i + 1).last() == data@[i as int]);
                let item = &data[i];
                if let Some(id) = item.str_at("id") {
                    if !self.has_page(id) {
                        let g = graph_page(item);
                        let ghost before = self.view_pages();
                        self.pages.push(g);
                        assert(self.view_pages() =~= before.push(graph_page_spec(*item)));
                    }
                }
            }
            assert(data@.take(n as int) =~= data@);
        }
        own_opt(opt_json_str(response.get2("paging", "next")))
    }
}

/// The ids of the businesses a user manages, from `/me/businesses`: none
/// when the response is an error, else each non-empty string `id` of `data`.
pub open spec fn business_ids_spec(data: Seq<Json>) -> Seq<Seq<char>>
    decreases data.len(),
{
    if data.len() == 0 {
        seq![]
    } else {
        let rest = business_ids_spec(data.drop_last());
        match str_at(data.last(), "id"@) {
            Some(id) => if id.len() > 0 {
                rest.push(id)
            } else {
                rest
            },
            None => rest,
        }
    }
}

pub open spec fn businesses_of(response: Json) -> Seq<Seq<char>> {
    if null_at(response, "error"@) {
        match array_at(response, "data"@) {
            Some(data) => business_ids_spec(data),
            None => seq![],
        }
    } else {
        seq![]
    }
}

pub fn business_ids(response: &Json) -> (r: Vec<String>)
    ensures
        r@.map_values(|s: String| s@) == businesses_of(*response),
{
    let mut out: Vec<String> = Vec::new();
    if !response.null_at("error") {
        assert(out@.map_values(|s: String| s@) =~= seq![]);
        return out;
    }
    if let Some(data) = response.array_at("data") {
        let n = data.len();
        for i in 0..n
            invariant
                n == data@.len(),
                out@.map_values(|s: String| s@) == business_ids_spec(data@.take(i as int)),
        {
            assert(data@.take(i + 1).drop_last() =~= data@.take(i as int));
            assert(data@.take(i + 1).last() == data@[i as int]);
            if let Some(id) = data[i].str_at("id") {
                proof {
                    reveal_strlit("");
                    assert(id@.len() == 0 <==> id@ =~= ""@);
                }
                if !crate::text::str_eq(id, "") {
                    let ghost before = out@;
                    out.push(id.to_owned());
                    assert(out@.map_values(|s: String| s@) =~= before.map_values(|s: String| s@).push(id@));
                }
            }
        }
        assert(data@.take(n as int) =~= data@);
    } else {
        assert(out@.map_values(|s: String| s@) =~= seq![]);
    }
    out
}

/// Pages in order of name.
pub open spec fn sorted_by_name(v: Seq<PageInfo>) -> bool {
    forall|i: int, j: int| 0 <= i < j < v.len() ==> str_le(#[trigger] v[i].name@, #[trigger] v[j].name@)
}

fn insert_position(out: &Vec<PageInfo>, name: &Vec<char>) -> (pos: usize)
    ensures
        pos <= out@.len(),
        forall|k: int| 0 <= k < pos ==> !str_lt(name@, #[trigger] out@[k].name@),
        pos < out@.len() ==> str_lt(name@, out@[pos as int].name@),
{
    let mut pos: usize = 0;
    let mut found = false;
    while pos < out.len() && !found
        invariant
            pos <= out@.len(),
            forall|k: int| 0 <= k < pos ==> !str_lt(name@, #[trigger] out@[k].name@),
            found ==> pos < out@.len() && str_lt(name@, out@[pos as int].name@),
        decreases out@.len() - pos + if found { 0int } else { 1int },
    {
        let other = chars_of(out[pos].name.as_str());
        if chars_lt(name, &other) {
            found = true;
        } else {
            pos = pos + 1;
        }
    }
    pos
}

/// The pages sorted by name (ties in any order).
pub fn sort_pages_by_name(pages: Vec<PageInfo>) -> (r: Vec<PageInfo>)
    ensures
        r@.to_multiset() == pages@.to_multiset(),
        sorted_by_name(r@),
{
    broadcast use vstd::seq_lib::group_to_multiset_ensures, vstd::multiset::group_multiset_axioms;
    let mut rest = pages;
    let mut out: Vec<PageInfo> = Vec::new();
    while rest.len() > 0
        invariant
            sorted_by_name(out@),
            out@.to_multiset().add(rest@.to_multiset()) == pages@.to_multiset(),
        decreases rest@.len(),
    {
        let ghost old_rest = rest@;
        let x = rest.pop().unwrap();
        proof {
            assert(old_rest =~= rest@.push(x));
        }
        let name = chars_of(x.name.as_str());
        let pos = insert_position(&out, &name);
        let ghost old_out = out@;
        out.insert(pos, x);
        proof {
            assert forall|i: int, j: int| 0 <= i < j < out@.len() implies str_le(
                #[trigger] out@[i].name@,
                #[trigger] out@[j].name@,
            ) by {
                if j < pos {
                    assert(out@[i] == old_out[i] && out@[j] == old_out[j]);
                } else if j == pos {
                    assert(out@[i] == old_out[i]);
                } else if i == pos {
                    assert(out@[j] == old_out[j - 1]);
                    lemma_str_lt_total(old_out[pos as int].name@, old_out[j - 1].name@);
                    if pos < j - 1 {
                        assert(str_le(old_out[pos as int].name@, old_out[j - 1].name@));
                    }
                    if str_lt(old_out[pos as int].name@, old_out[j - 1].name@) {
                        lemma_str_lt_trans(x.name@, old_out[pos as int].name@, old_out[j - 1].name@);
                    }
                    lemma_str_lt_asym(x.name@, old_out[j - 1].name@);
                } else if i < pos {
                    assert(out@[i] == old_out[i] && out@[j] == old_out[j - 1]);
                } else {
                    assert(out@[i] == old_out[i - 1] && out@[j] == old_out[j - 1]);
                }
            }
            assert(out@ == old_out.insert(pos as int, x));
            vstd::seq_lib::to_multiset_insert(old_out, pos as int, x);
            vstd::seq_lib::to_multiset_build(rest@, x);
            assert(out@.to_multiset() =~= old_out.to_multiset().insert(x));
            assert(old_rest.to_multiset() =~= rest@.to_multiset().insert(x));
            assert(out@.to_multiset().add(rest@.to_multiset()) =~= old_out.to_multiset().add(
                old_rest.to_multiset(),
            ));
        }
    }
    proof {
        assert(rest@.to_multiset() =~= vstd::multiset::Multiset::empty());
        assert(out@.to_multiset().add(rest@.to_multiset()) =~= out@.to_multiset());
    }
    out
}

impl PageCollector {
    /// The Facebook pages the listings reached, sorted by name.
    pub fn into_sorted_pages(self) -> (r: Vec<PageInfo>)
        ensures
            r@.to_multiset() == self.pages@.map_values(|p: GraphPage| p.info).to_multiset(),
            sorted_by_name(r@),
    {
        let mut infos: Vec<PageInfo> = Vec::new();
        let mut pages = self.pages;
        let ghost all = pages@;
        let n = pages.len();
        while pages.len() > 0
            invariant
                infos@.len() + pages@.len() == all.len(),
                all.take(pages@.len() as int) == pages@,
                forall|k: int| 0 <= k < infos@.len() ==> #[trigger] infos@[k] == all[all.len() - 1 - k].info,
            decreases pages@.len(),
        {
            let g = pages.pop().unwrap();
            infos.push(g.info);
            proof {
                assert(all.take(pages@.len() as int) =~= all.take(pages@.len() as int + 1).drop_last());
            }
        }
        proof {
            let mapped = all.map_values(|p: GraphPage| p.info);
            assert(infos@ =~= mapped.reverse());
            mapped.lemma_reverse_to_multiset();
        }
        sort_pages_by_name(infos)
    }
}

/// The Graph API base URL.
pub open spec fn graph_api_spec() -> Seq<char> {
    "https://graph.facebook.com/v21.0"@
}

/// The fields each provider lists pages with.
pub open spec fn listing_fields_spec(instagram: bool) -> Seq<char> {
    if instagram {
        "id,instagram_business_account,access_token,username,name,picture.type(large)"@
    } else {
        "id,access_token,username,name,picture.type(large)"@
    }
}

/// The first URL of a page listing: `{graph}/{path}?fields={fields}&limit=100`,
/// where `path` is `me/accounts` or `{business}/{owned_pages|client_pages}`.
pub open spec fn listing_url_spec(instagram: bool, path: Seq<char>) -> Seq<char> {
    graph_api_spec() + "/"@ + path + "?fields="@ + listing_fields_spec(instagram) + "&limit=100"@
}

pub fn listing_url(instagram: bool, path: &str) -> (r: String)
    ensures
        r@ == listing_url_spec(instagram, path@),
{
    let mut out: Vec<char> = Vec::new();
    push_str_chars(&mut out, "https://graph.facebook.com/v21.0");
    push_str_chars(&mut out, "/");
    push_str_chars(&mut out, path);
    push_str_chars(&mut out, "?fields=");
    if instagram {
        push_str_chars(&mut out, "id,instagram_business_account,access_token,username,name,picture.type(large)");
    } else {
        push_str_chars(&mut out, "id,access_token,username,name,picture.type(large)");
    }
    push_str_chars(&mut out, "&limit=100");
    string_from_chars(&out)
}

/// The listing paths of one business: its owned pages, then its client pages.
pub fn business_listing_paths(business_id: &str) -> (r: Vec<String>)
    ensures
        r@.len() == 2,
        r@[0]@ == business_id@ + "/owned_pages"@,
        r@[1]@ == business_id@ + "/client_pages"@,
{
    let mut a: Vec<char> = chars_of(business_id);
    push_str_chars(&mut a, "/owned_pages");
    let mut b: Vec<char> = chars_of(business_id);
    push_str_chars(&mut b, "/client_pages");
    let mut r: Vec<String> = Vec::new();
    r.push(string_from_chars(&a));
    r.push(string_from_chars(&b));
    r
}

/// `{graph}/{path}`: a Graph API URL without a query.
pub fn graph_url(path: &str) -> (r: String)
    ensures
        r@ == graph_api_spec() + "/"@ + path@,
{
    let mut out: Vec<char> = Vec::new();
    push_str_chars(&mut out, "https://graph.facebook.com/v21.0");
    push_str_chars(&mut out, "/");
    push_str_chars(&mut out, path);
    string_from_chars(&out)
}

/// The token a page's Instagram calls use: the page's own, else the user's.
pub fn page_token(page: &GraphPage, user_token: &str) -> (r: String)
    ensures
        r@ == match opt_str_view(page.info.access_token) {
            Some(t) => t,
            None => user_token@,
        },
{
    match &page.info.access_token {
        Some(t) => t.clone(),
        None => user_token.to_owned(),
    }
}

/// The Instagram business account of a page from the
/// `/{page}/instagram_business_account` lookup: its `id`, unless the lookup
/// failed.
pub open spec fn ig_lookup_spec(response: Json) -> Option<Seq<char>> {
    if null_at(response, "error"@) {
        str_at(response, "id"@)
    } else {
        None
    }
}

pub fn ig_account_from_lookup(response: &Json) -> (r: Option<String>)
    ensures
        opt_str_view(r) == ig_lookup_spec(*response),
{
    if response.null_at("error") {
        own_opt(response.str_at("id"))
    } else {
        None
    }
}

/// The name of an Instagram account: its username, else its name, else empty.
pub open spec fn ig_name_spec(details: Json) -> Seq<char> {
    match str_at(details, "username"@) {
        Some(u) => u,
        None => str_or(details, "name"@, ""@),
    }
}

/// The Instagram account as a connectable page, from its details response;
/// none when the details lookup failed.
pub fn ig_account_page(ig_id: &str, page_token: &str, details: &Json) -> (r: Option<PageInfo>)
    ensures
        match json_get(*details, "error"@) {
            Some(Json::Object(_)) => r is None,
            _ => r matches Some(p) && page_info_view(p) == (
                ig_id@,
                ig_name_spec(*details),
                Some(page_token@),
                str_at(*details, "profile_picture_url"@),
                None::<Seq<char>>,
            ),
        },
{
    if let Some(Json::Object(_)) = details.get("error") {
        return None;
    }
    let name = match details.str_at("username") {
        Some(u) => u.to_owned(),
        None => str_or_owned(details, "name", ""),
    };
    Some(
        PageInfo {
            id: ig_id.to_owned(),
            name,
            access_token: Some(page_token.to_owned()),
            picture: own_opt(details.str_at("profile_picture_url")),
            username: None,
        },
    )
}

/// No page id is listed twice.
pub open spec fn distinct_page_ids(
    pages: Seq<((Seq<char>, Seq<char>, Option<Seq<char>>, Option<Seq<char>>, Option<Seq<char>>), Option<Seq<char>>)>,
) -> bool {
    forall|i: int, j: int| 0 <= i < j < pages.len() ==> (#[trigger] pages[i]).0.0 != (#[trigger] pages[j]).0.0
}

/// Law: reading listings never lists a page twice; the collection grows
/// only at its end, so pages keep their place.
pub proof fn lemma_absorb_keeps_pages_distinct(
    pages: Seq<((Seq<char>, Seq<char>, Option<Seq<char>>, Option<Seq<char>>, Option<Seq<char>>), Option<Seq<char>>)>,
    data: Seq<Json>,
)
    requires
        distinct_page_ids(pages),
    ensures
        distinct_page_ids(absorb_pages(pages, data)),
        pages.len() <= absorb_pages(pages, data).len(),
        forall|i: int| 0 <= i < pages.len() ==> #[trigger] absorb_pages(pages, data)[i] == pages[i],
    decreases data.len(),
{
    if data.len() > 0 {
        lemma_absorb_keeps_pages_distinct(pages, data.drop_last());
        let p = absorb_pages(pages, data.drop_last());
        let item = data.last();
        if let Some(id) = str_at(item, "id"@) {
            if !has_page_id(p, id) {
                let q = p.push(graph_page_spec(item));
                assert(q.last().0.0 == id);
                assert forall|i: int, j: int| 0 <= i < j < q.len() implies (#[trigger] q[i]).0.0
                    != (#[trigger] q[j]).0.0 by {
                    if j == q.len() - 1 {
                        assert(p[i] == q[i]);
                        if q[i].0.0 == id {
                            assert(has_page_id(p, id));
                        }
                    } else {
                        assert(p[i] == q[i] && p[j] == q[j]);
                    }
                }
                assert forall|i: int| 0 <= i < pages.len() implies #[trigger] q[i] == pages[i] by {
                    assert(q[i] == p[i]);
                }
            }
        }
    }
}

/// A video format that may serve as the source: an MP4 (and embeddable,
/// when that is asked for).
pub open spec fn format_eligible(f: Json, need_embeddable: bool) -> bool {
    str_at(f, "filetype"@) == Some("mp4"@) && (!need_embeddable || match json_get(f, "embeddable"@) {
        Some(Json::Bool(b)) => b,
        _ => false,
    })
}

/// The `quality` of a format (empty when absent).
pub open spec fn format_quality(f: Json) -> Seq<char> {
    str_or(f, "quality"@, ""@)
}

/// The eligible format of highest quality (by text order; of equals, the
/// last), as `Iterator::max_by_key` picks it.
pub open spec fn best_format(formats: Seq<Json>, need_embeddable: bool) -> Option<int>
    decreases formats.len(),
{
    if formats.len() == 0 {
        None
    } else {
        let b = best_format(formats.drop_last(), need_embeddable);
        let last = formats.len() - 1;
        if !format_eligible(formats.last(), need_embeddable) {
            b
        } else {
            match b {
                None => Some(last),
                Some(i) => if str_le(format_quality(formats[i]), format_quality(formats.last())) {
                    Some(last)
                } else {
                    Some(i)
                },
            }
        }
    }
}

proof fn lemma_best_format_bounds(formats: Seq<Json>, need_embeddable: bool)
    ensures
        best_format(formats, need_embeddable) matches Some(i) ==> 0 <= i < formats.len(),
    decreases formats.len(),
{
    if formats.len() > 0 {
        lemma_best_format_bounds(formats.drop_last(), need_embeddable);
    }
}

/// The playable address of a format: `embed_url`, else `preview_url`.
pub open spec fn format_url(f: Json) -> Option<Seq<char>> {
    match str_at(f, "embed_url"@) {
        Some(u) => Some(u),
        None => str_at(f, "preview_url"@),
    }
}

/// The playable source of a video: its non-empty `source`; else the URL of
/// the best embeddable MP4 format; else that of the best MP4 format.
pub open spec fn video_source_spec(json: Json) -> Option<Seq<char>> {
    let direct = match str_at(json, "source"@) {
        Some(src) => if src.len() > 0 {
            Some(src)
        } else {
            None
        },
        None => None,
    };
    match direct {
        Some(src) => Some(src),
        None => match array_at(json, "format"@) {
            Some(fs) => {
                let first = match best_format(fs, true) {
                    Some(i) => format_url(fs[i]),
                    None => None,
                };
                match first {
                    Some(u) => Some(u),
                    None => match best_format(fs, false) {
                        Some(i) => format_url(fs[i]),
                        None => None,
                    },
                }
            },
            None => None,
        },
    }
}

fn format_eligible_exec(f: &Json, need_embeddable: bool) -> (r: bool)
    ensures
        r == format_eligible(*f, need_embeddable),
{
    proof {
        reveal_strlit("mp4");
    }
    let mp4 = match f.str_at("filetype") {
        Some(t) => crate::text::str_eq(t, "mp4"),
        None => false,
    };
    if !mp4 {
        return false;
    }
    if !need_embeddable {
        return true;
    }
    match f.get("embeddable") {
        Some(Json::Bool(b)) => *b,
        _ => false,
    }
}

fn best_format_exec(formats: &Vec<Json>, need_embeddable: bool) -> (r: Option<usize>)
    ensures
        match best_format(formats@, need_embeddable) {
            Some(i) => r matches Some(k) && k == i && i < formats@.len(),
            None => r is None,
        },
{
    let mut best: Option<usize> = None;
    let mut best_q: Vec<char> = Vec::new();
    let n = formats.len();
    for i in 0..n
        invariant
            n == formats@.len(),
            match best_format(formats@.take(i as int), need_embeddable) {
                Some(b) => best matches Some(k) && k == b && 0 <= b < i && best_q@ == format_quality(
                    formats@[b],
                ),
                None => best is None,
            },
    {
        let ghost prev = formats@.take(i as int);
        assert(formats@.take(i + 1).drop_last() =~= prev);
        assert(formats@.take(i + 1).last() == formats@[i as int]);
        proof {
            lemma_best_format_bounds(prev, need_embeddable);
            match best_format(prev, need_embeddable) {
                Some(b) => {
                    assert(prev[b] == formats@[b]);
                },
                None => {},
            }
        }
        if format_eligible_exec(&formats[i], need_embeddable) {
            let q = chars_of(str_or_owned(&formats[i], "quality", "").as_str());
            let take = match best {
                None => true,
                Some(_) => !chars_lt(&q, &best_q),
            };
            if take {
                best = Some(i);
                best_q = q;
            }
        }
    }
    assert(formats@.take(n as int) =~= formats@);
    best
}

fn format_url_exec(f: &Json) -> (r: Option<String>)
    ensures
        opt_str_view(r) == format_url(*f),
{
    match f.str_at("embed_url") {
        Some(u) => Some(u.to_owned()),
        None => own_opt(f.str_at("preview_url")),
    }
}

/// What the video lookup answered: on success the playable source (an
/// error when there is none); a 429 a rate limit; a 401 an expired token;
/// otherwise an error with the answer's `error.message`.
pub fn video_source_outcome(status: u16, json: &Json) -> (r: Result<String, crate::social::ProviderError>)
    ensures
        200 <= status <= 299 ==> match video_source_spec(*json) {
            Some(u) => r matches Ok(x) && x@ == u,
            None => r matches Err(crate::social::ProviderError::Api(m)) && m@
                == "No usable video source found in response"@,
        },
        status == 429 ==> (r matches Err(crate::social::ProviderError::RateLimited(m)) && m@
            == "Facebook API rate limit"@),
        status == 401 ==> r matches Err(crate::social::ProviderError::TokenExpired),
        !(200 <= status <= 299) && status != 429 && status != 401 ==> (r matches Err(
            crate::social::ProviderError::Api(m),
        ) && m@ == match opt_str(json_get2(*json, "error"@, "message"@)) {
            Some(x) => x,
            None => "Facebook API error"@,
        }),
{
    if 200 <= status && status <= 299 {
        if let Some(src) = json.str_at("source") {
            proof {
                reveal_strlit("");
                assert(src@.len() == 0 <==> src@ =~= ""@);
            }
            if !crate::text::str_eq(src, "") {
                return Ok(src.to_owned());
            }
        }
        if let Some(formats) = json.array_at("format") {
            proof {
                lemma_best_format_bounds(formats@, true);
                lemma_best_format_bounds(formats@, false);
            }
            if let Some(i) = best_format_exec(formats, true) {
                if let Some(u) = format_url_exec(&formats[i]) {
                    return Ok(u);
                }
            }
            if let Some(i) = best_format_exec(formats, false) {
                if let Some(u) = format_url_exec(&formats[i]) {
                    return Ok(u);
                }
            }
        }
        return Err(crate::social::ProviderError::Api("No usable video source found in response".to_owned()));
    }
    if status == 429 {
        return Err(crate::social::ProviderError::RateLimited("Facebook API rate limit".to_owned()));
    }
    if status == 401 {
        return Err(crate::social::ProviderError::TokenExpired);
    }
    let m = match json.get2("error", "message") {
        Some(v) => match v.as_str() {
            Some(x) => x.to_owned(),
            None => "Facebook API error".to_owned(),
        },
        None => "Facebook API error".to_owned(),
    };
    Err(crate::social::ProviderError::Api(m))
}

/// How the Graph API helpers read an answer's status: success passes; a
/// 429 is a rate limit with `rate_limit_text`; a 401 an expired token;
/// anything else an error with the answer's `error.message`, else
/// `error_text`.
pub fn api_status(status: u16, json: &Json, rate_limit_text: &str, error_text: &str) -> (r: Result<(), crate::social::ProviderError>)
    ensures
        200 <= status <= 299 ==> r is Ok,
        status == 429 ==> (r matches Err(crate::social::ProviderError::RateLimited(m)) && m@
            == rate_limit_text@),
        status == 401 ==> r matches Err(crate::social::ProviderError::TokenExpired),
        !(200 <= status <= 299) && status != 429 && status != 401 ==> (r matches Err(
            crate::social::ProviderError::Api(m),
        ) && m@ == match opt_str(json_get2(*json, "error"@, "message"@)) {
            Some(x) => x,
            None => error_text@,
        }),
{
    if 200 <= status && status <= 299 {
        return Ok(());
    }
    if status == 429 {
        return Err(crate::social::ProviderError::RateLimited(rate_limit_text.to_owned()));
    }
    if status == 401 {
        return Err(crate::social::ProviderError::TokenExpired);
    }
    let m = match json.get2("error", "message") {
        Some(v) => match v.as_str() {
            Some(x) => x.to_owned(),
            None => error_text.to_owned(),
        },
        None => error_text.to_owned(),
    };
    Err(crate::social::ProviderError::Api(m))
}

/// The Facebook helpers' reading of a status (see `api_status`).
pub fn graph_status(status: u16, json: &Json) -> (r: Result<(), crate::social::ProviderError>)
    ensures
        200 <= status <= 299 ==> r is Ok,
        status == 429 ==> (r matches Err(crate::social::ProviderError::RateLimited(m)) && m@
            == "Facebook API rate limit"@),
        status == 401 ==> r matches Err(crate::social::ProviderError::TokenExpired),
        !(200 <= status <= 299) && status != 429 && status != 401 ==> (r matches Err(
            crate::social::ProviderError::Api(m),
        ) && m@ == match opt_str(json_get2(*json, "error"@, "message"@)) {
            Some(x) => x,
            None => "Facebook API error"@,
        }),
{
    api_status(status, json, "Facebook API rate limit", "Facebook API error")
}

/// The Instagram helpers' reading of a status (see `api_status`).
pub fn instagram_status(status: u16, json: &Json) -> (r: Result<(), crate::social::ProviderError>)
    ensures
        200 <= status <= 299 ==> r is Ok,
        status == 429 ==> (r matches Err(crate::social::ProviderError::RateLimited(m)) && m@
            == "Instagram API rate limit"@),
        status == 401 ==> r matches Err(crate::social::ProviderError::TokenExpired),
        !(200 <= status <= 299) && status != 429 && status != 401 ==> (r matches Err(
            crate::social::ProviderError::Api(m),
        ) && m@ == match opt_str(json_get2(*json, "error"@, "message"@)) {
            Some(x) => x,
            None => "Instagram API error"@,
        }),
{
    api_status(status, json, "Instagram API rate limit", "Instagram API error")
}

/// The status of a media container: the answer's `status_code`
/// (`IN_PROGRESS` when absent), or an error with the answer's message.
pub fn container_status(json: &Json) -> (r: Result<String, crate::social::ProviderError>)
    ensures
        match json_get(*json, "error"@) {
            Some(Json::Object(e)) => r matches Err(crate::social::ProviderError::Api(m)) && m@ == str_or(
                Json::Object(e),
                "message"@,
                "Container status check failed"@,
            ),
            _ => r matches Ok(s) && s@ == str_or(*json, "status_code"@, "IN_PROGRESS"@),
        },
{
    if let Some(err) = json.get("error") {
        if let Json::Object(_) = err {
            return Err(crate::social::ProviderError::Api(str_or_owned(err, "message", "Container status check failed")));
        }
    }
    Ok(str_or_owned(json, "status_code", "IN_PROGRESS"))
}

/// A reply to a comment.
pub struct FeedReply {
    pub id: String,
    pub author_name: Option<String>,
    pub text: String,
    /// `created_time` as the API gives it.
    pub created_time: Option<String>,
}

/// A comment with its replies.
pub struct FeedComment {
    pub id: String,
    pub author_name: Option<String>,
    pub text: String,
    pub created_time: Option<String>,
    pub replies: Vec<FeedReply>,
}

/// The fields of a reply or comment: id, author, text, time.
pub open spec fn comment_fields(item: Json) -> (Seq<char>, Option<Seq<char>>, Seq<char>, Option<Seq<char>>) {
    (
        str_or(item, "id"@, ""@),
        opt_str(json_get2(item, "from"@, "name"@)),
        str_or(item, "message"@, ""@),
        str_at(item, "created_time"@),
    )
}

pub open spec fn reply_view(r: FeedReply) -> (Seq<char>, Option<Seq<char>>, Seq<char>, Option<Seq<char>>) {
    (r.id@, opt_str_view(r.author_name), r.text@, opt_str_view(r.created_time))
}

/// The replies of a comment: those of its `comments.data` that have an id.
pub open spec fn replies_spec(data: Seq<Json>) -> Seq<(Seq<char>, Option<Seq<char>>, Seq<char>, Option<Seq<char>>)>
    decreases data.len(),
{
    if data.len() == 0 {
        seq![]
    } else {
        let rest = replies_spec(data.drop_last());
        if str_at(data.last(), "id"@) is Some {
            rest.push(comment_fields(data.last()))
        } else {
            rest
        }
    }
}

fn reply_of(item: &Json) -> (r: FeedReply)
    ensures
        reply_view(r) == comment_fields(*item),
{
    let author = match item.get2("from", "name") {
        Some(v) => own_opt(v.as_str()),
        None => None,
    };
    FeedReply {
        id: str_or_owned(item, "id", ""),
        author_name: author,
        text: str_or_owned(item, "message", ""),
        created_time: own_opt(item.str_at("created_time")),
    }
}

fn replies_of(data: &Vec<Json>) -> (r: Vec<FeedReply>)
    ensures
        r@.map_values(|x: FeedReply| reply_view(x)) == replies_spec(data@),
{
    let mut out: Vec<FeedReply> = Vec::new();
    let n = data.len();
    for i in 0..n
        invariant
            n == data@.len(),
            out@.map_values(|x: FeedReply| reply_view(x)) == replies_spec(data@.take(i as int)),
    {
        assert(data@.take(i + 1).drop_last() =~= data@.take(i as int));
        assert(data@.take(i + 1).last() == data@[i as int]);
        if data[i].str_at("id").is_some() {
            let r = reply_of(&data[i]);
            let ghost before = out@;
            let ghost rv = reply_view(r);
            out.push(r);
            assert(out@.map_values(|x: FeedReply| reply_view(x)) =~= before.map_values(|x: FeedReply| reply_view(x)).push(rv));
        }
    }
    assert(data@.take(n as int) =~= data@);
    out
}

/// One comment of a comments answer, with its replies.
pub fn feed_comment(item: &Json) -> (r: FeedComment)
    ensures
        (r.id@, opt_str_view(r.author_name), r.text@, opt_str_view(r.created_time)) == comment_fields(*item),
        r.replies@.map_values(|x: FeedReply| reply_view(x)) == match json_get2(*item, "comments"@, "data"@) {
            Some(Json::Array(d)) => replies_spec(d@),
            _ => seq![],
        },
{
    let replies = match item.get2("comments", "data") {
        Some(Json::Array(d)) => replies_of(d),
        _ => {
            let v: Vec<FeedReply> = Vec::new();
            assert(v@.map_values(|x: FeedReply| reply_view(x)) =~= seq![]);
            v
        },
    };
    let author = match item.get2("from", "name") {
        Some(v) => own_opt(v.as_str()),
        None => None,
    };
    FeedComment {
        id: str_or_owned(item, "id", ""),
        author_name: author,
        text: str_or_owned(item, "message", ""),
        created_time: own_opt(item.str_at("created_time")),
        replies,
    }
}

/// An integer in decimal, with a leading `-` when negative.
pub open spec fn int_text(n: int) -> Seq<char> {
    if n < 0 {
        seq!['-'] + crate::text::decimal((-n) as nat)
    } else {
        crate::text::decimal(n as nat)
    }
}

pub(crate) fn push_i64(out: &mut Vec<char>, n: i64)
    ensures
        final(out)@ == old(out)@ + int_text(n as int),
{
    if n < 0 {
        out.push('-');
        let m: u64 = if n == i64::MIN {
            9223372036854775808u64
        } else {
            (-n) as u64
        };
        crate::text::push_decimal_u64(out, m);
        assert(out@ =~= old(out)@ + int_text(n as int));
    } else {
        crate::text::push_decimal_u64(out, n as u64);
    }
}

/// A metric series of an insights answer.
pub struct InsightSeries {
    pub label: String,
    pub points: Vec<crate::social::AnalyticsDataPoint>,
}

/// A data point: its integer `value` (0 when absent) in decimal and its
/// `end_time` (empty when absent).
pub open spec fn point_spec(v: Json) -> (Seq<char>, Seq<char>) {
    (
        int_text(
            match json_get(v, "value"@) {
                Some(x) => match crate::json::json_as_i64(x) {
                    Some(i) => i as int,
                    None => 0,
                },
                None => 0,
            },
        ),
        str_or(v, "end_time"@, ""@),
    )
}

pub open spec fn point_view(p: crate::social::AnalyticsDataPoint) -> (Seq<char>, Seq<char>) {
    (p.total@, p.date@)
}

/// A series: its `name` (`unknown` when absent) and the points of its
/// `values`.
pub open spec fn series_spec(entry: Json) -> (Seq<char>, Seq<(Seq<char>, Seq<char>)>) {
    (
        str_or(entry, "name"@, "unknown"@),
        match array_at(entry, "values"@) {
            Some(vs) => vs.map_values(|v: Json| point_spec(v)),
            None => seq![],
        },
    )
}

pub open spec fn series_view(s: InsightSeries) -> (Seq<char>, Seq<(Seq<char>, Seq<char>)>) {
    (s.label@, s.points@.map_values(|p: crate::social::AnalyticsDataPoint| point_view(p)))
}

fn point_of(v: &Json) -> (r: crate::social::AnalyticsDataPoint)
    ensures
        point_view(r) == point_spec(*v),
{
    let value: i64 = match v.get("value") {
        Some(x) => match x.as_i64() {
            Some(i) => i,
            None => 0,
        },
        None => 0,
    };
    let mut total: Vec<char> = Vec::new();
    push_i64(&mut total, value);
    assert(total@ =~= int_text(value as int));
    crate::social::AnalyticsDataPoint {
        total: string_from_chars(&total),
        date: str_or_owned(v, "end_time", ""),
    }
}

fn series_of(entry: &Json) -> (r: InsightSeries)
    ensures
        series_view(r) == series_spec(*entry),
{
    let mut points: Vec<crate::social::AnalyticsDataPoint> = Vec::new();
    match entry.array_at("values") {
        Some(vs) => {
            let n = vs.len();
            for i in 0..n
                invariant
                    n == vs@.len(),
                    points@.map_values(|p: crate::social::AnalyticsDataPoint| point_view(p)) == vs@.take(
                        i as int,
                    ).map_values(|v: Json| point_spec(v)),
            {
                let p = point_of(&vs[i]);
                let ghost before = points@;
                let ghost pv = point_view(p);
                points.push(p);
                assert(points@.map_values(|p: crate::social::AnalyticsDataPoint| point_view(p)) =~= before.map_values(
                    |p: crate::social::AnalyticsDataPoint| point_view(p),
                ).push(pv));
                assert(vs@.take(i + 1).map_values(|v: Json| point_spec(v)) =~= vs@.take(i as int).map_values(
                    |v: Json| point_spec(v),
                ).push(point_spec(vs@[i as int])));
            }
            assert(vs@.take(n as int) =~= vs@);
        },
        None => {
            assert(points@.map_values(|p: crate::social::AnalyticsDataPoint| point_view(p)) =~= seq![]);
        },
    }
    InsightSeries { label: str_or_owned(entry, "name", "unknown"), points }
}

/// The metric series of an insights answer (none without `data`).
pub fn insight_series(json: &Json) -> (r: Vec<InsightSeries>)
    ensures
        r@.map_values(|s: InsightSeries| series_view(s)) == match array_at(*json, "data"@) {
            Some(d) => d.map_values(|e: Json| series_spec(e)),
            None => seq![],
        },
{
    let mut out: Vec<InsightSeries> = Vec::new();
    match json.array_at("data") {
        Some(d) => {
            let n = d.len();
            for i in 0..n
                invariant
                    n == d@.len(),
                    out@.map_values(|s: InsightSeries| series_view(s)) == d@.take(i as int).map_values(
                        |e: Json| series_spec(e),
                    ),
            {
                let s = series_of(&d[i]);
                let ghost before = out@;
                let ghost sv = series_view(s);
                out.push(s);
                assert(out@.map_values(|s: InsightSeries| series_view(s)) =~= before.map_values(
                    |s: InsightSeries| series_view(s),
                ).push(sv));
                assert(d@.take(i + 1).map_values(|e: Json| series_spec(e)) =~= d@.take(i as int).map_values(
                    |e: Json| series_spec(e),
                ).push(series_spec(d@[i as int])));
            }
            assert(d@.take(n as int) =~= d@);
        },
        None => {
            assert(out@.map_values(|s: InsightSeries| series_view(s)) =~= seq![]);
        },
    }
    out
}

} // verus!
