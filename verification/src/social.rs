//! The shared vocabulary of social providers: tokens, media, publish
//! results, errors, and the checks that every provider applies before
//! publishing.
use vstd::prelude::*;

use crate::json::Json;
use crate::text::{
    byte_len, byte_len_of, chars_of, decimal, is_lit, push_decimal, push_str_chars, starts_with,
    str_starts_with, string_from_chars,
};

verus! {

pub struct AuthUrlResponse {
    pub url: String,
}

pub struct AuthToken {
    pub access_token: String,
    pub refresh_token: Option<String>,
    pub expires_in: Option<u32>,
    pub provider_user_id: String,
    pub name: String,
    pub username: String,
    pub picture: Option<String>,
}

pub struct MediaAttachment {
    pub url: String,
    pub mime_type: String,
    pub alt: Option<String>,
    /// Optional poster/thumbnail URL for videos
    pub poster_url: Option<String>,
}

/// The parts of a post that providers read before publishing.
pub struct PostContent {
    pub content: String,
    pub media: Vec<MediaAttachment>,
    /// Platform-specific settings of the post (title, tags, ...).
    pub settings: Json,
    /// Platform-specific post ID that this post replies to (thread parts).
    pub in_reply_to: Option<String>,
    /// Stable idempotency key of the publish attempt.
    pub idempotency_key: Option<String>,
    /// Minutes to wait before publishing this part of a thread.
    pub delay_minutes: Option<u32>,
}

pub struct PublishResult {
    pub platform_post_id: String,
    pub platform_post_url: Option<String>,
    pub status: String,
}

/// Editor type for content creation
#[derive(PartialEq, Eq, Structural)]
pub enum EditorType {
    /// No editor (serialized as `none`).
    NoEditor,
    Normal,
    Markdown,
    Html,
}

/// Page/channel info for multi-step auth (isBetweenSteps providers)
pub struct PageInfo {
    pub id: String,
    pub name: String,
    pub access_token: Option<String>,
    pub picture: Option<String>,
    pub username: Option<String>,
}

/// Result of reconnecting after re-authentication
pub struct ReconnectResult {
    pub id: String,
    pub name: String,
    pub access_token: String,
    pub picture: Option<String>,
    pub username: Option<String>,
}

pub struct AnalyticsDataPoint {
    pub total: String,
    pub date: String,
}

/// A direct-message conversation.
pub struct DmConversation {
    pub id: String,
    pub participant: String,
    pub participant_name: Option<String>,
    pub participant_avatar: Option<String>,
    pub last_message: Option<String>,
    /// When the last message was sent, in milliseconds since the epoch.
    pub last_message_at: Option<i64>,
    pub unread_count: u32,
}

/// A direct message.
pub struct DmMessage {
    pub id: String,
    pub conversation_id: String,
    pub sender: String,
    pub sender_name: Option<String>,
    pub content: String,
    pub media: Vec<MediaAttachment>,
    /// When it was sent, in milliseconds since the epoch; absent when the
    /// platform did not say (the time it was read stands in).
    pub created_at: Option<i64>,
    pub read: bool,
}

/// @mention autocomplete result
pub struct MentionResult {
    pub id: String,
    pub label: String,
    pub image: Option<String>,
    pub do_not_cache: Option<bool>,
}

/// Extra fields for provider OAuth config
pub struct CustomField {
    pub key: String,
    pub label: String,
    pub default_value: Option<String>,
    pub validation: String,
    pub field_type: CustomFieldType,
}

#[derive(PartialEq, Eq, Structural)]
pub enum CustomFieldType {
    Text,
    Password,
}

/// Errors that a provider call ends in.
pub enum ProviderError {
    Api(String),
    TokenExpired,
    RateLimited(String),
    InvalidRequest(String),
    /// A transport failure, with its description.
    Network(String),
    Auth(String),
}

/// The message that an error displays.
pub open spec fn provider_error_message(e: ProviderError) -> Seq<char> {
    match e {
        ProviderError::Api(m) => "API error: "@ + m@,
        ProviderError::TokenExpired => "Token expired"@,
        ProviderError::RateLimited(m) => "Rate limited: "@ + m@,
        ProviderError::InvalidRequest(m) => "Invalid request: "@ + m@,
        ProviderError::Network(m) => "Network error: "@ + m@,
        ProviderError::Auth(m) => "Auth error: "@ + m@,
    }
}

impl ProviderError {
    /// The message this error displays.
    pub fn message(&self) -> (r: String)
        ensures
            r@ == provider_error_message(*self),
    {
        let mut out: Vec<char> = Vec::new();
        match self {
            ProviderError::Api(m) => {
                push_str_chars(&mut out, "API error: ");
                push_str_chars(&mut out, m.as_str());
            },
            ProviderError::TokenExpired => {
                push_str_chars(&mut out, "Token expired");
            },
            ProviderError::RateLimited(m) => {
                push_str_chars(&mut out, "Rate limited: ");
                push_str_chars(&mut out, m.as_str());
            },
            ProviderError::InvalidRequest(m) => {
                push_str_chars(&mut out, "Invalid request: ");
                push_str_chars(&mut out, m.as_str());
            },
            ProviderError::Network(m) => {
                push_str_chars(&mut out, "Network error: ");
                push_str_chars(&mut out, m.as_str());
            },
            ProviderError::Auth(m) => {
                push_str_chars(&mut out, "Auth error: ");
                push_str_chars(&mut out, m.as_str());
            },
        }
        string_from_chars(&out)
    }
}

/// The default reconnect: the page's info, with a missing token as empty.
pub fn reconnect_from_page(info: PageInfo) -> (r: ReconnectResult)
    ensures
        r.id == info.id,
        r.name == info.name,
        r.access_token@ == (match info.access_token {
            Some(t) => t@,
            None => Seq::<char>::empty(),
        }),
        r.picture == info.picture,
        r.username == info.username,
{
    let access_token = match info.access_token {
        Some(t) => t,
        None => String::new(),
    };
    ReconnectResult {
        id: info.id,
        name: info.name,
        access_token,
        picture: info.picture,
        username: info.username,
    }
}

/// The default @mention form: `@` followed by the id or handle.
pub fn format_mention(id_or_handle: &str, _name: &str) -> (r: String)
    ensures
        r@ == "@"@ + id_or_handle@,
{
    let mut out: Vec<char> = Vec::new();
    push_str_chars(&mut out, "@");
    push_str_chars(&mut out, id_or_handle);
    string_from_chars(&out)
}

/// The message of a post that is longer than the provider accepts.
pub open spec fn too_long_message(len: nat, max: nat, name: Seq<char>) -> Seq<char> {
    "Content too long ("@ + decimal(len) + " chars). Maximum is "@ + decimal(max)
        + " chars for "@ + name + "."@
}

/// Content within the provider's limit passes; longer content is refused
/// with a message that gives both lengths (in bytes) and the provider's name.
pub fn validate_post(post: &PostContent, max_content_length: usize, name: &str) -> (r: Result<
    (),
    String,
>)
    requires
        byte_len(post.content@) <= usize::MAX,
    ensures
        byte_len(post.content@) <= max_content_length <==> r is Ok,
        r matches Err(m) ==> m@ == too_long_message(
            byte_len(post.content@),
            max_content_length as nat,
            name@,
        ),
{
    let v = chars_of(post.content.as_str());
    let len = byte_len_of(&v);
    if len > max_content_length {
        let mut out: Vec<char> = Vec::new();
        push_str_chars(&mut out, "Content too long (");
        push_decimal(&mut out, len);
        push_str_chars(&mut out, " chars). Maximum is ");
        push_decimal(&mut out, max_content_length);
        push_str_chars(&mut out, " chars for ");
        push_str_chars(&mut out, name);
        push_str_chars(&mut out, ".");
        return Err(string_from_chars(&out));
    }
    Ok(())
}

} // verus!

verus! {

/// Number of attachments whose MIME type starts with `prefix`.
pub open spec fn count_kind(media: Seq<MediaAttachment>, prefix: Seq<char>) -> nat
    decreases media.len(),
{
    if media.len() == 0 {
        0
    } else {
        (if starts_with(media.last().mime_type@, prefix) {
            1nat
        } else {
            0nat
        }) + count_kind(media.drop_last(), prefix)
    }
}

/// "`platform` allows max `max` `what`, got `got`".
pub open spec fn max_msg(platform: Seq<char>, what: Seq<char>, max: nat, got: nat) -> Seq<char> {
    platform + " allows max "@ + decimal(max) + " "@ + what + ", got "@ + decimal(got)
}

/// Caps on images and on all media items.
pub open spec fn cap_error(platform: Seq<char>, cap: nat, images: nat, total: nat) -> Option<
    Seq<char>,
> {
    if images > cap {
        Some(max_msg(platform, "images"@, cap, images))
    } else if total > cap {
        Some(max_msg(platform, "media items"@, cap, total))
    } else {
        None
    }
}

/// The platform-specific media rule that `images` images, `videos` videos
/// and `total` attachments break, if any.
pub open spec fn media_limit_error(id: Seq<char>, images: nat, videos: nat, total: nat) -> Option<
    Seq<char>,
> {
    if id == "instagram"@ || id == "instagram_standalone"@ || id == "instagram-standalone"@ {
        cap_error("Instagram"@, 10, images, total)
    } else if id == "x"@ {
        cap_error("X/Twitter"@, 4, images, total)
    } else if id == "linkedin"@ || id == "linkedin_page"@ || id == "linkedin-page"@ {
        cap_error("LinkedIn"@, 20, images, total)
    } else if id == "reddit"@ {
        if images > 20 {
            Some(max_msg("Reddit"@, "images"@, 20, images))
        } else if videos > 0 {
            Some("Reddit posts do not support video. Use a video link instead."@)
        } else {
            None
        }
    } else if id == "facebook"@ {
        cap_error("Facebook"@, 10, images, total)
    } else if id == "youtube"@ {
        if images > 0 && videos > 0 {
            Some("YouTube posts require video only, not images."@)
        } else if videos == 0 && images == 0 {
            Some("YouTube posts require a video attachment."@)
        } else {
            None
        }
    } else if id == "threads"@ {
        cap_error("Threads"@, 10, images, total)
    } else if id == "bluesky"@ {
        cap_error("Bluesky"@, 4, images, total)
    } else if id == "mastodon"@ {
        if total > 4 {
            Some(max_msg("Mastodon"@, "media items"@, 4, total))
        } else {
            None
        }
    } else {
        None
    }
}

fn count_media_kind(media: &Vec<MediaAttachment>, prefix: &str) -> (r: usize)
    ensures
        r == count_kind(media@, prefix@),
{
    let mut count: usize = 0;
    let n = media.len();
    for i in 0..n
        invariant
            n == media@.len(),
            count == count_kind(media@.take(i as int), prefix@),
            count <= i,
    {
        proof {
            assert(media@.take(i + 1).drop_last() =~= media@.take(i as int));
            assert(media@.take(i + 1).last() == media@[i as int]);
        }
        if str_starts_with(media[i].mime_type.as_str(), prefix) {
            count = count + 1;
        }
    }
    assert(media@.take(n as int) =~= media@);
    count
}

fn build_max_msg(platform: &str, what: &str, max: usize, got: usize) -> (r: String)
    ensures
        r@ == max_msg(platform@, what@, max as nat, got as nat),
{
    let mut out: Vec<char> = Vec::new();
    push_str_chars(&mut out, platform);
    push_str_chars(&mut out, " allows max ");
    push_decimal(&mut out, max);
    push_str_chars(&mut out, " ");
    push_str_chars(&mut out, what);
    push_str_chars(&mut out, ", got ");
    push_decimal(&mut out, got);
    string_from_chars(&out)
}

fn check_cap(platform: &str, cap: usize, images: usize, total: usize) -> (r: Result<(), String>)
    ensures
        match cap_error(platform@, cap as nat, images as nat, total as nat) {
            Some(m) => r matches Err(e) && e@ == m,
            None => r is Ok,
        },
{
    if images > cap {
        Err(build_max_msg(platform, "images", cap, images))
    } else if total > cap {
        Err(build_max_msg(platform, "media items", cap, total))
    } else {
        Ok(())
    }
}

/// Platform-specific media validation limits: counts of images, videos and
/// attachments against what each platform accepts.
pub fn validate_media_limits(identifier: &str, post: &PostContent) -> (r: Result<(), String>)
    ensures
        match media_limit_error(
            identifier@,
            count_kind(post.media@, "image/"@),
            count_kind(post.media@, "video/"@),
            post.media@.len(),
        ) {
            Some(m) => r matches Err(e) && e@ == m,
            None => r is Ok,
        },
{
    let images = count_media_kind(&post.media, "image/");
    let videos = count_media_kind(&post.media, "video/");
    let total = post.media.len();
    let id = chars_of(identifier);
    if is_lit(&id, "instagram") || is_lit(&id, "instagram_standalone") || is_lit(
        &id,
        "instagram-standalone",
    ) {
        check_cap("Instagram", 10, images, total)
    } else if is_lit(&id, "x") {
        check_cap("X/Twitter", 4, images, total)
    } else if is_lit(&id, "linkedin") || is_lit(&id, "linkedin_page") || is_lit(
        &id,
        "linkedin-page",
    ) {
        check_cap("LinkedIn", 20, images, total)
    } else if is_lit(&id, "reddit") {
        if images > 20 {
            Err(build_max_msg("Reddit", "images", 20, images))
        } else if videos > 0 {
            Err("Reddit posts do not support video. Use a video link instead.".to_owned())
        } else {
            Ok(())
        }
    } else if is_lit(&id, "facebook") {
        check_cap("Facebook", 10, images, total)
    } else if is_lit(&id, "youtube") {
        if images > 0 && videos > 0 {
            Err("YouTube posts require video only, not images.".to_owned())
        } else if videos == 0 && images == 0 {
            Err("YouTube posts require a video attachment.".to_owned())
        } else {
            Ok(())
        }
    } else if is_lit(&id, "threads") {
        check_cap("Threads", 10, images, total)
    } else if is_lit(&id, "bluesky") {
        check_cap("Bluesky", 4, images, total)
    } else if is_lit(&id, "mastodon") {
        if total > 4 {
            Err(build_max_msg("Mastodon", "media items", 4, total))
        } else {
            Ok(())
        }
    } else {
        Ok(())
    }
}

} // verus!
