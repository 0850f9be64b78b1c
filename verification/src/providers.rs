//! The social platforms: their identity, OAuth settings, limits and error
//! messages, and the OAuth authorization URLs built for them.
use vstd::prelude::*;

use crate::json::{json_as_str, json_get, Json};
use crate::social::{AuthUrlResponse, EditorType, ProviderError};
use crate::text::{
    chars_of, contains, is_lit, join, join_strings, push_str_chars, starts_with, str_contains,
    opt_str_view, str_starts_with, string_from_chars,
};

verus! {

/// The social platforms this library publishes to.
#[derive(PartialEq, Eq, Structural)]
pub enum ProviderKind {
    Bluesky,
    Calendar,
    Devto,
    Discord,
    Drive,
    Facebook,
    Farcaster,
    Github,
    Gmail,
    GoogleMyBusiness,
    Hashnode,
    Instagram,
    InstagramStandalone,
    Kick,
    Lemmy,
    Linkedin,
    LinkedinPage,
    Mastodon,
    Medium,
    Nostr,
    Pinterest,
    Reddit,
}

/// Every provider, in identifier order.
pub open spec fn all_kinds() -> Seq<ProviderKind> {
    seq![ProviderKind::Bluesky, ProviderKind::Calendar, ProviderKind::Devto, ProviderKind::Discord, ProviderKind::Drive, ProviderKind::Facebook, ProviderKind::Farcaster, ProviderKind::Github, ProviderKind::Gmail, ProviderKind::GoogleMyBusiness, ProviderKind::Hashnode, ProviderKind::Instagram, ProviderKind::InstagramStandalone, ProviderKind::Kick, ProviderKind::Lemmy, ProviderKind::Linkedin, ProviderKind::LinkedinPage, ProviderKind::Mastodon, ProviderKind::Medium, ProviderKind::Nostr, ProviderKind::Pinterest, ProviderKind::Reddit] 
}

/// Unique provider identifier (e.g., "linkedin", "bluesky").
pub open spec fn identifier_spec(k: ProviderKind) -> Seq<char> {
    match k {
        ProviderKind::Bluesky => "bluesky"@,
        ProviderKind::Calendar => "calendar"@,
        ProviderKind::Devto => "devto"@,
        ProviderKind::Discord => "discord"@,
        ProviderKind::Drive => "drive"@,
        ProviderKind::Facebook => "facebook"@,
        ProviderKind::Farcaster => "farcaster"@,
        ProviderKind::Github => "github"@,
        ProviderKind::Gmail => "gmail"@,
        ProviderKind::GoogleMyBusiness => "google_my_business"@,
        ProviderKind::Hashnode => "hashnode"@,
        ProviderKind::Instagram => "instagram"@,
        ProviderKind::InstagramStandalone => "instagram-standalone"@,
        ProviderKind::Kick => "kick"@,
        ProviderKind::Lemmy => "lemmy"@,
        ProviderKind::Linkedin => "linkedin"@,
        ProviderKind::LinkedinPage => "linkedin-page"@,
        ProviderKind::Mastodon => "mastodon"@,
        ProviderKind::Medium => "medium"@,
        ProviderKind::Nostr => "nostr"@,
        ProviderKind::Pinterest => "pinterest"@,
        ProviderKind::Reddit => "reddit"@,
    }
}

/// Human-readable provider name.
pub open spec fn name_spec(k: ProviderKind) -> Seq<char> {
    match k {
        ProviderKind::Bluesky => "Bluesky"@,
        ProviderKind::Calendar => "Google Calendar"@,
        ProviderKind::Devto => "Dev.to"@,
        ProviderKind::Discord => "Discord"@,
        ProviderKind::Drive => "Google Drive"@,
        ProviderKind::Facebook => "Facebook"@,
        ProviderKind::Farcaster => "Farcaster"@,
        ProviderKind::Github => "GitHub"@,
        ProviderKind::Gmail => "Gmail"@,
        ProviderKind::GoogleMyBusiness => "Google My Business"@,
        ProviderKind::Hashnode => "Hashnode"@,
        ProviderKind::Instagram => "Instagram"@,
        ProviderKind::InstagramStandalone => "Instagram (Standalone)"@,
        ProviderKind::Kick => "Kick"@,
        ProviderKind::Lemmy => "Lemmy"@,
        ProviderKind::Linkedin => "LinkedIn"@,
        ProviderKind::LinkedinPage => "LinkedIn Page"@,
        ProviderKind::Mastodon => "Mastodon"@,
        ProviderKind::Medium => "Medium"@,
        ProviderKind::Nostr => "Nostr"@,
        ProviderKind::Pinterest => "Pinterest"@,
        ProviderKind::Reddit => "Reddit"@,
    }
}

/// Max content length (in bytes) of a post.
pub open spec fn max_content_length_spec(k: ProviderKind) -> nat {
    match k {
        ProviderKind::Bluesky => 300,
        ProviderKind::Calendar => 0,
        ProviderKind::Devto => 800000,
        ProviderKind::Discord => 1980,
        ProviderKind::Drive => 0,
        ProviderKind::Facebook => 63206,
        ProviderKind::Farcaster => 320,
        ProviderKind::Github => 0,
        ProviderKind::Gmail => 0,
        ProviderKind::GoogleMyBusiness => 3000,
        ProviderKind::Hashnode => 100000,
        ProviderKind::Instagram => 2200,
        ProviderKind::InstagramStandalone => 2200,
        ProviderKind::Kick => 500,
        ProviderKind::Lemmy => 50000,
        ProviderKind::Linkedin => 3000,
        ProviderKind::LinkedinPage => 3000,
        ProviderKind::Mastodon => 500,
        ProviderKind::Medium => 15000,
        ProviderKind::Nostr => 50000,
        ProviderKind::Pinterest => 500,
        ProviderKind::Reddit => 10000,
    }
}

/// OAuth2 scopes required for this provider.
pub open spec fn scopes_spec(k: ProviderKind) -> Seq<Seq<char>> {
    match k {
        ProviderKind::Bluesky => seq![],
        ProviderKind::Calendar => seq!["https://www.googleapis.com/auth/calendar.readonly"@, "https://www.googleapis.com/auth/calendar.events"@],
        ProviderKind::Devto => seq![],
        ProviderKind::Discord => seq!["identify"@, "guilds"@],
        ProviderKind::Drive => seq!["https://www.googleapis.com/auth/drive.readonly"@, "https://www.googleapis.com/auth/drive.file"@, "https://www.googleapis.com/auth/drive.metadata.readonly"@],
        ProviderKind::Facebook => seq!["pages_show_list"@, "pages_read_engagement"@, "pages_manage_posts"@, "business_management"@, "pages_manage_engagement"@, "pages_manage_metadata"@, "pages_read_user_content"@, "public_profile"@, "read_insights"@, "pages_messaging"@],
        ProviderKind::Farcaster => seq![],
        ProviderKind::Github => seq![],
        ProviderKind::Gmail => seq!["https://www.googleapis.com/auth/gmail.readonly"@, "https://www.googleapis.com/auth/gmail.send"@, "https://www.googleapis.com/auth/gmail.labels"@, "https://www.googleapis.com/auth/gmail.modify"@],
        ProviderKind::GoogleMyBusiness => seq!["https://www.googleapis.com/auth/business.manage"@],
        ProviderKind::Hashnode => seq!["write:posts"@],
        ProviderKind::Instagram => seq!["instagram_basic"@, "instagram_content_publish"@, "instagram_manage_comments"@, "instagram_manage_insights"@, "instagram_manage_messages"@, "pages_show_list"@, "pages_read_engagement"@, "business_management"@, "pages_manage_engagement"@, "pages_manage_metadata"@, "pages_read_user_content"@, "read_insights"@, "pages_messaging"@],
        ProviderKind::InstagramStandalone => seq!["instagram_business_basic"@, "instagram_business_content_publish"@, "instagram_business_manage_comments"@, "instagram_business_manage_insights"@],
        ProviderKind::Kick => seq!["user:read"@, "channel:post"@],
        ProviderKind::Lemmy => seq![],
        ProviderKind::Linkedin => seq!["openid"@, "profile"@, "email"@, "w_member_social"@],
        ProviderKind::LinkedinPage => seq!["openid"@, "profile"@, "email"@, "w_member_social"@, "rw_organization_admin"@, "w_organization_social"@, "r_organization_social"@],
        ProviderKind::Mastodon => seq!["read"@, "write"@, "follow"@, "push"@],
        ProviderKind::Medium => seq![],
        ProviderKind::Nostr => seq![],
        ProviderKind::Pinterest => seq!["boards:read"@, "boards:write"@, "pins:read"@, "pins:write"@, "user_accounts:read"@],
        ProviderKind::Reddit => seq!["read"@, "identity"@, "submit"@],
    }
}

/// Whether the provider connects through OAuth (others take an API key or app password).
pub open spec fn uses_oauth_spec(k: ProviderKind) -> bool {
    k == ProviderKind::Calendar || k == ProviderKind::Discord || k == ProviderKind::Drive || k == ProviderKind::Facebook || k == ProviderKind::Gmail || k == ProviderKind::GoogleMyBusiness || k == ProviderKind::Instagram || k == ProviderKind::InstagramStandalone || k == ProviderKind::Kick || k == ProviderKind::Linkedin || k == ProviderKind::LinkedinPage || k == ProviderKind::Mastodon || k == ProviderKind::Pinterest
}

/// Whether connecting needs a page-selection step after OAuth.
pub open spec fn is_between_steps_spec(k: ProviderKind) -> bool {
    k == ProviderKind::Facebook || k == ProviderKind::Instagram || k == ProviderKind::LinkedinPage
}

/// Whether tokens are refreshed proactively by a periodic task.
pub open spec fn needs_cron_refresh_spec(k: ProviderKind) -> bool {
    k == ProviderKind::Calendar || k == ProviderKind::Drive || k == ProviderKind::Gmail || k == ProviderKind::InstagramStandalone || k == ProviderKind::Linkedin
}

/// Whether publishing waits for a token refresh to propagate.
pub open spec fn refresh_wait_spec(k: ProviderKind) -> bool {
    k == ProviderKind::Linkedin
}

/// Editor type for content creation.
pub open spec fn editor_type_spec(k: ProviderKind) -> EditorType {
    if k == ProviderKind::Devto || k == ProviderKind::Discord || k == ProviderKind::Medium {
        EditorType::Markdown
    } else {
        EditorType::Normal
    }
}

/// Tooltip shown in the UI.
pub open spec fn tooltip_spec(k: ProviderKind) -> Option<Seq<char>> {
    match k {
        ProviderKind::Farcaster => Some("Connect your Farcaster wallet. Uses Neynar API for publishing."@),
        ProviderKind::InstagramStandalone => Some("Connect a personal Instagram account (no Facebook Page required)"@),
        ProviderKind::Lemmy => Some("Uses API key authentication. Provide your Lemmy instance URL and API key."@),
        ProviderKind::LinkedinPage => Some("Post to a LinkedIn Company Page you administer"@),
        ProviderKind::Nostr => Some("Connect your Nostr npub. Publishing uses a configured Nostr key."@),
        _ => None,
    }
}

impl ProviderKind {
    pub fn identifier(&self) -> (r: &'static str)
        ensures
            r@ == identifier_spec(*self),
    {
        match self {
            ProviderKind::Bluesky => "bluesky",
            ProviderKind::Calendar => "calendar",
            ProviderKind::Devto => "devto",
            ProviderKind::Discord => "discord",
            ProviderKind::Drive => "drive",
            ProviderKind::Facebook => "facebook",
            ProviderKind::Farcaster => "farcaster",
            ProviderKind::Github => "github",
            ProviderKind::Gmail => "gmail",
            ProviderKind::GoogleMyBusiness => "google_my_business",
            ProviderKind::Hashnode => "hashnode",
            ProviderKind::Instagram => "instagram",
            ProviderKind::InstagramStandalone => "instagram-standalone",
            ProviderKind::Kick => "kick",
            ProviderKind::Lemmy => "lemmy",
            ProviderKind::Linkedin => "linkedin",
            ProviderKind::LinkedinPage => "linkedin-page",
            ProviderKind::Mastodon => "mastodon",
            ProviderKind::Medium => "medium",
            ProviderKind::Nostr => "nostr",
            ProviderKind::Pinterest => "pinterest",
            ProviderKind::Reddit => "reddit",
        }
    }

    pub fn name(&self) -> (r: &'static str)
        ensures
            r@ == name_spec(*self),
    {
        match self {
            ProviderKind::Bluesky => "Bluesky",
            ProviderKind::Calendar => "Google Calendar",
            ProviderKind::Devto => "Dev.to",
            ProviderKind::Discord => "Discord",
            ProviderKind::Drive => "Google Drive",
            ProviderKind::Facebook => "Facebook",
            ProviderKind::Farcaster => "Farcaster",
            ProviderKind::Github => "GitHub",
            ProviderKind::Gmail => "Gmail",
            ProviderKind::GoogleMyBusiness => "Google My Business",
            ProviderKind::Hashnode => "Hashnode",
            ProviderKind::Instagram => "Instagram",
            ProviderKind::InstagramStandalone => "Instagram (Standalone)",
            ProviderKind::Kick => "Kick",
            ProviderKind::Lemmy => "Lemmy",
            ProviderKind::Linkedin => "LinkedIn",
            ProviderKind::LinkedinPage => "LinkedIn Page",
            ProviderKind::Mastodon => "Mastodon",
            ProviderKind::Medium => "Medium",
            ProviderKind::Nostr => "Nostr",
            ProviderKind::Pinterest => "Pinterest",
            ProviderKind::Reddit => "Reddit",
        }
    }

    pub fn max_content_length(&self) -> (r: usize)
        ensures
            r == max_content_length_spec(*self),
    {
        match self {
            ProviderKind::Bluesky => 300,
            ProviderKind::Calendar => 0,
            ProviderKind::Devto => 800000,
            ProviderKind::Discord => 1980,
            ProviderKind::Drive => 0,
            ProviderKind::Facebook => 63206,
            ProviderKind::Farcaster => 320,
            ProviderKind::Github => 0,
            ProviderKind::Gmail => 0,
            ProviderKind::GoogleMyBusiness => 3000,
            ProviderKind::Hashnode => 100000,
            ProviderKind::Instagram => 2200,
            ProviderKind::InstagramStandalone => 2200,
            ProviderKind::Kick => 500,
            ProviderKind::Lemmy => 50000,
            ProviderKind::Linkedin => 3000,
            ProviderKind::LinkedinPage => 3000,
            ProviderKind::Mastodon => 500,
            ProviderKind::Medium => 15000,
            ProviderKind::Nostr => 50000,
            ProviderKind::Pinterest => 500,
            ProviderKind::Reddit => 10000,
        }
    }

    pub fn scopes(&self) -> (r: Vec<String>)
        ensures
            r@.len() == scopes_spec(*self).len(),
            forall|i: int| 0 <= i < r@.len() ==> (#[trigger] r@[i])@ == scopes_spec(*self)[i],
    {
        let mut v: Vec<String> = Vec::new();
        match self {
            ProviderKind::Bluesky => {
            },
            ProviderKind::Calendar => {
                v.push("https://www.googleapis.com/auth/calendar.readonly".to_owned());
                v.push("https://www.googleapis.com/auth/calendar.events".to_owned());
            },
            ProviderKind::Devto => {
            },
            ProviderKind::Discord => {
                v.push("identify".to_owned());
                v.push("guilds".to_owned());
            },
            ProviderKind::Drive => {
                v.push("https://www.googleapis.com/auth/drive.readonly".to_owned());
                v.push("https://www.googleapis.com/auth/drive.file".to_owned());
                v.push("https://www.googleapis.com/auth/drive.metadata.readonly".to_owned());
            },
            ProviderKind::Facebook => {
                v.push("pages_show_list".to_owned());
                v.push("pages_read_engagement".to_owned());
                v.push("pages_manage_posts".to_owned());
                v.push("business_management".to_owned());
                v.push("pages_manage_engagement".to_owned());
                v.push("pages_manage_metadata".to_owned());
                v.push("pages_read_user_content".to_owned());
                v.push("public_profile".to_owned());
                v.push("read_insights".to_owned());
                v.push("pages_messaging".to_owned());
            },
            ProviderKind::Farcaster => {
            },
            ProviderKind::Github => {
            },
            ProviderKind::Gmail => {
                v.push("https://www.googleapis.com/auth/gmail.readonly".to_owned());
                v.push("https://www.googleapis.com/auth/gmail.send".to_owned());
                v.push("https://www.googleapis.com/auth/gmail.labels".to_owned());
                v.push("https://www.googleapis.com/auth/gmail.modify".to_owned());
            },
            ProviderKind::GoogleMyBusiness => {
                v.push("https://www.googleapis.com/auth/business.manage".to_owned());
            },
            ProviderKind::Hashnode => {
                v.push("write:posts".to_owned());
            },
            ProviderKind::Instagram => {
                v.push("instagram_basic".to_owned());
                v.push("instagram_content_publish".to_owned());
                v.push("instagram_manage_comments".to_owned());
                v.push("instagram_manage_insights".to_owned());
                v.push("instagram_manage_messages".to_owned());
                v.push("pages_show_list".to_owned());
                v.push("pages_read_engagement".to_owned());
                v.push("business_management".to_owned());
                v.push("pages_manage_engagement".to_owned());
                v.push("pages_manage_metadata".to_owned());
                v.push("pages_read_user_content".to_owned());
                v.push("read_insights".to_owned());
                v.push("pages_messaging".to_owned());
            },
            ProviderKind::InstagramStandalone => {
                v.push("instagram_business_basic".to_owned());
                v.push("instagram_business_content_publish".to_owned());
                v.push("instagram_business_manage_comments".to_owned());
                v.push("instagram_business_manage_insights".to_owned());
            },
            ProviderKind::Kick => {
                v.push("user:read".to_owned());
                v.push("channel:post".to_owned());
            },
            ProviderKind::Lemmy => {
            },
            ProviderKind::Linkedin => {
                v.push("openid".to_owned());
                v.push("profile".to_owned());
                v.push("email".to_owned());
                v.push("w_member_social".to_owned());
            },
            ProviderKind::LinkedinPage => {
                v.push("openid".to_owned());
                v.push("profile".to_owned());
                v.push("email".to_owned());
                v.push("w_member_social".to_owned());
                v.push("rw_organization_admin".to_owned());
                v.push("w_organization_social".to_owned());
                v.push("r_organization_social".to_owned());
            },
            ProviderKind::Mastodon => {
                v.push("read".to_owned());
                v.push("write".to_owned());
                v.push("follow".to_owned());
                v.push("push".to_owned());
            },
            ProviderKind::Medium => {
            },
            ProviderKind::Nostr => {
            },
            ProviderKind::Pinterest => {
                v.push("boards:read".to_owned());
                v.push("boards:write".to_owned());
                v.push("pins:read".to_owned());
                v.push("pins:write".to_owned());
                v.push("user_accounts:read".to_owned());
            },
            ProviderKind::Reddit => {
                v.push("read".to_owned());
                v.push("identity".to_owned());
                v.push("submit".to_owned());
            },
        }
        proof {
            assert(v@.len() == scopes_spec(*self).len());
        }
        v
    }

    pub fn uses_oauth(&self) -> (r: bool)
        ensures
            r == uses_oauth_spec(*self),
    {
        match self {
            ProviderKind::Calendar => true,
            ProviderKind::Discord => true,
            ProviderKind::Drive => true,
            ProviderKind::Facebook => true,
            ProviderKind::Gmail => true,
            ProviderKind::GoogleMyBusiness => true,
            ProviderKind::Instagram => true,
            ProviderKind::InstagramStandalone => true,
            ProviderKind::Kick => true,
            ProviderKind::Linkedin => true,
            ProviderKind::LinkedinPage => true,
            ProviderKind::Mastodon => true,
            ProviderKind::Pinterest => true,
            _ => false,
        }
    }

    pub fn is_between_steps(&self) -> (r: bool)
        ensures
            r == is_between_steps_spec(*self),
    {
        match self {
            ProviderKind::Facebook => true,
            ProviderKind::Instagram => true,
            ProviderKind::LinkedinPage => true,
            _ => false,
        }
    }

    pub fn needs_cron_refresh(&self) -> (r: bool)
        ensures
            r == needs_cron_refresh_spec(*self),
    {
        match self {
            ProviderKind::Calendar => true,
            ProviderKind::Drive => true,
            ProviderKind::Gmail => true,
            ProviderKind::InstagramStandalone => true,
            ProviderKind::Linkedin => true,
            _ => false,
        }
    }

    pub fn refresh_wait(&self) -> (r: bool)
        ensures
            r == refresh_wait_spec(*self),
    {
        match self {
            ProviderKind::Linkedin => true,
            _ => false,
        }
    }

    pub fn editor_type(&self) -> (r: EditorType)
        ensures
            r == editor_type_spec(*self),
    {
        match self {
            ProviderKind::Devto => EditorType::Markdown,
            ProviderKind::Discord => EditorType::Markdown,
            ProviderKind::Medium => EditorType::Markdown,
            _ => EditorType::Normal,
        }
    }

    pub fn tooltip(&self) -> (r: Option<&'static str>)
        ensures
            match tooltip_spec(*self) {
                Some(t) => r matches Some(s) && s@ == t,
                None => r is None,
            },
    {
        match self {
            ProviderKind::Farcaster => Some("Connect your Farcaster wallet. Uses Neynar API for publishing."),
            ProviderKind::InstagramStandalone => Some("Connect a personal Instagram account (no Facebook Page required)"),
            ProviderKind::Lemmy => Some("Uses API key authentication. Provide your Lemmy instance URL and API key."),
            ProviderKind::LinkedinPage => Some("Post to a LinkedIn Company Page you administer"),
            ProviderKind::Nostr => Some("Connect your Nostr npub. Publishing uses a configured Nostr key."),
            _ => None,
        }
    }

    /// The provider with the given identifier.
    pub fn from_identifier(id: &str) -> (r: Option<ProviderKind>)
        ensures
            match r {
                Some(k) => identifier_spec(k) == id@,
                None => forall|i: int| 0 <= i < all_kinds().len() ==> identifier_spec(#[trigger] all_kinds()[i]) != id@,
            },
    {
        let v = chars_of(id);
        if is_lit(&v, "bluesky") {
            return Some(ProviderKind::Bluesky);
        }
        if is_lit(&v, "calendar") {
            return Some(ProviderKind::Calendar);
        }
        if is_lit(&v, "devto") {
            return Some(ProviderKind::Devto);
        }
        if is_lit(&v, "discord") {
            return Some(ProviderKind::Discord);
        }
        if is_lit(&v, "drive") {
            return Some(ProviderKind::Drive);
        }
        if is_lit(&v, "facebook") {
            return Some(ProviderKind::Facebook);
        }
        if is_lit(&v, "farcaster") {
            return Some(ProviderKind::Farcaster);
        }
        if is_lit(&v, "github") {
            return Some(ProviderKind::Github);
        }
        if is_lit(&v, "gmail") {
            return Some(ProviderKind::Gmail);
        }
        if is_lit(&v, "google_my_business") {
            return Some(ProviderKind::GoogleMyBusiness);
        }
        if is_lit(&v, "hashnode") {
            return Some(ProviderKind::Hashnode);
        }
        if is_lit(&v, "instagram") {
            return Some(ProviderKind::Instagram);
        }
        if is_lit(&v, "instagram-standalone") {
            return Some(ProviderKind::InstagramStandalone);
        }
        if is_lit(&v, "kick") {
            return Some(ProviderKind::Kick);
        }
        if is_lit(&v, "lemmy") {
            return Some(ProviderKind::Lemmy);
        }
        if is_lit(&v, "linkedin") {
            return Some(ProviderKind::Linkedin);
        }
        if is_lit(&v, "linkedin-page") {
            return Some(ProviderKind::LinkedinPage);
        }
        if is_lit(&v, "mastodon") {
            return Some(ProviderKind::Mastodon);
        }
        if is_lit(&v, "medium") {
            return Some(ProviderKind::Medium);
        }
        if is_lit(&v, "nostr") {
            return Some(ProviderKind::Nostr);
        }
        if is_lit(&v, "pinterest") {
            return Some(ProviderKind::Pinterest);
        }
        if is_lit(&v, "reddit") {
            return Some(ProviderKind::Reddit);
        }
        None
    }
}

} // verus!

verus! {

/// The URL that `url::Url::parse_with_params` builds from `base` and the
/// query pairs (its string form), or the message of its parse error.
pub uninterp spec fn url_with_query(base: Seq<char>, params: Seq<(Seq<char>, Seq<char>)>) -> Result<Seq<char>, Seq<char>>;

/// The views of a list of query pairs.
pub open spec fn pairs_view(p: Seq<(String, String)>) -> Seq<(Seq<char>, Seq<char>)> {
    p.map_values(|q: (String, String)| (q.0@, q.1@))
}

/// A result with both sides as text.
pub open spec fn text_result_view(r: Result<String, String>) -> Result<Seq<char>, Seq<char>> {
    match r {
        Ok(u) => Ok(u@),
        Err(e) => Err(e@),
    }
}

/// Trusted: calls `url::Url::parse_with_params`, which parses `base` and
/// appends the pairs as a percent-encoded query; the contract only names
/// the result (as a function of the base and the pairs).
#[verifier::external_body]
fn parse_with_params(base: &str, params: &Vec<(String, String)>) -> (r: Result<String, String>)
    ensures
        url_with_query(base@, pairs_view(params@)) == text_result_view(r),
{
    match url::Url::parse_with_params(base, params.iter().map(|p| (p.0.as_str(), p.1.as_str()))) {
        Ok(u) => Ok(u.to_string()),
        Err(e) => Err(e.to_string()),
    }
}

/// Instagram requires an https redirect: plain-http redirects go through a
/// redirect service.
pub open spec fn ensure_https_redirect_uri_spec(uri: Seq<char>) -> Seq<char> {
    if starts_with(uri, "http://"@) {
        "https://redirectmeto.com/"@ + uri
    } else {
        uri
    }
}

pub fn ensure_https_redirect_uri(uri: &str) -> (r: String)
    ensures
        r@ == ensure_https_redirect_uri_spec(uri@),
{
    if str_starts_with(uri, "http://") {
        let mut out: Vec<char> = Vec::new();
        push_str_chars(&mut out, "https://redirectmeto.com/");
        push_str_chars(&mut out, uri);
        string_from_chars(&out)
    } else {
        uri.to_owned()
    }
}

/// The `instance` base without trailing slashes, with `https://` added when
/// no scheme is given, followed by `path` (Mastodon's API URLs).
pub open spec fn mastodon_api_url_spec(instance: Seq<char>, path: Seq<char>) -> Seq<char> {
    let base = trim_end_slashes(instance);
    if starts_with(base, "http://"@) || starts_with(base, "https://"@) {
        base + path
    } else {
        "https://"@ + base + path
    }
}

/// `s` without trailing `/` characters (`trim_end_matches('/')`).
pub open spec fn trim_end_slashes(s: Seq<char>) -> Seq<char>
    decreases s.len(),
{
    if s.len() > 0 && s.last() == '/' {
        trim_end_slashes(s.drop_last())
    } else {
        s
    }
}

/// `s` without trailing `/` characters.
pub fn trim_end_slashes_exec(s: &str) -> (r: String)
    ensures
        r@ == trim_end_slashes(s@),
{
    let v = chars_of(s);
    let mut end = v.len();
    assert(v@.take(end as int) =~= v@);
    while end > 0 && v[end - 1] == '/'
        invariant
            end <= v@.len(),
            trim_end_slashes(v@.take(end as int)) == trim_end_slashes(v@),
        decreases end,
    {
        assert(v@.take(end as int).drop_last() =~= v@.take(end - 1));
        end = end - 1;
    }
    assert(v@.take(end as int) =~= v@.subrange(0, end as int));
    let mut out: Vec<char> = Vec::new();
    let mut i: usize = 0;
    while i < end
        invariant
            i <= end <= v@.len(),
            out@ == v@.take(i as int),
        decreases end - i,
    {
        out.push(v[i]);
        i = i + 1;
        assert(out@ =~= v@.take(i as int));
    }
    assert(end == 0 || v@.take(end as int).last() != '/');
    string_from_chars(&out)
}

pub fn mastodon_api_url(instance: &str, path: &str) -> (r: String)
    ensures
        r@ == mastodon_api_url_spec(instance@, path@),
{
    let base = trim_end_slashes_exec(instance);
    let mut out: Vec<char> = Vec::new();
    if !(str_starts_with(base.as_str(), "http://") || str_starts_with(base.as_str(), "https://")) {
        push_str_chars(&mut out, "https://");
    }
    push_str_chars(&mut out, base.as_str());
    push_str_chars(&mut out, path);
    string_from_chars(&out)
}

/// What the authorization request of a provider is: the base URL and the
/// query pairs, or, for providers that do not use OAuth, the explanation.
pub open spec fn auth_query(
    k: ProviderKind,
    client_id: Seq<char>,
    state: Seq<char>,
    redirect_uri: Seq<char>,
    instance: Seq<char>,
) -> Result<(Seq<char>, Seq<(Seq<char>, Seq<char>)>), Seq<char>> {
    match k {
        ProviderKind::Calendar => Ok(("https://accounts.google.com/o/oauth2/v2/auth"@, seq![("response_type"@, "code"@), ("client_id"@, client_id), ("redirect_uri"@, redirect_uri), ("scope"@, join(scopes_spec(k), " "@)), ("state"@, state), ("access_type"@, "offline"@), ("prompt"@, "consent"@)])),
        ProviderKind::Drive => Ok(("https://accounts.google.com/o/oauth2/v2/auth"@, seq![("response_type"@, "code"@), ("client_id"@, client_id), ("redirect_uri"@, redirect_uri), ("scope"@, join(scopes_spec(k), " "@)), ("state"@, state), ("access_type"@, "offline"@), ("prompt"@, "consent"@)])),
        ProviderKind::Gmail => Ok(("https://accounts.google.com/o/oauth2/v2/auth"@, seq![("response_type"@, "code"@), ("client_id"@, client_id), ("redirect_uri"@, redirect_uri), ("scope"@, join(scopes_spec(k), " "@)), ("state"@, state), ("access_type"@, "offline"@), ("prompt"@, "consent"@)])),
        ProviderKind::GoogleMyBusiness => Ok(("https://accounts.google.com/o/oauth2/v2/auth"@, seq![("response_type"@, "code"@), ("client_id"@, client_id), ("redirect_uri"@, redirect_uri), ("scope"@, join(scopes_spec(k), " "@)), ("state"@, state), ("access_type"@, "offline"@), ("prompt"@, "consent"@)])),
        ProviderKind::Discord => Ok(("https://discord.com/oauth2/authorize"@, seq![("response_type"@, "code"@), ("client_id"@, client_id), ("redirect_uri"@, redirect_uri), ("scope"@, "identify guilds bot"@), ("state"@, state), ("permissions"@, "377957124096"@), ("integration_type"@, "0"@)])),
        ProviderKind::Facebook => Ok(("https://www.facebook.com/v21.0/dialog/oauth"@, seq![("client_id"@, client_id), ("redirect_uri"@, redirect_uri), ("scope"@, join(scopes_spec(k), ","@)), ("state"@, state), ("response_type"@, "code"@)])),
        ProviderKind::Instagram => Ok(("https://www.facebook.com/v21.0/dialog/oauth"@, seq![("client_id"@, client_id), ("redirect_uri"@, redirect_uri), ("scope"@, join(scopes_spec(k), ","@)), ("state"@, state), ("response_type"@, "code"@)])),
        ProviderKind::InstagramStandalone => Ok(("https://www.instagram.com/oauth/authorize"@, seq![("enable_fb_login"@, "0"@), ("client_id"@, client_id), ("redirect_uri"@, ensure_https_redirect_uri_spec(redirect_uri)), ("response_type"@, "code"@), ("state"@, state), ("scope"@, join(scopes_spec(k), ","@))])),
        ProviderKind::Kick => Ok(("https://id.kick.com/oauth/authorize"@, seq![("client_id"@, client_id), ("scope"@, join(scopes_spec(k), " "@)), ("redirect_uri"@, redirect_uri), ("state"@, state), ("response_type"@, "code"@)])),
        ProviderKind::Linkedin => Ok(("https://www.linkedin.com/oauth/v2/authorization"@, seq![("response_type"@, "code"@), ("client_id"@, client_id), ("redirect_uri"@, redirect_uri), ("scope"@, join(scopes_spec(k), " "@)), ("state"@, state)])),
        ProviderKind::LinkedinPage => Ok(("https://www.linkedin.com/oauth/v2/authorization"@, seq![("response_type"@, "code"@), ("client_id"@, client_id), ("redirect_uri"@, redirect_uri), ("scope"@, join(scopes_spec(k), " "@)), ("state"@, state)])),
        ProviderKind::Mastodon => Ok((mastodon_api_url_spec(instance, "/oauth/authorize"@), seq![("client_id"@, client_id), ("redirect_uri"@, redirect_uri), ("response_type"@, "code"@), ("scope"@, join(scopes_spec(k), " "@)), ("state"@, state)])),
        ProviderKind::Pinterest => Ok(("https://www.pinterest.com/oauth/"@, seq![("client_id"@, client_id), ("redirect_uri"@, redirect_uri), ("response_type"@, "code"@), ("scope"@, "boards:read,boards:write,pins:read,pins:write,user_accounts:read"@), ("state"@, state)])),
        ProviderKind::Bluesky => Err("Bluesky uses app passwords instead of OAuth. The agent will guide you through setting BLUESKY_HANDLE and BLUESKY_APP_PASSWORD in your .env file."@),
        ProviderKind::Devto => Err("Dev.to uses an API key instead of OAuth. Set DEVTO_API_KEY in your .env file."@),
        ProviderKind::Farcaster => Err("Farcaster uses Web3 wallet authentication instead of OAuth. Provide your wallet address or signer UUID directly."@),
        ProviderKind::Github => Err("GitHub uses Personal Access Tokens (PAT) instead of OAuth. Set GITHUB_TOKEN in your .env file."@),
        ProviderKind::Hashnode => Err("Hashnode uses an API key instead of OAuth. Set HASHNODE_API_KEY in your .env file."@),
        ProviderKind::Lemmy => Err("Lemmy uses API key authentication. Provide your instance URL and API key directly."@),
        ProviderKind::Medium => Err("Medium uses a personal access token instead of OAuth. Set MEDIUM_ACCESS_TOKEN in your .env file."@),
        ProviderKind::Nostr => Err("Nostr uses npub authentication instead of OAuth. Provide your npub directly."@),
        ProviderKind::Reddit => Err("Reddit uses password grant, not OAuth. Set REDDIT_USERNAME + REDDIT_PASSWORD in .env"@),
    }
}

/// Whether a provider refuses to build an authorization URL, and why, does
/// not depend on the state.
pub proof fn lemma_auth_query_refusal(
    k: ProviderKind,
    client_id: Seq<char>,
    s1: Seq<char>,
    s2: Seq<char>,
    redirect_uri: Seq<char>,
    instance: Seq<char>,
)
    ensures
        auth_query(k, client_id, s1, redirect_uri, instance) is Err <==> auth_query(k, client_id, s2, redirect_uri, instance) is Err,
        auth_query(k, client_id, s1, redirect_uri, instance) matches Err(m) ==> (auth_query(k, client_id, s2, redirect_uri, instance) matches Err(m2) && m2 == m),
{
}

/// A Google provider: Calendar, Drive, Gmail or Business Profile.
pub open spec fn is_google(k: ProviderKind) -> bool {
    k == ProviderKind::Calendar || k == ProviderKind::Drive || k == ProviderKind::Gmail
        || k == ProviderKind::GoogleMyBusiness
}

/// The query holds `(key, value)`, and `key` with no other value.
pub open spec fn query_sets(q: Seq<(Seq<char>, Seq<char>)>, key: Seq<char>, value: Seq<char>) -> bool {
    &&& q.contains((key, value))
    &&& forall|i: int| 0 <= i < q.len() && (#[trigger] q[i]).0 == key ==> q[i].1 == value
}

/// Law: a Google authorization asks for offline access with the consent
/// prompt, so that Google grants a refresh token; it carries the client id,
/// redirect URI and state that it was given.
pub proof fn lemma_google_offline_access(
    k: ProviderKind,
    client_id: Seq<char>,
    state: Seq<char>,
    redirect_uri: Seq<char>,
    instance: Seq<char>,
)
    requires
        is_google(k),
    ensures
        auth_query(k, client_id, state, redirect_uri, instance) matches Ok((base, q)) && {
            &&& base == "https://accounts.google.com/o/oauth2/v2/auth"@
            &&& query_sets(q, "access_type"@, "offline"@)
            &&& query_sets(q, "prompt"@, "consent"@)
            &&& query_sets(q, "client_id"@, client_id)
            &&& query_sets(q, "redirect_uri"@, redirect_uri)
            &&& query_sets(q, "state"@, state)
            &&& query_sets(q, "response_type"@, "code"@)
        },
{
    reveal_strlit("response_type");
    reveal_strlit("client_id");
    reveal_strlit("redirect_uri");
    reveal_strlit("scope");
    reveal_strlit("state");
    reveal_strlit("access_type");
    reveal_strlit("prompt");
    let q = seq![("response_type"@, "code"@), ("client_id"@, client_id), ("redirect_uri"@, redirect_uri), ("scope"@, join(scopes_spec(k), " "@)), ("state"@, state), ("access_type"@, "offline"@), ("prompt"@, "consent"@)];
    assert(auth_query(k, client_id, state, redirect_uri, instance) == Ok::<(Seq<char>, Seq<(Seq<char>, Seq<char>)>), Seq<char>>(("https://accounts.google.com/o/oauth2/v2/auth"@, q)));
    let keys = seq!["response_type"@, "client_id"@, "redirect_uri"@, "scope"@, "state"@, "access_type"@, "prompt"@];
    assert forall|i: int, j: int| 0 <= i < 7 && 0 <= j < 7 && i != j implies keys[i] != keys[j] by {
        if keys[i] == keys[j] {
            assert(keys[i].len() == keys[j].len());
            assert(keys[i][0] == keys[j][0]);
            assert(keys[i][1] == keys[j][1]);
        }
    }
    assert forall|i: int| 0 <= i < 7 implies (#[trigger] q[i]).0 == keys[i] by {}
    assert(q[0] == ("response_type"@, "code"@));
    assert(q[1] == ("client_id"@, client_id));
    assert(q[2] == ("redirect_uri"@, redirect_uri));
    assert(q[4] == ("state"@, state));
    assert(q[5] == ("access_type"@, "offline"@));
    assert(q[6] == ("prompt"@, "consent"@));
}

/// Law: every authorization query carries the client id and the state it
/// was given, and asks for an authorization code.
pub proof fn lemma_auth_query_carries_request(
    k: ProviderKind,
    client_id: Seq<char>,
    state: Seq<char>,
    redirect_uri: Seq<char>,
    instance: Seq<char>,
)
    ensures
        auth_query(k, client_id, state, redirect_uri, instance) matches Ok((_, q)) ==> {
            &&& q.contains(("client_id"@, client_id))
            &&& q.contains(("state"@, state))
            &&& q.contains(("response_type"@, "code"@))
        },
{
    if let Ok((_, q)) = auth_query(k, client_id, state, redirect_uri, instance) {
        assert(q[0] == q[0] && q[1] == q[1] && q[2] == q[2] && q[3] == q[3] && q[4] == q[4]
            && q[5] == q[5] && q[6] == q[6] && q[7] == q[7]);
    }
}

fn push_pair(v: &mut Vec<(String, String)>, k: &str, val: &str)
    ensures
        pairs_view(final(v)@) == pairs_view(old(v)@).push((k@, val@)),
{
    v.push((k.to_owned(), val.to_owned()));
    proof {
        assert(pairs_view(v@) =~= pairs_view(old(v)@).push((k@, val@)));
    }
}

impl ProviderKind {
    /// Generate the OAuth authorization URL. `instance_url` names the
    /// Mastodon instance (whose registered app `client_id` is); the other
    /// providers ignore it.
    pub fn generate_auth_url(
        &self,
        client_id: &str,
        state: &str,
        _code_verifier: &str,
        redirect_uri: &str,
        instance_url: &str,
    ) -> (r: Result<AuthUrlResponse, ProviderError>)
        ensures
            match auth_query(*self, client_id@, state@, redirect_uri@, instance_url@) {
                Err(m) => r matches Err(ProviderError::Auth(e)) && e@ == m,
                Ok((base, params)) => match url_with_query(base, params) {
                    Ok(u) => r matches Ok(resp) && resp.url@ == u,
                    Err(m) => r matches Err(ProviderError::Auth(e)) && e@ == "URL parse: "@ + m,
                },
            },
    {
        let scopes = self.scopes();
        let scope_space = join_strings(&scopes, " ");
        let scope_comma = join_strings(&scopes, ",");
        let https_uri = ensure_https_redirect_uri(redirect_uri);
        let mut p: Vec<(String, String)> = Vec::new();
        let base: String;
        proof {
            assert(scopes@.map_values(|q: String| q@) =~= scopes_spec(*self));
            assert(pairs_view(p@) =~= Seq::<(Seq<char>, Seq<char>)>::empty());
        }
        match self {
            ProviderKind::Bluesky => {
                return Err(ProviderError::Auth("Bluesky uses app passwords instead of OAuth. The agent will guide you through setting BLUESKY_HANDLE and BLUESKY_APP_PASSWORD in your .env file.".to_owned()));
            },
            ProviderKind::Devto => {
                return Err(ProviderError::Auth("Dev.to uses an API key instead of OAuth. Set DEVTO_API_KEY in your .env file.".to_owned()));
            },
            ProviderKind::Farcaster => {
                return Err(ProviderError::Auth("Farcaster uses Web3 wallet authentication instead of OAuth. Provide your wallet address or signer UUID directly.".to_owned()));
            },
            ProviderKind::Github => {
                return Err(ProviderError::Auth("GitHub uses Personal Access Tokens (PAT) instead of OAuth. Set GITHUB_TOKEN in your .env file.".to_owned()));
            },
            ProviderKind::Hashnode => {
                return Err(ProviderError::Auth("Hashnode uses an API key instead of OAuth. Set HASHNODE_API_KEY in your .env file.".to_owned()));
            },
            ProviderKind::Lemmy => {
                return Err(ProviderError::Auth("Lemmy uses API key authentication. Provide your instance URL and API key directly.".to_owned()));
            },
            ProviderKind::Medium => {
                return Err(ProviderError::Auth("Medium uses a personal access token instead of OAuth. Set MEDIUM_ACCESS_TOKEN in your .env file.".to_owned()));
            },
            ProviderKind::Nostr => {
                return Err(ProviderError::Auth("Nostr uses npub authentication instead of OAuth. Provide your npub directly.".to_owned()));
            },
            ProviderKind::Reddit => {
                return Err(ProviderError::Auth("Reddit uses password grant, not OAuth. Set REDDIT_USERNAME + REDDIT_PASSWORD in .env".to_owned()));
            },
            ProviderKind::Calendar => {
                base = "https://accounts.google.com/o/oauth2/v2/auth".to_owned();
                push_pair(&mut p, "response_type", "code");
                push_pair(&mut p, "client_id", client_id);
                push_pair(&mut p, "redirect_uri", redirect_uri);
                push_pair(&mut p, "scope", scope_space.as_str());
                push_pair(&mut p, "state", state);
                push_pair(&mut p, "access_type", "offline");
                push_pair(&mut p, "prompt", "consent");
            },
            ProviderKind::Drive => {
                base = "https://accounts.google.com/o/oauth2/v2/auth".to_owned();
                push_pair(&mut p, "response_type", "code");
                push_pair(&mut p, "client_id", client_id);
                push_pair(&mut p, "redirect_uri", redirect_uri);
                push_pair(&mut p, "scope", scope_space.as_str());
                push_pair(&mut p, "state", state);
                push_pair(&mut p, "access_type", "offline");
                push_pair(&mut p, "prompt", "consent");
            },
            ProviderKind::Gmail => {
                base = "https://accounts.google.com/o/oauth2/v2/auth".to_owned();
                push_pair(&mut p, "response_type", "code");
                push_pair(&mut p, "client_id", client_id);
                push_pair(&mut p, "redirect_uri", redirect_uri);
                push_pair(&mut p, "scope", scope_space.as_str());
                push_pair(&mut p, "state", state);
                push_pair(&mut p, "access_type", "offline");
                push_pair(&mut p, "prompt", "consent");
            },
            ProviderKind::GoogleMyBusiness => {
                base = "https://accounts.google.com/o/oauth2/v2/auth".to_owned();
                push_pair(&mut p, "response_type", "code");
                push_pair(&mut p, "client_id", client_id);
                push_pair(&mut p, "redirect_uri", redirect_uri);
                push_pair(&mut p, "scope", scope_space.as_str());
                push_pair(&mut p, "state", state);
                push_pair(&mut p, "access_type", "offline");
                push_pair(&mut p, "prompt", "consent");
            },
            ProviderKind::Discord => {
                base = "https://discord.com/oauth2/authorize".to_owned();
                push_pair(&mut p, "response_type", "code");
                push_pair(&mut p, "client_id", client_id);
                push_pair(&mut p, "redirect_uri", redirect_uri);
                push_pair(&mut p, "scope", "identify guilds bot");
                push_pair(&mut p, "state", state);
                push_pair(&mut p, "permissions", "377957124096");
                push_pair(&mut p, "integration_type", "0");
            },
            ProviderKind::Facebook => {
                base = "https://www.facebook.com/v21.0/dialog/oauth".to_owned();
                push_pair(&mut p, "client_id", client_id);
                push_pair(&mut p, "redirect_uri", redirect_uri);
                push_pair(&mut p, "scope", scope_comma.as_str());
                push_pair(&mut p, "state", state);
                push_pair(&mut p, "response_type", "code");
            },
            ProviderKind::Instagram => {
                base = "https://www.facebook.com/v21.0/dialog/oauth".to_owned();
                push_pair(&mut p, "client_id", client_id);
                push_pair(&mut p, "redirect_uri", redirect_uri);
                push_pair(&mut p, "scope", scope_comma.as_str());
                push_pair(&mut p, "state", state);
                push_pair(&mut p, "response_type", "code");
            },
            ProviderKind::InstagramStandalone => {
                base = "https://www.instagram.com/oauth/authorize".to_owned();
                push_pair(&mut p, "enable_fb_login", "0");
                push_pair(&mut p, "client_id", client_id);
                push_pair(&mut p, "redirect_uri", https_uri.as_str());
                push_pair(&mut p, "response_type", "code");
                push_pair(&mut p, "state", state);
                push_pair(&mut p, "scope", scope_comma.as_str());
            },
            ProviderKind::Kick => {
                base = "https://id.kick.com/oauth/authorize".to_owned();
                push_pair(&mut p, "client_id", client_id);
                push_pair(&mut p, "scope", scope_space.as_str());
                push_pair(&mut p, "redirect_uri", redirect_uri);
                push_pair(&mut p, "state", state);
                push_pair(&mut p, "response_type", "code");
            },
            ProviderKind::Linkedin => {
                base = "https://www.linkedin.com/oauth/v2/authorization".to_owned();
                push_pair(&mut p, "response_type", "code");
                push_pair(&mut p, "client_id", client_id);
                push_pair(&mut p, "redirect_uri", redirect_uri);
                push_pair(&mut p, "scope", scope_space.as_str());
                push_pair(&mut p, "state", state);
            },
            ProviderKind::LinkedinPage => {
                base = "https://www.linkedin.com/oauth/v2/authorization".to_owned();
                push_pair(&mut p, "response_type", "code");
                push_pair(&mut p, "client_id", client_id);
                push_pair(&mut p, "redirect_uri", redirect_uri);
                push_pair(&mut p, "scope", scope_space.as_str());
                push_pair(&mut p, "state", state);
            },
            ProviderKind::Mastodon => {
                base = mastodon_api_url(instance_url, "/oauth/authorize");
                push_pair(&mut p, "client_id", client_id);
                push_pair(&mut p, "redirect_uri", redirect_uri);
                push_pair(&mut p, "response_type", "code");
                push_pair(&mut p, "scope", scope_space.as_str());
                push_pair(&mut p, "state", state);
            },
            ProviderKind::Pinterest => {
                base = "https://www.pinterest.com/oauth/".to_owned();
                push_pair(&mut p, "client_id", client_id);
                push_pair(&mut p, "redirect_uri", redirect_uri);
                push_pair(&mut p, "response_type", "code");
                push_pair(&mut p, "scope", "boards:read,boards:write,pins:read,pins:write,user_accounts:read");
                push_pair(&mut p, "state", state);
            },
        }
        proof {
            let q = auth_query(*self, client_id@, state@, redirect_uri@, instance_url@);
            assert(q is Ok);
            let (qb, qp) = q->Ok_0;
            assert(qb == base@);
            assert(qp =~= pairs_view(p@));
        }
        match parse_with_params(base.as_str(), &p) {
            Ok(u) => Ok(AuthUrlResponse { url: u }),
            Err(e) => {
                let mut out: Vec<char> = Vec::new();
                push_str_chars(&mut out, "URL parse: ");
                push_str_chars(&mut out, e.as_str());
                Err(ProviderError::Auth(string_from_chars(&out)))
            },
        }
    }
}

} // verus!

verus! {

/// The message a provider gives for a failed API call, from the response
/// body and status; Mastodon reads the `error` field of a JSON body.
pub open spec fn map_error_spec(k: ProviderKind, body: Seq<char>, status: u16, body_json: Option<Json>) -> Option<Seq<char>> {
    match k {
        ProviderKind::Calendar => if status == 401 { Some("Calendar token expired. Re-authenticate via Google OAuth."@) } else if status == 403 { Some("Calendar API access forbidden. Check token scopes."@) } else if status == 429 { Some("Calendar API rate limit exceeded. Try again later."@) } else { None },
        ProviderKind::Devto => if status == 401 { Some("Invalid Dev.to API key. Check DEVTO_API_KEY in .env."@) } else if status == 429 { Some("Dev.to API rate limit exceeded. Try again later."@) } else if contains(body, "has already been taken"@) { Some("A Dev.to article with this title already exists."@) } else { None },
        ProviderKind::Discord => if contains(body, "50001"@) { Some("Bot doesn't have access to this channel"@) } else if contains(body, "50013"@) { Some("Bot lacks permission to send messages"@) } else if contains(body, "10003"@) { Some("Channel no longer exists"@) } else { None },
        ProviderKind::Drive => if status == 401 { Some("Drive token expired. Re-authenticate via Google OAuth."@) } else if status == 403 { Some("Drive API access forbidden. Check token scopes."@) } else if status == 429 { Some("Drive API rate limit exceeded. Try again later."@) } else { None },
        ProviderKind::Farcaster => if status == 401 { Some("Invalid Neynar API key. Check NEYNAR_API_KEY in .env."@) } else if status == 429 { Some("Farcaster/Neynar API rate limit exceeded. Try again later."@) } else if contains(body, "invalid signer"@) { Some("Invalid Farcaster signer. Re-connect your account."@) } else { None },
        ProviderKind::Github => if status == 401 { Some("Invalid GitHub token. Check GITHUB_TOKEN in your .env file."@) } else if status == 403 { if contains(body, "rate limit"@) { Some("GitHub API rate limit exceeded. Try again later."@) } else { Some("GitHub token lacks permission for this operation."@) } } else if status == 404 { Some("GitHub resource not found. Check owner/repo names."@) } else if status == 422 { Some("GitHub validation error. Check request parameters."@) } else { None },
        ProviderKind::Gmail => if status == 401 { Some("Gmail token expired. Re-authenticate via Google OAuth."@) } else if status == 403 { Some("Gmail API access forbidden. Check token scopes."@) } else if status == 429 { Some("Gmail API rate limit exceeded. Try again later."@) } else { None },
        ProviderKind::GoogleMyBusiness => if status == 401 { Some("Google token expired. Re-authenticate via Google OAuth."@) } else if status == 403 { Some("Google My Business API access not configured. Check API whitelisting."@) } else { None },
        ProviderKind::Hashnode => if status == 401 { Some("Invalid Hashnode API key. Check HASHNODE_API_KEY in .env."@) } else if status == 429 { Some("Hashnode API rate limit exceeded. Try again later."@) } else if contains(body, "publication_id"@) { Some("Invalid or missing publication_id in settings."@) } else { None },
        ProviderKind::Kick => if status == 401 { Some("Kick token expired. Re-authenticate via Kick OAuth."@) } else if status == 429 { Some("Kick API rate limit exceeded. Try again later."@) } else { None },
        ProviderKind::Lemmy => if status == 401 { Some("Invalid Lemmy API key. Check your credentials and re-connect."@) } else if status == 403 { Some("Access denied. Your API key may not have permission for this action."@) } else if status == 429 { Some("Lemmy API rate limit exceeded. Try again later."@) } else if status == 404 { Some("Lemmy resource not found. Check the community name or URL."@) } else { None },
        ProviderKind::LinkedinPage => if contains(body, "Unable to obtain activity"@) { Some("Unable to obtain activity. Please try again."@) } else if contains(body, "resource is forbidden"@) { Some("Resource is forbidden. Check your organization permissions."@) } else { None },
        ProviderKind::Mastodon => match body_json { Some(j) => match json_get(j, "error"@) { Some(e) => json_as_str(e), None => None }, None => None },
        ProviderKind::Medium => if status == 401 { Some("Invalid Medium access token. Check MEDIUM_ACCESS_TOKEN in .env."@) } else if status == 429 { Some("Medium API rate limit exceeded. Try again later."@) } else if contains(body, "publishStatus"@) { Some("Invalid publish status. Use 'draft', 'public', or 'unlisted'."@) } else { None },
        ProviderKind::Nostr => if status == 401 { Some("Invalid Nostr credentials."@) } else if status == 429 { Some("Nostr relay rate limit exceeded. Try again later."@) } else { None },
        _ => None,
    }
}

impl ProviderKind {
    /// A friendlier message for a failed API call, from the response body
    /// and status. `body_json` is the body parsed as JSON, when it is JSON.
    pub fn map_error(&self, body: &str, status: u16, body_json: Option<&Json>) -> (r: Option<String>)
        ensures
            opt_str_view(r) == map_error_spec(*self, body@, status, match body_json { Some(j) => Some(*j), None => None }),
    {
        match self {
            ProviderKind::Calendar => if status == 401 { Some("Calendar token expired. Re-authenticate via Google OAuth.".to_owned()) } else if status == 403 { Some("Calendar API access forbidden. Check token scopes.".to_owned()) } else if status == 429 { Some("Calendar API rate limit exceeded. Try again later.".to_owned()) } else { None },
            ProviderKind::Devto => if status == 401 { Some("Invalid Dev.to API key. Check DEVTO_API_KEY in .env.".to_owned()) } else if status == 429 { Some("Dev.to API rate limit exceeded. Try again later.".to_owned()) } else if str_contains(body, "has already been taken") { Some("A Dev.to article with this title already exists.".to_owned()) } else { None },
            ProviderKind::Discord => if str_contains(body, "50001") { Some("Bot doesn't have access to this channel".to_owned()) } else if str_contains(body, "50013") { Some("Bot lacks permission to send messages".to_owned()) } else if str_contains(body, "10003") { Some("Channel no longer exists".to_owned()) } else { None },
            ProviderKind::Drive => if status == 401 { Some("Drive token expired. Re-authenticate via Google OAuth.".to_owned()) } else if status == 403 { Some("Drive API access forbidden. Check token scopes.".to_owned()) } else if status == 429 { Some("Drive API rate limit exceeded. Try again later.".to_owned()) } else { None },
            ProviderKind::Farcaster => if status == 401 { Some("Invalid Neynar API key. Check NEYNAR_API_KEY in .env.".to_owned()) } else if status == 429 { Some("Farcaster/Neynar API rate limit exceeded. Try again later.".to_owned()) } else if str_contains(body, "invalid signer") { Some("Invalid Farcaster signer. Re-connect your account.".to_owned()) } else { None },
            ProviderKind::Github => if status == 401 { Some("Invalid GitHub token. Check GITHUB_TOKEN in your .env file.".to_owned()) } else if status == 403 { if str_contains(body, "rate limit") { Some("GitHub API rate limit exceeded. Try again later.".to_owned()) } else { Some("GitHub token lacks permission for this operation.".to_owned()) } } else if status == 404 { Some("GitHub resource not found. Check owner/repo names.".to_owned()) } else if status == 422 { Some("GitHub validation error. Check request parameters.".to_owned()) } else { None },
            ProviderKind::Gmail => if status == 401 { Some("Gmail token expired. Re-authenticate via Google OAuth.".to_owned()) } else if status == 403 { Some("Gmail API access forbidden. Check token scopes.".to_owned()) } else if status == 429 { Some("Gmail API rate limit exceeded. Try again later.".to_owned()) } else { None },
            ProviderKind::GoogleMyBusiness => if status == 401 { Some("Google token expired. Re-authenticate via Google OAuth.".to_owned()) } else if status == 403 { Some("Google My Business API access not configured. Check API whitelisting.".to_owned()) } else { None },
            ProviderKind::Hashnode => if status == 401 { Some("Invalid Hashnode API key. Check HASHNODE_API_KEY in .env.".to_owned()) } else if status == 429 { Some("Hashnode API rate limit exceeded. Try again later.".to_owned()) } else if str_contains(body, "publication_id") { Some("Invalid or missing publication_id in settings.".to_owned()) } else { None },
            ProviderKind::Kick => if status == 401 { Some("Kick token expired. Re-authenticate via Kick OAuth.".to_owned()) } else if status == 429 { Some("Kick API rate limit exceeded. Try again later.".to_owned()) } else { None },
            ProviderKind::Lemmy => if status == 401 { Some("Invalid Lemmy API key. Check your credentials and re-connect.".to_owned()) } else if status == 403 { Some("Access denied. Your API key may not have permission for this action.".to_owned()) } else if status == 429 { Some("Lemmy API rate limit exceeded. Try again later.".to_owned()) } else if status == 404 { Some("Lemmy resource not found. Check the community name or URL.".to_owned()) } else { None },
            ProviderKind::LinkedinPage => if str_contains(body, "Unable to obtain activity") { Some("Unable to obtain activity. Please try again.".to_owned()) } else if str_contains(body, "resource is forbidden") { Some("Resource is forbidden. Check your organization permissions.".to_owned()) } else { None },
            ProviderKind::Mastodon => match body_json { Some(j) => match j.get("error") { Some(e) => match e.as_str() { Some(m) => Some(m.to_owned()), None => None }, None => None }, None => None },
            ProviderKind::Medium => if status == 401 { Some("Invalid Medium access token. Check MEDIUM_ACCESS_TOKEN in .env.".to_owned()) } else if status == 429 { Some("Medium API rate limit exceeded. Try again later.".to_owned()) } else if str_contains(body, "publishStatus") { Some("Invalid publish status. Use 'draft', 'public', or 'unlisted'.".to_owned()) } else { None },
            ProviderKind::Nostr => if status == 401 { Some("Invalid Nostr credentials.".to_owned()) } else if status == 429 { Some("Nostr relay rate limit exceeded. Try again later.".to_owned()) } else { None },
            _ => None,
        }
    }
}

} // verus!
