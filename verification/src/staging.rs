//! Staging one post for several connected accounts: the request's checks,
//! the warning shown when a platform needs the content split, and what
//! each staged part carries.
use vstd::prelude::*;

use crate::json::Json;
use crate::text::{
    byte_len, chars_of, decimal, push_decimal, push_str_chars, str_byte_len, string_from_chars,
    trim, trim_chars,
};

verus! {

/// A post to stage on several integrations.
pub struct StagingRequest {
    pub content: String,
    pub media: Json,
    pub integration_ids: Vec<u128>,
    pub settings: Json,
    /// When to publish (Unix seconds); drafts have none.
    pub scheduled_at: Option<i64>,
}

/// One post created by staging.
pub struct StagedPost {
    pub post_id: u128,
    pub provider: String,
    pub sequence: usize,
    pub total_segments: usize,
    pub state: String,
}

pub struct StagingResult {
    pub staged: Vec<StagedPost>,
    pub total_posts: usize,
    pub warnings: Vec<String>,
}

/// The longest content accepted, in bytes.
pub const MAX_STAGED_CONTENT_BYTES: usize = 100_000;

/// Why a staging request is refused, checked in this order: content that is
/// only whitespace, no integration, content over 100,000 bytes.
pub open spec fn staging_error(content: Seq<char>, n_integrations: nat) -> Option<Seq<char>> {
    if trim(content).len() == 0 {
        Some("Content cannot be empty"@)
    } else if n_integrations == 0 {
        Some("At least one integration_id is required"@)
    } else if byte_len(content) > 100_000 {
        Some("Content exceeds maximum length (100,000 chars)"@)
    } else {
        None
    }
}

pub fn validate_staging_request(request: &StagingRequest) -> (r: Result<(), String>)
    ensures
        match staging_error(request.content@, request.integration_ids@.len()) {
            Some(m) => r matches Err(e) && e@ == m,
            None => r is Ok,
        },
{
    let v = chars_of(request.content.as_str());
    let t = trim_chars(&v);
    if t.len() == 0 {
        return Err("Content cannot be empty".to_owned());
    }
    if request.integration_ids.len() == 0 {
        return Err("At least one integration_id is required".to_owned());
    }
    if str_byte_len(request.content.as_str()) > MAX_STAGED_CONTENT_BYTES {
        return Err("Content exceeds maximum length (100,000 chars)".to_owned());
    }
    Ok(())
}

/// The warning for a platform that gets the content in several parts.
pub open spec fn split_warning_spec(parts: nat, provider: Seq<char>, limit: nat) -> Option<Seq<char>> {
    if parts > 1 {
        Some(
            "Content split into "@ + decimal(parts) + " posts for "@ + provider + " (limit: "@
                + decimal(limit) + " chars)"@,
        )
    } else {
        None
    }
}

pub fn split_warning(parts: usize, provider: &str, limit: usize) -> (r: Option<String>)
    ensures
        match split_warning_spec(parts as nat, provider@, limit as nat) {
            Some(w) => r matches Some(x) && x@ == w,
            None => r is None,
        },
{
    if parts <= 1 {
        return None;
    }
    let mut out: Vec<char> = Vec::new();
    push_str_chars(&mut out, "Content split into ");
    push_decimal(&mut out, parts);
    push_str_chars(&mut out, " posts for ");
    push_str_chars(&mut out, provider);
    push_str_chars(&mut out, " (limit: ");
    push_decimal(&mut out, limit);
    push_str_chars(&mut out, " chars)");
    Some(string_from_chars(&out))
}

/// A staged part is queued when the request has a time, else a draft.
pub fn staged_state(scheduled: bool) -> (r: String)
    ensures
        r@ == if scheduled {
            "queued"@
        } else {
            "draft"@
        },
{
    if scheduled {
        "queued".to_owned()
    } else {
        "draft".to_owned()
    }
}

/// The media a part carries: the first part all of it, the others none.
pub fn segment_media(sequence: usize, media: Json) -> (r: Json)
    ensures
        sequence == 1 ==> r == media,
        sequence != 1 ==> (r matches Json::Array(items) && items@.len() == 0),
{
    if sequence == 1 {
        media
    } else {
        Json::Array(Vec::new())
    }
}

/// The result of staging: the parts and their count, and the warnings.
pub fn staging_result(staged: Vec<StagedPost>, warnings: Vec<String>) -> (r: StagingResult)
    ensures
        r.staged == staged,
        r.total_posts == staged@.len(),
        r.warnings == warnings,
{
    let total_posts = staged.len();
    StagingResult { staged, total_posts, warnings }
}

/// What staging creates for one integration: the parts of the content for
/// its platform, and the warning shown when there are several.
pub struct StagingPlan {
    pub segments: Vec<crate::content_splitter::SplitSegment>,
    pub warning: Option<String>,
}

/// The staging plan for one platform: the split of the content and the
/// warning for a split into several posts.
pub fn plan_staging(content: &str, provider: &str) -> (plan: StagingPlan)
    ensures
        plan.segments@.len() == crate::content_splitter::split_plan(content@, provider@).len(),
        forall|i: int|
            0 <= i < plan.segments@.len() ==> (#[trigger] plan.segments@[i]).content@
                == crate::content_splitter::split_plan(content@, provider@)[i]
                && plan.segments@[i].sequence == i + 1 && plan.segments@[i].total
                == plan.segments@.len(),
        match split_warning_spec(
            plan.segments@.len() as nat,
            provider@,
            crate::content_splitter::platform_limit_spec(provider@),
        ) {
            Some(w) => plan.warning matches Some(x) && x@ == w,
            None => plan.warning is None,
        },
{
    let segments = crate::content_splitter::split_content(content, provider, 4);
    let limit = crate::content_splitter::platform_limit(provider);
    let warning = split_warning(segments.len(), provider, limit);
    StagingPlan { segments, warning }
}

} // verus!
