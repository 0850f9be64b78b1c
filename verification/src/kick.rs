//! Kick channel announcements: the request and what the answer means.
use vstd::prelude::*;

use crate::json::{json_get2, str_at, str_or, str_or_owned, Json};
use crate::meta::opt_str;
use crate::social::{ProviderError, PublishResult};
use crate::text::{opt_str_view, push_str_chars, string_from_chars};

verus! {

/// The channel to announce on (`channel_id` setting, empty when absent).
pub fn kick_channel_id(settings: &Json) -> (r: String)
    ensures
        r@ == str_or(*settings, "channel_id"@, ""@),
{
    str_or_owned(settings, "channel_id", "")
}

/// `{"content": content, "channel_id": channel}`.
pub fn announcement_body(content: &str, channel_id: &str) -> (r: Json)
    ensures
        crate::business_profile::is_string_object(r, seq![("content"@, content@), ("channel_id"@, channel_id@)]),
{
    let mut f: Vec<(String, Json)> = Vec::new();
    f.push(("content".to_owned(), Json::Str(content.to_owned())));
    f.push(("channel_id".to_owned(), Json::Str(channel_id.to_owned())));
    Json::Object(f)
}

/// The first of `error` and `message` that is a string.
pub open spec fn error_or_message(json: Json) -> Option<Seq<char>> {
    match str_at(json, "error"@) {
        Some(e) => Some(e),
        None => str_at(json, "message"@),
    }
}

/// What a publish answer means: a 2xx gives the announcement's `data.id`
/// (or `id`) and the channel page; a 401 an expired token; a 429 a rate
/// limit; anything else an API error (the body is `null` when unreadable).
pub fn announcement_outcome(status: u16, json: &Json, channel_id: &str) -> (r: Result<PublishResult, ProviderError>)
    ensures
        200 <= status <= 299 ==> match (match opt_str(json_get2(*json, "data"@, "id"@)) {
            Some(i) => Some(i),
            None => str_at(*json, "id"@),
        }) {
            Some(id) => r matches Ok(p) && p.platform_post_id@ == id && opt_str_view(p.platform_post_url)
                == Some("https://kick.com/channel/"@ + channel_id@) && p.status@ == "published"@,
            None => r matches Err(ProviderError::Api(m)) && m@ == "Missing post ID in API response"@,
        },
        status == 401 ==> r matches Err(ProviderError::TokenExpired),
        status == 429 ==> (r matches Err(ProviderError::RateLimited(m)) && m@ == match error_or_message(*json) {
            Some(x) => x,
            None => "Rate limited by Kick API"@,
        }),
        !(200 <= status <= 299) && status != 401 && status != 429 ==> (r matches Err(ProviderError::Api(m))
            && m@ == match error_or_message(*json) {
            Some(x) => x,
            None => "Kick API error"@,
        }),
{
    if 200 <= status && status <= 299 {
        let id = match json.get2("data", "id") {
            Some(v) => match v.as_str() {
                Some(s) => Some(s),
                None => json.str_at("id"),
            },
            None => json.str_at("id"),
        };
        return match id {
            Some(i) => {
                let mut url: Vec<char> = Vec::new();
                push_str_chars(&mut url, "https://kick.com/channel/");
                push_str_chars(&mut url, channel_id);
                Ok(
                    PublishResult {
                        platform_post_id: i.to_owned(),
                        platform_post_url: Some(string_from_chars(&url)),
                        status: "published".to_owned(),
                    },
                )
            },
            None => Err(ProviderError::Api("Missing post ID in API response".to_owned())),
        };
    }
    if status == 401 {
        return Err(ProviderError::TokenExpired);
    }
    let found = match json.str_at("error") {
        Some(e) => Some(e),
        None => json.str_at("message"),
    };
    if status == 429 {
        let m = match found {
            Some(x) => x.to_owned(),
            None => "Rate limited by Kick API".to_owned(),
        };
        Err(ProviderError::RateLimited(m))
    } else {
        let m = match found {
            Some(x) => x.to_owned(),
            None => "Kick API error".to_owned(),
        };
        Err(ProviderError::Api(m))
    }
}

} // verus!
