//! Publishing to a Google Business Profile: the account, then its first
//! location, then a local post on it. Each step reads one API response.
use vstd::prelude::*;

use crate::json::{array_at, json_as_str, json_get2, str_or, str_or_owned, Json};
use crate::meta::opt_str;
use crate::social::{ProviderError, PublishResult};
use crate::text::{push_str_chars, string_from_chars};

verus! {

/// A 401 answer means the token expired.
pub fn check_unauthorized(status: u16) -> (r: Result<(), ProviderError>)
    ensures
        status == 401 <==> r matches Err(ProviderError::TokenExpired),
        status != 401 ==> r is Ok,
{
    if status == 401 {
        Err(ProviderError::TokenExpired)
    } else {
        Ok(())
    }
}

/// The `name` of the first entry of `list` in `response`, when the list is
/// not empty (absent lists count as empty).
pub open spec fn first_name(response: Json, list: Seq<char>) -> Option<Seq<char>> {
    match array_at(response, list) {
        Some(items) => if items.len() > 0 {
            Some(str_or(items[0], "name"@, ""@))
        } else {
            None
        },
        None => None,
    }
}

fn first_name_exec(response: &Json, list: &str) -> (r: Option<String>)
    ensures
        match first_name(*response, list@) {
            Some(n) => r matches Some(x) && x@ == n,
            None => r is None,
        },
{
    match response.array_at(list) {
        Some(items) => if items.len() > 0 {
            Some(str_or_owned(&items[0], "name", ""))
        } else {
            None
        },
        None => None,
    }
}

/// The account to post under, from the accounts listing: the first
/// account's name; an error when there is no account or it has no name.
pub fn gmb_account_name(accounts: &Json) -> (r: Result<String, ProviderError>)
    ensures
        match first_name(*accounts, "accounts"@) {
            None => r matches Err(ProviderError::Api(m)) && m@
                == "No Google Business Profile accounts found"@,
            Some(n) => if n.len() == 0 {
                r matches Err(ProviderError::Api(m)) && m@ == "Could not determine GMB account name"@
            } else {
                r matches Ok(x) && x@ == n
            },
        },
{
    match first_name_exec(accounts, "accounts") {
        None => Err(ProviderError::Api("No Google Business Profile accounts found".to_owned())),
        Some(n) => {
            proof {
                reveal_strlit("");
                assert(n@.len() == 0 <==> n@ =~= ""@);
            }
            if crate::text::str_eq(n.as_str(), "") {
                Err(ProviderError::Api("Could not determine GMB account name".to_owned()))
            } else {
                Ok(n)
            }
        },
    }
}

/// The location to post to, from the locations listing: the first
/// location's name (empty when it has none); an error when there is none.
pub fn gmb_location_name(locations: &Json) -> (r: Result<String, ProviderError>)
    ensures
        match first_name(*locations, "locations"@) {
            None => r matches Err(ProviderError::Api(m)) && m@
                == "No Google Business Profile locations found"@,
            Some(n) => r matches Ok(x) && x@ == n,
        },
{
    match first_name_exec(locations, "locations") {
        None => Err(ProviderError::Api("No Google Business Profile locations found".to_owned())),
        Some(n) => Ok(n),
    }
}

/// `https://mybusiness.googleapis.com/v4/{account}/locations`.
pub fn gmb_locations_url(account_name: &str) -> (r: String)
    ensures
        r@ == "https://mybusiness.googleapis.com/v4/"@ + account_name@ + "/locations"@,
{
    let mut out: Vec<char> = Vec::new();
    push_str_chars(&mut out, "https://mybusiness.googleapis.com/v4/");
    push_str_chars(&mut out, account_name);
    push_str_chars(&mut out, "/locations");
    string_from_chars(&out)
}

/// `https://mybusiness.googleapis.com/v4/{location}/localPosts`.
pub fn gmb_local_posts_url(location_name: &str) -> (r: String)
    ensures
        r@ == "https://mybusiness.googleapis.com/v4/"@ + location_name@ + "/localPosts"@,
{
    let mut out: Vec<char> = Vec::new();
    push_str_chars(&mut out, "https://mybusiness.googleapis.com/v4/");
    push_str_chars(&mut out, location_name);
    push_str_chars(&mut out, "/localPosts");
    string_from_chars(&out)
}

/// A JSON object with exactly these string members, in this order.
pub open spec fn is_string_object(j: Json, members: Seq<(Seq<char>, Seq<char>)>) -> bool {
    match j {
        Json::Object(entries) => entries@.len() == members.len() && forall|i: int|
            0 <= i < members.len() ==> (#[trigger] entries@[i]).0@ == members[i].0 && json_as_str(
                entries@[i].1,
            ) == Some(members[i].1),
        _ => false,
    }
}

/// The local post created: `{"summary": content, "languageCode": "en-US"}`.
pub fn gmb_post_body(content: &str) -> (r: Json)
    ensures
        is_string_object(r, seq![("summary"@, content@), ("languageCode"@, "en-US"@)]),
{
    let mut entries: Vec<(String, Json)> = Vec::new();
    entries.push(("summary".to_owned(), Json::Str(content.to_owned())));
    entries.push(("languageCode".to_owned(), Json::Str("en-US".to_owned())));
    Json::Object(entries)
}

/// The outcome of creating the local post, from the answer's status and
/// body (`null` when the body is not JSON): a 401 is an expired token, any
/// other status outside 200..=299 an API error with the body's
/// `error.message` (or a fixed message), and success the post's `name`.
pub fn gmb_post_outcome(status: u16, body: &Json) -> (r: Result<PublishResult, ProviderError>)
    ensures
        status == 401 ==> r matches Err(ProviderError::TokenExpired),
        status != 401 && !(200 <= status <= 299) ==> (r matches Err(ProviderError::Api(m)) && m@
            == match opt_str(json_get2(*body, "error"@, "message"@)) {
            Some(msg) => msg,
            None => "Failed to create GMB local post"@,
        }),
        200 <= status <= 299 ==> (r matches Ok(p) && p.platform_post_id@ == str_or(*body, "name"@, ""@)
            && p.platform_post_url is None && p.status@ == "published"@),
{
    if status == 401 {
        return Err(ProviderError::TokenExpired);
    }
    if !(200 <= status && status <= 299) {
        let msg = match json_get2_str(body, "error", "message") {
            Some(m) => m.to_owned(),
            None => "Failed to create GMB local post".to_owned(),
        };
        return Err(ProviderError::Api(msg));
    }
    Ok(
        PublishResult {
            platform_post_id: str_or_owned(body, "name", ""),
            platform_post_url: None,
            status: "published".to_owned(),
        },
    )
}

fn json_get2_str<'a>(j: &'a Json, k1: &str, k2: &str) -> (r: Option<&'a str>)
    ensures
        match opt_str(json_get2(*j, k1@, k2@)) {
            Some(s) => r matches Some(x) && x@ == s,
            None => r is None,
        },
{
    match j.get2(k1, k2) {
        Some(v) => v.as_str(),
        None => None,
    }
}

} // verus!
