//! Google APIs (Gmail, Calendar, Drive): how their answers' statuses are
//! read, the accounts they show as pages, and the messages Gmail sends.
use vstd::prelude::*;

use crate::json::{json_get, json_get2, keys_of, own_opt, push_member, str_at, str_or, str_or_owned, Json};
use crate::meta::{opt_str, page_info_view};
use crate::pkce::{base64_standard, base64_standard_encode};
use crate::social::{PageInfo, ProviderError};
use crate::text::{decimal, push_decimal, push_str_chars, string_from_chars};

verus! {

/// How the Google helpers read a status: success passes; a 401 is an
/// expired token; anything else an error with the answer's
/// `error.message` (`Unknown error` when absent).
pub fn google_status(status: u16, json: &Json) -> (r: Result<(), ProviderError>)
    ensures
        200 <= status <= 299 ==> r is Ok,
        status == 401 ==> r matches Err(ProviderError::TokenExpired),
        !(200 <= status <= 299) && status != 401 ==> (r matches Err(ProviderError::Api(m)) && m@
            == match opt_str(json_get2(*json, "error"@, "message"@)) {
            Some(x) => x,
            None => "Unknown error"@,
        }),
{
    if 200 <= status && status <= 299 {
        return Ok(());
    }
    if status == 401 {
        return Err(ProviderError::TokenExpired);
    }
    let m = match json.get2("error", "message") {
        Some(v) => match v.as_str() {
            Some(x) => x.to_owned(),
            None => "Unknown error".to_owned(),
        },
        None => "Unknown error".to_owned(),
    };
    Err(ProviderError::Api(m))
}

/// The primary calendar as the connection's page: its `id` (`primary`
/// when absent), `summary` (`My Calendar`), the token, and the id again
/// as the username.
pub fn calendar_page(calendar: &Json, access_token: &str) -> (r: PageInfo)
    ensures
        page_info_view(r) == (
            str_or(*calendar, "id"@, "primary"@),
            str_or(*calendar, "summary"@, "My Calendar"@),
            Some(access_token@),
            None::<Seq<char>>,
            str_at(*calendar, "id"@),
        ),
{
    PageInfo {
        id: str_or_owned(calendar, "id", "primary"),
        name: str_or_owned(calendar, "summary", "My Calendar"),
        access_token: Some(access_token.to_owned()),
        picture: None,
        username: own_opt(calendar.str_at("id")),
    }
}

/// A Google account as the connection's page: `id`, `name` (the given
/// default when absent), the token, `picture`, and `email` as the username.
pub fn google_user_page(user: &Json, access_token: &str, default_name: &str) -> (r: PageInfo)
    ensures
        page_info_view(r) == (
            str_or(*user, "id"@, ""@),
            str_or(*user, "name"@, default_name@),
            Some(access_token@),
            str_at(*user, "picture"@),
            str_at(*user, "email"@),
        ),
{
    PageInfo {
        id: str_or_owned(user, "id", ""),
        name: str_or_owned(user, "name", default_name),
        access_token: Some(access_token.to_owned()),
        picture: own_opt(user.str_at("picture")),
        username: own_opt(user.str_at("email")),
    }
}

/// A Gmail mailbox as the connection's page, from its profile: the
/// address as id, name (`Gmail` when absent) and username.
pub fn gmail_page(profile: &Json, access_token: &str) -> (r: PageInfo)
    ensures
        page_info_view(r) == (
            str_or(*profile, "emailAddress"@, ""@),
            str_or(*profile, "emailAddress"@, "Gmail"@),
            Some(access_token@),
            None::<Seq<char>>,
            str_at(*profile, "emailAddress"@),
        ),
{
    PageInfo {
        id: str_or_owned(profile, "emailAddress", ""),
        name: str_or_owned(profile, "emailAddress", "Gmail"),
        access_token: Some(access_token.to_owned()),
        picture: None,
        username: own_opt(profile.str_at("emailAddress")),
    }
}

/// How many messages to list: the request clamped to 1..=500, in decimal.
pub fn gmail_max_results(requested: u32) -> (r: String)
    ensures
        r@ == decimal(if requested < 1 { 1nat } else if requested > 500 { 500nat } else { requested as nat }),
{
    let n: usize = if requested < 1 {
        1
    } else if requested > 500 {
        500
    } else {
        requested as usize
    };
    let mut out: Vec<char> = Vec::new();
    push_decimal(&mut out, n);
    string_from_chars(&out)
}

/// The plain-text message Gmail sends, as MIME text.
pub open spec fn mime_message(to: Seq<char>, subject: Seq<char>, body: Seq<char>) -> Seq<char> {
    "From: me\r\nTo: "@ + to + "\r\nSubject: "@ + subject
        + "\r\nContent-Type: text/plain; charset=UTF-8\r\n\r\n"@ + body
}

/// The `raw` field of a Gmail send: the standard base64 of the message's
/// UTF-8 bytes.
pub fn gmail_raw_message(to: &str, subject: &str, body: &str) -> (r: String)
    ensures
        r@ == base64_standard(vstd::utf8::encode_utf8(mime_message(to@, subject@, body@))),
{
    let mut out: Vec<char> = Vec::new();
    push_str_chars(&mut out, "From: me\r\nTo: ");
    push_str_chars(&mut out, to);
    push_str_chars(&mut out, "\r\nSubject: ");
    push_str_chars(&mut out, subject);
    push_str_chars(&mut out, "\r\nContent-Type: text/plain; charset=UTF-8\r\n\r\n");
    push_str_chars(&mut out, body);
    let mime = string_from_chars(&out);
    base64_standard_encode(mime.as_str().as_bytes())
}

/// The `Authorization` header of a client-credentials call:
/// `Basic ` and the standard base64 of `client_id:client_secret`.
pub fn basic_auth_header(client_id: &str, client_secret: &str) -> (r: String)
    ensures
        r@ == "Basic "@ + base64_standard(vstd::utf8::encode_utf8(client_id@ + ":"@ + client_secret@)),
{
    let mut out: Vec<char> = Vec::new();
    push_str_chars(&mut out, client_id);
    push_str_chars(&mut out, ":");
    push_str_chars(&mut out, client_secret);
    let pair = string_from_chars(&out);
    let encoded = base64_standard_encode(pair.as_str().as_bytes());
    let mut header: Vec<char> = Vec::new();
    push_str_chars(&mut header, "Basic ");
    push_str_chars(&mut header, encoded.as_str());
    string_from_chars(&header)
}

/// The query of an event listing: `maxResults` (kept within 1 to 2500),
/// ordered by start time over single events, and the time bounds given.
pub fn calendar_list_params(max_results: u32, time_min: Option<&str>, time_max: Option<&str>) -> (r: Vec<(String, String)>)
    ensures
        crate::providers::pairs_view(r@) == seq![
            ("maxResults"@, decimal(if max_results < 1 { 1nat } else if max_results > 2500 { 2500nat } else { max_results as nat })),
            ("orderBy"@, "startTime"@),
            ("singleEvents"@, "true"@),
        ] + match time_min {
            Some(t) => seq![("timeMin"@, t@)],
            None => seq![],
        } + match time_max {
            Some(t) => seq![("timeMax"@, t@)],
            None => seq![],
        },
{
    let n: u64 = if max_results < 1 {
        1
    } else if max_results > 2500 {
        2500
    } else {
        max_results as u64
    };
    let mut mr: Vec<char> = Vec::new();
    crate::text::push_decimal_u64(&mut mr, n);
    let mut p: Vec<(String, String)> = Vec::new();
    p.push(("maxResults".to_owned(), string_from_chars(&mr)));
    p.push(("orderBy".to_owned(), "startTime".to_owned()));
    p.push(("singleEvents".to_owned(), "true".to_owned()));
    if let Some(t) = time_min {
        p.push(("timeMin".to_owned(), t.to_owned()));
    }
    if let Some(t) = time_max {
        p.push(("timeMax".to_owned(), t.to_owned()));
    }
    assert(crate::providers::pairs_view(p@) =~= seq![
        ("maxResults"@, decimal(if max_results < 1 { 1nat } else if max_results > 2500 { 2500nat } else { max_results as nat })),
        ("orderBy"@, "startTime"@),
        ("singleEvents"@, "true"@),
    ] + match time_min {
        Some(t) => seq![("timeMin"@, t@)],
        None => seq![],
    } + match time_max {
        Some(t) => seq![("timeMax"@, t@)],
        None => seq![],
    });
    p
}

/// An event time: `{"dateTime": t, "timeZone": "UTC"}`.
pub open spec fn utc_time_ok(j: Json, t: Seq<char>) -> bool {
    keys_of(j) == seq!["dateTime"@, "timeZone"@] && str_at(j, "dateTime"@) == Some(t) && str_at(
        j,
        "timeZone"@,
    ) == Some("UTC"@)
}

fn utc_time(t: &str) -> (r: Json)
    ensures
        utc_time_ok(r, t@),
{
    let mut f: Vec<(String, Json)> = Vec::new();
    proof {
        assert(f@.map_values(|p: (String, Json)| p.0@) =~= Seq::<Seq<char>>::empty());
        reveal_strlit("dateTime");
        reveal_strlit("timeZone");
        assert("dateTime"@[0] == 'd' && "timeZone"@[0] == 't');
    }
    push_member(&mut f, "dateTime", Json::Str(t.to_owned()));
    push_member(&mut f, "timeZone", Json::Str("UTC".to_owned()));
    let r = Json::Object(f);
    assert(keys_of(r) =~= seq!["dateTime"@, "timeZone"@]);
    r
}

/// The body of a new event: its summary, UTC start and end, and the
/// description when given.
pub fn event_body(summary: &str, start_time: &str, end_time: &str, description: Option<&str>) -> (r: Json)
    ensures
        keys_of(r) == seq!["summary"@, "start"@, "end"@] + match description {
            Some(_) => seq!["description"@],
            None => seq![],
        },
        str_at(r, "summary"@) == Some(summary@),
        match json_get(r, "start"@) {
            Some(s) => utc_time_ok(s, start_time@),
            None => false,
        },
        match json_get(r, "end"@) {
            Some(e) => utc_time_ok(e, end_time@),
            None => false,
        },
        str_at(r, "description"@) == match description {
            Some(d) => Some(d@),
            None => None,
        },
        json_get(r, "description"@) is Some <==> description is Some,
{
    let mut f: Vec<(String, Json)> = Vec::new();
    proof {
        assert(f@.map_values(|p: (String, Json)| p.0@) =~= Seq::<Seq<char>>::empty());
        reveal_strlit("summary");
        reveal_strlit("start");
        reveal_strlit("end");
        reveal_strlit("description");
        assert("summary"@[1] == 'u' && "start"@[1] == 't' && "end"@[0] == 'e');
        assert("summary"@[0] == 's' && "start"@[0] == 's' && "description"@[0] == 'd');
    }
    push_member(&mut f, "summary", Json::Str(summary.to_owned()));
    push_member(&mut f, "start", utc_time(start_time));
    push_member(&mut f, "end", utc_time(end_time));
    if let Some(d) = description {
        push_member(&mut f, "description", Json::Str(d.to_owned()));
    }
    let r = Json::Object(f);
    assert(keys_of(r) =~= seq!["summary"@, "start"@, "end"@] + match description {
        Some(_) => seq!["description"@],
        None => seq![],
    });
    r
}

/// The body of an event update: the summary and description given.
pub fn event_update_body(summary: Option<&str>, description: Option<&str>) -> (r: Json)
    ensures
        keys_of(r) == match summary {
            Some(_) => seq!["summary"@],
            None => seq![],
        } + match description {
            Some(_) => seq!["description"@],
            None => seq![],
        },
        str_at(r, "summary"@) == match summary {
            Some(s) => Some(s@),
            None => None,
        },
        json_get(r, "summary"@) is Some <==> summary is Some,
        str_at(r, "description"@) == match description {
            Some(d) => Some(d@),
            None => None,
        },
        json_get(r, "description"@) is Some <==> description is Some,
{
    let mut f: Vec<(String, Json)> = Vec::new();
    proof {
        assert(f@.map_values(|p: (String, Json)| p.0@) =~= Seq::<Seq<char>>::empty());
        reveal_strlit("summary");
        reveal_strlit("description");
        assert("summary"@[0] == 's' && "description"@[0] == 'd');
    }
    if let Some(s) = summary {
        push_member(&mut f, "summary", Json::Str(s.to_owned()));
    }
    if let Some(d) = description {
        push_member(&mut f, "description", Json::Str(d.to_owned()));
    }
    let r = Json::Object(f);
    assert(keys_of(r) =~= match summary {
        Some(_) => seq!["summary"@],
        None => seq![],
    } + match description {
        Some(_) => seq!["description"@],
        None => seq![],
    });
    r
}

/// The answer to deleting an event: deleted on success or 404 (already
/// gone), otherwise as `google_status` reads it.
pub fn delete_event_outcome(status: u16, json: &Json) -> (r: Result<(), ProviderError>)
    ensures
        (200 <= status <= 299 || status == 404) ==> r is Ok,
        status == 401 ==> r matches Err(ProviderError::TokenExpired),
        !(200 <= status <= 299) && status != 404 && status != 401 ==> (r matches Err(
            ProviderError::Api(m),
        ) && m@ == match opt_str(json_get2(*json, "error"@, "message"@)) {
            Some(x) => x,
            None => "Unknown error"@,
        }),
{
    if status == 404 {
        return Ok(());
    }
    google_status(status, json)
}

/// The query of a file listing: `pageSize` (kept within 1 to 1000), the
/// fields asked for, and the search (`trashed = false` by default).
pub fn drive_list_params(page_size: u32, query: Option<&str>) -> (r: Vec<(String, String)>)
    ensures
        crate::providers::pairs_view(r@) == seq![
            ("pageSize"@, decimal(if page_size < 1 { 1nat } else if page_size > 1000 { 1000nat } else { page_size as nat })),
            ("fields"@, "files(id,name,mimeType,size,createdTime,modifiedTime,webViewLink,owners/displayName),nextPageToken"@),
            ("q"@, match query {
                Some(q) => q@,
                None => "trashed = false"@,
            }),
        ],
{
    let n: u64 = if page_size < 1 {
        1
    } else if page_size > 1000 {
        1000
    } else {
        page_size as u64
    };
    let mut ps: Vec<char> = Vec::new();
    crate::text::push_decimal_u64(&mut ps, n);
    let mut p: Vec<(String, String)> = Vec::new();
    p.push(("pageSize".to_owned(), string_from_chars(&ps)));
    p.push(
        (
            "fields".to_owned(),
            "files(id,name,mimeType,size,createdTime,modifiedTime,webViewLink,owners/displayName),nextPageToken".to_owned(),
        ),
    );
    let q = match query {
        Some(q) => q.to_owned(),
        None => "trashed = false".to_owned(),
    };
    p.push(("q".to_owned(), q));
    assert(crate::providers::pairs_view(p@) =~= seq![
        ("pageSize"@, decimal(if page_size < 1 { 1nat } else if page_size > 1000 { 1000nat } else { page_size as nat })),
        ("fields"@, "files(id,name,mimeType,size,createdTime,modifiedTime,webViewLink,owners/displayName),nextPageToken"@),
        ("q"@, match query {
            Some(q) => q@,
            None => "trashed = false"@,
        }),
    ]);
    p
}

/// The answer to exporting a file: its id, the MIME type, the content in
/// standard base64 and its size in bytes.
pub fn export_body(file_id: &str, mime_type: &str, bytes: &[u8]) -> (r: Json)
    requires
        bytes@.len() <= i64::MAX,
    ensures
        keys_of(r) == seq!["file_id"@, "mime_type"@, "content_base64"@, "size_bytes"@],
        str_at(r, "file_id"@) == Some(file_id@),
        str_at(r, "mime_type"@) == Some(mime_type@),
        str_at(r, "content_base64"@) == Some(base64_standard(bytes@)),
        json_get(r, "size_bytes"@) == Some(Json::Int(bytes@.len() as i64)),
{
    let encoded = base64_standard_encode(bytes);
    let mut f: Vec<(String, Json)> = Vec::new();
    proof {
        assert(f@.map_values(|p: (String, Json)| p.0@) =~= Seq::<Seq<char>>::empty());
        reveal_strlit("file_id");
        reveal_strlit("mime_type");
        reveal_strlit("content_base64");
        reveal_strlit("size_bytes");
        assert("file_id"@[0] == 'f' && "mime_type"@[0] == 'm' && "content_base64"@[0] == 'c');
        assert("size_bytes"@[0] == 's');
    }
    push_member(&mut f, "file_id", Json::Str(file_id.to_owned()));
    push_member(&mut f, "mime_type", Json::Str(mime_type.to_owned()));
    push_member(&mut f, "content_base64", Json::Str(encoded));
    push_member(&mut f, "size_bytes", Json::Int(bytes.len() as i64));
    let r = Json::Object(f);
    assert(keys_of(r) =~= seq!["file_id"@, "mime_type"@, "content_base64"@, "size_bytes"@]);
    r
}

/// The failure of an export: an expired token on 401, otherwise an error
/// with the answer's `error.message`, else `Export failed`.
pub fn export_error(status: u16, json: &Json) -> (r: ProviderError)
    ensures
        status == 401 ==> r matches ProviderError::TokenExpired,
        status != 401 ==> (r matches ProviderError::Api(m) && m@ == match opt_str(
            json_get2(*json, "error"@, "message"@),
        ) {
            Some(x) => x,
            None => "Export failed"@,
        }),
{
    if status == 401 {
        return ProviderError::TokenExpired;
    }
    let m = match json.get2("error", "message") {
        Some(v) => match v.as_str() {
            Some(x) => x.to_owned(),
            None => "Export failed".to_owned(),
        },
        None => "Export failed".to_owned(),
    };
    ProviderError::Api(m)
}

} // verus!
