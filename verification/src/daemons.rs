//! The command-line daemons the messaging integrations talk to: the
//! `telegram-cli` command lines and the JSON lines it answers with, and the
//! WhatsApp (`wacli`) request/response protocol.
use vstd::prelude::*;

use crate::json::Json;
use crate::text::{
    chars_of, decimal, push_decimal, push_str_chars, string_from_chars, trim,
    trim_chars,
};

verus! {

/// A `telegram-cli` command.
pub enum TelegramCommand {
    /// `get_self`: the logged-in account (the authentication check).
    GetSelf,
    /// `dialog_list`.
    DialogList,
    /// `contact_list`.
    ContactList,
    /// `msg {peer} {text}`.
    Message { peer: String, text: String },
    /// `search {query}`.
    Search { query: String },
    /// `user_info {peer}`.
    UserInfo { peer: String },
    /// `history {peer} {count}`.
    History { peer: String, count: u32 },
}

/// Newlines end a command on the daemon's input, so each line feed and
/// carriage return of a message becomes a space.
pub open spec fn one_line(text: Seq<char>) -> Seq<char> {
    text.map_values(|c: char| if c == '\n' || c == '\r' { ' ' } else { c })
}

/// The command line sent for a command.
pub open spec fn command_line_spec(c: TelegramCommand) -> Seq<char> {
    match c {
        TelegramCommand::GetSelf => "get_self"@,
        TelegramCommand::DialogList => "dialog_list"@,
        TelegramCommand::ContactList => "contact_list"@,
        TelegramCommand::Message { peer, text } => "msg "@ + peer@ + " "@ + one_line(text@),
        TelegramCommand::Search { query } => "search "@ + query@,
        TelegramCommand::UserInfo { peer } => "user_info "@ + peer@,
        TelegramCommand::History { peer, count } => "history "@ + peer@ + " "@ + decimal(
            count as nat,
        ),
    }
}

fn push_one_line(out: &mut Vec<char>, text: &str)
    ensures
        final(out)@ == old(out)@ + one_line(text@),
{
    let v = chars_of(text);
    let ghost start = out@;
    let n = v.len();
    for i in 0..n
        invariant
            n == v@.len(),
            v@ == text@,
            out@ == start + one_line(v@.take(i as int)),
    {
        let c = v[i];
        if c == '\n' || c == '\r' {
            out.push(' ');
        } else {
            out.push(c);
        }
        assert(one_line(v@.take(i + 1)) =~= one_line(v@.take(i as int)).push(
            if c == '\n' || c == '\r' {
                ' '
            } else {
                c
            },
        ));
    }
    assert(v@.take(n as int) =~= v@);
}

impl TelegramCommand {
    /// The line written to the daemon for this command.
    pub fn line(&self) -> (r: String)
        ensures
            r@ == command_line_spec(*self),
    {
        let mut out: Vec<char> = Vec::new();
        match self {
            TelegramCommand::GetSelf => push_str_chars(&mut out, "get_self"),
            TelegramCommand::DialogList => push_str_chars(&mut out, "dialog_list"),
            TelegramCommand::ContactList => push_str_chars(&mut out, "contact_list"),
            TelegramCommand::Message { peer, text } => {
                push_str_chars(&mut out, "msg ");
                push_str_chars(&mut out, peer.as_str());
                push_str_chars(&mut out, " ");
                push_one_line(&mut out, text.as_str());
            },
            TelegramCommand::Search { query } => {
                push_str_chars(&mut out, "search ");
                push_str_chars(&mut out, query.as_str());
            },
            TelegramCommand::UserInfo { peer } => {
                push_str_chars(&mut out, "user_info ");
                push_str_chars(&mut out, peer.as_str());
            },
            TelegramCommand::History { peer, count } => {
                push_str_chars(&mut out, "history ");
                push_str_chars(&mut out, peer.as_str());
                push_str_chars(&mut out, " ");
                push_decimal(&mut out, *count as usize);
            },
        }
        string_from_chars(&out)
    }
}

/// An output line of the daemon that may hold its JSON answer: the line
/// trimmed, when it starts with `{` or `[` (prompts and status lines do not).
pub open spec fn json_candidate_spec(line: Seq<char>) -> Option<Seq<char>> {
    let t = trim(line);
    if t.len() > 0 && (t[0] == '{' || t[0] == '[') {
        Some(t)
    } else {
        None
    }
}

pub fn json_candidate(line: &str) -> (r: Option<String>)
    ensures
        match json_candidate_spec(line@) {
            Some(t) => r matches Some(x) && x@ == t,
            None => r is None,
        },
{
    let v = chars_of(line);
    let t = trim_chars(&v);
    if t.len() > 0 && (t[0] == '{' || t[0] == '[') {
        Some(string_from_chars(&t))
    } else {
        None
    }
}

/// What kind of chat a Telegram chat id names: ids below -10^12 (the `-100`
/// prefix) are channels and supergroups, other negative ids groups, and
/// positive ids users.
pub open spec fn chat_kind_spec(chat_id: i64) -> Seq<char> {
    if chat_id < -1_000_000_000_000i64 {
        "channel"@
    } else if chat_id < 0 {
        "group"@
    } else {
        "peer"@
    }
}

pub fn chat_kind(chat_id: i64) -> (r: String)
    ensures
        r@ == chat_kind_spec(chat_id),
{
    if chat_id < -1_000_000_000_000i64 {
        "channel".to_owned()
    } else if chat_id < 0 {
        "group".to_owned()
    } else {
        "peer".to_owned()
    }
}

/// A request to the WhatsApp daemon.
pub struct IpcRequest {
    pub id: u64,
    pub method: String,
    pub params: Option<Json>,
}

/// A response of the WhatsApp daemon.
pub struct IpcResponse {
    pub id: Option<u64>,
    pub result: Option<Json>,
    pub error: Option<IpcError>,
}

/// The error a WhatsApp daemon response reports.
pub struct IpcError {
    pub code: i32,
    pub message: String,
}

/// An integer in decimal, with a leading `-` when negative.
pub open spec fn signed_decimal(n: int) -> Seq<char> {
    if n < 0 {
        seq!['-'] + decimal((-n) as nat)
    } else {
        decimal(n as nat)
    }
}

/// The message of a daemon error: `wacli error ({code}): {message}`.
pub open spec fn ipc_error_text(code: i32, message: Seq<char>) -> Seq<char> {
    "wacli error ("@ + signed_decimal(code as int) + "): "@ + message
}

/// What a request comes to: the daemon's error as a message, else its
/// result (`null` when it sent none).
pub fn ipc_result(response: IpcResponse) -> (r: Result<Json, String>)
    ensures
        match response.error {
            Some(e) => r matches Err(m) && m@ == ipc_error_text(e.code, e.message@),
            None => match response.result {
                Some(v) => r matches Ok(x) && x == v,
                None => r matches Ok(x) && x == Json::Null,
            },
        },
{
    match response.error {
        Some(e) => {
            let mut out: Vec<char> = Vec::new();
            push_str_chars(&mut out, "wacli error (");
            if e.code < 0 {
                out.push('-');
                let magnitude: i64 = -(e.code as i64);
                push_decimal(&mut out, magnitude as usize);
            } else {
                push_decimal(&mut out, e.code as usize);
            }
            push_str_chars(&mut out, "): ");
            push_str_chars(&mut out, e.message.as_str());
            Err(string_from_chars(&out))
        },
        None => match response.result {
            Some(v) => Ok(v),
            None => Ok(Json::Null),
        },
    }
}

/// The ids of successive daemon requests, counting up from 1 (wrapping).
pub struct RequestIds {
    pub next: u64,
}

impl RequestIds {
    pub fn new() -> (r: RequestIds)
        ensures
            r.next == 1,
    {
        RequestIds { next: 1 }
    }

    /// Takes the next id.
    pub fn take(&mut self) -> (r: u64)
        ensures
            r == old(self).next,
            final(self).next == if old(self).next == u64::MAX {
                0
            } else {
                (old(self).next + 1) as u64
            },
    {
        let r = self.next;
        self.next = self.next.wrapping_add(1);
        r
    }
}

/// The parameters of a text message: `{"to": to, "text": text}`.
pub fn send_text_params(to: &str, text: &str) -> (r: Json)
    ensures
        crate::business_profile::is_string_object(r, seq![("to"@, to@), ("text"@, text@)]),
{
    let mut entries: Vec<(String, Json)> = Vec::new();
    entries.push(("to".to_owned(), Json::Str(to.to_owned())));
    entries.push(("text".to_owned(), Json::Str(text.to_owned())));
    Json::Object(entries)
}

/// Law: a message put on one line holds no line feed or carriage return,
/// and keeps its length.
pub proof fn lemma_one_line(text: Seq<char>)
    ensures
        one_line(text).len() == text.len(),
        forall|i: int| 0 <= i < text.len() ==> #[trigger] one_line(text)[i] != '\n' && one_line(text)[i] != '\r',
{
}

/// Law: a JSON candidate line is trimmed and opens an object or an array.
pub proof fn lemma_json_candidate_shape(line: Seq<char>)
    ensures
        json_candidate_spec(line) matches Some(t) ==> t.len() > 0 && (t[0] == '{' || t[0] == '[') && t == trim(line),
{
}

} // verus!
