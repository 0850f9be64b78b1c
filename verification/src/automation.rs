//! Auto-reply rules for comments and messages: which rules a trigger
//! matches, the cooldown and hourly limits, and the reply text.
use vstd::prelude::*;

use crate::engagement::{to_lowercase, unicode_lowercase};
use crate::json::{json_as_str, json_get, Json};
use crate::short_link::{replace_all, replace_url};
use crate::text::{chars_contain, chars_of, contains, is_lit, opt_str_view};

verus! {

/// The event that may trigger an automation rule.
pub struct TriggerContext {
    pub trigger_id: String,
    pub trigger_type: String,
    pub platform: String,
    pub author_name: Option<String>,
    pub content: String,
    pub post_id: Option<String>,
}

/// The parts of an automation rule that deciding and replying read.
pub struct AutomationRule {
    pub id: u128,
    pub integration_id: u128,
    pub name: String,
    pub trigger_type: String,
    pub trigger_filter: Json,
    pub response_template: String,
    pub response_type: String,
    pub ai_model: Option<String>,
    pub cooldown_minutes: Option<i32>,
    pub max_responses_per_hour: Option<i32>,
}

/// ASCII lowercase of one character.
pub open spec fn ascii_lower(c: char) -> char {
    if 'A' <= c && c <= 'Z' {
        ((c as u32) + 32) as char
    } else {
        c
    }
}

/// `str::eq_ignore_ascii_case`.
pub open spec fn eq_ignore_ascii_case(a: Seq<char>, b: Seq<char>) -> bool {
    a.len() == b.len() && forall|i: int| 0 <= i < a.len() ==> ascii_lower(#[trigger] a[i]) == ascii_lower(b[i])
}

fn lower_ascii(c: char) -> (r: char)
    ensures
        r == ascii_lower(c),
{
    if 'A' <= c && c <= 'Z' {
        ((c as u8) + 32) as char
    } else {
        c
    }
}

fn chars_eq_ignore_ascii_case(a: &Vec<char>, b: &Vec<char>) -> (r: bool)
    ensures
        r == eq_ignore_ascii_case(a@, b@),
{
    if a.len() != b.len() {
        return false;
    }
    let n = a.len();
    for i in 0..n
        invariant
            n == a@.len() == b@.len(),
            forall|j: int| 0 <= j < i ==> ascii_lower(#[trigger] a@[j]) == ascii_lower(b@[j]),
    {
        if lower_ascii(a[i]) != lower_ascii(b[i]) {
            return false;
        }
    }
    true
}

/// Some string among `items` satisfies `pred` (non-strings never do).
pub open spec fn any_str(items: Seq<Json>, pred: spec_fn(Seq<char>) -> bool) -> bool {
    exists|i: int| 0 <= i < items.len() && (json_as_str(#[trigger] items[i]) matches Some(s) && pred(s))
}

/// Whether a trigger passes a rule's filter: some `keywords` entry occurs in
/// the content (both lowercased), some `platforms` entry names the platform
/// (ignoring ASCII case), and with `exclude_own` the author is not the
/// account itself (`own_internal_id`). Absent criteria pass.
pub open spec fn matches_filter_spec(filter: Json, ctx_content: Seq<char>, platform: Seq<char>, author: Option<Seq<char>>, own_internal_id: Option<Seq<char>>) -> bool {
    let kw_ok = match json_get(filter, "keywords"@) {
        Some(Json::Array(items)) => any_str(items@, |kw: Seq<char>| contains(unicode_lowercase(ctx_content), unicode_lowercase(kw))),
        _ => true,
    };
    let pl_ok = match json_get(filter, "platforms"@) {
        Some(Json::Array(items)) => any_str(items@, |p: Seq<char>| eq_ignore_ascii_case(p, platform)),
        _ => true,
    };
    let own_ok = match json_get(filter, "exclude_own"@) {
        Some(Json::Bool(true)) => match own_internal_id {
            Some(own) => author != Some(own),
            None => true,
        },
        _ => true,
    };
    kw_ok && pl_ok && own_ok
}

/// Law: the filter sees the content only through its lowercase form, so two
/// texts that differ only in case are treated alike.
pub proof fn lemma_filter_ignores_case(
    filter: Json,
    c1: Seq<char>,
    c2: Seq<char>,
    platform: Seq<char>,
    author: Option<Seq<char>>,
    own: Option<Seq<char>>,
)
    requires
        unicode_lowercase(c1) == unicode_lowercase(c2),
    ensures
        matches_filter_spec(filter, c1, platform, author, own) == matches_filter_spec(filter, c2, platform, author, own),
{
}

/// The list entry is a keyword that, lowercased, occurs in the lowercased
/// content.
pub open spec fn keyword_hit(content: Seq<char>, item: Json) -> bool {
    match json_as_str(item) {
        Some(kw) => contains(unicode_lowercase(content), unicode_lowercase(kw)),
        None => false,
    }
}

/// Law: a keyword list passes exactly when some keyword, lowercased, occurs
/// in the lowercased content. With no other criterion in the filter, that
/// decides the match.
pub proof fn lemma_keyword_match(
    filter: Json,
    items: Vec<Json>,
    content: Seq<char>,
    platform: Seq<char>,
    author: Option<Seq<char>>,
    own: Option<Seq<char>>,
)
    requires
        json_get(filter, "keywords"@) == Some(Json::Array(items)),
        !(json_get(filter, "platforms"@) matches Some(Json::Array(_))),
        json_get(filter, "exclude_own"@) != Some(Json::Bool(true)),
    ensures
        matches_filter_spec(filter, content, platform, author, own) <==> exists|i: int|
            0 <= i < items@.len() && #[trigger] keyword_hit(content, items@[i]),
{
    if matches_filter_spec(filter, content, platform, author, own) {
        let i = choose|i: int| 0 <= i < items@.len() && (json_as_str(#[trigger] items@[i]) matches Some(s) && contains(unicode_lowercase(content), unicode_lowercase(s)));
        assert(keyword_hit(content, items@[i]));
    }
    if exists|i: int| 0 <= i < items@.len() && #[trigger] keyword_hit(content, items@[i]) {
        let i = choose|i: int| 0 <= i < items@.len() && #[trigger] keyword_hit(content, items@[i]);
        assert(json_as_str(items@[i]) matches Some(s) && contains(unicode_lowercase(content), unicode_lowercase(s)));
    }
}

/// Law: with `exclude_own`, a trigger written by the account itself never
/// matches.
pub proof fn lemma_exclude_own(filter: Json, content: Seq<char>, platform: Seq<char>, own: Seq<char>)
    requires
        json_get(filter, "exclude_own"@) == Some(Json::Bool(true)),
    ensures
        !matches_filter_spec(filter, content, platform, Some(own), Some(own)),
{
}

/// Whether the trigger passes the rule's filter. `own_internal_id` is the
/// connected account's own id, looked up when the filter has `exclude_own`.
pub fn matches_filter(rule: &AutomationRule, context: &TriggerContext, own_internal_id: Option<&str>) -> (r: bool)
    ensures
        r == matches_filter_spec(
            rule.trigger_filter,
            context.content@,
            context.platform@,
            opt_str_view(context.author_name),
            match own_internal_id {
                Some(s) => Some(s@),
                None => None,
            },
        ),
{
    let filter = &rule.trigger_filter;
    let kw_ok = match filter.get("keywords") {
        Some(Json::Array(items)) => {
            let lower = to_lowercase(context.content.as_str());
            let content_lower = chars_of(lower.as_str());
            let mut found = false;
            let n = items.len();
            for i in 0..n
                invariant
                    n == items@.len(),
                    content_lower@ == unicode_lowercase(context.content@),
                    found == exists|j: int| 0 <= j < i && (json_as_str(#[trigger] items@[j]) matches Some(s) && contains(unicode_lowercase(context.content@), unicode_lowercase(s))),
            {
                if let Some(kw) = items[i].as_str() {
                    let kl = to_lowercase(kw);
                    let kv = chars_of(kl.as_str());
                    if chars_contain(&content_lower, &kv) {
                        found = true;
                    }
                }
            }
            found
        },
        _ => true,
    };
    if !kw_ok {
        return false;
    }
    let pl_ok = match filter.get("platforms") {
        Some(Json::Array(items)) => {
            let plat = chars_of(context.platform.as_str());
            let mut found = false;
            let n = items.len();
            for i in 0..n
                invariant
                    n == items@.len(),
                    plat@ == context.platform@,
                    found == exists|j: int| 0 <= j < i && (json_as_str(#[trigger] items@[j]) matches Some(s) && eq_ignore_ascii_case(s, context.platform@)),
            {
                if let Some(p) = items[i].as_str() {
                    let pv = chars_of(p);
                    if chars_eq_ignore_ascii_case(&pv, &plat) {
                        found = true;
                    }
                }
            }
            found
        },
        _ => true,
    };
    if !pl_ok {
        return false;
    }
    match filter.get("exclude_own") {
        Some(Json::Bool(true)) => match own_internal_id {
            Some(own) => match &context.author_name {
                Some(a) => {
                    let av = chars_of(a.as_str());
                    !is_lit(&av, own)
                },
                None => true,
            },
            None => true,
        },
        _ => true,
    }
}

/// The cooldown (minutes) a rule imposes per trigger, when it has one.
pub fn cooldown_window(rule: &AutomationRule) -> (r: Option<i32>)
    ensures
        r == match rule.cooldown_minutes {
            Some(c) => if c > 0 {
                Some(c)
            } else {
                None::<i32>
            },
            None => None::<i32>,
        },
{
    let c = match rule.cooldown_minutes {
        Some(c) => c,
        None => 0,
    };
    if c <= 0 {
        None
    } else {
        Some(c)
    }
}

/// Within the cooldown window, a trigger already answered is not answered
/// again.
pub fn passes_cooldown(sent_within_window: i64) -> (r: bool)
    ensures
        r == (sent_within_window == 0),
{
    sent_within_window == 0
}

/// The hourly reply cap of a rule (default 10); none when not positive.
pub fn hourly_cap(rule: &AutomationRule) -> (r: Option<i32>)
    ensures
        r == match rule.max_responses_per_hour {
            Some(m) => if m > 0 {
                Some(m)
            } else {
                None::<i32>
            },
            None => Some(10i32),
        },
{
    let m = match rule.max_responses_per_hour {
        Some(m) => m,
        None => 10,
    };
    if m <= 0 {
        None
    } else {
        Some(m)
    }
}

/// A rule with a cap may reply while fewer than the cap were sent in the
/// last hour.
pub fn passes_rate_limit(cap: Option<i32>, sent_last_hour: i64) -> (r: bool)
    ensures
        r == match cap {
            Some(m) => sent_last_hour < m,
            None => true,
        },
{
    match cap {
        Some(m) => sent_last_hour < m as i64,
        None => true,
    }
}

/// How a rule's reply is written.
pub enum ResponseKind {
    /// The template as is.
    Fixed,
    /// The template with `{author}`, `{content}` and `{platform}` filled in.
    Template,
    /// A reply written by the language model.
    AiGenerated,
}

pub open spec fn response_kind_spec(response_type: Seq<char>) -> ResponseKind {
    if response_type == "template"@ {
        ResponseKind::Template
    } else if response_type == "ai_generated"@ {
        ResponseKind::AiGenerated
    } else {
        ResponseKind::Fixed
    }
}

pub fn response_kind(response_type: &str) -> (r: ResponseKind)
    ensures
        r == response_kind_spec(response_type@),
{
    let v = chars_of(response_type);
    if is_lit(&v, "template") {
        ResponseKind::Template
    } else if is_lit(&v, "ai_generated") {
        ResponseKind::AiGenerated
    } else {
        ResponseKind::Fixed
    }
}

/// The template with `{author}` (or `there` without an author), then
/// `{content}`, then `{platform}` replaced.
pub open spec fn fill_template_spec(template: Seq<char>, author: Option<Seq<char>>, content: Seq<char>, platform: Seq<char>) -> Seq<char> {
    let a = match author {
        Some(x) => x,
        None => "there"@,
    };
    let t1 = replace_all(template, "{author}"@, a);
    let t2 = replace_all(t1, "{content}"@, content);
    replace_all(t2, "{platform}"@, platform)
}

/// Fills in a template reply.
pub fn fill_template(template: &str, context: &TriggerContext) -> (r: String)
    ensures
        r@ == fill_template_spec(template@, opt_str_view(context.author_name), context.content@, context.platform@),
{
    proof {
        reveal_strlit("{author}");
        reveal_strlit("{content}");
        reveal_strlit("{platform}");
    }
    let author: &str = match &context.author_name {
        Some(a) => a.as_str(),
        None => "there",
    };
    let t1 = replace_url(template, "{author}", author);
    let t2 = replace_url(t1.as_str(), "{content}", context.content.as_str());
    replace_url(t2.as_str(), "{platform}", context.platform.as_str())
}

/// The prompt sent to the language model for an AI reply.
pub open spec fn ai_prompt_spec(trigger_type: Seq<char>, platform: Seq<char>, content: Seq<char>) -> Seq<char> {
    "You are a social media manager. Respond to this "@ + trigger_type + " comment/message on "@
        + platform + ".\n\nComment: "@ + content
        + "\n\nGenerate a brief, friendly, professional response."@
}

pub fn ai_prompt(context: &TriggerContext) -> (r: String)
    ensures
        r@ == ai_prompt_spec(context.trigger_type@, context.platform@, context.content@),
{
    let mut out: Vec<char> = Vec::new();
    crate::text::push_str_chars(&mut out, "You are a social media manager. Respond to this ");
    crate::text::push_str_chars(&mut out, context.trigger_type.as_str());
    crate::text::push_str_chars(&mut out, " comment/message on ");
    crate::text::push_str_chars(&mut out, context.platform.as_str());
    crate::text::push_str_chars(&mut out, ".\n\nComment: ");
    crate::text::push_str_chars(&mut out, context.content.as_str());
    crate::text::push_str_chars(&mut out, "\n\nGenerate a brief, friendly, professional response.");
    crate::text::string_from_chars(&out)
}

/// The model a rule asks for (default `gpt-4o-mini`).
pub fn ai_model(rule: &AutomationRule) -> (r: String)
    ensures
        r@ == match rule.ai_model {
            Some(m) => m@,
            None => "gpt-4o-mini"@,
        },
{
    match &rule.ai_model {
        Some(m) => m.clone(),
        None => "gpt-4o-mini".to_owned(),
    }
}

/// `choices[0].message.content` of a chat-completions response.
pub open spec fn ai_reply_spec(json: Json) -> Option<Seq<char>> {
    match json_get(json, "choices"@) {
        Some(Json::Array(items)) => if items@.len() > 0 {
            match json_get(items@[0], "message"@) {
                Some(m) => match json_get(m, "content"@) {
                    Some(t) => json_as_str(t),
                    None => None,
                },
                None => None,
            }
        } else {
            None
        },
        _ => None,
    }
}

/// The AI reply text in a chat-completions response, or `Empty AI response`.
pub fn ai_reply_from_response(json: &Json) -> (r: Result<String, String>)
    ensures
        match ai_reply_spec(*json) {
            Some(t) => r matches Ok(x) && x@ == t,
            None => r matches Err(e) && e@ == "Empty AI response"@,
        },
{
    let choice = match json.get("choices") {
        Some(Json::Array(items)) => if items.len() > 0 {
            Some(&items[0])
        } else {
            None
        },
        _ => None,
    };
    let content = match choice {
        Some(c) => match c.get("message") {
            Some(m) => match m.get("content") {
                Some(t) => t.as_str(),
                None => None,
            },
            None => None,
        },
        None => None,
    };
    match content {
        Some(s) => Ok(s.to_owned()),
        None => Err("Empty AI response".to_owned()),
    }
}

/// The reply of a rule that needs no language model: the template filled
/// in for `template` rules, the template as is for every other kind but
/// `ai_generated` (which has none here).
pub fn direct_reply(rule: &AutomationRule, context: &TriggerContext) -> (r: Option<String>)
    ensures
        match response_kind_spec(rule.response_type@) {
            ResponseKind::Template => r matches Some(x) && x@ == fill_template_spec(
                rule.response_template@,
                opt_str_view(context.author_name),
                context.content@,
                context.platform@,
            ),
            ResponseKind::AiGenerated => r is None,
            ResponseKind::Fixed => r matches Some(x) && x@ == rule.response_template@,
        },
{
    match response_kind(rule.response_type.as_str()) {
        ResponseKind::Template => Some(fill_template(rule.response_template.as_str(), context)),
        ResponseKind::AiGenerated => None,
        ResponseKind::Fixed => Some(rule.response_template.clone()),
    }
}

/// The chat-completions request: the model, the prompt as the one user
/// message, and a limit of 200 tokens.
pub fn ai_request_body(model: String, prompt: String) -> (r: Json)
    ensures
        r matches Json::Object(f) && f@.len() == 3 && f@[0].0@ == "model"@ && json_as_str(f@[0].1)
            == Some(model@) && f@[1].0@ == "messages"@ && f@[1].1 is Array && f@[1].1->Array_0@.len()
            == 1 && crate::business_profile::is_string_object(
            f@[1].1->Array_0@[0],
            seq![("role"@, "user"@), ("content"@, prompt@)],
        ) && f@[2].0@ == "max_tokens"@ && f@[2].1 == Json::Int(200),
{
    let mut message: Vec<(String, Json)> = Vec::new();
    message.push(("role".to_owned(), Json::Str("user".to_owned())));
    message.push(("content".to_owned(), Json::Str(prompt)));
    let mut messages: Vec<Json> = Vec::new();
    messages.push(Json::Object(message));
    let mut f: Vec<(String, Json)> = Vec::new();
    f.push(("model".to_owned(), Json::Str(model)));
    f.push(("messages".to_owned(), Json::Array(messages)));
    f.push(("max_tokens".to_owned(), Json::Int(200)));
    Json::Object(f)
}

} // verus!
