//! Post rules shared by the HTTP API and the scheduler: content
//! sanitizing, creation checks, which posts may be published, and thread
//! linking.
use vstd::prelude::*;

use crate::providers::{identifier_spec, max_content_length_spec, name_spec, ProviderKind};
use crate::social::{count_kind, media_limit_error, too_long_message, PostContent};
use crate::text::{byte_len, chars_of, push_decimal, push_str_chars, string_from_chars, trim, trim_chars};

verus! {

/// Lifecycle state of a post.
#[derive(PartialEq, Eq, Structural, Clone, Copy)]
pub enum PostState {
    Draft,
    Queued,
    Publishing,
    Published,
    Error,
}

/// Shared post service.
pub struct PostService;

/// `s` with HTML tags removed: everything from a `<` up to the next `>` is
/// dropped (a `>` outside a tag is kept).
pub open spec fn strip_tags(s: Seq<char>, in_tag: bool) -> Seq<char>
    decreases s.len(),
{
    if s.len() == 0 {
        seq![]
    } else {
        let c = s[0];
        let rest = s.drop_first();
        if c == '<' {
            strip_tags(rest, true)
        } else if c == '>' && in_tag {
            strip_tags(rest, false)
        } else if !in_tag {
            seq![c] + strip_tags(rest, false)
        } else {
            strip_tags(rest, true)
        }
    }
}

/// The sanitized content: tags stripped, trimmed, and cut to `max_len`
/// characters.
pub open spec fn sanitize_spec(raw: Seq<char>, max_len: nat) -> Seq<char> {
    let clean = trim(strip_tags(raw, false));
    if clean.len() > max_len {
        clean.take(max_len as int)
    } else {
        clean
    }
}

proof fn lemma_strip_tags_suffix(s: Seq<char>, i: int, in_tag: bool)
    requires
        0 <= i < s.len(),
    ensures
        strip_tags(s.skip(i), in_tag) == (if s[i] == '<' {
            strip_tags(s.skip(i + 1), true)
        } else if s[i] == '>' && in_tag {
            strip_tags(s.skip(i + 1), false)
        } else if !in_tag {
            seq![s[i]] + strip_tags(s.skip(i + 1), false)
        } else {
            strip_tags(s.skip(i + 1), true)
        }),
{
    assert(s.skip(i).drop_first() =~= s.skip(i + 1));
}

/// No `<` survives tag stripping.
pub proof fn lemma_strip_tags_no_lt(s: Seq<char>, in_tag: bool)
    ensures
        forall|i: int| 0 <= i < strip_tags(s, in_tag).len() ==> strip_tags(s, in_tag)[i] != '<',
    decreases s.len(),
{
    if s.len() > 0 {
        let rest = s.drop_first();
        lemma_strip_tags_no_lt(rest, true);
        lemma_strip_tags_no_lt(rest, false);
        let c = s[0];
        let r = strip_tags(s, in_tag);
        if c == '<' {
            assert(r == strip_tags(rest, true));
        } else if c == '>' && in_tag {
            assert(r == strip_tags(rest, false));
        } else if !in_tag {
            let tail = strip_tags(rest, false);
            assert(r == seq![c] + tail);
            assert forall|i: int| 0 <= i < r.len() implies r[i] != '<' by {
                if i > 0 {
                    assert(r[i] == tail[i - 1]);
                }
            }
        } else {
            assert(r == strip_tags(rest, true));
        }
    }
}

impl PostService {
    /// Sanitize post content: strip HTML tags, trim, and limit the length
    /// to `max_len` characters.
    pub fn sanitize_content(raw: &str, max_len: usize) -> (r: String)
        ensures
            r@ == sanitize_spec(raw@, max_len as nat),
    {
        let v = chars_of(raw);
        let mut clean: Vec<char> = Vec::new();
        let mut in_tag = false;
        let n = v.len();
        assert(v@.skip(0) =~= v@);
        for i in 0..n
            invariant
                n == v@.len(),
                clean@ + strip_tags(v@.skip(i as int), in_tag) == strip_tags(v@, false),
        {
            proof {
                lemma_strip_tags_suffix(v@, i as int, in_tag);
            }
            let ch = v[i];
            let ghost before = clean@;
            if ch == '<' {
                in_tag = true;
            } else if ch == '>' && in_tag {
                in_tag = false;
            } else if !in_tag {
                clean.push(ch);
                assert(clean@ + strip_tags(v@.skip(i + 1), in_tag) =~= before + (seq![ch]
                    + strip_tags(v@.skip(i + 1), false)));
            }
        }
        assert(v@.skip(n as int) =~= Seq::<char>::empty());
        assert(clean@ =~= strip_tags(v@, false));
        let t = trim_chars(&clean);
        if t.len() > max_len {
            let mut cut: Vec<char> = Vec::new();
            for i in 0..max_len
                invariant
                    max_len < t@.len(),
                    cut@ == t@.take(i as int),
            {
                cut.push(t[i]);
                assert(cut@ =~= t@.take(i + 1));
            }
            string_from_chars(&cut)
        } else {
            string_from_chars(&t)
        }
    }

    /// The content that `create` stores, or why the post is refused: content
    /// is sanitized to at most 2000 characters and must not be blank.
    pub fn validate_new_content(content: &str) -> (r: Result<String, String>)
        ensures
            trim(sanitize_spec(content@, 2000)).len() == 0 ==> (r matches Err(e) && e@
                == "Content cannot be empty"@),
            trim(sanitize_spec(content@, 2000)).len() > 0 ==> (r matches Ok(c) && c@
                == sanitize_spec(content@, 2000)),
    {
        let c = Self::sanitize_content(content, 2000);
        let v = chars_of(c.as_str());
        let t = trim_chars(&v);
        if t.len() == 0 {
            return Err("Content cannot be empty".to_owned());
        }
        if v.len() > 2000 {
            let mut out: Vec<char> = Vec::new();
            push_str_chars(&mut out, "Content exceeds 2000 chars (got ");
            push_decimal(&mut out, v.len());
            push_str_chars(&mut out, ")");
            return Err(string_from_chars(&out));
        }
        Ok(c)
    }

    /// Only queued or failed posts may be published, and only through an
    /// enabled integration.
    pub fn check_publishable(state: PostState, integration_disabled: bool) -> (r: Result<(), String>)
        ensures
            state == PostState::Draft ==> (r matches Err(e) && e@
                == "Draft posts must be scheduled first"@),
            state == PostState::Published ==> (r matches Err(e) && e@ == "Post already published"@),
            state != PostState::Draft && state != PostState::Published && integration_disabled
                ==> (r matches Err(e) && e@
                == "Integration is disabled. Reconnect the social account."@),
            state != PostState::Draft && state != PostState::Published && !integration_disabled
                ==> r is Ok,
    {
        match state {
            PostState::Draft => return Err("Draft posts must be scheduled first".to_owned()),
            PostState::Published => return Err("Post already published".to_owned()),
            _ => {},
        }
        if integration_disabled {
            return Err("Integration is disabled. Reconnect the social account.".to_owned());
        }
        Ok(())
    }

    /// The content to publish, or why the post cannot be published: the
    /// refusals of `check_publishable` in their order, then a provider that
    /// is not registered; otherwise the content sanitized to the provider's
    /// length limit.
    pub fn publish_plan(
        state: PostState,
        integration_disabled: bool,
        provider: Option<ProviderKind>,
        provider_id: &str,
        content: &str,
    ) -> (r: Result<String, String>)
        ensures
            state == PostState::Draft ==> (r matches Err(e) && e@
                == "Draft posts must be scheduled first"@),
            state == PostState::Published ==> (r matches Err(e) && e@ == "Post already published"@),
            state != PostState::Draft && state != PostState::Published && integration_disabled
                ==> (r matches Err(e) && e@
                == "Integration is disabled. Reconnect the social account."@),
            state != PostState::Draft && state != PostState::Published && !integration_disabled
                ==> match provider {
                None => r matches Err(e) && e@ == "Provider '"@ + provider_id@ + "' not found"@,
                Some(k) => r matches Ok(c) && c@ == sanitize_spec(content@, max_content_length_spec(k)),
            },
    {
        Self::check_publishable(state, integration_disabled)?;
        match provider {
            None => {
                let mut out: Vec<char> = Vec::new();
                push_str_chars(&mut out, "Provider '");
                push_str_chars(&mut out, provider_id);
                push_str_chars(&mut out, "' not found");
                Err(string_from_chars(&out))
            },
            Some(k) => Ok(Self::sanitize_content(content, k.max_content_length())),
        }
    }

    /// The sequence number of the thread part that a post replies to: the
    /// previous part, for posts after the first in a thread group.
    pub fn predecessor_sequence(in_group: bool, sequence: i32) -> (r: Option<i32>)
        ensures
            r == (if in_group && sequence > 1 {
                Some((sequence - 1) as i32)
            } else {
                None::<i32>
            }),
    {
        if in_group && sequence > 1 {
            Some(sequence - 1)
        } else {
            None
        }
    }
}

/// Law: sanitized content never holds a `<` and never exceeds the length
/// limit.
pub proof fn lemma_sanitized_content(raw: Seq<char>, max_len: nat)
    ensures
        sanitize_spec(raw, max_len).len() <= max_len,
        forall|i: int|
            0 <= i < sanitize_spec(raw, max_len).len() ==> sanitize_spec(raw, max_len)[i] != '<',
{
    let s = strip_tags(raw, false);
    lemma_strip_tags_no_lt(raw, false);
    crate::text::lemma_leading_ws_bounds(s);
    let t1 = crate::text::trim_start(s);
    crate::text::lemma_trailing_ws_bounds(t1);
    let t = trim(s);
    assert forall|i: int| 0 <= i < t.len() implies t[i] != '<' by {
        assert(t[i] == t1[i]);
        assert(t1[i] == s[i + crate::text::leading_ws(s)]);
    }
}

/// The media check a provider makes before publishing: Facebook and
/// LinkedIn hold the media to their platform limits; the others accept any
/// media.
pub open spec fn media_check_spec(k: ProviderKind, post: PostContent) -> Option<Seq<char>> {
    if k == ProviderKind::Facebook || k == ProviderKind::Linkedin {
        media_limit_error(
            identifier_spec(k),
            count_kind(post.media@, "image/"@),
            count_kind(post.media@, "video/"@),
            post.media@.len(),
        )
    } else {
        None
    }
}

/// The checks before a publish: content over the provider's limit stops it
/// with `Content validation failed: ...`; then media the provider refuses
/// stop it with `Media validation failed: ...`; otherwise it may go on.
pub fn validate_for_publish(k: &ProviderKind, post: &PostContent) -> (r: Result<(), String>)
    ensures
        byte_len(post.content@) > max_content_length_spec(*k) ==> (r matches Err(e) && e@
            == "Content validation failed: "@ + too_long_message(
            byte_len(post.content@),
            max_content_length_spec(*k),
            name_spec(*k),
        )),
        byte_len(post.content@) <= max_content_length_spec(*k) ==> match media_check_spec(*k, *post) {
            Some(m) => r matches Err(e) && e@ == "Media validation failed: "@ + m,
            None => r is Ok,
        },
{
    let _ = crate::text::str_byte_len(post.content.as_str());
    if let Err(m) = crate::social::validate_post(post, k.max_content_length(), k.name()) {
        let mut out: Vec<char> = Vec::new();
        push_str_chars(&mut out, "Content validation failed: ");
        push_str_chars(&mut out, m.as_str());
        return Err(string_from_chars(&out));
    }
    let checks_media = match k {
        ProviderKind::Facebook => true,
        ProviderKind::Linkedin => true,
        _ => false,
    };
    if checks_media {
        if let Err(m) = crate::social::validate_media_limits(k.identifier(), post) {
            let mut out: Vec<char> = Vec::new();
            push_str_chars(&mut out, "Media validation failed: ");
            push_str_chars(&mut out, m.as_str());
            return Err(string_from_chars(&out));
        }
    }
    Ok(())
}

} // verus!
