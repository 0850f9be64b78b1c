//! Discord: the channels a bot can post to, the message payload and the
//! answer to posting it, and the token refresh answer.
use vstd::prelude::*;

use crate::json::{get_i64, json_get, keys_of, push_member, str_at, str_or, str_or_owned, Json};
use crate::social::{AuthToken, PageInfo, PostContent, ProviderError, PublishResult};
use crate::text::{opt_str_view, push_str_chars, string_from_chars};
use crate::tokens::auth_view;

verus! {

/// A channel a message can be posted to: a text (0), announcement (5) or
/// forum (15) channel.
pub open spec fn postable_channel(c: Json) -> bool {
    get_i64(c, "type"@) == Some(0i64) || get_i64(c, "type"@) == Some(5i64) || get_i64(c, "type"@)
        == Some(15i64)
}

/// The `id` and `name` of each postable channel, in order.
pub open spec fn channels_spec(cs: Seq<Json>) -> Seq<(Seq<char>, Seq<char>)>
    decreases cs.len(),
{
    if cs.len() == 0 {
        seq![]
    } else {
        let rest = channels_spec(cs.drop_last());
        if postable_channel(cs.last()) {
            rest.push((str_or(cs.last(), "id"@, ""@), str_or(cs.last(), "name"@, ""@)))
        } else {
            rest
        }
    }
}

/// The postable channels of a guild's channel list (no list gives none),
/// each with its `id` and `name` and nothing else.
pub fn channels(json: &Json) -> (r: Vec<PageInfo>)
    ensures
        r@.map_values(|p: PageInfo| (p.id@, p.name@)) == match *json {
            Json::Array(cs) => channels_spec(cs@),
            _ => seq![],
        },
        forall|i: int|
            0 <= i < r@.len() ==> (#[trigger] r@[i]).access_token is None && r@[i].picture is None
                && r@[i].username is None,
{
    let mut out: Vec<PageInfo> = Vec::new();
    if let Json::Array(cs) = json {
        let n = cs.len();
        assert(cs@.take(0) =~= Seq::<Json>::empty());
        for i in 0..n
            invariant
                n == cs@.len(),
                out@.map_values(|p: PageInfo| (p.id@, p.name@)) == channels_spec(cs@.take(i as int)),
                forall|k: int|
                    0 <= k < out@.len() ==> (#[trigger] out@[k]).access_token is None
                        && out@[k].picture is None && out@[k].username is None,
        {
            assert(cs@.take(i + 1).drop_last() =~= cs@.take(i as int));
            assert(cs@.take(i + 1).last() == cs@[i as int]);
            let t: Option<i64> = match cs[i].get("type") {
                Some(v) => v.as_i64(),
                None => None,
            };
            let keep = match t {
                Some(x) => x == 0 || x == 5 || x == 15,
                None => false,
            };
            if keep {
                let ghost before = out@;
                out.push(
                    PageInfo {
                        id: str_or_owned(&cs[i], "id", ""),
                        name: str_or_owned(&cs[i], "name", ""),
                        access_token: None,
                        picture: None,
                        username: None,
                    },
                );
                assert(out@.map_values(|p: PageInfo| (p.id@, p.name@)) =~= before.map_values(
                    |p: PageInfo| (p.id@, p.name@),
                ).push((str_or(cs@[i as int], "id"@, ""@), str_or(cs@[i as int], "name"@, ""@))));
            }
        }
        assert(cs@.take(n as int) =~= cs@);
    } else {
        assert(out@.map_values(|p: PageInfo| (p.id@, p.name@)) =~= Seq::<(Seq<char>, Seq<char>)>::empty());
    }
    out
}

/// The channel and payload of a message: the settings must name the
/// `channel`; the payload holds the text and, when the post has media, an
/// embed of the first image (`embeds: [{"image": {"url"}}]`).
pub fn message_payload(post: &PostContent) -> (r: Result<(String, Json), ProviderError>)
    ensures
        match str_at(post.settings, "channel"@) {
            None => r matches Err(ProviderError::InvalidRequest(m)) && m@ == "Missing channel in settings"@,
            Some(ch) => r matches Ok((c, p)) && c@ == ch && keys_of(p) == if post.media@.len() > 0 {
                seq!["content"@, "embeds"@]
            } else {
                seq!["content"@]
            } && str_at(p, "content"@) == Some(post.content@) && match json_get(p, "embeds"@) {
                Some(Json::Array(es)) => post.media@.len() > 0 && es@.len() == 1 && keys_of(es@[0])
                    == seq!["image"@] && match json_get(es@[0], "image"@) {
                    Some(img) => keys_of(img) == seq!["url"@] && str_at(img, "url"@) == Some(
                        post.media@[0].url@,
                    ),
                    None => false,
                },
                Some(_) => false,
                None => post.media@.len() == 0,
            },
        },
{
    let channel = match post.settings.str_at("channel") {
        Some(c) => c,
        None => {
            return Err(ProviderError::InvalidRequest("Missing channel in settings".to_owned()));
        },
    };
    let mut f: Vec<(String, Json)> = Vec::new();
    proof {
        assert(f@.map_values(|p: (String, Json)| p.0@) =~= Seq::<Seq<char>>::empty());
        reveal_strlit("content");
        reveal_strlit("embeds");
        assert("content"@[0] == 'c' && "embeds"@[0] == 'e');
    }
    push_member(&mut f, "content", Json::Str(post.content.clone()));
    if post.media.len() > 0 {
        let img = crate::linkedin::obj1("url", Json::Str(post.media[0].url.clone()));
        let embed = crate::linkedin::obj1("image", img);
        let mut es: Vec<Json> = Vec::new();
        es.push(embed);
        push_member(&mut f, "embeds", Json::Array(es));
    }
    let p = Json::Object(f);
    proof {
        if post.media@.len() > 0 {
            assert(keys_of(p) =~= seq!["content"@, "embeds"@]);
        } else {
            assert(keys_of(p) =~= seq!["content"@]);
        }
    }
    Ok((channel.to_owned(), p))
}

/// The answer to posting a message: its `id` (empty when absent) and the
/// address `https://discord.com/channels/{guild}/{channel}/{id}`.
pub fn message_outcome(guild_id: &str, channel_id: &str, json: &Json) -> (r: PublishResult)
    ensures
        r.platform_post_id@ == str_or(*json, "id"@, ""@),
        opt_str_view(r.platform_post_url) == Some(
            "https://discord.com/channels/"@ + guild_id@ + "/"@ + channel_id@ + "/"@ + str_or(
                *json,
                "id"@,
                ""@,
            ),
        ),
        r.status@ == "published"@,
{
    let id = str_or_owned(json, "id", "");
    let mut out: Vec<char> = Vec::new();
    push_str_chars(&mut out, "https://discord.com/channels/");
    push_str_chars(&mut out, guild_id);
    push_str_chars(&mut out, "/");
    push_str_chars(&mut out, channel_id);
    push_str_chars(&mut out, "/");
    push_str_chars(&mut out, id.as_str());
    PublishResult {
        platform_post_id: id,
        platform_post_url: Some(string_from_chars(&out)),
        status: "published".to_owned(),
    }
}

/// The connection after a refresh: the answer's `access_token` (empty when
/// absent), `refresh_token` and `expires_in`, without profile.
pub fn discord_refreshed(json: &Json) -> (r: AuthToken)
    ensures
        auth_view(r) == (
            str_or(*json, "access_token"@, ""@),
            str_at(*json, "refresh_token"@),
            crate::tokens::expires_spec(*json),
            ""@,
            ""@,
            ""@,
            None::<Seq<char>>,
        ),
{
    let expires_in: Option<u32> = match json.get("expires_in") {
        Some(v) => match v.as_u64() {
            Some(n) => Some(n as u32),
            None => None,
        },
        None => None,
    };
    AuthToken {
        access_token: str_or_owned(json, "access_token", ""),
        refresh_token: crate::json::own_opt(json.str_at("refresh_token")),
        expires_in,
        provider_user_id: "".to_owned(),
        name: "".to_owned(),
        username: "".to_owned(),
        picture: None,
    }
}

} // verus!
