//! Normalizing each platform's engagement figures into one record.
use vstd::prelude::*;

use crate::json::{get_i64, int_field, int_or_zero, json_as_i64, json_as_str, json_get, json_index, Json};
use crate::text::{chars_eq, chars_of, is_lit};

verus! {

/// The counters of an engagement record.
#[derive(PartialEq, Eq, Structural, Clone, Copy)]
pub struct EngagementCounts {
    pub likes: i32,
    pub comments: i32,
    pub shares: i32,
    pub views: i32,
    pub saves: i32,
    pub quotes: i32,
    pub reposts: i32,
    pub replies: i32,
    pub upvotes: i32,
    pub downvotes: i32,
    pub awards: i32,
}

/// Standardized engagement data for a post, normalized from each platform.
/// (The Reddit upvote ratio, a floating-point figure, is read by the caller.)
pub struct EngagementData {
    pub likes: i32,
    pub comments: i32,
    pub shares: i32,
    pub views: i32,
    pub saves: i32,
    pub quotes: i32,
    pub reposts: i32,
    pub replies: i32,
    pub upvotes: i32,
    pub downvotes: i32,
    pub awards: i32,
    /// Reaction breakdown: each lowercased reaction type with its count.
    pub reactions: Option<Vec<(String, u64)>>,
    /// The raw platform response.
    pub raw: Option<Json>,
}

pub open spec fn counts_of(e: EngagementData) -> EngagementCounts {
    EngagementCounts { likes: e.likes, comments: e.comments, shares: e.shares, views: e.views, saves: e.saves, quotes: e.quotes, reposts: e.reposts, replies: e.replies, upvotes: e.upvotes, downvotes: e.downvotes, awards: e.awards, }
}

pub open spec fn zero_counts() -> EngagementCounts {
    EngagementCounts { likes: 0, comments: 0, shares: 0, views: 0, saves: 0, quotes: 0, reposts: 0, replies: 0, upvotes: 0, downvotes: 0, awards: 0, }
}

/// An integer field as the record stores it (`as i32`), 0 when absent.
pub open spec fn field(j: Json, key: Seq<char>) -> i32 {
    int_or_zero(j, key) as i32
}

/// `a.or_else(b)` on lookups: the member `k1`, else the member `k2`.
pub open spec fn get_either(j: Json, k1: Seq<char>, k2: Seq<char>) -> Option<Json> {
    match json_get(j, k1) {
        Some(v) => Some(v),
        None => json_get(j, k2),
    }
}

pub open spec fn opt_int(v: Option<Json>) -> i32 {
    match v {
        Some(x) => match json_as_i64(x) {
            Some(i) => i as i32,
            None => 0,
        },
        None => 0,
    }
}

/// `j[k1][k2][k3]` as an integer (member lookups that stop at the first absence).
pub open spec fn path3(j: Json, k1: Seq<char>, k2: Seq<char>, k3: Seq<char>) -> Option<Json> {
    match json_get(j, k1) {
        Some(a) => match json_get(a, k2) {
            Some(b) => json_get(b, k3),
            None => None,
        },
        None => None,
    }
}

pub open spec fn path2(j: Json, k1: Seq<char>, k2: Seq<char>) -> Option<Json> {
    match json_get(j, k1) {
        Some(a) => json_get(a, k2),
        None => None,
    }
}

/// The counters that a platform's raw engagement JSON yields.
pub open spec fn engagement_counts_spec(p: Seq<char>, raw: Json) -> EngagementCounts {
    let z = zero_counts();
    if p == "x"@ {
        let pm = match json_get(raw, "public_metrics"@) {
            Some(m) => Some(m),
            None => if raw is Object { Some(raw) } else { None },
        };
        match pm {
            Some(m) => EngagementCounts { likes: field(m, "like_count"@), replies: field(m, "reply_count"@), reposts: field(m, "retweet_count"@), quotes: field(m, "quote_count"@), views: field(m, "impression_count"@), saves: field(m, "bookmark_count"@), ..z },
            None => z,
        }
    } else if p == "reddit"@ {
        EngagementCounts { upvotes: field(raw, "ups"@), downvotes: field(raw, "downs"@), comments: field(raw, "num_comments"@), awards: field(raw, "total_awards_received"@), likes: field(raw, "score"@), ..z }
    } else if p == "bluesky"@ {
        EngagementCounts { likes: field(raw, "likeCount"@), reposts: field(raw, "repostCount"@), replies: field(raw, "replyCount"@), quotes: field(raw, "quoteCount"@), ..z }
    } else if p == "youtube"@ {
        EngagementCounts { views: field(raw, "viewCount"@), likes: field(raw, "likeCount"@), comments: field(raw, "commentCount"@), ..z }
    } else if p == "mastodon"@ {
        EngagementCounts { likes: field(raw, "favourites_count"@), reposts: field(raw, "reblogs_count"@), replies: field(raw, "replies_count"@), ..z }
    } else if p == "tiktok"@ {
        EngagementCounts { likes: field(raw, "like_count"@), comments: field(raw, "comment_count"@), shares: field(raw, "share_count"@), views: field(raw, "view_count"@), ..z }
    } else if p == "threads"@ {
        EngagementCounts { likes: field(raw, "like_count"@), replies: field(raw, "reply_count"@), reposts: field(raw, "repost_count"@), quotes: field(raw, "quote_count"@), ..z }
    } else if p == "instagram"@ || p == "instagram_standalone"@ || p == "instagram-standalone"@ {
        let views = match get_i64(raw, "reach"@) {
            Some(v) => v,
            None => int_or_zero(raw, "impressions"@),
        };
        EngagementCounts {
            likes: field(raw, "like_count"@),
            comments: field(raw, "comments_count"@),
            saves: field(raw, "saved_count"@),
            views: views as i32,
            ..z
        }
    } else if p == "linkedin"@ || p == "linkedin_page"@ || p == "linkedin-page"@ {
        EngagementCounts {
            likes: opt_int(get_either(raw, "likeCount"@, "likes"@)),
            comments: opt_int(get_either(raw, "commentCount"@, "comments"@)),
            shares: opt_int(get_either(raw, "shareCount"@, "shares"@)),
            views: opt_int(get_either(raw, "impressionCount"@, "impressions"@)),
            ..z
        }
    } else if p == "facebook"@ {
        EngagementCounts {
            likes: opt_int(path3(raw, "reactions"@, "summary"@, "total_count"@)),
            comments: opt_int(path3(raw, "comments"@, "summary"@, "total_count"@)),
            shares: opt_int(path2(raw, "shares"@, "count"@)),
            ..z
        }
    } else {
        z
    }
}

/// The reaction types (lowercased) with their counts, in order of first
/// appearance: each element's `type` string counts once.
pub open spec fn tally(data: Seq<Json>) -> Seq<(Seq<char>, nat)>
    decreases data.len(),
{
    if data.len() == 0 {
        seq![]
    } else {
        let prev = tally(data.drop_last());
        match json_as_str(json_index(data.last(), "type"@)) {
            Some(t) => bump(prev, unicode_lowercase(t)),
            None => prev,
        }
    }
}

/// Position of `k` among the keys of `m`.
pub open spec fn key_pos(m: Seq<(Seq<char>, nat)>, k: Seq<char>) -> Option<int>
    decreases m.len(),
{
    if m.len() == 0 {
        None
    } else if m.last().0 == k {
        Some(m.len() - 1)
    } else {
        key_pos(m.drop_last(), k)
    }
}

/// `m` with the count of `k` raised by one (a new key starts at 1).
pub open spec fn bump(m: Seq<(Seq<char>, nat)>, k: Seq<char>) -> Seq<(Seq<char>, nat)> {
    match key_pos(m, k) {
        Some(i) => m.update(i, (k, m[i].1 + 1)),
        None => m.push((k, 1)),
    }
}

/// The reaction breakdown of a Facebook response: present when at least
/// one reaction in `reactions.data` has a type.
pub open spec fn reactions_spec(p: Seq<char>, raw: Json) -> Option<Seq<(Seq<char>, nat)>> {
    if p == "x"@ || p == "reddit"@ || p == "bluesky"@ || p == "youtube"@ || p == "mastodon"@ || p
        == "tiktok"@ || p == "threads"@ || p == "instagram"@ || p == "instagram_standalone"@ || p
        == "instagram-standalone"@ || p == "linkedin"@ || p == "linkedin_page"@ || p
        == "linkedin-page"@ {
        None
    } else if p == "facebook"@ {
        facebook_reactions_spec(raw)
    } else {
        None
    }
}

/// The tally of `reactions.data`, when it is an array with typed reactions.
pub open spec fn facebook_reactions_spec(raw: Json) -> Option<Seq<(Seq<char>, nat)>> {
    match path2(raw, "reactions"@, "data"@) {
        Some(Json::Array(items)) => {
            let t = tally(items@);
            if t.len() > 0 {
                Some(t)
            } else {
                None
            }
        },
        _ => None,
    }
}

/// The lowercase mapping of `s` that `str::to_lowercase` computes.
pub uninterp spec fn unicode_lowercase(s: Seq<char>) -> Seq<char>;

/// Trusted: calls `str::to_lowercase`, which maps each character to its
/// Unicode lowercase; the contract names the result.
#[verifier::external_body]
pub(crate) fn to_lowercase(s: &str) -> (r: String)
    ensures
        r@ == unicode_lowercase(s@),
{
    s.to_lowercase()
}

} // verus!

verus! {

/// Views of a tally kept as strings and counters.
pub open spec fn tally_view(v: Seq<(String, u64)>) -> Seq<(Seq<char>, nat)> {
    v.map_values(|e: (String, u64)| (e.0@, e.1 as nat))
}

proof fn lemma_key_pos_bounds(m: Seq<(Seq<char>, nat)>, k: Seq<char>)
    ensures
        key_pos(m, k) matches Some(i) ==> 0 <= i < m.len() && m[i].0 == k,
    decreases m.len(),
{
    if m.len() > 0 && m.last().0 != k {
        lemma_key_pos_bounds(m.drop_last(), k);
    }
}

fn find_key(m: &Vec<(String, u64)>, k: &Vec<char>) -> (r: Option<usize>)
    ensures
        match r {
            Some(i) => key_pos(tally_view(m@), k@) == Some(i as int),
            None => key_pos(tally_view(m@), k@) is None,
        },
        r matches Some(i) ==> i < m@.len() && m@[i as int].0@ == k@,
{
    proof {
        lemma_key_pos_bounds(tally_view(m@), k@);
    }
    let mut j = m.len();
    assert(tally_view(m@).take(j as int) =~= tally_view(m@));
    while j > 0
        invariant
            j <= m@.len(),
            key_pos(tally_view(m@), k@) == key_pos(tally_view(m@).take(j as int), k@),
        decreases j,
    {
        let name = chars_of(m[j - 1].0.as_str());
        let ghost t = tally_view(m@).take(j as int);
        assert(t.last() == tally_view(m@)[j - 1]);
        if chars_eq(&name, k) {
            return Some(j - 1);
        }
        assert(t.drop_last() =~= tally_view(m@).take(j - 1));
        j = j - 1;
    }
    None
}

fn tally_exec(items: &Vec<Json>) -> (r: Vec<(String, u64)>)
    ensures
        tally_view(r@) == tally(items@),
{
    let mut m: Vec<(String, u64)> = Vec::new();
    let n = items.len();
    assert(tally_view(m@) =~= tally(items@.take(0)));
    for i in 0..n
        invariant
            n == items@.len(),
            tally_view(m@) == tally(items@.take(i as int)),
            forall|k: int| 0 <= k < m@.len() ==> (#[trigger] m@[k]).1 <= i,
    {
        proof {
            assert(items@.take(i + 1).drop_last() =~= items@.take(i as int));
            assert(items@.take(i + 1).last() == items@[i as int]);
        }
        let t = match items[i].get("type") {
            Some(v) => v.as_str(),
            None => None,
        };
        if let Some(t) = t {
            let lower = to_lowercase(t);
            let key = chars_of(lower.as_str());
            match find_key(&m, &key) {
                Some(pos) => {
                    let ghost old_m = m@;
                    let c = m[pos].1;
                    let name = m[pos].0.clone();
                    m.set(pos, (name, c + 1));
                    proof {
                        lemma_key_pos_bounds(tally_view(old_m), key@);
                        assert(m@ == old_m.update(pos as int, (name, (c + 1) as u64)));
                        let tv = tally_view(old_m);
                        assert(key_pos(tv, key@) == Some(pos as int));
                        assert(tv[pos as int].0 == key@);
                        assert(name@ == key@);
                        assert(bump(tv, key@) == tv.update(pos as int, (key@, tv[pos as int].1 + 1)));
                        assert(tally_view(m@) =~= bump(tally(items@.take(i as int)), key@));
                    }
                },
                None => {
                    m.push((lower, 1));
                    proof {
                        assert(tally_view(m@) =~= bump(tally(items@.take(i as int)), key@));
                    }
                },
            }
        }
    }
    assert(items@.take(n as int) =~= items@);
    m
}

/// The number a count takes from the member `key` of `raw`: the member's
/// integer value when it has one that fits, 0 when it is absent.
pub open spec fn count_from(raw: Json, key: Seq<char>, count: i32) -> bool {
    &&& (json_get(raw, key) matches Some(Json::Int(n)) ==> (i32::MIN <= n <= i32::MAX ==> count == n))
    &&& (json_get(raw, key) is None ==> count == 0)
}

/// Law: a Mastodon status's likes are its `favourites_count`, its reposts
/// its `reblogs_count` and its replies its `replies_count`; nothing else is
/// counted.
pub proof fn lemma_mastodon_counts(raw: Json)
    ensures
        count_from(raw, "favourites_count"@, engagement_counts_spec("mastodon"@, raw).likes),
        count_from(raw, "reblogs_count"@, engagement_counts_spec("mastodon"@, raw).reposts),
        count_from(raw, "replies_count"@, engagement_counts_spec("mastodon"@, raw).replies),
        engagement_counts_spec("mastodon"@, raw).comments == 0,
        engagement_counts_spec("mastodon"@, raw).shares == 0,
        engagement_counts_spec("mastodon"@, raw).views == 0,
{
    reveal_strlit("mastodon");
    reveal_strlit("x");
    reveal_strlit("reddit");
    reveal_strlit("bluesky");
    reveal_strlit("youtube");
    assert("mastodon"@.len() != "x"@.len());
    assert("mastodon"@.len() != "reddit"@.len());
    assert("mastodon"@.len() != "bluesky"@.len());
    assert("mastodon"@.len() != "youtube"@.len());
}

/// Law: each platform's counters come from its own members: Bluesky's
/// `likeCount`, `repostCount`, `replyCount` and `quoteCount`; YouTube's
/// `viewCount`, `likeCount` and `commentCount`; TikTok's `like_count`,
/// `comment_count`, `share_count` and `view_count`; Threads' `like_count`,
/// `reply_count`, `repost_count` and `quote_count`; Reddit's `ups`, `downs`,
/// `num_comments`, `total_awards_received`, with the `score` as likes.
pub proof fn lemma_platform_counts(raw: Json)
    ensures
        count_from(raw, "likeCount"@, engagement_counts_spec("bluesky"@, raw).likes),
        count_from(raw, "repostCount"@, engagement_counts_spec("bluesky"@, raw).reposts),
        count_from(raw, "replyCount"@, engagement_counts_spec("bluesky"@, raw).replies),
        count_from(raw, "quoteCount"@, engagement_counts_spec("bluesky"@, raw).quotes),
        count_from(raw, "viewCount"@, engagement_counts_spec("youtube"@, raw).views),
        count_from(raw, "likeCount"@, engagement_counts_spec("youtube"@, raw).likes),
        count_from(raw, "commentCount"@, engagement_counts_spec("youtube"@, raw).comments),
        count_from(raw, "like_count"@, engagement_counts_spec("tiktok"@, raw).likes),
        count_from(raw, "comment_count"@, engagement_counts_spec("tiktok"@, raw).comments),
        count_from(raw, "share_count"@, engagement_counts_spec("tiktok"@, raw).shares),
        count_from(raw, "view_count"@, engagement_counts_spec("tiktok"@, raw).views),
        count_from(raw, "like_count"@, engagement_counts_spec("threads"@, raw).likes),
        count_from(raw, "reply_count"@, engagement_counts_spec("threads"@, raw).replies),
        count_from(raw, "repost_count"@, engagement_counts_spec("threads"@, raw).reposts),
        count_from(raw, "quote_count"@, engagement_counts_spec("threads"@, raw).quotes),
        count_from(raw, "ups"@, engagement_counts_spec("reddit"@, raw).upvotes),
        count_from(raw, "downs"@, engagement_counts_spec("reddit"@, raw).downvotes),
        count_from(raw, "num_comments"@, engagement_counts_spec("reddit"@, raw).comments),
        count_from(raw, "total_awards_received"@, engagement_counts_spec("reddit"@, raw).awards),
        count_from(raw, "score"@, engagement_counts_spec("reddit"@, raw).likes),
{
    reveal_strlit("x");
    reveal_strlit("reddit");
    reveal_strlit("bluesky");
    reveal_strlit("youtube");
    reveal_strlit("mastodon");
    reveal_strlit("tiktok");
    reveal_strlit("threads");
    assert("reddit"@.len() != "x"@.len());
    assert("bluesky"@.len() != "x"@.len() && "bluesky"@.len() != "reddit"@.len());
    assert("youtube"@.len() != "x"@.len() && "youtube"@.len() != "reddit"@.len()
        && "youtube"@[0] != "bluesky"@[0]);
    assert("tiktok"@.len() != "x"@.len() && "tiktok"@[0] != "reddit"@[0]
        && "tiktok"@.len() != "bluesky"@.len() && "tiktok"@.len() != "youtube"@.len()
        && "tiktok"@.len() != "mastodon"@.len());
    assert("threads"@.len() != "x"@.len() && "threads"@.len() != "reddit"@.len()
        && "threads"@[0] != "bluesky"@[0] && "threads"@[0] != "youtube"@[0]
        && "threads"@.len() != "mastodon"@.len() && "threads"@.len() != "tiktok"@.len());
}

/// Parse a provider's raw engagement JSON into a normalized record.
pub fn parse_engagement_data(provider: &str, raw: Json) -> (e: EngagementData)
    ensures
        counts_of(e) == engagement_counts_spec(provider@, raw),
        match reactions_spec(provider@, raw) {
            Some(t) => e.reactions matches Some(v) && tally_view(v@) == t,
            None => e.reactions is None,
        },
        e.raw == Some(raw),
{
    let p = chars_of(provider);
    let mut c = EngagementCounts {
        likes: 0,
        comments: 0,
        shares: 0,
        views: 0,
        saves: 0,
        quotes: 0,
        reposts: 0,
        replies: 0,
        upvotes: 0,
        downvotes: 0,
        awards: 0,
    };
    let mut reactions: Option<Vec<(String, u64)>> = None;
    if is_lit(&p, "x") {
        let pm = match raw.get("public_metrics") {
            Some(m) => Some(m),
            None => if raw.is_object() {
                Some(&raw)
            } else {
                None
            },
        };
        if let Some(m) = pm {
            c.likes = int_field(m, "like_count") as i32;
            c.replies = int_field(m, "reply_count") as i32;
            c.reposts = int_field(m, "retweet_count") as i32;
            c.quotes = int_field(m, "quote_count") as i32;
            c.views = int_field(m, "impression_count") as i32;
            c.saves = int_field(m, "bookmark_count") as i32;
        }
    } else if is_lit(&p, "reddit") {
        c.upvotes = int_field(&raw, "ups") as i32;
        c.downvotes = int_field(&raw, "downs") as i32;
        c.comments = int_field(&raw, "num_comments") as i32;
        c.awards = int_field(&raw, "total_awards_received") as i32;
        c.likes = int_field(&raw, "score") as i32;
    } else if is_lit(&p, "bluesky") {
        c.likes = int_field(&raw, "likeCount") as i32;
        c.reposts = int_field(&raw, "repostCount") as i32;
        c.replies = int_field(&raw, "replyCount") as i32;
        c.quotes = int_field(&raw, "quoteCount") as i32;
    } else if is_lit(&p, "youtube") {
        c.views = int_field(&raw, "viewCount") as i32;
        c.likes = int_field(&raw, "likeCount") as i32;
        c.comments = int_field(&raw, "commentCount") as i32;
    } else if is_lit(&p, "mastodon") {
        c.likes = int_field(&raw, "favourites_count") as i32;
        c.reposts = int_field(&raw, "reblogs_count") as i32;
        c.replies = int_field(&raw, "replies_count") as i32;
    } else if is_lit(&p, "tiktok") {
        c.likes = int_field(&raw, "like_count") as i32;
        c.comments = int_field(&raw, "comment_count") as i32;
        c.shares = int_field(&raw, "share_count") as i32;
        c.views = int_field(&raw, "view_count") as i32;
    } else if is_lit(&p, "threads") {
        c.likes = int_field(&raw, "like_count") as i32;
        c.replies = int_field(&raw, "reply_count") as i32;
        c.reposts = int_field(&raw, "repost_count") as i32;
        c.quotes = int_field(&raw, "quote_count") as i32;
    } else if is_lit(&p, "instagram") || is_lit(&p, "instagram_standalone") || is_lit(
        &p,
        "instagram-standalone",
    ) {
        c.likes = int_field(&raw, "like_count") as i32;
        c.comments = int_field(&raw, "comments_count") as i32;
        c.saves = int_field(&raw, "saved_count") as i32;
        let reach = match raw.get("reach") {
            Some(v) => v.as_i64(),
            None => None,
        };
        let views = match reach {
            Some(v) => v,
            None => int_field(&raw, "impressions"),
        };
        c.views = views as i32;
    } else if is_lit(&p, "linkedin") || is_lit(&p, "linkedin_page") || is_lit(&p, "linkedin-page") {
        c.likes = either_int(&raw, "likeCount", "likes");
        c.comments = either_int(&raw, "commentCount", "comments");
        c.shares = either_int(&raw, "shareCount", "shares");
        c.views = either_int(&raw, "impressionCount", "impressions");
    } else if is_lit(&p, "facebook") {
        c.likes = path_int(&raw, "reactions", "summary", Some("total_count"));
        c.comments = path_int(&raw, "comments", "summary", Some("total_count"));
        c.shares = path_int(&raw, "shares", "count", None);
        reactions = facebook_reactions(&raw);
    }
    EngagementData {
        likes: c.likes,
        comments: c.comments,
        shares: c.shares,
        views: c.views,
        saves: c.saves,
        quotes: c.quotes,
        reposts: c.reposts,
        replies: c.replies,
        reactions,
        upvotes: c.upvotes,
        downvotes: c.downvotes,
        awards: c.awards,
        raw: Some(raw),
    }
}

fn facebook_reactions(raw: &Json) -> (r: Option<Vec<(String, u64)>>)
    ensures
        match facebook_reactions_spec(*raw) {
            Some(t) => r matches Some(v) && tally_view(v@) == t,
            None => r is None,
        },
{
    let data = match raw.get("reactions") {
        Some(r) => r.get("data"),
        None => None,
    };
    match data {
        Some(Json::Array(items)) => {
            let t = tally_exec(items);
            assert(tally_view(t@).len() == t@.len());
            if t.len() > 0 {
                Some(t)
            } else {
                None
            }
        },
        _ => None,
    }
}

fn opt_int_exec(v: Option<&Json>) -> (r: i32)
    ensures
        r == opt_int(match v {
            Some(x) => Some(*x),
            None => None,
        }),
{
    match v {
        Some(x) => match x.as_i64() {
            Some(i) => i as i32,
            None => 0,
        },
        None => 0,
    }
}

fn either_int(j: &Json, k1: &str, k2: &str) -> (r: i32)
    ensures
        r == opt_int(get_either(*j, k1@, k2@)),
{
    let v = match j.get(k1) {
        Some(x) => Some(x),
        None => j.get(k2),
    };
    opt_int_exec(v)
}

fn path_int(j: &Json, k1: &str, k2: &str, k3: Option<&str>) -> (r: i32)
    ensures
        r == match k3 {
            Some(k) => opt_int(path3(*j, k1@, k2@, k@)),
            None => opt_int(path2(*j, k1@, k2@)),
        },
{
    let a = match j.get(k1) {
        Some(a) => a.get(k2),
        None => None,
    };
    match k3 {
        Some(k) => {
            let b = match a {
                Some(b) => b.get(k),
                None => None,
            };
            opt_int_exec(b)
        },
        None => opt_int_exec(a),
    }
}

} // verus!
