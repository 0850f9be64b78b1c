//! The publishing scheduler's decisions: which due posts are published,
//! when a token needs refreshing and what a refresh's outcome does to the
//! integration, how a failed publish attempt is retried, how posting
//! streaks advance, and what post plugs do and when they run again. The
//! caller performs the I/O (provider calls, sleeps, database writes) that
//! these decisions ask for.
use vstd::prelude::*;

use crate::json::{get_i64, Json};
use crate::providers::{needs_cron_refresh_spec, ProviderKind};
use crate::social::{provider_error_message, ProviderError};
use crate::text::{chars_of, is_lit, opt_str_view, push_str_chars, str_eq, string_from_chars, trim};
use crate::tokens::TokenGrant;
use crate::integrations::{uuid_parse, parse_uuid};
use crate::json::{json_as_str, json_index};

verus! {

/// Maximum publish attempts per post.
pub const MAX_RETRIES: u32 = 3;

/// How far ahead (seconds) a token counts as expired and is refreshed.
pub const TOKEN_REFRESH_BUFFER_SECS: i64 = 300;

/// A token expiring within the buffer is refreshed before use; a token
/// without an expiry never is.
pub open spec fn needs_refresh_spec(expires_at: Option<i64>, now: i64) -> bool {
    match expires_at {
        Some(exp) => now + 300 >= exp,
        None => false,
    }
}

/// Whether the access token must be refreshed before publishing.
pub fn needs_refresh(expires_at: Option<i64>, now: i64) -> (r: bool)
    requires
        now <= i64::MAX - 300,
    ensures
        r == needs_refresh_spec(expires_at, now),
{
    match expires_at {
        Some(exp) => now + TOKEN_REFRESH_BUFFER_SECS >= exp,
        None => false,
    }
}

/// Law: once a token needs refreshing it keeps needing it as time goes on.
pub proof fn lemma_needs_refresh_monotone(expires_at: Option<i64>, t1: i64, t2: i64)
    requires
        t1 <= t2,
        needs_refresh_spec(expires_at, t1),
    ensures
        needs_refresh_spec(expires_at, t2),
{
}

/// What to do after a failed publish attempt.
#[derive(PartialEq, Eq, Structural)]
pub enum FailureAction {
    /// Refresh the access token once, then go on to the next attempt.
    RefreshToken,
    /// Wait `base_secs` seconds (plus up to a quarter of it as jitter), then
    /// go on to the next attempt.
    Backoff { base_secs: u64 },
    /// Stop retrying; when `mark_refresh_needed`, the integration must be
    /// reconnected.
    Stop { mark_refresh_needed: bool },
    /// The token was refreshed: go on to the next attempt at once.
    Retry,
}

/// The retry state of one publish.
pub struct PublishRetry {
    /// The current attempt, from 1 to `MAX_RETRIES`.
    pub attempt: u32,
    /// Whether the token was already refreshed for this publish.
    pub did_refresh: bool,
    /// The error of the last failed attempt.
    pub last_error: Option<String>,
}

/// Exponential backoff: 5 s, then 10 s, then 20 s.
pub open spec fn backoff_base(attempt: nat) -> nat
    decreases attempt,
{
    if attempt <= 1 {
        5
    } else {
        2 * backoff_base((attempt - 1) as nat)
    }
}

/// The retry policy: an expired token is refreshed once; rate limits and
/// network errors back off exponentially; an expired token after a refresh
/// ends the publish and asks for reconnection; other errors end it at once.
pub open spec fn failure_action_spec(did_refresh: bool, attempt: nat, e: ProviderError) -> FailureAction {
    match e {
        ProviderError::TokenExpired => if !did_refresh {
            FailureAction::RefreshToken
        } else {
            FailureAction::Stop { mark_refresh_needed: true }
        },
        ProviderError::RateLimited(_) => FailureAction::Backoff {
            base_secs: backoff_base(attempt) as u64,
        },
        ProviderError::Network(_) => FailureAction::Backoff {
            base_secs: backoff_base(attempt) as u64,
        },
        _ => FailureAction::Stop { mark_refresh_needed: false },
    }
}

/// The error recorded for a failed attempt (none when the token is about
/// to be refreshed).
pub open spec fn recorded_error(did_refresh: bool, e: ProviderError) -> Option<Seq<char>> {
    match e {
        ProviderError::TokenExpired => if !did_refresh {
            None
        } else {
            Some("Token expired and refresh did not resolve it"@)
        },
        ProviderError::RateLimited(m) => Some(m@),
        ProviderError::Network(m) => Some(m@),
        _ => Some(provider_error_message(e)),
    }
}

impl PublishRetry {
    /// The state before the first attempt.
    pub fn start() -> (r: PublishRetry)
        ensures
            r.attempt == 1,
            !r.did_refresh,
            r.last_error is None,
    {
        PublishRetry { attempt: 1, did_refresh: false, last_error: None }
    }

    /// Records a failed attempt and decides what follows.
    pub fn after_failure(&mut self, e: &ProviderError) -> (a: FailureAction)
        requires
            1 <= old(self).attempt <= MAX_RETRIES,
        ensures
            a == failure_action_spec(old(self).did_refresh, old(self).attempt as nat, *e),
            final(self).attempt == old(self).attempt,
            final(self).did_refresh == (old(self).did_refresh || a == FailureAction::RefreshToken),
            opt_str_view(final(self).last_error) == match recorded_error(old(self).did_refresh, *e) {
                Some(m) => Some(m),
                None => opt_str_view(old(self).last_error),
            },
    {
        let base: u64 = if self.attempt == 1 {
            5
        } else if self.attempt == 2 {
            10
        } else {
            20
        };
        assert(base == backoff_base(self.attempt as nat)) by {
            reveal_with_fuel(backoff_base, 3);
        }
        match e {
            ProviderError::TokenExpired => {
                if !self.did_refresh {
                    self.did_refresh = true;
                    FailureAction::RefreshToken
                } else {
                    self.last_error = Some(
                        "Token expired and refresh did not resolve it".to_owned(),
                    );
                    FailureAction::Stop { mark_refresh_needed: true }
                }
            },
            ProviderError::RateLimited(m) => {
                self.last_error = Some(m.clone());
                FailureAction::Backoff { base_secs: base }
            },
            ProviderError::Network(m) => {
                self.last_error = Some(m.clone());
                FailureAction::Backoff { base_secs: base }
            },
            _ => {
                self.last_error = Some(e.message());
                FailureAction::Stop { mark_refresh_needed: false }
            },
        }
    }

    /// Records the outcome of the token refresh that `RefreshToken` asked
    /// for: a new token means the next attempt goes ahead; a failed refresh
    /// ends the publish with that refresh's error, and the integration must
    /// be reconnected.
    pub fn after_refresh(&mut self, outcome: &Result<TokenGrant, ProviderError>) -> (a: FailureAction)
        ensures
            final(self).attempt == old(self).attempt,
            final(self).did_refresh == old(self).did_refresh,
            match outcome {
                Ok(_) => a == FailureAction::Retry && final(self).last_error == old(self).last_error,
                Err(e) => a == (FailureAction::Stop { mark_refresh_needed: true })
                    && opt_str_view(final(self).last_error) == Some(provider_error_message(*e)),
            },
    {
        match outcome {
            Ok(_) => FailureAction::Retry,
            Err(e) => {
                self.last_error = Some(e.message());
                FailureAction::Stop { mark_refresh_needed: true }
            },
        }
    }

    /// Moves on to the next attempt, if any is left.
    pub fn next_attempt(&mut self) -> (more: bool)
        requires
            1 <= old(self).attempt <= MAX_RETRIES,
        ensures
            more == (old(self).attempt < MAX_RETRIES),
            final(self).attempt == if more {
                (old(self).attempt + 1) as u32
            } else {
                old(self).attempt
            },
            final(self).did_refresh == old(self).did_refresh,
            final(self).last_error == old(self).last_error,
    {
        if self.attempt < MAX_RETRIES {
            self.attempt = self.attempt + 1;
            true
        } else {
            false
        }
    }

    /// The error that a publish ends in once it stops or runs out of
    /// attempts.
    pub fn final_error(&self) -> (r: String)
        ensures
            r@ == match opt_str_view(self.last_error) {
                Some(m) => m,
                None => "Max retries exceeded"@,
            },
    {
        match &self.last_error {
            Some(m) => m.clone(),
            None => "Max retries exceeded".to_owned(),
        }
    }
}

/// Law: the retry policy never refreshes the token twice for one publish,
/// never asks for more than `MAX_RETRIES` attempts, and backs off 5, 10 and
/// 20 seconds on the three attempts.
pub proof fn lemma_retry_policy(did_refresh: bool, attempt: nat, e: ProviderError)
    requires
        1 <= attempt <= MAX_RETRIES,
    ensures
        failure_action_spec(did_refresh, attempt, e) == FailureAction::RefreshToken ==> !did_refresh,
        failure_action_spec(did_refresh, attempt, e) matches FailureAction::Backoff { base_secs }
            ==> base_secs == 5 * (if attempt == 1 { 1nat } else if attempt == 2 { 2nat } else { 4nat }),
        (e is Api || e is Auth || e is InvalidRequest) ==> failure_action_spec(did_refresh, attempt, e)
            == (FailureAction::Stop { mark_refresh_needed: false }),
{
    reveal_with_fuel(backoff_base, 3);
}

/// The new streak of a user who just published, if it changes: a first
/// post starts a streak of one day; a post 24 hours or more after the
/// streak's last mark extends it by a day; a post within 24 hours leaves it.
pub open spec fn streak_after_publish_spec(since: Option<i64>, days: i32, now: i64) -> Option<(i64, i32)> {
    match since {
        None => Some((now, 1)),
        Some(s) => if now - s >= 86400 {
            Some((now, (days + 1) as i32))
        } else {
            None
        },
    }
}

pub fn streak_after_publish(since: Option<i64>, days: i32, now: i64) -> (r: Option<(i64, i32)>)
    requires
        days < i32::MAX,
        since matches Some(s) ==> i64::MIN <= now - s <= i64::MAX,
    ensures
        r == streak_after_publish_spec(since, days, now),
{
    match since {
        None => Some((now, 1)),
        Some(s) => {
            let elapsed_hours = (now - s) / 3600;
            assert(elapsed_hours >= 24 <==> now - s >= 86400);
            if elapsed_hours >= 24 {
                Some((now, days + 1))
            } else {
                None
            }
        },
    }
}

/// A streak whose last mark is more than 48 hours old is reset.
pub fn streak_expired(since: Option<i64>, now: i64) -> (r: bool)
    requires
        now >= i64::MIN + 172800,
    ensures
        r == (since matches Some(s) && s < now - 172800),
{
    match since {
        Some(s) => s < now - 172800,
        None => false,
    }
}

/// How a post plug is rescheduled after a run.
pub struct PlugUpdate {
    pub runs_so_far: i32,
    pub next_run_at: i64,
    pub fired_at: Option<i64>,
    pub completed: bool,
}

/// The plug's rerun interval in minutes (`interval_minutes`, default 360).
pub open spec fn plug_interval(config: Json) -> i64 {
    match get_i64(config, "interval_minutes"@) {
        Some(m) => m,
        None => 360,
    }
}

pub fn plug_interval_minutes(config: &Json) -> (r: i64)
    ensures
        r == plug_interval(*config),
{
    match config.get("interval_minutes") {
        Some(v) => match v.as_i64() {
            Some(m) => m,
            None => 360,
        },
        None => 360,
    }
}

/// After a run that returned `Ok(fired)`: one more run is counted; the
/// plug completes when it fired or used up its runs, and otherwise runs
/// again after its interval. After a failed run (`None`), only the next
/// run time moves on by the interval.
pub open spec fn plug_after_run_spec(
    runs: i32,
    max_runs: i32,
    outcome: Option<bool>,
    interval_minutes: i64,
    now: i64,
) -> (int, int, Option<int>, Option<bool>) {
    match outcome {
        Some(fired) => {
            let new_runs = runs + 1;
            let completed = new_runs >= max_runs || fired;
            (
                new_runs,
                if completed { now as int } else { now + interval_minutes * 60 },
                if fired { Some(now as int) } else { None },
                Some(completed),
            )
        },
        None => (runs as int, now + interval_minutes * 60, None, None),
    }
}

/// The rescheduling of a plug after a successful run.
pub fn plug_after_success(runs: i32, max_runs: i32, fired: bool, interval_minutes: i64, now: i64) -> (r: PlugUpdate)
    requires
        runs < i32::MAX,
        -153722867280912930 <= interval_minutes <= 153722867280912930,
        i64::MIN <= now + interval_minutes * 60 <= i64::MAX,
    ensures
        plug_after_run_spec(runs, max_runs, Some(fired), interval_minutes, now) == (
            r.runs_so_far as int,
            r.next_run_at as int,
            match r.fired_at {
                Some(t) => Some(t as int),
                None => None,
            },
            Some(r.completed),
        ),
{
    let new_runs = runs + 1;
    let completed = new_runs >= max_runs || fired;
    let next_run_at = if completed {
        now
    } else {
        now + interval_minutes * 60
    };
    PlugUpdate {
        runs_so_far: new_runs,
        next_run_at,
        fired_at: if fired {
            Some(now)
        } else {
            None
        },
        completed,
    }
}

/// The next run time of a plug whose run failed.
pub fn plug_retry_at(interval_minutes: i64, now: i64) -> (r: i64)
    requires
        -153722867280912930 <= interval_minutes <= 153722867280912930,
        i64::MIN <= now + interval_minutes * 60 <= i64::MAX,
    ensures
        r == now + interval_minutes * 60,
{
    now + interval_minutes * 60
}

/// Law: a plug that fired is completed, and a plug never runs more than
/// `max_runs` times before it completes.
pub proof fn lemma_plug_completion(runs: i32, max_runs: i32, fired: bool, interval_minutes: i64, now: i64)
    ensures
        ({
            let (new_runs, _, _, completed) = plug_after_run_spec(runs, max_runs, Some(fired), interval_minutes, now);
            &&& fired ==> completed == Some(true)
            &&& new_runs >= max_runs ==> completed == Some(true)
            &&& new_runs == runs + 1
        }),
{
}

/// The like count at which `auto_repost_after_likes` fires (`threshold`,
/// default 10).
pub open spec fn repost_threshold(config: Json) -> i64 {
    match get_i64(config, "threshold"@) {
        Some(t) => t,
        None => 10,
    }
}

/// Whether `auto_repost_after_likes` fires: the post must have a platform
/// id, and its engagement `likes` (0 when unknown) must reach the threshold.
pub open spec fn repost_fires_spec(config: Json, platform_post_id: Option<Seq<char>>, engagement: Option<Json>) -> bool {
    match platform_post_id {
        Some(id) => id.len() > 0 && {
            let likes = match engagement {
                Some(e) => match get_i64(e, "likes"@) {
                    Some(l) => l,
                    None => 0,
                },
                None => 0,
            };
            likes >= repost_threshold(config)
        },
        None => false,
    }
}

pub fn repost_fires(config: &Json, platform_post_id: Option<&str>, engagement: Option<&Json>) -> (r: bool)
    ensures
        r == repost_fires_spec(
            *config,
            match platform_post_id {
                Some(s) => Some(s@),
                None => None,
            },
            match engagement {
                Some(e) => Some(*e),
                None => None,
            },
        ),
{
    match platform_post_id {
        Some(id) => {
            let v = chars_of(id);
            if v.len() == 0 {
                return false;
            }
            let threshold = match config.get("threshold") {
                Some(t) => match t.as_i64() {
                    Some(t) => t,
                    None => 10,
                },
                None => 10,
            };
            let likes = match engagement {
                Some(e) => match e.get("likes") {
                    Some(l) => match l.as_i64() {
                        Some(l) => l,
                        None => 0,
                    },
                    None => 0,
                },
                None => 0,
            };
            likes >= threshold
        },
        None => false,
    }
}

/// The delay (minutes) of a cross-post (`delay_minutes`, default 30).
pub fn cross_post_delay_minutes(config: &Json) -> (r: i64)
    ensures
        r == match get_i64(*config, "delay_minutes"@) {
            Some(d) => d,
            None => 30,
        },
{
    match config.get("delay_minutes") {
        Some(v) => match v.as_i64() {
            Some(d) => d,
            None => 30,
        },
        None => 30,
    }
}

/// Whether links are stripped from X posts: the setting must be `true` or `1`.
pub fn strip_links_enabled(setting: Option<&str>) -> (r: bool)
    ensures
        r == (setting matches Some(s) && (s@ == "true"@ || s@ == "1"@)),
{
    match setting {
        Some(s) => {
            let v = chars_of(s);
            is_lit(&v, "true") || is_lit(&v, "1")
        },
        None => false,
    }
}

/// The content of a due post as it is sent: with its URLs stripped for X
/// when link stripping is enabled, unchanged otherwise.
pub fn prepared_content(provider_id: &str, strip_links_for_x: bool, content: &str) -> (r: String)
    ensures
        r@ == if provider_id@ == "x"@ && strip_links_for_x {
            trim(crate::short_link::without_urls(content@))
        } else {
            content@
        },
{
    if crate::text::str_eq(provider_id, "x") && strip_links_for_x {
        crate::short_link::strip_links(content)
    } else {
        content.to_owned()
    }
}

/// After a successful publish: the post counts as published, whatever the
/// state update and the first comment then return; its first comment, when
/// it has a non-empty one, is posted once under the new post.
pub fn after_success(first_comment: Option<String>) -> (r: (Result<(), String>, Option<String>))
    ensures
        r.0 is Ok,
        opt_str_view(r.1) == match opt_str_view(first_comment) {
            Some(c) => if c.len() > 0 {
                Some(c)
            } else {
                None
            },
            None => None,
        },
{
    let comment = match first_comment {
        Some(c) => if c.as_str().unicode_len() > 0 {
            Some(c)
        } else {
            None
        },
        None => None,
    };
    (Ok(()), comment)
}

/// What the proactive refresh does with one integration whose token
/// expires soon.
#[derive(PartialEq, Eq, Structural)]
pub enum RefreshPlan {
    /// Already marked as needing reconnection: leave it.
    Skip,
    /// No refresh token: mark it as needing reconnection.
    MarkRefreshNeeded,
    /// Refresh the token.
    Refresh,
}

/// The proactive refresh of one integration: skipped when it already needs
/// reconnection, marked when it has no refresh token, refreshed otherwise.
pub fn refresh_plan(refresh_needed: bool, has_refresh_token: bool) -> (r: RefreshPlan)
    ensures
        refresh_needed ==> r == RefreshPlan::Skip,
        !refresh_needed && !has_refresh_token ==> r == RefreshPlan::MarkRefreshNeeded,
        !refresh_needed && has_refresh_token ==> r == RefreshPlan::Refresh,
{
    if refresh_needed {
        RefreshPlan::Skip
    } else if !has_refresh_token {
        RefreshPlan::MarkRefreshNeeded
    } else {
        RefreshPlan::Refresh
    }
}

/// When a refreshed token expires: `expires_in` seconds from now, if the
/// answer gave a lifetime.
pub fn refreshed_expiry(expires_in: Option<u32>, now: i64) -> (r: Option<i64>)
    requires
        now <= i64::MAX - 4294967295,
    ensures
        r == match expires_in {
            Some(e) => Some((now + e) as i64),
            None => None::<i64>,
        },
{
    match expires_in {
        Some(e) => Some(now + e as i64),
        None => None,
    }
}

/// The providers whose tokens are refreshed ahead of time, in order.
pub fn cron_refresh_providers(kinds: Vec<ProviderKind>) -> (r: Vec<ProviderKind>)
    ensures
        r@ == kinds@.filter(|k: ProviderKind| needs_cron_refresh_spec(k)),
{
    let ghost all = kinds@;
    let mut out: Vec<ProviderKind> = Vec::new();
    let mut rest = kinds;
    let n = rest.len();
    let mut i: usize = 0;
    assert(all.take(0) =~= Seq::<ProviderKind>::empty());
    while i < n
        invariant
            n == all.len(),
            i <= n,
            rest@ == all.skip(i as int),
            out@ == all.take(i as int).filter(|k: ProviderKind| needs_cron_refresh_spec(k)),
        decreases n - i,
    {
        let k = rest.remove(0);
        proof {
            assert(k == all[i as int]);
            assert(all.take(i + 1).drop_last() =~= all.take(i as int));
            assert(all.take(i + 1).last() == all[i as int]);
            assert(rest@ =~= all.skip(i + 1));
            reveal_with_fuel(Seq::filter, 1);
        }
        if k.needs_cron_refresh() {
            out.push(k);
        }
        i = i + 1;
        proof {
            assert(out@ =~= all.take(i as int).filter(|k: ProviderKind| needs_cron_refresh_spec(k)));
        }
    }
    assert(all.take(n as int) =~= all);
    out
}

/// What to do with an integration after a token refresh.
pub enum RefreshAction {
    /// Store the new access token, the refresh token the answer carried and
    /// the new expiry on the integration.
    Store { access_token: String, refresh_token: Option<String>, expires_at: Option<i64> },
    /// Mark the integration as needing reconnection; the refresh failed
    /// with `error`.
    MarkRefreshNeeded { error: String },
}

/// The outcome of a token refresh, as the integration records it: a new
/// token is stored with its expiry; a failed refresh marks the integration
/// for reconnection.
pub fn after_refresh(outcome: Result<TokenGrant, ProviderError>, now: i64) -> (r: RefreshAction)
    requires
        now <= i64::MAX - 4294967295,
    ensures
        match outcome {
            Ok(t) => r matches RefreshAction::Store { access_token, refresh_token, expires_at }
                && access_token == t.access_token && refresh_token == t.refresh_token
                && expires_at == match t.expires_in {
                    Some(e) => Some((now + e) as i64),
                    None => None::<i64>,
                },
            Err(e) => r matches RefreshAction::MarkRefreshNeeded { error } && error@
                == provider_error_message(e),
        },
{
    match outcome {
        Ok(t) => {
            let expires_at = refreshed_expiry(t.expires_in, now);
            RefreshAction::Store { access_token: t.access_token, refresh_token: t.refresh_token, expires_at }
        },
        Err(e) => RefreshAction::MarkRefreshNeeded { error: e.message() },
    }
}

/// Seconds to wait after a proactive refresh before the next one, for
/// providers whose new tokens take time to propagate (LinkedIn: 10 s).
pub fn propagation_wait_secs(k: &ProviderKind) -> (r: u64)
    ensures
        r == if crate::providers::refresh_wait_spec(*k) {
            10u64
        } else {
            0u64
        },
{
    if k.refresh_wait() {
        10
    } else {
        0
    }
}

/// What the scheduler does with a claimed due post.
#[derive(PartialEq, Eq, Structural)]
pub enum DueDecision {
    /// The provider's circuit is open: put the post back in the queue.
    Requeue,
    /// No provider is registered for the post: leave it.
    Skip,
    /// Publish it.
    Publish,
}

/// A due post is requeued while its provider's circuit breaker refuses
/// requests, skipped when no provider is registered for it, and published
/// otherwise.
pub fn due_decision(breaker_allows: bool, registered: bool) -> (r: DueDecision)
    ensures
        !breaker_allows ==> r == DueDecision::Requeue,
        breaker_allows && !registered ==> r == DueDecision::Skip,
        breaker_allows && registered ==> r == DueDecision::Publish,
{
    if !breaker_allows {
        DueDecision::Requeue
    } else if !registered {
        DueDecision::Skip
    } else {
        DueDecision::Publish
    }
}

fn contains_id(v: &Vec<u128>, x: u128) -> (b: bool)
    ensures
        b == v@.contains(x),
{
    let mut i: usize = 0;
    while i < v.len()
        invariant
            i <= v@.len(),
            forall|j: int| 0 <= j < i ==> v@[j] != x,
        decreases v@.len() - i,
    {
        if v[i] == x {
            return true;
        }
        i = i + 1;
    }
    false
}

/// The posts still in flight when the scheduler's drain timed out: those
/// spawned that have not finished, in the order they were spawned. They are
/// marked as failed with `PUBLISH_TIMEOUT_ERROR`.
pub fn timed_out_posts(spawned: &Vec<u128>, finished: &Vec<u128>) -> (r: Vec<u128>)
    ensures
        r@ == spawned@.filter(|id: u128| !finished@.contains(id)),
{
    let ghost all = spawned@;
    let mut out: Vec<u128> = Vec::new();
    let n = spawned.len();
    for i in 0..n
        invariant
            n == all.len(),
            all == spawned@,
            out@ == all.take(i as int).filter(|id: u128| !finished@.contains(id)),
    {
        proof {
            assert(all.take(i + 1).drop_last() =~= all.take(i as int));
            assert(all.take(i + 1).last() == all[i as int]);
            reveal_with_fuel(Seq::filter, 1);
        }
        let id = spawned[i];
        if !contains_id(finished, id) {
            out.push(id);
        }
        proof {
            assert(out@ =~= all.take(i + 1).filter(|id: u128| !finished@.contains(id)));
        }
    }
    assert(all.take(n as int) =~= all);
    out
}

/// The error of a post whose publish was aborted when the drain timed out.
pub fn publish_timeout_error() -> (r: String)
    ensures
        r@ == "Publish timed out after 300s \u{2014} aborted by scheduler"@,
{
    "Publish timed out after 300s \u{2014} aborted by scheduler".to_owned()
}

/// The kinds of post plug.
#[derive(PartialEq, Eq, Structural)]
pub enum PlugKind {
    /// `auto_repost_after_likes`: repost once the post has enough likes.
    AutoRepost,
    /// `cross_post_from_secondary`: post the same content from a second
    /// account after a delay.
    CrossPost,
}

/// The plug kind a `plug_type` names, or the error for an unknown one.
pub fn plug_kind(plug_type: &str) -> (r: Result<PlugKind, String>)
    ensures
        plug_type@ == "auto_repost_after_likes"@ ==> r == Ok::<PlugKind, String>(PlugKind::AutoRepost),
        plug_type@ == "cross_post_from_secondary"@ ==> r == Ok::<PlugKind, String>(PlugKind::CrossPost),
        plug_type@ != "auto_repost_after_likes"@ && plug_type@ != "cross_post_from_secondary"@
            ==> (r matches Err(e) && e@ == "Unknown plug type: "@ + plug_type@),
{
    proof {
        reveal_strlit("auto_repost_after_likes");
        reveal_strlit("cross_post_from_secondary");
        assert("auto_repost_after_likes"@.len() != "cross_post_from_secondary"@.len());
    }
    if str_eq(plug_type, "auto_repost_after_likes") {
        Ok(PlugKind::AutoRepost)
    } else if str_eq(plug_type, "cross_post_from_secondary") {
        Ok(PlugKind::CrossPost)
    } else {
        let mut out: Vec<char> = Vec::new();
        push_str_chars(&mut out, "Unknown plug type: ");
        push_str_chars(&mut out, plug_type);
        Err(string_from_chars(&out))
    }
}

/// A fired repost is a native retweet on X; other providers have no native
/// repost, and the plug counts as fired without a call.
pub fn repost_is_retweet(provider_id: &str) -> (r: bool)
    ensures
        r == (provider_id@ == "x"@),
{
    str_eq(provider_id, "x")
}

/// The error of an auto-repost whose post's provider is not registered.
pub fn unregistered_provider_error(provider_id: &str) -> (r: String)
    ensures
        r@ == "Provider '"@ + provider_id@ + "' not registered"@,
{
    let mut out: Vec<char> = Vec::new();
    push_str_chars(&mut out, "Provider '");
    push_str_chars(&mut out, provider_id);
    push_str_chars(&mut out, "' not registered");
    string_from_chars(&out)
}

/// The message when a cross-post plug names no secondary integration.
pub open spec fn missing_secondary() -> Seq<char> {
    "Missing secondary_integration_id in config"@
}

/// The secondary integration of a cross-post plug: its
/// `secondary_integration_id` must be a string that parses as a UUID.
pub fn cross_post_secondary(config: &Json) -> (r: Result<u128, String>)
    ensures
        match json_as_str(json_index(*config, "secondary_integration_id"@)) {
            Some(s) => match uuid_parse(s) {
                Ok(v) => r == Ok::<u128, String>(v),
                Err(_) => r matches Err(e) && e@ == missing_secondary(),
            },
            None => r matches Err(e) && e@ == missing_secondary(),
        },
{
    let missing = "Missing secondary_integration_id in config";
    match config.get("secondary_integration_id") {
        Some(v) => match v.as_str() {
            Some(s) => match parse_uuid(s) {
                Ok(id) => Ok(id),
                Err(_) => Err(missing.to_owned()),
            },
            None => Err(missing.to_owned()),
        },
        None => Err(missing.to_owned()),
    }
}

/// What a cross-post plug does on a run.
#[derive(PartialEq, Eq, Structural)]
pub enum CrossPostStep {
    /// The original post is not published yet: try again later.
    NotYet,
    /// The same content was already posted on the secondary account in the
    /// last 24 hours: the plug is done.
    AlreadyPosted,
    /// Create the cross-post, queued for `scheduled_at`; the plug is done.
    Create { scheduled_at: i64 },
}

/// The cross-post decision: wait for the original to be published, avoid a
/// duplicate, else queue the copy `delay_minutes` from now.
pub fn cross_post_step(published: bool, recent_copies: i64, delay_minutes: i64, now: i64) -> (r: CrossPostStep)
    requires
        -153722867280912930 <= delay_minutes <= 153722867280912930,
        i64::MIN <= now + delay_minutes * 60 <= i64::MAX,
    ensures
        !published ==> r == CrossPostStep::NotYet,
        published && recent_copies > 0 ==> r == CrossPostStep::AlreadyPosted,
        published && recent_copies <= 0 ==> r == (CrossPostStep::Create { scheduled_at: (now + delay_minutes * 60) as i64 }),
{
    if !published {
        CrossPostStep::NotYet
    } else if recent_copies > 0 {
        CrossPostStep::AlreadyPosted
    } else {
        CrossPostStep::Create { scheduled_at: now + delay_minutes * 60 }
    }
}

} // verus!
