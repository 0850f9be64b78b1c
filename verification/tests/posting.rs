use social_forge::json::Json;
use social_forge::posts::{PostService, PostState};
use social_forge::scheduler::{
    cross_post_delay_minutes, needs_refresh, plug_after_success, plug_interval_minutes,
    plug_retry_at, repost_fires, streak_after_publish, streak_expired, strip_links_enabled,
    FailureAction, PublishRetry, MAX_RETRIES,
};
use social_forge::short_link::{has_urls, replace_url, short_link_from_response, shortenable_urls, should_shorten, strip_links};
use social_forge::social::ProviderError;
use social_forge::staging::{
    segment_media, split_warning, staged_state, staging_result, validate_staging_request,
    StagingRequest,
};

fn s(x: &str) -> Json {
    Json::Str(x.to_string())
}

fn obj(entries: Vec<(&str, Json)>) -> Json {
    Json::Object(entries.into_iter().map(|(k, v)| (k.to_string(), v)).collect())
}

#[test]
fn sanitize_strips_tags_and_trims() {
    assert_eq!(PostService::sanitize_content("  <b>Hello</b> <i>world</i>  ", 100), "Hello world");
    assert_eq!(PostService::sanitize_content("a > b", 100), "a > b");
    assert_eq!(PostService::sanitize_content("<script>x</script>abc", 2), "xa");
    assert_eq!(PostService::sanitize_content("unclosed <tag", 100), "unclosed");
}

#[test]
fn new_content_must_not_be_empty() {
    assert_eq!(PostService::validate_new_content("<p></p>").err(), Some("Content cannot be empty".to_string()));
    assert_eq!(PostService::validate_new_content(" hi ").ok(), Some("hi".to_string()));
}

#[test]
fn publishable_states() {
    assert_eq!(PostService::check_publishable(PostState::Draft, false).err(), Some("Draft posts must be scheduled first".to_string()));
    assert_eq!(PostService::check_publishable(PostState::Published, false).err(), Some("Post already published".to_string()));
    assert_eq!(
        PostService::check_publishable(PostState::Queued, true).err(),
        Some("Integration is disabled. Reconnect the social account.".to_string())
    );
    assert!(PostService::check_publishable(PostState::Error, false).is_ok());
    assert_eq!(PostService::predecessor_sequence(true, 3), Some(2));
    assert_eq!(PostService::predecessor_sequence(true, 1), None);
    assert_eq!(PostService::predecessor_sequence(false, 3), None);
}

#[test]
fn token_refresh_window() {
    assert!(needs_refresh(Some(1_000), 700));
    assert!(!needs_refresh(Some(1_000), 699));
    assert!(!needs_refresh(None, 0));
}

#[test]
fn retry_policy_refreshes_once_then_stops() {
    let mut r = PublishRetry::start();
    assert!(r.after_failure(&ProviderError::TokenExpired) == FailureAction::RefreshToken);
    assert!(r.next_attempt());
    assert!(r.after_failure(&ProviderError::TokenExpired) == FailureAction::Stop { mark_refresh_needed: true });
    assert_eq!(r.final_error(), "Token expired and refresh did not resolve it");
}

#[test]
fn retry_policy_backs_off_then_gives_up() {
    let mut r = PublishRetry::start();
    assert!(r.after_failure(&ProviderError::RateLimited("slow down".to_string())) == FailureAction::Backoff { base_secs: 5 });
    assert!(r.next_attempt());
    assert!(r.after_failure(&ProviderError::Network("reset".to_string())) == FailureAction::Backoff { base_secs: 10 });
    assert!(r.next_attempt());
    assert!(r.after_failure(&ProviderError::Network("reset".to_string())) == FailureAction::Backoff { base_secs: 20 });
    assert!(!r.next_attempt());
    assert_eq!(r.attempt, MAX_RETRIES);
    assert_eq!(r.final_error(), "reset");
    let mut other = PublishRetry::start();
    assert!(other.after_failure(&ProviderError::Api("bad".to_string())) == FailureAction::Stop { mark_refresh_needed: false });
    assert_eq!(other.final_error(), "API error: bad");
    assert_eq!(PublishRetry::start().final_error(), "Max retries exceeded");
}

#[test]
fn streaks() {
    assert_eq!(streak_after_publish(None, 0, 1000), Some((1000, 1)));
    assert_eq!(streak_after_publish(Some(0), 3, 86_400), Some((86_400, 4)));
    assert_eq!(streak_after_publish(Some(0), 3, 86_399), None);
    assert!(streak_expired(Some(0), 172_801));
    assert!(!streak_expired(Some(0), 172_800));
    assert!(!streak_expired(None, 172_801));
}

#[test]
fn plugs() {
    assert_eq!(plug_interval_minutes(&Json::Null), 360);
    assert_eq!(plug_interval_minutes(&obj(vec![("interval_minutes", Json::Int(15))])), 15);
    let u = plug_after_success(0, 3, false, 60, 1000);
    assert_eq!(u.runs_so_far, 1);
    assert_eq!(u.next_run_at, 1000 + 3600);
    assert!(!u.completed);
    assert!(u.fired_at.is_none());
    let fired = plug_after_success(0, 3, true, 60, 1000);
    assert!(fired.completed);
    assert_eq!(fired.fired_at, Some(1000));
    assert_eq!(fired.next_run_at, 1000);
    assert!(plug_after_success(2, 3, false, 60, 1000).completed);
    assert_eq!(plug_retry_at(60, 1000), 4600);
}

#[test]
fn reposts_and_cross_posts() {
    let config = obj(vec![("threshold", Json::Int(5))]);
    assert!(repost_fires(&config, Some("p1"), Some(&obj(vec![("likes", Json::Int(5))]))));
    assert!(!repost_fires(&config, Some("p1"), Some(&obj(vec![("likes", Json::Int(4))]))));
    assert!(!repost_fires(&config, Some(""), Some(&obj(vec![("likes", Json::Int(50))]))));
    assert!(!repost_fires(&Json::Null, None, None));
    assert!(!repost_fires(&Json::Null, Some("p"), None));
    assert_eq!(cross_post_delay_minutes(&Json::Null), 30);
    assert_eq!(cross_post_delay_minutes(&obj(vec![("delay_minutes", Json::Int(5))])), 5);
    assert!(strip_links_enabled(Some("true")));
    assert!(strip_links_enabled(Some("1")));
    assert!(!strip_links_enabled(Some("yes")));
    assert!(!strip_links_enabled(None));
}

#[test]
fn links() {
    assert_eq!(strip_links("Read https://example.com/a now"), "Read  now");
    assert_eq!(strip_links("  https://x.io  "), "");
    assert_eq!(strip_links(" no links "), "no links");
    assert!(has_urls("see http://a.b"));
    assert!(!has_urls("see a.b"));
    assert!(should_shorten("https://example.com/a/very/long/path/here"));
    assert!(!should_shorten("https://dub.sh/abcdefghijklmnopqrstuvwxyz"));
    assert!(!should_shorten("https://short.io/x"));
    let text = "a https://example.com/a/very/long/path/here b https://dub.sh/x c";
    assert_eq!(shortenable_urls(text), vec!["https://example.com/a/very/long/path/here".to_string()]);
    assert_eq!(replace_url("x u y u", "u", "v"), "x v y v");
    assert_eq!(short_link_from_response(&obj(vec![("shortLink", s("https://dub.sh/a"))])).ok(), Some("https://dub.sh/a".to_string()));
    assert_eq!(short_link_from_response(&Json::Null).err(), Some("Dub.co response missing shortLink".to_string()));
}

fn request(content: &str, ids: Vec<u128>) -> StagingRequest {
    StagingRequest { content: content.to_string(), media: Json::Null, integration_ids: ids, settings: Json::Null, scheduled_at: None }
}

#[test]
fn staging_requests() {
    assert_eq!(validate_staging_request(&request("  \n ", vec![1])).err(), Some("Content cannot be empty".to_string()));
    assert_eq!(validate_staging_request(&request("hi", vec![])).err(), Some("At least one integration_id is required".to_string()));
    let long = "a".repeat(100_001);
    assert_eq!(
        validate_staging_request(&request(&long, vec![1])).err(),
        Some("Content exceeds maximum length (100,000 chars)".to_string())
    );
    assert!(validate_staging_request(&request(&"a".repeat(100_000), vec![1])).is_ok());
}

#[test]
fn staging_parts() {
    assert_eq!(split_warning(1, "x", 4000), None);
    assert_eq!(split_warning(3, "bluesky", 300), Some("Content split into 3 posts for bluesky (limit: 300 chars)".to_string()));
    assert_eq!(staged_state(true), "queued");
    assert_eq!(staged_state(false), "draft");
    assert!(matches!(segment_media(1, Json::Bool(true)), Json::Bool(true)));
    assert!(matches!(segment_media(2, Json::Bool(true)), Json::Array(v) if v.is_empty()));
    let r = staging_result(vec![], vec!["w".to_string()]);
    assert_eq!(r.total_posts, 0);
    assert_eq!(r.warnings.len(), 1);
}
