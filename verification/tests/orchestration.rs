use social_forge::json::Json;
use social_forge::posts::{validate_for_publish, PostService, PostState};
use social_forge::providers::ProviderKind;
use social_forge::scheduler::{
    after_refresh, after_success, cron_refresh_providers, cross_post_secondary, cross_post_step,
    due_decision, plug_kind, prepared_content, propagation_wait_secs, publish_timeout_error,
    refresh_plan, refreshed_expiry, repost_is_retweet, timed_out_posts, unregistered_provider_error,
    CrossPostStep, DueDecision, FailureAction, PlugKind, PublishRetry, RefreshAction, RefreshPlan,
};
use social_forge::tokens::TokenGrant;
use social_forge::short_link::{apply_short_links, has_urls, strip_links};
use social_forge::social::{MediaAttachment, PostContent, ProviderError};

fn post(content: &str, media: Vec<&str>) -> PostContent {
    PostContent {
        content: content.to_string(),
        media: media
            .into_iter()
            .map(|m| MediaAttachment { url: "u".to_string(), mime_type: m.to_string(), alt: None, poster_url: None })
            .collect(),
        settings: Json::Null,
        in_reply_to: None,
        idempotency_key: None,
        delay_minutes: None,
    }
}

#[test]
fn publish_plan_refuses_in_order() {
    assert_eq!(
        PostService::publish_plan(PostState::Draft, true, None, "foo", "x"),
        Err("Draft posts must be scheduled first".to_string())
    );
    assert_eq!(
        PostService::publish_plan(PostState::Published, true, None, "foo", "x"),
        Err("Post already published".to_string())
    );
    assert_eq!(
        PostService::publish_plan(PostState::Queued, true, None, "foo", "x"),
        Err("Integration is disabled. Reconnect the social account.".to_string())
    );
    assert_eq!(
        PostService::publish_plan(PostState::Queued, false, None, "foo", "x"),
        Err("Provider 'foo' not found".to_string())
    );
}

#[test]
fn publish_plan_sanitizes_to_the_provider_limit() {
    assert_eq!(
        PostService::publish_plan(PostState::Error, false, Some(ProviderKind::Mastodon), "mastodon", "  <b>hi</b> there "),
        Ok("hi there".to_string())
    );
    let long = "a".repeat(400);
    let r = PostService::publish_plan(PostState::Queued, false, Some(ProviderKind::Bluesky), "bluesky", &long).unwrap();
    assert_eq!(r.len(), 300);
}

#[test]
fn validation_gates_publishing() {
    assert_eq!(validate_for_publish(&ProviderKind::Bluesky, &post("short", vec![])), Ok(()));
    let long = "a".repeat(301);
    assert_eq!(
        validate_for_publish(&ProviderKind::Bluesky, &post(&long, vec![])),
        Err("Content validation failed: Content too long (301 chars). Maximum is 300 chars for Bluesky.".to_string())
    );
    assert_eq!(
        validate_for_publish(&ProviderKind::Facebook, &post("hi", vec!["image/png"; 11])),
        Err("Media validation failed: Facebook allows max 10 images, got 11".to_string())
    );
    assert_eq!(validate_for_publish(&ProviderKind::Mastodon, &post("hi", vec!["image/png"; 11])), Ok(()));
}

#[test]
fn first_comment_is_posted_once_after_success() {
    let (r, c) = after_success(Some("Thanks!".to_string()));
    assert_eq!(r, Ok(()));
    assert_eq!(c, Some("Thanks!".to_string()));
    let (r, c) = after_success(Some(String::new()));
    assert_eq!(r, Ok(()));
    assert_eq!(c, None);
    assert_eq!(after_success(None).1, None);
}

#[test]
fn token_refresh_decisions() {
    assert!(matches!(refresh_plan(true, true), RefreshPlan::Skip));
    assert!(matches!(refresh_plan(true, false), RefreshPlan::Skip));
    assert!(matches!(refresh_plan(false, false), RefreshPlan::MarkRefreshNeeded));
    assert!(matches!(refresh_plan(false, true), RefreshPlan::Refresh));
    assert_eq!(refreshed_expiry(Some(3600), 1_000), Some(4_600));
    assert_eq!(refreshed_expiry(None, 1_000), None);
    let kept = cron_refresh_providers(vec![ProviderKind::Bluesky, ProviderKind::Linkedin, ProviderKind::Mastodon, ProviderKind::Gmail]);
    assert_eq!(kept.len(), 2);
    assert!(kept[0] == ProviderKind::Linkedin);
    assert!(kept[1] == ProviderKind::Gmail);
}

#[test]
fn links_are_stripped_only_for_x_when_enabled() {
    assert_eq!(prepared_content("x", true, "Read https://example.com/x now"), "Read  now");
    assert_eq!(prepared_content("x", false, "Read https://example.com/x now"), "Read https://example.com/x now");
    assert_eq!(prepared_content("bluesky", true, "Read https://example.com/x now"), "Read https://example.com/x now");
}

#[test]
fn successful_short_links_replace_their_urls() {
    let text = "a https://example.com/very/long/path b https://example.org/other/long/path c https://example.com/very/long/path";
    let results = vec![
        ("https://example.com/very/long/path".to_string(), Ok("https://dub.sh/a".to_string())),
        ("https://example.org/other/long/path".to_string(), Err("timeout".to_string())),
    ];
    assert_eq!(
        apply_short_links(text, &results),
        "a https://dub.sh/a b https://example.org/other/long/path c https://dub.sh/a"
    );
    let failed = vec![("https://example.com/very/long/path".to_string(), Err("down".to_string()))];
    assert_eq!(apply_short_links(text, &failed), text);
}

#[test]
fn stripping_links_is_complete_and_stable() {
    use_strip_cases();
}

fn use_strip_cases() {
    let cases = [
        "see https://a.example/x and http://b.example/y?z=1 done",
        "  https://only.example  ",
        "hthttps://x.example/<tail> http:// nothing",
        "no links here",
    ];
    for t in cases {
        let once = strip_links(t);
        assert!(!has_urls(&once));
        assert_eq!(strip_links(&once), once);
        assert_eq!(has_urls(t), once != t.trim());
    }
    assert_eq!(strip_links("hthttps://x.example/<tail> http:// nothing"), "ht<tail> http:// nothing");
}

#[test]
fn refresh_outcome_is_stored_or_marked() {
    let grant = TokenGrant { access_token: "new".to_string(), refresh_token: Some("r2".to_string()), expires_in: Some(3600) };
    match after_refresh(Ok(grant), 1_000) {
        RefreshAction::Store { access_token, refresh_token, expires_at } => {
            assert_eq!(access_token, "new");
            assert_eq!(refresh_token, Some("r2".to_string()));
            assert_eq!(expires_at, Some(4_600));
        }
        RefreshAction::MarkRefreshNeeded { .. } => panic!("a new token is stored"),
    }
    match after_refresh(Err(ProviderError::Auth("revoked".to_string())), 1_000) {
        RefreshAction::MarkRefreshNeeded { error } => assert_eq!(error, "Auth error: revoked"),
        RefreshAction::Store { .. } => panic!("a failed refresh marks the integration"),
    }
    assert_eq!(propagation_wait_secs(&ProviderKind::Linkedin), 10);
    assert_eq!(propagation_wait_secs(&ProviderKind::Mastodon), 0);
}

#[test]
fn failed_refresh_ends_the_publish() {
    let mut retry = PublishRetry::start();
    assert!(retry.after_failure(&ProviderError::TokenExpired) == FailureAction::RefreshToken);
    let failed: Result<TokenGrant, ProviderError> = Err(ProviderError::Network("down".to_string()));
    assert!(retry.after_refresh(&failed) == FailureAction::Stop { mark_refresh_needed: true });
    assert_eq!(retry.final_error(), "Network error: down");

    let mut retry = PublishRetry::start();
    assert!(retry.after_failure(&ProviderError::TokenExpired) == FailureAction::RefreshToken);
    let ok: Result<TokenGrant, ProviderError> =
        Ok(TokenGrant { access_token: "t".to_string(), refresh_token: None, expires_in: None });
    assert!(retry.after_refresh(&ok) == FailureAction::Retry);
    assert!(retry.next_attempt());
    assert!(retry.after_failure(&ProviderError::TokenExpired) == FailureAction::Stop { mark_refresh_needed: true });
    assert_eq!(retry.final_error(), "Token expired and refresh did not resolve it");
}

#[test]
fn due_posts_are_requeued_skipped_or_published() {
    assert!(due_decision(false, true) == DueDecision::Requeue);
    assert!(due_decision(false, false) == DueDecision::Requeue);
    assert!(due_decision(true, false) == DueDecision::Skip);
    assert!(due_decision(true, true) == DueDecision::Publish);
    assert_eq!(timed_out_posts(&vec![1, 2, 3, 4], &vec![3, 1]), vec![2, 4]);
    assert_eq!(timed_out_posts(&vec![1, 2], &vec![1, 2]), Vec::<u128>::new());
    assert_eq!(publish_timeout_error(), "Publish timed out after 300s \u{2014} aborted by scheduler");
}

#[test]
fn plug_kinds_and_cross_posts() {
    assert!(plug_kind("auto_repost_after_likes") == Ok(PlugKind::AutoRepost));
    assert!(plug_kind("cross_post_from_secondary") == Ok(PlugKind::CrossPost));
    assert_eq!(plug_kind("boost").err(), Some("Unknown plug type: boost".to_string()));
    assert!(repost_is_retweet("x"));
    assert!(!repost_is_retweet("bluesky"));
    assert_eq!(unregistered_provider_error("foo"), "Provider 'foo' not registered");

    let cfg = Json::Object(vec![(
        "secondary_integration_id".to_string(),
        Json::Str("67e55044-10b1-426f-9247-bb680e5fe0c8".to_string()),
    )]);
    assert_eq!(cross_post_secondary(&cfg), Ok(0x67e5504410b1426f9247bb680e5fe0c8));
    let bad = Json::Object(vec![("secondary_integration_id".to_string(), Json::Str("nope".to_string()))]);
    assert_eq!(cross_post_secondary(&bad), Err("Missing secondary_integration_id in config".to_string()));
    assert_eq!(cross_post_secondary(&Json::Null), Err("Missing secondary_integration_id in config".to_string()));

    assert!(cross_post_step(false, 0, 30, 1_000) == CrossPostStep::NotYet);
    assert!(cross_post_step(true, 2, 30, 1_000) == CrossPostStep::AlreadyPosted);
    assert!(cross_post_step(true, 0, 30, 1_000) == CrossPostStep::Create { scheduled_at: 2_800 });
}
