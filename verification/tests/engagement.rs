use social_forge::automation::{
    ai_model, ai_prompt, ai_reply_from_response, cooldown_window, fill_template, hourly_cap,
    matches_filter, passes_cooldown, passes_rate_limit, response_kind, AutomationRule,
    ResponseKind, TriggerContext,
};
use social_forge::engagement::parse_engagement_data;
use social_forge::json::Json;
use social_forge::social::{
    format_mention, reconnect_from_page, validate_media_limits, validate_post, MediaAttachment,
    PageInfo, PostContent, ProviderError,
};

fn s(x: &str) -> Json {
    Json::Str(x.to_string())
}

fn obj(entries: Vec<(&str, Json)>) -> Json {
    Json::Object(entries.into_iter().map(|(k, v)| (k.to_string(), v)).collect())
}

fn rule(filter: Json) -> AutomationRule {
    AutomationRule {
        id: 1,
        integration_id: 2,
        name: "r".to_string(),
        trigger_type: "comment".to_string(),
        trigger_filter: filter,
        response_template: "Thanks {author}!".to_string(),
        response_type: "template".to_string(),
        ai_model: None,
        cooldown_minutes: None,
        max_responses_per_hour: None,
    }
}

fn context(content: &str, author: Option<&str>) -> TriggerContext {
    TriggerContext {
        trigger_id: "t1".to_string(),
        trigger_type: "comment".to_string(),
        platform: "Bluesky".to_string(),
        author_name: author.map(|a| a.to_string()),
        content: content.to_string(),
        post_id: None,
    }
}

#[test]
fn filters_match_keywords_platforms_and_own_posts() {
    let f = obj(vec![
        ("keywords", Json::Array(vec![s("PRICE"), Json::Int(1)])),
        ("platforms", Json::Array(vec![s("bluesky")])),
        ("exclude_own", Json::Bool(true)),
    ]);
    assert!(matches_filter(&rule(f), &context("What is the price?", Some("fan")), Some("me")));
    let f2 = obj(vec![("keywords", Json::Array(vec![s("price")])), ("exclude_own", Json::Bool(true))]);
    assert!(!matches_filter(&rule(f2), &context("price?", Some("me")), Some("me")));
    let f3 = obj(vec![("platforms", Json::Array(vec![s("x")]))]);
    assert!(!matches_filter(&rule(f3), &context("hi", None), None));
    assert!(matches_filter(&rule(Json::Null), &context("anything", None), None));
    let f4 = obj(vec![("keywords", Json::Array(vec![]))]);
    assert!(!matches_filter(&rule(f4), &context("anything", None), None));
}

#[test]
fn limits_and_templates() {
    let mut r = rule(Json::Null);
    assert_eq!(cooldown_window(&r), None);
    assert_eq!(hourly_cap(&r), Some(10));
    r.cooldown_minutes = Some(30);
    r.max_responses_per_hour = Some(0);
    assert_eq!(cooldown_window(&r), Some(30));
    assert_eq!(hourly_cap(&r), None);
    assert!(passes_cooldown(0));
    assert!(!passes_cooldown(1));
    assert!(passes_rate_limit(Some(10), 9));
    assert!(!passes_rate_limit(Some(10), 10));
    assert!(passes_rate_limit(None, 1000));
    assert!(matches!(response_kind("template"), ResponseKind::Template));
    assert!(matches!(response_kind("ai_generated"), ResponseKind::AiGenerated));
    assert!(matches!(response_kind("fixed"), ResponseKind::Fixed));
    assert_eq!(fill_template("Hi {author}, re: {content} on {platform}", &context("nice", Some("Ann"))), "Hi Ann, re: nice on Bluesky");
    assert_eq!(fill_template("Hi {author}", &context("x", None)), "Hi there");
    assert_eq!(ai_model(&r), "gpt-4o-mini");
    assert!(ai_prompt(&context("Great post", None)).contains("Comment: Great post"));
}

#[test]
fn ai_replies() {
    let resp = obj(vec![("choices", Json::Array(vec![obj(vec![("message", obj(vec![("content", s("Thank you!"))]))])]))]);
    assert_eq!(ai_reply_from_response(&resp).ok(), Some("Thank you!".to_string()));
    assert_eq!(ai_reply_from_response(&obj(vec![("choices", Json::Array(vec![]))])).err(), Some("Empty AI response".to_string()));
}

#[test]
fn engagement_of_platforms() {
    let x = parse_engagement_data("x", obj(vec![("public_metrics", obj(vec![("like_count", Json::Int(7)), ("retweet_count", Json::Int(2))]))]));
    assert_eq!(x.likes, 7);
    assert_eq!(x.reposts, 2);
    let reddit = parse_engagement_data("reddit", obj(vec![("ups", Json::Int(10)), ("score", Json::Int(8)), ("num_comments", Json::Int(3))]));
    assert_eq!(reddit.upvotes, 10);
    assert_eq!(reddit.likes, 8);
    assert_eq!(reddit.comments, 3);
    let ig = parse_engagement_data("instagram", obj(vec![("impressions", Json::Int(99)), ("like_count", Json::Int(4))]));
    assert_eq!(ig.views, 99);
    let unknown = parse_engagement_data("myspace", obj(vec![("likes", Json::Int(5))]));
    assert_eq!(unknown.likes, 0);
    assert!(unknown.raw.is_some());
}

#[test]
fn facebook_reactions_are_tallied() {
    let raw = obj(vec![
        (
            "reactions",
            obj(vec![
                ("summary", obj(vec![("total_count", Json::Int(3))])),
                ("data", Json::Array(vec![obj(vec![("type", s("LIKE"))]), obj(vec![("type", s("LOVE"))]), obj(vec![("type", s("LIKE"))])])),
            ]),
        ),
        ("shares", obj(vec![("count", Json::Int(2))])),
    ]);
    let e = parse_engagement_data("facebook", raw);
    assert_eq!(e.likes, 3);
    assert_eq!(e.shares, 2);
    assert_eq!(e.reactions, Some(vec![("like".to_string(), 2), ("love".to_string(), 1)]));
}

fn post(content: &str, media: Vec<&str>) -> PostContent {
    PostContent {
        content: content.to_string(),
        media: media
            .into_iter()
            .map(|m| MediaAttachment { url: "u".to_string(), mime_type: m.to_string(), alt: None, poster_url: None })
            .collect(),
        settings: Json::Null,
        in_reply_to: None,
        idempotency_key: None,
        delay_minutes: None,
    }
}

#[test]
fn posts_within_limits() {
    assert!(validate_post(&post("short", vec![]), 10, "X").is_ok());
    assert_eq!(
        validate_post(&post("much too long", vec![]), 5, "Bluesky").err(),
        Some("Content too long (13 chars). Maximum is 5 chars for Bluesky.".to_string())
    );
    assert_eq!(
        validate_media_limits("x", &post("", vec!["image/png"; 5])).err(),
        Some("X/Twitter allows max 4 images, got 5".to_string())
    );
    assert_eq!(
        validate_media_limits("reddit", &post("", vec!["video/mp4"])).err(),
        Some("Reddit posts do not support video. Use a video link instead.".to_string())
    );
    assert_eq!(
        validate_media_limits("youtube", &post("", vec![])).err(),
        Some("YouTube posts require a video attachment.".to_string())
    );
    assert!(validate_media_limits("mastodon", &post("", vec!["image/png"; 4])).is_ok());
    assert!(validate_media_limits("github", &post("", vec!["image/png"; 40])).is_ok());
}

#[test]
fn errors_mentions_and_reconnects() {
    assert_eq!(ProviderError::RateLimited("wait".to_string()).message(), "Rate limited: wait");
    assert_eq!(ProviderError::TokenExpired.message(), "Token expired");
    assert_eq!(format_mention("alice", "Alice"), "@alice");
    let r = reconnect_from_page(PageInfo { id: "1".to_string(), name: "N".to_string(), access_token: None, picture: None, username: None });
    assert_eq!(r.access_token, "");
    assert_eq!(r.id, "1");
}
