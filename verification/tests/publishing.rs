use social_forge::articles::{hashnode_profile_check, hashnode_publications};
use social_forge::bluesky::{
    create_record_body, first_image, images_embed, post_record, publish_outcome, resolved_did,
    session_token,
};
use social_forge::farcaster::{cast_body, cast_outcome, neynar_key, signer_page};
use social_forge::github::{github_answer, GithubCall};
use social_forge::instagram::{
    business_account_error, carousel_form, container_form, created_id, instagram_published,
    publish_form, require_feed_media, require_standalone_media, standalone_container_form,
};
use social_forge::json::Json;
use social_forge::kick::{announcement_body, announcement_outcome, kick_channel_id};
use social_forge::meta::{feed_comment, graph_status, insight_series, video_source_outcome};
use social_forge::social::{MediaAttachment, ProviderError};
use social_forge::tokens::{refreshed_auth_token, token_refresh_error, TokenGrant};

fn s(x: &str) -> Json {
    Json::Str(x.to_string())
}

fn obj(entries: Vec<(&str, Json)>) -> Json {
    Json::Object(entries.into_iter().map(|(k, v)| (k.to_string(), v)).collect())
}

fn pairs(v: Vec<(String, String)>) -> Vec<(String, String)> {
    v
}

fn p(a: &str, b: &str) -> (String, String) {
    (a.to_string(), b.to_string())
}

#[test]
fn instagram_forms() {
    assert_eq!(
        pairs(container_form("https://i/1.jpg", "tok", "cap", false)),
        vec![p("image_url", "https://i/1.jpg"), p("access_token", "tok"), p("caption", "cap")]
    );
    assert_eq!(
        container_form("https://i/1.jpg", "tok", "cap", true),
        vec![p("image_url", "https://i/1.jpg"), p("access_token", "tok"), p("is_carousel_item", "true")]
    );
    assert_eq!(
        carousel_form(&vec!["c1".to_string(), "c2".to_string()], "cap", "tok"),
        vec![p("media_type", "CAROUSEL"), p("children", "c1,c2"), p("caption", "cap"), p("access_token", "tok")]
    );
    assert_eq!(
        standalone_container_form("https://v/clip.mp4", 1, "tok", "cap"),
        vec![p("video_url", "https://v/clip.mp4"), p("media_type", "VIDEO"), p("access_token", "tok"), p("caption", "cap")]
    );
    assert_eq!(
        standalone_container_form("https://i/a.png", 2, "tok", "cap"),
        vec![p("image_url", "https://i/a.png"), p("media_type", "IMAGE"), p("access_token", "tok")]
    );
    assert_eq!(publish_form("c9", "tok"), vec![p("creation_id", "c9"), p("access_token", "tok")]);
}

#[test]
fn instagram_answers() {
    assert!(matches!(require_feed_media(0), Err(ProviderError::InvalidRequest(m)) if m == "Instagram Feed posts require at least one media attachment (image or video)."));
    assert!(require_feed_media(2).is_ok());
    assert!(matches!(require_standalone_media(0), Err(ProviderError::InvalidRequest(m)) if m == "Instagram requires at least one media attachment"));
    assert!(matches!(business_account_error("no pages"), ProviderError::Api(m) if m == "Cannot resolve IG business account: no pages"));
    assert_eq!(created_id(&obj(vec![("id", s("17890"))]), "Publish failed", "Missing: ", "{}").ok(), Some("17890".to_string()));
    assert!(matches!(
        created_id(&obj(vec![("error", obj(vec![("message", s("Invalid image"))]))]), "Container creation failed", "x", "y"),
        Err(ProviderError::Api(m)) if m == "Invalid image"
    ));
    assert!(matches!(
        created_id(&obj(vec![("error", obj(vec![]))]), "Container creation failed", "x", "y"),
        Err(ProviderError::Api(m)) if m == "Container creation failed"
    ));
    assert!(matches!(
        created_id(&obj(vec![]), "f", "Instagram did not return container ID: ", "Object {}"),
        Err(ProviderError::Api(m)) if m == "Instagram did not return container ID: Object {}"
    ));
    let r = instagram_published("179".to_string());
    assert_eq!(r.platform_post_url, Some("https://instagram.com/p/179".to_string()));
    assert_eq!(r.status, "published");
}

#[test]
fn bluesky_steps() {
    assert_eq!(session_token(200, &obj(vec![("accessJwt", s("jwt"))])).ok(), Some("jwt".to_string()));
    assert!(matches!(session_token(200, &Json::Null), Err(ProviderError::Auth(m)) if m == "Missing accessJwt"));
    assert!(matches!(session_token(401, &obj(vec![("message", s("Invalid identifier or password"))])), Err(ProviderError::Auth(m)) if m == "Invalid identifier or password"));
    assert!(matches!(session_token(500, &Json::Null), Err(ProviderError::Auth(m)) if m == "Bluesky auth failed"));
    assert_eq!(resolved_did(&obj(vec![("did", s("did:plc:abc"))])).ok(), Some("did:plc:abc".to_string()));
    assert!(matches!(resolved_did(&Json::Null), Err(ProviderError::Auth(m)) if m == "Could not resolve handle"));
    let media = vec![
        MediaAttachment { url: "v".to_string(), mime_type: "video/mp4".to_string(), alt: None, poster_url: None },
        MediaAttachment { url: "i".to_string(), mime_type: "image/png".to_string(), alt: None, poster_url: None },
    ];
    assert_eq!(first_image(&media), Some(1));
    assert_eq!(first_image(&vec![]), None);
    let embed = images_embed(Some("a cat"), s("blobref"));
    let record = post_record("hello", "2024-01-01T00:00:00.000Z", Some(embed));
    match &record {
        Json::Object(f) => {
            assert_eq!(f.len(), 4);
            assert_eq!(f[3].0, "embed");
        }
        _ => panic!("record"),
    }
    assert!(matches!(post_record("x", "t", None), Json::Object(f) if f.len() == 3));
    assert!(matches!(create_record_body("did:plc:abc", record), Json::Object(f) if f[0].0 == "repo" && f[2].0 == "record"));
}

#[test]
fn bluesky_publish_answers() {
    let ok = publish_outcome(200, &obj(vec![("uri", s("at://did:plc:abc/app.bsky.feed.post/3kxyz")), ("cid", s("bafy"))]), "alice.bsky.social")
        .ok()
        .expect("published");
    assert_eq!(ok.platform_post_id, "bafy");
    assert_eq!(ok.platform_post_url, Some("https://bsky.app/profile/alice.bsky.social/post/3kxyz".to_string()));
    let no_slash = publish_outcome(200, &obj(vec![("uri", s("plain"))]), "h").ok().expect("published");
    assert_eq!(no_slash.platform_post_url, Some("https://bsky.app/profile/h/post/plain".to_string()));
    assert!(matches!(publish_outcome(400, &Json::Null, "h"), Err(ProviderError::Api(m)) if m == "Bluesky publish failed"));
}

#[test]
fn kick_announcements() {
    assert_eq!(kick_channel_id(&obj(vec![("channel_id", s("123"))])), "123");
    assert_eq!(kick_channel_id(&Json::Null), "");
    assert!(matches!(announcement_body("hi", "123"), Json::Object(f) if f[1].0 == "channel_id"));
    let ok = announcement_outcome(200, &obj(vec![("data", obj(vec![("id", s("a1"))]))]), "123").ok().expect("ok");
    assert_eq!(ok.platform_post_id, "a1");
    assert_eq!(ok.platform_post_url, Some("https://kick.com/channel/123".to_string()));
    assert_eq!(announcement_outcome(201, &obj(vec![("id", s("a2"))]), "c").ok().map(|r| r.platform_post_id), Some("a2".to_string()));
    assert!(matches!(announcement_outcome(200, &Json::Null, "c"), Err(ProviderError::Api(m)) if m == "Missing post ID in API response"));
    assert!(matches!(announcement_outcome(401, &Json::Null, "c"), Err(ProviderError::TokenExpired)));
    assert!(matches!(announcement_outcome(429, &Json::Null, "c"), Err(ProviderError::RateLimited(m)) if m == "Rate limited by Kick API"));
    assert!(matches!(announcement_outcome(500, &obj(vec![("message", s("boom"))]), "c"), Err(ProviderError::Api(m)) if m == "boom"));
}

#[test]
fn farcaster_casts() {
    assert!(matches!(neynar_key(None), Err(ProviderError::Api(m)) if m == "NEYNAR_API_KEY not configured. Set it in your .env file."));
    assert_eq!(neynar_key(Some("k")).ok(), Some("k".to_string()));
    assert!(matches!(cast_body("sig", "gm"), Json::Object(f) if f[0].0 == "signer_uuid"));
    let ok = cast_outcome(200, "", &obj(vec![("cast", obj(vec![("hash", s("0xabc"))]))])).ok().expect("cast");
    assert_eq!(ok.platform_post_url, Some("https://warpcast.com/0xabc".to_string()));
    assert_eq!(cast_outcome(201, "", &Json::Null).ok().map(|r| r.platform_post_id), Some("unknown".to_string()));
    assert!(matches!(cast_outcome(401, "", &Json::Null), Err(ProviderError::Api(m)) if m == "Invalid Neynar API key. Check NEYNAR_API_KEY in .env."));
    assert!(matches!(cast_outcome(400, "invalid signer", &Json::Null), Err(ProviderError::Api(m)) if m == "Invalid Farcaster signer. Re-connect your account."));
    assert!(matches!(cast_outcome(400, "{}", &obj(vec![("error", s("e"))])), Err(ProviderError::Api(m)) if m == "e"));
    assert!(matches!(cast_outcome(500, "", &Json::Null), Err(ProviderError::Api(m)) if m == "Farcaster publish failed"));
}

#[test]
fn farcaster_signer_pages() {
    let page = signer_page("0123456789abcdef");
    assert_eq!(page.name, "Farcaster (012345...cdef)");
    assert_eq!(page.id, "0123456789abcdef");
    assert_eq!(page.username, Some("0123456789abcdef".to_string()));
    assert_eq!(signer_page("short").name, "Farcaster (short)");
    assert_eq!(signer_page("0123456789").name, "Farcaster (0123456789)");
}

#[test]
fn github_answers() {
    assert!(github_answer(GithubCall::Get, 204, &Json::Null).is_ok());
    assert!(github_answer(GithubCall::Post, 204, &Json::Null).is_err());
    assert!(matches!(github_answer(GithubCall::Get, 401, &Json::Null), Err(ProviderError::Auth(m)) if m == "Authentication failed"));
    assert!(matches!(
        github_answer(GithubCall::Get, 403, &obj(vec![("message", s("API Rate Limit exceeded"))])),
        Err(ProviderError::RateLimited(m)) if m == "API Rate Limit exceeded"
    ));
    assert!(matches!(github_answer(GithubCall::Post, 403, &Json::Null), Err(ProviderError::Api(m)) if m == "Forbidden"));
    assert!(matches!(github_answer(GithubCall::Get, 404, &Json::Null), Err(ProviderError::Api(m)) if m == "Resource not found"));
    assert!(matches!(github_answer(GithubCall::Post, 404, &Json::Null), Err(ProviderError::Api(m)) if m == "GitHub API error"));
    assert!(matches!(github_answer(GithubCall::Post, 422, &Json::Null), Err(ProviderError::InvalidRequest(m)) if m == "Validation error"));
}

#[test]
fn graph_helpers() {
    assert!(graph_status(200, &Json::Null).is_ok());
    assert!(matches!(graph_status(429, &Json::Null), Err(ProviderError::RateLimited(m)) if m == "Facebook API rate limit"));
    assert!(matches!(graph_status(401, &Json::Null), Err(ProviderError::TokenExpired)));
    assert!(matches!(graph_status(400, &Json::Null), Err(ProviderError::Api(m)) if m == "Facebook API error"));
    let formats = Json::Array(vec![
        obj(vec![("filetype", s("mp4")), ("embeddable", Json::Bool(true)), ("quality", s("480p")), ("embed_url", s("https://e/480"))]),
        obj(vec![("filetype", s("mp4")), ("embeddable", Json::Bool(true)), ("quality", s("720p")), ("embed_url", s("https://e/720"))]),
        obj(vec![("filetype", s("mp4")), ("embeddable", Json::Bool(false)), ("quality", s("999p")), ("preview_url", s("https://p/999"))]),
        obj(vec![("filetype", s("mov")), ("embeddable", Json::Bool(true)), ("quality", s("zzz")), ("embed_url", s("https://e/mov"))]),
    ]);
    let answer = obj(vec![("source", s("")), ("format", formats)]);
    assert_eq!(video_source_outcome(200, &answer).ok(), Some("https://e/720".to_string()));
    assert_eq!(video_source_outcome(200, &obj(vec![("source", s("https://src"))])).ok(), Some("https://src".to_string()));
    let only_preview = obj(vec![("format", Json::Array(vec![obj(vec![("filetype", s("mp4")), ("preview_url", s("https://p/1"))])]))]);
    assert_eq!(video_source_outcome(200, &only_preview).ok(), Some("https://p/1".to_string()));
    assert!(matches!(video_source_outcome(200, &Json::Null), Err(ProviderError::Api(m)) if m == "No usable video source found in response"));
    assert!(matches!(video_source_outcome(429, &Json::Null), Err(ProviderError::RateLimited(_))));
}

#[test]
fn ties_in_quality_pick_the_last_format() {
    let formats = Json::Array(vec![
        obj(vec![("filetype", s("mp4")), ("embeddable", Json::Bool(true)), ("quality", s("hd")), ("embed_url", s("https://first"))]),
        obj(vec![("filetype", s("mp4")), ("embeddable", Json::Bool(true)), ("quality", s("hd")), ("embed_url", s("https://second"))]),
    ]);
    assert_eq!(video_source_outcome(200, &obj(vec![("format", formats)])).ok(), Some("https://second".to_string()));
}

#[test]
fn comments_and_insights() {
    let item = obj(vec![
        ("id", s("c1")),
        ("message", s("Nice!")),
        ("from", obj(vec![("name", s("Ann"))])),
        ("created_time", s("2024-05-01T10:00:00+0000")),
        ("comments", obj(vec![("data", Json::Array(vec![obj(vec![("id", s("r1")), ("message", s("thx"))]), obj(vec![("message", s("no id"))])]))])),
    ]);
    let c = feed_comment(&item);
    assert_eq!(c.id, "c1");
    assert_eq!(c.author_name, Some("Ann".to_string()));
    assert_eq!(c.replies.len(), 1);
    assert_eq!(c.replies[0].text, "thx");
    assert!(c.replies[0].author_name.is_none());
    let insights = obj(vec![(
        "data",
        Json::Array(vec![
            obj(vec![
                ("name", s("page_impressions")),
                ("values", Json::Array(vec![obj(vec![("value", Json::Int(-5)), ("end_time", s("2024-05-01"))]), obj(vec![("value", s("x"))])])),
            ]),
            obj(vec![]),
        ]),
    )]);
    let series = insight_series(&insights);
    assert_eq!(series.len(), 2);
    assert_eq!(series[0].label, "page_impressions");
    assert_eq!(series[0].points[0].total, "-5");
    assert_eq!(series[0].points[0].date, "2024-05-01");
    assert_eq!(series[0].points[1].total, "0");
    assert_eq!(series[1].label, "unknown");
    assert!(series[1].points.is_empty());
}

#[test]
fn hashnode_publication_pages() {
    assert!(hashnode_profile_check(200, &Json::Null).is_ok());
    assert!(matches!(hashnode_profile_check(401, &Json::Null), Err(ProviderError::Api(m)) if m == "Failed to fetch Hashnode user info"));
    let json = obj(vec![(
        "publications",
        Json::Array(vec![
            obj(vec![("publication", obj(vec![("_id", s("p1")), ("title", s("Blog")), ("logoUrl", s("https://l"))]))]),
            obj(vec![]),
        ]),
    )]);
    let pages = hashnode_publications(200, &json).ok().expect("pages");
    assert_eq!(pages.len(), 2);
    assert_eq!(pages[0].picture, Some("https://l".to_string()));
    assert_eq!(pages[1].name, "Hashnode Publication");
    assert!(matches!(hashnode_publications(500, &obj(vec![("message", s("down"))])), Err(ProviderError::Api(m)) if m == "down"));
}

#[test]
fn token_refreshes() {
    let g = TokenGrant { access_token: "new".to_string(), refresh_token: Some("rt2".to_string()), expires_in: Some(60) };
    assert_eq!(refreshed_auth_token(g, "rt1", true).refresh_token, Some("rt2".to_string()));
    let g2 = TokenGrant { access_token: "new".to_string(), refresh_token: Some("rt2".to_string()), expires_in: None };
    assert_eq!(refreshed_auth_token(g2, "rt1", false).refresh_token, Some("rt1".to_string()));
    let g3 = TokenGrant { access_token: "new".to_string(), refresh_token: None, expires_in: None };
    let a = refreshed_auth_token(g3, "rt1", true);
    assert_eq!(a.refresh_token, Some("rt1".to_string()));
    assert_eq!(a.name, "");
    assert!(matches!(token_refresh_error(&Json::Null), ProviderError::Auth(m) if m == "Token refresh failed"));
}
