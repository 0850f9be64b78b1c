use social_forge::discord::{channels, message_outcome, message_payload};
use social_forge::fediverse::{lemmy_credentials, lemmy_post_body, lemmy_publish_outcome, lemmy_site_page};
use social_forge::github::{content_path, issue_body, page_params, repo_path, repositories, sorted_listing_params};
use social_forge::google::{calendar_list_params, delete_event_outcome, drive_list_params, event_body, export_body};
use social_forge::json::Json;
use social_forge::linkedin::{
    comment_body, connections_total, dm_conversation, dm_message, dm_outcome, engagement_outcome,
    linkedin_comment, linkedin_engagement, linkedin_media, linkedin_media_refs, linkedin_post,
    linkedin_status, media_asset_url, post_metrics, posts_url, reply_outcome, resolved_media_url,
    ugc_post_body, ugc_publish_outcome,
};
use social_forge::linkedin_page::{
    follower_total, logo_download, org_page, org_page_info, page_media_url, page_post, page_posts_retry,
    page_posts_url, page_publish_outcome, share_statistics, stats_status,
};
use social_forge::mastodon::{
    app_credentials, mastodon_status, media_extension, search_path, status_body, timeline_path,
    token_request_body, upload_outcome,
};
use social_forge::nostr::{nostr_auth_token, nostr_page, nostr_placeholder};
use social_forge::pinterest::{boards, boards_to_scan, pin_outcome, pin_plan, PinPlan};
use social_forge::reddit::{
    browse_request, comment_result, comment_thing_id, inbox_mentions, karma, me_auth_token, submit_form,
    submit_result,
};
use social_forge::social::{MediaAttachment, PostContent, ProviderError};

fn s(x: &str) -> Json {
    Json::Str(x.to_string())
}

fn obj(entries: Vec<(&str, Json)>) -> Json {
    Json::Object(entries.into_iter().map(|(k, v)| (k.to_string(), v)).collect())
}

fn arr(items: Vec<Json>) -> Json {
    Json::Array(items)
}

fn text_at<'a>(j: &'a Json, key: &str) -> Option<&'a str> {
    j.get(key).and_then(|v| v.as_str())
}

fn keys(j: &Json) -> Vec<String> {
    match j {
        Json::Object(f) => f.iter().map(|(k, _)| k.clone()).collect(),
        _ => vec![],
    }
}

fn media(url: &str) -> MediaAttachment {
    MediaAttachment { url: url.to_string(), mime_type: String::new(), alt: None, poster_url: None }
}

fn post(content: &str, media: Vec<MediaAttachment>, settings: Json) -> PostContent {
    PostContent {
        content: content.to_string(),
        media,
        settings,
        in_reply_to: None,
        idempotency_key: None,
        delay_minutes: None,
    }
}

fn api_message(e: ProviderError) -> String {
    match e {
        ProviderError::Api(m) => m,
        other => panic!("expected an API error, got {}", other.message()),
    }
}

#[test]
fn linkedin_media_urns_name_rest_assets() {
    assert_eq!(media_asset_url("urn:li:image:C4E22AQ").as_deref(), Some("https://api.linkedin.com/rest/images/C4E22AQ"));
    assert_eq!(media_asset_url("urn:li:video:D5:extra").as_deref(), Some("https://api.linkedin.com/rest/videos/D5"));
    assert_eq!(media_asset_url("urn:li:document:X"), None);
    assert_eq!(media_asset_url("urn:li:image"), None);
}

#[test]
fn linkedin_asset_answers_give_the_download_then_stream_then_any_url() {
    let dl = obj(vec![("value", obj(vec![("downloadUrl", s("https://cdn/img.jpg"))]))]);
    assert_eq!(resolved_media_url(&dl).as_deref(), Some("https://cdn/img.jpg"));
    let stream = obj(vec![(
        "value",
        obj(vec![("playbackStreams", arr(vec![obj(vec![("streamLocations", arr(vec![obj(vec![("url", s("https://cdn/v.mp4"))])]))])]))]),
    )]);
    assert_eq!(resolved_media_url(&stream).as_deref(), Some("https://cdn/v.mp4"));
    let other = obj(vec![("value", obj(vec![("thumbs", arr(vec![s("ftp://x"), s("http://cdn/t.png")]))]))]);
    assert_eq!(resolved_media_url(&other).as_deref(), Some("http://cdn/t.png"));
    assert_eq!(page_media_url(&other), None);
}

#[test]
fn linkedin_posts_read_both_commentary_shapes() {
    let a = obj(vec![("id", s("urn:li:share:1")), ("commentary", s("Hello")), ("createdAt", Json::Int(1700000000000))]);
    let p = linkedin_post(&a).expect("post");
    assert_eq!(p.text, "Hello");
    assert_eq!(p.created_at_ms, Some(1700000000000));
    assert_eq!(p.url, "https://www.linkedin.com/feed/update/urn:li:share:1");
    let b = obj(vec![("id", s("urn:li:share:2")), ("commentary", obj(vec![("text", s("Obj"))]))]);
    assert_eq!(linkedin_post(&b).expect("post").text, "Obj");
    assert!(linkedin_post(&obj(vec![("commentary", s("no id"))])).is_none());
    let page = page_post(&obj(vec![("commentary", s("ignored"))]));
    assert_eq!(page.platform_post_id, "");
    assert_eq!(page.text, "");
}

#[test]
fn linkedin_media_fall_back_stage_by_stage() {
    let element = obj(vec![(
        "content",
        obj(vec![
            ("media", obj(vec![("id", s("urn:li:video:V1")), ("title", s("Clip"))])),
            ("multiImage", arr(vec![obj(vec![("id", s("urn:li:image:1"))]), obj(vec![]), obj(vec![("id", s("urn:li:image:3"))])])),
            ("article", obj(vec![("thumbnail", s("https://thumb")), ("title", s("Read"))])),
        ]),
    )]);
    let refs = linkedin_media_refs(&element);
    assert_eq!(refs.multi, vec!["urn:li:image:1".to_string(), "urn:li:image:3".to_string()]);
    let single = linkedin_media(&refs, Some("https://v".to_string()), vec![], None);
    assert_eq!(single.len(), 1);
    assert_eq!(single[0].mime_type, "video/mp4");
    assert_eq!(single[0].alt.as_deref(), Some("Clip"));
    let multi = linkedin_media(&refs, None, vec![None, Some("https://i3".to_string())], None);
    assert_eq!(multi.len(), 1);
    assert_eq!(multi[0].url, "https://i3");
    let article = linkedin_media(&refs, None, vec![None, None], None);
    assert_eq!(article[0].url, "https://thumb");
    assert_eq!(article[0].alt.as_deref(), Some("Read"));
    let none = linkedin_media_refs(&obj(vec![("content", Json::Null)]));
    assert!(none.single.is_none() && none.multi.is_empty() && none.article.is_none() && none.file.is_none());
}

#[test]
fn linkedin_comments_and_counts() {
    let c = obj(vec![
        ("id", s("c1")),
        ("actor", s("urn:li:person:abc")),
        ("message", obj(vec![("text", s("Nice"))])),
        ("likesSummary", obj(vec![("totalLikes", Json::Int(4294967301))])),
    ]);
    let r = linkedin_comment(&c);
    assert_eq!(r.author_name.as_deref(), Some("abc"));
    assert_eq!(r.text, "Nice");
    assert_eq!(r.like_count, 5);
    let j = obj(vec![
        ("likesSummary", obj(vec![("totalLikes", Json::Int(3))])),
        ("sharesSummary", obj(vec![("totalShares", Json::Int(1))])),
    ]);
    assert_eq!(linkedin_engagement(&j), Some(vec![("likeCount".to_string(), 3), ("shareCount".to_string(), 1)]));
    assert_eq!(linkedin_engagement(&obj(vec![])), None);
    assert!(matches!(engagement_outcome(401, &j), Err(ProviderError::TokenExpired)));
    assert_eq!(engagement_outcome(500, &j).ok(), Some(None));
    let m = post_metrics(200, &j).ok().expect("metrics");
    assert_eq!(m, vec![("likes".to_string(), "3".to_string()), ("shares".to_string(), "1".to_string())]);
    assert_eq!(api_message(post_metrics(500, &obj(vec![])).err().expect("error")), "LinkedIn post analytics error");
    assert_eq!(connections_total(&obj(vec![("firstDegreeSize", Json::Int(42))])).as_deref(), Some("42"));
}

#[test]
fn linkedin_requests_and_answers() {
    assert_eq!(posts_url("urn:li:person:a b", 0), "https://api.linkedin.com/v2/rest/posts?author=urn%3Ali%3Aperson%3Aa%20b&count=1");
    assert_eq!(posts_url("x", 500), "https://api.linkedin.com/v2/rest/posts?author=x&count=100");
    let err = obj(vec![("error_description", s("bad"))]);
    assert_eq!(api_message(linkedin_status(400, &err, true, "LinkedIn API error").err().expect("error")), "bad");
    assert_eq!(api_message(linkedin_status(400, &err, false, "LinkedIn API error").err().expect("error")), "LinkedIn API error");
    let body = ugc_post_body(&obj(vec![("sub", s("me"))]), "Hi", true, None).ok().expect("body");
    assert_eq!(text_at(&body, "author"), Some("urn:li:person:me"));
    let share = body.get("specificContent").and_then(|v| v.get("com.linkedin.ugc.ShareContent")).expect("share");
    assert_eq!(text_at(share, "shareMediaCategory"), Some("IMAGE"));
    assert!(share.get("parentComment").is_none());
    let reply = ugc_post_body(&obj(vec![("sub", s("me"))]), "Hi", false, Some("c9")).ok().expect("body");
    let rshare = reply.get("specificContent").and_then(|v| v.get("com.linkedin.ugc.ShareContent")).expect("share");
    assert_eq!(text_at(rshare, "parentComment"), Some("c9"));
    assert_eq!(api_message(ugc_post_body(&obj(vec![]), "Hi", false, None).err().expect("error")), "Could not get user profile");
    let ok = ugc_publish_outcome(201, "/v2/ugcPosts/urn:li:share:7", &Json::Null).ok().expect("published");
    assert_eq!(ok.platform_post_id, "urn:li:share:7");
    assert!(matches!(ugc_publish_outcome(401, "", &Json::Null), Err(ProviderError::TokenExpired)));
    assert_eq!(api_message(reply_outcome(401, "", &Json::Null).err().expect("error")), "LinkedIn reply failed");
    assert_eq!(dm_outcome(201, "a/b/m1", &Json::Null).ok().expect("sent").status, "sent");
    let cb = comment_body("urn:p", "urn:a", "msg");
    assert_eq!(keys(&cb), vec!["actor", "message", "object"]);
}

#[test]
fn linkedin_direct_messages() {
    let conv = obj(vec![
        ("conversationId", s("cv1")),
        ("participants", arr(vec![obj(vec![("id", s("p1"))]), obj(vec![("id", s("p2"))])])),
        ("body", s("hey")),
        ("createdAt", Json::Int(1000)),
    ]);
    let c = dm_conversation(&conv);
    assert_eq!(c.participant, "p1");
    assert_eq!(c.last_message.as_deref(), Some("hey"));
    assert_eq!(c.last_message_at, Some(1000));
    let msg = dm_message(&obj(vec![("id", s("m1")), ("sender", obj(vec![("id", s("u1"))]))]), "cv1");
    assert_eq!(msg.sender, "u1");
    assert_eq!(msg.content, "");
    assert!(msg.read);
}

#[test]
fn linkedin_pages_and_statistics() {
    let e = obj(vec![
        ("organizationalTarget", s("urn:li:organization:555")),
        ("organizationalTarget~", obj(vec![("localizedName", s("Acme")), ("vanityName", s("acme"))])),
    ]);
    let p = org_page(&e, "tok");
    assert_eq!(p.id, "555");
    assert_eq!(p.name, "Acme");
    assert!(p.picture.is_none());
    let info = org_page_info(&obj(vec![("id", Json::Int(77))]), "fallback", "tok");
    assert_eq!(info.id, "77");
    assert_eq!(org_page_info(&obj(vec![]), "fallback", "tok").id, "fallback");
    assert_eq!(api_message(logo_download(None).err().expect("error")), "No logo found");
    assert_eq!(page_posts_url("9", 10), "https://api.linkedin.com/v2/rest/posts?author=urn:li:organization:9&count=10");
    assert!(page_posts_retry(&ProviderError::Api("No virtual resource found".to_string())));
    assert!(!page_posts_retry(&ProviderError::TokenExpired));
    assert_eq!(api_message(page_publish_outcome(500, "", &obj(vec![])).err().expect("error")), "LinkedIn Page publish failed");
    assert!(matches!(stats_status(429, &Json::Null, "x"), Err(ProviderError::RateLimited(_))));
    let stats = obj(vec![(
        "elements",
        arr(vec![obj(vec![("totalShareStatistics", obj(vec![("clickCount", Json::Int(5)), ("engagement", Json::Float), ("shareCount", Json::Int(2))]))])]),
    )]);
    assert_eq!(share_statistics(&stats), vec![("clickCount".to_string(), "5".to_string()), ("shareCount".to_string(), "2".to_string())]);
    let followers = obj(vec![("elements", arr(vec![obj(vec![("firstDegreeSize", Json::Int(12))])]))]);
    assert_eq!(follower_total(200, &followers).ok(), Some(Some("12".to_string())));
    assert_eq!(follower_total(500, &followers).ok(), Some(None));
}

#[test]
fn mastodon_paths_and_bodies() {
    assert_eq!(timeline_path("local", 20), "/api/v1/timelines/public?local=true?limit=20");
    assert_eq!(timeline_path("trending", 5), "/api/v1/trends/statuses?limit=5");
    assert_eq!(timeline_path("whatever", -1), "/api/v1/timelines/home?limit=-1");
    assert_eq!(search_path("a b&c", 3), "/api/v2/search?q=a%20b%26c&limit=3");
    assert_eq!(media_extension("image/png; x"), "png");
    assert_eq!(media_extension("video/quicktime"), "mp4");
    assert_eq!(media_extension("application/pdf"), "jpg");
    assert_eq!(api_message(upload_outcome(200, &obj(vec![])).err().expect("error")), "Missing media ID from response");
    assert_eq!(api_message(mastodon_status(500, &obj(vec![])).err().expect("error")), "Unknown Mastodon API error");
    let p = post("toot", vec![], obj(vec![("spoiler_text", s("cw")), ("sensitive", Json::Bool(true))]));
    let body = status_body(&p, &vec!["m1".to_string()]);
    assert_eq!(keys(&body), vec!["status", "visibility", "media_ids", "spoiler_text", "sensitive"]);
    assert_eq!(text_at(&body, "visibility"), Some("public"));
    let creds = app_credentials(200, &obj(vec![("client_id", s("id"))]), "App registration failed", true);
    assert!(matches!(creds, Err(ProviderError::Auth(m)) if m == "Missing client_secret"));
    let t = token_request_body("id", "secret", Some(("code1", "https://cb")), "");
    assert_eq!(keys(&t), vec!["client_id", "client_secret", "grant_type", "code", "redirect_uri", "scope"]);
    assert_eq!(text_at(&t, "scope"), Some("read write follow push"));
}

#[test]
fn reddit_submissions_and_answers() {
    let p = post("body", vec![media("https://x/clip.mp4")], obj(vec![("subreddit", s("/r/RustLang")), ("title", s("T")), ("flair", s("f1"))]));
    let form = submit_form(&p).ok().expect("form");
    assert_eq!(
        form,
        vec![
            ("api_type".to_string(), "json".to_string()),
            ("title".to_string(), "T".to_string()),
            ("kind".to_string(), "video".to_string()),
            ("text".to_string(), "body".to_string()),
            ("sr".to_string(), "rustlang".to_string()),
            ("url".to_string(), "https://x/clip.mp4".to_string()),
            ("flair_id".to_string(), "f1".to_string()),
        ]
    );
    let missing = post("b", vec![], obj(vec![("title", s("T"))]));
    assert!(matches!(submit_form(&missing), Err(ProviderError::InvalidRequest(m)) if m == "Missing subreddit in settings"));
    let answer = obj(vec![("json", obj(vec![("errors", arr(vec![arr(vec![s("RATELIMIT"), s("slow down")])])), ("data", obj(vec![]))]))]);
    assert_eq!(api_message(submit_result(&answer).err().expect("error")), "slow down");
    assert_eq!(api_message(comment_result(&obj(vec![])).err().expect("error")), "Unknown error");
    assert_eq!(comment_thing_id("abc"), "t3_abc");
    assert_eq!(comment_thing_id("t1_abc"), "t1_abc");
    let (path, params) = browse_request("r/r/Rust", "top", 10, "week");
    assert_eq!(path, "/r/rust/top");
    assert_eq!(params, vec![("limit".to_string(), "10".to_string()), ("t".to_string(), "week".to_string())]);
}

#[test]
fn reddit_karma_mentions_and_accounts() {
    let k = karma(&obj(vec![("data", arr(vec![obj(vec![("sr", s("rust")), ("link_karma", Json::Int(-3))])]))]));
    assert_eq!(k.len(), 1);
    assert_eq!(k[0].label, "r/rust");
    assert_eq!(k[0].points[0].total, "-3");
    assert_eq!(k[0].points[1].total, "0");
    assert_eq!(k[0].points[1].date, "comment_karma");
    let inbox = obj(vec![(
        "data",
        obj(vec![(
            "children",
            arr(vec![
                obj(vec![("data", obj(vec![("id", s("1")), ("author", s("ann")), ("subject", s("Hello World"))]))]),
                obj(vec![("data", obj(vec![("id", s("2")), ("author", s("bob")), ("subject", s("other"))]))]),
            ]),
        )]),
    )]);
    let m = inbox_mentions(&inbox, "WORLD");
    assert_eq!(m.len(), 1);
    assert_eq!(m[0].label, "u/ann: Hello World");
    assert_eq!(inbox_mentions(&inbox, "").len(), 2);
    let t = me_auth_token("tok", None, &obj(vec![("name", s("me")), ("icon_img", s("https://i/x.png?a=1"))]));
    assert_eq!(t.picture.as_deref(), Some("https://i/x.png"));
    assert_eq!(t.expires_in, Some(86400));
}

#[test]
fn lemmy_posts_and_sites() {
    let p = post("First line\r\nmore", vec![], obj(vec![]));
    let body = lemmy_post_body("key", &p);
    assert_eq!(keys(&body), vec!["name", "body", "auth", "community_name"]);
    assert_eq!(text_at(&body, "name"), Some("First line"));
    assert_eq!(text_at(&body, "community_name"), Some("main"));
    let q = post("", vec![], obj(vec![("community_id", Json::Int(7))]));
    let qb = lemmy_post_body("key", &q);
    assert_eq!(text_at(&qb, "name"), Some("Untitled"));
    assert!(qb.get("community_name").is_none());
    let ok = lemmy_publish_outcome(200, &obj(vec![("post_view", obj(vec![("post", obj(vec![("id", Json::Int(9)), ("ap_id", s("https://l/post/9"))]))]))]));
    let r = ok.ok().expect("published");
    assert_eq!(r.platform_post_id, "9");
    assert_eq!(api_message(lemmy_publish_outcome(400, &obj(vec![("message", s("nope"))])).err().expect("error")), "nope");
    assert!(matches!(lemmy_credentials(Some(&obj(vec![("api_key", s(""))]))), Err(ProviderError::Auth(m)) if m == "api_key must not be empty."));
    let (k, i) = lemmy_credentials(Some(&obj(vec![("api_key", s("k"))]))).ok().expect("creds");
    assert_eq!((k.as_str(), i.as_str()), ("k", "https://lemmy.world"));
    let site = obj(vec![("site_view", obj(vec![("site", obj(vec![("actor_id", s("https://lemmy.ml/"))]))]))]);
    let page = lemmy_site_page(&site, "tok");
    assert_eq!(page.name, "Lemmy");
    assert_eq!(page.username.as_deref(), Some("lemmy.ml/"));
}

#[test]
fn pinterest_pins_and_boards() {
    let single = post("desc", vec![media("https://i/a.jpg")], obj(vec![("board", s("b1")), ("title", s("T"))]));
    match pin_plan(&single).ok().expect("plan") {
        PinPlan::Pin(b) => {
            assert_eq!(keys(&b), vec!["board_id", "description", "media_source", "title"]);
            assert_eq!(b.get("media_source").and_then(|m| m.get("source_type")).and_then(|v| v.as_str()), Some("image_url"));
        }
        PinPlan::Video => panic!("expected an image pin"),
    }
    let video = post("d", vec![media("https://v/x.mp4")], obj(vec![("board", s("b1"))]));
    assert!(matches!(pin_plan(&video), Ok(PinPlan::Video)));
    assert!(matches!(pin_plan(&post("d", vec![], obj(vec![]))), Err(ProviderError::InvalidRequest(_))));
    let r = pin_outcome(&obj(vec![("id", s("99"))])).ok().expect("pin");
    assert_eq!(r.platform_post_url.as_deref(), Some("https://www.pinterest.com/pin/99"));
    assert_eq!(api_message(pin_outcome(&obj(vec![])).err().expect("error")), "Pinterest publish failed");
    let b = boards(&obj(vec![("items", arr(vec![obj(vec![("id", s("1")), ("name", s("Ideas"))])]))]));
    assert_eq!(b[0].name, "Ideas");
    assert_eq!(boards_to_scan(3), 1);
    assert_eq!(boards_to_scan(25), 5);
    assert_eq!(boards_to_scan(1000), 10);
}

#[test]
fn discord_channels_and_messages() {
    let list = arr(vec![
        obj(vec![("id", s("1")), ("name", s("general")), ("type", Json::Int(0))]),
        obj(vec![("id", s("2")), ("name", s("voice")), ("type", Json::Int(2))]),
        obj(vec![("id", s("3")), ("name", s("forum")), ("type", Json::Int(15))]),
    ]);
    let cs = channels(&list);
    assert_eq!(cs.iter().map(|c| c.id.as_str()).collect::<Vec<_>>(), vec!["1", "3"]);
    let p = post("hi", vec![media("https://i/a.png")], obj(vec![("channel", s("c1"))]));
    let (ch, payload) = message_payload(&p).ok().expect("payload");
    assert_eq!(ch, "c1");
    assert_eq!(keys(&payload), vec!["content", "embeds"]);
    let out = message_outcome("g", "c1", &obj(vec![("id", s("m"))]));
    assert_eq!(out.platform_post_url.as_deref(), Some("https://discord.com/channels/g/c1/m"));
}

#[test]
fn nostr_keys_are_checked_and_shortened() {
    let key = "npub1abcdefghijklmnop";
    let creds = obj(vec![("address", s(key))]);
    let t = nostr_auth_token("{...}", Some(&creds)).ok().expect("token");
    assert_eq!(t.name, "Nostr (npub1abc...mnop)");
    let bad = obj(vec![("address", s("nsec1xyz"))]);
    assert!(matches!(nostr_auth_token("x", Some(&bad)), Err(ProviderError::Auth(m)) if m == "Invalid Nostr public key format. Expected npub1..."));
    assert!(matches!(nostr_auth_token("", None), Err(ProviderError::Auth(_))));
    assert_eq!(nostr_page("npub1short").name, "Nostr (npub1short)");
    let r = nostr_placeholder(1);
    assert_eq!(r.platform_post_id, "nostr_00000000-0000-0000-0000-000000000001");
    assert_eq!(r.status, "pending_implementation");
}

#[test]
fn google_calendar_and_drive_requests() {
    let p = calendar_list_params(0, Some("2024-01-01T00:00:00Z"), None);
    assert_eq!(p[0], ("maxResults".to_string(), "1".to_string()));
    assert_eq!(p.len(), 4);
    let e = event_body("Meet", "s", "e", None);
    assert_eq!(keys(&e), vec!["summary", "start", "end"]);
    assert_eq!(e.get("start").and_then(|v| v.get("timeZone")).and_then(|v| v.as_str()), Some("UTC"));
    assert!(delete_event_outcome(404, &Json::Null).is_ok());
    assert_eq!(api_message(delete_event_outcome(500, &Json::Null).err().expect("error")), "Unknown error");
    let d = drive_list_params(5000, None);
    assert_eq!(d[0].1, "1000");
    assert_eq!(d[2].1, "trashed = false");
    let x = export_body("f", "text/plain", b"hi!");
    assert_eq!(text_at(&x, "content_base64"), Some("aGkh"));
    assert!(matches!(x.get("size_bytes"), Some(Json::Int(3))));
}

#[test]
fn github_listings_and_repositories() {
    let p = sorted_listing_params(0, Some("open"));
    assert_eq!(p[0], ("state".to_string(), "open".to_string()));
    assert_eq!(p[1], ("per_page".to_string(), "1".to_string()));
    assert_eq!(page_params(250, Some("q1")), vec![("q".to_string(), "q1".to_string()), ("per_page".to_string(), "100".to_string())]);
    assert_eq!(repo_path("12345"), "/repositories/12345");
    assert_eq!(repo_path("+7"), "/repositories/+7");
    assert_eq!(repo_path("18446744073709551616"), "/repos/18446744073709551616");
    assert_eq!(repo_path("octo/repo"), "/repos/octo/repo");
    assert_eq!(repo_path(""), "/repos/");
    assert_eq!(content_path("o", "r", "//docs/a.md"), "/repos/o/r/contents/docs/a.md");
    assert_eq!(keys(&issue_body("t", "b")), vec!["title", "body"]);
    let list = arr(vec![obj(vec![("id", Json::Int(5)), ("full_name", s("o/r")), ("owner", obj(vec![("login", s("o"))]))])]);
    let pages = repositories(200, &list, "tok").ok().expect("pages");
    assert_eq!(pages[0].id, "5");
    assert_eq!(pages[0].username.as_deref(), Some("o"));
    assert_eq!(api_message(repositories(500, &obj(vec![]), "tok").err().expect("error")), "Failed to fetch repositories");
}
