use social_forge::json::Json;
use social_forge::meta::{
    business_ids, business_listing_paths, extract_media_list, extract_single_media, feed_post,
    graph_url, ig_account_from_lookup, ig_account_page, listing_url, page_profile, page_token,
    plan_attachment, sort_pages_by_name, video_fetch_outcome, AttachmentStep, PageCollector,
};
use social_forge::providers::ProviderKind;
use social_forge::social::{MediaAttachment, PageInfo};

fn s(x: &str) -> Json {
    Json::Str(x.to_string())
}

fn obj(entries: Vec<(&str, Json)>) -> Json {
    Json::Object(entries.into_iter().map(|(k, v)| (k.to_string(), v)).collect())
}

fn media(url: &str) -> MediaAttachment {
    MediaAttachment {
        url: url.to_string(),
        mime_type: "image/png".to_string(),
        alt: Some("alt".to_string()),
        poster_url: None,
    }
}

#[test]
fn facebook_prefixes_local_media_with_the_app_url() {
    let a = media("/api/media/abc.png");
    let r = ProviderKind::Facebook.resolve_media_url(&a, "https://app.example.com//");
    assert_eq!(r.url, "https://app.example.com/api/media/abc.png");
    assert_eq!(r.mime_type, "image/png");
    assert_eq!(r.alt, Some("alt".to_string()));
    let b = media("/media/x.jpg");
    assert_eq!(ProviderKind::Facebook.resolve_media_url(&b, "https://a").url, "https://a/media/x.jpg");
}

#[test]
fn public_urls_and_other_providers_keep_the_url() {
    let a = media("https://cdn.example.com/x.png");
    assert_eq!(ProviderKind::Facebook.resolve_media_url(&a, "https://app").url, "https://cdn.example.com/x.png");
    let b = media("/api/media/abc.png");
    assert_eq!(ProviderKind::Linkedin.resolve_media_url(&b, "https://app").url, "/api/media/abc.png");
}

#[test]
fn single_media_prefers_the_source() {
    let a = obj(vec![
        ("type", s("photo")),
        ("media", obj(vec![("source", s("https://x/v.mp4")), ("image", obj(vec![("src", s("https://x/t.jpg"))]))])),
    ]);
    let m = extract_single_media(&a).expect("media");
    assert_eq!(m.url, "https://x/v.mp4");
    assert_eq!(m.mime_type, "video/mp4");
    let gif = obj(vec![("media", obj(vec![("source", s("https://x/a.gif"))]))]);
    assert_eq!(extract_single_media(&gif).expect("gif").mime_type, "image/gif");
    let video_type = obj(vec![("type", s("video_inline")), ("media", obj(vec![("source", s("https://x/a"))]))]);
    assert_eq!(extract_single_media(&video_type).expect("video").mime_type, "video/mp4");
}

#[test]
fn single_media_falls_back_to_thumbnail_then_url() {
    let thumb = obj(vec![("media", obj(vec![("image", obj(vec![("src", s("https://x/t.jpg"))]))]))]);
    let m = extract_single_media(&thumb).expect("thumbnail");
    assert_eq!(m.url, "https://x/t.jpg");
    assert_eq!(m.mime_type, "image/jpeg");
    let link = obj(vec![("url", s("https://x/clip.mov"))]);
    assert_eq!(extract_single_media(&link).expect("url").mime_type, "video/mp4");
    assert!(extract_single_media(&obj(vec![("type", s("share"))])).is_none());
}

#[test]
fn albums_give_their_children_and_videos_need_a_fetch() {
    let album = obj(vec![
        ("type", s("album")),
        (
            "subattachments",
            obj(vec![(
                "data",
                Json::Array(vec![
                    obj(vec![("media", obj(vec![("image", obj(vec![("src", s("https://x/1.jpg"))]))]))]),
                    obj(vec![("type", s("photo"))]),
                    obj(vec![("url", s("https://x/2.png"))]),
                ]),
            )]),
        ),
    ]);
    match plan_attachment(&album) {
        AttachmentStep::Media(v) => {
            assert_eq!(v.len(), 2);
            assert_eq!(v[0].url, "https://x/1.jpg");
            assert_eq!(v[1].url, "https://x/2.png");
        }
        AttachmentStep::FetchVideo(_) => panic!("album"),
    }
    let video = obj(vec![("type", s("video_autoplay")), ("target", obj(vec![("id", s("987"))]))]);
    match plan_attachment(&video) {
        AttachmentStep::FetchVideo(id) => assert_eq!(id, "987"),
        AttachmentStep::Media(_) => panic!("video"),
    }
    let fetched = video_fetch_outcome(&video, Some("https://v/987.mp4".to_string())).expect("video");
    assert_eq!(fetched.url, "https://v/987.mp4");
    assert_eq!(fetched.mime_type, "video/mp4");
    assert!(video_fetch_outcome(&video, None).is_none());
}

#[test]
fn media_lists_keep_order() {
    let items = vec![obj(vec![("url", s("a.jpg"))]), Json::Null, obj(vec![("url", s("b.mp4"))])];
    let v = extract_media_list(&items);
    assert_eq!(v.len(), 2);
    assert_eq!(v[1].mime_type, "video/mp4");
}

#[test]
fn feed_posts_use_the_story_when_there_is_no_message() {
    let item = obj(vec![("id", s("1_2")), ("story", s("X shared a link")), ("permalink_url", s("https://fb/1_2"))]);
    let p = feed_post(&item);
    assert_eq!(p.platform_post_id, "1_2");
    assert_eq!(p.text, "X shared a link");
    assert_eq!(p.url, Some("https://fb/1_2".to_string()));
    assert!(p.created_time.is_none());
    let with_message = obj(vec![("message", s("hello")), ("story", s("ignored"))]);
    assert_eq!(feed_post(&with_message).text, "hello");
    assert_eq!(feed_post(&with_message).platform_post_id, "");
}

fn page(id: &str, name: &str) -> Json {
    obj(vec![("id", s(id)), ("name", s(name)), ("access_token", s(&format!("tok-{id}")))])
}

#[test]
fn collector_keeps_the_first_listing_of_each_page() {
    let mut c = PageCollector::new();
    let first = obj(vec![
        ("data", Json::Array(vec![page("1", "Zeta"), page("2", "Alpha"), obj(vec![("name", s("no id"))])])),
        ("paging", obj(vec![("next", s("https://graph/next"))])),
    ]);
    assert_eq!(c.absorb(&first), Some("https://graph/next".to_string()));
    let second = obj(vec![("data", Json::Array(vec![page("2", "Alpha again"), page("3", "Mid")]))]);
    assert_eq!(c.absorb(&second), None);
    assert_eq!(c.pages.len(), 3);
    assert_eq!(c.pages[1].info.name, "Alpha");
    let error = obj(vec![("error", obj(vec![("message", s("denied"))])), ("data", Json::Array(vec![page("9", "X")]))]);
    assert_eq!(c.absorb(&error), None);
    assert_eq!(c.pages.len(), 3);
    let sorted = c.into_sorted_pages();
    let names: Vec<&str> = sorted.iter().map(|p| p.name.as_str()).collect();
    assert_eq!(names, vec!["Alpha", "Mid", "Zeta"]);
    assert_eq!(sorted[0].access_token, Some("tok-2".to_string()));
}

#[test]
fn sorting_orders_by_code_point() {
    let mk = |n: &str| PageInfo { id: n.to_string(), name: n.to_string(), access_token: None, picture: None, username: None };
    let sorted = sort_pages_by_name(vec![mk("b"), mk("B"), mk("ab"), mk("a"), mk("é"), mk("")]);
    let names: Vec<&str> = sorted.iter().map(|p| p.name.as_str()).collect();
    assert_eq!(names, vec!["", "B", "a", "ab", "b", "é"]);
}

#[test]
fn page_profiles_read_the_picture_url() {
    let p = obj(vec![
        ("id", s("42")),
        ("name", s("Shop")),
        ("username", s("shop")),
        ("picture", obj(vec![("data", obj(vec![("url", s("https://pic"))]))])),
    ]);
    let info = page_profile(&p);
    assert_eq!(info.id, "42");
    assert_eq!(info.picture, Some("https://pic".to_string()));
    assert_eq!(info.username, Some("shop".to_string()));
    assert!(info.access_token.is_none());
    let empty = page_profile(&Json::Null);
    assert_eq!(empty.id, "");
    assert_eq!(empty.name, "");
}

#[test]
fn businesses_with_ids() {
    let r = obj(vec![("data", Json::Array(vec![obj(vec![("id", s("b1"))]), obj(vec![("id", s(""))]), obj(vec![("id", s("b2"))])]))]);
    assert_eq!(business_ids(&r), vec!["b1".to_string(), "b2".to_string()]);
    let err = obj(vec![("error", obj(vec![("message", s("no"))])), ("data", Json::Array(vec![obj(vec![("id", s("b1"))])]))]);
    assert!(business_ids(&err).is_empty());
    let null_error = obj(vec![("error", Json::Null), ("data", Json::Array(vec![obj(vec![("id", s("b3"))])]))]);
    assert_eq!(business_ids(&null_error), vec!["b3".to_string()]);
}

#[test]
fn listing_urls() {
    assert_eq!(
        listing_url(false, "me/accounts"),
        "https://graph.facebook.com/v21.0/me/accounts?fields=id,access_token,username,name,picture.type(large)&limit=100"
    );
    assert_eq!(
        listing_url(true, "b1/owned_pages"),
        "https://graph.facebook.com/v21.0/b1/owned_pages?fields=id,instagram_business_account,access_token,username,name,picture.type(large)&limit=100"
    );
    assert_eq!(business_listing_paths("b1"), vec!["b1/owned_pages".to_string(), "b1/client_pages".to_string()]);
    assert_eq!(graph_url("me/businesses"), "https://graph.facebook.com/v21.0/me/businesses");
}

#[test]
fn instagram_accounts_of_pages() {
    let mut c = PageCollector::new();
    let listing = obj(vec![(
        "data",
        Json::Array(vec![
            obj(vec![("id", s("p1")), ("instagram_business_account", obj(vec![("id", s("ig1"))]))]),
            page("p2", "Second"),
        ]),
    )]);
    c.absorb(&listing);
    assert_eq!(c.pages[0].ig_account_id, Some("ig1".to_string()));
    assert_eq!(page_token(&c.pages[0], "user-token"), "user-token");
    assert_eq!(page_token(&c.pages[1], "user-token"), "tok-p2");
    assert_eq!(ig_account_from_lookup(&obj(vec![("id", s("ig2"))])), Some("ig2".to_string()));
    assert_eq!(ig_account_from_lookup(&obj(vec![("error", obj(vec![])), ("id", s("ig2"))])), None);
    let details = obj(vec![("name", s("Brand")), ("profile_picture_url", s("https://p"))]);
    let info = ig_account_page("ig2", "tok", &details).expect("account");
    assert_eq!(info.id, "ig2");
    assert_eq!(info.name, "Brand");
    assert_eq!(info.access_token, Some("tok".to_string()));
    assert_eq!(info.picture, Some("https://p".to_string()));
    assert!(info.username.is_none());
    assert!(ig_account_page("ig2", "tok", &obj(vec![("error", obj(vec![]))])).is_none());
}
