use social_forge::articles::{
    article_title, devto_body, devto_outcome, devto_published, hashnode_body, hashnode_outcome,
    hashnode_publication_id, medium_author_id, medium_body, medium_outcome, medium_publish_status,
    string_tags,
};
use social_forge::json::Json;
use social_forge::social::ProviderError;

fn s(x: &str) -> Json {
    Json::Str(x.to_string())
}

fn obj(entries: Vec<(&str, Json)>) -> Json {
    Json::Object(entries.into_iter().map(|(k, v)| (k.to_string(), v)).collect())
}

fn api_message(r: Result<social_forge::social::PublishResult, ProviderError>) -> String {
    match r {
        Err(ProviderError::Api(m)) => m,
        _ => panic!("expected an API error"),
    }
}

#[test]
fn title_comes_from_the_setting() {
    let settings = obj(vec![("title", s("My Title"))]);
    assert_eq!(article_title(&settings, "# Heading\nbody"), "My Title");
}

#[test]
fn title_comes_from_the_first_line() {
    let none = Json::Null;
    assert_eq!(article_title(&none, "# Hello World\nbody text"), "Hello World");
    assert_eq!(article_title(&none, "## Second level\n"), "Second level");
    assert_eq!(article_title(&none, "# # Twice\r\nrest"), "Twice");
    assert_eq!(article_title(&none, "  plain line  "), "plain line");
    assert_eq!(article_title(&none, ""), "Untitled");
    assert_eq!(article_title(&none, "\nsecond"), "");
    assert_eq!(article_title(&none, "#tag\n"), "tag");
}

#[test]
fn tags_are_the_strings_of_the_setting() {
    let settings = obj(vec![(
        "tags",
        Json::Array(vec![s("rust"), Json::Int(3), s("web"), s("api"), s("cli"), s("extra")]),
    )]);
    assert_eq!(string_tags(&settings, Some(4)), vec!["rust", "web", "api", "cli"]);
    assert_eq!(string_tags(&settings, None).len(), 5);
    assert!(string_tags(&Json::Null, Some(4)).is_empty());
    assert!(string_tags(&obj(vec![("tags", s("rust"))]), None).is_empty());
}

#[test]
fn devto_settings_and_body() {
    assert!(devto_published(&obj(vec![("published", Json::Bool(true))])));
    assert!(!devto_published(&obj(vec![("published", s("true"))])));
    assert!(!devto_published(&Json::Null));
    let body = devto_body("T".to_string(), "content", vec!["a".to_string()], true);
    match body {
        Json::Object(outer) => {
            assert_eq!(outer[0].0, "article");
            match &outer[0].1 {
                Json::Object(f) => {
                    assert_eq!(f.len(), 4);
                    assert_eq!(f[2].0, "tags");
                    assert!(matches!(&f[3].1, Json::Bool(true)));
                }
                _ => panic!("article"),
            }
        }
        _ => panic!("object"),
    }
}

#[test]
fn devto_outcomes() {
    let ok = devto_outcome(201, &obj(vec![("id", Json::Int(1234)), ("url", s("https://dev.to/x"))]), false)
        .ok()
        .expect("published");
    assert_eq!(ok.platform_post_id, "1234");
    assert_eq!(ok.platform_post_url, Some("https://dev.to/x".to_string()));
    assert_eq!(ok.status, "draft");
    let no_id = devto_outcome(200, &obj(vec![("id", s("x"))]), true).ok().expect("published");
    assert_eq!(no_id.platform_post_id, "");
    assert_eq!(no_id.status, "published");
    assert_eq!(api_message(devto_outcome(422, &obj(vec![("message", s("bad"))]), true)), "bad");
    assert_eq!(api_message(devto_outcome(422, &obj(vec![("error", s("taken")), ("message", s("bad"))]), true)), "taken");
    assert_eq!(api_message(devto_outcome(400, &Json::Null, true)), "Dev.to publish failed");
    assert_eq!(api_message(devto_outcome(500, &obj(vec![("message", s("m"))]), true)), "Dev.to API error");
}

#[test]
fn hashnode_flow() {
    assert!(matches!(hashnode_publication_id(&Json::Null), Err(ProviderError::Api(m)) if m == "Missing publication_id in settings"));
    assert_eq!(hashnode_publication_id(&obj(vec![("publication_id", s("p1"))])).ok(), Some("p1".to_string()));
    let ok = hashnode_outcome(200, &obj(vec![("post", obj(vec![("id", s("7")), ("slug", s("my-post"))]))]))
        .ok()
        .expect("published");
    assert_eq!(ok.platform_post_id, "7");
    assert_eq!(ok.platform_post_url, Some("my-post".to_string()));
    assert_eq!(ok.status, "published");
    assert_eq!(api_message(hashnode_outcome(403, &obj(vec![("error", s("nope"))]))), "nope");
    assert_eq!(api_message(hashnode_outcome(404, &Json::Null)), "Hashnode publish failed");
    assert_eq!(api_message(hashnode_outcome(502, &obj(vec![("message", s("x"))]))), "Hashnode API error");
    match hashnode_body("T".to_string(), "c", vec![s("t1")]) {
        Json::Object(f) => {
            assert_eq!(f[1].0, "contentMarkdown");
            assert!(matches!(&f[3].1, Json::Bool(false)));
        }
        _ => panic!("object"),
    }
}

#[test]
fn medium_flow() {
    assert_eq!(medium_publish_status(&Json::Null), "draft");
    assert_eq!(medium_publish_status(&obj(vec![("publish_status", s("public"))])), "public");
    let ok = medium_outcome(201, &obj(vec![("data", obj(vec![("id", s("m1")), ("url", s("https://medium/m1"))]))]), "public".to_string())
        .ok()
        .expect("published");
    assert_eq!(ok.platform_post_id, "m1");
    assert_eq!(ok.status, "public");
    let errors = obj(vec![("errors", Json::Array(vec![obj(vec![("message", s("Token was invalid."))])]))]);
    assert_eq!(api_message(medium_outcome(401, &errors, "draft".to_string())), "Token was invalid.");
    assert_eq!(api_message(medium_outcome(400, &Json::Null, "draft".to_string())), "Medium publish failed");
    assert_eq!(api_message(medium_outcome(503, &Json::Null, "draft".to_string())), "Medium API error");
    assert_eq!(medium_author_id(200, &obj(vec![("data", obj(vec![("id", s("a1"))]))])).ok(), Some("a1".to_string()));
    assert!(matches!(medium_author_id(200, &Json::Null), Err(ProviderError::Api(m)) if m == "Missing user ID in Medium response"));
    assert!(matches!(medium_author_id(401, &errors), Err(ProviderError::Auth(m)) if m == "Token was invalid."));
    assert!(matches!(medium_author_id(500, &Json::Null), Err(ProviderError::Api(m)) if m == "Medium API error"));
    match medium_body("T".to_string(), "c", vec![], "draft".to_string()) {
        Json::Object(f) => {
            assert_eq!(f.len(), 5);
            assert_eq!(f[1].0, "contentFormat");
        }
        _ => panic!("object"),
    }
}
