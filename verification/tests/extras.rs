use social_forge::google::{
    basic_auth_header, calendar_page, gmail_max_results, gmail_page, gmail_raw_message,
    google_status, google_user_page,
};
use social_forge::automation::{ai_request_body, direct_reply, AutomationRule, TriggerContext};
use social_forge::integrations::IntegrationService;
use social_forge::json::Json;
use social_forge::meta::{api_status, container_status, instagram_status};
use social_forge::providers::ProviderKind;
use social_forge::social::ProviderError;

fn s(x: &str) -> Json {
    Json::Str(x.to_string())
}

fn obj(entries: Vec<(&str, Json)>) -> Json {
    Json::Object(entries.into_iter().map(|(k, v)| (k.to_string(), v)).collect())
}

#[test]
fn connecting_an_oauth_provider() {
    let id: u128 = 0x67e5504410b1426f9247bb680e5fe0c8;
    let (result, stored) = IntegrationService::initiate_connect(ProviderKind::Linkedin, id, "cid", "https://app", "")
        .ok()
        .expect("auth url");
    assert_eq!(result.state.len(), 64);
    assert_eq!(result.code_verifier.len(), 128);
    assert!(result.auth_url.starts_with("https://www.linkedin.com/oauth/v2/authorization?"));
    assert!(result.auth_url.contains(&format!("state={}", result.state)));
    assert!(result.auth_url.contains("redirect_uri=https%3A%2F%2Fapp%2Fapi%2Fauth%2Fcallback"));
    assert_eq!(stored, "67e55044-10b1-426f-9247-bb680e5fe0c8:https://app/api/auth/callback");
    let (user, uri) = IntegrationService::parse_stored_state(Some(&stored)).ok().expect("parsed");
    assert_eq!(user, id);
    assert_eq!(uri, "https://app/api/auth/callback");
}

#[test]
fn connecting_a_provider_without_oauth() {
    let err = IntegrationService::initiate_connect(ProviderKind::Github, 1, "cid", "https://app", "").err();
    assert_eq!(
        err,
        Some("Failed to generate auth URL: Auth error: GitHub uses Personal Access Tokens (PAT) instead of OAuth. Set GITHUB_TOKEN in your .env file.".to_string())
    );
}

fn rule(kind: &str) -> AutomationRule {
    AutomationRule {
        id: 1,
        integration_id: 2,
        name: "r".to_string(),
        trigger_type: "comment".to_string(),
        trigger_filter: Json::Null,
        response_template: "Hi {author} from {platform}".to_string(),
        response_type: kind.to_string(),
        ai_model: Some("local".to_string()),
        cooldown_minutes: None,
        max_responses_per_hour: None,
    }
}

#[test]
fn direct_replies() {
    let ctx = TriggerContext {
        trigger_id: "t".to_string(),
        trigger_type: "comment".to_string(),
        platform: "Mastodon".to_string(),
        author_name: Some("Bo".to_string()),
        content: "c".to_string(),
        post_id: None,
    };
    assert_eq!(direct_reply(&rule("template"), &ctx), Some("Hi Bo from Mastodon".to_string()));
    assert_eq!(direct_reply(&rule("fixed"), &ctx), Some("Hi {author} from {platform}".to_string()));
    assert_eq!(direct_reply(&rule("other"), &ctx), Some("Hi {author} from {platform}".to_string()));
    assert_eq!(direct_reply(&rule("ai_generated"), &ctx), None);
    match ai_request_body("gpt-4o-mini".to_string(), "prompt".to_string()) {
        Json::Object(f) => {
            assert_eq!(f[0].0, "model");
            assert!(matches!(&f[2].1, Json::Int(200)));
            assert!(matches!(&f[1].1, Json::Array(m) if m.len() == 1));
        }
        _ => panic!("object"),
    }
}

#[test]
fn api_statuses() {
    assert!(matches!(instagram_status(429, &Json::Null), Err(ProviderError::RateLimited(m)) if m == "Instagram API rate limit"));
    assert!(matches!(instagram_status(500, &Json::Null), Err(ProviderError::Api(m)) if m == "Instagram API error"));
    assert!(matches!(
        api_status(400, &obj(vec![("error", obj(vec![("message", s("bad"))]))]), "r", "e"),
        Err(ProviderError::Api(m)) if m == "bad"
    ));
    assert!(api_status(201, &Json::Null, "r", "e").is_ok());
    assert_eq!(container_status(&obj(vec![("status_code", s("FINISHED"))])).ok(), Some("FINISHED".to_string()));
    assert_eq!(container_status(&Json::Null).ok(), Some("IN_PROGRESS".to_string()));
    assert!(matches!(
        container_status(&obj(vec![("error", obj(vec![]))])),
        Err(ProviderError::Api(m)) if m == "Container status check failed"
    ));
}

#[test]
fn google_helpers() {
    assert!(google_status(204, &Json::Null).is_ok());
    assert!(matches!(google_status(401, &Json::Null), Err(ProviderError::TokenExpired)));
    assert!(matches!(google_status(403, &Json::Null), Err(ProviderError::Api(m)) if m == "Unknown error"));
    let cal = calendar_page(&obj(vec![("summary", s("Team"))]), "tok");
    assert_eq!(cal.id, "primary");
    assert_eq!(cal.name, "Team");
    assert!(cal.username.is_none());
    let user = google_user_page(&obj(vec![("id", s("9")), ("email", s("a@b.c"))]), "tok", "Google Drive");
    assert_eq!(user.name, "Google Drive");
    assert_eq!(user.username, Some("a@b.c".to_string()));
    let mail = gmail_page(&Json::Null, "tok");
    assert_eq!(mail.name, "Gmail");
    assert_eq!(mail.id, "");
    assert_eq!(gmail_max_results(0), "1");
    assert_eq!(gmail_max_results(50), "50");
    assert_eq!(gmail_max_results(9000), "500");
    assert_eq!(
        gmail_raw_message("a@b.c", "Hi", "Hello"),
        "RnJvbTogbWUNClRvOiBhQGIuYw0KU3ViamVjdDogSGkNCkNvbnRlbnQtVHlwZTogdGV4dC9wbGFpbjsgY2hhcnNldD1VVEYtOA0KDQpIZWxsbw=="
    );
    assert_eq!(basic_auth_header("client", "secret"), "Basic Y2xpZW50OnNlY3JldA==");
}
