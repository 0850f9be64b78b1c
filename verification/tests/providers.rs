use social_forge::json::Json;
use social_forge::providers::{
    ensure_https_redirect_uri, mastodon_api_url, trim_end_slashes_exec, ProviderKind,
};
use social_forge::social::{EditorType, ProviderError};

#[test]
fn facebook_test_scopes_contain_required() {
    let scopes = ProviderKind::Facebook.scopes();
    assert!(scopes.contains(&"pages_show_list".to_string()));
    assert!(scopes.contains(&"pages_manage_posts".to_string()));
    assert!(scopes.contains(&"public_profile".to_string()));
}

#[test]
fn facebook_test_identifier_and_name() {
    assert_eq!(ProviderKind::Facebook.identifier(), "facebook");
    assert_eq!(ProviderKind::Facebook.name(), "Facebook");
}

#[test]
fn facebook_test_max_content_length() {
    assert_eq!(ProviderKind::Facebook.max_content_length(), 63206);
}

#[test]
fn facebook_test_generate_auth_url_contains_params() {
    let result = ProviderKind::Facebook.generate_auth_url(
        "test",
        "test_state",
        "test_verifier",
        "http://localhost:3000/callback",
        "",
    );
    let url = match result {
        Ok(r) => r.url,
        Err(_) => panic!("auth url"),
    };
    assert!(url.contains("client_id=test"), "should contain client_id");
    assert!(url.contains("redirect_uri="), "should contain redirect_uri");
    assert!(url.contains("state=test_state"), "should contain state");
    assert!(url.contains("scope="), "should contain scope");
    assert!(url.contains("response_type=code"), "should contain response_type");
    assert!(url.starts_with("https://www.facebook.com/v21.0/dialog/oauth"));
}

#[test]
fn linkedin_test_scopes_contain_required() {
    let scopes = ProviderKind::Linkedin.scopes();
    assert!(scopes.contains(&"openid".to_string()));
    assert!(scopes.contains(&"w_member_social".to_string()));
    assert!(scopes.contains(&"profile".to_string()));
}

#[test]
fn linkedin_test_identifier_and_name() {
    assert_eq!(ProviderKind::Linkedin.identifier(), "linkedin");
    assert_eq!(ProviderKind::Linkedin.name(), "LinkedIn");
}

#[test]
fn linkedin_test_max_content_length() {
    assert_eq!(ProviderKind::Linkedin.max_content_length(), 3000);
}

#[test]
fn linkedin_test_generate_auth_url_contains_params() {
    let result = ProviderKind::Linkedin.generate_auth_url(
        "test_linkedin_id",
        "test_state",
        "test_verifier",
        "http://localhost:3000/callback",
        "",
    );
    let url = match result {
        Ok(r) => r.url,
        Err(_) => panic!("auth url"),
    };
    assert!(url.contains("response_type=code"), "should contain response_type=code");
    assert!(url.contains("client_id=test_linkedin_id"), "should contain client_id");
    assert!(url.contains("redirect_uri="), "should contain redirect_uri");
    assert!(url.contains("state=test_state"), "should contain state");
    assert!(url.contains("scope="), "should contain scope");
    assert!(url.starts_with("https://www.linkedin.com/oauth/v2/authorization"));
}

#[test]
fn auth_url_percent_encodes_the_redirect_uri() {
    let url = match ProviderKind::Facebook.generate_auth_url("id", "st", "v", "http://localhost:3000/callback", "") {
        Ok(r) => r.url,
        Err(_) => panic!("auth url"),
    };
    assert!(url.contains("redirect_uri=http%3A%2F%2Flocalhost%3A3000%2Fcallback"));
}

#[test]
fn providers_without_oauth_explain_themselves() {
    match ProviderKind::Devto.generate_auth_url("a", "b", "c", "d", "") {
        Err(ProviderError::Auth(m)) => {
            assert_eq!(m, "Dev.to uses an API key instead of OAuth. Set DEVTO_API_KEY in your .env file.")
        }
        _ => panic!("expected an auth error"),
    }
}

#[test]
fn mastodon_auth_url_uses_the_instance() {
    let url = match ProviderKind::Mastodon.generate_auth_url("cid", "st", "v", "https://app/cb", "mastodon.example/") {
        Ok(r) => r.url,
        Err(_) => panic!("auth url"),
    };
    assert!(url.starts_with("https://mastodon.example/oauth/authorize?"));
    assert!(url.contains("client_id=cid"));
}

#[test]
fn instagram_standalone_redirect_goes_through_https() {
    assert_eq!(
        ensure_https_redirect_uri("http://localhost/cb"),
        "https://redirectmeto.com/http://localhost/cb"
    );
    assert_eq!(ensure_https_redirect_uri("https://x/cb"), "https://x/cb");
}

#[test]
fn mastodon_api_urls() {
    assert_eq!(mastodon_api_url("mastodon.social", "/api/v1/apps"), "https://mastodon.social/api/v1/apps");
    assert_eq!(mastodon_api_url("http://local//", "/x"), "http://local/x");
    assert_eq!(trim_end_slashes_exec("a///"), "a");
}

#[test]
fn identifiers_round_trip() {
    for id in ["bluesky", "facebook", "instagram-standalone", "linkedin-page", "google_my_business", "reddit"] {
        let kind = ProviderKind::from_identifier(id).expect("known provider");
        assert_eq!(kind.identifier(), id);
    }
    assert!(ProviderKind::from_identifier("myspace").is_none());
}

#[test]
fn editor_types() {
    assert!(ProviderKind::Devto.editor_type() == EditorType::Markdown);
    assert!(ProviderKind::Facebook.editor_type() == EditorType::Normal);
}

#[test]
fn map_error_by_status_and_body() {
    assert_eq!(
        ProviderKind::Github.map_error("API rate limit exceeded", 403, None),
        Some("GitHub API rate limit exceeded. Try again later.".to_string())
    );
    assert_eq!(
        ProviderKind::Github.map_error("nope", 403, None),
        Some("GitHub token lacks permission for this operation.".to_string())
    );
    assert_eq!(
        ProviderKind::Discord.map_error("{\"code\": 50013}", 403, None),
        Some("Bot lacks permission to send messages".to_string())
    );
    assert_eq!(ProviderKind::Kick.map_error("", 500, None), None);
    assert_eq!(ProviderKind::Facebook.map_error("", 401, None), None);
}

#[test]
fn mastodon_map_error_reads_the_json_error() {
    let body = Json::Object(vec![("error".to_string(), Json::Str("Record not found".to_string()))]);
    assert_eq!(
        ProviderKind::Mastodon.map_error("{\"error\":\"Record not found\"}", 404, Some(&body)),
        Some("Record not found".to_string())
    );
    assert_eq!(ProviderKind::Mastodon.map_error("oops", 500, None), None);
}
