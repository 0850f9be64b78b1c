use social_forge::browser::chrome_default_profile;
use social_forge::business_profile::{
    check_unauthorized, gmb_account_name, gmb_local_posts_url, gmb_location_name,
    gmb_locations_url, gmb_post_body, gmb_post_outcome,
};
use social_forge::fediverse::{parse_creds, urlencoding};
use social_forge::integrations::IntegrationService;
use social_forge::json::Json;
use social_forge::linkedin::find_first_url;
use social_forge::notifications::NotificationService;
use social_forge::social::ProviderError;

fn s(x: &str) -> Json {
    Json::Str(x.to_string())
}

fn obj(entries: Vec<(&str, Json)>) -> Json {
    Json::Object(entries.into_iter().map(|(k, v)| (k.to_string(), v)).collect())
}

#[test]
fn chrome_profiles() {
    assert_eq!(chrome_default_profile("/home/ann", "google-chrome"), "/home/ann/.config/google-chrome/Default");
    assert_eq!(
        chrome_default_profile("/home/ann/", "BraveSoftware/Brave-Browser"),
        "/home/ann/.config/BraveSoftware/Brave-Browser/Default"
    );
    assert_eq!(chrome_default_profile("/home/ann", "/opt/chrome"), "/opt/chrome/Default");
    assert_eq!(chrome_default_profile("", "chromium"), ".config/chromium/Default");
}

#[test]
fn url_encoding_of_queries() {
    assert_eq!(urlencoding("hello world"), "hello%20world");
    assert_eq!(urlencoding("a-b_c.d~e"), "a-b_c.d~e");
    assert_eq!(urlencoding("#rust&go=1"), "%23rust%26go%3D1");
    assert_eq!(urlencoding("café"), "caf%C3%A9");
    assert_eq!(urlencoding(""), "");
}

#[test]
fn lemmy_credentials() {
    let creds = obj(vec![("api_key", s("k")), ("instance_url", s("https://lemmy.ml"))]);
    assert_eq!(parse_creds(Some(&creds)), ("k".to_string(), "https://lemmy.ml".to_string()));
    assert_eq!(parse_creds(Some(&obj(vec![]))), ("".to_string(), "https://lemmy.world".to_string()));
    assert_eq!(parse_creds(None), ("".to_string(), "https://lemmy.world".to_string()));
}

#[test]
fn first_url_in_message_data() {
    let data = obj(vec![
        ("a", Json::Array(vec![s("not a url"), Json::Int(3)])),
        ("b", obj(vec![("deep", s("https://media.licdn.com/x"))])),
        ("c", s("http://later.example")),
    ]);
    assert_eq!(find_first_url(&data), Some("https://media.licdn.com/x".to_string()));
    assert_eq!(find_first_url(&s("ftp://x")), None);
    assert_eq!(find_first_url(&Json::Null), None);
}

#[test]
fn business_profile_steps() {
    assert!(check_unauthorized(200).is_ok());
    assert!(matches!(check_unauthorized(401), Err(ProviderError::TokenExpired)));
    let accounts = obj(vec![("accounts", Json::Array(vec![obj(vec![("name", s("accounts/1"))])]))]);
    assert_eq!(gmb_account_name(&accounts).ok(), Some("accounts/1".to_string()));
    assert!(matches!(gmb_account_name(&Json::Null), Err(ProviderError::Api(m)) if m == "No Google Business Profile accounts found"));
    let unnamed = obj(vec![("accounts", Json::Array(vec![obj(vec![])]))]);
    assert!(matches!(gmb_account_name(&unnamed), Err(ProviderError::Api(m)) if m == "Could not determine GMB account name"));
    let locations = obj(vec![("locations", Json::Array(vec![obj(vec![])]))]);
    assert_eq!(gmb_location_name(&locations).ok(), Some("".to_string()));
    assert!(matches!(gmb_location_name(&obj(vec![("locations", Json::Array(vec![]))])), Err(ProviderError::Api(m)) if m == "No Google Business Profile locations found"));
    assert_eq!(gmb_locations_url("accounts/1"), "https://mybusiness.googleapis.com/v4/accounts/1/locations");
    assert_eq!(gmb_local_posts_url("accounts/1/locations/2"), "https://mybusiness.googleapis.com/v4/accounts/1/locations/2/localPosts");
    assert!(matches!(gmb_post_body("hi"), Json::Object(f) if f.len() == 2 && f[0].0 == "summary"));
}

#[test]
fn business_profile_post_outcomes() {
    let ok = gmb_post_outcome(200, &obj(vec![("name", s("localPosts/9"))])).ok().expect("post");
    assert_eq!(ok.platform_post_id, "localPosts/9");
    assert_eq!(ok.status, "published");
    assert!(matches!(gmb_post_outcome(401, &Json::Null), Err(ProviderError::TokenExpired)));
    let err = obj(vec![("error", obj(vec![("message", s("Request contains an invalid argument."))]))]);
    assert!(matches!(gmb_post_outcome(400, &err), Err(ProviderError::Api(m)) if m == "Request contains an invalid argument."));
    assert!(matches!(gmb_post_outcome(500, &Json::Null), Err(ProviderError::Api(m)) if m == "Failed to create GMB local post"));
}

#[test]
fn notification_events() {
    assert_eq!(NotificationService::event_name(), "notification_new");
    let payload = NotificationService::event_payload(0x67e5504410b1426f9247bb680e5fe0c8, Json::Bool(true));
    match payload {
        Json::Object(f) => {
            assert_eq!(f[0].0, "user_id");
            assert!(matches!(&f[0].1, Json::Str(u) if u == "67e55044-10b1-426f-9247-bb680e5fe0c8"));
            assert_eq!(f[1].0, "notification");
        }
        _ => panic!("object"),
    }
}

#[test]
fn oauth_state_round_trip() {
    let id: u128 = 0x67e5504410b1426f9247bb680e5fe0c8;
    let stored = IntegrationService::stored_state(id, "https://app/api/auth/callback?x=1:2");
    assert_eq!(stored, "67e55044-10b1-426f-9247-bb680e5fe0c8:https://app/api/auth/callback?x=1:2");
    let (user, uri) = IntegrationService::parse_stored_state(Some(&stored)).ok().expect("parsed");
    assert_eq!(user, id);
    assert_eq!(uri, "https://app/api/auth/callback?x=1:2");
    assert!(IntegrationService::parse_stored_state(Some("not-a-uuid:x")).is_err());
    assert_eq!(IntegrationService::redirect_uri("https://app", true), "https://app/api/auth/callback");
    assert_eq!(IntegrationService::redirect_uri("https://app", false), "https://app/api/auth/connect");
}
