use social_forge::json::Json;
use social_forge::social::ProviderError;
use social_forge::tokens::{
    discord_auth_token, facebook_auth_token, github_auth_token, google_auth_token,
    instagram_auth_token, instagram_standalone_auth_token, kick_auth_token, long_lived_grant,
    token_exchange_error, token_grant, TokenGrant,
};

fn s(x: &str) -> Json {
    Json::Str(x.to_string())
}

fn obj(entries: Vec<(&str, Json)>) -> Json {
    Json::Object(entries.into_iter().map(|(k, v)| (k.to_string(), v)).collect())
}

fn grant() -> TokenGrant {
    TokenGrant { access_token: "at".to_string(), refresh_token: Some("rt".to_string()), expires_in: Some(3600) }
}

#[test]
fn token_answers() {
    let g = token_grant(&obj(vec![("access_token", s("a")), ("refresh_token", s("r")), ("expires_in", Json::Int(3599))]))
        .ok()
        .expect("grant");
    assert_eq!(g.access_token, "a");
    assert_eq!(g.refresh_token, Some("r".to_string()));
    assert_eq!(g.expires_in, Some(3599));
    let big = token_grant(&obj(vec![("access_token", s("a")), ("expires_in", Json::BigUInt(u64::MAX))])).ok().expect("grant");
    assert_eq!(big.expires_in, Some(u32::MAX));
    assert!(matches!(token_grant(&obj(vec![])), Err(ProviderError::Auth(m)) if m == "Missing access_token"));
    assert!(matches!(token_exchange_error(&obj(vec![("error", s("invalid_grant"))])), ProviderError::Auth(m) if m == "invalid_grant"));
    assert!(matches!(
        token_exchange_error(&obj(vec![("error", s("e")), ("error_description", s("Bad code"))])),
        ProviderError::Auth(m) if m == "Bad code"
    ));
    assert!(matches!(token_exchange_error(&Json::Null), ProviderError::Auth(m) if m == "Token exchange failed"));
}

#[test]
fn long_lived_tokens_fall_back_to_the_short_one() {
    let g = long_lived_grant(&obj(vec![("expires_in", Json::Int(5184000))]), "short".to_string());
    assert_eq!(g.access_token, "short");
    assert_eq!(g.expires_in, Some(5184000));
    assert!(g.refresh_token.is_none());
    assert_eq!(long_lived_grant(&obj(vec![("access_token", s("long"))]), "short".to_string()).access_token, "long");
}

#[test]
fn google_accounts() {
    let a = google_auth_token(grant(), &obj(vec![("id", s("g1")), ("name", s("Ann")), ("email", s("ann@x")), ("picture", s("https://p"))]));
    assert_eq!(a.provider_user_id, "g1");
    assert_eq!(a.username, "ann@x");
    assert_eq!(a.refresh_token, Some("rt".to_string()));
    assert_eq!(a.picture, Some("https://p".to_string()));
}

#[test]
fn meta_accounts() {
    let a = facebook_auth_token(grant(), &Json::Null);
    assert_eq!(a.provider_user_id, "me");
    assert_eq!(a.name, "Facebook User");
    assert_eq!(a.username, "Facebook User");
    assert!(a.refresh_token.is_none());
    let b = instagram_auth_token(grant(), &obj(vec![("id", s("9"))]));
    assert_eq!(b.name, "Instagram");
    assert_eq!(b.username, "");
    assert_eq!(b.provider_user_id, "9");
    let c = instagram_standalone_auth_token(grant(), &obj(vec![("user_id", s("u")), ("username", s("nick"))]));
    assert_eq!(c.refresh_token, Some("at".to_string()));
    assert_eq!(c.username, "nick");
}

#[test]
fn kick_and_discord_accounts() {
    let users = obj(vec![("data", Json::Array(vec![obj(vec![("id", s("k1")), ("display_name", s("Kay")), ("avatar", s("https://a"))])]))]);
    let k = kick_auth_token(grant(), &users);
    assert_eq!(k.provider_user_id, "k1");
    assert_eq!(k.name, "Kay");
    assert_eq!(k.picture, Some("https://a".to_string()));
    let empty = kick_auth_token(grant(), &obj(vec![("data", Json::Array(vec![]))]));
    assert_eq!(empty.provider_user_id, "");
    let token_json = obj(vec![("guild", obj(vec![("id", s("g42"))]))]);
    let me = obj(vec![("application", obj(vec![("bot", obj(vec![("id", s("b1")), ("avatar", s("av")), ("username", s("Bot"))]))]))]);
    let d = discord_auth_token(grant(), &token_json, &me);
    assert_eq!(d.provider_user_id, "g42");
    assert_eq!(d.name, "Discord Server");
    assert_eq!(d.username, "Bot");
    assert_eq!(d.picture, Some("https://cdn.discordapp.com/avatars/b1/av.png".to_string()));
}

#[test]
fn github_accounts() {
    let user = obj(vec![("id", Json::Int(583231)), ("login", s("octocat")), ("avatar_url", s("https://gh/a"))]);
    let a = github_auth_token("pat".to_string(), true, &user).ok().expect("account");
    assert_eq!(a.provider_user_id, "583231");
    assert_eq!(a.name, "octocat");
    assert_eq!(a.access_token, "pat");
    assert!(a.expires_in.is_none());
    assert!(matches!(
        github_auth_token("pat".to_string(), false, &obj(vec![("message", s("Bad credentials"))])),
        Err(ProviderError::Auth(m)) if m == "Bad credentials"
    ));
    assert!(matches!(
        github_auth_token("pat".to_string(), false, &Json::Null),
        Err(ProviderError::Auth(m)) if m == "Failed to authenticate with GitHub PAT"
    ));
}
