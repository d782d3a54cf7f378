use auth_core::client::{oidc_user_info, token_request_form, token_response_from};
use auth_core::time::Instant;
use auth_core::provider::{
    build_authorize_url, endpoints_from_discovery, oidc_discovery_url, DiscoveryError,
    ProviderConfig, ProviderEndpoints,
};

fn endpoints() -> ProviderEndpoints {
    ProviderEndpoints {
        authorize_url: "https://example.com/oauth/authorize".into(),
        token_url: "https://example.com/oauth/token".into(),
        userinfo_url: "https://example.com/api/user".into(),
        scopes: vec!["read_user", "email"],
        use_oidc_id_token: false,
    }
}

#[test]
fn authorize_url_percent_encodes_parameters() {
    let url = build_authorize_url(
        &endpoints(),
        "client id",
        "https://app.example.com/callback?x=1",
        "st/ate",
        "chal+lenge",
    );
    assert!(url.starts_with("https://example.com/oauth/authorize?"));
    assert!(url.contains("client_id=client%20id"));
    assert!(url.contains("redirect_uri=https%3A%2F%2Fapp.example.com%2Fcallback%3Fx%3D1"));
    assert!(url.contains("state=st%2Fate"));
    assert!(url.contains("code_challenge=chal%2Blenge"));
    assert!(url.contains("code_challenge_method=S256"));
}

#[test]
fn authorize_url_joins_scopes_with_space() {
    let url = build_authorize_url(&endpoints(), "id", "https://cb", "s", "c");
    assert!(url.contains("scope=read_user%20email"));
}

#[test]
fn authorize_url_exact_form() {
    let url = build_authorize_url(&endpoints(), "id", "https://cb", "s", "c");
    assert_eq!(
        url,
        "https://example.com/oauth/authorize?response_type=code&client_id=id&redirect_uri=https%3A%2F%2Fcb&scope=read_user%20email&state=s&code_challenge=c&code_challenge_method=S256"
    );
}

#[test]
fn percent_encoding_keeps_unreserved_and_encodes_utf8() {
    let url = build_authorize_url(&endpoints(), "aZ09-._~", "é", " /", "c");
    assert!(url.contains("client_id=aZ09-._~&"));
    assert!(url.contains("redirect_uri=%C3%A9&"));
    assert!(url.contains("state=%20%2F&"));
}

#[test]
fn oidc_discovery() {
    assert_eq!(
        oidc_discovery_url("https://issuer.example/"),
        "https://issuer.example/.well-known/openid-configuration"
    );
    let e = endpoints_from_discovery("https://i/a".into(), "https://i/t".into(), Some("https://i/u".into())).unwrap();
    assert_eq!(e.scopes, vec!["openid", "email", "profile"]);
    assert!(e.use_oidc_id_token);
    assert_eq!(e.userinfo_url, "https://i/u");
    assert_eq!(
        endpoints_from_discovery("a".into(), "t".into(), None).err(),
        Some(DiscoveryError::MissingUserinfoEndpoint)
    );
}

#[test]
fn oidc_username_fallbacks() {
    let u = oidc_user_info("sub1".into(), None, None, Some("Name".into()), Some("pref".into()), None);
    assert_eq!(u.username, "pref");
    let u = oidc_user_info("sub1".into(), None, None, Some("Name".into()), None, None);
    assert_eq!(u.username, "Name");
    let u = oidc_user_info("sub1".into(), Some("e@x".into()), Some(false), None, None, Some("p".into()));
    assert_eq!(u.username, "sub1");
    assert_eq!(u.provider_user_id, "sub1");
    assert_eq!(u.email_verified, Some(false));
    assert_eq!(u.avatar_url.as_deref(), Some("p"));
}

#[test]
fn token_answer_and_form() {
    let now = Instant { secs: 1_000, nanos: 5 };
    let t = token_response_from("at".into(), Some("rt".into()), Some(3600), now);
    assert_eq!(t.expires_at, Some(Instant { secs: 4_600, nanos: 5 }));
    assert_eq!(t.refresh_token.as_deref(), Some("rt"));
    assert_eq!(token_response_from("at".into(), None, None, now).expires_at, None);
    let creds = ProviderConfig { client_id: "cid".into(), client_secret: "sec".into() };
    let form = token_request_form(&creds, "code1", "https://cb", "ver");
    let pairs: Vec<(&str, &str)> = form.iter().map(|(k, v)| (*k, v.as_str())).collect();
    assert_eq!(
        pairs,
        vec![
            ("grant_type", "authorization_code"),
            ("code", "code1"),
            ("redirect_uri", "https://cb"),
            ("client_id", "cid"),
            ("client_secret", "sec"),
            ("code_verifier", "ver"),
        ]
    );
}
