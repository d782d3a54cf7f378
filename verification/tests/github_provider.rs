use auth_core::github::{github_user_info, pick_verified_email, GithubEmail, GithubProvider};

fn email(address: &str, primary: bool, verified: bool) -> GithubEmail {
    GithubEmail { email: address.to_string(), primary, verified }
}

#[test]
fn github_email_uses_verified_primary_only() {
    let emails = vec![
        email("unverified@example.com", true, false),
        email("verified@example.com", false, true),
    ];
    let (email, verified) = pick_verified_email(&emails);
    assert_eq!(email.as_deref(), Some("verified@example.com"));
    assert_eq!(verified, Some(true));
}

#[test]
fn github_email_none_when_no_verified() {
    let emails = vec![email("bad@example.com", true, false)];
    let (email, verified) = pick_verified_email(&emails);
    assert!(email.is_none());
    assert!(verified.is_none());
}

#[test]
fn github_email_prefers_primary_among_verified() {
    let emails = vec![
        email("secondary@example.com", false, true),
        email("primary@example.com", true, true),
    ];
    let (email, _) = pick_verified_email(&emails);
    assert_eq!(email.as_deref(), Some("primary@example.com"));
}

#[test]
fn github_email_takes_first_verified_when_none_is_primary() {
    let emails = vec![
        email("a@example.com", false, false),
        email("b@example.com", false, true),
        email("c@example.com", false, true),
    ];
    let (email, verified) = pick_verified_email(&emails);
    assert_eq!(email.as_deref(), Some("b@example.com"));
    assert_eq!(verified, Some(true));
}

#[test]
fn github_email_none_for_empty_list() {
    let (email, verified) = pick_verified_email(&Vec::new());
    assert!(email.is_none());
    assert!(verified.is_none());
}

#[test]
fn github_endpoints_and_slug() {
    let provider = GithubProvider::default();
    assert_eq!(provider.slug(), "github");
    let e = provider.endpoints();
    assert_eq!(e.authorize_url, "https://github.com/login/oauth/authorize");
    assert_eq!(e.token_url, "https://github.com/login/oauth/access_token");
    assert_eq!(e.userinfo_url, "https://api.github.com/user");
    assert_eq!(e.scopes, vec!["read:user", "user:email"]);
    assert!(!e.use_oidc_id_token);
    assert_eq!(provider.emails_url(&e), "https://api.github.com/user/emails");
}

#[test]
fn github_headers_use_bearer_token_and_user_agent() {
    let provider = GithubProvider::new("my-app".to_string());
    let h = provider.headers("tok123");
    assert_eq!(h.authorization, "Bearer tok123");
    assert_eq!(h.accept, "application/json");
    assert_eq!(h.user_agent, "my-app");
}

#[test]
fn github_headers_fall_back_when_values_are_not_header_safe() {
    let provider = GithubProvider::new("bad\nagent".to_string());
    let h = provider.headers("tok\r\nen");
    assert_eq!(h.authorization, "Bearer invalid");
    assert_eq!(h.user_agent, "auth-core");
}

#[test]
fn github_user_info_takes_verified_email() {
    let emails = vec![email("x@example.com", true, true)];
    let u = github_user_info("42".to_string(), "octo".to_string(), None, &emails);
    assert_eq!(u.provider_user_id, "42");
    assert_eq!(u.username, "octo");
    assert_eq!(u.email.as_deref(), Some("x@example.com"));
    assert_eq!(u.email_verified, Some(true));
}
