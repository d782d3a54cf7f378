use auth_core::credentials::{GithubAppCredentials, GithubAppOAuthCredentials};
use auth_core::forge::Repository;
use auth_core::github_app::{
    access_token_from_answer, create_app_jwt, installation_from_answer, GithubApp, HttpMethod,
};
use auth_core::installation::GithubAppError;
use auth_core::time::Instant;

fn now() -> Instant {
    Instant { secs: 1_785_067_200, nanos: 0 }
}

#[test]
fn rejects_invalid_private_key() {
    let credentials = GithubAppCredentials::new("123".to_string(), "not a pem".to_string());
    assert!(create_app_jwt(&credentials, now()).is_err());
    assert_eq!(create_app_jwt(&credentials, now()), Err(GithubAppError::InvalidPrivateKey));
}

#[test]
fn credentials_debug_redacts_secrets() {
    let c = GithubAppCredentials::new("123".to_string(), "key-material-that-must-not-print".to_string());
    let d = c.redacted_debug();
    assert_eq!(d, "GithubAppCredentials { app_id: \"123\", private_key_pem: \"<redacted>\" }");
    assert!(!d.contains("must-not-print"));
    let o = GithubAppOAuthCredentials::new("Iv1.abc".to_string(), "s3cr3t".to_string());
    assert_eq!(o.redacted_debug(), "GithubAppOAuthCredentials { client_id: \"Iv1.abc\", client_secret: \"<redacted>\" }");
}

#[test]
fn app_builders_and_requests() {
    let app = GithubApp::new(GithubAppCredentials::new("1".into(), "k".into()))
        .with_api_base("https://ghe.example/api/v3//")
        .with_user_agent("my-app".to_string());
    let r = app.installation_token_request("jwt", 42);
    assert_eq!(r.method, HttpMethod::Post);
    assert_eq!(r.url, "https://ghe.example/api/v3/app/installations/42/access_tokens");
    assert_eq!(r.authorization, "Bearer jwt");
    assert_eq!(r.accept, "application/vnd.github+json");
    assert_eq!(r.user_agent, "my-app");
    assert_eq!(app.installation_request("jwt", -3).url, "https://ghe.example/api/v3/app/installations/-3");
    assert_eq!(app.delete_installation_request("jwt", 7).method, HttpMethod::Delete);
    assert_eq!(
        app.repositories_request("tok", 2).url,
        "https://ghe.example/api/v3/installation/repositories?per_page=100&page=2"
    );
    assert_eq!(
        app.user_installations_request("tok", 1).url,
        "https://ghe.example/api/v3/user/installations?per_page=100&page=1"
    );
    let source = app.installation(99);
    assert_eq!(source.installation_id(), 99);
}

#[test]
fn user_code_needs_oauth_credentials() {
    let app = GithubApp::new(GithubAppCredentials::new("1".into(), "k".into()));
    assert_eq!(app.user_code_request("c").err(), Some(GithubAppError::OAuthCredentialsMissing));
    let app = app
        .with_oauth_credentials(GithubAppOAuthCredentials::new("cid".into(), "sec".into()))
        .with_oauth_base("https://gh.example/");
    let form = app.user_code_request("code9").ok().unwrap();
    assert_eq!(form.url, "https://gh.example/login/oauth/access_token");
    assert_eq!(form.accept, "application/json");
    assert_eq!(form.user_agent, "forge-github");
    assert_eq!(form.form[2].0, "code");
    assert_eq!(form.form[2].1, "code9");
}

#[test]
fn api_answers_are_read() {
    let t = access_token_from_answer("ghs_x".into(), "2026-07-26T12:00:00Z").unwrap();
    assert_eq!(t.expires_at, Instant { secs: 1_785_067_200, nanos: 0 });
    assert_eq!(access_token_from_answer("ghs_x".into(), "tomorrow").err(), Some(GithubAppError::InvalidTimestamp));
    let i = installation_from_answer(5, "acme".into(), "2026-07-26T13:00:00+01:00").unwrap();
    assert_eq!(i.created_at, Instant { secs: 1_785_067_200, nanos: 0 });
    assert_eq!(i.account_login, "acme");
}

#[test]
fn repository_display() {
    assert_eq!(Repository::new("o".into(), "n".into()).to_string(), "o/n");
}
