use auth_core::gitlab::{endpoints_for, gitlab_user_info, GitlabProvider, GitlabSelfHostedProvider};
use auth_core::url_guard::{HostLookup, IpAddr, UrlGuardError};

#[test]
fn gitlab_com_endpoints_point_at_saas() {
    let e = GitlabProvider.endpoints();
    assert_eq!(e.authorize_url, "https://gitlab.com/oauth/authorize");
    assert_eq!(e.token_url, "https://gitlab.com/oauth/token");
    assert_eq!(e.userinfo_url, "https://gitlab.com/api/v4/user");
}

#[test]
fn self_hosted_rejects_private_instance_url() {
    // The first host is an IP literal; the second one is written in brackets, so it
    // is no IP literal and resolving it fails.
    assert!(GitlabSelfHostedProvider::new(
        "https://192.168.1.1",
        &HostLookup::Literal(IpAddr::V4([192, 168, 1, 1]))
    )
    .is_err());
    assert!(GitlabSelfHostedProvider::new("https://[::ffff:169.254.169.254]", &HostLookup::Failed)
        .is_err());
}

#[test]
fn self_hosted_rejects_mapped_metadata_literal() {
    let mapped = IpAddr::V6([0, 0, 0, 0, 0, 0xffff, 0xa9fe, 0xa9fe]);
    assert_eq!(
        GitlabSelfHostedProvider::new("https://metadata.example", &HostLookup::Literal(mapped)).err(),
        Some(UrlGuardError::RestrictedAddress)
    );
}

#[test]
fn self_hosted_endpoints_use_normalized_instance_url() {
    let lookup = HostLookup::Resolved(vec![IpAddr::V4([127, 0, 0, 1]), IpAddr::V6([0, 0, 0, 0, 0, 0, 0, 1])]);
    let provider = GitlabSelfHostedProvider::new("http://localhost:8080/", &lookup).unwrap();
    assert_eq!(provider.instance_url(), "http://localhost:8080");
    let e = provider.endpoints();
    assert_eq!(e.authorize_url, "http://localhost:8080/oauth/authorize");
    assert_eq!(e.userinfo_url, "http://localhost:8080/api/v4/user");
    assert_eq!(provider.slug(), "gitlab_selfhosted");
}

#[test]
fn gitlab_endpoints_for_base() {
    let e = endpoints_for("https://git.example.org");
    assert_eq!(e.token_url, "https://git.example.org/oauth/token");
    assert_eq!(e.scopes, vec!["read_user"]);
    assert!(!e.use_oidc_id_token);
}

#[test]
fn gitlab_email_verified_only_when_confirmed() {
    let confirmed = gitlab_user_info(
        "7".to_string(),
        "dev".to_string(),
        Some("dev@example.com".to_string()),
        Some("2024-01-01T00:00:00Z".to_string()),
        None,
    );
    assert_eq!(confirmed.email_verified, Some(true));
    let unconfirmed = gitlab_user_info("7".to_string(), "dev".to_string(), None, None, None);
    assert_eq!(unconfirmed.email_verified, None);
    assert_eq!(unconfirmed.username, "dev");
}
