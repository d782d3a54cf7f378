use auth_core::state::{
    build_frontend_oauth_error_redirect, build_frontend_redirect, sanitize_redirect_path, state_key,
    RedirectValidationError, STATE_TTL_SECS,
};

#[test]
fn sanitize_rejects_protocol_relative() {
    assert_eq!(sanitize_redirect_path("//evil.com"), Err(RedirectValidationError::DisallowedPattern));
}

#[test]
fn sanitize_rejects_absolute_url() {
    assert_eq!(sanitize_redirect_path("https://evil.com"), Err(RedirectValidationError::NotRelative));
}

#[test]
fn sanitize_rejects_colon_and_at() {
    assert!(sanitize_redirect_path("/foo:bar").is_err());
    assert!(sanitize_redirect_path("/user@host").is_err());
}

#[test]
fn sanitize_accepts_safe_relative_path() {
    assert_eq!(sanitize_redirect_path("/dashboard"), Ok("/dashboard".to_string()));
}

#[test]
fn sanitize_trims_white_space() {
    assert_eq!(sanitize_redirect_path(" \t/a/b\n"), Ok("/a/b".to_string()));
    assert_eq!(sanitize_redirect_path("\u{3000}/wide\u{2003}"), Ok("/wide".to_string()));
}

#[test]
fn sanitize_rejects_backslash_and_dot_dot() {
    assert_eq!(sanitize_redirect_path("/a\\b"), Err(RedirectValidationError::DisallowedPattern));
    assert_eq!(sanitize_redirect_path("/a/../b"), Err(RedirectValidationError::DisallowedPattern));
    assert_eq!(sanitize_redirect_path(""), Err(RedirectValidationError::NotRelative));
    assert_eq!(sanitize_redirect_path("   "), Err(RedirectValidationError::NotRelative));
}

#[test]
fn sanitize_is_idempotent_on_examples() {
    for p in ["/dashboard", "  /x/y  ", "/a.b/c"] {
        let once = sanitize_redirect_path(p).unwrap();
        assert_eq!(sanitize_redirect_path(&once), Ok(once.clone()));
    }
}

#[test]
fn build_redirect_stays_on_frontend_origin() {
    let url = build_frontend_redirect("https://app.example.com", "/settings/profile").unwrap();
    assert_eq!(url, "https://app.example.com/settings/profile");
}

#[test]
fn build_redirect_rejects_open_redirect_via_path() {
    assert!(build_frontend_redirect("https://app.example.com", "//evil.com/phish").is_err());
}

#[test]
fn oauth_error_redirect_includes_query_param() {
    let url = build_frontend_oauth_error_redirect("https://app.example.com", "/login").unwrap();
    assert!(url.contains("oauth_error=authorization_failed"));
    assert!(url.starts_with("https://app.example.com/login"));
}

#[test]
fn build_redirect_trims_base_slashes() {
    let url = build_frontend_redirect("https://app.example.com///", "/a").unwrap();
    assert_eq!(url, "https://app.example.com/a");
}

#[test]
fn build_redirect_rejects_invalid_base() {
    assert_eq!(build_frontend_redirect("not a url", "/a"), Err(RedirectValidationError::InvalidBase));
}

#[test]
fn build_redirect_rejects_opaque_origin() {
    assert_eq!(
        build_frontend_redirect("data:text/plain,hello", "/a"),
        Err(RedirectValidationError::InvalidBase)
    );
}

#[test]
fn error_messages() {
    assert_eq!(
        RedirectValidationError::NotRelative.message(),
        "redirect path must be a relative path starting with /"
    );
    assert_eq!(RedirectValidationError::InvalidBase.message(), "invalid frontend base URL");
}

#[test]
fn state_keys_are_namespaced() {
    assert_eq!(state_key("abc"), "oauth:state:abc");
    assert_eq!(STATE_TTL_SECS, 600);
}
