use auth_core::url_guard::{
    instance_url_host, is_localhost_host, is_localhost_ip, is_restricted_ip, normalize_instance_url,
    to_canonical, trim_instance_url, validate_instance_url, validate_resolved_host, HostLookup, IpAddr,
    UrlGuardError,
};

fn v4(a: u8, b: u8, c: u8, d: u8) -> IpAddr {
    IpAddr::V4([a, b, c, d])
}

#[test]
fn rejects_private_ip_literal() {
    assert!(validate_instance_url("https://192.168.1.1", &HostLookup::Literal(v4(192, 168, 1, 1))).is_err());
    assert!(validate_instance_url("https://10.0.0.5", &HostLookup::Literal(v4(10, 0, 0, 5))).is_err());
}

#[test]
fn rejects_ipv4_mapped_ipv6_bypass() {
    let mapped = |a: u16, b: u16| HostLookup::Literal(IpAddr::V6([0, 0, 0, 0, 0, 0xffff, a, b]));
    assert!(validate_instance_url("https://[::ffff:169.254.169.254]", &mapped(0xa9fe, 0xa9fe)).is_err());
    assert!(validate_instance_url("https://[::ffff:a9fe:a9fe]", &mapped(0xa9fe, 0xa9fe)).is_err());
    assert!(validate_instance_url("https://[::ffff:10.0.0.1]", &mapped(0x0a00, 0x0001)).is_err());
    assert!(validate_instance_url("https://[::ffff:192.168.0.1]", &mapped(0xc0a8, 0x0001)).is_err());
}

#[test]
fn rejects_ipv6_metadata_and_local() {
    let fe80 = HostLookup::Literal(IpAddr::V6([0xfe80, 0, 0, 0, 0, 0, 0, 1]));
    let fc00 = HostLookup::Literal(IpAddr::V6([0xfc00, 0, 0, 0, 0, 0, 0, 1]));
    assert!(validate_instance_url("https://[fe80::1]", &fe80).is_err());
    assert!(validate_instance_url("https://[fc00::1]", &fc00).is_err());
}

#[test]
fn allows_localhost_instance() {
    assert!(validate_instance_url("http://127.0.0.1:8080", &HostLookup::Literal(v4(127, 0, 0, 1))).is_ok());
    assert!(validate_instance_url(
        "http://localhost:8080",
        &HostLookup::Resolved(vec![v4(127, 0, 0, 1), IpAddr::V6([0, 0, 0, 0, 0, 0, 0, 1])])
    )
    .is_ok());
}

#[test]
fn normalize_strips_trailing_slash() {
    let lookup = HostLookup::Resolved(vec![v4(127, 0, 0, 1)]);
    assert_eq!(normalize_instance_url("  http://localhost:8080/  ", &lookup).unwrap(), "http://localhost:8080");
}

#[test]
fn scheme_and_host_checks() {
    assert_eq!(instance_url_host("ftp://example.com"), Err(UrlGuardError::UnsupportedScheme));
    assert_eq!(instance_url_host("http://example.com"), Err(UrlGuardError::HttpNotLocalhost));
    assert_eq!(instance_url_host("not a url"), Err(UrlGuardError::InvalidUrl));
    assert_eq!(instance_url_host("https://gitlab.example.com/path"), Ok("gitlab.example.com".to_string()));
    assert_eq!(instance_url_host("http://localhost:8080"), Ok("localhost".to_string()));
}

#[test]
fn resolved_hosts_must_be_public() {
    let public = v4(93, 184, 216, 34);
    assert_eq!(validate_resolved_host(&HostLookup::Resolved(vec![public])), Ok(()));
    assert_eq!(
        validate_resolved_host(&HostLookup::Resolved(vec![public, v4(169, 254, 169, 254)])),
        Err(UrlGuardError::ResolvesToRestricted)
    );
    assert_eq!(validate_resolved_host(&HostLookup::Resolved(vec![])), Err(UrlGuardError::Unresolved));
    assert_eq!(validate_resolved_host(&HostLookup::Failed), Err(UrlGuardError::ResolutionFailed));
    assert_eq!(validate_resolved_host(&HostLookup::Literal(public)), Ok(()));
}

#[test]
fn restricted_ranges() {
    assert!(is_restricted_ip(v4(172, 16, 0, 1)));
    assert!(is_restricted_ip(v4(172, 31, 255, 255)));
    assert!(!is_restricted_ip(v4(172, 32, 0, 1)));
    assert!(is_restricted_ip(v4(0, 1, 2, 3)));
    assert!(is_restricted_ip(v4(255, 255, 255, 255)));
    assert!(!is_restricted_ip(v4(8, 8, 8, 8)));
    assert!(is_restricted_ip(IpAddr::V6([0xfdff, 0, 0, 0, 0, 0, 0, 1])));
    assert!(is_restricted_ip(IpAddr::V6([0xfeff, 0, 0, 0, 0, 0, 0, 1])));
    assert!(!is_restricted_ip(IpAddr::V6([0x2001, 0xdb8, 0, 0, 0, 0, 0, 1])));
    assert!(is_restricted_ip(IpAddr::V6([0; 8])));
}

#[test]
fn mapped_addresses_are_judged_as_ipv4() {
    let mapped_loopback = IpAddr::V6([0, 0, 0, 0, 0, 0xffff, 0x7f00, 0x0001]);
    assert_eq!(to_canonical(mapped_loopback), v4(127, 0, 0, 1));
    assert!(is_localhost_ip(mapped_loopback));
    assert!(is_restricted_ip(mapped_loopback));
    let mapped_public = IpAddr::V6([0, 0, 0, 0, 0, 0xffff, 0x0808, 0x0808]);
    assert!(!is_restricted_ip(mapped_public));
}

#[test]
fn localhost_names() {
    assert!(is_localhost_host("localhost"));
    assert!(is_localhost_host("127.0.0.1"));
    assert!(is_localhost_host("::1"));
    assert!(!is_localhost_host("[::1]"));
    assert!(!is_localhost_host("example.com"));
}

#[test]
fn trims_instance_url() {
    assert_eq!(trim_instance_url("\n https://x.example// "), "https://x.example");
    assert_eq!(UrlGuardError::HttpNotLocalhost.message(), "instance_url over http is only allowed for localhost");
}
