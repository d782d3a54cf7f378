//! Validation of user-supplied instance URLs (SSRF defence).
//!
//! Providers that let a user name their own instance (self-hosted GitLab,
//! generic OIDC) must not be pointed at private networks, link-local addresses
//! or cloud metadata endpoints. Parsing the host as an IP literal and resolving
//! host names is done by the caller; the outcome of that lookup is a
//! [`HostLookup`], and this module decides on it.
use vstd::prelude::*;
use crate::text::{result_str_view, str_eq, trim, trim_ws, trim_end_char, string_from_range, trimmed_end_len};
use crate::weburl::{parse_url, url_parsed};

verus! {

/// An IP address: four octets, or eight 16-bit segments.
#[derive(Debug, Clone, Copy, PartialEq, Eq)]
pub enum IpAddr {
    V4([u8; 4]),
    V6([u16; 8]),
}

/// The IPv4 address that an IPv4-mapped IPv6 address (`::ffff:a.b.c.d`) stands for
/// (`Ipv6Addr::to_ipv4_mapped`).
pub open spec fn spec_mapped_v4(s: Seq<u16>) -> Option<Seq<u8>> {
    if s[0] == 0 && s[1] == 0 && s[2] == 0 && s[3] == 0 && s[4] == 0 && s[5] == 0xffff {
        Some(seq![(s[6] / 256) as u8, (s[6] % 256) as u8, (s[7] / 256) as u8, (s[7] % 256) as u8])
    } else {
        None
    }
}

/// Whether an IPv4 address is refused: private (10/8, 172.16/12, 192.168/16),
/// loopback (127/8), link-local (169.254/16), unspecified, broadcast, or in 0/8.
pub open spec fn spec_v4_restricted(o: Seq<u8>) -> bool {
    ||| o[0] == 10
    ||| (o[0] == 172 && 16 <= o[1] <= 31)
    ||| (o[0] == 192 && o[1] == 168)
    ||| o[0] == 127
    ||| (o[0] == 169 && o[1] == 254)
    ||| (o[0] == 0 && o[1] == 0 && o[2] == 0 && o[3] == 0)
    ||| (o[0] == 255 && o[1] == 255 && o[2] == 255 && o[3] == 255)
    ||| o[0] == 0
}

/// Whether an IPv6 address is `::1`.
pub open spec fn spec_v6_loopback(s: Seq<u16>) -> bool {
    s[0] == 0 && s[1] == 0 && s[2] == 0 && s[3] == 0 && s[4] == 0 && s[5] == 0 && s[6] == 0
        && s[7] == 1
}

/// Whether an IPv6 address is `::`.
pub open spec fn spec_v6_unspecified(s: Seq<u16>) -> bool {
    s[0] == 0 && s[1] == 0 && s[2] == 0 && s[3] == 0 && s[4] == 0 && s[5] == 0 && s[6] == 0
        && s[7] == 0
}

/// Whether an IPv6 address (not IPv4-mapped) is refused: loopback, unspecified,
/// unique local `fc00::/7`, or `fe00::/8`.
pub open spec fn spec_v6_restricted(s: Seq<u16>) -> bool {
    ||| spec_v6_loopback(s)
    ||| spec_v6_unspecified(s)
    ||| 0xfc00 <= s[0] <= 0xfdff
    ||| 0xfe00 <= s[0] <= 0xfeff
}

/// Whether an address is refused; an IPv4-mapped IPv6 address is judged as its IPv4 address.
pub open spec fn spec_is_restricted_ip(ip: IpAddr) -> bool {
    match ip {
        IpAddr::V4(o) => spec_v4_restricted(o@),
        IpAddr::V6(s) => match spec_mapped_v4(s@) {
            Some(o) => spec_v4_restricted(o),
            None => spec_v6_restricted(s@),
        },
    }
}

/// Whether an address is a loopback address; an IPv4-mapped IPv6 address is judged
/// as its IPv4 address.
pub open spec fn spec_is_localhost_ip(ip: IpAddr) -> bool {
    match ip {
        IpAddr::V4(o) => o@[0] == 127,
        IpAddr::V6(s) => match spec_mapped_v4(s@) {
            Some(o) => o[0] == 127,
            None => spec_v6_loopback(s@),
        },
    }
}

/// Whether an instance may not be reached at `ip`: restricted and not a loopback address.
pub open spec fn spec_blocked_ip(ip: IpAddr) -> bool {
    spec_is_restricted_ip(ip) && !spec_is_localhost_ip(ip)
}

/// `ip` with an IPv4-mapped IPv6 address turned into its IPv4 address (`IpAddr::to_canonical`).
pub fn to_canonical(ip: IpAddr) -> (res: IpAddr)
    ensures
        match ip {
            IpAddr::V4(_) => res == ip,
            IpAddr::V6(s) => match spec_mapped_v4(s@) {
                Some(o) => res matches IpAddr::V4(r) && r@ == o,
                None => res == ip,
            },
        },
{
    match ip {
        IpAddr::V4(_) => ip,
        IpAddr::V6(s) => {
            if s[0] == 0 && s[1] == 0 && s[2] == 0 && s[3] == 0 && s[4] == 0 && s[5] == 0xffff {
                let r = [(s[6] / 256) as u8, (s[6] % 256) as u8, (s[7] / 256) as u8, (s[7] % 256) as u8];
                assert(r@ =~= spec_mapped_v4(s@)->Some_0);
                IpAddr::V4(r)
            } else {
                ip
            }
        },
    }
}

fn v4_restricted(o: [u8; 4]) -> (b: bool)
    ensures
        b == spec_v4_restricted(o@),
{
    let is_private = o[0] == 10 || (o[0] == 172 && 16 <= o[1] && o[1] <= 31) || (o[0] == 192 && o[1]
        == 168);
    let is_loopback = o[0] == 127;
    let is_link_local = o[0] == 169 && o[1] == 254;
    let is_unspecified = o[0] == 0 && o[1] == 0 && o[2] == 0 && o[3] == 0;
    let is_broadcast = o[0] == 255 && o[1] == 255 && o[2] == 255 && o[3] == 255;
    is_private || is_loopback || is_link_local || is_unspecified || is_broadcast || o[0] == 0
}

fn v6_loopback(s: [u16; 8]) -> (b: bool)
    ensures
        b == spec_v6_loopback(s@),
{
    s[0] == 0 && s[1] == 0 && s[2] == 0 && s[3] == 0 && s[4] == 0 && s[5] == 0 && s[6] == 0 && s[7]
        == 1
}

/// Whether an address is refused as an instance target (`is_restricted_ip`).
pub fn is_restricted_ip(ip: IpAddr) -> (b: bool)
    ensures
        b == spec_is_restricted_ip(ip),
{
    match to_canonical(ip) {
        IpAddr::V4(o) => v4_restricted(o),
        IpAddr::V6(s) => {
            let s0 = s[0];
            let unique_local = (s0 & 0xfe00) == 0xfc00;
            let link_local = (s0 & 0xff00) == 0xfe00;
            assert(unique_local == (0xfc00 <= s0 <= 0xfdff)) by (bit_vector)
                requires
                    unique_local == ((s0 & 0xfe00) == 0xfc00),
            ;
            assert(link_local == (0xfe00 <= s0 <= 0xfeff)) by (bit_vector)
                requires
                    link_local == ((s0 & 0xff00) == 0xfe00),
            ;
            let unspecified = s[0] == 0 && s[1] == 0 && s[2] == 0 && s[3] == 0 && s[4] == 0 && s[5]
                == 0 && s[6] == 0 && s[7] == 0;
            v6_loopback(s) || unspecified || unique_local || link_local
        },
    }
}

/// Whether an address is a loopback address (`is_localhost_ip`).
pub fn is_localhost_ip(ip: IpAddr) -> (b: bool)
    ensures
        b == spec_is_localhost_ip(ip),
{
    match to_canonical(ip) {
        IpAddr::V4(o) => o[0] == 127,
        IpAddr::V6(s) => v6_loopback(s),
    }
}

/// An IPv4-mapped IPv6 address is judged exactly as the IPv4 address it maps:
/// `::ffff:169.254.169.254` is refused like `169.254.169.254`.
pub proof fn lemma_mapped_v6_judged_as_v4(s: Seq<u16>)
    requires
        s.len() == 8,
        spec_mapped_v4(s) is Some,
    ensures
        spec_is_restricted_ip(IpAddr::V6(
            [s[0], s[1], s[2], s[3], s[4], s[5], s[6], s[7]],
        )) == spec_v4_restricted(spec_mapped_v4(s)->Some_0),
        spec_is_localhost_ip(IpAddr::V6(
            [s[0], s[1], s[2], s[3], s[4], s[5], s[6], s[7]],
        )) == (spec_mapped_v4(s)->Some_0[0] == 127),
{
    let a = [s[0], s[1], s[2], s[3], s[4], s[5], s[6], s[7]];
    assert(a@ =~= s);
}

/// An IPv4 address as a 32-bit number.
pub open spec fn v4_number(o: Seq<u8>) -> int {
    o[0] * 16777216 + o[1] * 65536 + o[2] * 256 + o[3]
}

/// Whether an IPv4 address lies in one of the refused blocks: 0.0.0.0/8,
/// 10.0.0.0/8, 127.0.0.0/8, 169.254.0.0/16, 172.16.0.0/12, 192.168.0.0/16, or is
/// 255.255.255.255.
pub open spec fn in_refused_v4_block(o: Seq<u8>) -> bool {
    let a = v4_number(o);
    ||| 0 <= a <= 16777215
    ||| 167772160 <= a <= 184549375
    ||| 2130706432 <= a <= 2147483647
    ||| 2851995648 <= a <= 2852061183
    ||| 2886729728 <= a <= 2887778303
    ||| 3232235520 <= a <= 3232301055
    ||| a == 4294967295
}

/// An IPv4 address is refused exactly when it lies in one of the refused blocks;
/// every other address (such as 192.30.255.113) is accepted as an instance
/// address, and of the refused ones only 127.0.0.0/8 counts as local.
pub proof fn lemma_v4_refused_exactly_in_blocks(o: [u8; 4])
    ensures
        spec_is_restricted_ip(IpAddr::V4(o)) == in_refused_v4_block(o@),
        spec_is_localhost_ip(IpAddr::V4(o)) == (2130706432 <= v4_number(o@) <= 2147483647),
        spec_blocked_ip(IpAddr::V4(o)) == (in_refused_v4_block(o@) && !(2130706432 <= v4_number(
            o@,
        ) <= 2147483647)),
{
    let o = o@;
    let low = o[1] * 65536 + o[2] * 256 + o[3];
    assert(0 <= low <= 16777215);
    assert(0 <= o[2] * 256 + o[3] <= 65535);
}

/// An IPv4-mapped IPv6 address is refused exactly when the IPv4 address it maps is.
pub proof fn lemma_mapped_v6_refused_exactly_in_blocks(s: [u16; 8])
    requires
        s@[0] == 0 && s@[1] == 0 && s@[2] == 0 && s@[3] == 0 && s@[4] == 0 && s@[5] == 0xffff,
    ensures
        spec_is_restricted_ip(IpAddr::V6(s)) == in_refused_v4_block(
            seq![(s@[6] / 256) as u8, (s@[6] % 256) as u8, (s@[7] / 256) as u8, (s@[7] % 256) as u8],
        ),
        spec_is_localhost_ip(IpAddr::V6(s)) == (s@[6] / 256 == 127),
{
    let o = seq![(s@[6] / 256) as u8, (s@[6] % 256) as u8, (s@[7] / 256) as u8, (s@[7] % 256) as u8];
    let low = o[1] * 65536 + o[2] * 256 + o[3];
    assert(0 <= low <= 16777215);
    assert(0 <= o[2] * 256 + o[3] <= 65535);
}

/// A non-mapped IPv6 address is refused exactly when it is `::`, `::1`, in
/// `fc00::/7` or in `fe00::/8`.
pub proof fn lemma_v6_refused_exactly(s: [u16; 8])
    requires
        !(s@[0] == 0 && s@[1] == 0 && s@[2] == 0 && s@[3] == 0 && s@[4] == 0 && s@[5] == 0xffff),
    ensures
        spec_is_restricted_ip(IpAddr::V6(s)) == ({
            ||| (s@[0] == 0 && s@[1] == 0 && s@[2] == 0 && s@[3] == 0 && s@[4] == 0 && s@[5] == 0
                && s@[6] == 0 && (s@[7] == 0 || s@[7] == 1))
            ||| 0xfc00 <= s@[0] <= 0xfeff
        }),
        spec_is_localhost_ip(IpAddr::V6(s)) == (s@[0] == 0 && s@[1] == 0 && s@[2] == 0 && s@[3] == 0
            && s@[4] == 0 && s@[5] == 0 && s@[6] == 0 && s@[7] == 1),
{
}

/// A host name whose addresses all lie outside the refused blocks (or are local)
/// is accepted; one refused, non-local address among them refuses it.
pub proof fn lemma_resolved_host_decision(addrs: Vec<IpAddr>)
    ensures
        addrs@.len() > 0 && (forall|i: int| 0 <= i < addrs@.len() ==> !spec_blocked_ip(#[trigger] addrs@[i]))
            ==> spec_validate_resolved_host(HostLookup::Resolved(addrs)) == Ok::<(), UrlGuardError>(()),
        (exists|i: int| 0 <= i < addrs@.len() && spec_blocked_ip(#[trigger] addrs@[i]))
            ==> spec_validate_resolved_host(HostLookup::Resolved(addrs)) == Err::<(), UrlGuardError>(UrlGuardError::ResolvesToRestricted),
        addrs@.len() == 0 ==> spec_validate_resolved_host(HostLookup::Resolved(addrs)) == Err::<(), UrlGuardError>(UrlGuardError::Unresolved),
{
}

/// The host names that count as the local machine (`is_localhost_host`).
pub open spec fn spec_is_localhost_host(host: Seq<char>) -> bool {
    host == "localhost"@ || host == "127.0.0.1"@ || host == "::1"@
}

/// Whether `host` is `localhost`, `127.0.0.1` or `::1`.
pub fn is_localhost_host(host: &str) -> (b: bool)
    ensures
        b == spec_is_localhost_host(host@),
{
    str_eq(host, "localhost") || str_eq(host, "127.0.0.1") || str_eq(host, "::1")
}

/// Why an instance URL was refused.
#[derive(Debug, Clone, Copy, PartialEq, Eq, Structural)]
pub enum UrlGuardError {
    /// The URL does not parse.
    InvalidUrl,
    /// The scheme is neither `https` nor `http`.
    UnsupportedScheme,
    /// The URL has no host.
    MissingHost,
    /// `http` is used for a host other than localhost.
    HttpNotLocalhost,
    /// The host is an IP literal that is private or otherwise restricted.
    RestrictedAddress,
    /// The host name could not be looked up.
    ResolutionFailed,
    /// The host name resolved to no address.
    Unresolved,
    /// The host name resolves to a private or otherwise restricted address.
    ResolvesToRestricted,
}

impl UrlGuardError {
    /// The human-readable description of the error.
    pub open spec fn spec_message(self) -> Seq<char> {
        match self {
            UrlGuardError::InvalidUrl => "instance_url is not a valid URL"@,
            UrlGuardError::UnsupportedScheme => "instance_url must use https (http is only allowed for localhost)"@,
            UrlGuardError::MissingHost => "instance_url must include a host"@,
            UrlGuardError::HttpNotLocalhost => "instance_url over http is only allowed for localhost"@,
            UrlGuardError::RestrictedAddress => "instance_url must not target a private or restricted IP address"@,
            UrlGuardError::ResolutionFailed => "instance_url DNS resolution failed"@,
            UrlGuardError::Unresolved => "instance_url host could not be resolved"@,
            UrlGuardError::ResolvesToRestricted => "instance_url must not resolve to a private or restricted IP address"@,
        }
    }

    /// The human-readable description of the error.
    pub fn message(&self) -> (m: &'static str)
        ensures
            m@ == self.spec_message(),
    {
        match self {
            UrlGuardError::InvalidUrl => "instance_url is not a valid URL",
            UrlGuardError::UnsupportedScheme => "instance_url must use https (http is only allowed for localhost)",
            UrlGuardError::MissingHost => "instance_url must include a host",
            UrlGuardError::HttpNotLocalhost => "instance_url over http is only allowed for localhost",
            UrlGuardError::RestrictedAddress => "instance_url must not target a private or restricted IP address",
            UrlGuardError::ResolutionFailed => "instance_url DNS resolution failed",
            UrlGuardError::Unresolved => "instance_url host could not be resolved",
            UrlGuardError::ResolvesToRestricted => "instance_url must not resolve to a private or restricted IP address",
        }
    }
}

/// What looking up an instance host gave: the host is an IP literal, or the
/// addresses it resolves to, or the lookup failed.
#[derive(Debug)]
pub enum HostLookup {
    Literal(IpAddr),
    Resolved(Vec<IpAddr>),
    Failed,
}

/// The outcome of [`validate_resolved_host`].
pub open spec fn spec_validate_resolved_host(lookup: HostLookup) -> Result<(), UrlGuardError> {
    match lookup {
        HostLookup::Literal(ip) => if spec_blocked_ip(ip) {
            Err(UrlGuardError::RestrictedAddress)
        } else {
            Ok(())
        },
        HostLookup::Failed => Err(UrlGuardError::ResolutionFailed),
        HostLookup::Resolved(addrs) => if addrs@.len() == 0 {
            Err(UrlGuardError::Unresolved)
        } else if exists|i: int| 0 <= i < addrs@.len() && spec_blocked_ip(#[trigger] addrs@[i]) {
            Err(UrlGuardError::ResolvesToRestricted)
        } else {
            Ok(())
        },
    }
}

/// Decides on the addresses of an instance host: a literal must not be blocked,
/// and a host name must resolve to at least one address, none of them blocked.
pub fn validate_resolved_host(lookup: &HostLookup) -> (res: Result<(), UrlGuardError>)
    ensures
        res == spec_validate_resolved_host(*lookup),
{
    match lookup {
        HostLookup::Literal(ip) => {
            if is_restricted_ip(*ip) && !is_localhost_ip(*ip) {
                return Err(UrlGuardError::RestrictedAddress);
            }
            Ok(())
        },
        HostLookup::Failed => Err(UrlGuardError::ResolutionFailed),
        HostLookup::Resolved(addrs) => {
            if addrs.len() == 0 {
                return Err(UrlGuardError::Unresolved);
            }
            let mut i: usize = 0;
            while i < addrs.len()
                invariant
                    *lookup == HostLookup::Resolved(*addrs),
                    addrs@.len() > 0,
                    i <= addrs@.len(),
                    forall|k: int| 0 <= k < i ==> !spec_blocked_ip(#[trigger] addrs@[k]),
                decreases addrs.len() - i,
            {
                let ip = addrs[i];
                if is_restricted_ip(ip) && !is_localhost_ip(ip) {
                    assert(spec_blocked_ip(addrs@[i as int]));
                    return Err(UrlGuardError::ResolvesToRestricted);
                }
                i = i + 1;
            }
            Ok(())
        },
    }
}

/// The outcome of [`instance_url_host`]: the host of `raw`, once its URL, scheme and
/// host pass the checks that need no lookup.
pub open spec fn spec_instance_url_host(raw: Seq<char>) -> Result<Seq<char>, UrlGuardError> {
    match url_parsed(raw) {
        None => Err(UrlGuardError::InvalidUrl),
        Some(u) => if u.1 != "https"@ && u.1 != "http"@ {
            Err(UrlGuardError::UnsupportedScheme)
        } else {
            match u.2 {
                None => Err(UrlGuardError::MissingHost),
                Some(host) => if u.1 == "http"@ && !spec_is_localhost_host(host) {
                    Err(UrlGuardError::HttpNotLocalhost)
                } else {
                    Ok(host)
                },
            }
        },
    }
}

/// Parses `raw` and returns the host to look up: the scheme must be `https`, or
/// `http` for localhost only, and the URL must have a host.
pub fn instance_url_host(raw: &str) -> (res: Result<String, UrlGuardError>)
    ensures
        result_str_view(res) == spec_instance_url_host(raw@),
{
    let parsed = match parse_url(raw) {
        Some(p) => p,
        None => return Err(UrlGuardError::InvalidUrl),
    };
    let is_https = str_eq(parsed.scheme.as_str(), "https");
    let is_http = str_eq(parsed.scheme.as_str(), "http");
    if !is_https && !is_http {
        return Err(UrlGuardError::UnsupportedScheme);
    }
    let host = match parsed.host {
        Some(h) => h,
        None => return Err(UrlGuardError::MissingHost),
    };
    if is_http && !is_localhost_host(host.as_str()) {
        return Err(UrlGuardError::HttpNotLocalhost);
    }
    Ok(host)
}

/// The outcome of [`validate_instance_url`], where `lookup` is what looking up
/// the URL's host gave.
pub open spec fn spec_validate_instance_url(raw: Seq<char>, lookup: HostLookup) -> Result<(), UrlGuardError> {
    match spec_instance_url_host(raw) {
        Err(e) => Err(e),
        Ok(_) => spec_validate_resolved_host(lookup),
    }
}

/// Validates an instance URL: its scheme and host (see [`instance_url_host`]), then
/// the addresses of its host (see [`validate_resolved_host`]).
pub fn validate_instance_url(raw: &str, lookup: &HostLookup) -> (res: Result<(), UrlGuardError>)
    ensures
        res == spec_validate_instance_url(raw@, *lookup),
{
    instance_url_host(raw)?;
    validate_resolved_host(lookup)
}

/// `raw` without surrounding white space and without trailing `/`.
pub open spec fn spec_trim_instance_url(raw: Seq<char>) -> Seq<char> {
    trim_end_char(trim_ws(raw), '/')
}

/// `raw` without surrounding white space and without trailing `/`: the form in
/// which an instance URL is validated and kept.
pub fn trim_instance_url(raw: &str) -> (res: String)
    ensures
        res@ == spec_trim_instance_url(raw@),
{
    let t = trim(raw);
    let j = trimmed_end_len(&t, '/');
    string_from_range(&t, 0, j)
}

/// The outcome of [`normalize_instance_url`].
pub open spec fn spec_normalize_instance_url(raw: Seq<char>, lookup: HostLookup) -> Result<
    Seq<char>,
    UrlGuardError,
> {
    match spec_validate_instance_url(spec_trim_instance_url(raw), lookup) {
        Err(e) => Err(e),
        Ok(_) => Ok(spec_trim_instance_url(raw)),
    }
}

/// Returns the validated instance URL, trimmed and without trailing `/`.
///
/// `lookup` is what looking up the host of the trimmed URL gave (see
/// [`trim_instance_url`] and [`instance_url_host`]).
pub fn normalize_instance_url(raw: &str, lookup: &HostLookup) -> (res: Result<String, UrlGuardError>)
    ensures
        result_str_view(res) == spec_normalize_instance_url(raw@, *lookup),
{
    let trimmed = trim_instance_url(raw);
    validate_instance_url(trimmed.as_str(), lookup)?;
    Ok(trimmed)
}

/// What is checked of an instance URL before any lookup: it must parse; its
/// scheme must be `https`, or `http` for the hosts `localhost`, `127.0.0.1` and
/// `::1` only; it must have a host, which is what is then looked up.
pub proof fn lemma_instance_url_host_decision(raw: Seq<char>)
    ensures
        url_parsed(raw) is None ==> spec_instance_url_host(raw) == Err::<Seq<char>, UrlGuardError>(
            UrlGuardError::InvalidUrl,
        ),
        url_parsed(raw) matches Some(u) ==> {
            &&& (u.1 != "https"@ && u.1 != "http"@) ==> spec_instance_url_host(raw) == Err::<
                Seq<char>,
                UrlGuardError,
            >(UrlGuardError::UnsupportedScheme)
            &&& (u.1 == "https"@ || u.1 == "http"@) && u.2 is None ==> spec_instance_url_host(raw)
                == Err::<Seq<char>, UrlGuardError>(UrlGuardError::MissingHost)
            &&& u.1 == "https"@ ==> (u.2 matches Some(h) ==> spec_instance_url_host(raw) == Ok::<
                Seq<char>,
                UrlGuardError,
            >(h))
            &&& u.1 == "http"@ ==> (u.2 matches Some(h) ==> spec_instance_url_host(raw) == if h
                == "localhost"@ || h == "127.0.0.1"@ || h == "::1"@ {
                Ok::<Seq<char>, UrlGuardError>(h)
            } else {
                Err::<Seq<char>, UrlGuardError>(UrlGuardError::HttpNotLocalhost)
            })
        },
{
    reveal_strlit("https");
    reveal_strlit("http");
    assert("https"@.len() != "http"@.len());
}

proof fn lemma_trim_slashes_shape(s: Seq<char>)
    ensures
        trim_end_char(s, '/').len() <= s.len(),
        s == trim_end_char(s, '/') + Seq::new(
            (s.len() - trim_end_char(s, '/').len()) as nat,
            |i: int| '/',
        ),
        trim_end_char(s, '/').len() > 0 ==> trim_end_char(s, '/').last() != '/',
    decreases s.len(),
{
    if s.len() > 0 && s.last() == '/' {
        lemma_trim_slashes_shape(s.drop_last());
        let r = trim_end_char(s.drop_last(), '/');
        let k = (s.len() - 1 - r.len()) as nat;
        let f = |i: int| '/';
        assert(s.drop_last() == r + Seq::new(k, f));
        assert(s =~= s.drop_last().push(s.last()));
        assert(Seq::new(k + 1, f) =~= Seq::new(k, f).push('/'));
        assert((r + Seq::new(k, f)).push('/') =~= r + Seq::new(k, f).push('/'));
    } else {
        assert(s =~= s + Seq::new(0, |i: int| '/'));
    }
}

/// The kept form of an instance URL is the URL without surrounding white space
/// with only its trailing `/` removed: it does not end with `/`, and putting the
/// removed `/` back gives the trimmed URL.
pub proof fn lemma_trim_instance_url_shape(raw: Seq<char>)
    ensures
        ({
            let r = spec_trim_instance_url(raw);
            &&& r.len() > 0 ==> r.last() != '/'
            &&& r.len() <= trim_ws(raw).len()
            &&& trim_ws(raw) == r + Seq::new((trim_ws(raw).len() - r.len()) as nat, |i: int| '/')
        }),
{
    lemma_trim_slashes_shape(trim_ws(raw));
}

/// An accepted instance URL never leads to a blocked address: a literal host is
/// not blocked, and every address a host name resolves to is not blocked.
pub proof fn lemma_accepted_instance_is_reachable_safely(raw: Seq<char>, lookup: HostLookup)
    requires
        spec_validate_instance_url(raw, lookup) is Ok,
    ensures
        spec_instance_url_host(raw) is Ok,
        lookup matches HostLookup::Literal(ip) ==> !spec_blocked_ip(ip),
        lookup matches HostLookup::Resolved(addrs) ==> addrs@.len() > 0 && forall|i: int|
            0 <= i < addrs@.len() ==> !spec_blocked_ip(#[trigger] addrs@[i]),
        !(lookup is Failed),
        url_parsed(raw)->Some_0.1 == "http"@ ==> spec_is_localhost_host(
            spec_instance_url_host(raw)->Ok_0,
        ),
{
}

} // verus!
