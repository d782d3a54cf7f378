//! OAuth provider descriptions, the PKCE authorize URL, and OIDC discovery.
//!
//! Fetching documents from a provider is I/O done by the caller; this module
//! builds the URLs it fetches and reads what comes back.
use vstd::prelude::*;
use vstd::utf8::encode_utf8;
use crate::text::{concat, to_string, trim_end_char, trim_end_matches};

verus! {

/// The endpoints of a provider; OIDC discovery may resolve them at run time.
#[derive(Debug, Clone)]
pub struct ProviderEndpoints {
    pub authorize_url: String,
    pub token_url: String,
    pub userinfo_url: String,
    pub scopes: Vec<&'static str>,
    pub use_oidc_id_token: bool,
}

/// The scopes of `e`, as character sequences.
pub open spec fn scopes_view(scopes: Seq<&'static str>) -> Seq<Seq<char>> {
    scopes.map_values(|s: &'static str| s@)
}

/// User information from a provider, normalized.
#[derive(Debug, Clone)]
pub struct ProviderUserInfo {
    pub provider_user_id: String,
    pub email: Option<String>,
    pub email_verified: Option<bool>,
    pub username: String,
    pub avatar_url: Option<String>,
}

/// OAuth client credentials.
#[derive(Debug, Clone)]
pub struct ProviderConfig {
    pub client_id: String,
    pub client_secret: String,
}

/// Whether `b` is left as is by percent-encoding: ASCII letters, digits, `-`, `.`, `_`, `~`.
pub open spec fn is_unreserved_byte(b: u8) -> bool {
    (48 <= b <= 57) || (65 <= b <= 90) || (97 <= b <= 122) || b == 45 || b == 46 || b == 95 || b
        == 126
}

/// The upper-case hexadecimal digit for `d` (`0 <= d < 16`).
pub open spec fn hex_upper(d: int) -> char {
    if d < 10 {
        (48 + d) as char
    } else {
        (55 + d) as char
    }
}

/// Percent-encoding of `bytes`: every byte but the unreserved ones becomes `%XX`
/// with upper-case hex digits.
pub open spec fn percent_encode(bytes: Seq<u8>) -> Seq<char>
    decreases bytes.len(),
{
    if bytes.len() == 0 {
        Seq::empty()
    } else {
        let b = bytes[0];
        let head = if is_unreserved_byte(b) {
            seq![b as char]
        } else {
            seq!['%', hex_upper(b as int / 16), hex_upper(b as int % 16)]
        };
        head + percent_encode(bytes.drop_first())
    }
}

/// Percent-encoding works byte by byte: the encoding of a concatenation is the
/// concatenation of the encodings.
pub proof fn lemma_percent_encode_concat(a: Seq<u8>, b: Seq<u8>)
    ensures
        percent_encode(a + b) == percent_encode(a) + percent_encode(b),
    decreases a.len(),
{
    if a.len() == 0 {
        assert(a + b =~= b);
    } else {
        lemma_percent_encode_concat(a.drop_first(), b);
        assert((a + b).drop_first() =~= a.drop_first() + b);
    }
}

/// A byte is kept as its character when it is an ASCII letter or digit or one of
/// `-`, `.`, `_`, `~`; any other byte becomes `%` and two upper-case hex digits
/// of its value.
pub proof fn lemma_percent_encode_byte(b: u8)
    ensures
        ({
            let c = b as char;
            let kept = ('A' <= c <= 'Z') || ('a' <= c <= 'z') || ('0' <= c <= '9') || c == '-'
                || c == '.' || c == '_' || c == '~';
            &&& kept ==> percent_encode(seq![b]) == seq![c]
            &&& !kept ==> percent_encode(seq![b]) == seq![
                '%',
                "0123456789ABCDEF"@[b as int / 16],
                "0123456789ABCDEF"@[b as int % 16],
            ]
        }),
{
    reveal_strlit("0123456789ABCDEF");
    assert(seq![b].drop_first() =~= Seq::<u8>::empty());
    let c = b as char;
    assert(is_unreserved_byte(b) == (('A' <= c <= 'Z') || ('a' <= c <= 'z') || ('0' <= c <= '9') || c == '-'
                || c == '.' || c == '_' || c == '~'));
    assert(hex_upper(b as int / 16) == "0123456789ABCDEF"@[b as int / 16]);
    assert(hex_upper(b as int % 16) == "0123456789ABCDEF"@[b as int % 16]);
    assert(percent_encode(Seq::<u8>::empty()) == Seq::<char>::empty());
    if is_unreserved_byte(b) {
        assert(percent_encode(seq![b]) =~= seq![c]);
    } else {
        assert(percent_encode(seq![b]) =~= seq!['%', hex_upper(b as int / 16), hex_upper(b as int % 16)]);
    }
}

/// `s` percent-encoded as UTF-8.
pub open spec fn url_encoded(s: Seq<char>) -> Seq<char> {
    percent_encode(encode_utf8(s))
}

/// Percent-encodes `s` with `urlencoding::encode`.
///
/// Trusted: the crate documents that it percent-encodes every byte of the UTF-8
/// text except alphanumerics and `-`, `_`, `.`, `~`, with upper-case hex digits.
#[verifier::external_body]
pub(crate) fn url_encode(s: &str) -> (res: String)
    ensures
        res@ == url_encoded(s@),
{
    urlencoding::encode(s).into_owned()
}

/// `parts` joined with `sep` between consecutive parts.
pub open spec fn join(parts: Seq<Seq<char>>, sep: Seq<char>) -> Seq<char>
    decreases parts.len(),
{
    if parts.len() == 0 {
        Seq::empty()
    } else if parts.len() == 1 {
        parts[0]
    } else {
        join(parts.drop_last(), sep) + sep + parts.last()
    }
}

/// Joining is associative over a split: joining two non-empty lists of parts one
/// after the other is joining each and putting one separator between them.
pub proof fn lemma_join_split(a: Seq<Seq<char>>, b: Seq<Seq<char>>, sep: Seq<char>)
    requires
        a.len() > 0,
        b.len() > 0,
    ensures
        join(a + b, sep) == join(a, sep) + sep + join(b, sep),
    decreases b.len(),
{
    if b.len() == 1 {
        assert((a + b).drop_last() =~= a);
        assert((a + b).last() == b[0]);
    } else {
        lemma_join_split(a, b.drop_last(), sep);
        assert((a + b).drop_last() =~= a + b.drop_last());
        assert((a + b).last() == b.last());
        assert(join(a, sep) + sep + join(b.drop_last(), sep) + sep + b.last() =~= join(a, sep) + sep
            + (join(b.drop_last(), sep) + sep + b.last()));
    }
}

/// The sum of the lengths of the parts.
pub open spec fn total_len(parts: Seq<Seq<char>>) -> int
    decreases parts.len(),
{
    if parts.len() == 0 {
        0
    } else {
        total_len(parts.drop_last()) + parts.last().len()
    }
}

/// The length of a join: the parts' lengths plus one separator between each two.
pub proof fn lemma_join_len(parts: Seq<Seq<char>>, sep: Seq<char>)
    requires
        parts.len() > 0,
    ensures
        join(parts, sep).len() == total_len(parts) + (parts.len() - 1) * sep.len(),
    decreases parts.len(),
{
    if parts.len() > 1 {
        lemma_join_len(parts.drop_last(), sep);
        assert((parts.len() - 1) * sep.len() == (parts.len() - 2) * sep.len() + sep.len()) by (nonlinear_arith);
    } else {
        assert(total_len(parts.drop_last()) == 0);
        assert(parts.last() == parts[0]);
    }
}

/// The scopes joined with single spaces.
pub fn join_scopes(scopes: &Vec<&'static str>) -> (s: String)
    ensures
        s@ == join(scopes_view(scopes@), " "@),
{
    let ghost parts = scopes_view(scopes@);
    let mut s = String::new();
    let mut i: usize = 0;
    while i < scopes.len()
        invariant
            parts == scopes_view(scopes@),
            i <= scopes@.len(),
            s@ == join(parts.take(i as int), " "@),
        decreases scopes.len() - i,
    {
        assert(parts.take(i + 1).drop_last() == parts.take(i as int));
        if i > 0 {
            s.append(" ");
        }
        s.append(scopes[i]);
        i = i + 1;
    }
    assert(parts.take(scopes@.len() as int) == parts);
    s
}

/// The authorize URL for the PKCE authorization-code flow.
pub open spec fn spec_authorize_url(
    authorize_url: Seq<char>,
    scopes: Seq<Seq<char>>,
    client_id: Seq<char>,
    redirect_uri: Seq<char>,
    state: Seq<char>,
    code_challenge: Seq<char>,
) -> Seq<char> {
    authorize_url + "?response_type=code&client_id="@ + url_encoded(client_id)
        + "&redirect_uri="@ + url_encoded(redirect_uri) + "&scope="@ + url_encoded(
        join(scopes, " "@),
    ) + "&state="@ + url_encoded(state) + "&code_challenge="@ + url_encoded(code_challenge)
        + "&code_challenge_method=S256"@
}

/// Builds the authorize URL with PKCE (S256): every parameter is percent-encoded,
/// and the scopes are joined with spaces.
pub fn build_authorize_url(
    endpoints: &ProviderEndpoints,
    client_id: &str,
    redirect_uri: &str,
    state: &str,
    code_challenge: &str,
) -> (url: String)
    ensures
        url@ == spec_authorize_url(
            endpoints.authorize_url@,
            scopes_view(endpoints.scopes@),
            client_id@,
            redirect_uri@,
            state@,
            code_challenge@,
        ),
{
    let scope = join_scopes(&endpoints.scopes);
    let mut url = to_string(endpoints.authorize_url.as_str());
    url.append("?response_type=code&client_id=");
    url.append(url_encode(client_id).as_str());
    url.append("&redirect_uri=");
    url.append(url_encode(redirect_uri).as_str());
    url.append("&scope=");
    url.append(url_encode(scope.as_str()).as_str());
    url.append("&state=");
    url.append(url_encode(state).as_str());
    url.append("&code_challenge=");
    url.append(url_encode(code_challenge).as_str());
    url.append("&code_challenge_method=S256");
    url
}

/// The OIDC discovery document URL of `issuer_url` (trailing `/` dropped).
pub fn oidc_discovery_url(issuer_url: &str) -> (url: String)
    ensures
        url@ == trim_end_char(issuer_url@, '/') + "/.well-known/openid-configuration"@,
{
    let issuer = trim_end_matches(issuer_url, '/');
    concat(issuer.as_str(), "/.well-known/openid-configuration")
}

/// Why an OIDC discovery document was refused.
#[derive(Debug, Clone, Copy, PartialEq, Eq, Structural)]
pub enum DiscoveryError {
    /// The document has no `userinfo_endpoint`.
    MissingUserinfoEndpoint,
}

impl DiscoveryError {
    /// The human-readable description of the error.
    pub open spec fn spec_message(self) -> Seq<char> {
        match self {
            DiscoveryError::MissingUserinfoEndpoint => "OIDC discovery document missing userinfo_endpoint"@,
        }
    }

    /// The human-readable description of the error.
    pub fn message(&self) -> (m: &'static str)
        ensures
            m@ == self.spec_message(),
    {
        match self {
            DiscoveryError::MissingUserinfoEndpoint => "OIDC discovery document missing userinfo_endpoint",
        }
    }
}

/// The scopes requested from an OIDC provider.
pub open spec fn oidc_scopes() -> Seq<Seq<char>> {
    seq!["openid"@, "email"@, "profile"@]
}

/// The endpoints an OIDC discovery document gives; the userinfo endpoint is required.
pub fn endpoints_from_discovery(
    authorization_endpoint: String,
    token_endpoint: String,
    userinfo_endpoint: Option<String>,
) -> (res: Result<ProviderEndpoints, DiscoveryError>)
    ensures
        match userinfo_endpoint {
            None => res matches Err(e) && e == DiscoveryError::MissingUserinfoEndpoint,
            Some(u) => res matches Ok(e) && {
                &&& e.authorize_url@ == authorization_endpoint@
                &&& e.token_url@ == token_endpoint@
                &&& e.userinfo_url@ == u@
                &&& scopes_view(e.scopes@) == oidc_scopes()
                &&& e.use_oidc_id_token
            },
        },
{
    let userinfo_url = match userinfo_endpoint {
        Some(u) => u,
        None => return Err(DiscoveryError::MissingUserinfoEndpoint),
    };
    let scopes: Vec<&'static str> = vec!["openid", "email", "profile"];
    assert(scopes_view(scopes@) =~= oidc_scopes());
    Ok(ProviderEndpoints {
        authorize_url: authorization_endpoint,
        token_url: token_endpoint,
        userinfo_url,
        scopes,
        use_oidc_id_token: true,
    })
}

} // verus!
