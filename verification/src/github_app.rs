//! A GitHub App as an API client: its configuration, the app JWT, and the
//! requests and answers of each installation operation.
//!
//! Sending the requests is I/O done by the caller; this module decides what is
//! sent and what the answers mean.
use vstd::prelude::*;
use crate::credentials::{GithubAppCredentials, GithubAppOAuthCredentials};
use crate::installation::{
    GithubAppError, InstallationAccessToken, InstallationInfo, INSTALLATIONS_PER_PAGE,
    REPOSITORIES_PER_PAGE,
    INSTALLATIONS_MAX_PAGES, REPOSITORIES_MAX_PAGES, Pager,
};
use crate::forge::Repository;
use crate::time::{Instant, MAX_INSTANT_NANOS, MIN_INSTANT_NANOS, NANOS_PER_SEC};
use crate::text::{result_str_view, concat, concat3, decimal, i64_to_string, to_string, trim_end_char, trim_end_matches, usize_to_string};

verus! {

/// The GitHub API host.
pub const DEFAULT_API_BASE: &'static str = "https://api.github.com";

/// The OAuth token exchange lives on github.com, not on the API host.
pub const DEFAULT_OAUTH_BASE: &'static str = "https://github.com";

/// The User-Agent sent unless the application names itself.
pub const DEFAULT_USER_AGENT: &'static str = "forge-github";

/// The media type asked of the GitHub API.
pub const ACCEPT_GITHUB_JSON: &'static str = "application/vnd.github+json";

/// The media type asked of the OAuth token exchange.
pub const ACCEPT_JSON: &'static str = "application/json";

/// Seconds the app JWT's `iat` is set in the past, against small clock skew.
pub const JWT_BACKDATE_SECS: i64 = 60;

/// Lifetime of the app JWT after now, in seconds (9 minutes).
pub const JWT_LIFETIME_SECS: i64 = 540;

/// The HTTP methods the client uses.
#[derive(Debug, Clone, Copy, PartialEq, Eq, Structural)]
pub enum HttpMethod {
    Get,
    Post,
    Delete,
}

/// A request to the GitHub API: method, URL and headers.
pub struct ApiRequest {
    pub method: HttpMethod,
    pub url: String,
    pub authorization: String,
    pub accept: &'static str,
    pub user_agent: String,
}

/// A form-encoded POST to the OAuth host.
pub struct FormRequest {
    pub url: String,
    pub accept: &'static str,
    pub user_agent: String,
    pub form: Vec<(&'static str, String)>,
}

/// The claims of an app JWT.
#[derive(Debug, Clone, PartialEq, Eq)]
pub struct AppJwtClaims {
    pub iss: String,
    pub iat: i64,
    pub exp: i64,
}

/// Whether the app JWT's times are representable instants for `now`.
pub open spec fn jwt_times_in_range(now: Instant) -> bool {
    &&& MIN_INSTANT_NANOS <= (now.secs - JWT_BACKDATE_SECS) * NANOS_PER_SEC
    &&& (now.secs + JWT_LIFETIME_SECS) * NANOS_PER_SEC + NANOS_PER_SEC - 1 <= MAX_INSTANT_NANOS
}

/// Whether the app JWT's times are representable (see [`jwt_times_in_range`]).
pub fn jwt_times_ok(now: Instant) -> (b: bool)
    ensures
        b == jwt_times_in_range(now),
{
    let iat = (now.secs as i128 - JWT_BACKDATE_SECS as i128) * NANOS_PER_SEC;
    let exp_end = (now.secs as i128 + JWT_LIFETIME_SECS as i128) * NANOS_PER_SEC + NANOS_PER_SEC - 1;
    MIN_INSTANT_NANOS <= iat && exp_end <= MAX_INSTANT_NANOS
}

/// The claims of the app JWT issued at `now`: issued 60 seconds ago, expiring in 9 minutes.
pub fn app_jwt_claims(app_id: &str, now: Instant) -> (c: AppJwtClaims)
    requires
        jwt_times_in_range(now),
    ensures
        c.iss@ == app_id@,
        c.iat == now.secs - JWT_BACKDATE_SECS,
        c.exp == now.secs + JWT_LIFETIME_SECS,
{
    AppJwtClaims { iss: to_string(app_id), iat: now.secs - JWT_BACKDATE_SECS, exp: now.secs + JWT_LIFETIME_SECS }
}

#[verifier::external_type_specification]
#[verifier::external_body]
pub struct ExEncodingKey(jsonwebtoken::EncodingKey);

#[verifier::external_type_specification]
#[verifier::external_body]
pub struct ExJwtError(jsonwebtoken::errors::Error);

/// An RSA signing key together with the PEM text it was read from.
pub struct RsaSigningKey {
    key: jsonwebtoken::EncodingKey,
    pem: String,
}

impl RsaSigningKey {
    /// The PEM text the key was read from.
    pub closed spec fn pem(&self) -> Seq<char> {
        self.pem@
    }
}

/// Whether `jsonwebtoken::EncodingKey::from_rsa_pem` accepts the bytes of `pem`.
pub uninterp spec fn rsa_pem_accepted(pem: Seq<char>) -> bool;

/// The token `jsonwebtoken::encode` makes with an RS256 header, the claims
/// `{iss, iat, exp}` and the key read from `pem` (`None` when signing fails).
pub uninterp spec fn rs256_jwt(pem: Seq<char>, iss: Seq<char>, iat: i64, exp: i64) -> Option<Seq<char>>;

/// Reads an RSA private key from PEM text with `jsonwebtoken::EncodingKey::from_rsa_pem`.
///
/// Trusted: the key is returned exactly when `rsa_pem_accepted` holds of `pem`,
/// and it remembers `pem`.
#[verifier::external_body]
pub(crate) fn read_rsa_key(pem: &str) -> (res: Result<RsaSigningKey, jsonwebtoken::errors::Error>)
    ensures
        res is Ok == rsa_pem_accepted(pem@),
        res matches Ok(k) ==> k.pem() == pem@,
{
    let key = jsonwebtoken::EncodingKey::from_rsa_pem(pem.as_bytes())?;
    Ok(RsaSigningKey { key, pem: pem.to_string() })
}

/// Signs the claims `{iss, iat, exp}` (serialized in that order) with
/// `jsonwebtoken::encode` and an RS256 header.
///
/// Trusted: the result is what `rs256_jwt` names for the key's PEM text and the claims.
#[verifier::external_body]
pub(crate) fn sign_rs256(key: &RsaSigningKey, iss: &str, iat: i64, exp: i64) -> (res: Result<String, jsonwebtoken::errors::Error>)
    ensures
        match res {
            Ok(t) => rs256_jwt(key.pem(), iss@, iat, exp) == Some(t@),
            Err(_) => rs256_jwt(key.pem(), iss@, iat, exp) is None,
        },
{
    let mut claims = serde_json::Map::new();
    claims.insert("iss".to_string(), serde_json::Value::from(iss));
    claims.insert("iat".to_string(), serde_json::Value::from(iat));
    claims.insert("exp".to_string(), serde_json::Value::from(exp));
    let header = jsonwebtoken::Header::new(jsonwebtoken::Algorithm::RS256);
    jsonwebtoken::encode(&header, &claims, &key.key)
}

/// The outcome of [`create_app_jwt`].
pub open spec fn spec_create_app_jwt(app_id: Seq<char>, private_key_pem: Seq<char>, now: Instant) -> Result<Seq<char>, GithubAppError> {
    if !rsa_pem_accepted(private_key_pem) {
        Err(GithubAppError::InvalidPrivateKey)
    } else {
        match rs256_jwt(private_key_pem, app_id, (now.secs - JWT_BACKDATE_SECS) as i64, (now.secs + JWT_LIFETIME_SECS) as i64) {
            Some(t) => Ok(t),
            None => Err(GithubAppError::JwtEncoding),
        }
    }
}

/// Issues the app JWT (RS256) at `now`: `iss` is the app id, `iat` 60 seconds
/// before now and `exp` 9 minutes after.
pub fn create_app_jwt(credentials: &GithubAppCredentials, now: Instant) -> (res: Result<String, GithubAppError>)
    requires
        jwt_times_in_range(now),
    ensures
        result_str_view(res) == spec_create_app_jwt(credentials.app_id@, credentials.private_key_pem@, now),
{
    let claims = app_jwt_claims(credentials.app_id.as_str(), now);
    let key = match read_rsa_key(credentials.private_key_pem.as_str()) {
        Ok(k) => k,
        Err(_) => return Err(GithubAppError::InvalidPrivateKey),
    };
    match sign_rs256(&key, claims.iss.as_str(), claims.iat, claims.exp) {
        Ok(t) => Ok(t),
        Err(_) => Err(GithubAppError::JwtEncoding),
    }
}

/// The instant an RFC 3339 timestamp denotes, as `(timestamp, subsec_nanos)`
/// (what `chrono::DateTime::parse_from_rfc3339` reads; `None` when it fails).
pub uninterp spec fn rfc3339_instant(s: Seq<char>) -> Option<(i64, u32)>;

/// Parses an RFC 3339 timestamp with `chrono::DateTime::parse_from_rfc3339`.
///
/// Trusted: the result is what `rfc3339_instant` names for `s`.
#[verifier::external_body]
pub(crate) fn parse_rfc3339(s: &str) -> (res: Option<Instant>)
    ensures
        match res {
            Some(t) => rfc3339_instant(s@) == Some((t.secs, t.nanos)),
            None => rfc3339_instant(s@) is None,
        },
{
    let t = chrono::DateTime::parse_from_rfc3339(s).ok()?;
    Some(Instant { secs: t.timestamp(), nanos: t.timestamp_subsec_nanos() })
}

/// Reads the answer to an installation access token request.
pub fn access_token_from_answer(token: String, expires_at: &str) -> (res: Result<InstallationAccessToken, GithubAppError>)
    ensures
        match rfc3339_instant(expires_at@) {
            Some(t) => res matches Ok(a) && a.token@ == token@ && a.expires_at.secs == t.0 && a.expires_at.nanos == t.1,
            None => res matches Err(e) && e == GithubAppError::InvalidTimestamp,
        },
{
    match parse_rfc3339(expires_at) {
        Some(t) => Ok(InstallationAccessToken { token, expires_at: t }),
        None => Err(GithubAppError::InvalidTimestamp),
    }
}

/// Reads the answer to an installation request.
pub fn installation_from_answer(id: i64, account_login: String, created_at: &str) -> (res: Result<InstallationInfo, GithubAppError>)
    ensures
        match rfc3339_instant(created_at@) {
            Some(t) => res matches Ok(i) && i.id == id && i.account_login@ == account_login@ && i.created_at.secs == t.0 && i.created_at.nanos == t.1,
            None => res matches Err(e) && e == GithubAppError::InvalidTimestamp,
        },
{
    match parse_rfc3339(created_at) {
        Some(t) => Ok(InstallationInfo { id, account_login, created_at: t }),
        None => Err(GithubAppError::InvalidTimestamp),
    }
}

/// The pager of an installation's repository listing: 100 per page, at most 100 pages.
pub fn repositories_pager() -> (p: Pager<Repository>)
    ensures
        p.wf(),
        p.per_page() == REPOSITORIES_PER_PAGE,
        p.max_pages() == REPOSITORIES_MAX_PAGES,
        p.received().len() == 0,
        !p.stopped(),
{
    Pager::new(REPOSITORIES_PER_PAGE, REPOSITORIES_MAX_PAGES)
}

/// The pager of a user's installation listing: 100 per page, at most 100 pages.
pub fn installations_pager() -> (p: Pager<i64>)
    ensures
        p.wf(),
        p.per_page() == INSTALLATIONS_PER_PAGE,
        p.max_pages() == INSTALLATIONS_MAX_PAGES,
        p.received().len() == 0,
        !p.stopped(),
{
    Pager::new(INSTALLATIONS_PER_PAGE, INSTALLATIONS_MAX_PAGES)
}

/// A GitHub App as an API client: where to send requests, as whom, with which keys.
pub struct GithubApp {
    api_base: String,
    oauth_base: String,
    user_agent: String,
    credentials: GithubAppCredentials,
    oauth_credentials: Option<GithubAppOAuthCredentials>,
}

impl Clone for GithubApp {
    fn clone(&self) -> (r: Self)
        ensures
            r == *self,
    {
        GithubApp {
            api_base: self.api_base.clone(),
            oauth_base: self.oauth_base.clone(),
            user_agent: self.user_agent.clone(),
            credentials: self.credentials.clone(),
            oauth_credentials: match &self.oauth_credentials {
                Some(c) => Some(c.clone()),
                None => None,
            },
        }
    }
}

/// A token source for one installation of an app.
pub struct InstallationSource {
    app: GithubApp,
    installation_id: i64,
}

impl Clone for InstallationSource {
    fn clone(&self) -> (r: Self)
        ensures
            r == *self,
    {
        InstallationSource { app: self.app.clone(), installation_id: self.installation_id }
    }
}

impl InstallationSource {
    pub closed spec fn spec_app(&self) -> GithubApp {
        self.app
    }

    pub closed spec fn spec_installation_id(&self) -> i64 {
        self.installation_id
    }

    pub fn installation_id(&self) -> (id: i64)
        ensures
            id == self.spec_installation_id(),
    {
        self.installation_id
    }

    /// The app the installation belongs to.
    pub fn app(&self) -> (a: &GithubApp)
        ensures
            *a == self.spec_app(),
    {
        &self.app
    }
}

impl GithubApp {
    pub closed spec fn spec_api_base(&self) -> Seq<char> {
        self.api_base@
    }

    pub closed spec fn spec_oauth_base(&self) -> Seq<char> {
        self.oauth_base@
    }

    pub closed spec fn spec_user_agent(&self) -> Seq<char> {
        self.user_agent@
    }

    pub closed spec fn spec_credentials(&self) -> GithubAppCredentials {
        self.credentials
    }

    pub closed spec fn spec_oauth_credentials(&self) -> Option<GithubAppOAuthCredentials> {
        self.oauth_credentials
    }

    /// An app client with the default API and OAuth hosts and user agent.
    pub fn new(credentials: GithubAppCredentials) -> (app: Self)
        ensures
            app.spec_api_base() == DEFAULT_API_BASE@,
            app.spec_oauth_base() == DEFAULT_OAUTH_BASE@,
            app.spec_user_agent() == DEFAULT_USER_AGENT@,
            app.spec_credentials() == credentials,
            app.spec_oauth_credentials() is None,
    {
        GithubApp {
            api_base: to_string(DEFAULT_API_BASE),
            oauth_base: to_string(DEFAULT_OAUTH_BASE),
            user_agent: to_string(DEFAULT_USER_AGENT),
            credentials,
            oauth_credentials: None,
        }
    }

    /// Replaces the API base URL (GitHub Enterprise, test stubs); trailing `/` are dropped.
    pub fn with_api_base(self, api_base: &str) -> (app: Self)
        ensures
            app.spec_api_base() == trim_end_char(api_base@, '/'),
            app.spec_oauth_base() == self.spec_oauth_base(),
            app.spec_user_agent() == self.spec_user_agent(),
            app.spec_credentials() == self.spec_credentials(),
            app.spec_oauth_credentials() == self.spec_oauth_credentials(),
    {
        let mut app = self;
        app.api_base = trim_end_matches(api_base, '/');
        app
    }

    /// Replaces the OAuth base URL (user authorization); trailing `/` are dropped.
    pub fn with_oauth_base(self, oauth_base: &str) -> (app: Self)
        ensures
            app.spec_oauth_base() == trim_end_char(oauth_base@, '/'),
            app.spec_api_base() == self.spec_api_base(),
            app.spec_user_agent() == self.spec_user_agent(),
            app.spec_credentials() == self.spec_credentials(),
            app.spec_oauth_credentials() == self.spec_oauth_credentials(),
    {
        let mut app = self;
        app.oauth_base = trim_end_matches(oauth_base, '/');
        app
    }

    /// Sets the credentials used for user authorization at installation.
    pub fn with_oauth_credentials(self, credentials: GithubAppOAuthCredentials) -> (app: Self)
        ensures
            app.spec_oauth_credentials() == Some(credentials),
            app.spec_api_base() == self.spec_api_base(),
            app.spec_oauth_base() == self.spec_oauth_base(),
            app.spec_user_agent() == self.spec_user_agent(),
            app.spec_credentials() == self.spec_credentials(),
    {
        let mut app = self;
        app.oauth_credentials = Some(credentials);
        app
    }

    /// Sets the User-Agent sent with every request.
    pub fn with_user_agent(self, user_agent: String) -> (app: Self)
        ensures
            app.spec_user_agent() == user_agent@,
            app.spec_api_base() == self.spec_api_base(),
            app.spec_oauth_base() == self.spec_oauth_base(),
            app.spec_credentials() == self.spec_credentials(),
            app.spec_oauth_credentials() == self.spec_oauth_credentials(),
    {
        let mut app = self;
        app.user_agent = user_agent;
        app
    }

    /// The app JWT issued at `now` (see [`create_app_jwt`]).
    pub fn app_jwt(&self, now: Instant) -> (res: Result<String, GithubAppError>)
        requires
            jwt_times_in_range(now),
        ensures
            result_str_view(res) == spec_create_app_jwt(
                self.spec_credentials().app_id@,
                self.spec_credentials().private_key_pem@,
                now,
            ),
    {
        create_app_jwt(&self.credentials, now)
    }

    /// The token source for installation `installation_id` of this app.
    pub fn installation(&self, installation_id: i64) -> (s: InstallationSource)
        ensures
            s.spec_app() == *self,
            s.spec_installation_id() == installation_id,
    {
        InstallationSource { app: self.clone(), installation_id }
    }

    /// A request to `path` on the API host, authorized by the bearer token `bearer`.
    pub fn request(&self, method: HttpMethod, path: &str, bearer: &str) -> (r: ApiRequest)
        ensures
            r.method == method,
            r.url@ == self.spec_api_base() + path@,
            r.authorization@ == "Bearer "@ + bearer@,
            r.accept@ == ACCEPT_GITHUB_JSON@,
            r.user_agent@ == self.spec_user_agent(),
    {
        ApiRequest {
            method,
            url: concat(self.api_base.as_str(), path),
            authorization: concat("Bearer ", bearer),
            accept: ACCEPT_GITHUB_JSON,
            user_agent: self.user_agent.clone(),
        }
    }

    /// The request for an access token of installation `installation_id`, authorized by the app JWT.
    pub fn installation_token_request(&self, jwt: &str, installation_id: i64) -> (r: ApiRequest)
        ensures
            r.method == HttpMethod::Post,
            r.url@ == self.spec_api_base() + "/app/installations/"@ + decimal(installation_id as int) + "/access_tokens"@,
            r.authorization@ == "Bearer "@ + jwt@,
            r.accept@ == ACCEPT_GITHUB_JSON@,
            r.user_agent@ == self.spec_user_agent(),
    {
        let id = i64_to_string(installation_id);
        let path = concat3("/app/installations/", id.as_str(), "/access_tokens");
        self.request(HttpMethod::Post, path.as_str(), jwt)
    }

    /// The request for the description of installation `installation_id`.
    pub fn installation_request(&self, jwt: &str, installation_id: i64) -> (r: ApiRequest)
        ensures
            r.method == HttpMethod::Get,
            r.url@ == self.spec_api_base() + "/app/installations/"@ + decimal(installation_id as int),
            r.authorization@ == "Bearer "@ + jwt@,
            r.accept@ == ACCEPT_GITHUB_JSON@,
            r.user_agent@ == self.spec_user_agent(),
    {
        let id = i64_to_string(installation_id);
        let path = concat("/app/installations/", id.as_str());
        self.request(HttpMethod::Get, path.as_str(), jwt)
    }

    /// The request that deletes installation `installation_id`.
    pub fn delete_installation_request(&self, jwt: &str, installation_id: i64) -> (r: ApiRequest)
        ensures
            r.method == HttpMethod::Delete,
            r.url@ == self.spec_api_base() + "/app/installations/"@ + decimal(installation_id as int),
            r.authorization@ == "Bearer "@ + jwt@,
            r.accept@ == ACCEPT_GITHUB_JSON@,
            r.user_agent@ == self.spec_user_agent(),
    {
        let id = i64_to_string(installation_id);
        let path = concat("/app/installations/", id.as_str());
        self.request(HttpMethod::Delete, path.as_str(), jwt)
    }

    /// The request for page `page` of the repositories an installation can access,
    /// authorized by an installation access token.
    pub fn repositories_request(&self, installation_access_token: &str, page: usize) -> (r: ApiRequest)
        ensures
            r.method == HttpMethod::Get,
            r.url@ == self.spec_api_base() + "/installation/repositories?per_page="@
                + decimal(REPOSITORIES_PER_PAGE as int) + "&page="@ + decimal(page as int),
            r.authorization@ == "Bearer "@ + installation_access_token@,
            r.accept@ == ACCEPT_GITHUB_JSON@,
            r.user_agent@ == self.spec_user_agent(),
    {
        let per_page = usize_to_string(REPOSITORIES_PER_PAGE);
        let number = usize_to_string(page);
        let head = concat3("/installation/repositories?per_page=", per_page.as_str(), "&page=");
        let path = concat(head.as_str(), number.as_str());
        self.request(HttpMethod::Get, path.as_str(), installation_access_token)
    }

    /// The request for page `page` of the installations a user can access,
    /// authorized by the user's access token.
    pub fn user_installations_request(&self, user_access_token: &str, page: usize) -> (r: ApiRequest)
        ensures
            r.method == HttpMethod::Get,
            r.url@ == self.spec_api_base() + "/user/installations?per_page="@
                + decimal(INSTALLATIONS_PER_PAGE as int) + "&page="@ + decimal(page as int),
            r.authorization@ == "Bearer "@ + user_access_token@,
            r.accept@ == ACCEPT_GITHUB_JSON@,
            r.user_agent@ == self.spec_user_agent(),
    {
        let per_page = usize_to_string(INSTALLATIONS_PER_PAGE);
        let number = usize_to_string(page);
        let head = concat3("/user/installations?per_page=", per_page.as_str(), "&page=");
        let path = concat(head.as_str(), number.as_str());
        self.request(HttpMethod::Get, path.as_str(), user_access_token)
    }

    /// The form that exchanges a user-authorization `code` for a user access
    /// token; refused when the app has no OAuth credentials.
    pub fn user_code_request(&self, code: &str) -> (res: Result<FormRequest, GithubAppError>)
        ensures
            match self.spec_oauth_credentials() {
                None => res matches Err(e) && e == GithubAppError::OAuthCredentialsMissing,
                Some(c) => res matches Ok(r) && {
                    &&& r.url@ == self.spec_oauth_base() + "/login/oauth/access_token"@
                    &&& r.accept@ == ACCEPT_JSON@
                    &&& r.user_agent@ == self.spec_user_agent()
                    &&& r.form@.len() == 3
                    &&& r.form@[0].0@ == "client_id"@ && r.form@[0].1@ == c.client_id@
                    &&& r.form@[1].0@ == "client_secret"@ && r.form@[1].1@ == c.client_secret@
                    &&& r.form@[2].0@ == "code"@ && r.form@[2].1@ == code@
                },
            },
    {
        let credentials = match &self.oauth_credentials {
            Some(c) => c,
            None => return Err(GithubAppError::OAuthCredentialsMissing),
        };
        let mut form: Vec<(&'static str, String)> = Vec::new();
        form.push(("client_id", credentials.client_id.clone()));
        form.push(("client_secret", credentials.client_secret.clone()));
        form.push(("code", to_string(code)));
        Ok(FormRequest {
            url: concat(self.oauth_base.as_str(), "/login/oauth/access_token"),
            accept: ACCEPT_JSON,
            user_agent: self.user_agent.clone(),
            form,
        })
    }
}

} // verus!
