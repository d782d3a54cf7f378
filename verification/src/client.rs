//! The authorization-code exchange and the standard OIDC userinfo, read into
//! library values.
//!
//! The HTTP round trips are done by the caller: it posts the form built here
//! and hands back the fields of the JSON answer.
use vstd::prelude::*;
use crate::time::{Instant, MIN_INSTANT_NANOS, MAX_INSTANT_NANOS, NANOS_PER_SEC};
use crate::provider::{ProviderConfig, ProviderUserInfo};
use crate::text::to_string;

verus! {

/// The tokens a provider issued; `expires_at` is when the access token expires.
#[derive(Debug, Clone)]
pub struct TokenResponse {
    pub access_token: String,
    pub refresh_token: Option<String>,
    pub expires_at: Option<Instant>,
}

/// Whether `now + secs` is representable (`chrono::Duration::seconds(secs)` and
/// adding it to `now` do not overflow).
pub open spec fn expiry_in_range(now: Instant, secs: i64) -> bool {
    &&& -(i64::MAX / 1000) <= secs <= i64::MAX / 1000
    &&& MIN_INSTANT_NANOS <= (now.secs + secs) * NANOS_PER_SEC + now.nanos <= MAX_INSTANT_NANOS
}

/// Whether `now + secs` is representable (see [`expiry_in_range`]).
pub fn expiry_bounds_ok(now: Instant, secs: i64) -> (b: bool)
    ensures
        b == expiry_in_range(now, secs),
{
    let limit: i64 = i64::MAX / 1000;
    if secs < -limit || secs > limit {
        return false;
    }
    let total = (now.secs as i128 + secs as i128) * NANOS_PER_SEC + now.nanos as i128;
    MIN_INSTANT_NANOS <= total && total <= MAX_INSTANT_NANOS
}

/// The tokens of a token answer received at `now`: the expiry is `expires_in`
/// seconds after `now` when the answer gives one.
pub fn token_response_from(
    access_token: String,
    refresh_token: Option<String>,
    expires_in: Option<i64>,
    now: Instant,
) -> (t: TokenResponse)
    requires
        expires_in matches Some(secs) ==> expiry_in_range(now, secs),
    ensures
        t.access_token == access_token,
        t.refresh_token == refresh_token,
        match expires_in {
            Some(secs) => t.expires_at == Some(Instant { secs: (now.secs + secs) as i64, nanos: now.nanos }),
            None => t.expires_at is None,
        },
{
    let expires_at = match expires_in {
        Some(secs) => {
            assert(now.secs + secs <= i64::MAX) by (nonlinear_arith)
                requires
                    (now.secs + secs) * NANOS_PER_SEC + now.nanos <= MAX_INSTANT_NANOS,
                    now.nanos >= 0,
            ;
            assert(now.secs + secs >= i64::MIN) by (nonlinear_arith)
                requires
                    MIN_INSTANT_NANOS <= (now.secs + secs) * NANOS_PER_SEC + now.nanos,
                    now.nanos < 4_294_967_296,
            ;
            Some(Instant { secs: now.secs + secs, nanos: now.nanos })
        },
        None => None,
    };
    TokenResponse { access_token, refresh_token, expires_at }
}

/// The form that exchanges an authorization `code` for tokens (PKCE: with the
/// code verifier), in the order it is sent.
pub fn token_request_form(
    credentials: &ProviderConfig,
    code: &str,
    redirect_uri: &str,
    code_verifier: &str,
) -> (form: Vec<(&'static str, String)>)
    ensures
        form@.len() == 6,
        form@[0].0@ == "grant_type"@ && form@[0].1@ == "authorization_code"@,
        form@[1].0@ == "code"@ && form@[1].1@ == code@,
        form@[2].0@ == "redirect_uri"@ && form@[2].1@ == redirect_uri@,
        form@[3].0@ == "client_id"@ && form@[3].1@ == credentials.client_id@,
        form@[4].0@ == "client_secret"@ && form@[4].1@ == credentials.client_secret@,
        form@[5].0@ == "code_verifier"@ && form@[5].1@ == code_verifier@,
{
    let mut form: Vec<(&'static str, String)> = Vec::new();
    form.push(("grant_type", to_string("authorization_code")));
    form.push(("code", to_string(code)));
    form.push(("redirect_uri", to_string(redirect_uri)));
    form.push(("client_id", credentials.client_id.clone()));
    form.push(("client_secret", credentials.client_secret.clone()));
    form.push(("code_verifier", to_string(code_verifier)));
    form
}

/// The normalized user of an OIDC userinfo answer: the username is the
/// preferred username, else the name, else the subject.
pub fn oidc_user_info(
    sub: String,
    email: Option<String>,
    email_verified: Option<bool>,
    name: Option<String>,
    preferred_username: Option<String>,
    picture: Option<String>,
) -> (u: ProviderUserInfo)
    ensures
        u.provider_user_id == sub,
        u.email == email,
        u.email_verified == email_verified,
        u.username == match preferred_username {
            Some(p) => p,
            None => match name {
                Some(n) => n,
                None => sub,
            },
        },
        u.avatar_url == picture,
{
    let username = match preferred_username {
        Some(p) => p,
        None => match name {
            Some(n) => n,
            None => sub.clone(),
        },
    };
    ProviderUserInfo { provider_user_id: sub, email, email_verified, username, avatar_url: picture }
}

} // verus!
