//! Credentials of a GitHub App, with a debug form that leaves their secrets out.
use vstd::prelude::*;
use crate::text::concat3;

verus! {

/// The debug form of a string: quoted, with special characters escaped
/// (what `{:?}` prints for a `str`).
pub uninterp spec fn str_debug(s: Seq<char>) -> Seq<char>;

/// Formats `s` with `{:?}`.
///
/// Trusted: the result is what `str_debug` names for `s`; nothing more is
/// claimed of std's escaping.
#[verifier::external_body]
pub(crate) fn debug_str(s: &str) -> (res: String)
    ensures
        res@ == str_debug(s@),
{
    format!("{:?}", s)
}

/// The credentials of a GitHub App used to sign app JWTs.
pub struct GithubAppCredentials {
    pub app_id: String,
    /// RSA private key, PEM encoded.
    pub private_key_pem: String,
}

impl Clone for GithubAppCredentials {
    fn clone(&self) -> (r: Self)
        ensures
            r == *self,
    {
        GithubAppCredentials { app_id: self.app_id.clone(), private_key_pem: self.private_key_pem.clone() }
    }
}

/// The debug form of credentials whose app id is `app_id`.
pub open spec fn spec_app_credentials_debug(app_id: Seq<char>) -> Seq<char> {
    "GithubAppCredentials { app_id: "@ + str_debug(app_id) + ", private_key_pem: \"<redacted>\" }"@
}

impl GithubAppCredentials {
    pub fn new(app_id: String, private_key_pem: String) -> (c: Self)
        ensures
            c.app_id@ == app_id@,
            c.private_key_pem@ == private_key_pem@,
    {
        GithubAppCredentials { app_id, private_key_pem }
    }

    /// The debug form of the credentials; the private key is shown as `<redacted>`.
    pub fn redacted_debug(&self) -> (s: String)
        ensures
            s@ == spec_app_credentials_debug(self.app_id@),
    {
        let id = debug_str(self.app_id.as_str());
        concat3("GithubAppCredentials { app_id: ", id.as_str(), ", private_key_pem: \"<redacted>\" }")
    }
}

/// The credentials of a GitHub App for user authorization at installation
/// (the client id and secret of the app's OAuth settings).
pub struct GithubAppOAuthCredentials {
    pub client_id: String,
    pub client_secret: String,
}

impl Clone for GithubAppOAuthCredentials {
    fn clone(&self) -> (r: Self)
        ensures
            r == *self,
    {
        GithubAppOAuthCredentials { client_id: self.client_id.clone(), client_secret: self.client_secret.clone() }
    }
}

/// The debug form of OAuth credentials whose client id is `client_id`.
pub open spec fn spec_oauth_credentials_debug(client_id: Seq<char>) -> Seq<char> {
    "GithubAppOAuthCredentials { client_id: "@ + str_debug(client_id) + ", client_secret: \"<redacted>\" }"@
}

impl GithubAppOAuthCredentials {
    pub fn new(client_id: String, client_secret: String) -> (c: Self)
        ensures
            c.client_id@ == client_id@,
            c.client_secret@ == client_secret@,
    {
        GithubAppOAuthCredentials { client_id, client_secret }
    }

    /// The debug form of the credentials; the client secret is shown as `<redacted>`.
    pub fn redacted_debug(&self) -> (s: String)
        ensures
            s@ == spec_oauth_credentials_debug(self.client_id@),
    {
        let id = debug_str(self.client_id.as_str());
        concat3("GithubAppOAuthCredentials { client_id: ", id.as_str(), ", client_secret: \"<redacted>\" }")
    }
}

/// The debug form of credentials does not depend on their secret: two
/// credentials with the same id print the same, whatever their keys.
pub proof fn lemma_debug_hides_secrets(a: GithubAppCredentials, b: GithubAppCredentials, c: GithubAppOAuthCredentials, d: GithubAppOAuthCredentials)
    requires
        a.app_id@ == b.app_id@,
        c.client_id@ == d.client_id@,
    ensures
        spec_app_credentials_debug(a.app_id@) == spec_app_credentials_debug(b.app_id@),
        spec_oauth_credentials_debug(c.client_id@) == spec_oauth_credentials_debug(d.client_id@),
{
}

} // verus!
