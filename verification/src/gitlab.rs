//! The GitLab OAuth login providers: gitlab.com and self-hosted instances.
use vstd::prelude::*;
use crate::provider::{ProviderEndpoints, ProviderUserInfo, scopes_view};
use crate::text::{concat, to_string};
use crate::url_guard::{HostLookup, UrlGuardError, normalize_instance_url, spec_normalize_instance_url};

verus! {

/// Identifier of the gitlab.com provider in configuration and storage.
pub const SLUG: &'static str = "gitlab";

/// Identifier of the self-hosted GitLab provider.
pub const SELF_HOSTED_SLUG: &'static str = "gitlab_selfhosted";

/// The base URL of gitlab.com.
pub const GITLAB_COM: &'static str = "https://gitlab.com";

/// The gitlab.com OAuth login provider.
#[derive(Debug, Clone, Default)]
pub struct GitlabProvider;

/// The OAuth login provider of a self-hosted GitLab instance.
#[derive(Debug, Clone)]
pub struct GitlabSelfHostedProvider {
    instance_url: String,
}

/// The scopes requested from GitLab.
pub open spec fn gitlab_scopes() -> Seq<Seq<char>> {
    seq!["read_user"@]
}

/// The GitLab endpoints under `base`.
pub open spec fn spec_endpoints_for(base: Seq<char>, e: ProviderEndpoints) -> bool {
    &&& e.authorize_url@ == base + "/oauth/authorize"@
    &&& e.token_url@ == base + "/oauth/token"@
    &&& e.userinfo_url@ == base + "/api/v4/user"@
    &&& scopes_view(e.scopes@) == gitlab_scopes()
    &&& !e.use_oidc_id_token
}

/// The GitLab endpoints of the instance at `base`.
pub fn endpoints_for(base: &str) -> (e: ProviderEndpoints)
    ensures
        spec_endpoints_for(base@, e),
{
    let scopes: Vec<&'static str> = vec!["read_user"];
    assert(scopes_view(scopes@) =~= gitlab_scopes());
    ProviderEndpoints {
        authorize_url: concat(base, "/oauth/authorize"),
        token_url: concat(base, "/oauth/token"),
        userinfo_url: concat(base, "/api/v4/user"),
        scopes,
        use_oidc_id_token: false,
    }
}

/// The normalized GitLab user; the email counts as verified when GitLab
/// reports when it was confirmed.
pub fn gitlab_user_info(
    user_id: String,
    username: String,
    email: Option<String>,
    confirmed_at: Option<String>,
    avatar_url: Option<String>,
) -> (u: ProviderUserInfo)
    ensures
        u.provider_user_id == user_id,
        u.username == username,
        u.email == email,
        u.email_verified == (if confirmed_at is Some { Some(true) } else { None::<bool> }),
        u.avatar_url == avatar_url,
{
    let email_verified = match confirmed_at {
        Some(_) => Some(true),
        None => None,
    };
    ProviderUserInfo { provider_user_id: user_id, email, email_verified, username, avatar_url }
}

impl GitlabProvider {
    /// The provider's identifier, `gitlab`.
    pub fn slug(&self) -> (s: &'static str)
        ensures
            s@ == SLUG@,
    {
        SLUG
    }

    /// The endpoints of gitlab.com.
    pub fn endpoints(&self) -> (e: ProviderEndpoints)
        ensures
            spec_endpoints_for(GITLAB_COM@, e),
    {
        endpoints_for(GITLAB_COM)
    }
}

impl GitlabSelfHostedProvider {
    pub closed spec fn spec_instance_url(&self) -> Seq<char> {
        self.instance_url@
    }

    /// A provider for the instance at `instance_url`, once the URL is validated
    /// and normalized (SSRF defence); `lookup` is what looking up its host gave.
    pub fn new(instance_url: &str, lookup: &HostLookup) -> (res: Result<Self, UrlGuardError>)
        ensures
            match spec_normalize_instance_url(instance_url@, *lookup) {
                Ok(u) => res matches Ok(p) && p.spec_instance_url() == u,
                Err(e) => res matches Err(f) && f == e,
            },
    {
        let url = normalize_instance_url(instance_url, lookup)?;
        Ok(GitlabSelfHostedProvider { instance_url: url })
    }

    /// The normalized instance URL.
    pub fn instance_url(&self) -> (u: &str)
        ensures
            u@ == self.spec_instance_url(),
    {
        self.instance_url.as_str()
    }

    /// The provider's identifier, `gitlab_selfhosted`.
    pub fn slug(&self) -> (s: &'static str)
        ensures
            s@ == SELF_HOSTED_SLUG@,
    {
        SELF_HOSTED_SLUG
    }

    /// The endpoints of the instance.
    pub fn endpoints(&self) -> (e: ProviderEndpoints)
        ensures
            spec_endpoints_for(self.spec_instance_url(), e),
    {
        endpoints_for(self.instance_url.as_str())
    }
}

} // verus!
