//! OAuth 2.0 / OIDC building blocks and a GitHub App client core, verified with Verus.
pub mod text;
pub mod weburl;
pub mod state;
pub mod url_guard;
pub mod forge;
pub mod time;
pub mod installation;
pub mod credentials;
pub mod github_app;
pub mod encoding;
pub mod crypto;
pub mod pkce;
pub mod provider;
pub mod client;
pub mod github;
pub mod gitlab;
