# auth_core

Building blocks for signing users in with Git hosting services and for calling
their APIs, verified with Verus.

- `src/` is the verified library:
  - `text`: character-level string helpers (trimming, searching, decimal forms);
  - `encoding`: base64url without padding (with a proof that it is injective),
    SHA-256, UTF-8 and random bytes;
  - `pkce`: PKCE pairs (S256) and OAuth state values;
  - `crypto`: AES-256-GCM token encryption under an HKDF-SHA256 key; a token
    that `encrypt_token` returns provably decrypts to its plaintext;
  - `state`: state-store keys, the open-redirect checks of `redirect_after`,
    and same-origin frontend redirects;
  - `weburl`: URL parsing and joining by the `url` crate, seen as plain values;
  - `url_guard`: SSRF checks of self-hosted instance URLs, on the outcome of a
    host lookup;
  - `provider`, `client`, `github`, `gitlab`: provider endpoints, the PKCE
    authorize URL, OIDC discovery, token answers and normalized user info;
  - `forge`, `credentials`, `installation`, `github_app`: the GitHub App
    client: credentials whose debug form hides secrets, the app JWT, API
    requests, pagination, and installation binding checks.
- `app/` does the I/O: HTTP through `reqwest`, DNS lookups, the application's
  state store, and the async traits (`OAuthProvider`, `StateStore`,
  `TokenProvider`).
- `tests/` exercises the library on concrete values.
