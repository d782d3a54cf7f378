//! OAuth `state` keys and the validation of where the user is sent back to.
//!
//! Storing and consuming the state payload is I/O over a store that the
//! application provides; this module holds the key naming and the redirect
//! rules that decide what may be stored and where the browser may go.
use vstd::prelude::*;
use crate::text::{
    result_str_view,
    concat, contains_char, contains_chars, contains_seq, starts_with, starts_with_chars,
    string_from_chars, trim, trim_ws, is_white_space, trim_start_ws, trim_end_ws, trim_end_char,
    trim_start_char, trim_end_matches, trim_start_matches,
};
use crate::weburl::{
    append_query_pair, join_url, parse_url, url_joined, url_parsed,
    url_with_query_pair,
};

verus! {

/// Time to live of a stored OAuth state, in seconds (10 minutes).
pub const STATE_TTL_SECS: u64 = 600;

/// Prefix of every state key in the store.
pub const KEY_PREFIX: &'static str = "oauth:state:";

/// The store key under which the payload of `state` is kept.
pub open spec fn spec_state_key(state: Seq<char>) -> Seq<char> {
    KEY_PREFIX@ + state
}

/// The store key for `state`: `KEY_PREFIX` followed by the state.
pub fn state_key(state: &str) -> (key: String)
    ensures
        key@ == spec_state_key(state@),
{
    concat(KEY_PREFIX, state)
}

/// Why a redirect target was refused.
#[derive(Debug, Clone, Copy, PartialEq, Eq, Structural)]
pub enum RedirectValidationError {
    NotRelative,
    DisallowedPattern,
    OriginMismatch,
    InvalidBase,
}

impl RedirectValidationError {
    /// The human-readable description of the error.
    pub open spec fn spec_message(self) -> Seq<char> {
        match self {
            RedirectValidationError::NotRelative => "redirect path must be a relative path starting with /"@,
            RedirectValidationError::DisallowedPattern => "redirect path contains disallowed characters or patterns"@,
            RedirectValidationError::OriginMismatch => "redirect path must stay on the configured frontend origin"@,
            RedirectValidationError::InvalidBase => "invalid frontend base URL"@,
        }
    }

    /// The human-readable description of the error.
    pub fn message(&self) -> (m: &'static str)
        ensures
            m@ == self.spec_message(),
    {
        match self {
            RedirectValidationError::NotRelative => "redirect path must be a relative path starting with /",
            RedirectValidationError::DisallowedPattern => "redirect path contains disallowed characters or patterns",
            RedirectValidationError::OriginMismatch => "redirect path must stay on the configured frontend origin",
            RedirectValidationError::InvalidBase => "invalid frontend base URL",
        }
    }
}

/// Whether a trimmed path is refused as an open-redirect pattern.
pub open spec fn disallowed_pattern(t: Seq<char>) -> bool {
    ||| starts_with(t, seq!['/', '/'])
    ||| contains_seq(t, seq![':', '/', '/'])
    ||| t.contains(':')
    ||| t.contains('\\')
    ||| t.contains('@')
    ||| contains_seq(t, seq!['.', '.'])
}

/// The outcome of [`sanitize_redirect_path`] on `path`.
pub open spec fn spec_sanitize_redirect_path(path: Seq<char>) -> Result<Seq<char>, RedirectValidationError> {
    let t = trim_ws(path);
    if !starts_with(t, seq!['/']) {
        Err(RedirectValidationError::NotRelative)
    } else if disallowed_pattern(t) {
        Err(RedirectValidationError::DisallowedPattern)
    } else {
        Ok(t)
    }
}

/// Checks `redirect_after` as a relative path and normalizes it (open-redirect defence).
///
/// The path is trimmed; it must then start with `/`, and must not start with
/// `//` nor contain `://`, `:`, `\`, `@` or `..`.
pub fn sanitize_redirect_path(path: &str) -> (res: Result<String, RedirectValidationError>)
    ensures
        result_str_view(res) == spec_sanitize_redirect_path(path@),
{
    let t = trim(path);
    let slash = vec!['/'];
    let two_slashes = vec!['/', '/'];
    let scheme_sep = vec![':', '/', '/'];
    let dot_dot = vec!['.', '.'];
    assert(slash@ == seq!['/']);
    assert(two_slashes@ == seq!['/', '/']);
    assert(scheme_sep@ == seq![':', '/', '/']);
    assert(dot_dot@ == seq!['.', '.']);
    if !starts_with_chars(&t, &slash) {
        return Err(RedirectValidationError::NotRelative);
    }
    if starts_with_chars(&t, &two_slashes) || contains_chars(&t, &scheme_sep)
        || contains_char(&t, ':') || contains_char(&t, '\\') || contains_char(&t, '@')
        || contains_chars(&t, &dot_dot) {
        return Err(RedirectValidationError::DisallowedPattern);
    }
    Ok(string_from_chars(&t))
}

proof fn lemma_trim_start_shape(s: Seq<char>)
    ensures
        trim_start_ws(s).len() <= s.len(),
        trim_start_ws(s) == s.subrange(s.len() - trim_start_ws(s).len(), s.len() as int),
        trim_start_ws(s).len() > 0 ==> !is_white_space(trim_start_ws(s)[0]),
    decreases s.len(),
{
    if s.len() > 0 && is_white_space(s[0]) {
        lemma_trim_start_shape(s.drop_first());
        let r = trim_start_ws(s.drop_first());
        assert(s.drop_first().subrange(s.len() - 1 - r.len(), s.len() - 1) == s.subrange(
            s.len() - r.len(),
            s.len() as int,
        ));
    } else {
        assert(s.subrange(0, s.len() as int) == s);
    }
}

proof fn lemma_trim_end_shape(s: Seq<char>)
    ensures
        trim_end_ws(s).len() <= s.len(),
        trim_end_ws(s) == s.take(trim_end_ws(s).len() as int),
        trim_end_ws(s).len() > 0 ==> !is_white_space(trim_end_ws(s).last()),
    decreases s.len(),
{
    if s.len() > 0 && is_white_space(s.last()) {
        lemma_trim_end_shape(s.drop_last());
        let r = trim_end_ws(s.drop_last());
        assert(s.drop_last().take(r.len() as int) == s.take(r.len() as int));
    } else {
        assert(s.take(s.len() as int) == s);
    }
}

/// Trimming white space twice is the same as trimming it once.
pub proof fn lemma_trim_ws_idempotent(s: Seq<char>)
    ensures
        trim_ws(trim_ws(s)) == trim_ws(s),
{
    let u = trim_start_ws(s);
    let t = trim_end_ws(u);
    lemma_trim_start_shape(s);
    lemma_trim_end_shape(u);
    if t.len() > 0 {
        assert(t[0] == u[0]);
        assert(trim_start_ws(t) == t);
        assert(trim_end_ws(t) == t);
    } else {
        assert(trim_start_ws(t) == t);
        assert(trim_end_ws(t) == t);
    }
}

/// A path that [`sanitize_redirect_path`] accepts is a same-site relative path:
/// it starts with one `/` (not `//`), has no surrounding white space, and holds
/// no `:`, `\`, `@` nor `..`.
pub proof fn lemma_sanitized_path_is_relative(path: Seq<char>)
    requires
        spec_sanitize_redirect_path(path) is Ok,
    ensures
        ({
            let q = spec_sanitize_redirect_path(path)->Ok_0;
            &&& q.len() >= 1
            &&& q[0] == '/'
            &&& !(q.len() >= 2 && q[1] == '/')
            &&& !is_white_space(q.last())
            &&& !q.contains(':')
            &&& !q.contains('\\')
            &&& !q.contains('@')
            &&& forall|i: int| 0 <= i < q.len() - 1 ==> !(#[trigger] q[i] == '.' && q[i + 1] == '.')
        }),
{
    let q = spec_sanitize_redirect_path(path)->Ok_0;
    assert(q == trim_ws(path));
    assert(q.subrange(0, 1)[0] == q[0]);
    lemma_trim_end_shape(trim_start_ws(path));
    if q.len() >= 2 && q[1] == '/' {
        assert(q.subrange(0, 2) =~= seq!['/', '/']);
    }
    assert forall|i: int| 0 <= i < q.len() - 1 implies !(#[trigger] q[i] == '.' && q[i + 1] == '.') by {
        if q[i] == '.' && q[i + 1] == '.' {
            assert(q.subrange(i, i + 2) =~= seq!['.', '.']);
        }
    }
}

/// The sanitizer over all paths: with `t` the path without surrounding white
/// space, a `t` that does not start with `/` is not relative; a `t` that starts
/// with `//` or holds `:`, `\`, `@` or `..` is refused as a disallowed pattern;
/// every other `t` (query strings, fragments, single dots, ...) is accepted as is.
pub proof fn lemma_sanitize_decision(path: Seq<char>)
    ensures
        ({
            let t = trim_ws(path);
            &&& (t.len() == 0 || t[0] != '/') ==> spec_sanitize_redirect_path(path)
                == Err::<Seq<char>, RedirectValidationError>(RedirectValidationError::NotRelative)
            &&& (t.len() >= 1 && t[0] == '/' && ((t.len() >= 2 && t[1] == '/') || t.contains(':')
                || t.contains('\\') || t.contains('@') || (exists|i: int|
                0 <= i < t.len() - 1 && #[trigger] t[i] == '.' && t[i + 1] == '.')))
                ==> spec_sanitize_redirect_path(path)
                == Err::<Seq<char>, RedirectValidationError>(RedirectValidationError::DisallowedPattern)
            &&& (t.len() >= 1 && t[0] == '/' && !(t.len() >= 2 && t[1] == '/') && !t.contains(':')
                && !t.contains('\\') && !t.contains('@') && (forall|i: int|
                0 <= i < t.len() - 1 ==> !(#[trigger] t[i] == '.' && t[i + 1] == '.')))
                ==> spec_sanitize_redirect_path(path) == Ok::<Seq<char>, RedirectValidationError>(t)
        }),
{
    let t = trim_ws(path);
    if t.len() >= 1 {
        assert(t.subrange(0, 1)[0] == t[0]);
        if t[0] == '/' {
            assert(t.subrange(0, 1) =~= seq!['/']);
        }
    }
    if t.len() >= 2 {
        assert(t.subrange(0, 2)[1] == t[1]);
        if t[0] == '/' && t[1] == '/' {
            assert(t.subrange(0, 2) =~= seq!['/', '/']);
        }
    }
    if contains_seq(t, seq![':', '/', '/']) {
        let i = choose|i: int| 0 <= i && i + 3 <= t.len() && #[trigger] t.subrange(i, i + 3) == seq![':', '/', '/'];
        assert(t.subrange(i, i + 3)[0] == t[i]);
        assert(t.contains(':'));
    }
    if contains_seq(t, seq!['.', '.']) {
        let i = choose|i: int| 0 <= i && i + 2 <= t.len() && #[trigger] t.subrange(i, i + 2) == seq!['.', '.'];
        assert(t.subrange(i, i + 2)[0] == t[i]);
        assert(t.subrange(i, i + 2)[1] == t[i + 1]);
    }
    if exists|i: int| 0 <= i < t.len() - 1 && #[trigger] t[i] == '.' && t[i + 1] == '.' {
        let i = choose|i: int| 0 <= i < t.len() - 1 && #[trigger] t[i] == '.' && t[i + 1] == '.';
        assert(t.subrange(i, i + 2) =~= seq!['.', '.']);
    }
}

/// Sanitizing is idempotent: an accepted path is accepted again, unchanged.
pub proof fn lemma_sanitize_idempotent(path: Seq<char>)
    requires
        spec_sanitize_redirect_path(path) is Ok,
    ensures
        spec_sanitize_redirect_path(spec_sanitize_redirect_path(path)->Ok_0)
            == spec_sanitize_redirect_path(path),
{
    lemma_trim_ws_idempotent(path);
}

/// Whether two origins are the same tuple origin (an opaque origin, `None`,
/// equals nothing).
pub open spec fn same_origin(
    a: Option<(Seq<char>, Seq<char>, u16)>,
    b: Option<(Seq<char>, Seq<char>, u16)>,
) -> bool {
    a is Some && a == b
}

/// The outcome of [`build_frontend_redirect`].
pub open spec fn spec_frontend_redirect(frontend_base: Seq<char>, redirect_after: Seq<char>) -> Result<
    Seq<char>,
    RedirectValidationError,
> {
    match spec_sanitize_redirect_path(redirect_after) {
        Err(e) => Err(e),
        Ok(path) => {
            let base_text = trim_end_char(frontend_base, '/');
            match url_parsed(base_text) {
                None => Err(RedirectValidationError::InvalidBase),
                Some(base) => match url_joined(base_text, trim_start_char(path, '/')) {
                    None => Err(RedirectValidationError::InvalidBase),
                    Some(joined) => if same_origin(joined.3, base.3) {
                        Ok(joined.0)
                    } else {
                        Err(RedirectValidationError::OriginMismatch)
                    },
                },
            }
        },
    }
}

/// The frontend URL to send the browser to after login (same origin only).
///
/// The path is sanitized, the base loses its trailing `/`, the path (without its
/// leading `/`) is resolved against the base, and the result must keep the base's origin.
pub fn build_frontend_redirect(frontend_base: &str, redirect_after: &str) -> (res: Result<
    String,
    RedirectValidationError,
>)
    ensures
        result_str_view(res) == spec_frontend_redirect(frontend_base@, redirect_after@),
{
    let path = sanitize_redirect_path(redirect_after)?;
    let base_text = trim_end_matches(frontend_base, '/');
    let base = match parse_url(base_text.as_str()) {
        Some(b) => b,
        None => return Err(RedirectValidationError::InvalidBase),
    };
    let relative = trim_start_matches(path.as_str(), '/');
    let joined = match join_url(base_text.as_str(), relative.as_str()) {
        Some(j) => j,
        None => return Err(RedirectValidationError::InvalidBase),
    };
    let same = match (&joined.origin, &base.origin) {
        (Some(a), Some(b)) => a.0 == b.0 && a.1 == b.1 && a.2 == b.2,
        _ => false,
    };
    if !same {
        return Err(RedirectValidationError::OriginMismatch);
    }
    Ok(joined.href)
}

/// A redirect that [`build_frontend_redirect`] accepts is the resolved URL, and it has
/// the same (tuple) origin as the frontend base.
pub proof fn lemma_frontend_redirect_keeps_origin(frontend_base: Seq<char>, redirect_after: Seq<char>)
    requires
        spec_frontend_redirect(frontend_base, redirect_after) is Ok,
    ensures
        ({
            let base_text = trim_end_char(frontend_base, '/');
            let path = spec_sanitize_redirect_path(redirect_after)->Ok_0;
            &&& spec_sanitize_redirect_path(redirect_after) is Ok
            &&& url_parsed(base_text) is Some
            &&& url_joined(base_text, trim_start_char(path, '/')) is Some
            &&& url_joined(base_text, trim_start_char(path, '/'))->Some_0.3 is Some
            &&& url_joined(base_text, trim_start_char(path, '/'))->Some_0.3
                == url_parsed(base_text)->Some_0.3
            &&& spec_frontend_redirect(frontend_base, redirect_after)->Ok_0
                == url_joined(base_text, trim_start_char(path, '/'))->Some_0.0
        }),
{
}

/// Name of the query parameter that tells the frontend the provider refused the login.
pub const OAUTH_ERROR_PARAM: &'static str = "oauth_error";

/// Value of [`OAUTH_ERROR_PARAM`].
pub const OAUTH_ERROR_VALUE: &'static str = "authorization_failed";

/// The outcome of [`build_frontend_oauth_error_redirect`].
pub open spec fn spec_frontend_oauth_error_redirect(
    frontend_base: Seq<char>,
    redirect_after: Seq<char>,
) -> Result<Seq<char>, RedirectValidationError> {
    match spec_frontend_redirect(frontend_base, redirect_after) {
        Err(e) => Err(e),
        Ok(url) => match url_with_query_pair(url, OAUTH_ERROR_PARAM@, OAUTH_ERROR_VALUE@) {
            None => Err(RedirectValidationError::InvalidBase),
            Some(with_error) => Ok(with_error),
        },
    }
}

/// The frontend redirect for a provider that answered with an error: the same
/// URL as [`build_frontend_redirect`] with `oauth_error=authorization_failed` appended.
pub fn build_frontend_oauth_error_redirect(frontend_base: &str, redirect_after: &str) -> (res:
    Result<String, RedirectValidationError>)
    ensures
        result_str_view(res) == spec_frontend_oauth_error_redirect(frontend_base@, redirect_after@),
{
    let base_url = build_frontend_redirect(frontend_base, redirect_after)?;
    match append_query_pair(base_url.as_str(), OAUTH_ERROR_PARAM, OAUTH_ERROR_VALUE) {
        Some(url) => Ok(url),
        None => Err(RedirectValidationError::InvalidBase),
    }
}

} // verus!
