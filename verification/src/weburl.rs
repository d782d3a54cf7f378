//! URL parsing and joining, done by the `url` crate and seen here as plain values.
use vstd::prelude::*;
use crate::text::opt_str_view;

verus! {

/// What the library reads of a parsed URL: its serialization, scheme, host and origin.
///
/// `origin` is `Some((scheme, host, port))` for a tuple origin and `None` for an
/// opaque one (an opaque origin is never equal to another origin).
pub struct ParsedUrl {
    pub href: String,
    pub scheme: String,
    pub host: Option<String>,
    pub origin: Option<(String, String, u16)>,
}

/// The plain-value picture of a [`ParsedUrl`].
pub type UrlView = (Seq<char>, Seq<char>, Option<Seq<char>>, Option<(Seq<char>, Seq<char>, u16)>);

impl View for ParsedUrl {
    type V = UrlView;

    open spec fn view(&self) -> UrlView {
        (
            self.href@,
            self.scheme@,
            opt_str_view(self.host),
            match self.origin {
                Some(o) => Some((o.0@, o.1@, o.2)),
                None => None,
            },
        )
    }
}

pub open spec fn opt_url_view(o: Option<ParsedUrl>) -> Option<UrlView> {
    match o {
        Some(u) => Some(u@),
        None => None,
    }
}

/// What `url::Url::parse` makes of `input`, as plain values (`None` when it fails).
pub uninterp spec fn url_parsed(input: Seq<char>) -> Option<UrlView>;

/// What `url::Url::join` makes of `input` against the URL that `base` parses to
/// (`None` when either fails).
pub uninterp spec fn url_joined(base: Seq<char>, input: Seq<char>) -> Option<UrlView>;

/// The serialization of the URL that `input` parses to, after
/// `form_urlencoded::Serializer::append_pair(key, value)` on its query
/// (`None` when `input` does not parse).
pub uninterp spec fn url_with_query_pair(input: Seq<char>, key: Seq<char>, value: Seq<char>) -> Option<Seq<char>>;

/// Parses `input` with `url::Url::parse` and reads back its serialization
/// (`as_str`), `scheme`, `host_str` and `origin`.
///
/// Trusted: the result is what `url_parsed` names for `input`; nothing more is
/// claimed of the URL parser.
#[verifier::external_body]
pub(crate) fn parse_url(input: &str) -> (res: Option<ParsedUrl>)
    ensures
        opt_url_view(res) == url_parsed(input@),
{
    let u = url::Url::parse(input).ok()?;
    Some(ParsedUrl {
        href: u.as_str().to_string(),
        scheme: u.scheme().to_string(),
        host: u.host_str().map(String::from),
        origin: match u.origin() {
            url::Origin::Tuple(scheme, host, port) => Some((scheme, host.to_string(), port)),
            url::Origin::Opaque(_) => None,
        },
    })
}

/// Parses `base` with `url::Url::parse`, resolves `input` against it with
/// `url::Url::join`, and reads back the result as [`parse_url`] does.
///
/// Trusted: the result is what `url_joined` names for the two inputs.
#[verifier::external_body]
pub(crate) fn join_url(base: &str, input: &str) -> (res: Option<ParsedUrl>)
    ensures
        opt_url_view(res) == url_joined(base@, input@),
{
    let u = url::Url::parse(base).ok()?.join(input).ok()?;
    Some(ParsedUrl {
        href: u.as_str().to_string(),
        scheme: u.scheme().to_string(),
        host: u.host_str().map(String::from),
        origin: match u.origin() {
            url::Origin::Tuple(scheme, host, port) => Some((scheme, host.to_string(), port)),
            url::Origin::Opaque(_) => None,
        },
    })
}

/// Parses `input` with `url::Url::parse`, appends the pair `key=value` to its
/// query with `Url::query_pairs_mut().append_pair`, and returns the serialization.
///
/// Trusted: the result is what `url_with_query_pair` names for the three inputs.
#[verifier::external_body]
pub(crate) fn append_query_pair(input: &str, key: &str, value: &str) -> (res: Option<String>)
    ensures
        opt_str_view(res) == url_with_query_pair(input@, key@, value@),
{
    let mut u = url::Url::parse(input).ok()?;
    u.query_pairs_mut().append_pair(key, value);
    Some(u.as_str().to_string())
}

} // verus!
