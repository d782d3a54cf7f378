//! The GitHub (github.com) OAuth login provider.
use vstd::prelude::*;
use vstd::utf8::{encode_scalar, encode_utf8};
use crate::provider::{ProviderEndpoints, ProviderUserInfo, scopes_view};
use crate::text::{opt_str_view, concat, to_string};

verus! {

/// Identifier of the provider in configuration and storage.
pub const SLUG: &'static str = "github";

/// The User-Agent sent when the application names none (or one that cannot
/// stand in a header).
pub const DEFAULT_USER_AGENT: &'static str = "auth-core";

/// The GitHub OAuth login provider; GitHub's API wants a User-Agent, so the
/// application names itself.
#[derive(Debug, Clone)]
pub struct GithubProvider {
    user_agent: String,
}

/// One entry of GitHub's `/user/emails` answer.
#[derive(Debug, Clone)]
pub struct GithubEmail {
    pub email: String,
    pub primary: bool,
    pub verified: bool,
}

/// Whether every byte of `s` may stand in an HTTP header value: visible ASCII,
/// space, tab, or any byte from 128 on.
pub open spec fn valid_header_value(s: Seq<char>) -> bool {
    forall|i: int|
        0 <= i < encode_utf8(s).len() ==> {
            let b = #[trigger] encode_utf8(s)[i];
            (b >= 32 && b != 127) || b == 9
        }
}

proof fn lemma_encode_utf8_concat(a: Seq<char>, b: Seq<char>)
    ensures
        encode_utf8(a + b) == encode_utf8(a) + encode_utf8(b),
    decreases a.len(),
{
    if a.len() == 0 {
        assert(a + b =~= b);
        assert(encode_utf8(a) + encode_utf8(b) =~= encode_utf8(b));
    } else {
        lemma_encode_utf8_concat(a.drop_first(), b);
        assert((a + b).drop_first() =~= a.drop_first() + b);
        assert((a + b)[0] == a[0]);
        assert(encode_utf8(a + b) =~= encode_scalar(a[0] as u32) + (encode_utf8(a.drop_first())
            + encode_utf8(b)));
    }
}

proof fn lemma_ascii_scalar(c: char)
    requires
        c as u32 <= 0x7f,
    ensures
        encode_scalar(c as u32) == seq![c as u8],
        c as u8 == c as u32,
{
    let v = c as u32;
    assert(v <= 0x7f);
    assert((v & 0x7f) == v) by (bit_vector)
        requires
            v <= 0x7f,
    ;
    assert((v as u8) == v) by (bit_vector)
        requires
            v <= 0x7f,
    ;
    assert(c as u8 == v as u8);
}

/// The UTF-8 encoding of ASCII text is its characters as bytes.
proof fn lemma_ascii_encoding(s: Seq<char>)
    requires
        forall|i: int| 0 <= i < s.len() ==> #[trigger] (s[i] as u32) <= 0x7f,
    ensures
        encode_utf8(s).len() == s.len(),
        forall|i: int| 0 <= i < s.len() ==> encode_utf8(s)[i] == #[trigger] s[i] as u8,
    decreases s.len(),
{
    if s.len() > 0 {
        lemma_ascii_scalar(s[0]);
        let t = s.drop_first();
        assert forall|i: int| 0 <= i < t.len() implies #[trigger] (t[i] as u32) <= 0x7f by {
            assert(t[i] == s[i + 1]);
        }
        lemma_ascii_encoding(t);
        assert forall|i: int| 0 <= i < s.len() implies encode_utf8(s)[i] == #[trigger] s[i] as u8 by {
            if i > 0 {
                assert(t[i - 1] == s[i]);
            }
        }
    }
}

/// An ASCII character of `s` appears as its byte in the UTF-8 encoding of `s`.
proof fn lemma_ascii_char_encoding(s: Seq<char>, i: int)
    requires
        0 <= i < s.len(),
        s[i] as u32 <= 0x7f,
    ensures
        exists|j: int| 0 <= j < encode_utf8(s).len() && encode_utf8(s)[j] == s[i] as u8,
{
    let a = s.take(i);
    let b = s.skip(i);
    assert(s =~= a + b);
    lemma_encode_utf8_concat(a, b);
    lemma_ascii_scalar(b[0]);
    assert(b[0] == s[i]);
    let j = encode_utf8(a).len() as int;
    assert(encode_utf8(b)[0] == s[i] as u8);
    assert(encode_utf8(s)[j] == s[i] as u8);
}

/// Text of visible ASCII characters and spaces (code points 32 to 126) may stand
/// in a header; text with a line break, a NUL, DEL or another control character
/// other than tab may not.
pub proof fn lemma_header_value_characters(s: Seq<char>)
    ensures
        (forall|i: int| 0 <= i < s.len() ==> 32 <= #[trigger] (s[i] as u32) <= 126) ==> valid_header_value(s),
        (exists|i: int| 0 <= i < s.len() && ((#[trigger] (s[i] as u32) < 32 && s[i] as u32 != 9) || s[i] as u32 == 127))
            ==> !valid_header_value(s),
{
    if forall|i: int| 0 <= i < s.len() ==> 32 <= #[trigger] (s[i] as u32) <= 126 {
        assert forall|i: int| 0 <= i < s.len() implies #[trigger] (s[i] as u32) <= 0x7f by {
            assert(32 <= s[i] as u32 <= 126);
        }
        lemma_ascii_encoding(s);
        assert forall|i: int| 0 <= i < encode_utf8(s).len() implies {
            let b = #[trigger] encode_utf8(s)[i];
            (b >= 32 && b != 127) || b == 9
        } by {
            assert(32 <= s[i] as u32 <= 126);
            lemma_ascii_scalar(s[i]);
            assert(encode_utf8(s)[i] == s[i] as u8);
        }
    }
    if exists|i: int| 0 <= i < s.len() && ((#[trigger] (s[i] as u32) < 32 && s[i] as u32 != 9) || s[i] as u32 == 127) {
        let i = choose|i: int| 0 <= i < s.len() && ((#[trigger] (s[i] as u32) < 32 && s[i] as u32 != 9) || s[i] as u32 == 127);
        lemma_ascii_scalar(s[i]);
        lemma_ascii_char_encoding(s, i);
        let j = choose|j: int| 0 <= j < encode_utf8(s).len() && encode_utf8(s)[j] == s[i] as u8;
        assert(!((encode_utf8(s)[j] >= 32 && encode_utf8(s)[j] != 127) || encode_utf8(s)[j] == 9));
    }
}

/// Whether `reqwest::header::HeaderValue::from_str` accepts `s`.
///
/// Trusted: the `http` crate accepts a string exactly when each of its bytes is
/// at least 32 and not 127, or is a tab.
#[verifier::external_body]
pub(crate) fn header_value_ok(s: &str) -> (b: bool)
    ensures
        b == valid_header_value(s@),
{
    reqwest::header::HeaderValue::from_str(s).is_ok()
}

/// The header values sent with each GitHub API call.
pub struct GithubHeaders {
    pub authorization: String,
    pub accept: &'static str,
    pub user_agent: String,
}

/// The scopes requested from GitHub.
pub open spec fn github_scopes() -> Seq<Seq<char>> {
    seq!["read:user"@, "user:email"@]
}

/// The email a user is known by: the verified primary email, else the first
/// verified email; unverified emails are never used (they could claim another
/// person's address).
pub open spec fn spec_pick_verified_email(emails: Seq<GithubEmail>) -> (Option<Seq<char>>, Option<bool>) {
    if exists|i: int| 0 <= i < emails.len() && emails[i].verified && emails[i].primary {
        let i = choose|i: int|
            0 <= i < emails.len() && emails[i].verified && emails[i].primary && forall|k: int|
                0 <= k < i ==> !(emails[k].verified && emails[k].primary);
        (Some(emails[i].email@), Some(true))
    } else if exists|i: int| 0 <= i < emails.len() && emails[i].verified {
        let i = choose|i: int|
            0 <= i < emails.len() && emails[i].verified && forall|k: int|
                0 <= k < i ==> !emails[k].verified;
        (Some(emails[i].email@), Some(true))
    } else {
        (None, None)
    }
}

/// The first index in `emails` whose entry is verified, and primary too when
/// `want_primary`.
fn first_verified(emails: &Vec<GithubEmail>, want_primary: bool) -> (r: Option<usize>)
    ensures
        match r {
            Some(i) => i < emails@.len() && emails@[i as int].verified && (want_primary
                ==> emails@[i as int].primary) && forall|k: int|
                0 <= k < i ==> !(emails@[k].verified && (want_primary ==> emails@[k].primary)),
            None => forall|k: int|
                0 <= k < emails@.len() ==> !(emails@[k].verified && (want_primary
                    ==> emails@[k].primary)),
        },
{
    let mut i: usize = 0;
    while i < emails.len()
        invariant
            i <= emails@.len(),
            forall|k: int|
                0 <= k < i ==> !(emails@[k].verified && (want_primary ==> emails@[k].primary)),
        decreases emails.len() - i,
    {
        if emails[i].verified && (!want_primary || emails[i].primary) {
            return Some(i);
        }
        i = i + 1;
    }
    None
}

/// Picks the email to trust (see [`spec_pick_verified_email`]).
pub fn pick_verified_email(emails: &Vec<GithubEmail>) -> (r: (Option<String>, Option<bool>))
    ensures
        (opt_str_view(r.0), r.1) == spec_pick_verified_email(emails@),
{
    let pick = match first_verified(emails, true) {
        Some(i) => {
            let ghost j = choose|j: int|
                0 <= j < emails@.len() && emails@[j].verified && emails@[j].primary && forall|k: int|
                    0 <= k < j ==> !(emails@[k].verified && emails@[k].primary);
            assert(emails@[i as int].verified && emails@[i as int].primary);
            assert(j == i) by {
                if j < i {
                    assert(!(emails@[j].verified && emails@[j].primary));
                }
                if j > i {
                    assert(!(emails@[i as int].verified && emails@[i as int].primary));
                }
            }
            Some(i)
        },
        None => {
            assert(!exists|i: int| 0 <= i < emails@.len() && emails@[i].verified && emails@[i].primary);
            match first_verified(emails, false) {
                Some(i) => {
                    let ghost j = choose|j: int|
                        0 <= j < emails@.len() && emails@[j].verified && forall|k: int|
                            0 <= k < j ==> !emails@[k].verified;
                    assert(emails@[i as int].verified);
                    assert(j == i) by {
                        if j < i {
                            assert(!(emails@[j].verified && (false ==> emails@[j].primary)));
                        }
                        if j > i {
                            assert(!emails@[i as int].verified);
                        }
                    }
                    Some(i)
                },
                None => {
                    assert forall|i: int| 0 <= i < emails@.len() implies !emails@[i].verified by {
                        assert(!(emails@[i].verified && (false ==> emails@[i].primary)));
                    }
                    None
                },
            }
        },
    };
    match pick {
        Some(i) => (Some(emails[i].email.clone()), Some(true)),
        None => (None, None),
    }
}

/// An email is reported only when some verified email exists, and the one
/// reported is verified (and primary whenever a verified primary exists).
pub proof fn lemma_picked_email_is_verified(emails: Seq<GithubEmail>)
    ensures
        spec_pick_verified_email(emails).0 is Some <==> exists|i: int|
            0 <= i < emails.len() && emails[i].verified,
        spec_pick_verified_email(emails).0 is Some ==> spec_pick_verified_email(emails).1 == Some(true),
        spec_pick_verified_email(emails).0 is None ==> spec_pick_verified_email(emails).1 is None,
        spec_pick_verified_email(emails).0 matches Some(e) ==> exists|i: int|
            0 <= i < emails.len() && emails[i].verified && emails[i].email@ == e,
        (exists|i: int| 0 <= i < emails.len() && emails[i].verified && emails[i].primary)
            ==> exists|i: int|
            0 <= i < emails.len() && emails[i].verified && emails[i].primary
                && spec_pick_verified_email(emails).0 == Some(emails[i].email@),
{
    if exists|i: int| 0 <= i < emails.len() && emails[i].verified && emails[i].primary {
        let w = choose|i: int| 0 <= i < emails.len() && emails[i].verified && emails[i].primary;
        lemma_first_witness(emails, true, w);
    } else if exists|i: int| 0 <= i < emails.len() && emails[i].verified {
        let w = choose|i: int| 0 <= i < emails.len() && emails[i].verified;
        lemma_first_witness(emails, false, w);
        assert forall|i: int| 0 <= i < emails.len() && emails[i].verified implies !emails[i].primary by {}
    }
}

proof fn lemma_first_witness(emails: Seq<GithubEmail>, want_primary: bool, w: int)
    requires
        0 <= w < emails.len(),
        emails[w].verified,
        want_primary ==> emails[w].primary,
    ensures
        exists|i: int|
            0 <= i < emails.len() && emails[i].verified && (want_primary ==> emails[i].primary)
                && forall|k: int| 0 <= k < i ==> !(emails[k].verified && (want_primary ==> emails[k].primary)),
    decreases w,
{
    if exists|k: int| 0 <= k < w && emails[k].verified && (want_primary ==> emails[k].primary) {
        let k = choose|k: int| 0 <= k < w && emails[k].verified && (want_primary ==> emails[k].primary);
        lemma_first_witness(emails, want_primary, k);
    }
}

impl GithubProvider {
    pub closed spec fn spec_user_agent(&self) -> Seq<char> {
        self.user_agent@
    }

    /// A provider that names itself `user_agent` to the GitHub API.
    pub fn new(user_agent: String) -> (p: Self)
        ensures
            p.spec_user_agent() == user_agent@,
    {
        GithubProvider { user_agent }
    }

    /// The provider's identifier, `github`.
    pub fn slug(&self) -> (s: &'static str)
        ensures
            s@ == SLUG@,
    {
        SLUG
    }

    /// GitHub's OAuth endpoints and the scopes `read:user` and `user:email`.
    pub fn endpoints(&self) -> (e: ProviderEndpoints)
        ensures
            e.authorize_url@ == "https://github.com/login/oauth/authorize"@,
            e.token_url@ == "https://github.com/login/oauth/access_token"@,
            e.userinfo_url@ == "https://api.github.com/user"@,
            scopes_view(e.scopes@) == github_scopes(),
            !e.use_oidc_id_token,
    {
        let scopes: Vec<&'static str> = vec!["read:user", "user:email"];
        assert(scopes_view(scopes@) =~= github_scopes());
        ProviderEndpoints {
            authorize_url: to_string("https://github.com/login/oauth/authorize"),
            token_url: to_string("https://github.com/login/oauth/access_token"),
            userinfo_url: to_string("https://api.github.com/user"),
            scopes,
            use_oidc_id_token: false,
        }
    }

    /// The headers of an API call with `access_token`: a bearer authorization
    /// (`Bearer invalid` if the token cannot stand in a header), JSON accept,
    /// and the user agent (the default one if it cannot stand in a header).
    pub fn headers(&self, access_token: &str) -> (h: GithubHeaders)
        ensures
            h.authorization@ == if valid_header_value("Bearer "@ + access_token@) {
                "Bearer "@ + access_token@
            } else {
                "Bearer invalid"@
            },
            h.accept@ == "application/json"@,
            h.user_agent@ == if valid_header_value(self.spec_user_agent()) {
                self.spec_user_agent()
            } else {
                DEFAULT_USER_AGENT@
            },
    {
        let bearer = concat("Bearer ", access_token);
        let authorization = if header_value_ok(bearer.as_str()) {
            bearer
        } else {
            to_string("Bearer invalid")
        };
        let user_agent = if header_value_ok(self.user_agent.as_str()) {
            self.user_agent.clone()
        } else {
            to_string(DEFAULT_USER_AGENT)
        };
        GithubHeaders { authorization, accept: "application/json", user_agent }
    }

    /// The URL of the user's emails, next to the userinfo URL.
    pub fn emails_url(&self, endpoints: &ProviderEndpoints) -> (url: String)
        ensures
            url@ == endpoints.userinfo_url@ + "/emails"@,
    {
        concat(endpoints.userinfo_url.as_str(), "/emails")
    }
}

impl Default for GithubProvider {
    fn default() -> (p: Self)
        ensures
            p.spec_user_agent() == DEFAULT_USER_AGENT@,
    {
        GithubProvider::new(to_string(DEFAULT_USER_AGENT))
    }
}

/// The normalized GitHub user: its id and login, and the email picked by
/// [`pick_verified_email`].
pub fn github_user_info(
    user_id: String,
    login: String,
    avatar_url: Option<String>,
    emails: &Vec<GithubEmail>,
) -> (u: ProviderUserInfo)
    ensures
        u.provider_user_id == user_id,
        u.username == login,
        u.avatar_url == avatar_url,
        (opt_str_view(u.email), u.email_verified) == spec_pick_verified_email(emails@),
{
    let (email, email_verified) = pick_verified_email(emails);
    ProviderUserInfo { provider_user_id: user_id, email, email_verified, username: login, avatar_url }
}

} // verus!
