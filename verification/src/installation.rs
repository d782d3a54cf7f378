//! Decisions about GitHub App installations: pagination, binding checks and
//! the reading of API answers into library values.
use vstd::prelude::*;
use crate::forge::Repository;
use crate::text::{opt_str_view, chars_of, string_from_range};
use crate::time::{
    instant_nanos, is_before, lemma_is_before_without_division, Instant, MAX_INSTANT_NANOS,
    MAX_SPAN_NANOS, MIN_INSTANT_NANOS, NANOS_PER_SEC,
};

verus! {

/// Repositories requested per page of `/installation/repositories` (GitHub's maximum).
pub const REPOSITORIES_PER_PAGE: usize = 100;

/// Most pages of repositories fetched for one installation.
pub const REPOSITORIES_MAX_PAGES: usize = 100;

/// Installations requested per page of `/user/installations` (GitHub's maximum).
pub const INSTALLATIONS_PER_PAGE: usize = 100;

/// Most pages of installations fetched for one user.
pub const INSTALLATIONS_MAX_PAGES: usize = 100;

/// Whether to fetch the next page: the last page was full and, when the total is
/// known, fewer items than the total have been collected.
pub open spec fn spec_has_more_pages(
    fetched: usize,
    collected: usize,
    total_count: Option<usize>,
    per_page: usize,
) -> bool {
    if fetched < per_page {
        false
    } else {
        match total_count {
            Some(total) => collected < total,
            None => true,
        }
    }
}

/// Whether to fetch the next page (see [`spec_has_more_pages`]).
pub fn has_more_pages(
    fetched: usize,
    collected: usize,
    total_count: Option<usize>,
    per_page: usize,
) -> (more: bool)
    ensures
        more == spec_has_more_pages(fetched, collected, total_count, per_page),
{
    if fetched < per_page {
        return false;
    }
    match total_count {
        Some(total) => collected < total,
        None => true,
    }
}

/// Pagination over all inputs: a short page ends the listing; after a full page
/// the next one is fetched exactly when fewer items than the reported total have
/// been collected, and always when no total is reported.
pub proof fn lemma_more_pages_decision(fetched: usize, collected: usize, total_count: Option<usize>, per_page: usize)
    ensures
        fetched < per_page ==> !spec_has_more_pages(fetched, collected, total_count, per_page),
        fetched >= per_page ==> (total_count matches Some(t) ==> spec_has_more_pages(
            fetched,
            collected,
            total_count,
            per_page,
        ) == (collected < t)),
        fetched >= per_page && total_count is None ==> spec_has_more_pages(
            fetched,
            collected,
            total_count,
            per_page,
        ),
{
}

/// The concatenation of a list of pages.
pub open spec fn flatten<T>(pages: Seq<Seq<T>>) -> Seq<T>
    decreases pages.len(),
{
    if pages.len() == 0 {
        Seq::empty()
    } else {
        flatten(pages.drop_last()) + pages.last()
    }
}

/// Walks a paginated listing: says which page to fetch next and collects the
/// items of each page received, stopping at a short page, at the reported
/// total, or after `max_pages` pages.
pub struct Pager<T> {
    per_page: usize,
    max_pages: usize,
    pages: usize,
    items: Vec<T>,
    done: bool,
    received: Ghost<Seq<Seq<T>>>,
}

impl<T> Pager<T> {
    /// Items per page.
    pub closed spec fn per_page(&self) -> usize {
        self.per_page
    }

    /// Most pages fetched.
    pub closed spec fn max_pages(&self) -> usize {
        self.max_pages
    }

    /// The pages received so far, in order.
    pub closed spec fn received(&self) -> Seq<Seq<T>> {
        self.received@
    }

    /// Whether the listing has ended by one of the pages received.
    pub closed spec fn stopped(&self) -> bool {
        self.done
    }

    /// The items collected so far.
    pub closed spec fn items(&self) -> Seq<T> {
        self.items@
    }

    /// The pager's invariant.
    pub closed spec fn wf(&self) -> bool {
        &&& self.pages == self.received@.len()
        &&& self.pages <= self.max_pages
        &&& self.items@ == flatten(self.received@)
    }

    /// Whether another page is to be fetched.
    pub open spec fn wants_more(&self) -> bool {
        !self.stopped() && self.received().len() < self.max_pages()
    }

    /// A pager that has received nothing yet.
    pub fn new(per_page: usize, max_pages: usize) -> (p: Self)
        ensures
            p.wf(),
            p.per_page() == per_page,
            p.max_pages() == max_pages,
            p.received() == Seq::<Seq<T>>::empty(),
            !p.stopped(),
            p.items() == Seq::<T>::empty(),
    {
        Pager { per_page, max_pages, pages: 0, items: Vec::new(), done: false, received: Ghost(Seq::empty()) }
    }

    /// The number (counting from 1) of the next page to fetch, or `None` when the
    /// listing is over.
    pub fn next_page(&self) -> (page: Option<usize>)
        requires
            self.wf(),
        ensures
            page is Some <==> self.wants_more(),
            page matches Some(n) ==> n == self.received().len() + 1 && n <= self.max_pages(),
    {
        if self.done || self.pages >= self.max_pages {
            None
        } else {
            Some(self.pages + 1)
        }
    }

    /// Takes in the items of the page just fetched and the total the API reported.
    pub fn receive(&mut self, page: Vec<T>, total_count: Option<usize>)
        requires
            old(self).wf(),
            old(self).wants_more(),
        ensures
            final(self).wf(),
            final(self).per_page() == old(self).per_page(),
            final(self).max_pages() == old(self).max_pages(),
            final(self).received() == old(self).received().push(page@),
            final(self).items() == old(self).items() + page@,
            final(self).stopped() == !spec_has_more_pages(
                page@.len() as usize,
                (old(self).items().len() + page@.len()) as usize,
                total_count,
                old(self).per_page(),
            ),
            final(self).stopped() == (page@.len() < old(self).per_page() || match total_count {
                Some(t) => final(self).items().len() >= t,
                None => false,
            }),
    {
        let fetched = page.len();
        let ghost old_received = self.received@;
        let ghost received = old_received.push(page@);
        assert(received.drop_last() =~= old_received);
        assert(received.last() == page@);
        let mut page = page;
        self.items.append(&mut page);
        proof {
            self.received = Ghost(received);
        }
        self.pages = self.pages + 1;
        let more = has_more_pages(fetched, self.items.len(), total_count, self.per_page);
        self.done = !more;
    }

    /// The items collected.
    pub fn into_items(self) -> (items: Vec<T>)
        requires
            self.wf(),
        ensures
            items@ == self.items(),
            items@ == flatten(self.received()),
    {
        self.items
    }
}

/// A pager never asks for more than `max_pages` pages, and asks for none after
/// a page that ends the listing.
pub proof fn lemma_pager_bounded<T>(p: Pager<T>)
    requires
        p.wf(),
    ensures
        p.received().len() <= p.max_pages(),
        p.stopped() ==> !p.wants_more(),
        p.received().len() == p.max_pages() ==> !p.wants_more(),
        p.items() == flatten(p.received()),
{
}

/// A pager that receives a page stops exactly when that page is short or, with a
/// reported total, when the items collected reach it; otherwise it asks for the
/// next page, until `max_pages` pages have been received.
pub proof fn lemma_pager_stops_only_at_end<T>(before: Pager<T>, after: Pager<T>, page: Seq<T>, total_count: Option<usize>)
    requires
        before.wf(),
        after.wf(),
        after.per_page() == before.per_page(),
        after.max_pages() == before.max_pages(),
        after.received() == before.received().push(page),
        after.items() == before.items() + page,
        after.stopped() == !spec_has_more_pages(
            page.len() as usize,
            (before.items().len() + page.len()) as usize,
            total_count,
            before.per_page(),
        ),
        page.len() <= usize::MAX,
        before.items().len() + page.len() <= usize::MAX,
    ensures
        after.stopped() == (page.len() < before.per_page() || (match total_count {
            Some(t) => after.items().len() >= t,
            None => false,
        })),
        after.wants_more() == (!after.stopped() && before.received().len() + 1 < before.max_pages()),
{
}

/// An installation as the API describes it.
#[derive(Debug, Clone)]
pub struct InstallationInfo {
    pub id: i64,
    pub account_login: String,
    pub created_at: Instant,
}

/// An installation access token and when it expires.
#[derive(Debug, Clone)]
pub struct InstallationAccessToken {
    pub token: String,
    pub expires_at: Instant,
}

/// Why a GitHub App operation was refused.
#[derive(Debug, Clone, Copy, PartialEq, Eq, Structural)]
pub enum GithubAppError {
    /// The API named another installation than the one asked for.
    InstallationIdMismatch,
    /// The installation is not the one bound to the OAuth state.
    StateBindingMismatch,
    /// The installation was created too long ago to be bound on first connect.
    InstallationTooOld,
    /// A repository's `full_name` has no `/`.
    InvalidRepositoryName,
    /// A timestamp in an API answer is not RFC 3339.
    InvalidTimestamp,
    /// The OAuth credentials of the app are not configured.
    OAuthCredentialsMissing,
    /// The code exchange answered neither a token nor an error.
    NoAccessToken,
    /// The app's private key is not an RSA key in PEM form.
    InvalidPrivateKey,
    /// Signing the app JWT failed.
    JwtEncoding,
}

impl GithubAppError {
    /// The human-readable description of the error.
    pub open spec fn spec_message(self) -> Seq<char> {
        match self {
            GithubAppError::InstallationIdMismatch => "installation id mismatch between the API and the query"@,
            GithubAppError::StateBindingMismatch => "installation id does not match oauth state binding"@,
            GithubAppError::InstallationTooOld => "installation is too old to bind on first connect"@,
            GithubAppError::InvalidRepositoryName => "invalid repository full_name"@,
            GithubAppError::InvalidTimestamp => "invalid RFC 3339 timestamp"@,
            GithubAppError::OAuthCredentialsMissing => "github app oauth credentials are not configured"@,
            GithubAppError::NoAccessToken => "github exchange user code returned no access token"@,
            GithubAppError::InvalidPrivateKey => "parse github app private key PEM"@,
            GithubAppError::JwtEncoding => "encode github app jwt"@,
        }
    }

    /// The human-readable description of the error.
    pub fn message(&self) -> (m: &'static str)
        ensures
            m@ == self.spec_message(),
    {
        match self {
            GithubAppError::InstallationIdMismatch => "installation id mismatch between the API and the query",
            GithubAppError::StateBindingMismatch => "installation id does not match oauth state binding",
            GithubAppError::InstallationTooOld => "installation is too old to bind on first connect",
            GithubAppError::InvalidRepositoryName => "invalid repository full_name",
            GithubAppError::InvalidTimestamp => "invalid RFC 3339 timestamp",
            GithubAppError::OAuthCredentialsMissing => "github app oauth credentials are not configured",
            GithubAppError::NoAccessToken => "github exchange user code returned no access token",
            GithubAppError::InvalidPrivateKey => "parse github app private key PEM",
            GithubAppError::JwtEncoding => "encode github app jwt",
        }
    }
}

/// Whether `now - max_age` is a representable instant.
pub open spec fn threshold_in_range(now: Instant, max_age_nanos: i128) -> bool {
    MIN_INSTANT_NANOS <= instant_nanos(now) - max_age_nanos <= MAX_INSTANT_NANOS
}

/// Whether `now - max_age` is representable (see [`threshold_in_range`]).
pub fn threshold_bounds_ok(now: Instant, max_age_nanos: i128) -> (b: bool)
    requires
        -MAX_SPAN_NANOS <= max_age_nanos <= MAX_SPAN_NANOS,
    ensures
        b == threshold_in_range(now, max_age_nanos),
{
    let t = now.secs as i128 * NANOS_PER_SEC + now.nanos as i128 - max_age_nanos;
    MIN_INSTANT_NANOS <= t && t <= MAX_INSTANT_NANOS
}

/// The outcome of [`check_installation_binding`].
pub open spec fn spec_check_installation_binding(
    info_id: i64,
    created_at: Instant,
    installation_id: i64,
    expected_installation_id: Option<i64>,
    now: Instant,
    max_age_nanos: i128,
) -> Result<(), GithubAppError> {
    if info_id != installation_id {
        Err(GithubAppError::InstallationIdMismatch)
    } else {
        match expected_installation_id {
            Some(expected) => if expected != installation_id {
                Err(GithubAppError::StateBindingMismatch)
            } else {
                Ok(())
            },
            None => if is_before(created_at, instant_nanos(now) - max_age_nanos) {
                Err(GithubAppError::InstallationTooOld)
            } else {
                Ok(())
            },
        }
    }
}

/// Decides whether the installation the API described may be bound.
///
/// The API must describe the installation asked for. When the OAuth state bound
/// an installation, it must be that one (whatever its age); on first connect,
/// the installation must have been created no earlier than `max_age` before `now`.
pub fn check_installation_binding(
    info: &InstallationInfo,
    installation_id: i64,
    expected_installation_id: Option<i64>,
    now: Instant,
    max_age_nanos: i128,
) -> (res: Result<(), GithubAppError>)
    requires
        now.nanos < NANOS_PER_SEC,
        -MAX_SPAN_NANOS <= max_age_nanos <= MAX_SPAN_NANOS,
        info.id == installation_id && expected_installation_id is None ==> threshold_in_range(
            now,
            max_age_nanos,
        ),
    ensures
        res == spec_check_installation_binding(
            info.id,
            info.created_at,
            installation_id,
            expected_installation_id,
            now,
            max_age_nanos,
        ),
{
    if info.id != installation_id {
        return Err(GithubAppError::InstallationIdMismatch);
    }
    match expected_installation_id {
        Some(expected) => {
            if expected != installation_id {
                Err(GithubAppError::StateBindingMismatch)
            } else {
                Ok(())
            }
        },
        None => {
            let threshold = now.secs as i128 * NANOS_PER_SEC + now.nanos as i128 - max_age_nanos;
            let c = info.created_at.secs as i128;
            proof {
                lemma_is_before_without_division(info.created_at, threshold as int);
            }
            let created_nanos = info.created_at.nanos as i128;
            let too_old = (c + 1) * NANOS_PER_SEC <= threshold || c * NANOS_PER_SEC + created_nanos
                < threshold;
            if too_old {
                Err(GithubAppError::InstallationTooOld)
            } else {
                Ok(())
            }
        },
    }
}

/// A binding is accepted only for the installation asked for, only for the
/// installation bound to the state when there is one, and otherwise only for an
/// installation created within `max_age` of `now`.
pub proof fn lemma_binding_accepts_only_matching(
    info_id: i64,
    created_at: Instant,
    installation_id: i64,
    expected_installation_id: Option<i64>,
    now: Instant,
    max_age_nanos: i128,
)
    requires
        spec_check_installation_binding(
            info_id,
            created_at,
            installation_id,
            expected_installation_id,
            now,
            max_age_nanos,
        ) is Ok,
    ensures
        info_id == installation_id,
        expected_installation_id matches Some(e) ==> e == installation_id,
        expected_installation_id is None ==> !is_before(
            created_at,
            instant_nanos(now) - max_age_nanos,
        ),
{
}

/// The binding decision over all inputs: the ids must agree; with a state
/// binding, the bound id must be the one asked for, whatever the installation's
/// age; on first connect, the installation is refused exactly when it was created
/// before `now - max_age` (an installation created at any later instant, even a
/// second ago, is accepted).
pub proof fn lemma_binding_decision(
    info_id: i64,
    created_at: Instant,
    installation_id: i64,
    expected_installation_id: Option<i64>,
    now: Instant,
    max_age_nanos: i128,
)
    requires
        created_at.nanos < 1_000_000_000,
    ensures
        info_id != installation_id ==> spec_check_installation_binding(
            info_id,
            created_at,
            installation_id,
            expected_installation_id,
            now,
            max_age_nanos,
        ) == Err::<(), GithubAppError>(GithubAppError::InstallationIdMismatch),
        info_id == installation_id && expected_installation_id == Some(installation_id)
            ==> spec_check_installation_binding(
            info_id,
            created_at,
            installation_id,
            expected_installation_id,
            now,
            max_age_nanos,
        ) == Ok::<(), GithubAppError>(()),
        info_id == installation_id ==> (expected_installation_id matches Some(e) ==> (e
            != installation_id ==> spec_check_installation_binding(
            info_id,
            created_at,
            installation_id,
            expected_installation_id,
            now,
            max_age_nanos,
        ) == Err::<(), GithubAppError>(GithubAppError::StateBindingMismatch))),
        info_id == installation_id && expected_installation_id is None
            && created_at.secs * 1_000_000_000 + created_at.nanos >= now.secs * 1_000_000_000
            + now.nanos - max_age_nanos ==> spec_check_installation_binding(
            info_id,
            created_at,
            installation_id,
            expected_installation_id,
            now,
            max_age_nanos,
        ) == Ok::<(), GithubAppError>(()),
        info_id == installation_id && expected_installation_id is None
            && created_at.secs * 1_000_000_000 + created_at.nanos < now.secs * 1_000_000_000
            + now.nanos - max_age_nanos ==> spec_check_installation_binding(
            info_id,
            created_at,
            installation_id,
            expected_installation_id,
            now,
            max_age_nanos,
        ) == Err::<(), GithubAppError>(GithubAppError::InstallationTooOld),
{
    let th = instant_nanos(now) - max_age_nanos;
    lemma_is_before_without_division(created_at, th);
}

/// The part of `full_name` after its first `/`, when it has one
/// (`str::split_once('/')`).
pub open spec fn spec_name_after_owner(full_name: Seq<char>) -> Option<Seq<char>> {
    if full_name.contains('/') {
        let i = choose|i: int|
            0 <= i < full_name.len() && full_name[i] == '/' && forall|k: int|
                0 <= k < i ==> full_name[k] != '/';
        Some(full_name.skip(i + 1))
    } else {
        None
    }
}

proof fn lemma_first_slash_exists(s: Seq<char>, j: int)
    requires
        0 <= j < s.len(),
        s[j] == '/',
    ensures
        exists|i: int| 0 <= i < s.len() && s[i] == '/' && forall|k: int| 0 <= k < i ==> s[k] != '/',
    decreases j,
{
    if exists|k: int| 0 <= k < j && s[k] == '/' {
        let k = choose|k: int| 0 <= k < j && s[k] == '/';
        lemma_first_slash_exists(s, k);
    }
}

/// A `full_name` names a repository exactly when it holds a `/`; the name is
/// what follows its first `/`: `full_name` is an owner part without `/`, then
/// `/`, then the name (which may itself hold `/`).
pub proof fn lemma_name_after_first_slash(full_name: Seq<char>)
    ensures
        spec_name_after_owner(full_name) is None <==> !full_name.contains('/'),
        spec_name_after_owner(full_name) matches Some(name) ==> exists|owner: Seq<char>|
            !owner.contains('/') && full_name == owner + seq!['/'] + name,
{
    if full_name.contains('/') {
        let j = choose|j: int| 0 <= j < full_name.len() && full_name[j] == '/';
        lemma_first_slash_exists(full_name, j);
        let i = choose|i: int|
            0 <= i < full_name.len() && full_name[i] == '/' && forall|k: int|
                0 <= k < i ==> full_name[k] != '/';
        let owner = full_name.take(i);
        let name = full_name.skip(i + 1);
        assert(full_name =~= owner + seq!['/'] + name);
        assert(!owner.contains('/')) by {
            if owner.contains('/') {
                let k = choose|k: int| 0 <= k < owner.len() && owner[k] == '/';
                assert(full_name[k] == '/');
            }
        }
    }
}

/// The repository a listing entry names: the owner's login, and the part of
/// `full_name` after its first `/`.
pub fn repository_from_listing(full_name: &str, owner_login: String) -> (res: Result<
    Repository,
    GithubAppError,
>)
    ensures
        match spec_name_after_owner(full_name@) {
            Some(name) => res matches Ok(r) && r.owner@ == owner_login@ && r.name@ == name,
            None => res == Err::<Repository, GithubAppError>(GithubAppError::InvalidRepositoryName),
        },
{
    let v = chars_of(full_name);
    let mut i: usize = 0;
    while i < v.len()
        invariant
            v@ == full_name@,
            i <= v.len(),
            forall|k: int| 0 <= k < i ==> v@[k] != '/',
        decreases v.len() - i,
    {
        if v[i] == '/' {
            let ghost j = choose|j: int|
                0 <= j < v@.len() && v@[j] == '/' && forall|k: int| 0 <= k < j ==> v@[k] != '/';
            assert(v@.contains('/')) by {
                assert(v@[i as int] == '/');
            }
            assert(j == i) by {
                if j < i {
                    assert(v@[j] != '/');
                }
                if j > i {
                    assert(v@[i as int] != '/');
                }
            }
            let name = string_from_range(&v, i + 1, v.len());
            assert(v@.subrange(i + 1, v@.len() as int) == v@.skip(i + 1));
            return Ok(Repository::new(owner_login, name));
        }
        i = i + 1;
    }
    assert(!v@.contains('/'));
    Err(GithubAppError::InvalidRepositoryName)
}

/// What the app reads of one entry of an installation's repository listing.
#[derive(Debug, Clone)]
pub struct RepositoryListing {
    pub full_name: String,
    pub owner_login: String,
}

/// The repositories of one page of a listing, in order; the first entry without
/// a `/` in its `full_name` refuses the whole page.
pub fn repositories_from_page(page: Vec<RepositoryListing>) -> (res: Result<
    Vec<Repository>,
    GithubAppError,
>)
    ensures
        match res {
            Ok(repos) => repos@.len() == page@.len() && forall|i: int|
                0 <= i < page@.len() ==> spec_name_after_owner(#[trigger] page@[i].full_name@)
                    == Some(repos@[i].name@) && repos@[i].owner@ == page@[i].owner_login@,
            Err(e) => e == GithubAppError::InvalidRepositoryName && exists|i: int|
                0 <= i < page@.len() && spec_name_after_owner(#[trigger] page@[i].full_name@)
                    is None,
        },
{
    let mut repos: Vec<Repository> = Vec::new();
    let mut i: usize = 0;
    while i < page.len()
        invariant
            i <= page@.len(),
            repos@.len() == i,
            forall|k: int|
                0 <= k < i ==> spec_name_after_owner(#[trigger] page@[k].full_name@) == Some(
                    repos@[k].name@,
                ) && repos@[k].owner@ == page@[k].owner_login@,
        decreases page.len() - i,
    {
        let entry = &page[i];
        let repo = match repository_from_listing(entry.full_name.as_str(), entry.owner_login.clone()) {
            Ok(r) => r,
            Err(e) => {
                return Err(e);
            },
        };
        repos.push(repo);
        i = i + 1;
    }
    Ok(repos)
}

/// The outcome of a user-code exchange: `error` means the code was refused
/// (`Ok(None)`), a non-empty token is the user's token, anything else is an error.
pub open spec fn spec_user_code_outcome(
    access_token: Option<Seq<char>>,
    error: Option<Seq<char>>,
) -> Result<Option<Seq<char>>, GithubAppError> {
    if error is Some {
        Ok(None)
    } else {
        match access_token {
            Some(t) => if t.len() > 0 {
                Ok(Some(t))
            } else {
                Err(GithubAppError::NoAccessToken)
            },
            None => Err(GithubAppError::NoAccessToken),
        }
    }
}

/// Reads the answer of the user-code exchange (see [`spec_user_code_outcome`]).
pub fn user_code_outcome(access_token: Option<String>, error: Option<String>) -> (res: Result<
    Option<String>,
    GithubAppError,
>)
    ensures
        match res {
            Ok(o) => spec_user_code_outcome(opt_str_view(access_token), opt_str_view(error))
                == Ok::<Option<Seq<char>>, GithubAppError>(opt_str_view(o)),
            Err(e) => spec_user_code_outcome(opt_str_view(access_token), opt_str_view(error))
                == Err::<Option<Seq<char>>, GithubAppError>(e),
        },
{
    if error.is_some() {
        return Ok(None);
    }
    match access_token {
        Some(token) => {
            if !token.as_str().is_empty() {
                Ok(Some(token))
            } else {
                Err(GithubAppError::NoAccessToken)
            }
        },
        None => Err(GithubAppError::NoAccessToken),
    }
}

/// The answer to a user-code exchange: an `error` field means GitHub refused the
/// code (`Ok(None)`, whatever else came with it); without one, a non-empty token
/// is the user's token, and anything else is a malformed answer.
pub proof fn lemma_user_code_decision(access_token: Option<Seq<char>>, error: Option<Seq<char>>)
    ensures
        error is Some ==> spec_user_code_outcome(access_token, error) == Ok::<
            Option<Seq<char>>,
            GithubAppError,
        >(None),
        error is None ==> (access_token matches Some(t) ==> (t.len() > 0 ==> spec_user_code_outcome(
            access_token,
            error,
        ) == Ok::<Option<Seq<char>>, GithubAppError>(Some(t)))),
        error is None && (access_token is None || access_token == Some(Seq::<char>::empty()))
            ==> spec_user_code_outcome(access_token, error) == Err::<Option<Seq<char>>, GithubAppError>(
            GithubAppError::NoAccessToken,
        ),
{
}

/// Every status from 200 to 299 is a success, and no other status is.
pub proof fn lemma_success_statuses(status: u16)
    ensures
        spec_is_success_status(status) <==> (200 <= status && status < 300),
{
}

/// Whether an HTTP status is a success (`200..=299`).
pub open spec fn spec_is_success_status(status: u16) -> bool {
    200 <= status <= 299
}

/// Whether an HTTP status is a success (`StatusCode::is_success`).
pub fn is_success_status(status: u16) -> (b: bool)
    ensures
        b == spec_is_success_status(status),
{
    200 <= status && status <= 299
}

/// Whether deleting an installation succeeded: a success status, or `404`/`410`
/// because the installation is already gone (deletion is idempotent).
pub fn delete_succeeded(status: u16) -> (b: bool)
    ensures
        b == (spec_is_success_status(status) || status == 404 || status == 410),
{
    is_success_status(status) || status == 404 || status == 410
}

/// Whether `installation_id` is among the installations the user can access.
pub fn installation_listed(ids: &Vec<i64>, installation_id: i64) -> (b: bool)
    ensures
        b == ids@.contains(installation_id),
{
    let mut i: usize = 0;
    while i < ids.len()
        invariant
            i <= ids@.len(),
            forall|k: int| 0 <= k < i ==> ids@[k] != installation_id,
        decreases ids.len() - i,
    {
        if ids[i] == installation_id {
            assert(ids@[i as int] == installation_id);
            return true;
        }
        i = i + 1;
    }
    false
}

} // verus!
