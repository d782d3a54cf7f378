use auth_core::installation::{
    check_installation_binding, delete_succeeded, has_more_pages, installation_listed,
    repositories_from_page, repository_from_listing, user_code_outcome, GithubAppError,
    InstallationInfo, Pager, RepositoryListing, REPOSITORIES_PER_PAGE,
};
use auth_core::time::{span_nanos, Instant};
use chrono::DateTime;

const MAX_AGE_SECS: i64 = 600;

#[test]
fn stops_when_page_is_not_full() {
    assert!(!has_more_pages(30, 30, Some(30), REPOSITORIES_PER_PAGE));
    assert!(!has_more_pages(0, 100, Some(100), REPOSITORIES_PER_PAGE));
}

#[test]
fn continues_while_pages_are_full() {
    assert!(has_more_pages(REPOSITORIES_PER_PAGE, REPOSITORIES_PER_PAGE, Some(250), REPOSITORIES_PER_PAGE));
    assert!(has_more_pages(REPOSITORIES_PER_PAGE, REPOSITORIES_PER_PAGE, None, REPOSITORIES_PER_PAGE));
}

#[test]
fn stops_when_total_count_is_reached_on_a_full_page() {
    assert!(!has_more_pages(
        REPOSITORIES_PER_PAGE,
        REPOSITORIES_PER_PAGE,
        Some(REPOSITORIES_PER_PAGE),
        REPOSITORIES_PER_PAGE
    ));
}

#[test]
fn page_size_comes_from_the_argument() {
    assert!(has_more_pages(30, 30, Some(100), 30));
    assert!(!has_more_pages(30, 30, Some(100), 100));
}

fn instant(s: &str) -> Instant {
    let t = DateTime::parse_from_rfc3339(s).unwrap();
    Instant { secs: t.timestamp(), nanos: t.timestamp_subsec_nanos() }
}

fn now() -> Instant {
    instant("2026-07-26T12:00:00Z")
}

fn info(id: i64, created_at: &str) -> InstallationInfo {
    InstallationInfo { id, account_login: "acme".into(), created_at: instant(created_at) }
}

fn check(info: &InstallationInfo, installation_id: i64, expected: Option<i64>) -> Result<(), GithubAppError> {
    check_installation_binding(info, installation_id, expected, now(), span_nanos(MAX_AGE_SECS, 0))
}

#[test]
fn rejects_when_api_id_differs_from_query() {
    assert!(check(&info(2, "2026-07-26T11:59:00Z"), 1, None).is_err());
}

#[test]
fn rejects_installation_not_matching_state_binding() {
    assert!(check(&info(1, "2020-01-01T00:00:00Z"), 1, Some(99)).is_err());
}

#[test]
fn accepts_installation_matching_state_binding_regardless_of_age() {
    assert!(check(&info(1, "2020-01-01T00:00:00Z"), 1, Some(1)).is_ok());
}

#[test]
fn rejects_stale_installation_on_first_connect() {
    let stale = info(1, "2026-07-26T11:49:59Z");
    assert!(check(&stale, 1, None).is_err());
}

#[test]
fn accepts_fresh_installation_on_first_connect() {
    let fresh = info(1, "2026-07-26T11:50:01Z");
    assert!(check(&fresh, 1, None).is_ok());
}

#[test]
fn binding_boundary_and_sub_second_precision() {
    assert_eq!(check(&info(1, "2026-07-26T11:50:00Z"), 1, None), Ok(()));
    assert_eq!(check(&info(1, "2026-07-26T11:49:59.999999999Z"), 1, None), Err(GithubAppError::InstallationTooOld));
    let later = Instant { secs: now().secs, nanos: 500_000_000 };
    let created = info(1, "2026-07-26T11:50:00.4Z");
    assert_eq!(
        check_installation_binding(&created, 1, None, later, span_nanos(MAX_AGE_SECS, 0)),
        Err(GithubAppError::InstallationTooOld)
    );
    assert_eq!(check(&info(2, "2026-07-26T11:59:00Z"), 1, None), Err(GithubAppError::InstallationIdMismatch));
    assert_eq!(check(&info(1, "2026-07-26T11:59:00Z"), 1, Some(99)), Err(GithubAppError::StateBindingMismatch));
}

#[test]
fn pager_walks_until_a_short_page() {
    let mut pager: Pager<u32> = Pager::new(2, 100);
    assert_eq!(pager.next_page(), Some(1));
    pager.receive(vec![1, 2], None);
    assert_eq!(pager.next_page(), Some(2));
    pager.receive(vec![3], None);
    assert_eq!(pager.next_page(), None);
    assert_eq!(pager.into_items(), vec![1, 2, 3]);
}

#[test]
fn pager_stops_at_total_and_page_limit() {
    let mut at_total: Pager<u32> = Pager::new(2, 100);
    at_total.receive(vec![1, 2], Some(2));
    assert_eq!(at_total.next_page(), None);
    let mut limited: Pager<u32> = Pager::new(1, 2);
    limited.receive(vec![1], None);
    limited.receive(vec![2], None);
    assert_eq!(limited.next_page(), None);
    assert_eq!(limited.into_items(), vec![1, 2]);
}

#[test]
fn repository_names_split_at_first_slash() {
    let r = repository_from_listing("acme/widgets/extra", "acme-owner".to_string()).unwrap();
    assert_eq!(r.owner, "acme-owner");
    assert_eq!(r.name, "widgets/extra");
    assert_eq!(r.to_string(), "acme-owner/widgets/extra");
    assert_eq!(
        repository_from_listing("noslash", "o".to_string()).err(),
        Some(GithubAppError::InvalidRepositoryName)
    );
}

#[test]
fn repositories_page_fails_on_a_bad_entry() {
    let good = RepositoryListing { full_name: "a/b".into(), owner_login: "a".into() };
    let bad = RepositoryListing { full_name: "ab".into(), owner_login: "a".into() };
    assert_eq!(repositories_from_page(vec![good.clone()]).unwrap().len(), 1);
    assert_eq!(repositories_from_page(vec![good, bad]).err(), Some(GithubAppError::InvalidRepositoryName));
}

#[test]
fn user_code_outcomes() {
    assert_eq!(user_code_outcome(Some("tok".into()), None), Ok(Some("tok".to_string())));
    assert_eq!(user_code_outcome(Some("tok".into()), Some("bad_verification_code".into())), Ok(None));
    assert_eq!(user_code_outcome(None, Some("expired".into())), Ok(None));
    assert_eq!(user_code_outcome(Some(String::new()), None), Err(GithubAppError::NoAccessToken));
    assert_eq!(user_code_outcome(None, None), Err(GithubAppError::NoAccessToken));
}

#[test]
fn delete_is_idempotent() {
    assert!(delete_succeeded(204));
    assert!(delete_succeeded(404));
    assert!(delete_succeeded(410));
    assert!(!delete_succeeded(403));
    assert!(!delete_succeeded(500));
}

#[test]
fn listed_installations() {
    assert!(installation_listed(&vec![1, 5, 9], 5));
    assert!(!installation_listed(&vec![1, 5, 9], 4));
    assert!(!installation_listed(&vec![], 4));
}
