use gitsync::errors::SyncError;
use gitsync::github::{
    check_page_response, check_user_response, filter_visible, repo_visible, status_is_success,
    CatalogListing, Repository, User, PER_PAGE, REQUEST_TIMEOUT_SECS,
};

fn repo(id: u64, name: &str, private: bool) -> Repository {
    Repository {
        id,
        name: name.to_string(),
        full_name: format!("owner/{}", name),
        clone_url: format!("https://github.com/owner/{}.git", name),
        ssh_url: format!("git@github.com:owner/{}.git", name),
        private,
        default_branch: "main".to_string(),
        updated_at: "2024-01-01T00:00:00Z".to_string(),
        size: 1,
    }
}

#[test]
fn status_success_bounds() {
    assert!(status_is_success(200));
    assert!(status_is_success(204));
    assert!(status_is_success(299));
    assert!(!status_is_success(199));
    assert!(!status_is_success(300));
    assert!(!status_is_success(404));
}

#[test]
fn user_response_gate() {
    assert_eq!(check_user_response(200), Ok(()));
    assert_eq!(check_user_response(401), Err(SyncError::AuthError));
    assert_eq!(check_user_response(500), Err(SyncError::AuthError));
}

#[test]
fn page_response_gate_keeps_status() {
    assert_eq!(check_page_response(200), Ok(()));
    assert_eq!(check_page_response(403), Err(SyncError::ApiError { status: 403 }));
    assert_eq!(check_page_response(502), Err(SyncError::ApiError { status: 502 }));
}

#[test]
fn visibility_of_one_descriptor() {
    let public = repo(1, "pub", false);
    let private = repo(2, "priv", true);
    assert!(repo_visible(&public, false));
    assert!(repo_visible(&public, true));
    assert!(!repo_visible(&private, false));
    assert!(repo_visible(&private, true));
}

#[test]
fn filter_mixed_visibility() {
    let page = vec![
        repo(1, "a", false),
        repo(2, "b", true),
        repo(3, "c", false),
        repo(4, "d", true),
    ];
    let without_private = filter_visible(&page, false);
    assert_eq!(without_private, vec![repo(1, "a", false), repo(3, "c", false)]);
    let with_private = filter_visible(&page, true);
    assert_eq!(with_private, page);
}

#[test]
fn filter_empty_page() {
    let page: Vec<Repository> = Vec::new();
    assert_eq!(filter_visible(&page, false), Vec::new());
    assert_eq!(filter_visible(&page, true), Vec::new());
}

#[test]
fn listing_starts_at_page_one() {
    let listing = CatalogListing::new();
    assert_eq!(listing.next_page, 1);
    assert!(!listing.finished);
    assert!(listing.repos.is_empty());
}

#[test]
fn short_final_page_finishes_listing() {
    let mut listing = CatalogListing::new();
    let page = vec![repo(1, "a", false), repo(2, "b", true), repo(3, "c", false)];
    listing.absorb_page(&page, false);
    assert!(listing.finished);
    assert_eq!(listing.next_page, 1);
    assert_eq!(listing.repos, vec![repo(1, "a", false), repo(3, "c", false)]);
}

#[test]
fn full_page_continues_listing() {
    let mut listing = CatalogListing::new();
    let full: Vec<Repository> = (0..PER_PAGE as u64).map(|i| repo(i, "r", i % 2 == 0)).collect();
    listing.absorb_page(&full, true);
    assert!(!listing.finished);
    assert_eq!(listing.next_page, 2);
    assert_eq!(listing.repos.len(), PER_PAGE);

    // a run of full pages ends only on an empty page
    let empty: Vec<Repository> = Vec::new();
    listing.absorb_page(&empty, true);
    assert!(listing.finished);
    assert_eq!(listing.next_page, 2);
    assert_eq!(listing.repos.len(), PER_PAGE);
}

#[test]
fn listing_accumulates_across_pages() {
    let mut listing = CatalogListing::new();
    let full: Vec<Repository> = (0..PER_PAGE as u64).map(|i| repo(i, "r", false)).collect();
    listing.absorb_page(&full, false);
    let last = vec![repo(900, "tail", true), repo(901, "kept", false)];
    listing.absorb_page(&last, false);
    assert!(listing.finished);
    assert_eq!(listing.repos.len(), PER_PAGE + 1);
    assert_eq!(listing.repos[PER_PAGE], repo(901, "kept", false));
}

#[test]
fn constants_match_the_listing_protocol() {
    assert_eq!(PER_PAGE, 100);
    assert_eq!(REQUEST_TIMEOUT_SECS, 30);
}

#[test]
fn user_fields_are_optional_except_login() {
    let user = User { login: "octocat".to_string(), name: None, email: None };
    assert_eq!(user.login, "octocat");
    assert!(user.name.is_none());
    assert!(user.email.is_none());
}
