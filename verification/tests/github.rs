use cat_launcher::github::{
    check_commits_status, commits_url, last_commit_url, latest_of, next_page_url,
    release_by_tag_url, GetLastCommitError, ReleasePager,
};

const LINKS: &str = "<https://api.github.com/repositories/1/releases?per_page=100&page=2>; rel=\"next\", <https://api.github.com/repositories/1/releases?per_page=100&page=5>; rel=\"last\"";

#[test]
fn next_page_from_github_link_header() {
    assert_eq!(
        next_page_url(LINKS).as_deref(),
        Some("https://api.github.com/repositories/1/releases?per_page=100&page=2")
    );
}

#[test]
fn next_page_found_after_other_links() {
    let header = "<https://x/?page=1>; rel=\"prev\", <https://x/?page=3>; rel=\"next\"";
    assert_eq!(next_page_url(header).as_deref(), Some("https://x/?page=3"));
}

#[test]
fn no_next_page_on_last_page() {
    let header = "<https://x/?page=1>; rel=\"first\", <https://x/?page=4>; rel=\"prev\"";
    assert_eq!(next_page_url(header), None);
    assert_eq!(next_page_url(""), None);
}

#[test]
fn malformed_entries_are_skipped() {
    assert_eq!(next_page_url("https://x/?page=2; rel=\"next\""), None);
    assert_eq!(next_page_url("<https://x/?page=2; rel=\"next\""), None);
    assert_eq!(next_page_url("<https://x/?page=2>"), None);
    assert_eq!(next_page_url("<>; rel=\"next\"").as_deref(), Some(""));
    assert_eq!(
        next_page_url("<bad; rel=\"next\",  <https://ok>  ;  rel=\"next\" ").as_deref(),
        Some("https://ok")
    );
    assert_eq!(next_page_url("<https://x>; rel=next"), None);
}

#[test]
fn pager_first_request() {
    let pager = ReleasePager::<u32>::new("CleverRaven/Cataclysm-DDA", Some(30));
    assert_eq!(
        pager.next_request(),
        Some("https://api.github.com/repos/CleverRaven/Cataclysm-DDA/releases?per_page=30")
    );
    let pager = ReleasePager::<u32>::new("o/r", None);
    assert_eq!(
        pager.next_request(),
        Some("https://api.github.com/repos/o/r/releases?per_page=100")
    );
    let pager = ReleasePager::<u32>::new("o/r", Some(5000));
    assert_eq!(
        pager.next_request(),
        Some("https://api.github.com/repos/o/r/releases?per_page=100")
    );
}

#[test]
fn pager_zero_releases_requests_nothing() {
    let pager = ReleasePager::<u32>::new("o/r", Some(0));
    assert_eq!(pager.next_request(), None);
}

#[test]
fn pager_follows_links_until_limit() {
    let mut pager = ReleasePager::<u32>::new("o/r", Some(150));
    assert!(pager.next_request().is_some());
    pager.record_page(Some(LINKS), (0..100).collect());
    assert_eq!(
        pager.next_request(),
        Some("https://api.github.com/repositories/1/releases?per_page=100&page=2")
    );
    pager.record_page(Some(LINKS), (100..200).collect());
    assert_eq!(pager.fetched(), 200);
    assert_eq!(pager.next_request(), None);
    // The last page is kept whole, in request order.
    assert_eq!(pager.into_releases(), (0..200).collect::<Vec<u32>>());
}

#[test]
fn pager_stops_without_next_link() {
    let mut pager = ReleasePager::<u32>::new("o/r", None);
    pager.record_page(None, vec![7; 12]);
    assert_eq!(pager.next_request(), None);
    let mut pager = ReleasePager::<u32>::new("o/r", None);
    pager.record_page(Some("<https://x>; rel=\"last\""), vec![7; 12]);
    assert_eq!(pager.next_request(), None);
}

#[test]
fn release_tag_is_percent_encoded() {
    assert_eq!(
        release_by_tag_url("o/r", "cdda-0.H-2024-01-01"),
        "https://api.github.com/repos/o/r/releases/tags/cdda-0.H-2024-01-01"
    );
    assert_eq!(
        release_by_tag_url("o/r", "v1.0 beta/2"),
        "https://api.github.com/repos/o/r/releases/tags/v1.0%20beta%2F2"
    );
    assert_eq!(
        release_by_tag_url("o/r", "é~"),
        "https://api.github.com/repos/o/r/releases/tags/%C3%A9~"
    );
}

#[test]
fn commit_urls() {
    assert_eq!(
        last_commit_url("o/r"),
        "https://api.github.com/repos/o/r/commits?per_page=1"
    );
    assert_eq!(
        commits_url("owner", "repo"),
        "https://api.github.com/repos/owner/repo/commits"
    );
}

#[test]
fn commit_status_and_selection() {
    assert!(check_commits_status(true, "200 OK").is_ok());
    match check_commits_status(false, "404 Not Found") {
        Err(GetLastCommitError::InvalidResponse(m)) => {
            assert_eq!(m, "GitHub API returned status: 404 Not Found")
        }
        other => panic!("unexpected: {:?}", other),
    }
    assert!(matches!(
        latest_of::<u32>(vec![]),
        Err(GetLastCommitError::NoCommitsFound)
    ));
    assert_eq!(latest_of(vec![3, 2, 1]).unwrap(), 3);
}
