use vstd::prelude::*;
use vstd::string::*;

use crate::text::{
    decimal, find_char, find_char_index, lemma_find_char, str_eq, trim, trim_str,
    usize_to_decimal,
};

verus! {

/// The parameter that marks a `Link` header entry as the next page.
pub open spec fn rel_next() -> Seq<char> {
    "rel=\"next\""@
}

/// The target of one comma-separated entry of a `Link` header, when the entry
/// reads `<url>; rel="next"` (whitespace around each part allowed).
pub open spec fn link_target(link: Seq<char>) -> Option<Seq<char>> {
    let t = trim(link);
    match find_char(t, ';') {
        None => None,
        Some(p) => {
            if trim(t.subrange(p + 1, t.len() as int)) != rel_next() {
                None
            } else {
                let u = trim(t.subrange(0, p));
                if u.len() >= 2 && u[0] == '<' && u[u.len() - 1] == '>' {
                    Some(u.subrange(1, u.len() - 1))
                } else {
                    None
                }
            }
        },
    }
}

/// The URL of the first entry of a `Link` header that is marked as the next page.
pub open spec fn next_page_link(header: Seq<char>) -> Option<Seq<char>>
    decreases header.len(),
{
    proof {
        lemma_find_char(header, ',');
    }
    match find_char(header, ',') {
        None => link_target(header),
        Some(p) => match link_target(header.subrange(0, p)) {
            Some(u) => Some(u),
            None => next_page_link(header.subrange(p + 1, header.len() as int)),
        },
    }
}

fn link_target_of(link: &str) -> (res: Option<String>)
    ensures
        match link_target(link@) {
            Some(u) => res is Some && res->Some_0@ == u,
            None => res is None,
        },
{
    let t = trim_str(link);
    let tlen = t.unicode_len();
    proof {
        lemma_find_char(t@, ';');
    }
    match find_char_index(t, ';') {
        None => None,
        Some(p) => {
            let rel_part = t.substring_char(p + 1, tlen);
            let rel = trim_str(rel_part);
            if !str_eq(rel, "rel=\"next\"") {
                return None;
            }
            let url_part = t.substring_char(0, p);
            let u = trim_str(url_part);
            let ulen = u.unicode_len();
            if ulen >= 2 && u.get_char(0) == '<' && u.get_char(ulen - 1) == '>' {
                Some(String::from_str(u.substring_char(1, ulen - 1)))
            } else {
                None
            }
        },
    }
}

/// The URL of the next page named by a GitHub `Link` response header: the
/// first comma-separated entry of the form `<url>; rel="next"`.
pub fn next_page_url(link_header: &str) -> (res: Option<String>)
    ensures
        match next_page_link(link_header@) {
            Some(u) => res is Some && res->Some_0@ == u,
            None => res is None,
        },
{
    let mut rest: &str = link_header;
    loop
        invariant
            next_page_link(link_header@) == next_page_link(rest@),
        decreases rest@.len(),
    {
        let n = rest.unicode_len();
        proof {
            lemma_find_char(rest@, ',');
        }
        match find_char_index(rest, ',') {
            None => {
                return link_target_of(rest);
            },
            Some(p) => {
                let seg = rest.substring_char(0, p);
                let found = link_target_of(seg);
                if found.is_some() {
                    return found;
                }
                rest = rest.substring_char(p + 1, n);
            },
        }
    }
}


/// A release asset as GitHub lists it.
#[derive(Debug)]
pub struct GitHubAsset {
    pub id: u64,
    pub browser_download_url: String,
    pub name: String,
    pub digest: Option<String>,
}

/// The GitHub REST API's root for repositories.
pub open spec fn api_repos() -> Seq<char> {
    "https://api.github.com/repos/"@
}

/// The most releases GitHub's API returns for one repository.
pub const MAX_RELEASES: usize = 1000;

/// The most releases GitHub's API returns in one page.
pub const MAX_PER_PAGE: usize = 100;

/// How many releases to fetch at most for a requested number.
pub open spec fn release_limit(num_releases: Option<usize>) -> nat {
    let n: nat = match num_releases {
        Some(n) => n as nat,
        None => MAX_RELEASES as nat,
    };
    if n < MAX_RELEASES { n } else { MAX_RELEASES as nat }
}

/// The page size used for a release limit.
pub open spec fn page_size(limit: nat) -> nat {
    if limit < MAX_PER_PAGE { limit } else { MAX_PER_PAGE as nat }
}

/// The first page of a repository's release listing.
pub open spec fn releases_url(repo: Seq<char>, per_page: nat) -> Seq<char> {
    api_repos() + repo + "/releases?per_page="@ + decimal(per_page)
}

/// What the paging of a release listing has reached: how many releases it
/// stops at, the releases received so far in request order, and the page it
/// would ask for next.
pub struct ReleasePagerView<T> {
    pub limit: nat,
    pub releases: Seq<T>,
    pub next: Option<Seq<char>>,
}

/// Pages through a repository's releases; the caller performs each request it
/// names and hands over the page it got back, which the pager gathers.
pub struct ReleasePager<T> {
    limit: usize,
    releases: Vec<T>,
    next_url: Option<String>,
}

/// The view of an optional string.
pub open spec fn opt_view(s: Option<String>) -> Option<Seq<char>> {
    match s {
        Some(s) => Some(s@),
        None => None,
    }
}

/// The next page named by an optional `Link` header.
pub open spec fn link_of(link_header: Option<Seq<char>>) -> Option<Seq<char>> {
    match link_header {
        Some(h) => next_page_link(h),
        None => None,
    }
}

/// The request a pager in state `p` makes next, if any: the pending page,
/// unless enough releases have arrived.
pub open spec fn pager_request<T>(p: ReleasePagerView<T>) -> Option<Seq<char>> {
    if p.releases.len() < p.limit { p.next } else { None }
}

/// The state of a pager after the page `page` arrived with the given `Link`
/// header: the page is appended whole, and the header names the next page.
pub open spec fn pager_after_page<T>(
    p: ReleasePagerView<T>,
    link_header: Option<Seq<char>>,
    page: Seq<T>,
) -> ReleasePagerView<T> {
    ReleasePagerView { limit: p.limit, releases: p.releases + page, next: link_of(link_header) }
}

/// The state in which paging a repository's releases starts.
pub open spec fn pager_start<T>(repo: Seq<char>, num_releases: Option<usize>) -> ReleasePagerView<T> {
    ReleasePagerView {
        limit: release_limit(num_releases),
        releases: Seq::empty(),
        next: if num_releases == Some(0usize) {
            None
        } else {
            Some(releases_url(repo, page_size(release_limit(num_releases))))
        },
    }
}

impl<T> View for ReleasePager<T> {
    type V = ReleasePagerView<T>;

    closed spec fn view(&self) -> ReleasePagerView<T> {
        ReleasePagerView {
            limit: self.limit as nat,
            releases: self.releases@,
            next: opt_view(self.next_url),
        }
    }
}

impl<T> ReleasePager<T> {
    /// Starts paging `repo`'s releases, stopping after `num_releases` of them
    /// (at most 1000, GitHub's own limit); `Some(0)` asks for nothing at all.
    pub fn new(repo: &str, num_releases: Option<usize>) -> (p: ReleasePager<T>)
        ensures
            p@ == pager_start::<T>(repo@, num_releases),
    {
        let requested = match num_releases {
            Some(n) => n,
            None => MAX_RELEASES,
        };
        let limit = if requested < MAX_RELEASES { requested } else { MAX_RELEASES };
        let next_url = match num_releases {
            Some(0) => None,
            _ => {
                let per_page = if limit < MAX_PER_PAGE { limit } else { MAX_PER_PAGE };
                let url = String::from_str("https://api.github.com/repos/").concat(repo).concat(
                    "/releases?per_page=",
                ).concat(usize_to_decimal(per_page).as_str());
                Some(url)
            },
        };
        let p = ReleasePager { limit, releases: Vec::new(), next_url };
        assert(p@.releases =~= Seq::<T>::empty());
        p
    }

    /// The page to request next, if any.
    pub fn next_request(&self) -> (url: Option<&str>)
        ensures
            match pager_request(self@) {
                Some(u) => url is Some && url->Some_0@ == u,
                None => url is None,
            },
    {
        if self.releases.len() < self.limit {
            match &self.next_url {
                Some(u) => Some(u.as_str()),
                None => None,
            }
        } else {
            None
        }
    }

    /// Records the page `page` that arrived with the given `Link` header.
    pub fn record_page(&mut self, link_header: Option<&str>, page: Vec<T>)
        ensures
            final(self)@ == pager_after_page(
                old(self)@,
                match link_header {
                    Some(h) => Some(h@),
                    None => None,
                },
                page@,
            ),
    {
        self.next_url = match link_header {
            Some(h) => next_page_url(h),
            None => None,
        };
        let mut page = page;
        self.releases.append(&mut page);
    }

    /// How many releases have arrived so far.
    pub fn fetched(&self) -> (n: usize)
        ensures
            n == self@.releases.len(),
    {
        self.releases.len()
    }

    /// The releases gathered, in the order their pages arrived.
    pub fn into_releases(self) -> (r: Vec<T>)
        ensures
            r@ == self@.releases,
    {
        self.releases
    }
}

/// The state of a pager after the given pages (each with its `Link` header)
/// arrived in turn.
pub open spec fn pager_feed<T>(
    p: ReleasePagerView<T>,
    pages: Seq<(Option<Seq<char>>, Seq<T>)>,
) -> ReleasePagerView<T>
    decreases pages.len(),
{
    if pages.len() == 0 {
        p
    } else {
        pager_feed(pager_after_page(p, pages[0].0, pages[0].1), pages.drop_first())
    }
}

/// The releases of the given pages, one page after another.
pub open spec fn concat_pages<T>(pages: Seq<(Option<Seq<char>>, Seq<T>)>) -> Seq<T>
    decreases pages.len(),
{
    if pages.len() == 0 {
        Seq::empty()
    } else {
        pages[0].1 + concat_pages(pages.drop_first())
    }
}

/// Law: over a whole run, the releases gathered are the pages' releases
/// concatenated in the order they arrived (the last page is not cut to the
/// limit), and the next request is the page named by the last `Link` header,
/// made only while fewer releases than the limit have arrived.
pub proof fn law_pager_run<T>(p: ReleasePagerView<T>, pages: Seq<(Option<Seq<char>>, Seq<T>)>)
    ensures
        pager_feed(p, pages).limit == p.limit,
        pager_feed(p, pages).releases == p.releases + concat_pages(pages),
        pager_feed(p, pages).next == if pages.len() == 0 {
            p.next
        } else {
            match pages.last().0 {
                Some(h) => next_page_link(h),
                None => None,
            }
        },
        pager_request(pager_feed(p, pages)) == if (p.releases + concat_pages(pages)).len()
            < p.limit {
            pager_feed(p, pages).next
        } else {
            None
        },
    decreases pages.len(),
{
    if pages.len() > 0 {
        let q = pager_after_page(p, pages[0].0, pages[0].1);
        let rest = pages.drop_first();
        law_pager_run(q, rest);
        assert(q.releases + concat_pages(rest) =~= p.releases + concat_pages(pages));
        if rest.len() > 0 {
            assert(rest.last() == pages.last());
        }
    }
}

/// Law: a pager stops at the number of releases asked for, capped at GitHub's
/// 1000, and at 1000 when no number is asked for; it starts with nothing
/// received and, unless no release is wanted, asks first for the listing's
/// first page, with pages of 100 releases or fewer when fewer are wanted.
pub proof fn law_pager_start<T>(repo: Seq<char>, num_releases: Option<usize>)
    ensures
        ({
            let p = pager_start::<T>(repo, num_releases);
            let wanted: nat = match num_releases {
                Some(n) => if n < 1000 { n as nat } else { 1000 },
                None => 1000,
            };
            &&& p.limit == wanted
            &&& p.releases.len() == 0
            &&& num_releases == Some(0usize) ==> pager_request(p) is None
            &&& num_releases != Some(0usize) ==> pager_request(p) == Some(
                "https://api.github.com/repos/"@ + repo + "/releases?per_page="@ + decimal(
                    if wanted < 100 { wanted } else { 100 },
                ),
            )
        }),
{
    reveal_strlit("https://api.github.com/repos/");
}

/// Law: paging never asks for more than GitHub's limit of releases: a pager
/// starts with a limit of at most 1000 and no page changes it.
pub proof fn law_pager_limit_at_most_max<T>(
    repo: Seq<char>,
    num_releases: Option<usize>,
    p: ReleasePagerView<T>,
    pages: Seq<(Option<Seq<char>>, Seq<T>)>,
)
    ensures
        pager_start::<T>(repo, num_releases).limit <= MAX_RELEASES,
        pager_feed(p, pages).limit == p.limit,
{
    law_pager_run(p, pages);
}

/// Whether a byte stays as it is under percent-encoding: an ASCII letter or
/// digit, or one of `-` `.` `_` `~`.
pub open spec fn is_unreserved(b: u8) -> bool {
    ||| 0x30 <= b <= 0x39
    ||| 0x41 <= b <= 0x5A
    ||| 0x61 <= b <= 0x7A
    ||| b == 0x2D
    ||| b == 0x2E
    ||| b == 0x5F
    ||| b == 0x7E
}

/// An upper-case hexadecimal digit.
pub open spec fn hex_upper(d: u8) -> char {
    if d < 10 {
        (0x30 + d) as char
    } else {
        (0x37 + d) as char
    }
}

/// One byte percent-encoded.
pub open spec fn percent_encode_byte(b: u8) -> Seq<char> {
    if is_unreserved(b) {
        seq![b as char]
    } else {
        seq!['%', hex_upper(b / 16), hex_upper(b % 16)]
    }
}

/// Bytes percent-encoded one by one.
pub open spec fn percent_encode(bytes: Seq<u8>) -> Seq<char>
    decreases bytes.len(),
{
    if bytes.len() == 0 {
        Seq::empty()
    } else {
        percent_encode_byte(bytes[0]) + percent_encode(bytes.drop_first())
    }
}

/// `urlencoding::encode`: every UTF-8 byte of `s` percent-encoded, except ASCII
/// letters and digits and `-` `.` `_` `~`, with upper-case hexadecimal digits.
#[verifier::external_body]
fn url_encode(s: &str) -> (r: String)
    ensures
        r@ == percent_encode(s.spec_bytes()),
{
    urlencoding::encode(s).into_owned()
}

/// The API address of the release of `repo` tagged `tag`.
pub open spec fn release_by_tag_url_spec(repo: Seq<char>, tag: &str) -> Seq<char> {
    api_repos() + repo + "/releases/tags/"@ + percent_encode(tag.spec_bytes())
}

/// The API address of the release of `repo` tagged `tag`, with the tag
/// percent-encoded.
pub fn release_by_tag_url(repo: &str, tag: &str) -> (url: String)
    ensures
        url@ == release_by_tag_url_spec(repo@, tag),
{
    let encoded = url_encode(tag);
    String::from_str("https://api.github.com/repos/").concat(repo).concat("/releases/tags/").concat(
        encoded.as_str(),
    )
}

/// The API address listing the latest commit of `repo` ("owner/name").
pub fn last_commit_url(repo: &str) -> (url: String)
    ensures
        url@ == api_repos() + repo@ + "/commits?per_page=1"@,
{
    String::from_str("https://api.github.com/repos/").concat(repo).concat("/commits?per_page=1")
}

/// The API address listing the commits of `owner`'s repository `repo`.
pub fn commits_url(owner: &str, repo: &str) -> (url: String)
    ensures
        url@ == api_repos() + owner@ + "/"@ + repo@ + "/commits"@,
{
    String::from_str("https://api.github.com/repos/").concat(owner).concat("/").concat(repo).concat(
        "/commits",
    )
}

/// Fetching a repository's latest commit failed.
#[derive(Debug)]
pub enum GetLastCommitError {
    FetchGithub(String),
    InvalidResponse(String),
    ParseGithub(String),
    NoCommitsFound,
}

/// Checks the status of the commits response: a non-success status (given as
/// it displays, e.g. `404 Not Found`) is an invalid response.
pub fn check_commits_status(success: bool, status: &str) -> (res: Result<(), GetLastCommitError>)
    ensures
        success ==> res is Ok,
        !success ==> (res matches Err(GetLastCommitError::InvalidResponse(m)) && m@
            == "GitHub API returned status: "@ + status@),
{
    if success {
        Ok(())
    } else {
        Err(
            GetLastCommitError::InvalidResponse(
                String::from_str("GitHub API returned status: ").concat(status),
            ),
        )
    }
}

/// The latest commit of a listing (GitHub lists the newest first).
pub fn latest_of<T>(commits: Vec<T>) -> (res: Result<T, GetLastCommitError>)
    ensures
        commits@.len() == 0 ==> res matches Err(GetLastCommitError::NoCommitsFound),
        commits@.len() > 0 ==> (res matches Ok(c) && c == commits@[0]),
{
    let mut commits = commits;
    if commits.len() == 0 {
        Err(GetLastCommitError::NoCommitsFound)
    } else {
        Ok(commits.remove(0))
    }
}

/// A character that may stand in a URL path segment without escaping, or `%`.
pub open spec fn is_segment_safe(c: char) -> bool {
    c == '%' || is_unreserved(c as u8) && (c as u32) < 0x80
}

/// Law: percent-encoding leaves nothing that could end a path segment: every
/// character of the result is an unreserved ASCII character or `%`.
pub proof fn law_percent_encoding_is_segment_safe(bytes: Seq<u8>)
    ensures
        forall|k: int|
            0 <= k < percent_encode(bytes).len() ==> is_segment_safe(
                #[trigger] percent_encode(bytes)[k],
            ),
    decreases bytes.len(),
{
    if bytes.len() > 0 {
        law_percent_encoding_is_segment_safe(bytes.drop_first());
        let b = bytes[0];
        let head = percent_encode_byte(b);
        let tail = percent_encode(bytes.drop_first());
        assert forall|k: int| 0 <= k < head.len() implies is_segment_safe(#[trigger] head[k]) by {
            if is_unreserved(b) {
                assert(head[k] == b as char);
                assert((b as char) as u32 == b as u32);
            } else {
                assert(b / 16 < 16);
                assert(b % 16 < 16);
            }
        }
        assert forall|k: int|
            0 <= k < percent_encode(bytes).len() implies is_segment_safe(
                #[trigger] percent_encode(bytes)[k],
            ) by {
            if k < head.len() {
                assert(percent_encode(bytes)[k] == head[k]);
            } else {
                assert(percent_encode(bytes)[k] == tail[k - head.len()]);
            }
        }
    }
}

} // verus!
