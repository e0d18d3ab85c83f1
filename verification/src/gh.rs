//! The code-hosting checks API: the shapes of a commit's check-runs
//! listing, and the paginated retrieval of every check run of a commit.
//!
//! The listing reports a total count; pages are requested until the number
//! of check runs retrieved equals that count. The fetch itself happens
//! outside this crate; `ChecksPager` holds the state of one listing, says
//! what the next page request must carry, and accumulates the pages it is
//! fed, in page order.

use vstd::prelude::*;
use vstd::string::StringExecFns;

use crate::strutil::dec_str;
use crate::strutil::u64_to_string;
use crate::strutil::url;

verus! {

/// One page of a commit's check-runs listing.
#[derive(Debug)]
pub struct ChecksResponse {
    pub total_count: u64,
    pub check_runs: Vec<CheckRun>,
}

/// One check run attached to a commit.
#[derive(Debug)]
pub struct CheckRun {
    pub id: u64,
    pub head_sha: String,
    pub node_id: String,
    pub external_id: Option<String>,
    pub url: String,
    pub html_url: Option<String>,
    pub details_url: Option<String>,
    pub status: RunStatus,
    pub conclusion: Option<RunConclusion>,
    pub started_at: Option<String>,
    pub completed_at: Option<String>,
    pub output: CheckOutput,
    pub name: String,
    pub check_suite: Option<CheckSuite>,
    pub app: Option<GithubApp>,
    pub pull_requests: Vec<PullRequestMinimal>,
}

/// Where a check run stands in its lifecycle.
#[derive(Debug, Clone, Copy, PartialEq, Eq, Structural)]
pub enum RunStatus {
    Queued,
    InProgress,
    Completed,
}

/// How a finished check run ended.
#[derive(Debug, Clone, Copy, PartialEq, Eq, Structural)]
pub enum RunConclusion {
    Success,
    Failure,
    Neutral,
    Cancelled,
    Skipped,
    TimedOut,
    ActionRequired,
}

/// The textual output a check run reported.
#[derive(Debug)]
pub struct CheckOutput {
    pub title: Option<String>,
    pub summary: Option<String>,
    pub text: Option<String>,
    pub annotations_count: u64,
    pub annotations_url: String,
}

/// The suite a check run belongs to.
#[derive(Debug)]
pub struct CheckSuite {
    pub id: u64,
}

/// The application that created a check run.
#[derive(Debug)]
pub struct GithubApp {
    pub id: u64,
    pub slug: String,
    pub node_id: String,
    pub owner: Option<SimpleUser>,
    pub name: String,
    pub description: Option<String>,
    pub external_url: String,
    pub html_url: String,
    pub created_at: String,
    pub updated_at: String,
    pub permissions: Vec<(String, String)>,
    pub events: Vec<String>,
}

/// A user record, as the checks API reports it.
#[derive(Debug)]
pub struct SimpleUser {
    pub login: String,
    pub id: u64,
    pub node_id: String,
    pub url: String,
    pub repos_url: String,
    pub events_url: String,
    pub avatar_url: String,
    pub gravatar_id: Option<String>,
    pub html_url: String,
    pub followers_url: String,
    pub following_url: String,
    pub gists_url: String,
    pub starred_url: String,
    pub subscriptions_url: String,
    pub organizations_url: String,
    pub received_events_url: String,
    pub user_type: String,
    pub site_admin: bool,
    pub starred_at: Option<String>,
}

/// The permissions an application holds.
#[derive(Debug)]
pub struct Permissions {
    pub metadata: String,
    pub contents: String,
    pub issues: String,
    pub single_file: String,
}

/// A pull request a check run is attached to.
#[derive(Debug)]
pub struct PullRequestMinimal {
    pub url: String,
    pub id: u64,
    pub number: u64,
    pub head: Ref,
}

/// A named reference of a repository.
#[derive(Debug)]
pub struct Ref {
    pub ref_name: String,
    pub sha: String,
    pub repo: Repo,
}

/// A repository record.
#[derive(Debug)]
pub struct Repo {
    pub id: u64,
    pub url: String,
    pub name: String,
}

/// The URL that lists the check runs of one commit.
pub fn checks_url(owner: &str, repo: &str, sha1: &str) -> (r: String)
    ensures
        r@ == "https://api.github.com/repos/"@ + owner@ + "/"@ + repo@ + "/commits/"@ + sha1@
            + "/check-runs"@,
{
    let mut suffix = String::new();
    suffix.append("repos/");
    suffix.append(owner);
    suffix.append("/");
    suffix.append(repo);
    suffix.append("/commits/");
    suffix.append(sha1);
    suffix.append("/check-runs");
    let r = url("https://api.github.com/", suffix.as_str());
    proof {
        reveal_strlit("https://api.github.com/");
        reveal_strlit("https://api.github.com/repos/");
        reveal_strlit("repos/");
    }
    assert(r@ =~= "https://api.github.com/repos/"@ + owner@ + "/"@ + repo@ + "/commits/"@ + sha1@
        + "/check-runs"@);
    r
}

/// The headers every checks-API request carries.
pub fn checks_headers() -> (r: Vec<(String, String)>)
    ensures
        r@.len() == 3,
        r@[0].0@ == "user-agent"@ && r@[0].1@ == "tcfetch/0.4"@,
        r@[1].0@ == "Accept"@ && r@[1].1@ == "application/vnd.github+json"@,
        r@[2].0@ == "X-GitHub-Api-Version"@ && r@[2].1@ == "2022-11-28"@,
{
    let mut headers: Vec<(String, String)> = Vec::new();
    headers.push(("user-agent".to_owned(), "tcfetch/0.4".to_owned()));
    headers.push(("Accept".to_owned(), "application/vnd.github+json".to_owned()));
    headers.push(("X-GitHub-Api-Version".to_owned(), "2022-11-28".to_owned()));
    headers
}

/// The state of one paginated check-runs listing: the check runs of the
/// pages seen so far, in page order, and the total the last page reported.
pub struct ChecksPager {
    checks: Vec<CheckRun>,
    total: Option<u64>,
    pages: u64,
}

impl ChecksPager {
    /// The check runs accumulated so far, in page order.
    pub closed spec fn checks_seen(self) -> Seq<CheckRun> {
        self.checks@
    }

    /// The total count the last page reported, if any page was seen.
    pub closed spec fn total_reported(self) -> Option<u64> {
        self.total
    }

    /// How many pages have been fed in.
    pub closed spec fn pages_fetched(self) -> u64 {
        self.pages
    }

    /// The listing is finished when a reported total equals the number of
    /// check runs retrieved.
    pub open spec fn spec_finished(self) -> bool {
        self.total_reported() matches Some(t) && t == self.checks_seen().len()
    }

    /// A fresh listing: nothing seen, no total reported.
    pub fn new() -> (r: ChecksPager)
        ensures
            r.checks_seen() == Seq::<CheckRun>::empty(),
            r.total_reported() is None,
            r.pages_fetched() == 0,
    {
        ChecksPager { checks: Vec::new(), total: None, pages: 0 }
    }

    /// How many pages have been fed in.
    pub fn page_count(&self) -> (r: u64)
        ensures
            r == self.pages_fetched(),
    {
        self.pages
    }

    /// Whether the reported total equals the number retrieved.
    pub fn is_finished(&self) -> (r: bool)
        ensures
            r == self.spec_finished(),
    {
        match &self.total {
            Some(t) => *t == self.checks.len() as u64,
            None => false,
        }
    }

    /// The query parameters of the next page request: a page size of 100
    /// and no status filtering, plus the page number from the second page
    /// on (the first page is requested without one).
    pub fn next_query(&self) -> (r: Vec<(String, String)>)
        requires
            self.pages_fetched() < u64::MAX,
        ensures
            r@.len() == (if self.pages_fetched() > 0 { 3int } else { 2int }),
            r@[0].0@ == "per_page"@ && r@[0].1@ == "100"@,
            r@[1].0@ == "filter"@ && r@[1].1@ == "all"@,
            self.pages_fetched() > 0 ==> r@[2].0@ == "page"@ && r@[2].1@ == dec_str(
                (self.pages_fetched() + 1) as nat,
            ),
    {
        let mut query: Vec<(String, String)> = Vec::new();
        query.push(("per_page".to_owned(), "100".to_owned()));
        query.push(("filter".to_owned(), "all".to_owned()));
        if self.pages > 0 {
            query.push(("page".to_owned(), u64_to_string(self.pages + 1)));
        }
        query
    }

    /// Take in one page: its check runs are appended in order and its
    /// total count replaces the one reported before.
    pub fn feed(&mut self, resp: ChecksResponse)
        requires
            old(self).pages_fetched() < u64::MAX,
        ensures
            final(self).checks_seen() == old(self).checks_seen() + resp.check_runs@,
            final(self).total_reported() == Some(resp.total_count),
            final(self).pages_fetched() == old(self).pages_fetched() + 1,
    {
        let ChecksResponse { total_count, check_runs: mut page_runs } = resp;
        self.total = Some(total_count);
        self.pages = self.pages + 1;
        self.checks.append(&mut page_runs);
    }

    /// Hand out everything accumulated, ending the listing.
    pub fn into_checks(self) -> (r: Vec<CheckRun>)
        ensures
            r@ == self.checks_seen(),
    {
        self.checks
    }
}

} // verus!
