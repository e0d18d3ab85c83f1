//! The revision-index-backed CI provider, used for the Mercurial-hosted
//! repositories: it validates the commit string, expands a possibly
//! abbreviated revision through the revision API, builds the well-known
//! index namespace for the revision's decision task, and resolves that
//! namespace to exactly one task-group identifier.

use vstd::prelude::*;
use vstd::string::StringExecFns;

use crate::filter::effective_pattern;
use crate::filter::regex_valid;
use crate::filter::TaskFilter;
use crate::strutil::str_eq;
use crate::strutil::url;
use crate::taskcluster::spec_index_base;
use crate::taskcluster::spec_queue_base;
use crate::taskcluster::IndexResponse;
use crate::taskcluster::Taskcluster;
use crate::Error;
use vstd::string::StrSliceExecFns;

verus! {

/// A revision record of the version-control API; `node` is the full
/// canonical hash.
#[derive(Debug)]
pub struct Revision {
    pub node: String,
    pub desc: String,
    pub user: String,
    pub parents: Vec<String>,
    pub phase: String,
    pub pushid: u64,
    pub pushuser: String,
}

/// The allow-list of supported repository identifiers, each mapped to its
/// path on the version-control host.
pub open spec fn spec_hg_path(repo: Seq<char>) -> Option<Seq<char>> {
    if repo == "try"@ {
        Some("try"@)
    } else if repo == "mozilla-release"@ {
        Some("releases/mozilla-release"@)
    } else if repo == "mozilla-beta"@ {
        Some("releases/mozilla-beta"@)
    } else if repo == "mozilla-central"@ {
        Some("mozilla-central"@)
    } else if repo == "mozilla-inbound"@ {
        Some("integration/mozilla-inbound"@)
    } else if repo == "autoland"@ {
        Some("integration/autoland"@)
    } else {
        None
    }
}

/// Look a repository identifier up in the allow-list.
pub fn hg_path(repo: &str) -> (r: Option<&'static str>)
    ensures
        r is Some <==> spec_hg_path(repo@) is Some,
        r matches Some(p) ==> spec_hg_path(repo@) == Some(p@),
{
    if str_eq(repo, "try") {
        Some("try")
    } else if str_eq(repo, "mozilla-release") {
        Some("releases/mozilla-release")
    } else if str_eq(repo, "mozilla-beta") {
        Some("releases/mozilla-beta")
    } else if str_eq(repo, "mozilla-central") {
        Some("mozilla-central")
    } else if str_eq(repo, "mozilla-inbound") {
        Some("integration/mozilla-inbound")
    } else if str_eq(repo, "autoland") {
        Some("integration/autoland")
    } else {
        None
    }
}

/// A commit string is acceptable when it is 12 to 40 characters long.
pub open spec fn spec_commit_is_valid(commit: Seq<char>) -> bool {
    12 <= commit.len() <= 40
}

/// Whether a commit string has an acceptable length.
pub fn commit_is_valid(commit: &str) -> (r: bool)
    ensures
        r == spec_commit_is_valid(commit@),
{
    let n = commit.unicode_len();
    12 <= n && n <= 40
}

/// Accept a commit string of valid length, and reject any other with
/// `InvalidCommitFormat`, before any network call is made.
pub fn validate_commit(commit: &str) -> (r: Result<(), Error>)
    ensures
        r is Ok <==> spec_commit_is_valid(commit@),
        r matches Err(e) ==> e == Error::InvalidCommitFormat,
{
    if commit_is_valid(commit) {
        Ok(())
    } else {
        Err(Error::InvalidCommitFormat)
    }
}

/// The revision-index-backed CI provider: its Taskcluster deployment, the
/// repository identifier, and the repository's path on the host.
pub struct HgmoCI {
    pub taskcluster: Taskcluster,
    pub repo: String,
    pub hg_path: &'static str,
}

/// The deployment this provider uses when no base URL is supplied.
pub open spec fn spec_hgmo_default_base() -> Seq<char> {
    "https://firefox-ci-tc.services.mozilla.com"@
}

/// The pattern of this provider's default task filter.
pub open spec fn spec_hgmo_default_filter() -> Seq<char> {
    "-web-platform-tests-|-spidermonkey-"@
}

impl HgmoCI {
    /// Build the provider for a repository of the allow-list, against the
    /// given Taskcluster base URL or the well-known production deployment.
    /// An identifier outside the allow-list yields no provider.
    pub fn for_repo(taskcluster_base: Option<&str>, repo: String) -> (r: Option<HgmoCI>)
        ensures
            r is Some <==> spec_hg_path(repo@) is Some,
            r matches Some(ci) ==> {
                let base = match taskcluster_base {
                    Some(b) => b@,
                    None => spec_hgmo_default_base(),
                };
                &&& ci.repo@ == repo@
                &&& spec_hg_path(repo@) == Some(ci.hg_path@)
                &&& ci.taskcluster.index_base@ == spec_index_base(base)
                &&& ci.taskcluster.queue_base@ == spec_queue_base(base)
            },
    {
        match hg_path(repo.as_str()) {
            Some(path) => {
                let base = match taskcluster_base {
                    Some(b) => b,
                    None => "https://firefox-ci-tc.services.mozilla.com",
                };
                Some(HgmoCI { taskcluster: Taskcluster::new(base), repo, hg_path: path })
            },
            None => None,
        }
    }

    /// A borrow of this provider's Taskcluster deployment.
    pub fn taskcluster(&self) -> (r: &Taskcluster)
        ensures
            r == self.taskcluster,
    {
        &self.taskcluster
    }

    /// The revision-API URL that expands `commit` for this repository.
    pub fn revision_url(&self, commit: &str) -> (r: String)
        ensures
            r@ == "https://hg.mozilla.org/"@ + self.hg_path@ + "/json-rev/"@ + commit@,
    {
        let mut u = String::new();
        u.append("https://hg.mozilla.org/");
        u.append(self.hg_path);
        u.append("/json-rev/");
        u.append(commit);
        u
    }

    /// The index-API URL that resolves a namespace to its task.
    pub fn index_url(&self, namespace: &str) -> (r: String)
        ensures
            r@ == self.taskcluster.index_base@ + "task/"@ + namespace@,
    {
        let mut suffix = String::new();
        suffix.append("task/");
        suffix.append(namespace);
        url(self.taskcluster.index_base.as_str(), suffix.as_str())
    }

    /// The index namespace of the decision task of `full_rev` in this
    /// repository.
    pub fn taskgraph_namespace(&self, full_rev: &str) -> (r: String)
        ensures
            r@ == "gecko.v2."@ + self.repo@ + ".revision."@ + full_rev@ + ".taskgraph.decision"@,
    {
        let mut ns = String::new();
        ns.append("gecko.v2.");
        ns.append(self.repo.as_str());
        ns.append(".revision.");
        ns.append(full_rev);
        ns.append(".taskgraph.decision");
        ns
    }

    /// This provider's default task filter: keep only the test-suite runs
    /// that produce reports. Fails only if the fixed pattern is not valid
    /// regular-expression syntax.
    pub fn default_task_filter(&self) -> (r: Result<Vec<TaskFilter>, Error>)
        ensures
            r is Ok <==> regex_valid(effective_pattern(spec_hgmo_default_filter())),
            r matches Ok(fs) ==> fs@.len() == 1 && fs@[0].is_compiled_from(
                spec_hgmo_default_filter(),
            ),
            r matches Err(e) ==> e == Error::InvalidFilter,
    {
        let filter = TaskFilter::new("-web-platform-tests-|-spidermonkey-")?;
        let mut filters: Vec<TaskFilter> = Vec::new();
        filters.push(filter);
        Ok(filters)
    }

    /// The artifact name fetched for this provider when none is requested.
    pub fn default_artifact_name(&self) -> (r: &'static str)
        ensures
            r@ == "wptreport.json"@,
    {
        "wptreport.json"
    }
}

/// Interpret the outcome of the revision lookup: a fetched record expands
/// the commit to its full hash; an HTTP 404 means the revision does not
/// exist (`NoSuchRevision`); any other failure propagates unchanged.
pub fn expand_revision_outcome(outcome: Result<Revision, Error>) -> (r: Result<String, Error>)
    ensures
        outcome matches Ok(rev) ==> r matches Ok(node) && node@ == rev.node@,
        outcome == Err::<Revision, Error>(Error::HttpStatus(404)) ==> r == Err::<String, Error>(
            Error::NoSuchRevision,
        ),
        outcome matches Err(e) ==> (e != Error::HttpStatus(404) ==> r == Err::<String, Error>(e)),
{
    match outcome {
        Ok(rev) => Ok(rev.node),
        Err(Error::HttpStatus(code)) => {
            if code == 404 {
                Err(Error::NoSuchRevision)
            } else {
                Err(Error::HttpStatus(code))
            }
        },
        Err(e) => Err(e),
    }
}

/// The single task-group identifier an index record resolves to: the
/// record's task identifier.
pub fn taskgroups_from_index(resp: IndexResponse) -> (r: Vec<String>)
    ensures
        r@.len() == 1,
        r@[0]@ == resp.taskId@,
{
    let mut groups: Vec<String> = Vec::new();
    groups.push(resp.taskId);
    groups
}

} // verus!
