//! The GitHub-backed CI provider, used for the web-platform-tests
//! repository: it resolves a commit to task-group identifiers by scanning
//! the commit's check runs for the decision-task marker and taking the
//! last path segment of each marker's details URL.

use vstd::prelude::*;

use crate::filter::effective_pattern;
use crate::filter::regex_valid;
use crate::filter::TaskFilter;
use crate::gh::CheckRun;
use crate::strutil::after_last_slash;
use crate::strutil::str_after_last_slash;
use crate::strutil::str_eq;
use crate::taskcluster::Taskcluster;
use crate::Error;

verus! {

/// The check name that marks a decision task.
pub open spec fn spec_decision_name() -> Seq<char> {
    "wpt-decision-task"@
}

/// A check run is a decision-task marker when its name is exactly the
/// marker name.
pub open spec fn is_decision(c: CheckRun) -> bool {
    c.name@ == spec_decision_name()
}

/// A decision-task marker lacking a details URL: resolution cannot name a
/// task group for it.
pub open spec fn missing_details(c: CheckRun) -> bool {
    is_decision(c) && c.details_url is None
}

/// Some check run of the list is a decision-task marker.
pub open spec fn has_decision(checks: Seq<CheckRun>) -> bool {
    exists|j: int| 0 <= j < checks.len() && is_decision(checks[j])
}

/// Some decision-task marker of the list lacks a details URL.
pub open spec fn has_missing_details(checks: Seq<CheckRun>) -> bool {
    exists|j: int| 0 <= j < checks.len() && missing_details(checks[j])
}

/// The task-group identifiers the list of check runs resolves to: for
/// every decision-task marker with a details URL, the URL's last path
/// segment, in listing order.
pub open spec fn decision_ids(checks: Seq<CheckRun>) -> Seq<Seq<char>>
    decreases checks.len(),
{
    if checks.len() == 0 {
        Seq::empty()
    } else {
        decision_ids(checks.drop_last()) + (if is_decision(checks.last())
            && checks.last().details_url is Some {
            seq![after_last_slash(checks.last().details_url->0@)]
        } else {
            Seq::empty()
        })
    }
}

/// One step of `decision_ids`, read forwards.
proof fn lemma_decision_ids_step(checks: Seq<CheckRun>, i: int)
    requires
        0 <= i < checks.len(),
    ensures
        decision_ids(checks.take(i + 1)) == decision_ids(checks.take(i)) + (if is_decision(
            checks[i],
        ) && checks[i].details_url is Some {
            seq![after_last_slash(checks[i].details_url->0@)]
        } else {
            Seq::empty()
        }),
{
    assert(checks.take(i + 1).drop_last() =~= checks.take(i));
    assert(checks.take(i + 1).last() == checks[i]);
}

/// Scan a commit's check runs for decision-task markers and name the task
/// group behind each one. Fails with `MissingDetailsUrl` when some marker
/// carries no details URL, and with `NoDecisionTask` when no marker exists
/// at all.
pub fn taskgroups_from_checks(checks: &Vec<CheckRun>) -> (r: Result<Vec<String>, Error>)
    ensures
        r is Ok <==> has_decision(checks@) && !has_missing_details(checks@),
        r matches Ok(ids) ==> ids@.map_values(|s: String| s@) == decision_ids(checks@),
        r == Err::<Vec<String>, Error>(Error::MissingDetailsUrl) <==> has_missing_details(checks@),
        r == Err::<Vec<String>, Error>(Error::NoDecisionTask) <==> !has_decision(checks@)
            && !has_missing_details(checks@),
{
    let mut task_names: Vec<String> = Vec::new();
    let mut i: usize = 0;
    while i < checks.len()
        invariant
            i <= checks@.len(),
            task_names@.map_values(|s: String| s@) == decision_ids(checks@.take(i as int)),
            forall|k: int| 0 <= k < i ==> !missing_details(checks@[k]),
            task_names@.len() > 0 <==> exists|k: int|
                0 <= k < i && is_decision(#[trigger] checks@[k]),
        decreases checks@.len() - i,
    {
        let check = &checks[i];
        if str_eq(check.name.as_str(), "wpt-decision-task") {
            assert(is_decision(checks@[i as int]));
            match &check.details_url {
                Some(details_url) => {
                    let task_name = str_after_last_slash(details_url.as_str());
                    task_names.push(task_name);
                },
                None => {
                    assert(missing_details(checks@[i as int]));
                    return Err(Error::MissingDetailsUrl);
                },
            }
        }
        proof {
            lemma_decision_ids_step(checks@, i as int);
            assert(task_names@.map_values(|s: String| s@) =~= decision_ids(
                checks@.take(i + 1),
            ));
        }
        i += 1;
    }
    assert(checks@.take(i as int) =~= checks@);
    if task_names.len() == 0 {
        Err(Error::NoDecisionTask)
    } else {
        Ok(task_names)
    }
}

/// The GitHub-backed CI provider: its Taskcluster deployment.
pub struct GithubCI {
    pub taskcluster: Taskcluster,
}

/// The deployment this provider uses when no base URL is supplied.
pub open spec fn spec_github_default_base() -> Seq<char> {
    "https://community-tc.services.mozilla.com"@
}

/// The pattern of this provider's default task filter.
pub open spec fn spec_github_default_filter() -> Seq<char> {
    "-chrome-|-firefox-"@
}

impl GithubCI {
    /// Build the provider against the given Taskcluster base URL, or
    /// against the well-known production deployment when none is given.
    pub fn new(taskcluster_base: Option<&str>) -> (r: GithubCI)
        ensures
            ({
                let base = match taskcluster_base {
                    Some(b) => b@,
                    None => spec_github_default_base(),
                };
                &&& r.taskcluster.index_base@ == crate::taskcluster::spec_index_base(base)
                &&& r.taskcluster.queue_base@ == crate::taskcluster::spec_queue_base(base)
            }),
    {
        let base = match taskcluster_base {
            Some(b) => b,
            None => "https://community-tc.services.mozilla.com",
        };
        GithubCI { taskcluster: Taskcluster::new(base) }
    }

    /// A borrow of this provider's Taskcluster deployment.
    pub fn taskcluster(&self) -> (r: &Taskcluster)
        ensures
            r == self.taskcluster,
    {
        &self.taskcluster
    }

    /// This provider's default task filter: keep only the browser test
    /// runs. Fails only if the fixed pattern is not valid
    /// regular-expression syntax.
    pub fn default_task_filter(&self) -> (r: Result<Vec<TaskFilter>, Error>)
        ensures
            r is Ok <==> regex_valid(effective_pattern(spec_github_default_filter())),
            r matches Ok(fs) ==> fs@.len() == 1 && fs@[0].is_compiled_from(
                spec_github_default_filter(),
            ),
            r matches Err(e) ==> e == Error::InvalidFilter,
    {
        let filter = TaskFilter::new("-chrome-|-firefox-")?;
        let mut filters: Vec<TaskFilter> = Vec::new();
        filters.push(filter);
        Ok(filters)
    }

    /// The artifact name fetched for this provider when none is requested.
    pub fn default_artifact_name(&self) -> (r: &'static str)
        ensures
            r@ == "wpt_report.json.gz"@,
    {
        "wpt_report.json.gz"
    }
}

} // verus!
