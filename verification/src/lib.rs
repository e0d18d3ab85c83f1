//! Client-side logic for locating the continuous-integration tasks that ran
//! for a source-repository revision, checking whether they have all finished,
//! and planning the download of a filtered subset of their output artifacts.
//!
//! Network and filesystem access happen outside this crate; every decision the
//! pipeline takes (provider selection, pagination, filtering, completion,
//! artifact selection and destination naming) is made here, with a contract.

use vstd::prelude::*;

pub mod download;
pub mod filter;
pub mod gh;
pub mod ghwpt;
pub mod hgmo;
pub mod strutil;
pub mod taskcluster;

use crate::filter::all_accept;
use crate::filter::TaskFilter;
use crate::ghwpt::spec_github_default_base;
use crate::ghwpt::GithubCI;
use crate::hgmo::spec_hg_path;
use crate::hgmo::spec_hgmo_default_base;
use crate::hgmo::HgmoCI;
use crate::strutil::str_eq;
use crate::taskcluster::spec_all_complete;
use crate::taskcluster::spec_index_base;
use crate::taskcluster::spec_queue_base;
use crate::taskcluster::tasks_complete;
use crate::taskcluster::TaskGroupTask;
use crate::taskcluster::Taskcluster;

verus! {

/// The failures the pipeline can report, from transport problems up to
/// provider-specific resolution failures.
#[derive(Debug, Clone, Copy, PartialEq, Eq, Structural)]
pub enum Error {
    /// Connection-level failure while talking to a provider.
    Transport,
    /// A response arrived with a non-2xx status, recorded here.
    HttpStatus(u16),
    /// A response body could not be parsed into the expected shape.
    Decode,
    /// A task-name filter pattern is not a valid regular expression.
    InvalidFilter,
    /// The repository identifier is not served by any known provider.
    UnknownRepo,
    /// A commit identifier is outside the accepted length range.
    InvalidCommitFormat,
    /// The revision lookup reported that no such revision exists.
    NoSuchRevision,
    /// No check matching the decision-task marker was found.
    NoDecisionTask,
    /// A decision-task check was found but carries no details URL.
    MissingDetailsUrl,
    /// The completeness gate was requested and some task is still running.
    TasksNotComplete,
    /// The download destination is not an existing directory.
    DestinationNotDirectory,
}

/// The CI provider serving one repository: either the GitHub-backed
/// variant or the revision-index-backed variant. Only these two exist, so
/// dispatch is a closed match rather than a trait object.
pub enum CiProvider {
    Github(GithubCI),
    Hgmo(HgmoCI),
}

impl CiProvider {
    /// A borrow of the provider's Taskcluster deployment.
    pub fn taskcluster(&self) -> (r: &Taskcluster)
        ensures
            *self matches CiProvider::Github(ci) ==> *r == ci.taskcluster,
            *self matches CiProvider::Hgmo(ci) ==> *r == ci.taskcluster,
    {
        match self {
            CiProvider::Github(ci) => ci.taskcluster(),
            CiProvider::Hgmo(ci) => ci.taskcluster(),
        }
    }

    /// The provider's default task filter.
    pub fn default_task_filter(&self) -> (r: Result<Vec<TaskFilter>, Error>)
        ensures
            ({
                let pattern = match *self {
                    CiProvider::Github(_) => crate::ghwpt::spec_github_default_filter(),
                    CiProvider::Hgmo(_) => crate::hgmo::spec_hgmo_default_filter(),
                };
                &&& r is Ok <==> crate::filter::regex_valid(
                    crate::filter::effective_pattern(pattern),
                )
                &&& (r matches Ok(fs) ==> fs@.len() == 1 && fs@[0].is_compiled_from(pattern))
                &&& (r matches Err(e) ==> e == Error::InvalidFilter)
            }),
    {
        match self {
            CiProvider::Github(ci) => ci.default_task_filter(),
            CiProvider::Hgmo(ci) => ci.default_task_filter(),
        }
    }

    /// The artifact name fetched when none is requested.
    pub fn default_artifact_name(&self) -> (r: &'static str)
        ensures
            *self matches CiProvider::Github(_) ==> r@ == "wpt_report.json.gz"@,
            *self matches CiProvider::Hgmo(_) ==> r@ == "wptreport.json"@,
    {
        match self {
            CiProvider::Github(ci) => ci.default_artifact_name(),
            CiProvider::Hgmo(ci) => ci.default_artifact_name(),
        }
    }
}

/// Select the CI provider for a repository identifier: `wpt` is served by
/// the GitHub-backed variant; every other identifier is looked up in the
/// revision-index allow-list, and an unknown one yields no provider.
pub fn get_ci(repo: &str, taskcluster_base: Option<&str>) -> (r: Option<CiProvider>)
    ensures
        repo@ == "wpt"@ ==> (r matches Some(ci) && ci matches CiProvider::Github(g) && {
            let base = match taskcluster_base {
                Some(b) => b@,
                None => spec_github_default_base(),
            };
            &&& g.taskcluster.index_base@ == spec_index_base(base)
            &&& g.taskcluster.queue_base@ == spec_queue_base(base)
        }),
        repo@ != "wpt"@ ==> {
            &&& (r is Some <==> spec_hg_path(repo@) is Some)
            &&& (r matches Some(ci) ==> ci matches CiProvider::Hgmo(h) && {
                let base = match taskcluster_base {
                    Some(b) => b@,
                    None => spec_hgmo_default_base(),
                };
                &&& h.repo@ == repo@
                &&& spec_hg_path(repo@) == Some(h.hg_path@)
                &&& h.taskcluster.index_base@ == spec_index_base(base)
                &&& h.taskcluster.queue_base@ == spec_queue_base(base)
            })
        },
{
    if str_eq(repo, "wpt") {
        Some(CiProvider::Github(GithubCI::new(taskcluster_base)))
    } else {
        match HgmoCI::for_repo(taskcluster_base, repo.to_owned()) {
            Some(ci) => Some(CiProvider::Hgmo(ci)),
            None => None,
        }
    }
}

/// Whether a task passes every filter of the list, judged on its display
/// name.
pub fn include_task(task: &TaskGroupTask, task_filters: &Vec<TaskFilter>) -> (r: bool)
    ensures
        r == all_accept(task_filters@, task.task.metadata.name@),
{
    crate::filter::name_matches_filters(task.task.metadata.name.as_str(), task_filters)
}

/// The tasks of the list that pass every filter, in their original order.
pub open spec fn spec_filter_tasks(
    tasks: Seq<TaskGroupTask>,
    filters: Seq<TaskFilter>,
) -> Seq<TaskGroupTask> {
    tasks.filter(|t: TaskGroupTask| all_accept(filters, t.task.metadata.name@))
}

/// One step of `spec_filter_tasks`, read forwards.
proof fn lemma_filter_tasks_step(tasks: Seq<TaskGroupTask>, filters: Seq<TaskFilter>, i: int)
    requires
        0 <= i < tasks.len(),
    ensures
        spec_filter_tasks(tasks.take(i + 1), filters) == spec_filter_tasks(tasks.take(i), filters)
            + (if all_accept(filters, tasks[i].task.metadata.name@) {
            seq![tasks[i]]
        } else {
            Seq::<TaskGroupTask>::empty()
        }),
{
    reveal(Seq::filter);
    assert(tasks.take(i + 1).drop_last() =~= tasks.take(i));
    assert(tasks.take(i + 1).last() == tasks[i]);
}

/// Narrow a task list to the tasks accepted by every filter, keeping
/// their order.
pub fn filter_tasks(tasks: Vec<TaskGroupTask>, task_filters: &Vec<TaskFilter>) -> (r: Vec<
    TaskGroupTask,
>)
    ensures
        r@ == spec_filter_tasks(tasks@, task_filters@),
{
    let ghost orig = tasks@;
    let ghost mut i: int = 0;
    let mut tasks = tasks;
    let mut out: Vec<TaskGroupTask> = Vec::new();
    while tasks.len() > 0
        invariant
            0 <= i <= orig.len(),
            tasks@ == orig.skip(i),
            out@ == spec_filter_tasks(orig.take(i), task_filters@),
        decreases tasks@.len(),
    {
        let t = tasks.remove(0);
        proof {
            assert(t == orig[i]);
            assert(orig.skip(i).remove(0) =~= orig.skip(i + 1));
            lemma_filter_tasks_step(orig, task_filters@, i);
        }
        if include_task(&t, task_filters) {
            out.push(t);
        }
        proof {
            i = i + 1;
        }
    }
    assert(orig.take(i) =~= orig);
    out
}

/// The pre-download completeness gate: when checking is requested, an
/// incomplete task set stops the run with `TasksNotComplete`; otherwise
/// work proceeds.
pub fn completion_gate(tasks: &Vec<TaskGroupTask>, check_complete: bool) -> (r: Result<(), Error>)
    ensures
        r is Ok <==> (!check_complete || spec_all_complete(tasks@)),
        r matches Err(e) ==> e == Error::TasksNotComplete,
{
    if check_complete && !tasks_complete(tasks) {
        Err(Error::TasksNotComplete)
    } else {
        Ok(())
    }
}

} // verus!
