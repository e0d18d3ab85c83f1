//! The per-task download decisions of the orchestrator: which artifact of
//! a task matches the requested name, what the destination file is called,
//! and whether the file is fetched or skipped because it already exists.
//!
//! One plan is computed per task; the fetch (or skip) itself is carried
//! out outside this crate. Planning is deterministic in the task, the
//! artifact list, the requested name and the compress flag; a destination
//! that already exists is always skipped, so running the download phase a
//! second time against the same directory fetches nothing and names the
//! same destination files.

use vstd::prelude::*;
use vstd::string::StringExecFns;

use crate::strutil::ends_with;
use crate::strutil::replace_slashes;
use crate::strutil::str_ends_with;
use crate::strutil::str_replace_slashes;
use crate::taskcluster::Artifact;
use crate::taskcluster::TaskGroupTask;
use crate::taskcluster::Taskcluster;

verus! {

/// Position `j` holds the first artifact whose name ends with `suffix`.
pub open spec fn spec_first_match(artifacts: Seq<Artifact>, suffix: Seq<char>, j: int) -> bool {
    &&& 0 <= j < artifacts.len()
    &&& ends_with(artifacts[j].name@, suffix)
    &&& forall|k: int| 0 <= k < j ==> !ends_with(#[trigger] artifacts[k].name@, suffix)
}

/// Find the first artifact whose name ends with the requested name. This
/// is a substring-suffix match, not an exact-segment match: a request also
/// matches any longer artifact name that happens to end with the same
/// text, so callers needing exact identity pass a longer suffix.
pub fn select_artifact(artifacts: &Vec<Artifact>, artifact_name: &str) -> (r: Option<usize>)
    ensures
        r matches Some(j) ==> spec_first_match(artifacts@, artifact_name@, j as int),
        r is None ==> forall|k: int|
            0 <= k < artifacts@.len() ==> !ends_with(#[trigger] artifacts@[k].name@, artifact_name@),
{
    let mut i: usize = 0;
    while i < artifacts.len()
        invariant
            i <= artifacts@.len(),
            forall|k: int| 0 <= k < i ==> !ends_with(#[trigger] artifacts@[k].name@, artifact_name@),
        decreases artifacts@.len() - i,
    {
        if str_ends_with(artifacts[i].name.as_str(), artifact_name) {
            return Some(i);
        }
        i += 1;
    }
    None
}

/// The destination file name of one task's artifact: the task's display
/// name with `/` replaced by `-`, the task identifier and the requested
/// artifact name, joined by `-`, plus a compression suffix when
/// compressing.
pub open spec fn dest_file_name_spec(
    task_name: Seq<char>,
    task_id: Seq<char>,
    artifact_name: Seq<char>,
    compress: bool,
) -> Seq<char> {
    replace_slashes(task_name) + "-"@ + task_id + "-"@ + artifact_name + (if compress {
        ".zstd"@
    } else {
        Seq::empty()
    })
}

/// Compute the destination file name for one task.
pub fn dest_file_name(task: &TaskGroupTask, artifact_name: &str, compress: bool) -> (r: String)
    ensures
        r@ == dest_file_name_spec(
            task.task.metadata.name@,
            task.status.taskId@,
            artifact_name@,
            compress,
        ),
{
    let mut name = str_replace_slashes(task.task.metadata.name.as_str());
    name.append("-");
    name.append(task.status.taskId.as_str());
    name.append("-");
    name.append(artifact_name);
    if compress {
        name.append(".zstd");
    }
    assert(name@ =~= dest_file_name_spec(
        task.task.metadata.name@,
        task.status.taskId@,
        artifact_name@,
        compress,
    ));
    name
}

/// What the worker does for one task once its plan is made.
#[derive(Debug)]
pub enum DownloadAction {
    /// The destination already exists: trust it and fetch nothing.
    Skip,
    /// Stream the artifact at this URL into the destination.
    Fetch(String),
}

/// The decision for one task: the destination file name and the action.
#[derive(Debug)]
pub struct DownloadPlan {
    pub file_name: String,
    pub action: DownloadAction,
}

/// Decide what to do for one task: pick the first artifact whose name ends
/// with the requested name (no plan when none matches), name the
/// destination file, and either skip — when the destination already exists
/// — or fetch the artifact's direct URL.
pub fn plan_artifact_download(
    tc: &Taskcluster,
    task: &TaskGroupTask,
    artifacts: &Vec<Artifact>,
    artifact_name: &str,
    compress: bool,
    dest_exists: bool,
) -> (r: Option<DownloadPlan>)
    ensures
        r is Some <==> exists|j: int|
            0 <= j < artifacts@.len() && ends_with(#[trigger] artifacts@[j].name@, artifact_name@),
        r matches Some(plan) ==> {
            &&& plan.file_name@ == dest_file_name_spec(
                task.task.metadata.name@,
                task.status.taskId@,
                artifact_name@,
                compress,
            )
            &&& dest_exists ==> plan.action is Skip
            &&& !dest_exists ==> (plan.action matches DownloadAction::Fetch(u) && exists|j: int|
                #[trigger] spec_first_match(artifacts@, artifact_name@, j) && u@ == tc.queue_base@
                    + "task/"@ + task.status.taskId@ + "/artifacts/"@ + artifacts@[j].name@)
        },
{
    match select_artifact(artifacts, artifact_name) {
        Some(j) => {
            let file_name = dest_file_name(task, artifact_name, compress);
            let action = if dest_exists {
                DownloadAction::Skip
            } else {
                let log_url = tc.get_log_url(task.status.taskId.as_str(), &artifacts[j]);
                DownloadAction::Fetch(log_url)
            };
            assert(ends_with(artifacts@[j as int].name@, artifact_name@));
            Some(DownloadPlan { file_name, action })
        },
        None => None,
    }
}

} // verus!
