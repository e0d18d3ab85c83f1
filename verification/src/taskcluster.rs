//! The task-group data model (tasks, lifecycle states, artifacts), the
//! queue/index URL scheme, the paginated task-group listing, and the
//! completion oracle over a set of tasks.
//!
//! Listing a task group is paginated by a continuation token. The fetch
//! itself happens outside this crate; `TaskGroupPager` holds the state of
//! one listing, says which query the next page needs, and accumulates the
//! pages it is fed, in page order.

use vstd::prelude::*;
use vstd::string::StringExecFns;

use crate::strutil::str_eq;
use crate::strutil::url;

verus! {

/// Lifecycle state of a CI task. `Unscheduled`, `Pending` and `Running` are
/// non-terminal; `Completed`, `Failed` and `Exception` are terminal.
#[derive(Debug, Clone, Copy, PartialEq, Eq, Structural)]
pub enum TaskState {
    Unscheduled,
    Pending,
    Running,
    Completed,
    Failed,
    Exception,
}

/// A state is terminal when no further transition can occur from it.
pub open spec fn is_terminal(state: TaskState) -> bool {
    match state {
        TaskState::Unscheduled | TaskState::Pending | TaskState::Running => false,
        TaskState::Completed | TaskState::Failed | TaskState::Exception => true,
    }
}

impl TaskState {
    /// Whether this state is terminal.
    pub fn is_complete(&self) -> (r: bool)
        ensures
            r == is_terminal(*self),
    {
        match self {
            TaskState::Unscheduled | TaskState::Pending | TaskState::Running => false,
            TaskState::Completed | TaskState::Failed | TaskState::Exception => true,
        }
    }
}

/// One record of the build index: a namespace resolved to a task.
#[allow(non_snake_case)]
#[derive(Debug)]
pub struct IndexResponse {
    pub namespace: String,
    pub taskId: String,
    pub rank: u64,
    pub expires: String,
}

/// The artifact list of one task.
#[derive(Debug)]
pub struct ArtifactsResponse {
    pub artifacts: Vec<Artifact>,
}

/// A named output file attached to a task.
#[allow(non_snake_case)]
#[derive(Debug)]
pub struct Artifact {
    pub storageType: String,
    pub name: String,
    pub expires: String,
    pub contentType: String,
}

/// One page of a task-group listing; `continuationToken` is present when
/// more pages remain.
#[allow(non_snake_case)]
#[derive(Debug)]
pub struct TaskGroupResponse {
    pub taskGroupId: String,
    pub tasks: Vec<TaskGroupTask>,
    pub continuationToken: Option<String>,
}

/// One task of a task group: its status record and its definition.
#[derive(Debug)]
pub struct TaskGroupTask {
    pub status: TaskGroupTaskStatus,
    pub task: Task,
}

/// The status record of a task: identity, lifecycle state, run attempts.
#[allow(non_snake_case)]
#[derive(Debug)]
pub struct TaskGroupTaskStatus {
    pub taskId: String,
    pub provisionerId: String,
    pub workerType: String,
    pub schedulerId: String,
    pub taskGroupId: String,
    pub deadline: String,
    pub expires: String,
    pub retriesLeft: u64,
    pub state: TaskState,
    pub runs: Vec<TaskRun>,
}

/// One run attempt of a task.
#[allow(non_snake_case)]
#[derive(Debug)]
pub struct TaskRun {
    pub runId: u64,
    pub state: TaskState,
    pub reasonCreated: String,
    pub reasonResolved: Option<String>,
    pub workerGroup: Option<String>,
    pub workerId: Option<String>,
    pub takenUntil: Option<String>,
    pub scheduled: Option<String>,
    pub started: Option<String>,
    pub resolved: Option<String>,
}

/// The definition of a task, as the provider records it.
#[allow(non_snake_case)]
#[derive(Debug)]
pub struct Task {
    pub provisionerId: String,
    pub workerType: String,
    pub schedulerId: String,
    pub taskGroupId: String,
    pub metadata: TaskMetadata,
}

/// Descriptive metadata of a task; `name` is what filters run against.
#[derive(Debug)]
pub struct TaskMetadata {
    pub owner: String,
    pub source: String,
    pub description: String,
    pub name: String,
}

/// The two service endpoints of one Taskcluster deployment.
pub struct Taskcluster {
    pub index_base: String,
    pub queue_base: String,
}

/// The index base URL a deployment base resolves to: the legacy deployment
/// keeps its historical per-service host; any other serves under `/api/`.
pub open spec fn spec_index_base(base: Seq<char>) -> Seq<char> {
    if base == "https://taskcluster.net"@ {
        "https://index.taskcluster.net/v1/"@
    } else {
        base + "/api/index/v1/"@
    }
}

/// The queue base URL a deployment base resolves to.
pub open spec fn spec_queue_base(base: Seq<char>) -> Seq<char> {
    if base == "https://taskcluster.net"@ {
        "https://queue.taskcluster.net/v1/"@
    } else {
        base + "/api/queue/v1/"@
    }
}

impl Taskcluster {
    /// Derive the index and queue base URLs from a deployment base URL.
    pub fn new(taskcluster_base: &str) -> (r: Taskcluster)
        ensures
            r.index_base@ == spec_index_base(taskcluster_base@),
            r.queue_base@ == spec_queue_base(taskcluster_base@),
    {
        if str_eq(taskcluster_base, "https://taskcluster.net") {
            Taskcluster {
                index_base: "https://index.taskcluster.net/v1/".to_owned(),
                queue_base: "https://queue.taskcluster.net/v1/".to_owned(),
            }
        } else {
            Taskcluster {
                index_base: url(taskcluster_base, "/api/index/v1/"),
                queue_base: url(taskcluster_base, "/api/queue/v1/"),
            }
        }
    }

    /// The queue URL that lists one page of a task group.
    pub fn taskgroup_list_url(&self, taskgroup_id: &str) -> (r: String)
        ensures
            r@ == self.queue_base@ + "task-group/"@ + taskgroup_id@ + "/list"@,
    {
        let mut suffix = String::new();
        suffix.append("task-group/");
        suffix.append(taskgroup_id);
        suffix.append("/list");
        url(self.queue_base.as_str(), suffix.as_str())
    }

    /// The queue URL that lists the artifacts of one task.
    pub fn artifacts_url(&self, task_id: &str) -> (r: String)
        ensures
            r@ == self.queue_base@ + "task/"@ + task_id@ + "/artifacts"@,
    {
        let mut suffix = String::new();
        suffix.append("task/");
        suffix.append(task_id);
        suffix.append("/artifacts");
        url(self.queue_base.as_str(), suffix.as_str())
    }

    /// The direct URL of one artifact of one task: pure string composition,
    /// no network call.
    pub fn get_log_url(&self, task_id: &str, artifact: &Artifact) -> (r: String)
        ensures
            r@ == self.queue_base@ + "task/"@ + task_id@ + "/artifacts/"@ + artifact.name@,
    {
        let mut suffix = String::new();
        suffix.append("task/");
        suffix.append(task_id);
        suffix.append("/artifacts/");
        suffix.append(artifact.name.as_str());
        url(self.queue_base.as_str(), suffix.as_str())
    }
}

/// The state of one paginated task-group listing: the tasks of the pages
/// seen so far, in page order, and the continuation token of the last page.
pub struct TaskGroupPager {
    tasks: Vec<TaskGroupTask>,
    continuation: Option<String>,
    finished: bool,
}

impl TaskGroupPager {
    /// The tasks accumulated so far, in page order.
    pub closed spec fn tasks_seen(self) -> Seq<TaskGroupTask> {
        self.tasks@
    }

    /// The continuation token the next page request must carry, if any.
    pub closed spec fn spec_continuation(self) -> Option<String> {
        self.continuation
    }

    /// Whether the last page seen carried no continuation token.
    pub closed spec fn spec_finished(self) -> bool {
        self.finished
    }

    /// Whether the last page seen carried no continuation token.
    pub fn is_finished(&self) -> (r: bool)
        ensures
            r == self.spec_finished(),
    {
        self.finished
    }

    /// A fresh listing: nothing seen, no token, not finished.
    pub fn new() -> (r: TaskGroupPager)
        ensures
            r.tasks_seen() == Seq::<TaskGroupTask>::empty(),
            r.spec_continuation() is None,
            !r.spec_finished(),
    {
        TaskGroupPager { tasks: Vec::new(), continuation: None, finished: false }
    }

    /// The query parameters of the next page request: the continuation
    /// token of the previous page when there was one, else no parameters.
    pub fn next_query(&self) -> (r: Option<Vec<(String, String)>>)
        ensures
            self.spec_continuation() matches Some(token) ==> {
                &&& r matches Some(q)
                &&& q@.len() == 1
                &&& q@[0].0@ == "continuationToken"@
                &&& q@[0].1@ == token@
            },
            self.spec_continuation() is None ==> r is None,
    {
        match &self.continuation {
            Some(token) => {
                let mut q: Vec<(String, String)> = Vec::new();
                q.push(("continuationToken".to_owned(), token.clone()));
                Some(q)
            },
            None => None,
        }
    }

    /// Take in one page: its tasks are appended in order, and the listing
    /// is finished exactly when the page carries no continuation token.
    pub fn feed(&mut self, page: TaskGroupResponse)
        requires
            !old(self).spec_finished(),
        ensures
            final(self).tasks_seen() == old(self).tasks_seen() + page.tasks@,
            final(self).spec_finished() == (page.continuationToken is None),
            final(self).spec_continuation() == page.continuationToken,
    {
        let TaskGroupResponse { taskGroupId: _, tasks: mut page_tasks, continuationToken } = page;
        self.finished = continuationToken.is_none();
        self.continuation = continuationToken;
        self.tasks.append(&mut page_tasks);
    }

    /// Hand out everything accumulated, ending the listing.
    pub fn into_tasks(self) -> (r: Vec<TaskGroupTask>)
        ensures
            r@ == self.tasks_seen(),
    {
        self.tasks
    }
}

/// Every task of the list is in a terminal state.
pub open spec fn spec_all_complete(tasks: Seq<TaskGroupTask>) -> bool {
    forall|i: int| 0 <= i < tasks.len() ==> is_terminal(tasks[i].status.state)
}

/// The completion oracle: true exactly when every task of the list has
/// reached a terminal state.
pub fn tasks_complete(tasks: &Vec<TaskGroupTask>) -> (r: bool)
    ensures
        r == spec_all_complete(tasks@),
{
    let mut i: usize = 0;
    while i < tasks.len()
        invariant
            i <= tasks@.len(),
            forall|k: int| 0 <= k < i ==> is_terminal(tasks@[k].status.state),
        decreases tasks@.len() - i,
    {
        if !tasks[i].status.state.is_complete() {
            return false;
        }
        i += 1;
    }
    true
}

/// An empty task list is vacuously complete.
pub proof fn lemma_all_complete_empty()
    ensures
        spec_all_complete(Seq::<TaskGroupTask>::empty()),
{
}

/// A list holding some task in a non-terminal state is not complete.
pub proof fn lemma_incomplete_witness(tasks: Seq<TaskGroupTask>, i: int)
    requires
        0 <= i < tasks.len(),
        !is_terminal(tasks[i].status.state),
    ensures
        !spec_all_complete(tasks),
{
}

} // verus!
