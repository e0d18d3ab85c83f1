use tcfetch::download::dest_file_name;
use tcfetch::download::plan_artifact_download;
use tcfetch::download::select_artifact;
use tcfetch::download::DownloadAction;
use tcfetch::taskcluster::Artifact;
use tcfetch::taskcluster::Task;
use tcfetch::taskcluster::TaskGroupTask;
use tcfetch::taskcluster::TaskGroupTaskStatus;
use tcfetch::taskcluster::TaskMetadata;
use tcfetch::taskcluster::TaskState;
use tcfetch::taskcluster::Taskcluster;

fn mk_task(name: &str, id: &str) -> TaskGroupTask {
    TaskGroupTask {
        status: TaskGroupTaskStatus {
            taskId: id.to_string(),
            provisionerId: String::new(),
            workerType: String::new(),
            schedulerId: String::new(),
            taskGroupId: String::new(),
            deadline: String::new(),
            expires: String::new(),
            retriesLeft: 0,
            state: TaskState::Completed,
            runs: vec![],
        },
        task: Task {
            provisionerId: String::new(),
            workerType: String::new(),
            schedulerId: String::new(),
            taskGroupId: String::new(),
            metadata: TaskMetadata {
                owner: String::new(),
                source: String::new(),
                description: String::new(),
                name: name.to_string(),
            },
        },
    }
}

fn mk_artifact(name: &str) -> Artifact {
    Artifact {
        storageType: "s3".to_string(),
        name: name.to_string(),
        expires: String::new(),
        contentType: String::new(),
    }
}

#[test]
fn artifact_selection_is_a_suffix_match() {
    let artifacts = vec![
        mk_artifact("public/logs/live.log"),
        mk_artifact("public/wpt_report.json"),
    ];
    // "wpt_report.json" ends with "report.json": the suffix match is deliberate
    assert_eq!(select_artifact(&artifacts, "report.json"), Some(1));
    assert_eq!(select_artifact(&artifacts, "live.log"), Some(0));
    assert_eq!(select_artifact(&artifacts, "wptreport.json"), None);
    assert_eq!(select_artifact(&vec![], "report.json"), None);
}

#[test]
fn first_matching_artifact_wins() {
    let artifacts = vec![
        mk_artifact("public/a/report.json"),
        mk_artifact("public/b/report.json"),
    ];
    assert_eq!(select_artifact(&artifacts, "report.json"), Some(0));
}

#[test]
fn destination_name_replaces_path_separators() {
    let task = mk_task("test-linux/opt", "TASK1");
    assert_eq!(
        dest_file_name(&task, "wptreport.json", false),
        "test-linux-opt-TASK1-wptreport.json"
    );
    assert_eq!(
        dest_file_name(&task, "wptreport.json", true),
        "test-linux-opt-TASK1-wptreport.json.zstd"
    );
}

#[test]
fn plan_fetches_the_artifact_url_when_destination_is_new() {
    let tc = Taskcluster::new("https://example.com");
    let task = mk_task("test/opt", "TASK1");
    let artifacts = vec![mk_artifact("public/wpt_report.json")];
    let plan = plan_artifact_download(&tc, &task, &artifacts, "report.json", false, false)
        .expect("an artifact matches");
    assert_eq!(plan.file_name, "test-opt-TASK1-report.json");
    match plan.action {
        DownloadAction::Fetch(url) => assert_eq!(
            url,
            "https://example.com/api/queue/v1/task/TASK1/artifacts/public/wpt_report.json"
        ),
        DownloadAction::Skip => panic!("a new destination must be fetched"),
    }
}

#[test]
fn plan_skips_an_existing_destination() {
    let tc = Taskcluster::new("https://example.com");
    let task = mk_task("test/opt", "TASK1");
    let artifacts = vec![mk_artifact("public/wpt_report.json")];
    let plan = plan_artifact_download(&tc, &task, &artifacts, "report.json", false, true)
        .expect("an artifact matches");
    assert_eq!(plan.file_name, "test-opt-TASK1-report.json");
    assert!(matches!(plan.action, DownloadAction::Skip));
}

#[test]
fn plan_yields_nothing_without_a_matching_artifact() {
    let tc = Taskcluster::new("https://example.com");
    let task = mk_task("test/opt", "TASK1");
    let artifacts = vec![mk_artifact("public/logs/live.log")];
    assert!(plan_artifact_download(&tc, &task, &artifacts, "report.json", false, false).is_none());
}

/// One download phase over a fixed task list: plans every task against the
/// set of files already present, records fetches, and returns the
/// destination paths produced.
fn run_download_phase(
    tc: &Taskcluster,
    tasks: &[(&str, &str)],
    artifacts: &Vec<Artifact>,
    existing: &mut Vec<String>,
) -> (Vec<String>, usize) {
    let mut paths = Vec::new();
    let mut fetches = 0;
    for (name, id) in tasks {
        let task = mk_task(name, id);
        let file_name = dest_file_name(&task, "report.json", false);
        let exists = existing.contains(&file_name);
        if let Some(plan) = plan_artifact_download(tc, &task, artifacts, "report.json", false, exists)
        {
            if let DownloadAction::Fetch(_) = plan.action {
                fetches += 1;
                existing.push(plan.file_name.clone());
            }
            paths.push(plan.file_name);
        }
    }
    (paths, fetches)
}

#[test]
fn second_download_run_fetches_nothing_and_names_the_same_paths() {
    let tc = Taskcluster::new("https://example.com");
    let tasks = [("test/opt-a", "T1"), ("test/opt-b", "T2")];
    let artifacts = vec![mk_artifact("public/wpt_report.json")];
    let mut existing: Vec<String> = Vec::new();

    let (first_paths, first_fetches) = run_download_phase(&tc, &tasks, &artifacts, &mut existing);
    assert_eq!(first_fetches, 2);

    let (second_paths, second_fetches) = run_download_phase(&tc, &tasks, &artifacts, &mut existing);
    assert_eq!(second_fetches, 0);
    assert_eq!(first_paths, second_paths);
}
