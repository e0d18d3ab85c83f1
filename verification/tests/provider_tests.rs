use tcfetch::get_ci;
use tcfetch::gh::CheckOutput;
use tcfetch::gh::CheckRun;
use tcfetch::gh::RunStatus;
use tcfetch::ghwpt::taskgroups_from_checks;
use tcfetch::ghwpt::GithubCI;
use tcfetch::hgmo::commit_is_valid;
use tcfetch::hgmo::expand_revision_outcome;
use tcfetch::hgmo::hg_path;
use tcfetch::hgmo::validate_commit;
use tcfetch::hgmo::HgmoCI;
use tcfetch::hgmo::Revision;
use tcfetch::strutil::url;
use tcfetch::taskcluster::IndexResponse;
use tcfetch::taskcluster::Taskcluster;
use tcfetch::CiProvider;
use tcfetch::Error;

fn mk_check(name: &str, details_url: Option<&str>) -> CheckRun {
    CheckRun {
        id: 0,
        head_sha: String::new(),
        node_id: String::new(),
        external_id: None,
        url: String::new(),
        html_url: None,
        details_url: details_url.map(|u| u.to_string()),
        status: RunStatus::Completed,
        conclusion: None,
        started_at: None,
        completed_at: None,
        output: CheckOutput {
            title: None,
            summary: None,
            text: None,
            annotations_count: 0,
            annotations_url: String::new(),
        },
        name: name.to_string(),
        check_suite: None,
        app: None,
        pull_requests: vec![],
    }
}

fn mk_revision(node: &str) -> Revision {
    Revision {
        node: node.to_string(),
        desc: String::new(),
        user: String::new(),
        parents: vec![],
        phase: String::new(),
        pushid: 0,
        pushuser: String::new(),
    }
}

#[test]
fn commit_length_bounds_are_inclusive() {
    assert!(!commit_is_valid("abc"));
    assert!(!commit_is_valid(&"a".repeat(41)));
    assert!(!commit_is_valid(&"a".repeat(11)));
    assert!(commit_is_valid(&"a".repeat(12)));
    assert!(commit_is_valid(&"a".repeat(40)));

    assert_eq!(validate_commit("abc"), Err(Error::InvalidCommitFormat));
    assert_eq!(
        validate_commit(&"a".repeat(41)),
        Err(Error::InvalidCommitFormat)
    );
    assert_eq!(validate_commit(&"a".repeat(12)), Ok(()));
    assert_eq!(validate_commit(&"a".repeat(40)), Ok(()));
}

#[test]
fn decision_check_resolves_to_last_path_segment() {
    let checks = vec![
        mk_check("lint", Some("https://example.com/other/xyz")),
        mk_check(
            "wpt-decision-task",
            Some("https://tc.example/tasks/groups/abc123"),
        ),
    ];
    let groups = taskgroups_from_checks(&checks).unwrap();
    assert_eq!(groups, vec!["abc123".to_string()]);
}

#[test]
fn every_decision_check_contributes_a_group() {
    let checks = vec![
        mk_check("wpt-decision-task", Some("https://x/a/g1")),
        mk_check("other", None),
        mk_check("wpt-decision-task", Some("https://x/a/g2")),
    ];
    let groups = taskgroups_from_checks(&checks).unwrap();
    assert_eq!(groups, vec!["g1".to_string(), "g2".to_string()]);
}

#[test]
fn details_url_without_a_slash_is_taken_whole() {
    let checks = vec![mk_check("wpt-decision-task", Some("abc123"))];
    assert_eq!(
        taskgroups_from_checks(&checks).unwrap(),
        vec!["abc123".to_string()]
    );
    // a trailing slash leaves an empty last segment
    let checks = vec![mk_check("wpt-decision-task", Some("https://x/a/"))];
    assert_eq!(
        taskgroups_from_checks(&checks).unwrap(),
        vec!["".to_string()]
    );
}

#[test]
fn decision_check_without_details_url_fails() {
    let checks = vec![mk_check("wpt-decision-task", None)];
    assert!(matches!(
        taskgroups_from_checks(&checks),
        Err(Error::MissingDetailsUrl)
    ));
}

#[test]
fn no_decision_check_fails() {
    let checks = vec![mk_check("lint", Some("https://x/a/b"))];
    assert!(matches!(
        taskgroups_from_checks(&checks),
        Err(Error::NoDecisionTask)
    ));
    assert!(matches!(
        taskgroups_from_checks(&vec![]),
        Err(Error::NoDecisionTask)
    ));
}

#[test]
fn try_revision_resolves_through_namespace_and_index() {
    let hex = "0123456789abcdef0123456789abcdef01234567";
    let provider = get_ci("try", None).expect("try is in the allow-list");
    let ci = match provider {
        CiProvider::Hgmo(ci) => ci,
        CiProvider::Github(_) => panic!("try must use the revision-index provider"),
    };

    // an already-full revision expands to itself
    let full = expand_revision_outcome(Ok(mk_revision(hex))).unwrap();
    assert_eq!(full, hex);

    let ns = ci.taskgraph_namespace(&full);
    assert_eq!(
        ns,
        "gecko.v2.try.revision.0123456789abcdef0123456789abcdef01234567.taskgraph.decision"
    );
    assert_eq!(
        ci.index_url(&ns),
        format!(
            "https://firefox-ci-tc.services.mozilla.com/api/index/v1/task/{}",
            ns
        )
    );

    let resp = IndexResponse {
        namespace: ns,
        taskId: "tgid1".to_string(),
        rank: 0,
        expires: String::new(),
    };
    assert_eq!(
        tcfetch::hgmo::taskgroups_from_index(resp),
        vec!["tgid1".to_string()]
    );
}

#[test]
fn abbreviated_revision_expands_to_reported_node() {
    let full = "fedcba9876543210fedcba9876543210fedcba98";
    let expanded = expand_revision_outcome(Ok(mk_revision(full))).unwrap();
    assert_eq!(expanded, full);
}

#[test]
fn revision_lookup_404_means_no_such_revision() {
    assert_eq!(
        expand_revision_outcome(Err(Error::HttpStatus(404))),
        Err(Error::NoSuchRevision)
    );
    assert_eq!(
        expand_revision_outcome(Err(Error::HttpStatus(500))),
        Err(Error::HttpStatus(500))
    );
    assert_eq!(
        expand_revision_outcome(Err(Error::Transport)),
        Err(Error::Transport)
    );
}

#[test]
fn repo_allow_list_maps_to_host_paths() {
    assert_eq!(hg_path("try"), Some("try"));
    assert_eq!(hg_path("mozilla-release"), Some("releases/mozilla-release"));
    assert_eq!(hg_path("mozilla-beta"), Some("releases/mozilla-beta"));
    assert_eq!(hg_path("mozilla-central"), Some("mozilla-central"));
    assert_eq!(
        hg_path("mozilla-inbound"),
        Some("integration/mozilla-inbound")
    );
    assert_eq!(hg_path("autoland"), Some("integration/autoland"));
    assert_eq!(hg_path("github"), None);
}

#[test]
fn provider_selection_by_repo() {
    assert!(matches!(get_ci("wpt", None), Some(CiProvider::Github(_))));
    assert!(matches!(
        get_ci("autoland", None),
        Some(CiProvider::Hgmo(_))
    ));
    assert!(get_ci("no-such-repo", None).is_none());
}

#[test]
fn provider_defaults() {
    let github = get_ci("wpt", None).unwrap();
    assert_eq!(github.default_artifact_name(), "wpt_report.json.gz");
    let filters = github.default_task_filter().unwrap();
    assert_eq!(filters.len(), 1);
    assert!(filters[0].is_match("wpt-chrome-dev-results"));
    assert!(filters[0].is_match("wpt-firefox-nightly-results"));
    assert!(!filters[0].is_match("lint"));

    let hgmo = get_ci("try", None).unwrap();
    assert_eq!(hgmo.default_artifact_name(), "wptreport.json");
    let filters = hgmo.default_task_filter().unwrap();
    assert_eq!(filters.len(), 1);
    assert!(filters[0].is_match("test-linux64-web-platform-tests-1"));
    assert!(!filters[0].is_match("build-linux64"));
}

#[test]
fn deployment_base_urls() {
    let legacy = Taskcluster::new("https://taskcluster.net");
    assert_eq!(legacy.index_base, "https://index.taskcluster.net/v1/");
    assert_eq!(legacy.queue_base, "https://queue.taskcluster.net/v1/");

    let modern = Taskcluster::new("https://example.com");
    assert_eq!(modern.index_base, "https://example.com/api/index/v1/");
    assert_eq!(modern.queue_base, "https://example.com/api/queue/v1/");

    let github_default = GithubCI::new(None);
    assert_eq!(
        github_default.taskcluster.queue_base,
        "https://community-tc.services.mozilla.com/api/queue/v1/"
    );
    let github_override = GithubCI::new(Some("https://tc.example"));
    assert_eq!(
        github_override.taskcluster.queue_base,
        "https://tc.example/api/queue/v1/"
    );

    let hgmo_default = HgmoCI::for_repo(None, "try".to_string()).unwrap();
    assert_eq!(
        hgmo_default.taskcluster.index_base,
        "https://firefox-ci-tc.services.mozilla.com/api/index/v1/"
    );
}

#[test]
fn revision_url_uses_host_path() {
    let ci = HgmoCI::for_repo(None, "mozilla-beta".to_string()).unwrap();
    assert_eq!(
        ci.revision_url("abcdef123456"),
        "https://hg.mozilla.org/releases/mozilla-beta/json-rev/abcdef123456"
    );
}

#[test]
fn listing_urls_are_composed_from_the_queue_base() {
    let tc = Taskcluster::new("https://example.com");
    assert_eq!(
        tc.taskgroup_list_url("G1"),
        "https://example.com/api/queue/v1/task-group/G1/list"
    );
    assert_eq!(
        tc.artifacts_url("T1"),
        "https://example.com/api/queue/v1/task/T1/artifacts"
    );
    assert_eq!(url("a/", "b"), "a/b");
}
