use dot_agent_deck::dispatch_flow::NotifyEvent;
use dot_agent_deck::json::OpenIssue;
use dot_agent_deck::run_flow::{
    issues_to_consider, new_run_dispatch, run_dispatch_step, IssueDispatchConfig, RunAction, RunDispatch, RunEvent,
    RunJob,
};

fn job(working_dir: &str, triage: bool) -> RunJob {
    RunJob {
        task_name: "nightly".into(),
        working_dir: working_dir.into(),
        prompt_template: "Fix #{{issue_number}}".into(),
        cfg: IssueDispatchConfig {
            repo: "acme/widgets".into(),
            max_per_run: 2,
            label: Some("bug".into()),
            query: None,
            triage,
        },
        default_command: None,
        host: "box".into(),
    }
}

fn step(st: &mut RunDispatch, j: &RunJob, e: RunEvent) -> (Vec<NotifyEvent>, RunAction) {
    let s = run_dispatch_step(st, j, e);
    (s.notify, s.action)
}

fn argv(a: &RunAction) -> Vec<&str> {
    match a {
        RunAction::CaptureGit(v) | RunAction::RunGit(v) | RunAction::CaptureGh(v) | RunAction::RunGh(v) => {
            v.iter().map(String::as_str).collect()
        }
        other => panic!("expected a call, got {other:?}"),
    }
}

fn repo_error(message: &str) -> NotifyEvent {
    NotifyEvent::IssueDispatchRepoError { task: "nightly".into(), repo: "acme/widgets".into(), message: message.into() }
}

#[test]
fn run_flow_relative_workspace_is_a_repo_error() {
    let j = job("relative/dir", false);
    let mut st = new_run_dispatch();
    let (n, a) = step(&mut st, &j, RunEvent::Started);
    assert_eq!(
        n,
        vec![repo_error(
            "working_dir \"relative/dir\" is not absolute; issue-dispatch requires an absolute workspace root"
        )]
    );
    assert!(matches!(a, RunAction::Finish));
}

#[test]
fn run_flow_existing_clone_with_foreign_origin_is_refused() {
    let j = job("/ws", false);
    let mut st = new_run_dispatch();
    let (_, a) = step(&mut st, &j, RunEvent::Started);
    assert!(matches!(&a, RunAction::CheckDir(d) if d == "/ws/nightly"));
    let (_, a) = step(&mut st, &j, RunEvent::IsDir(true));
    assert_eq!(argv(&a), ["-C", "/ws/nightly", "remote", "get-url", "origin"]);
    let (n, a) = step(&mut st, &j, RunEvent::Captured(Ok("git@github.com:evil/fork.git\n".into())));
    assert_eq!(
        n,
        vec![repo_error(
            "clone dir /ws/nightly has origin \"git@github.com:evil/fork.git\", which does not match configured repo \"acme/widgets\"; refusing to fetch/pull (fail-closed)"
        )]
    );
    assert!(matches!(a, RunAction::Finish));
}

#[test]
fn run_flow_dispatches_each_issue_and_survives_a_failed_one() {
    let j = job("/ws", true);
    let mut st = new_run_dispatch();
    step(&mut st, &j, RunEvent::Started);
    step(&mut st, &j, RunEvent::IsDir(true));
    let (_, a) = step(&mut st, &j, RunEvent::Captured(Ok("https://github.com/Acme/Widgets.git".into())));
    assert_eq!(argv(&a), ["-C", "/ws/nightly", "fetch"]);
    let (_, a) = step(&mut st, &j, RunEvent::Ran(Ok(())));
    assert_eq!(argv(&a), ["-C", "/ws/nightly", "pull", "--ff-only"]);
    let (_, a) = step(&mut st, &j, RunEvent::Ran(Err("diverged".into())));
    assert!(matches!(&a, RunAction::EnsureExcluded(d) if d == "/ws/nightly"));
    let (_, a) = step(&mut st, &j, RunEvent::Ran(Ok(())));
    assert_eq!(
        argv(&a),
        ["issue", "list", "--repo", "acme/widgets", "--state", "open", "--json", "number,labels", "--limit", "2", "--label", "bug", "--"]
    );
    let listing = r#"[{"number":3},{"number":5,"labels":[{"name":"in-progress"}]},{"number":8}]"#;
    let (_, a) = step(&mut st, &j, RunEvent::Captured(Ok(listing.into())));
    assert_eq!(argv(&a)[..3], ["label", "create", "in-progress"]);
    let (_, a) = step(&mut st, &j, RunEvent::Ran(Ok(())));
    assert_eq!(argv(&a), ["api", "user", "--jq", ".login"]);
    // eight vocabulary labels with triage on
    let (_, mut a) = step(&mut st, &j, RunEvent::Captured(Ok("bot\n".into())));
    let vocabulary = [
        "priority-high",
        "priority-medium",
        "priority-low",
        "size-high",
        "size-medium",
        "size-low",
        "needs-triage",
        "chore",
    ];
    for name in vocabulary {
        assert_eq!(argv(&a)[..5], ["label", "create", name, "--repo", "acme/widgets"]);
        a = step(&mut st, &j, RunEvent::Ran(Err("exists".into()))).1;
    }
    match &a {
        RunAction::Dispatch(ij) => {
            assert_eq!(ij.issue, 3);
            assert!(!ij.label_in_progress);
            assert_eq!(ij.login.as_deref(), Some("bot"));
            assert_eq!(ij.clone_dir, "/ws/nightly");
        }
        other => panic!("expected a dispatch, got {other:?}"),
    }
    let (n, a) = step(&mut st, &j, RunEvent::IssueDone(Err("boom".into())));
    assert_eq!(
        n,
        vec![NotifyEvent::IssueDispatchFailed {
            task: "nightly".into(),
            repo: "acme/widgets".into(),
            issue: 3,
            message: "boom".into(),
        }]
    );
    match &a {
        RunAction::Dispatch(ij) => {
            assert_eq!(ij.issue, 5);
            assert!(ij.label_in_progress);
        }
        other => panic!("expected the next dispatch, got {other:?}"),
    }
    let (n, a) = step(&mut st, &j, RunEvent::IssueDone(Ok(())));
    assert!(n.is_empty());
    assert!(matches!(a, RunAction::Finish));
}

#[test]
fn run_flow_fresh_workspace_is_created_and_cloned() {
    let j = job("/ws", false);
    let mut st = new_run_dispatch();
    step(&mut st, &j, RunEvent::Started);
    let (_, a) = step(&mut st, &j, RunEvent::IsDir(false));
    assert!(matches!(&a, RunAction::CreateDir(d) if d == "/ws"));
    let (_, a) = step(&mut st, &j, RunEvent::Ran(Ok(())));
    assert_eq!(argv(&a), ["repo", "clone", "acme/widgets", "/ws/nightly"]);
    let (n, a) = step(&mut st, &j, RunEvent::Ran(Err("clone failed".into())));
    assert_eq!(n, vec![repo_error("clone failed")]);
    assert!(matches!(a, RunAction::Finish));
}

#[test]
fn run_flow_no_issues_finishes_after_login() {
    let j = job("/ws", false);
    let mut st = new_run_dispatch();
    step(&mut st, &j, RunEvent::Started);
    step(&mut st, &j, RunEvent::IsDir(false));
    step(&mut st, &j, RunEvent::Ran(Ok(())));
    step(&mut st, &j, RunEvent::Ran(Ok(())));
    step(&mut st, &j, RunEvent::Ran(Ok(())));
    step(&mut st, &j, RunEvent::Captured(Ok("[]".into())));
    step(&mut st, &j, RunEvent::Ran(Ok(())));
    let (n, a) = step(&mut st, &j, RunEvent::Captured(Err("no auth".into())));
    assert!(n.is_empty());
    assert!(matches!(a, RunAction::Finish));
}

#[test]
fn run_flow_malformed_listing_is_a_repo_error() {
    let j = job("/ws", false);
    let mut st = new_run_dispatch();
    step(&mut st, &j, RunEvent::Started);
    step(&mut st, &j, RunEvent::IsDir(false));
    step(&mut st, &j, RunEvent::Ran(Ok(())));
    step(&mut st, &j, RunEvent::Ran(Ok(())));
    step(&mut st, &j, RunEvent::Ran(Ok(())));
    let (n, a) = step(&mut st, &j, RunEvent::Captured(Ok("{\"not\":\"an array\"}".into())));
    assert_eq!(n, vec![repo_error("`gh issue list` did not return a JSON array")]);
    assert!(matches!(a, RunAction::Finish));
}

#[test]
fn issues_to_consider_keeps_the_first_ones_in_order() {
    let issues = vec![
        OpenIssue { number: 4, in_progress_label: false },
        OpenIssue { number: 2, in_progress_label: true },
        OpenIssue { number: 9, in_progress_label: false },
    ];
    let firsts: Vec<u64> = issues_to_consider(issues.clone(), 2).iter().map(|i| i.number).collect();
    assert_eq!(firsts, vec![4, 2]);
    assert_eq!(issues_to_consider(issues.clone(), 10).len(), 3);
    assert!(issues_to_consider(issues, 0).is_empty());
}
