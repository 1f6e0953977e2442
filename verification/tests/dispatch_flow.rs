use dot_agent_deck::dispatch_flow::{
    assignee_removals, claimant_of_reply, dispatch_creator_label, dispatch_issue_step, dispatch_prompt,
    new_issue_dispatch, resolve_login_reply, IssueAction, IssueDispatch, IssueEvent, IssueJob, NotifyEvent,
    SkipReason, SpawnKind,
};
use dot_agent_deck::dispatch_run::WorktreeCreation;
use dot_agent_deck::registry::{new_worktree_registry, take_worktree, RemovalPolicy, WorktreeRegistry};

const WT: &str = "/ws/nightly/.worktrees/issue-7";

fn job(label: bool, login: Option<&str>) -> IssueJob {
    IssueJob {
        task_name: "nightly".into(),
        repo: "acme/widgets".into(),
        workspace: "/ws".into(),
        prompt_template: "Fix issue #{{issue_number}}.".into(),
        triage: false,
        default_command: Some("agent-cli".into()),
        issue: 7,
        label_in_progress: label,
        clone_dir: "/ws/nightly".into(),
        login: login.map(str::to_string),
        host: "box".into(),
    }
}

fn run(st: &mut IssueDispatch, j: &IssueJob, reg: &mut WorktreeRegistry, e: IssueEvent) -> (Vec<NotifyEvent>, IssueAction) {
    let s = dispatch_issue_step(st, j, reg, e);
    (s.notify, s.action)
}

fn args(a: &IssueAction) -> Vec<&str> {
    match a {
        IssueAction::Capture(v) | IssueAction::Run(v) => v.iter().map(String::as_str).collect(),
        other => panic!("expected a gh call, got {other:?}"),
    }
}

fn skip(reason: SkipReason) -> NotifyEvent {
    NotifyEvent::IssueDispatchSkipped {
        task: "nightly".into(),
        repo: "acme/widgets".into(),
        issue: 7,
        branch: "agent/issue-7".into(),
        reason,
    }
}

#[test]
fn dispatch_flow_worktree_on_disk_skips_without_any_gh_call() {
    let j = job(false, None);
    let mut reg = new_worktree_registry();
    let mut st = new_issue_dispatch();
    let (n, a) = run(&mut st, &j, &mut reg, IssueEvent::Started);
    assert!(n.is_empty());
    assert!(matches!(&a, IssueAction::CheckPath(p) if p == WT));
    let (n, a) = run(&mut st, &j, &mut reg, IssueEvent::Exists(true));
    assert_eq!(n, vec![skip(SkipReason::WorktreeExists)]);
    assert!(matches!(a, IssueAction::Finish(Ok(()))));
}

#[test]
fn dispatch_flow_labelled_issue_skips_naming_the_claimant() {
    let j = job(true, None);
    let mut reg = new_worktree_registry();
    let mut st = new_issue_dispatch();
    run(&mut st, &j, &mut reg, IssueEvent::Started);
    let (_, a) = run(&mut st, &j, &mut reg, IssueEvent::Exists(false));
    assert_eq!(args(&a), ["issue", "view", "--repo", "acme/widgets", "--json", "comments,assignees", "--", "7"]);
    let body = "Claimed by the orchestration `o` working `/w` on branch `b` at 2026-01-01T00:00:00Z.";
    let reply = format!(r#"{{"comments":[{{"body":"{body}"}}]}}"#);
    let (n, a) = run(&mut st, &j, &mut reg, IssueEvent::Captured(Ok(reply)));
    assert_eq!(n, vec![skip(SkipReason::Labelled { claimant: Some(body.to_string()) })]);
    assert!(matches!(a, IssueAction::Finish(Ok(()))));
}

#[test]
fn dispatch_flow_labelled_issue_with_unreadable_comments_still_skips() {
    let j = job(true, None);
    let mut reg = new_worktree_registry();
    let mut st = new_issue_dispatch();
    run(&mut st, &j, &mut reg, IssueEvent::Started);
    run(&mut st, &j, &mut reg, IssueEvent::Exists(false));
    let (n, _) = run(&mut st, &j, &mut reg, IssueEvent::Captured(Err("gh: 502".into())));
    assert_eq!(n, vec![skip(SkipReason::Labelled { claimant: None })]);
}

#[test]
fn dispatch_flow_open_pr_skips_and_bad_probe_fails() {
    let j = job(false, None);
    let mut reg = new_worktree_registry();
    let mut st = new_issue_dispatch();
    run(&mut st, &j, &mut reg, IssueEvent::Started);
    let (_, a) = run(&mut st, &j, &mut reg, IssueEvent::Exists(false));
    assert_eq!(
        args(&a),
        ["pr", "list", "--repo", "acme/widgets", "--state", "open", "--head", "agent/issue-7", "--json", "number", "--"]
    );
    let (n, a) = run(&mut st, &j, &mut reg, IssueEvent::Captured(Ok(r#"[{"number":12}]"#.into())));
    assert_eq!(n, vec![skip(SkipReason::OpenPr)]);
    assert!(matches!(a, IssueAction::Finish(Ok(()))));

    let mut st = new_issue_dispatch();
    run(&mut st, &j, &mut reg, IssueEvent::Started);
    run(&mut st, &j, &mut reg, IssueEvent::Exists(false));
    let (n, a) = run(&mut st, &j, &mut reg, IssueEvent::Captured(Ok("{}".into())));
    assert!(n.is_empty());
    assert!(matches!(a, IssueAction::Finish(Err(ref m)) if m == "`gh pr list` did not return a JSON array"));

    let mut st = new_issue_dispatch();
    run(&mut st, &j, &mut reg, IssueEvent::Started);
    run(&mut st, &j, &mut reg, IssueEvent::Exists(false));
    let (_, a) = run(&mut st, &j, &mut reg, IssueEvent::Captured(Ok("[".into())));
    assert!(matches!(a, IssueAction::Finish(Err(ref m)) if m.starts_with("failed to parse `gh pr list` JSON: ")));
}

#[test]
fn dispatch_flow_full_dispatch_records_spawns_and_claims() {
    let j = job(false, Some("bot"));
    let mut reg = new_worktree_registry();
    let mut st = new_issue_dispatch();
    run(&mut st, &j, &mut reg, IssueEvent::Started);
    run(&mut st, &j, &mut reg, IssueEvent::Exists(false));
    let (n, a) = run(&mut st, &j, &mut reg, IssueEvent::Captured(Ok("[]".into())));
    assert!(n.is_empty());
    match &a {
        IssueAction::CreateWorktree { clone_dir, worktree_dir, branch, creator } => {
            assert_eq!(clone_dir, "/ws/nightly");
            assert_eq!(worktree_dir, WT);
            assert_eq!(branch, "agent/issue-7");
            assert_eq!(creator, "issue-dispatch:nightly#7");
        }
        other => panic!("expected the worktree creation, got {other:?}"),
    }
    let created = WorktreeCreation::Created { marker_warning: Some("read-only".into()) };
    let (n, a) = run(&mut st, &j, &mut reg, IssueEvent::Created(Ok(created)));
    assert_eq!(
        n,
        vec![NotifyEvent::IssueWorktreeMarkerWarning {
            task: "nightly".into(),
            repo: "acme/widgets".into(),
            issue: 7,
            worktree: WT.into(),
            error: "read-only".into(),
        }]
    );
    match &a {
        IssueAction::Spawn(req) => {
            assert_eq!(req.working_dir, WT);
            assert_eq!(req.prompt, "Fix issue #7.");
            assert_eq!(req.command.as_deref(), Some("agent-cli"));
            assert_eq!(req.owner.as_deref(), Some("issue-dispatch:nightly#7"));
        }
        other => panic!("expected the spawn, got {other:?}"),
    }
    let (n, a) = run(&mut st, &j, &mut reg, IssueEvent::Spawned(Ok(SpawnKind::SingleAgent), WT.into()));
    assert_eq!(n, vec![NotifyEvent::IssueDispatched { task: "nightly".into(), repo: "acme/widgets".into(), issue: 7 }]);
    assert_eq!(args(&a), ["issue", "view", "--repo", "acme/widgets", "--json", "comments,assignees", "--", "7"]);
    let reply = r#"{"assignees":[{"login":"alice"},{"login":"bot"}]}"#;
    let (_, a) = run(&mut st, &j, &mut reg, IssueEvent::Captured(Ok(reply.into())));
    assert!(matches!(a, IssueAction::ReadClock));
    let (_, a) = run(&mut st, &j, &mut reg, IssueEvent::Timestamp("2026-08-09T00:00:00Z".into()));
    assert_eq!(
        args(&a),
        [
            "issue",
            "comment",
            "--repo",
            "acme/widgets",
            "--body",
            "Claimed by the issue-dispatch task `nightly` (issue #7) working `/ws/nightly/.worktrees/issue-7` on branch `agent/issue-7` on host box at 2026-08-09T00:00:00Z, for @bot.",
            "--",
            "7",
        ]
    );
    let (_, a) = run(&mut st, &j, &mut reg, IssueEvent::Ran(Ok(())));
    assert_eq!(args(&a), ["issue", "edit", "--repo", "acme/widgets", "--add-label", "in-progress", "--", "7"]);
    let (n, a) = run(&mut st, &j, &mut reg, IssueEvent::Ran(Err("label missing".into())));
    assert_eq!(
        n,
        vec![NotifyEvent::IssueClaimFailed {
            task: "nightly".into(),
            repo: "acme/widgets".into(),
            issue: 7,
            message: "failed to write the in-progress label: label missing".into(),
        }]
    );
    assert_eq!(
        args(&a),
        ["issue", "edit", "--repo", "acme/widgets", "--add-assignee", "bot", "--remove-assignee", "alice", "--", "7"]
    );
    let (n, a) = run(&mut st, &j, &mut reg, IssueEvent::Ran(Ok(())));
    assert!(n.is_empty());
    assert!(matches!(a, IssueAction::Finish(Ok(()))));
    let entry = take_worktree(&mut reg, WT).expect("the worktree stays recorded for tab-close cleanup");
    assert_eq!(entry.clone_dir, "/ws/nightly");
    assert_eq!(entry.policy, RemovalPolicy::KeepIfDirty);
}

#[test]
fn dispatch_flow_without_login_claims_without_assignee() {
    let j = job(false, None);
    let mut reg = new_worktree_registry();
    let mut st = new_issue_dispatch();
    run(&mut st, &j, &mut reg, IssueEvent::Started);
    run(&mut st, &j, &mut reg, IssueEvent::Exists(false));
    run(&mut st, &j, &mut reg, IssueEvent::Captured(Ok("[]".into())));
    run(&mut st, &j, &mut reg, IssueEvent::Created(Ok(WorktreeCreation::Created { marker_warning: None })));
    let kind = SpawnKind::Orchestration { name: "orch`x".into() };
    let (_, a) = run(&mut st, &j, &mut reg, IssueEvent::Spawned(Ok(kind), WT.into()));
    assert!(matches!(a, IssueAction::ReadClock));
    let (_, a) = run(&mut st, &j, &mut reg, IssueEvent::Timestamp("T".into()));
    assert_eq!(
        args(&a)[5],
        "Claimed by the orchestration `orchx` working `/ws/nightly/.worktrees/issue-7` on branch `agent/issue-7` on host box at T."
    );
    run(&mut st, &j, &mut reg, IssueEvent::Ran(Ok(())));
    let (_, a) = run(&mut st, &j, &mut reg, IssueEvent::Ran(Ok(())));
    assert!(matches!(a, IssueAction::Finish(Ok(()))));
}

#[test]
fn dispatch_flow_failed_spawn_drops_the_record_and_fails_the_issue() {
    let j = job(false, None);
    let mut reg = new_worktree_registry();
    let mut st = new_issue_dispatch();
    run(&mut st, &j, &mut reg, IssueEvent::Started);
    run(&mut st, &j, &mut reg, IssueEvent::Exists(false));
    run(&mut st, &j, &mut reg, IssueEvent::Captured(Ok("[]".into())));
    run(&mut st, &j, &mut reg, IssueEvent::Created(Ok(WorktreeCreation::Created { marker_warning: None })));
    let (n, a) = run(&mut st, &j, &mut reg, IssueEvent::Spawned(Err("no pane".into()), WT.into()));
    assert!(n.is_empty());
    assert!(matches!(a, IssueAction::Finish(Err(ref m)) if m == "no pane"));
    assert_eq!(take_worktree(&mut reg, WT), None);
}

#[test]
fn dispatch_flow_concurrent_creator_skips() {
    let j = job(false, None);
    let mut reg = new_worktree_registry();
    let mut st = new_issue_dispatch();
    run(&mut st, &j, &mut reg, IssueEvent::Started);
    run(&mut st, &j, &mut reg, IssueEvent::Exists(false));
    run(&mut st, &j, &mut reg, IssueEvent::Captured(Ok("[]".into())));
    let (n, a) = run(&mut st, &j, &mut reg, IssueEvent::Created(Ok(WorktreeCreation::AlreadyClaimed)));
    assert_eq!(n, vec![skip(SkipReason::ConcurrentCreator)]);
    assert!(matches!(a, IssueAction::Finish(Ok(()))));
}

#[test]
fn dispatch_helpers() {
    assert_eq!(resolve_login_reply(Ok(" octo-cat \n".into())), Some("octo-cat".to_string()));
    assert_eq!(resolve_login_reply(Ok("".into())), None);
    assert_eq!(resolve_login_reply(Ok("not a login!".into())), None);
    assert_eq!(resolve_login_reply(Err("offline".into())), None);
    assert_eq!(claimant_of_reply(Ok(r#"{"comments":[]}"#.into())), None);
    assert_eq!(claimant_of_reply(Ok("garbage".into())), None);
    assert_eq!(
        assignee_removals(&vec!["alice".into(), "bot".into(), "carol".into(), "bot".into()], "bot"),
        vec!["alice".to_string(), "carol".to_string()]
    );
    assert_eq!(dispatch_creator_label("nightly", 42), "issue-dispatch:nightly#42");
    assert_eq!(dispatch_prompt("Work on {{issue_number}} ({{issue_number}})", 9, false), "Work on 9 (9)");
    let triaged = dispatch_prompt("Work on {{issue_number}}", 9, true);
    assert!(triaged.starts_with("Work on 9\n\nTriage this issue using the following labels: "));
}

#[test]
fn dispatch_flow_claim_names_the_worktree_as_resolved_on_disk() {
    let j = job(false, None);
    let mut reg = new_worktree_registry();
    let mut st = new_issue_dispatch();
    run(&mut st, &j, &mut reg, IssueEvent::Started);
    run(&mut st, &j, &mut reg, IssueEvent::Exists(false));
    run(&mut st, &j, &mut reg, IssueEvent::Captured(Ok("[]".into())));
    run(&mut st, &j, &mut reg, IssueEvent::Created(Ok(WorktreeCreation::Created { marker_warning: None })));
    let resolved = "/private/ws/nightly/.worktrees/issue-7";
    run(&mut st, &j, &mut reg, IssueEvent::Spawned(Ok(SpawnKind::SingleAgent), resolved.into()));
    let (_, a) = run(&mut st, &j, &mut reg, IssueEvent::Timestamp("T".into()));
    assert_eq!(
        args(&a)[5],
        "Claimed by the issue-dispatch task `nightly` (issue #7) working `/private/ws/nightly/.worktrees/issue-7` on branch `agent/issue-7` on host box at T."
    );
    assert!(take_worktree(&mut reg, WT).is_some());
}
