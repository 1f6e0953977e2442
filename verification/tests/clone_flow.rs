use dot_agent_deck::clone_flow::{
    best_effort_warning, histories_related, claim_resume, forget_step, new_provision_clone, new_resumed_clones,
    point_origin_warning, provision_clone_step, release_resumed_isolated_clone_registration,
    new_sync_merged, remove_origin_warning, sync_merged_step, trimmed_output, worktrees_exclude_update, CloneAction,
    CloneEvent, CommandResult, ForgetEvent, ForgetStep, PostMergeSyncOutcome, ProvisionClone, RemoveResult,
    SyncAction, ISOLATED_CLONE_NO_ORIGIN_SENTINEL,
};
use dot_agent_deck::dispatch_run::{AddError, IsolatedCloneOutcome, ResumeRejection};

const SRC: &str = "/repo";
const CLONE: &str = "/repo-clones/feature";
const BRANCH: &str = "feature";
const CREATOR: &str = "orchestration:feature";

fn step(st: &mut ProvisionClone, event: CloneEvent) -> CloneAction {
    provision_clone_step(st, SRC, CLONE, BRANCH, CREATOR, event)
}

fn git_args(a: CloneAction) -> Vec<String> {
    match a {
        CloneAction::Git(v) => v,
        other => panic!("expected a git call, got {other:?}"),
    }
}

fn finish(a: CloneAction) -> Result<IsolatedCloneOutcome, String> {
    match a {
        CloneAction::Finish(r) => r,
        other => panic!("expected the end, got {other:?}"),
    }
}

fn ok() -> CommandResult {
    CommandResult::Exited { success: true, stdout: String::new(), stderr: String::new() }
}

fn failed(stderr: &str) -> CommandResult {
    CommandResult::Exited { success: false, stdout: String::new(), stderr: stderr.to_string() }
}

#[test]
fn clone_flow_fresh_clone_with_source_origin() {
    let mut st = new_provision_clone();
    assert!(matches!(step(&mut st, CloneEvent::Started), CloneAction::CheckTarget));
    assert_eq!(
        git_args(step(&mut st, CloneEvent::Exists(false))),
        ["clone", "--origin", "origin", "--", SRC, CLONE]
    );
    assert!(matches!(step(&mut st, CloneEvent::Ran(Ok(()))), CloneAction::WriteProvenanceAndReadSourceOrigin));
    match step(&mut st, CloneEvent::SourceOrigin(Some("git@github.com:o/r.git".into()))) {
        CloneAction::PointOrigin(url) => assert_eq!(url, "git@github.com:o/r.git"),
        other => panic!("expected the origin rewrite, got {other:?}"),
    }
    assert!(matches!(step(&mut st, CloneEvent::Warned(None)), CloneAction::ReadDefaultBranch));
    assert_eq!(
        git_args(step(&mut st, CloneEvent::DefaultBranch(Some("main".into())))),
        ["-C", CLONE, "rev-parse", "--verify", "--quiet", "refs/heads/feature"]
    );
    assert_eq!(
        git_args(step(&mut st, CloneEvent::Ran(Err(AddError::Failed(String::new()))))),
        ["-C", CLONE, "rev-parse", "--verify", "--quiet", "refs/remotes/origin/feature"]
    );
    assert_eq!(
        git_args(step(&mut st, CloneEvent::Ran(Ok(())))),
        ["-C", CLONE, "checkout", "-b", "feature", "--track", "origin/feature"]
    );
    match step(&mut st, CloneEvent::Ran(Ok(()))) {
        CloneAction::RemoveStrayBranch(b) => assert_eq!(b, "main"),
        other => panic!("expected the stray branch removal, got {other:?}"),
    }
    assert_eq!(git_args(step(&mut st, CloneEvent::Ran(Ok(())))), ["-C", CLONE, "fetch", "origin"]);
    assert!(matches!(step(&mut st, CloneEvent::Ran(Ok(()))), CloneAction::MarkOwned));
    assert_eq!(
        finish(step(&mut st, CloneEvent::Warned(None))),
        Ok(IsolatedCloneOutcome::Created { marker_warning: None, origin_warning: None })
    );
}

#[test]
fn clone_flow_source_without_origin_gets_the_sentinel_then_loses_it() {
    let mut st = new_provision_clone();
    step(&mut st, CloneEvent::Started);
    step(&mut st, CloneEvent::Exists(false));
    step(&mut st, CloneEvent::Ran(Ok(())));
    match step(&mut st, CloneEvent::SourceOrigin(None)) {
        CloneAction::PointOrigin(url) => assert_eq!(url, ISOLATED_CLONE_NO_ORIGIN_SENTINEL),
        other => panic!("expected the origin rewrite, got {other:?}"),
    }
    step(&mut st, CloneEvent::Warned(None));
    step(&mut st, CloneEvent::DefaultBranch(Some("feature".into())));
    // the branch is local: attached with a plain checkout
    assert_eq!(git_args(step(&mut st, CloneEvent::Ran(Ok(())))), ["-C", CLONE, "checkout", "feature"]);
    assert!(matches!(step(&mut st, CloneEvent::Ran(Ok(()))), CloneAction::RemoveOrigin));
    assert!(matches!(step(&mut st, CloneEvent::Warned(Some("no remote".into()))), CloneAction::MarkOwned));
    assert_eq!(
        finish(step(&mut st, CloneEvent::Warned(None))),
        Ok(IsolatedCloneOutcome::Created { marker_warning: None, origin_warning: Some("no remote".into()) })
    );
}

#[test]
fn clone_flow_absent_branch_is_created() {
    let mut st = new_provision_clone();
    step(&mut st, CloneEvent::Started);
    step(&mut st, CloneEvent::Exists(false));
    step(&mut st, CloneEvent::Ran(Ok(())));
    step(&mut st, CloneEvent::SourceOrigin(Some("https://example.com/r.git".into())));
    step(&mut st, CloneEvent::Warned(None));
    step(&mut st, CloneEvent::DefaultBranch(Some("main".into())));
    step(&mut st, CloneEvent::Ran(Err(AddError::Failed(String::new()))));
    assert_eq!(
        git_args(step(&mut st, CloneEvent::Ran(Err(AddError::Failed(String::new()))))),
        ["-C", CLONE, "checkout", "-b", "feature"]
    );
}

#[test]
fn clone_flow_resume_refusals_come_in_order() {
    let mut st = new_provision_clone();
    step(&mut st, CloneEvent::Started);
    assert!(matches!(step(&mut st, CloneEvent::Exists(true)), CloneAction::CheckProvenance));
    assert_eq!(
        finish(step(&mut st, CloneEvent::Exists(false))),
        Ok(IsolatedCloneOutcome::Rejected(ResumeRejection::Stranger))
    );

    let mut st = new_provision_clone();
    step(&mut st, CloneEvent::Started);
    step(&mut st, CloneEvent::Exists(true));
    assert!(matches!(step(&mut st, CloneEvent::Exists(true)), CloneAction::CheckHealth));
    assert_eq!(
        finish(step(&mut st, CloneEvent::Readable(false))),
        Ok(IsolatedCloneOutcome::Rejected(ResumeRejection::Unhealthy))
    );

    let mut st = new_provision_clone();
    step(&mut st, CloneEvent::Started);
    step(&mut st, CloneEvent::Exists(true));
    step(&mut st, CloneEvent::Exists(true));
    assert!(matches!(step(&mut st, CloneEvent::Readable(true)), CloneAction::CheckAncestry));
    assert_eq!(
        finish(step(&mut st, CloneEvent::AncestryMatches(false))),
        Ok(IsolatedCloneOutcome::Rejected(ResumeRejection::AncestryMismatch))
    );

    let mut st = new_provision_clone();
    step(&mut st, CloneEvent::Started);
    step(&mut st, CloneEvent::Exists(true));
    step(&mut st, CloneEvent::Exists(true));
    step(&mut st, CloneEvent::Readable(true));
    assert!(matches!(step(&mut st, CloneEvent::AncestryMatches(true)), CloneAction::ClaimResume));
    assert_eq!(
        finish(step(&mut st, CloneEvent::Claimed(false))),
        Ok(IsolatedCloneOutcome::Rejected(ResumeRejection::Contested))
    );
}

#[test]
fn clone_flow_resume_fetches_and_carries_a_failed_fetch_as_warning() {
    let mut st = new_provision_clone();
    step(&mut st, CloneEvent::Started);
    step(&mut st, CloneEvent::Exists(true));
    step(&mut st, CloneEvent::Exists(true));
    step(&mut st, CloneEvent::Readable(true));
    step(&mut st, CloneEvent::AncestryMatches(true));
    assert_eq!(git_args(step(&mut st, CloneEvent::Claimed(true))), ["-C", CLONE, "fetch", "origin"]);
    assert_eq!(
        finish(step(&mut st, CloneEvent::Ran(Err(AddError::Failed("offline".into()))))),
        Ok(IsolatedCloneOutcome::Resumed { fetch_warning: Some("offline".into()) })
    );
}

#[test]
fn clone_flow_failed_clone_without_directory_propagates() {
    let mut st = new_provision_clone();
    step(&mut st, CloneEvent::Started);
    step(&mut st, CloneEvent::Exists(false));
    assert!(matches!(
        step(&mut st, CloneEvent::Ran(Err(AddError::Failed("fatal: no such repo".into())))),
        CloneAction::CheckCloneDir
    ));
    assert_eq!(finish(step(&mut st, CloneEvent::Exists(false))), Err("fatal: no such repo".to_string()));
}

#[test]
fn clone_flow_preexisting_destination_is_never_cleaned_up() {
    let mut st = new_provision_clone();
    step(&mut st, CloneEvent::Started);
    step(&mut st, CloneEvent::Exists(false));
    let e = "fatal: destination path '/repo-clones/feature' already exists and is not an empty directory.";
    step(&mut st, CloneEvent::Ran(Err(AddError::Failed(e.into()))));
    assert_eq!(finish(step(&mut st, CloneEvent::Exists(true))), Ok(IsolatedCloneOutcome::AlreadyClaimed));
}

#[test]
fn clone_flow_partial_clone_of_ours_is_cleaned_up_naming_the_creator() {
    let mut st = new_provision_clone();
    step(&mut st, CloneEvent::Started);
    step(&mut st, CloneEvent::Exists(false));
    step(&mut st, CloneEvent::Ran(Err(AddError::Failed("fatal: early EOF".into()))));
    assert!(matches!(step(&mut st, CloneEvent::Exists(true)), CloneAction::CleanUp));
    assert!(matches!(step(&mut st, CloneEvent::CleanedUp(true)), CloneAction::RemoveProvenance));
    assert_eq!(
        finish(step(&mut st, CloneEvent::Warned(None))),
        Ok(IsolatedCloneOutcome::Failed {
            error: "fatal: early EOF".into(),
            cleaned_up_by: Some(CREATOR.to_string()),
        })
    );

    let mut st = new_provision_clone();
    step(&mut st, CloneEvent::Started);
    step(&mut st, CloneEvent::Exists(false));
    step(&mut st, CloneEvent::Ran(Err(AddError::TimedOut("timed out".into()))));
    step(&mut st, CloneEvent::Exists(true));
    assert_eq!(
        finish(step(&mut st, CloneEvent::CleanedUp(false))),
        Ok(IsolatedCloneOutcome::TimedOut { cleaned_up_by: None })
    );
}

#[test]
fn resumed_clone_registration_released_then_claimable_again() {
    let mut set = new_resumed_clones();
    assert!(claim_resume(&mut set, "/repo-clones/feature"));
    assert!(!claim_resume(&mut set, "/repo-clones/feature"));
    assert!(claim_resume(&mut set, "/repo-clones/other"));
    release_resumed_isolated_clone_registration(&mut set, "/repo-clones/feature");
    assert!(claim_resume(&mut set, "/repo-clones/feature"));
    assert!(!claim_resume(&mut set, "/repo-clones/other"));
}

fn out(stdout: &str) -> CommandResult {
    CommandResult::Exited { success: true, stdout: stdout.to_string(), stderr: String::new() }
}

/// Drive a sync to its end, answering the call whose arguments start with
/// each key with its reply (`ok()` otherwise); returns the calls and the
/// outcome.
fn run_sync(replies: &[(&str, CommandResult)]) -> (Vec<String>, Result<PostMergeSyncOutcome, String>) {
    let mut st = new_sync_merged();
    let mut calls = Vec::new();
    let mut act = sync_merged_step(&mut st, CLONE, "main", ok());
    loop {
        match act {
            SyncAction::Git(args) => {
                let call = args.join(" ");
                let reply = replies.iter().find(|(k, _)| call.starts_with(k)).map(|(_, r)| r.clone()).unwrap_or_else(ok);
                calls.push(call);
                act = sync_merged_step(&mut st, CLONE, "main", reply);
            }
            SyncAction::Finish(r) => return (calls, r),
        }
    }
}

#[test]
fn sync_flow_switches_a_clean_merged_workspace_to_main() {
    let (calls, outcome) = run_sync(&[("symbolic-ref", out("feat-020\n"))]);
    assert_eq!(
        calls,
        vec![
            "status --porcelain",
            "fetch --quiet origin",
            "merge-base --is-ancestor HEAD origin/main",
            "symbolic-ref --quiet --short HEAD",
            "checkout --quiet main",
            "merge --quiet --ff-only -- origin/main",
        ]
    );
    assert_eq!(outcome, Ok(PostMergeSyncOutcome::SwitchedToMain));
}

#[test]
fn sync_flow_refuses_with_uncommitted_changes() {
    let (calls, outcome) = run_sync(&[("status", out(" M src/lib.rs\n"))]);
    assert_eq!(calls, vec!["status --porcelain"]);
    match outcome {
        Ok(PostMergeSyncOutcome::LeftUntouched { reason }) => assert!(reason.contains("uncommitted")),
        other => panic!("expected a refusal, got {other:?}"),
    }
}

#[test]
fn sync_flow_refuses_a_local_commit_beyond_the_merge() {
    let (calls, outcome) = run_sync(&[("merge-base", failed(""))]);
    assert_eq!(calls.len(), 3);
    assert_eq!(
        outcome,
        Ok(PostMergeSyncOutcome::LeftUntouched {
            reason: "the workspace's HEAD is not fully contained in origin/main -- it carries a local commit the merge never captured, refusing to switch and potentially strand or discard it".into()
        })
    );
}

#[test]
fn sync_flow_reports_a_failed_fetch_and_a_spawn_failure() {
    let (_, outcome) = run_sync(&[("fetch", failed("  fatal: unable to access  \n"))]);
    assert_eq!(outcome, Err("git fetch origin failed in /repo-clones/feature: fatal: unable to access".to_string()));
    let (_, outcome) = run_sync(&[("status", CommandResult::SpawnFailed("No such file".into()))]);
    assert_eq!(outcome, Err("failed to check /repo-clones/feature for uncommitted changes: No such file".to_string()));
}

#[test]
fn workspace_030_failed_sync_never_leaves_workspace_switched_away_from_start() {
    let (calls, outcome) = run_sync(&[
        ("symbolic-ref", out("feat-030\n")),
        ("merge --quiet", failed("fatal: Not possible to fast-forward, aborting.")),
    ]);
    assert_eq!(calls.last().map(String::as_str), Some("checkout --quiet feat-030"));
    assert_eq!(
        outcome,
        Err("git merge --ff-only origin/main failed in /repo-clones/feature: fatal: Not possible to fast-forward, aborting."
            .to_string())
    );
}

#[test]
fn sync_flow_detached_workspace_is_restored_to_its_commit() {
    let (calls, outcome) = run_sync(&[
        ("symbolic-ref", failed("")),
        ("rev-parse", out("0123abcd\n")),
        ("merge --quiet", CommandResult::SpawnFailed("killed".into())),
        ("checkout --quiet 0123abcd", failed("error: would clobber")),
    ]);
    assert_eq!(calls[4], "rev-parse --verify HEAD");
    assert_eq!(calls.last().map(String::as_str), Some("checkout --quiet 0123abcd"));
    assert_eq!(
        outcome,
        Err("failed to fast-forward main to origin/main in /repo-clones/feature: killed; switching back to 0123abcd failed as well: error: would clobber".to_string())
    );
}

#[test]
fn forget_flow_refuses_without_confirmation_or_evidence() {
    let marker = "/state/provenance/abc";
    match forget_step(CLONE, marker, "cli", ForgetEvent::Started { confirmed: false }) {
        ForgetStep::Finish(Err(m)) => assert!(m.starts_with("refusing to forget: pass an explicit confirming flag")),
        other => panic!("expected a refusal, got {other:?}"),
    }
    assert!(matches!(
        forget_step(CLONE, marker, "cli", ForgetEvent::Started { confirmed: true }),
        ForgetStep::CheckProvenance
    ));
    match forget_step(CLONE, marker, "cli", ForgetEvent::ProvenanceChecked(false)) {
        ForgetStep::Finish(Err(m)) => {
            assert!(m.starts_with("refusing to forget /repo-clones/feature: no M4b ownership evidence"));
            assert!(m.contains("/state/provenance/abc"));
        }
        other => panic!("expected a refusal, got {other:?}"),
    }
}

#[test]
fn forget_flow_removes_directory_then_provenance() {
    let marker = "/state/provenance/abc";
    assert!(matches!(forget_step(CLONE, marker, "cli", ForgetEvent::ProvenanceChecked(true)), ForgetStep::RemoveDir));
    assert!(matches!(
        forget_step(CLONE, marker, "cli", ForgetEvent::DirRemoved(RemoveResult::NotFound)),
        ForgetStep::RemoveProvenance
    ));
    assert!(matches!(
        forget_step(CLONE, marker, "cli", ForgetEvent::ProvenanceRemoved(Ok(()))),
        ForgetStep::Finish(Ok(()))
    ));
    match forget_step(CLONE, marker, "cli", ForgetEvent::DirRemoved(RemoveResult::Failed("busy".into()))) {
        ForgetStep::Finish(Err(m)) => assert_eq!(
            m,
            "failed to remove workspace directory /repo-clones/feature (requested by cli): busy"
        ),
        other => panic!("expected an error, got {other:?}"),
    }
    match forget_step(CLONE, marker, "cli", ForgetEvent::ProvenanceRemoved(Err("denied".into()))) {
        ForgetStep::Finish(Err(m)) => assert_eq!(
            m,
            "failed to remove provenance artifact /state/provenance/abc (requested by cli): denied"
        ),
        other => panic!("expected an error, got {other:?}"),
    }
}

#[test]
fn command_output_helpers() {
    let out = CommandResult::Exited { success: true, stdout: "  main\n".into(), stderr: String::new() };
    assert_eq!(trimmed_output(&out), Some("main".to_string()));
    assert_eq!(trimmed_output(&ok()), None);
    assert_eq!(trimmed_output(&failed("x")), None);
    assert_eq!(best_effort_warning("step", &ok()), None);
    assert_eq!(best_effort_warning("step", &failed(" bad \n")), Some("step: bad".to_string()));
    assert_eq!(
        best_effort_warning("step", &CommandResult::SpawnFailed("gone".into())),
        Some("step: gone".to_string())
    );
    assert_eq!(
        point_origin_warning("u", &failed("e")),
        Some("failed to point the clone's origin at the source's own origin (u): e".to_string())
    );
    assert_eq!(
        remove_origin_warning(&failed("e")),
        Some("failed to remove the clone's default local-path origin: e".to_string())
    );
}

#[test]
fn histories_are_related_by_a_shared_root_and_matching_origins() {
    let roots = "1111aaaa\n";
    assert!(histories_related(None, None, roots, "2222bbbb\n1111aaaa\n"));
    assert!(histories_related(Some("u".into()), Some("u".into()), roots, roots));
    assert!(histories_related(None, Some("u".into()), roots, roots));
    assert!(!histories_related(Some("u".into()), Some("v".into()), roots, roots));
    assert!(!histories_related(None, None, roots, "2222bbbb\n"));
    assert!(!histories_related(None, None, "", ""));
    assert!(!histories_related(None, None, "\n \n", "\n"));
}

#[test]
fn exclude_update_appends_once() {
    let first = worktrees_exclude_update("# git ls-files --others\n*.log").expect("line missing");
    assert_eq!(first, "# git ls-files --others\n*.log\n.worktrees/\n");
    assert_eq!(worktrees_exclude_update(""), Some(".worktrees/\n".to_string()));
    assert_eq!(worktrees_exclude_update("a\n  .worktrees/  \nb"), None);
    assert_eq!(worktrees_exclude_update(&first), None);
}
