use dot_agent_deck::dispatch_run::{worktree_add_backoff, WorktreeCreation};
use dot_agent_deck::worktree_flow::{
    create_worktree_step, new_create_worktree, CreateAction, CreateEvent, CreatePhase, CreateWorktree,
};

const CLONE: &str = "/ws/task";
const WT: &str = "/ws/task/.worktrees/issue-7";
const BRANCH: &str = "agent/issue-7";

fn step(st: &mut CreateWorktree, reuse: bool, event: CreateEvent) -> CreateAction {
    create_worktree_step(st, CLONE, WT, BRANCH, reuse, "issue-dispatch:nightly#7", event)
}

fn strs(v: &[String]) -> Vec<&str> {
    v.iter().map(String::as_str).collect()
}

#[test]
fn create_flow_fresh_branch_is_created_and_marked() {
    let mut st = new_create_worktree(true);
    match step(&mut st, false, CreateEvent::Started) {
        CreateAction::ProbeBranch(argv) => assert_eq!(
            strs(&argv),
            ["-C", CLONE, "rev-parse", "--verify", "--quiet", "refs/heads/agent/issue-7"]
        ),
        other => panic!("expected a branch probe, got {other:?}"),
    }
    match step(&mut st, false, CreateEvent::BranchProbed(Some(false))) {
        CreateAction::Add(argv) => {
            assert_eq!(strs(&argv), ["-C", CLONE, "worktree", "add", WT, "-b", BRANCH])
        }
        other => panic!("expected an add, got {other:?}"),
    }
    assert!(matches!(step(&mut st, false, CreateEvent::AddRan(Some(Ok(())))), CreateAction::CheckWorktreeDir));
    assert!(matches!(step(&mut st, false, CreateEvent::DirChecked(true)), CreateAction::MarkOwned));
    match step(&mut st, false, CreateEvent::Marked(None)) {
        CreateAction::Finish(r) => assert_eq!(r, Ok(WorktreeCreation::Created { marker_warning: None })),
        other => panic!("expected the end, got {other:?}"),
    }
    assert_eq!(st.phase, CreatePhase::Done);
}

#[test]
fn create_flow_marker_failure_is_carried_not_fatal() {
    let mut st = new_create_worktree(false);
    step(&mut st, false, CreateEvent::Started);
    step(&mut st, false, CreateEvent::BranchProbed(Some(false)));
    step(&mut st, false, CreateEvent::AddRan(Some(Ok(()))));
    step(&mut st, false, CreateEvent::DirChecked(true));
    match step(&mut st, false, CreateEvent::Marked(Some("disk full".into()))) {
        CreateAction::Finish(r) => assert_eq!(
            r,
            Ok(WorktreeCreation::Created { marker_warning: Some("disk full".to_string()) })
        ),
        other => panic!("expected the end, got {other:?}"),
    }
}

#[test]
fn create_flow_existing_branch_with_dir_present_is_a_live_claim() {
    let mut st = new_create_worktree(true);
    step(&mut st, false, CreateEvent::Started);
    assert!(matches!(step(&mut st, false, CreateEvent::BranchProbed(Some(true))), CreateAction::CheckWorktreeDir));
    match step(&mut st, false, CreateEvent::DirChecked(true)) {
        CreateAction::Finish(r) => assert_eq!(r, Ok(WorktreeCreation::AlreadyClaimed)),
        other => panic!("expected the end, got {other:?}"),
    }
}

#[test]
fn create_flow_existing_branch_without_dir_is_a_leftover_branch() {
    let mut st = new_create_worktree(true);
    step(&mut st, false, CreateEvent::Started);
    step(&mut st, false, CreateEvent::BranchProbed(Some(true)));
    match step(&mut st, false, CreateEvent::DirChecked(false)) {
        CreateAction::Finish(r) => assert_eq!(r, Ok(WorktreeCreation::BranchExists)),
        other => panic!("expected the end, got {other:?}"),
    }
}

#[test]
fn create_flow_reused_branch_is_attached_without_dash_b() {
    let mut st = new_create_worktree(false);
    step(&mut st, true, CreateEvent::Started);
    match step(&mut st, true, CreateEvent::BranchProbed(Some(true))) {
        CreateAction::Add(argv) => assert_eq!(strs(&argv), ["-C", CLONE, "worktree", "add", WT, BRANCH]),
        other => panic!("expected an add, got {other:?}"),
    }
}

#[test]
fn create_flow_genuine_failure_without_dir_propagates() {
    let mut st = new_create_worktree(true);
    step(&mut st, false, CreateEvent::Started);
    step(&mut st, false, CreateEvent::BranchProbed(Some(false)));
    step(&mut st, false, CreateEvent::AddRan(Some(Err("fatal: not a git repository".into()))));
    match step(&mut st, false, CreateEvent::DirChecked(false)) {
        CreateAction::Finish(r) => assert_eq!(r, Err("fatal: not a git repository".to_string())),
        other => panic!("expected the end, got {other:?}"),
    }
}

#[test]
fn create_flow_failure_with_dir_present_is_a_concurrent_claim() {
    let mut st = new_create_worktree(true);
    step(&mut st, false, CreateEvent::Started);
    step(&mut st, false, CreateEvent::BranchProbed(Some(false)));
    step(&mut st, false, CreateEvent::AddRan(Some(Err("fatal: already exists".into()))));
    match step(&mut st, false, CreateEvent::DirChecked(true)) {
        CreateAction::Finish(r) => assert_eq!(r, Ok(WorktreeCreation::AlreadyClaimed)),
        other => panic!("expected the end, got {other:?}"),
    }
}

#[test]
fn create_flow_retries_short_reads_with_doubling_backoff_then_gives_up() {
    let mut st = new_create_worktree(true);
    step(&mut st, false, CreateEvent::Started);
    let short = "fatal: failed to read .git/worktrees/x/commondir: Success";
    let mut sleeps = Vec::new();
    for _ in 0..4 {
        step(&mut st, false, CreateEvent::BranchProbed(Some(false)));
        match step(&mut st, false, CreateEvent::AddRan(Some(Err(short.into())))) {
            CreateAction::Sleep(ms) => sleeps.push(ms),
            other => panic!("expected a backoff, got {other:?}"),
        }
        assert!(matches!(step(&mut st, false, CreateEvent::Slept), CreateAction::ProbeBranch(_)));
    }
    assert_eq!(sleeps, vec![100, 200, 400, 800]);
    assert_eq!(st.attempt, 5);
    step(&mut st, false, CreateEvent::BranchProbed(Some(false)));
    assert!(matches!(
        step(&mut st, false, CreateEvent::AddRan(Some(Err(short.into())))),
        CreateAction::CheckWorktreeDir
    ));
    match step(&mut st, false, CreateEvent::DirChecked(false)) {
        CreateAction::Finish(r) => assert_eq!(r, Err(short.to_string())),
        other => panic!("expected the end, got {other:?}"),
    }
}

#[test]
fn create_flow_interactive_path_does_not_retry_short_reads() {
    let mut st = new_create_worktree(false);
    step(&mut st, false, CreateEvent::Started);
    step(&mut st, false, CreateEvent::BranchProbed(Some(false)));
    assert!(matches!(
        step(&mut st, false, CreateEvent::AddRan(Some(Err("commondir".into())))),
        CreateAction::CheckWorktreeDir
    ));
}

#[test]
fn create_flow_timed_out_add_is_cleaned_up_naming_the_creator() {
    let mut st = new_create_worktree(true);
    step(&mut st, false, CreateEvent::Started);
    step(&mut st, false, CreateEvent::BranchProbed(Some(false)));
    step(&mut st, false, CreateEvent::AddRan(None));
    match step(&mut st, false, CreateEvent::DirChecked(true)) {
        CreateAction::CleanUp(argv) => {
            assert_eq!(strs(&argv), ["-C", CLONE, "worktree", "remove", "--force", "--", WT])
        }
        other => panic!("expected a cleanup, got {other:?}"),
    }
    match step(&mut st, false, CreateEvent::CleanedUp(true)) {
        CreateAction::Finish(r) => assert_eq!(
            r,
            Ok(WorktreeCreation::TimedOut { cleaned_up_by: Some("issue-dispatch:nightly#7".to_string()) })
        ),
        other => panic!("expected the end, got {other:?}"),
    }
}

#[test]
fn create_flow_timed_out_add_without_dir_reports_the_timeout() {
    let mut st = new_create_worktree(true);
    step(&mut st, false, CreateEvent::Started);
    step(&mut st, false, CreateEvent::BranchProbed(Some(false)));
    step(&mut st, false, CreateEvent::AddRan(None));
    match step(&mut st, false, CreateEvent::DirChecked(false)) {
        CreateAction::Finish(r) => assert_eq!(
            r,
            Err("`git worktree add` for /ws/task/.worktrees/issue-7 timed out after 30s".to_string())
        ),
        other => panic!("expected the end, got {other:?}"),
    }
}

#[test]
fn create_flow_failed_cleanup_names_nobody() {
    let mut st = new_create_worktree(true);
    step(&mut st, false, CreateEvent::Started);
    step(&mut st, false, CreateEvent::BranchProbed(Some(false)));
    step(&mut st, false, CreateEvent::AddRan(None));
    step(&mut st, false, CreateEvent::DirChecked(true));
    match step(&mut st, false, CreateEvent::CleanedUp(false)) {
        CreateAction::Finish(r) => assert_eq!(r, Ok(WorktreeCreation::TimedOut { cleaned_up_by: None })),
        other => panic!("expected the end, got {other:?}"),
    }
}

#[test]
fn create_flow_probe_timeout_ends_with_its_message() {
    let mut st = new_create_worktree(true);
    step(&mut st, false, CreateEvent::Started);
    match step(&mut st, false, CreateEvent::BranchProbed(None)) {
        CreateAction::Finish(r) => assert_eq!(
            r,
            Err("timed out after 30s probing for branch agent/issue-7 in /ws/task".to_string())
        ),
        other => panic!("expected the end, got {other:?}"),
    }
}

#[test]
fn worktree_add_backoff_doubles_and_caps() {
    assert_eq!(worktree_add_backoff(1), 100);
    assert_eq!(worktree_add_backoff(2), 200);
    assert_eq!(worktree_add_backoff(4), 800);
    assert_eq!(worktree_add_backoff(11), 102_400);
    assert_eq!(worktree_add_backoff(40), 102_400);
}
