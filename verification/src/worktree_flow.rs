//! The decisions of creating one per-issue worktree, as a machine driven by
//! the caller: it asks for a branch probe, a `git worktree add`, a look at
//! the target directory, a backoff sleep, the ownership-marker write or the
//! cleanup of a half-created directory, and is told each outcome in turn.
//! The attach lock and the parent directory are set up by the caller before
//! the first step.

use vstd::prelude::*;
use crate::issue_dispatch::{argv_view, worktree_add_argv, worktree_branch_probe_argv, worktree_remove_argv};
use crate::dispatch_run::{
    backoff_ms, classify_worktree_add_result, is_worktree_scan_short_read, worktree_add_backoff,
    AddError, AddOutcome, WorktreeCreation, WORKTREE_ADD_ATTEMPTS,
};
use crate::text::{chars_of, contains, extend_str, owned, string_of};

verus! {

broadcast use vstd::string::group_string_axioms;

/// Where the creation stands: which report it waits for.
#[derive(Debug, Clone, Copy, PartialEq, Eq, Structural)]
pub enum CreatePhase {
    /// Nothing asked yet.
    Idle,
    /// Waits for [`CreateEvent::BranchProbed`].
    Probing,
    /// Waits for [`CreateEvent::DirChecked`] to tell a live claim from a
    /// leftover branch.
    CheckingBranchClaim,
    /// Waits for [`CreateEvent::AddRan`].
    Adding,
    /// Waits for [`CreateEvent::Slept`].
    Sleeping,
    /// Waits for [`CreateEvent::DirChecked`] to classify the add.
    CheckingAdd,
    /// Waits for [`CreateEvent::Marked`].
    Marking,
    /// Waits for [`CreateEvent::CleanedUp`].
    CleaningUp,
    /// Finished.
    Done,
}

/// The state of one creation.
#[derive(Debug)]
pub struct CreateWorktree {
    pub phase: CreatePhase,
    /// The current `git worktree add` attempt, from 1.
    pub attempt: u32,
    /// What the last branch probe found.
    pub branch_exists: bool,
    /// The last add's result, kept until the directory has been looked at.
    pub add: Option<Result<(), AddError>>,
    /// Whether an add that read a concurrent add's half-written
    /// `commondir` is retried (the dispatch path) or not (the
    /// interactive path).
    pub retry_short_reads: bool,
}

/// A report from the caller.
#[derive(Debug)]
pub enum CreateEvent {
    /// Begin.
    Started,
    /// The branch probe's verdict; `None` when it timed out.
    BranchProbed(Option<bool>),
    /// The add's result; `None` when it timed out (and was killed).
    AddRan(Option<Result<(), String>>),
    /// Whether the worktree directory exists now.
    DirChecked(bool),
    /// The backoff sleep is over.
    Slept,
    /// The ownership marker was written (`None`) or not (the error).
    Marked(Option<String>),
    /// Whether the cleanup removed the half-created directory for good.
    CleanedUp(bool),
}

/// What the caller is asked to do next.
#[derive(Debug)]
pub enum CreateAction {
    /// Run `git` with these arguments (bounded wait), report `BranchProbed`.
    ProbeBranch(Vec<String>),
    /// Run `git` with these arguments (bounded, killable), report `AddRan`.
    Add(Vec<String>),
    /// Look whether the worktree directory exists, report `DirChecked`.
    CheckWorktreeDir,
    /// Sleep this many milliseconds, report `Slept`.
    Sleep(u64),
    /// Write the ownership marker naming the creator, report `Marked`.
    MarkOwned,
    /// Run `git` with these arguments (bounded) and report `CleanedUp`
    /// with whether it succeeded and the directory is gone.
    CleanUp(Vec<String>),
    /// The creation is over.
    Finish(Result<WorktreeCreation, String>),
}

/// The event the state waits for.
pub open spec fn expects(phase: CreatePhase, e: CreateEvent) -> bool {
    match phase {
        CreatePhase::Idle => e is Started,
        CreatePhase::Probing => e is BranchProbed,
        CreatePhase::CheckingBranchClaim => e is DirChecked,
        CreatePhase::Adding => e is AddRan,
        CreatePhase::Sleeping => e is Slept,
        CreatePhase::CheckingAdd => e is DirChecked,
        CreatePhase::Marking => e is Marked,
        CreatePhase::CleaningUp => e is CleanedUp,
        CreatePhase::Done => false,
    }
}

/// A fresh creation.
pub fn new_create_worktree(retry_short_reads: bool) -> (s: CreateWorktree)
    ensures
        s.phase == CreatePhase::Idle,
        s.attempt == 1,
        s.retry_short_reads == retry_short_reads,
{
    CreateWorktree { phase: CreatePhase::Idle, attempt: 1, branch_exists: false, add: None, retry_short_reads }
}

pub open spec fn probe_argv_spec(clone_dir: Seq<char>, branch: Seq<char>) -> Seq<Seq<char>> {
    seq!["-C"@, clone_dir, "rev-parse"@, "--verify"@, "--quiet"@, "refs/heads/"@ + branch]
}

pub open spec fn add_argv_spec(clone_dir: Seq<char>, worktree_dir: Seq<char>, branch: Seq<char>, exists: bool) -> Seq<Seq<char>> {
    seq!["-C"@, clone_dir, "worktree"@, "add"@, worktree_dir] + (if exists {
        seq![branch]
    } else {
        seq!["-b"@, branch]
    })
}

/// The add failed on a concurrent add's half-written `commondir` with
/// attempts left: retry it.
pub open spec fn retries(attempt: u32, r: Option<Result<(), String>>) -> bool {
    match r {
        Some(Err(e)) => attempt < WORKTREE_ADD_ATTEMPTS && contains(e@, "commondir"@),
        _ => false,
    }
}

/// One step of the creation of `worktree_dir` on `branch` in `clone_dir`.
///
/// The branch is probed before each add; an existing branch is attached,
/// a missing one created. When the branch exists, may not be reused, and
/// this is the first attempt, the creation ends without an add: as a claim
/// when the directory is there, else as `BranchExists`. An add that failed
/// on a concurrent add's half-written `commondir` is retried after
/// `100 << (attempt - 1)` ms, up to five attempts, when the state allows
/// retries. Otherwise the add is
/// classified against the directory: created (then marked as owned by
/// `creator`), already claimed, timed out (then cleaned up, naming
/// `creator` when the directory is gone), or the add's error.
pub fn create_worktree_step(
    st: &mut CreateWorktree,
    clone_dir: &str,
    worktree_dir: &str,
    branch: &str,
    reuse_existing_branch: bool,
    creator: &str,
    event: CreateEvent,
) -> (act: CreateAction)
    requires
        expects(old(st).phase, event),
        1 <= old(st).attempt <= WORKTREE_ADD_ATTEMPTS,
        old(st).phase == CreatePhase::CheckingAdd ==> old(st).add is Some,
    ensures
        1 <= final(st).attempt <= WORKTREE_ADD_ATTEMPTS,
        final(st).retry_short_reads == old(st).retry_short_reads,
        final(st).phase == CreatePhase::CheckingAdd ==> final(st).add is Some,
        act is Finish <==> final(st).phase == CreatePhase::Done,
        final(st).phase != CreatePhase::Sleeping ==> final(st).attempt == old(st).attempt,
        match event {
            CreateEvent::Started => final(st).phase == CreatePhase::Probing && final(st).attempt == old(st).attempt
                && act is ProbeBranch && argv_view(act->ProbeBranch_0@) == probe_argv_spec(clone_dir@, branch@),
            CreateEvent::BranchProbed(None) => act is Finish && act->Finish_0 is Err
                && act->Finish_0->Err_0@ == "timed out after 30s probing for branch "@ + branch@ + " in "@ + clone_dir@,
            CreateEvent::BranchProbed(Some(exists)) =>
                if exists && !reuse_existing_branch && old(st).attempt == 1 {
                    act is CheckWorktreeDir && final(st).phase == CreatePhase::CheckingBranchClaim
                } else {
                    act is Add && final(st).phase == CreatePhase::Adding
                        && final(st).branch_exists == exists && final(st).attempt == old(st).attempt
                        && argv_view(act->Add_0@) == add_argv_spec(clone_dir@, worktree_dir@, branch@, exists)
                },
            CreateEvent::DirChecked(present) => if old(st).phase == CreatePhase::CheckingBranchClaim {
                act == CreateAction::Finish(Ok(if present {
                    WorktreeCreation::AlreadyClaimed
                } else {
                    WorktreeCreation::BranchExists
                }))
            } else {
                match old(st).add {
                    Some(Ok(())) => act is MarkOwned && final(st).phase == CreatePhase::Marking,
                    Some(Err(AddError::TimedOut(e))) => if present {
                        act is CleanUp && final(st).phase == CreatePhase::CleaningUp
                            && argv_view(act->CleanUp_0@) == seq!["-C"@, clone_dir@, "worktree"@, "remove"@,
                                "--force"@, "--"@, worktree_dir@]
                    } else {
                        act is Finish && act->Finish_0 is Err && act->Finish_0->Err_0@ == e@
                    },
                    Some(Err(AddError::Failed(e))) => if present {
                        act == CreateAction::Finish(Ok(WorktreeCreation::AlreadyClaimed))
                    } else {
                        act is Finish && act->Finish_0 is Err && act->Finish_0->Err_0@ == e@
                    },
                    None => false,
                }
            },
            CreateEvent::AddRan(r) => if old(st).retry_short_reads && retries(old(st).attempt, r) {
                act == CreateAction::Sleep(backoff_ms((old(st).attempt - 1) as nat) as u64)
                    && final(st).phase == CreatePhase::Sleeping && final(st).attempt == old(st).attempt + 1
            } else {
                act is CheckWorktreeDir && final(st).phase == CreatePhase::CheckingAdd
                    && match r {
                        None => match final(st).add {
                            Some(Err(AddError::TimedOut(m))) => m@ == "`git worktree add` for "@ + worktree_dir@
                                + " timed out after 30s"@,
                            _ => false,
                        },
                        Some(Ok(())) => final(st).add == Some(Ok::<(), AddError>(())),
                        Some(Err(e)) => match final(st).add {
                            Some(Err(AddError::Failed(m))) => m@ == e@,
                            _ => false,
                        },
                    }
            },
            CreateEvent::Slept => final(st).phase == CreatePhase::Probing && final(st).attempt == old(st).attempt
                && act is ProbeBranch && argv_view(act->ProbeBranch_0@) == probe_argv_spec(clone_dir@, branch@),
            CreateEvent::Marked(w) => act == CreateAction::Finish(Ok(WorktreeCreation::Created { marker_warning: w })),
            CreateEvent::CleanedUp(gone) => match act {
                CreateAction::Finish(Ok(WorktreeCreation::TimedOut { cleaned_up_by })) => if gone {
                    cleaned_up_by is Some && cleaned_up_by->Some_0@ == creator@
                } else {
                    cleaned_up_by is None
                },
                _ => false,
            },
        },
{
    match event {
        CreateEvent::Started => {
            st.phase = CreatePhase::Probing;
            CreateAction::ProbeBranch(worktree_branch_probe_argv(clone_dir, branch))
        },
        CreateEvent::BranchProbed(None) => {
            st.phase = CreatePhase::Done;
            let mut m = chars_of("timed out after 30s probing for branch ");
            extend_str(&mut m, branch);
            extend_str(&mut m, " in ");
            extend_str(&mut m, clone_dir);
            CreateAction::Finish(Err(string_of(&m)))
        },
        CreateEvent::BranchProbed(Some(exists)) => {
            if exists && !reuse_existing_branch && st.attempt == 1 {
                st.phase = CreatePhase::CheckingBranchClaim;
                CreateAction::CheckWorktreeDir
            } else {
                st.phase = CreatePhase::Adding;
                st.branch_exists = exists;
                CreateAction::Add(worktree_add_argv(clone_dir, worktree_dir, branch, exists))
            }
        },
        CreateEvent::DirChecked(present) => {
            if st.phase == CreatePhase::CheckingBranchClaim {
                st.phase = CreatePhase::Done;
                if present {
                    CreateAction::Finish(Ok(WorktreeCreation::AlreadyClaimed))
                } else {
                    CreateAction::Finish(Ok(WorktreeCreation::BranchExists))
                }
            } else {
                let add = st.add.take().unwrap();
                match classify_worktree_add_result(present, add) {
                    Ok(AddOutcome::Created) => {
                        st.phase = CreatePhase::Marking;
                        CreateAction::MarkOwned
                    },
                    Ok(AddOutcome::AlreadyClaimed) => {
                        st.phase = CreatePhase::Done;
                        CreateAction::Finish(Ok(WorktreeCreation::AlreadyClaimed))
                    },
                    Ok(AddOutcome::TimedOut) => {
                        st.phase = CreatePhase::CleaningUp;
                        CreateAction::CleanUp(worktree_remove_argv(clone_dir, worktree_dir))
                    },
                    Err(e) => {
                        st.phase = CreatePhase::Done;
                        CreateAction::Finish(Err(e))
                    },
                }
            }
        },
        CreateEvent::AddRan(r) => {
            let retry = match &r {
                Some(Err(e)) => st.retry_short_reads && st.attempt < WORKTREE_ADD_ATTEMPTS
                    && is_worktree_scan_short_read(e.as_str()),
                _ => false,
            };
            if retry {
                let ms = worktree_add_backoff(st.attempt);
                st.attempt = st.attempt + 1;
                st.phase = CreatePhase::Sleeping;
                CreateAction::Sleep(ms)
            } else {
                let add: Result<(), AddError> = match r {
                    None => {
                        let mut m = chars_of("`git worktree add` for ");
                        extend_str(&mut m, worktree_dir);
                        extend_str(&mut m, " timed out after 30s");
                        Err(AddError::TimedOut(string_of(&m)))
                    },
                    Some(Ok(())) => Ok(()),
                    Some(Err(e)) => Err(AddError::Failed(e)),
                };
                st.add = Some(add);
                st.phase = CreatePhase::CheckingAdd;
                CreateAction::CheckWorktreeDir
            }
        },
        CreateEvent::Slept => {
            st.phase = CreatePhase::Probing;
            CreateAction::ProbeBranch(worktree_branch_probe_argv(clone_dir, branch))
        },
        CreateEvent::Marked(w) => {
            st.phase = CreatePhase::Done;
            CreateAction::Finish(Ok(WorktreeCreation::Created { marker_warning: w }))
        },
        CreateEvent::CleanedUp(gone) => {
            st.phase = CreatePhase::Done;
            let by = if gone { Some(owned(creator)) } else { None };
            CreateAction::Finish(Ok(WorktreeCreation::TimedOut { cleaned_up_by: by }))
        },
    }
}

} // verus!
