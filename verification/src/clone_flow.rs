//! Isolated clones: the provisioning of a fresh `git clone` for a named
//! workspace (or the resume of one this deck created before), the
//! in-process set of clones resumed so far, the post-merge switch back to
//! the default branch, and the `.git/info/exclude` line that hides the
//! per-issue worktrees.

use vstd::prelude::*;
use crate::dispatch_run::{
    after_isolated_clone_cleanup, isolated_clone_error_verdict, AddError, CloneErrorVerdict,
    IsolatedCloneOutcome, ResumeRejection,
};
use crate::issue_dispatch::{
    argv_view, checkout_tail, isolated_clone_checkout_argv, isolated_clone_remote_branch_probe_argv,
    push_arg, worktree_branch_probe_argv, BranchLocation,
};
use crate::text::{chars_of, contains, extend_str, is_ws, owned, str_eq, string_of, trim, trim_exec};

verus! {

broadcast use vstd::string::group_string_axioms;

// ---------------------------------------------------------------------------
// Clones resumed in this process
// ---------------------------------------------------------------------------

/// The canonical paths of the isolated clones resumed so far in this
/// process; a second resume of the same clone is refused until the first
/// one's registration is released.
pub struct ResumedClones {
    paths: Vec<String>,
}

pub open spec fn path_set(s: Seq<String>) -> Set<Seq<char>> {
    Set::new(|p: Seq<char>| exists|i: int| 0 <= i < s.len() && (#[trigger] s[i])@ == p)
}

impl View for ResumedClones {
    type V = Set<Seq<char>>;

    closed spec fn view(&self) -> Set<Seq<char>> {
        path_set(self.paths@)
    }
}

fn index_of_path(s: &Vec<String>, p: &str) -> (r: Option<usize>)
    ensures
        match r {
            Some(i) => i < s.len() && s@[i as int]@ == p@,
            None => !path_set(s@).contains(p@),
        },
{
    let mut i: usize = 0;
    while i < s.len()
        invariant
            i <= s.len(),
            forall|j: int| 0 <= j < i ==> (#[trigger] s@[j])@ != p@,
        decreases s.len() - i,
    {
        if str_eq(s[i].as_str(), p) {
            return Some(i);
        }
        i = i + 1;
    }
    None
}

/// No clone resumed yet.
pub fn new_resumed_clones() -> (r: ResumedClones)
    ensures
        r@ == Set::<Seq<char>>::empty(),
{
    let r = ResumedClones { paths: Vec::new() };
    assert(r@ =~= Set::<Seq<char>>::empty());
    r
}

/// Register a resume of `canonical`; `true` when it is the first one
/// (`HashSet::insert`).
pub fn claim_resume(set: &mut ResumedClones, canonical: &str) -> (first: bool)
    ensures
        first == !old(set)@.contains(canonical@),
        final(set)@ == old(set)@.insert(canonical@),
{
    match index_of_path(&set.paths, canonical) {
        Some(i) => {
            assert(set@ =~= set@.insert(canonical@));
            false
        },
        None => {
            let ghost old_s = set.paths@;
            set.paths.push(owned(canonical));
            assert(path_set(set.paths@) =~= path_set(old_s).insert(canonical@)) by {
                assert forall|p: Seq<char>| #[trigger] path_set(set.paths@).contains(p)
                    == path_set(old_s).insert(canonical@).contains(p) by {
                    if path_set(old_s).contains(p) {
                        let j = choose|j: int| 0 <= j < old_s.len() && (#[trigger] old_s[j])@ == p;
                        assert(set.paths@[j] == old_s[j]);
                    }
                    if p == canonical@ {
                        assert(set.paths@[old_s.len() as int]@ == p);
                    }
                    if path_set(set.paths@).contains(p) {
                        let j = choose|j: int| 0 <= j < set.paths@.len() && (#[trigger] set.paths@[j])@ == p;
                        if j < old_s.len() {
                            assert(old_s[j] == set.paths@[j]);
                        }
                    }
                }
            }
            true
        },
    }
}

/// Release the registration of `canonical`, so a later resume of it in
/// this process succeeds again.
pub fn release_resumed_isolated_clone_registration(set: &mut ResumedClones, canonical: &str)
    ensures
        final(set)@ == old(set)@.remove(canonical@),
{
    remove_path(&mut set.paths, canonical);
}

fn remove_path(paths: &mut Vec<String>, canonical: &str)
    ensures
        path_set(final(paths)@) == path_set(old(paths)@).remove(canonical@),
    decreases old(paths)@.len(),
{
    match index_of_path(paths, canonical) {
        Some(i) => {
            let ghost old_s = paths@;
            paths.remove(i);
            let ghost mid = paths@;
            assert(path_set(mid).insert(canonical@) =~= path_set(old_s)) by {
                assert forall|p: Seq<char>| #[trigger] path_set(old_s).contains(p)
                    == path_set(mid).insert(canonical@).contains(p) by {
                    if path_set(old_s).contains(p) {
                        let j = choose|j: int| 0 <= j < old_s.len() && (#[trigger] old_s[j])@ == p;
                        if j < i {
                            assert(mid[j] == old_s[j]);
                        } else if j > i {
                            assert(mid[j - 1] == old_s[j]);
                        }
                    }
                    if path_set(mid).contains(p) {
                        let j = choose|j: int| 0 <= j < mid.len() && (#[trigger] mid[j])@ == p;
                        if j < i {
                            assert(mid[j] == old_s[j]);
                        } else {
                            assert(mid[j] == old_s[j + 1]);
                        }
                    }
                    if p == canonical@ {
                        assert(old_s[i as int]@ == p);
                    }
                }
            }
            remove_path(paths, canonical);
            assert(path_set(paths@) =~= path_set(old_s).remove(canonical@));
        },
        None => {
            assert(path_set(paths@) =~= path_set(paths@).remove(canonical@));
        },
    }
}

/// A released clone can be resumed again, and only once until the next
/// release.
pub proof fn lemma_release_then_resume(s: Set<Seq<char>>, p: Seq<char>)
    ensures
        !s.remove(p).contains(p),
        s.remove(p).insert(p).contains(p),
{
}

// ---------------------------------------------------------------------------
// Provisioning an isolated clone
// ---------------------------------------------------------------------------

/// The `origin` URL given to a clone whose source has none: a URL that
/// every `git push` refuses.
pub const ISOLATED_CLONE_NO_ORIGIN_SENTINEL: &'static str = "dot-agent-deck://no-origin-configured";

/// Where the provisioning stands: which report it waits for.
#[derive(Debug, Clone, Copy, PartialEq, Eq, Structural)]
pub enum ClonePhase {
    Idle,
    /// Waits for `Exists`: is there something at the clone path already?
    CheckingTarget,
    /// Resume: waits for `Exists`: is there provenance evidence of ours?
    CheckingProvenance,
    /// Resume: waits for `Readable`: can the clone's HEAD be read?
    CheckingHealth,
    /// Resume: waits for `AncestryMatches`.
    CheckingAncestry,
    /// Resume: waits for `Claimed`: first resume in this process?
    ClaimingResume,
    /// Resume: waits for `Ran` of the origin fetch.
    FetchingOnResume,
    /// Waits for `Ran` of `git clone`.
    Cloning,
    /// Failure handling: waits for `Exists` of the clone directory.
    CheckingAfterError,
    /// Failure handling: waits for `CleanedUp`.
    CleaningUp,
    /// Failure handling, the partial clone gone: waits for `Warned` of the
    /// provenance artifact's removal.
    RemovingProvenance,
    /// Waits for `SourceOrigin` (after the provenance write was attempted).
    ReadingSourceOrigin,
    /// Waits for `Warned` of the origin rewrite.
    PointingOrigin,
    /// Waits for `DefaultBranch`.
    ReadingDefaultBranch,
    /// Waits for `Ran` of the local-branch probe.
    ProbingLocal,
    /// Waits for `Ran` of the remote-branch probe.
    ProbingRemote,
    /// Waits for `Ran` of the checkout.
    CheckingOut,
    /// Waits for `Ran` of the stray default branch's deletion.
    RemovingStray,
    /// Waits for `Warned` of the origin removal.
    RemovingOrigin,
    /// Waits for `Ran` of the freshness fetch.
    FetchingOrigin,
    /// Waits for `Warned` of the ownership-marker write.
    Marking,
    Done,
}

/// The state of one provisioning.
#[derive(Debug)]
pub struct ProvisionClone {
    pub phase: ClonePhase,
    pub source_origin: Option<String>,
    pub origin_warning: Option<String>,
    pub default_branch: Option<String>,
    pub location: BranchLocation,
    /// The failed call being handled.
    pub error: Option<AddError>,
}

/// A report from the caller.
#[derive(Debug)]
pub enum CloneEvent {
    Started,
    /// Whether the asked-about file or directory exists.
    Exists(bool),
    /// Whether the clone's HEAD could be read.
    Readable(bool),
    /// Whether the clone's history matches the source's.
    AncestryMatches(bool),
    /// What [`claim_resume`] returned.
    Claimed(bool),
    /// How the asked-for `git` call ended.
    Ran(Result<(), AddError>),
    /// Whether the partial directory was removed for good.
    CleanedUp(bool),
    /// The source's own `origin` URL, when it has a non-empty one.
    SourceOrigin(Option<String>),
    /// The clone's branch right after `git clone`, when it has one.
    DefaultBranch(Option<String>),
    /// `None` when the asked-for best-effort step succeeded, else its error.
    Warned(Option<String>),
}

/// What the caller is asked to do next.
#[derive(Debug)]
pub enum CloneAction {
    /// Look whether the clone path exists.
    CheckTarget,
    /// Look whether this clone's provenance artifact exists.
    CheckProvenance,
    /// Read the clone's HEAD.
    CheckHealth,
    /// Compare the clone's origin and history with the source's.
    CheckAncestry,
    /// Register the resume with [`claim_resume`] on the canonical path.
    ClaimResume,
    /// Run `git` with these arguments, bounded (report `Ran`).
    Git(Vec<String>),
    /// Look whether the clone directory exists (report `Exists`).
    CheckCloneDir,
    /// Remove the partial clone directory when it holds a `.git`.
    CleanUp,
    /// Remove this clone's provenance artifact (best effort; report
    /// `Warned`).
    RemoveProvenance,
    /// Write the provenance artifact (best effort), then read the
    /// source's `origin` URL (report `SourceOrigin`).
    WriteProvenanceAndReadSourceOrigin,
    /// Point the clone's `origin` at this URL (report `Warned`).
    PointOrigin(String),
    /// Read the clone's current branch (report `DefaultBranch`).
    ReadDefaultBranch,
    /// Delete this leftover local branch (best effort; report `Ran`).
    RemoveStrayBranch(String),
    /// Remove the clone's `origin` remote (report `Warned`).
    RemoveOrigin,
    /// Write the ownership marker naming the creator (report `Warned`).
    MarkOwned,
    /// The provisioning is over.
    Finish(Result<IsolatedCloneOutcome, String>),
}

pub open spec fn clone_expects(phase: ClonePhase, e: CloneEvent) -> bool {
    match phase {
        ClonePhase::Idle => e is Started,
        ClonePhase::CheckingTarget => e is Exists,
        ClonePhase::CheckingProvenance => e is Exists,
        ClonePhase::CheckingHealth => e is Readable,
        ClonePhase::CheckingAncestry => e is AncestryMatches,
        ClonePhase::ClaimingResume => e is Claimed,
        ClonePhase::FetchingOnResume => e is Ran,
        ClonePhase::Cloning => e is Ran,
        ClonePhase::CheckingAfterError => e is Exists,
        ClonePhase::CleaningUp => e is CleanedUp,
        ClonePhase::RemovingProvenance => e is Warned,
        ClonePhase::ReadingSourceOrigin => e is SourceOrigin,
        ClonePhase::PointingOrigin => e is Warned,
        ClonePhase::ReadingDefaultBranch => e is DefaultBranch,
        ClonePhase::ProbingLocal => e is Ran,
        ClonePhase::ProbingRemote => e is Ran,
        ClonePhase::CheckingOut => e is Ran,
        ClonePhase::RemovingStray => e is Ran,
        ClonePhase::RemovingOrigin => e is Warned,
        ClonePhase::FetchingOrigin => e is Ran,
        ClonePhase::Marking => e is Warned,
        ClonePhase::Done => false,
    }
}

/// The internal consistency of a provisioning state.
pub open spec fn clone_state_ok(s: ProvisionClone) -> bool {
    &&& (s.phase == ClonePhase::CheckingAfterError || s.phase == ClonePhase::CleaningUp
        || s.phase == ClonePhase::RemovingProvenance) ==> s.error is Some
}

/// A fresh provisioning.
pub fn new_provision_clone() -> (s: ProvisionClone)
    ensures
        s.phase == ClonePhase::Idle,
        clone_state_ok(s),
        s.source_origin is None,
        s.origin_warning is None,
        s.default_branch is None,
        s.location == BranchLocation::Absent,
        s.error is None,
{
    ProvisionClone {
        phase: ClonePhase::Idle,
        source_origin: None,
        origin_warning: None,
        default_branch: None,
        location: BranchLocation::Absent,
        error: None,
    }
}

/// `git clone --origin origin -- <source_dir> <clone_dir>`.
pub open spec fn clone_argv_spec(source_dir: Seq<char>, clone_dir: Seq<char>) -> Seq<Seq<char>> {
    seq!["clone"@, "--origin"@, "origin"@, "--"@, source_dir, clone_dir]
}

/// `git -C <clone_dir> fetch origin`.
pub open spec fn fetch_origin_argv_spec(clone_dir: Seq<char>) -> Seq<Seq<char>> {
    seq!["-C"@, clone_dir, "fetch"@, "origin"@]
}

fn clone_argv(source_dir: &str, clone_dir: &str) -> (r: Vec<String>)
    ensures
        argv_view(r@) == clone_argv_spec(source_dir@, clone_dir@),
{
    let mut a: Vec<String> = Vec::new();
    push_arg(&mut a, "clone");
    push_arg(&mut a, "--origin");
    push_arg(&mut a, "origin");
    push_arg(&mut a, "--");
    push_arg(&mut a, source_dir);
    push_arg(&mut a, clone_dir);
    a
}

fn fetch_origin_argv(clone_dir: &str) -> (r: Vec<String>)
    ensures
        argv_view(r@) == fetch_origin_argv_spec(clone_dir@),
{
    let mut a: Vec<String> = Vec::new();
    push_arg(&mut a, "-C");
    push_arg(&mut a, clone_dir);
    push_arg(&mut a, "fetch");
    push_arg(&mut a, "origin");
    a
}

fn clone_opt(o: &Option<String>) -> (r: Option<String>)
    ensures
        r == *o,
{
    match o {
        Some(s) => Some(s.clone()),
        None => None,
    }
}

/// The warning text of a failed `git` call.
pub open spec fn add_error_text(e: AddError) -> Seq<char> {
    match e {
        AddError::TimedOut(m) => m@,
        AddError::Failed(m) => m@,
    }
}

/// The phase a provisioning step moves to from `s` on `e`, for the clone
/// of `branch`.
pub open spec fn clone_next_phase(s: ProvisionClone, e: CloneEvent, branch: Seq<char>) -> ClonePhase {
    match (s.phase, e) {
        (ClonePhase::Idle, _) => ClonePhase::CheckingTarget,
        (ClonePhase::CheckingTarget, CloneEvent::Exists(present)) => if present {
            ClonePhase::CheckingProvenance
        } else {
            ClonePhase::Cloning
        },
        (ClonePhase::CheckingProvenance, CloneEvent::Exists(present)) => if present {
            ClonePhase::CheckingHealth
        } else {
            ClonePhase::Done
        },
        (ClonePhase::CheckingHealth, CloneEvent::Readable(ok)) => if ok {
            ClonePhase::CheckingAncestry
        } else {
            ClonePhase::Done
        },
        (ClonePhase::CheckingAncestry, CloneEvent::AncestryMatches(ok)) => if ok {
            ClonePhase::ClaimingResume
        } else {
            ClonePhase::Done
        },
        (ClonePhase::ClaimingResume, CloneEvent::Claimed(first)) => if first {
            ClonePhase::FetchingOnResume
        } else {
            ClonePhase::Done
        },
        (ClonePhase::Cloning, CloneEvent::Ran(r)) => if r is Err {
            ClonePhase::CheckingAfterError
        } else {
            ClonePhase::ReadingSourceOrigin
        },
        (ClonePhase::CheckingOut, CloneEvent::Ran(r)) => if r is Err {
            ClonePhase::CheckingAfterError
        } else if s.location != BranchLocation::Local && s.default_branch is Some
            && s.default_branch->Some_0@ != branch {
            ClonePhase::RemovingStray
        } else if s.source_origin is None {
            ClonePhase::RemovingOrigin
        } else {
            ClonePhase::FetchingOrigin
        },
        (ClonePhase::RemovingStray, _) => if s.source_origin is None {
            ClonePhase::RemovingOrigin
        } else {
            ClonePhase::FetchingOrigin
        },
        (ClonePhase::RemovingOrigin, _) => ClonePhase::Marking,
        (ClonePhase::FetchingOrigin, _) => ClonePhase::Marking,
        (ClonePhase::CheckingAfterError, CloneEvent::Exists(present)) => {
            let err = s.error->Some_0;
            let t = add_error_text(err);
            if !present || (err is Failed && contains(t, "destination path"@) && contains(t, "already exists"@)) {
                ClonePhase::Done
            } else {
                ClonePhase::CleaningUp
            }
        },
        (ClonePhase::CleaningUp, CloneEvent::CleanedUp(gone)) => if gone {
            ClonePhase::RemovingProvenance
        } else {
            ClonePhase::Done
        },
        (ClonePhase::ReadingSourceOrigin, _) => ClonePhase::PointingOrigin,
        (ClonePhase::PointingOrigin, _) => ClonePhase::ReadingDefaultBranch,
        (ClonePhase::ReadingDefaultBranch, _) => ClonePhase::ProbingLocal,
        (ClonePhase::ProbingLocal, CloneEvent::Ran(r)) => if r is Ok {
            ClonePhase::CheckingOut
        } else {
            ClonePhase::ProbingRemote
        },
        (ClonePhase::ProbingRemote, _) => ClonePhase::CheckingOut,
        _ => ClonePhase::Done,
    }
}

/// One step of provisioning the isolated clone `clone_dir` of `source_dir`
/// on `branch` for `creator`.
///
/// An existing directory is resumed only when it carries this deck's
/// provenance, its HEAD is readable, its history matches the source, and
/// no other resume of it is registered in this process (checked in that
/// order; the first failing check is the refusal), then fetched from its
/// origin (a failure is a warning). A missing one is cloned; its origin is
/// pointed at the source's own origin (or at a push-refusing sentinel), the
/// branch is checked out (attached when local, tracked when only on the
/// remote, created otherwise), the clone's own default branch is deleted
/// when it is not the branch asked for and the branch was not local, the
/// sentinel origin is removed or the real one fetched, and the clone is
/// marked as owned by `creator`. A failed clone or checkout leaves a
/// pre-existing destination alone and cleans up a partial one of ours;
/// once that directory is gone, its provenance artifact is removed too, so
/// no evidence outlives the clone it vouched for.
pub fn provision_clone_step(
    st: &mut ProvisionClone,
    source_dir: &str,
    clone_dir: &str,
    branch: &str,
    creator: &str,
    event: CloneEvent,
) -> (act: CloneAction)
    requires
        clone_expects(old(st).phase, event),
        clone_state_ok(*old(st)),
    ensures
        clone_state_ok(*final(st)),
        act is Finish <==> final(st).phase == ClonePhase::Done,
        final(st).phase == clone_next_phase(*old(st), event, branch@),
        final(st).source_origin == (match event {
            CloneEvent::SourceOrigin(o) => o,
            _ => old(st).source_origin,
        }),
        final(st).default_branch == (match event {
            CloneEvent::DefaultBranch(b) => b,
            _ => old(st).default_branch,
        }),
        final(st).location == (match (old(st).phase, event) {
            (ClonePhase::ProbingLocal, CloneEvent::Ran(Ok(()))) => BranchLocation::Local,
            (ClonePhase::ProbingRemote, CloneEvent::Ran(r)) => if r is Ok {
                BranchLocation::RemoteOnly
            } else {
                BranchLocation::Absent
            },
            _ => old(st).location,
        }),
        old(st).phase != ClonePhase::PointingOrigin && old(st).phase != ClonePhase::RemovingOrigin
            ==> final(st).origin_warning == old(st).origin_warning,
        match (old(st).phase, event) {
            (ClonePhase::Idle, _) => act is CheckTarget,
            (ClonePhase::CheckingTarget, CloneEvent::Exists(true)) => act is CheckProvenance,
            (ClonePhase::CheckingTarget, CloneEvent::Exists(false)) => act is Git
                && argv_view(act->Git_0@) == clone_argv_spec(source_dir@, clone_dir@),
            (ClonePhase::CheckingProvenance, CloneEvent::Exists(present)) => if present {
                act is CheckHealth
            } else {
                act == CloneAction::Finish(Ok(IsolatedCloneOutcome::Rejected(ResumeRejection::Stranger)))
            },
            (ClonePhase::CheckingHealth, CloneEvent::Readable(ok)) => if ok {
                act is CheckAncestry
            } else {
                act == CloneAction::Finish(Ok(IsolatedCloneOutcome::Rejected(ResumeRejection::Unhealthy)))
            },
            (ClonePhase::CheckingAncestry, CloneEvent::AncestryMatches(ok)) => if ok {
                act is ClaimResume
            } else {
                act == CloneAction::Finish(Ok(IsolatedCloneOutcome::Rejected(ResumeRejection::AncestryMismatch)))
            },
            (ClonePhase::ClaimingResume, CloneEvent::Claimed(first)) => if first {
                act is Git && argv_view(act->Git_0@) == fetch_origin_argv_spec(clone_dir@)
            } else {
                act == CloneAction::Finish(Ok(IsolatedCloneOutcome::Rejected(ResumeRejection::Contested)))
            },
            (ClonePhase::FetchingOnResume, CloneEvent::Ran(r)) => match act {
                CloneAction::Finish(Ok(IsolatedCloneOutcome::Resumed { fetch_warning })) => match r {
                    Ok(()) => fetch_warning is None,
                    Err(e) => fetch_warning is Some && fetch_warning->Some_0@ == add_error_text(e),
                },
                _ => false,
            },
            (ClonePhase::Cloning, CloneEvent::Ran(r)) => match r {
                Err(e) => act is CheckCloneDir && final(st).error == Some(e),
                Ok(()) => act is WriteProvenanceAndReadSourceOrigin,
            },
            (ClonePhase::CheckingOut, CloneEvent::Ran(r)) => match r {
                Err(e) => act is CheckCloneDir && final(st).error == Some(e),
                Ok(()) => if old(st).location != BranchLocation::Local && old(st).default_branch is Some
                    && old(st).default_branch->Some_0@ != branch@ {
                    act is RemoveStrayBranch && act->RemoveStrayBranch_0@ == old(st).default_branch->Some_0@
                } else if old(st).source_origin is None {
                    act is RemoveOrigin
                } else {
                    act is Git && argv_view(act->Git_0@) == fetch_origin_argv_spec(clone_dir@)
                },
            },
            (ClonePhase::RemovingStray, CloneEvent::Ran(_)) => if old(st).source_origin is None {
                act is RemoveOrigin
            } else {
                act is Git && argv_view(act->Git_0@) == fetch_origin_argv_spec(clone_dir@)
            },
            (ClonePhase::RemovingOrigin, CloneEvent::Warned(w)) => act is MarkOwned && final(st).origin_warning == w,
            (ClonePhase::FetchingOrigin, CloneEvent::Ran(_)) => act is MarkOwned
                && final(st).origin_warning == old(st).origin_warning,
            (ClonePhase::CheckingAfterError, CloneEvent::Exists(present)) => {
                let err = old(st).error->Some_0;
                let e = add_error_text(err);
                if !present {
                    act is Finish && act->Finish_0 is Err && act->Finish_0->Err_0@ == e
                } else if err is Failed && contains(e, "destination path"@) && contains(e, "already exists"@) {
                    act == CloneAction::Finish(Ok(IsolatedCloneOutcome::AlreadyClaimed))
                } else {
                    act is CleanUp && final(st).error is Some && add_error_text(final(st).error->Some_0) == e
                        && (final(st).error->Some_0 is TimedOut) == (err is TimedOut)
                }
            },
            (ClonePhase::CleaningUp, CloneEvent::CleanedUp(gone)) => {
                let err = old(st).error->Some_0;
                if gone {
                    act is RemoveProvenance && final(st).error == old(st).error
                } else {
                    match act {
                        CloneAction::Finish(Ok(IsolatedCloneOutcome::TimedOut { cleaned_up_by })) => err is TimedOut
                            && cleaned_up_by is None,
                        CloneAction::Finish(Ok(IsolatedCloneOutcome::Failed { error, cleaned_up_by })) => err is Failed
                            && error@ == add_error_text(err) && cleaned_up_by is None,
                        _ => false,
                    }
                }
            },
            (ClonePhase::RemovingProvenance, CloneEvent::Warned(_)) => {
                let err = old(st).error->Some_0;
                match act {
                    CloneAction::Finish(Ok(IsolatedCloneOutcome::TimedOut { cleaned_up_by })) => err is TimedOut
                        && cleaned_up_by is Some && cleaned_up_by->Some_0@ == creator@,
                    CloneAction::Finish(Ok(IsolatedCloneOutcome::Failed { error, cleaned_up_by })) => err is Failed
                        && error@ == add_error_text(err) && cleaned_up_by is Some && cleaned_up_by->Some_0@ == creator@,
                    _ => false,
                }
            },
            (ClonePhase::ReadingSourceOrigin, CloneEvent::SourceOrigin(o)) => act is PointOrigin
                && act->PointOrigin_0@ == (match o {
                    Some(u) => u@,
                    None => ISOLATED_CLONE_NO_ORIGIN_SENTINEL@,
                }),
            (ClonePhase::PointingOrigin, CloneEvent::Warned(w)) => act is ReadDefaultBranch && final(st).origin_warning == w,
            (ClonePhase::ReadingDefaultBranch, CloneEvent::DefaultBranch(_)) => act is Git
                && argv_view(act->Git_0@) == seq!["-C"@, clone_dir@, "rev-parse"@, "--verify"@, "--quiet"@,
                    "refs/heads/"@ + branch@],
            (ClonePhase::ProbingLocal, CloneEvent::Ran(r)) => act is Git && argv_view(act->Git_0@) == (if r is Ok {
                seq!["-C"@, clone_dir@, "checkout"@] + checkout_tail(branch@, BranchLocation::Local)
            } else {
                seq!["-C"@, clone_dir@, "rev-parse"@, "--verify"@, "--quiet"@, "refs/remotes/origin/"@ + branch@]
            }),
            (ClonePhase::ProbingRemote, CloneEvent::Ran(r)) => act is Git && argv_view(act->Git_0@)
                == seq!["-C"@, clone_dir@, "checkout"@] + checkout_tail(
                    branch@,
                    if r is Ok { BranchLocation::RemoteOnly } else { BranchLocation::Absent },
                ),
            (ClonePhase::Marking, CloneEvent::Warned(w)) => act == CloneAction::Finish(
                Ok(IsolatedCloneOutcome::Created { marker_warning: w, origin_warning: old(st).origin_warning }),
            ),
            _ => false,
        },
{
    match event {
        CloneEvent::Started => {
            st.phase = ClonePhase::CheckingTarget;
            CloneAction::CheckTarget
        },
        CloneEvent::Exists(present) => {
            if st.phase == ClonePhase::CheckingTarget {
                if present {
                    st.phase = ClonePhase::CheckingProvenance;
                    CloneAction::CheckProvenance
                } else {
                    st.phase = ClonePhase::Cloning;
                    CloneAction::Git(clone_argv(source_dir, clone_dir))
                }
            } else if st.phase == ClonePhase::CheckingProvenance {
                if present {
                    st.phase = ClonePhase::CheckingHealth;
                    CloneAction::CheckHealth
                } else {
                    st.phase = ClonePhase::Done;
                    CloneAction::Finish(Ok(IsolatedCloneOutcome::Rejected(ResumeRejection::Stranger)))
                }
            } else {
                let err = st.error.take().unwrap();
                match isolated_clone_error_verdict(err, present) {
                    CloneErrorVerdict::Propagate(e) => {
                        st.phase = ClonePhase::Done;
                        CloneAction::Finish(Err(e))
                    },
                    CloneErrorVerdict::AlreadyClaimed => {
                        st.phase = ClonePhase::Done;
                        CloneAction::Finish(Ok(IsolatedCloneOutcome::AlreadyClaimed))
                    },
                    CloneErrorVerdict::CleanUp { timed_out, error } => {
                        st.error = Some(if timed_out { AddError::TimedOut(error) } else { AddError::Failed(error) });
                        st.phase = ClonePhase::CleaningUp;
                        CloneAction::CleanUp
                    },
                }
            }
        },
        CloneEvent::Readable(ok) => {
            if ok {
                st.phase = ClonePhase::CheckingAncestry;
                CloneAction::CheckAncestry
            } else {
                st.phase = ClonePhase::Done;
                CloneAction::Finish(Ok(IsolatedCloneOutcome::Rejected(ResumeRejection::Unhealthy)))
            }
        },
        CloneEvent::AncestryMatches(ok) => {
            if ok {
                st.phase = ClonePhase::ClaimingResume;
                CloneAction::ClaimResume
            } else {
                st.phase = ClonePhase::Done;
                CloneAction::Finish(Ok(IsolatedCloneOutcome::Rejected(ResumeRejection::AncestryMismatch)))
            }
        },
        CloneEvent::Claimed(first) => {
            if first {
                st.phase = ClonePhase::FetchingOnResume;
                CloneAction::Git(fetch_origin_argv(clone_dir))
            } else {
                st.phase = ClonePhase::Done;
                CloneAction::Finish(Ok(IsolatedCloneOutcome::Rejected(ResumeRejection::Contested)))
            }
        },
        CloneEvent::CleanedUp(gone) => {
            if gone {
                st.phase = ClonePhase::RemovingProvenance;
                CloneAction::RemoveProvenance
            } else {
                st.phase = ClonePhase::Done;
                CloneAction::Finish(Ok(cleanup_report(st, None)))
            }
        },
        CloneEvent::SourceOrigin(o) => {
            let url = match &o {
                Some(u) => u.clone(),
                None => owned(ISOLATED_CLONE_NO_ORIGIN_SENTINEL),
            };
            st.source_origin = o;
            st.phase = ClonePhase::PointingOrigin;
            CloneAction::PointOrigin(url)
        },
        CloneEvent::DefaultBranch(b) => {
            st.default_branch = b;
            st.phase = ClonePhase::ProbingLocal;
            CloneAction::Git(worktree_branch_probe_argv(clone_dir, branch))
        },
        CloneEvent::Warned(w) => {
            if st.phase == ClonePhase::RemovingProvenance {
                st.phase = ClonePhase::Done;
                CloneAction::Finish(Ok(cleanup_report(st, Some(owned(creator)))))
            } else if st.phase == ClonePhase::PointingOrigin {
                st.origin_warning = w;
                st.phase = ClonePhase::ReadingDefaultBranch;
                CloneAction::ReadDefaultBranch
            } else if st.phase == ClonePhase::RemovingOrigin {
                st.origin_warning = w;
                st.phase = ClonePhase::Marking;
                CloneAction::MarkOwned
            } else {
                st.phase = ClonePhase::Done;
                CloneAction::Finish(Ok(IsolatedCloneOutcome::Created {
                    marker_warning: w,
                    origin_warning: clone_opt(&st.origin_warning),
                }))
            }
        },
        CloneEvent::Ran(r) => {
            if st.phase == ClonePhase::FetchingOnResume {
                st.phase = ClonePhase::Done;
                let fetch_warning = match r {
                    Ok(()) => None,
                    Err(AddError::TimedOut(e)) => Some(e),
                    Err(AddError::Failed(e)) => Some(e),
                };
                CloneAction::Finish(Ok(IsolatedCloneOutcome::Resumed { fetch_warning }))
            } else if st.phase == ClonePhase::Cloning || st.phase == ClonePhase::CheckingOut {
                match r {
                    Err(e) => {
                        st.error = Some(e);
                        st.phase = ClonePhase::CheckingAfterError;
                        CloneAction::CheckCloneDir
                    },
                    Ok(()) => {
                        if st.phase == ClonePhase::Cloning {
                            st.phase = ClonePhase::ReadingSourceOrigin;
                            CloneAction::WriteProvenanceAndReadSourceOrigin
                        } else {
                            let local = match st.location {
                                BranchLocation::Local => true,
                                _ => false,
                            };
                            let stray = match &st.default_branch {
                                Some(d) => if !local && !str_eq(d.as_str(), branch) { Some(d.clone()) } else { None },
                                None => None,
                            };
                            match stray {
                                Some(d) => {
                                    st.phase = ClonePhase::RemovingStray;
                                    CloneAction::RemoveStrayBranch(d)
                                },
                                None => after_stray(st, clone_dir),
                            }
                        }
                    },
                }
            } else if st.phase == ClonePhase::ProbingLocal {
                match r {
                    Ok(()) => {
                        st.location = BranchLocation::Local;
                        st.phase = ClonePhase::CheckingOut;
                        CloneAction::Git(isolated_clone_checkout_argv(clone_dir, branch, BranchLocation::Local))
                    },
                    Err(_) => {
                        st.phase = ClonePhase::ProbingRemote;
                        CloneAction::Git(isolated_clone_remote_branch_probe_argv(clone_dir, branch))
                    },
                }
            } else if st.phase == ClonePhase::ProbingRemote {
                let loc = match r {
                    Ok(()) => BranchLocation::RemoteOnly,
                    Err(_) => BranchLocation::Absent,
                };
                st.location = loc;
                st.phase = ClonePhase::CheckingOut;
                CloneAction::Git(isolated_clone_checkout_argv(clone_dir, branch, loc))
            } else if st.phase == ClonePhase::RemovingStray {
                after_stray(st, clone_dir)
            } else {
                st.phase = ClonePhase::Marking;
                CloneAction::MarkOwned
            }
        },
    }
}

/// The outcome of a failure whose partial clone was cleaned up (by
/// `cleaned_up_by`, when it is gone): the pending error, taken.
fn cleanup_report(st: &mut ProvisionClone, cleaned_up_by: Option<String>) -> (r: IsolatedCloneOutcome)
    requires
        old(st).error is Some,
    ensures
        final(st).phase == old(st).phase,
        final(st).error is None,
        final(st).source_origin == old(st).source_origin,
        final(st).default_branch == old(st).default_branch,
        final(st).location == old(st).location,
        final(st).origin_warning == old(st).origin_warning,
        match old(st).error->Some_0 {
            AddError::TimedOut(_) => r == (IsolatedCloneOutcome::TimedOut { cleaned_up_by }),
            AddError::Failed(e) => r == (IsolatedCloneOutcome::Failed { error: e, cleaned_up_by }),
        },
{
    let err = st.error.take().unwrap();
    let (e, timed_out) = match err {
        AddError::TimedOut(e) => (e, true),
        AddError::Failed(e) => (e, false),
    };
    after_isolated_clone_cleanup(timed_out, e, cleaned_up_by)
}

/// After the checkout (and any stray-branch deletion): drop the sentinel
/// origin, or fetch the real one for freshness.
fn after_stray(st: &mut ProvisionClone, clone_dir: &str) -> (act: CloneAction)
    requires
        clone_state_ok(*old(st)),
    ensures
        clone_state_ok(*final(st)),
        !(act is Finish),
        final(st).phase != ClonePhase::Done,
        final(st).origin_warning == old(st).origin_warning,
        final(st).source_origin == old(st).source_origin,
        final(st).default_branch == old(st).default_branch,
        final(st).location == old(st).location,
        final(st).error == old(st).error,
        old(st).source_origin is None ==> act is RemoveOrigin && final(st).phase == ClonePhase::RemovingOrigin,
        old(st).source_origin is Some ==> act is Git && final(st).phase == ClonePhase::FetchingOrigin
            && argv_view(act->Git_0@) == fetch_origin_argv_spec(clone_dir@),
{
    if st.source_origin.is_none() {
        st.phase = ClonePhase::RemovingOrigin;
        CloneAction::RemoveOrigin
    } else {
        st.phase = ClonePhase::FetchingOrigin;
        CloneAction::Git(fetch_origin_argv(clone_dir))
    }
}

// ---------------------------------------------------------------------------
// Post-merge switch back to the default branch
// ---------------------------------------------------------------------------

/// How a `git` child ended: it could not be run, or it exited.
#[derive(Debug, Clone, PartialEq, Eq)]
pub enum CommandResult {
    /// The spawn failed; carries the I/O error's text.
    SpawnFailed(String),
    /// It exited; `success` is a zero status.
    Exited { success: bool, stdout: String, stderr: String },
}

/// What the post-merge sync decided.
#[derive(Debug, Clone, PartialEq, Eq)]
pub enum PostMergeSyncOutcome {
    SwitchedToMain,
    LeftUntouched { reason: String },
}

/// Where the sync stands: which `git` call's result it waits for.
#[derive(Debug, Clone, Copy, PartialEq, Eq, Structural)]
pub enum SyncPhase {
    Idle,
    Status,
    Fetch,
    Ancestry,
    /// Reading the branch the workspace is on.
    StartBranch,
    /// Reading the commit of a detached workspace.
    StartCommit,
    Checkout,
    Merge,
    /// Switching back to where the workspace started after a failed merge.
    Restore,
    Done,
}

/// The state of one post-merge sync.
#[derive(Debug)]
pub struct SyncMerged {
    pub phase: SyncPhase,
    /// Where the workspace started: its branch, or its commit when detached.
    pub start: String,
    /// The failure reported once the workspace is back at `start`.
    pub failure: String,
}

/// A sync not yet begun.
pub fn new_sync_merged() -> (st: SyncMerged)
    ensures
        st.phase == SyncPhase::Idle,
{
    SyncMerged { phase: SyncPhase::Idle, start: String::new(), failure: String::new() }
}

/// What the caller is asked to do next.
#[derive(Debug)]
pub enum SyncAction {
    /// Run `git` with these arguments in the clone directory and report
    /// its [`CommandResult`].
    Git(Vec<String>),
    Finish(Result<PostMergeSyncOutcome, String>),
}

fn msg3(a: &str, b: &str, c: &str) -> (r: String)
    ensures
        r@ == a@ + b@ + c@,
{
    let mut m = chars_of(a);
    extend_str(&mut m, b);
    extend_str(&mut m, c);
    string_of(&m)
}

fn msg5(a: &str, b: &str, c: &str, d: &str, e: &str) -> (r: String)
    ensures
        r@ == a@ + b@ + c@ + d@ + e@,
{
    let mut m = chars_of(a);
    extend_str(&mut m, b);
    extend_str(&mut m, c);
    extend_str(&mut m, d);
    extend_str(&mut m, e);
    string_of(&m)
}

fn trimmed(s: &str) -> (r: String)
    ensures
        r@ == trim(s@),
{
    string_of(&trim_exec(&chars_of(s)))
}

/// The trimmed standard output of a successful call, when it is not empty.
pub open spec fn output_text(r: CommandResult) -> Option<Seq<char>> {
    match r {
        CommandResult::Exited { success, stdout, stderr } => if success && trim(stdout@).len() > 0 {
            Some(trim(stdout@))
        } else {
            None
        },
        CommandResult::SpawnFailed(_) => None,
    }
}

/// What a call that did not go as asked said: the spawn error, or its
/// trimmed standard error.
pub open spec fn failure_detail(r: CommandResult) -> Seq<char> {
    match r {
        CommandResult::Exited { success, stdout, stderr } => trim(stderr@),
        CommandResult::SpawnFailed(e) => e@,
    }
}

/// The verdict of one of the sync's checks or mutations: the next phase,
/// and the outcome when the sync ends there (`Err` a failure, `Ok` a
/// refusal that left the workspace untouched, `None` a switch).
pub open spec fn sync_step_spec(
    phase: SyncPhase,
    clone_dir: Seq<char>,
    default_branch: Seq<char>,
    result: CommandResult,
) -> (SyncPhase, Option<Result<Seq<char>, Seq<char>>>) {
    let remote_ref = "origin/"@ + default_branch;
    match (phase, result) {
        (SyncPhase::Status, CommandResult::SpawnFailed(e)) => (SyncPhase::Done, Some(Err(
            "failed to check "@ + clone_dir + " for uncommitted changes: "@ + e@))),
        (SyncPhase::Status, CommandResult::Exited { success, stdout, stderr }) => if !success {
            (SyncPhase::Done, Some(Err("git status --porcelain failed in "@ + clone_dir + ": "@ + trim(stderr@))))
        } else if stdout@.len() > 0 {
            (SyncPhase::Done, Some(Ok("the workspace has uncommitted changes -- refusing to switch and potentially discard unprotected work"@)))
        } else {
            (SyncPhase::Fetch, None)
        },
        (SyncPhase::Fetch, CommandResult::SpawnFailed(e)) => (SyncPhase::Done, Some(Err(
            "failed to fetch origin in "@ + clone_dir + ": "@ + e@))),
        (SyncPhase::Fetch, CommandResult::Exited { success, stdout, stderr }) => if !success {
            (SyncPhase::Done, Some(Err("git fetch origin failed in "@ + clone_dir + ": "@ + trim(stderr@))))
        } else {
            (SyncPhase::Ancestry, None)
        },
        (SyncPhase::Ancestry, CommandResult::SpawnFailed(e)) => (SyncPhase::Done, Some(Err(
            "failed to check whether HEAD is an ancestor of "@ + remote_ref + " in "@ + clone_dir + ": "@ + e@))),
        (SyncPhase::Ancestry, CommandResult::Exited { success, stdout, stderr }) => if !success {
            (SyncPhase::Done, Some(Ok("the workspace's HEAD is not fully contained in "@ + remote_ref
                + " -- it carries a local commit the merge never captured, refusing to switch and potentially strand or discard it"@)))
        } else {
            (SyncPhase::StartBranch, None)
        },
        (SyncPhase::Checkout, CommandResult::SpawnFailed(e)) => (SyncPhase::Done, Some(Err(
            "failed to check out "@ + default_branch + " in "@ + clone_dir + ": "@ + e@))),
        (SyncPhase::Checkout, CommandResult::Exited { success, stdout, stderr }) => if !success {
            (SyncPhase::Done, Some(Err("git checkout "@ + default_branch + " failed in "@ + clone_dir + ": "@ + trim(stderr@))))
        } else {
            (SyncPhase::Merge, None)
        },
        (SyncPhase::Merge, CommandResult::SpawnFailed(e)) => (SyncPhase::Done, Some(Err(
            "failed to fast-forward "@ + default_branch + " to "@ + remote_ref + " in "@ + clone_dir + ": "@ + e@))),
        (SyncPhase::Merge, CommandResult::Exited { success, stdout, stderr }) => if !success {
            (SyncPhase::Done, Some(Err("git merge --ff-only "@ + remote_ref + " failed in "@ + clone_dir + ": "@ + trim(stderr@))))
        } else {
            (SyncPhase::Done, None)
        },
        _ => (SyncPhase::Done, None),
    }
}

/// The arguments of the `git` call made in each phase.
pub open spec fn sync_argv_spec(phase: SyncPhase, default_branch: Seq<char>, start: Seq<char>) -> Seq<Seq<char>> {
    match phase {
        SyncPhase::Status => seq!["status"@, "--porcelain"@],
        SyncPhase::Fetch => seq!["fetch"@, "--quiet"@, "origin"@],
        SyncPhase::Ancestry => seq!["merge-base"@, "--is-ancestor"@, "HEAD"@, "origin/"@ + default_branch],
        SyncPhase::StartBranch => seq!["symbolic-ref"@, "--quiet"@, "--short"@, "HEAD"@],
        SyncPhase::StartCommit => seq!["rev-parse"@, "--verify"@, "HEAD"@],
        SyncPhase::Checkout => seq!["checkout"@, "--quiet"@, default_branch],
        SyncPhase::Merge => seq!["merge"@, "--quiet"@, "--ff-only"@, "--"@, "origin/"@ + default_branch],
        SyncPhase::Restore => seq!["checkout"@, "--quiet"@, start],
        _ => seq![],
    }
}

fn sync_argv(phase: SyncPhase, default_branch: &str, start: &str) -> (r: Vec<String>)
    requires
        phase != SyncPhase::Idle && phase != SyncPhase::Done,
    ensures
        argv_view(r@) == sync_argv_spec(phase, default_branch@, start@),
{
    let remote_ref = msg3("origin/", default_branch, "");
    proof {
        reveal_strlit("");
    }
    assert(remote_ref@ =~= "origin/"@ + default_branch@);
    let mut v: Vec<String> = Vec::new();
    match phase {
        SyncPhase::Status => {
            push_arg(&mut v, "status");
            push_arg(&mut v, "--porcelain");
        },
        SyncPhase::Fetch => {
            push_arg(&mut v, "fetch");
            push_arg(&mut v, "--quiet");
            push_arg(&mut v, "origin");
        },
        SyncPhase::Ancestry => {
            push_arg(&mut v, "merge-base");
            push_arg(&mut v, "--is-ancestor");
            push_arg(&mut v, "HEAD");
            push_arg(&mut v, remote_ref.as_str());
        },
        SyncPhase::StartBranch => {
            push_arg(&mut v, "symbolic-ref");
            push_arg(&mut v, "--quiet");
            push_arg(&mut v, "--short");
            push_arg(&mut v, "HEAD");
        },
        SyncPhase::StartCommit => {
            push_arg(&mut v, "rev-parse");
            push_arg(&mut v, "--verify");
            push_arg(&mut v, "HEAD");
        },
        SyncPhase::Checkout => {
            push_arg(&mut v, "checkout");
            push_arg(&mut v, "--quiet");
            push_arg(&mut v, default_branch);
        },
        SyncPhase::Restore => {
            push_arg(&mut v, "checkout");
            push_arg(&mut v, "--quiet");
            push_arg(&mut v, start);
        },
        _ => {
            push_arg(&mut v, "merge");
            push_arg(&mut v, "--quiet");
            push_arg(&mut v, "--ff-only");
            push_arg(&mut v, "--");
            push_arg(&mut v, remote_ref.as_str());
        },
    }
    v
}

fn detail_of(r: &CommandResult) -> (d: String)
    ensures
        d@ == failure_detail(*r),
{
    match r {
        CommandResult::Exited { success, stdout, stderr } => trimmed(stderr.as_str()),
        CommandResult::SpawnFailed(e) => owned(e.as_str()),
    }
}

/// Any successful `git status --porcelain` with output, whatever its lines
/// say (untracked files included), ends the sync with the workspace left
/// untouched for its uncommitted changes, before any further `git` call.
pub proof fn lemma_dirty_status_leaves_untouched(
    clone_dir: Seq<char>,
    default_branch: Seq<char>,
    stdout: String,
    stderr: String,
)
    requires
        stdout@.len() > 0,
    ensures
        sync_step_spec(
            SyncPhase::Status,
            clone_dir,
            default_branch,
            CommandResult::Exited { success: true, stdout, stderr },
        ) == (SyncPhase::Done, Some(Ok::<Seq<char>, Seq<char>>(
            "the workspace has uncommitted changes -- refusing to switch and potentially discard unprotected work"@,
        ))),
{
}

/// One step of switching a merged isolated workspace back to its default
/// branch: refuse (untouched) when it has uncommitted changes, fetch its
/// origin, refuse when HEAD is not contained in `origin/<default>`, note
/// where the workspace is (its branch, else its commit), then check out
/// the default branch and fast-forward it. A failed fast-forward switches
/// the workspace back to where it started before the failure is reported,
/// so a failure never leaves it elsewhere. `st` starts at `Idle`;
/// `result` is the outcome of the call the previous step asked for
/// (ignored on the first step).
pub fn sync_merged_step(
    st: &mut SyncMerged,
    clone_dir: &str,
    default_branch: &str,
    result: CommandResult,
) -> (act: SyncAction)
    requires
        old(st).phase != SyncPhase::Done,
    ensures
        act is Finish <==> final(st).phase == SyncPhase::Done,
        old(st).phase == SyncPhase::Status ==> match result {
            CommandResult::Exited { success, stdout, .. } => (success && stdout@.len() > 0) ==> match act {
                SyncAction::Finish(Ok(PostMergeSyncOutcome::LeftUntouched { reason })) => reason@
                    == "the workspace has uncommitted changes -- refusing to switch and potentially discard unprotected work"@,
                _ => false,
            },
            CommandResult::SpawnFailed(_) => act is Finish && act->Finish_0 is Err,
        },
        match old(st).phase {
            SyncPhase::Idle => final(st).phase == SyncPhase::Status && act is Git
                && argv_view(act->Git_0@) == sync_argv_spec(SyncPhase::Status, default_branch@, old(st).start@),
            SyncPhase::StartBranch => match output_text(result) {
                Some(b) => final(st).phase == SyncPhase::Checkout && final(st).start@ == b && act is Git
                    && argv_view(act->Git_0@) == sync_argv_spec(SyncPhase::Checkout, default_branch@, b),
                None => final(st).phase == SyncPhase::StartCommit && final(st).start == old(st).start && act is Git
                    && argv_view(act->Git_0@) == sync_argv_spec(SyncPhase::StartCommit, default_branch@, old(st).start@),
            },
            SyncPhase::StartCommit => match output_text(result) {
                Some(c) => final(st).phase == SyncPhase::Checkout && final(st).start@ == c && act is Git
                    && argv_view(act->Git_0@) == sync_argv_spec(SyncPhase::Checkout, default_branch@, c),
                None => act is Finish && act->Finish_0 is Err && act->Finish_0->Err_0@ == "could not tell where "@
                    + clone_dir@ + " started: "@ + failure_detail(result),
            },
            SyncPhase::Restore => act is Finish && act->Finish_0 is Err && act->Finish_0->Err_0@ == (match result {
                CommandResult::Exited { success: true, .. } => old(st).failure@,
                _ => old(st).failure@ + "; switching back to "@ + old(st).start@ + " failed as well: "@
                    + failure_detail(result),
            }),
            SyncPhase::Merge => {
                let (next, fin) = sync_step_spec(SyncPhase::Merge, clone_dir@, default_branch@, result);
                match fin {
                    Some(Err(m)) => final(st).phase == SyncPhase::Restore && final(st).failure@ == m
                        && final(st).start == old(st).start && act is Git
                        && argv_view(act->Git_0@) == sync_argv_spec(SyncPhase::Restore, default_branch@, old(st).start@),
                    _ => act is Finish
                        && act->Finish_0 == Ok::<PostMergeSyncOutcome, String>(PostMergeSyncOutcome::SwitchedToMain),
                }
            },
            _ => {
                let (next, fin) = sync_step_spec(old(st).phase, clone_dir@, default_branch@, result);
                &&& final(st).phase == next
                &&& final(st).start == old(st).start
                &&& next == SyncPhase::Done ==> match fin {
                    Some(Err(m)) => act->Finish_0 is Err && act->Finish_0->Err_0@ == m,
                    Some(Ok(reason)) => act->Finish_0 matches Ok(PostMergeSyncOutcome::LeftUntouched { reason: r })
                        && r@ == reason,
                    None => false,
                }
                &&& next != SyncPhase::Done ==> act is Git
                    && argv_view(act->Git_0@) == sync_argv_spec(next, default_branch@, old(st).start@)
            },
        },
{
    proof {
        reveal_strlit("origin/");
        reveal_strlit("");
    }
    let cur = st.phase;
    if cur == SyncPhase::Idle {
        st.phase = SyncPhase::Status;
        return SyncAction::Git(sync_argv(SyncPhase::Status, default_branch, st.start.as_str()));
    }
    if cur == SyncPhase::StartBranch || cur == SyncPhase::StartCommit {
        match trimmed_output(&result) {
            Some(at) => {
                st.start = at;
                st.phase = SyncPhase::Checkout;
                return SyncAction::Git(sync_argv(SyncPhase::Checkout, default_branch, st.start.as_str()));
            },
            None => {
                if cur == SyncPhase::StartBranch {
                    st.phase = SyncPhase::StartCommit;
                    return SyncAction::Git(sync_argv(SyncPhase::StartCommit, default_branch, st.start.as_str()));
                }
                st.phase = SyncPhase::Done;
                let d = detail_of(&result);
                return SyncAction::Finish(Err(msg5("could not tell where ", clone_dir, " started: ", d.as_str(), "")));
            },
        }
    }
    if cur == SyncPhase::Restore {
        st.phase = SyncPhase::Done;
        let restored = match &result {
            CommandResult::Exited { success, .. } => *success,
            CommandResult::SpawnFailed(_) => false,
        };
        if restored {
            return SyncAction::Finish(Err(owned(st.failure.as_str())));
        }
        let d = detail_of(&result);
        let head = msg5(st.failure.as_str(), "; switching back to ", st.start.as_str(), " failed as well: ", d.as_str());
        return SyncAction::Finish(Err(head));
    }
    let remote_ref = msg3("origin/", default_branch, "");
    assert(remote_ref@ =~= "origin/"@ + default_branch@);
    let outcome: Option<Result<String, String>> = match result {
        CommandResult::SpawnFailed(e) => {
            let m = match cur {
                SyncPhase::Status => msg5("failed to check ", clone_dir, " for uncommitted changes: ", e.as_str(), ""),
                SyncPhase::Fetch => msg5("failed to fetch origin in ", clone_dir, ": ", e.as_str(), ""),
                SyncPhase::Ancestry => {
                    let head = msg5("failed to check whether HEAD is an ancestor of ", remote_ref.as_str(), " in ", clone_dir, ": ");
                    msg3(head.as_str(), e.as_str(), "")
                },
                SyncPhase::Checkout => {
                    let head = msg5("failed to check out ", default_branch, " in ", clone_dir, ": ");
                    msg3(head.as_str(), e.as_str(), "")
                },
                _ => {
                    let head = msg5("failed to fast-forward ", default_branch, " to ", remote_ref.as_str(), " in ");
                    msg5(head.as_str(), clone_dir, ": ", e.as_str(), "")
                },
            };
            Some(Err(m))
        },
        CommandResult::Exited { success, stdout, stderr } => {
            if !success {
                let t = trimmed(stderr.as_str());
                match cur {
                    SyncPhase::Status => Some(Err(msg5("git status --porcelain failed in ", clone_dir, ": ", t.as_str(), ""))),
                    SyncPhase::Fetch => Some(Err(msg5("git fetch origin failed in ", clone_dir, ": ", t.as_str(), ""))),
                    SyncPhase::Ancestry => Some(Ok(msg3(
                        "the workspace's HEAD is not fully contained in ",
                        remote_ref.as_str(),
                        " -- it carries a local commit the merge never captured, refusing to switch and potentially strand or discard it",
                    ))),
                    SyncPhase::Checkout => {
                        let head = msg5("git checkout ", default_branch, " failed in ", clone_dir, ": ");
                        Some(Err(msg3(head.as_str(), t.as_str(), "")))
                    },
                    _ => {
                        let head = msg5("git merge --ff-only ", remote_ref.as_str(), " failed in ", clone_dir, ": ");
                        Some(Err(msg3(head.as_str(), t.as_str(), "")))
                    },
                }
            } else if cur == SyncPhase::Status && chars_of(stdout.as_str()).len() > 0 {
                Some(Ok(owned("the workspace has uncommitted changes -- refusing to switch and potentially discard unprotected work")))
            } else {
                None
            }
        },
    };
    match outcome {
        Some(Err(m)) => {
            if cur == SyncPhase::Merge {
                st.failure = m;
                st.phase = SyncPhase::Restore;
                SyncAction::Git(sync_argv(SyncPhase::Restore, default_branch, st.start.as_str()))
            } else {
                st.phase = SyncPhase::Done;
                SyncAction::Finish(Err(m))
            }
        },
        Some(Ok(reason)) => {
            st.phase = SyncPhase::Done;
            SyncAction::Finish(Ok(PostMergeSyncOutcome::LeftUntouched { reason }))
        },
        None => {
            let next = match cur {
                SyncPhase::Status => SyncPhase::Fetch,
                SyncPhase::Fetch => SyncPhase::Ancestry,
                SyncPhase::Ancestry => SyncPhase::StartBranch,
                SyncPhase::Checkout => SyncPhase::Merge,
                _ => SyncPhase::Done,
            };
            st.phase = next;
            if next == SyncPhase::Done {
                SyncAction::Finish(Ok(PostMergeSyncOutcome::SwitchedToMain))
            } else {
                SyncAction::Git(sync_argv(next, default_branch, st.start.as_str()))
            }
        },
    }
}

// ---------------------------------------------------------------------------
// `.git/info/exclude`
// ---------------------------------------------------------------------------

/// The exclude line that hides the per-issue worktrees.
pub const WORKTREES_EXCLUDE_LINE: &'static str = ".worktrees/";

/// Some line of `content` trims to `line`. Lines are what `str::lines`
/// yields: the text split on `\n` (a trailing `\r` is whitespace and
/// trimmed), with no empty last line after a final newline.
pub open spec fn has_line(content: Seq<char>, line: Seq<char>) -> bool {
    exists|a: int, b: int|
        0 <= a <= b <= content.len()
        && (a == 0 || content[a - 1] == '\n')
        && (b == content.len() || content[b] == '\n')
        && !content.subrange(a, b).contains('\n')
        && #[trigger] trim(content.subrange(a, b)) == line
}

/// Some line of `content` already reads `.worktrees/`.
pub open spec fn has_exclude_line(content: Seq<char>) -> bool {
    has_line(content, WORKTREES_EXCLUDE_LINE@)
}

/// The new content of `.git/info/exclude`, or `None` when some line of the
/// existing content already reads `.worktrees/` (surrounding whitespace
/// aside): otherwise the line is appended, after a newline when the
/// content does not already end with one.
pub open spec fn exclude_update_spec(existing: Seq<char>) -> Option<Seq<char>> {
    if has_exclude_line(existing) {
        None
    } else if existing.len() > 0 && existing.last() != '\n' {
        Some(existing.push('\n') + WORKTREES_EXCLUDE_LINE@.push('\n'))
    } else {
        Some(existing + WORKTREES_EXCLUDE_LINE@.push('\n'))
    }
}

proof fn lemma_exclude_line_trims_to_itself()
    ensures
        trim(WORKTREES_EXCLUDE_LINE@) == WORKTREES_EXCLUDE_LINE@,
        !WORKTREES_EXCLUDE_LINE@.contains('\n'),
{
    reveal_strlit(".worktrees/");
    let l = WORKTREES_EXCLUDE_LINE@;
    assert(l.len() == 11);
    assert(!is_ws(l[0]));
    assert(crate::text::trim_start(l) == l);
    assert(!is_ws(l.last()));
    assert(crate::text::trim_end(l) == l);
    assert forall|i: int| 0 <= i < l.len() implies l[i] != '\n' by {}
}

/// Once the line has been written, writing it again changes nothing.
pub proof fn lemma_exclude_update_idempotent(existing: Seq<char>)
    ensures
        match exclude_update_spec(existing) {
            Some(updated) => exclude_update_spec(updated) is None,
            None => true,
        },
{
    lemma_exclude_line_trims_to_itself();
    let l = WORKTREES_EXCLUDE_LINE@;
    if !has_exclude_line(existing) {
        let prefix = if existing.len() > 0 && existing.last() != '\n' { existing.push('\n') } else { existing };
        let updated = prefix + l.push('\n');
        assert(updated == exclude_update_spec(existing)->Some_0);
        let a = prefix.len() as int;
        let b = a + l.len();
        assert(updated.subrange(a, b) =~= l);
        assert(updated[b] == '\n');
        assert(a == 0 || updated[a - 1] == '\n') by {
            if a > 0 {
                assert(updated[a - 1] == prefix[a - 1]);
            }
        }
        assert(trim(updated.subrange(a, b)) == l);
        assert(has_exclude_line(updated));
    }
}

/// Whether some line of `s` trims to `line`.
fn has_line_exec(s: &Vec<char>, line: &Vec<char>) -> (b: bool)
    ensures
        b == has_line(s@, line@),
{
    let mut a: usize = 0;
    let mut i: usize = 0;
    while i <= s.len()
        invariant
            a <= i <= s.len() + 1,
            i <= s.len() ==> a <= i,
            a == 0 || s@[a - 1] == '\n',
            a <= s.len(),
            forall|k: int| a <= k < i && k < s.len() ==> s@[k] != '\n',
            forall|x: int, y: int|
                0 <= x <= y <= s@.len() && y < i && (x == 0 || s@[x - 1] == '\n')
                && (y == s@.len() || s@[y] == '\n') && !s@.subrange(x, y).contains('\n')
                ==> #[trigger] trim(s@.subrange(x, y)) != line@,
        decreases s.len() + 1 - i,
    {
        if i == s.len() || s[i] == '\n' {
            let seg = slice_chars_local(s, a, i);
            let t = trim_exec(&seg);
            if crate::text::chars_eq(&t, line) {
                proof {
                    assert(!s@.subrange(a as int, i as int).contains('\n')) by {
                        assert forall|k: int| 0 <= k < i - a implies s@.subrange(a as int, i as int)[k] != '\n' by {
                            assert(s@.subrange(a as int, i as int)[k] == s@[a + k]);
                        }
                    }
                }
                return true;
            }
            proof {
                assert forall|x: int, y: int|
                    0 <= x <= y <= s@.len() && y < i + 1 && (x == 0 || s@[x - 1] == '\n')
                    && (y == s@.len() || s@[y] == '\n') && !s@.subrange(x, y).contains('\n')
                    implies #[trigger] trim(s@.subrange(x, y)) != line@ by {
                    if y == i {
                        if x < a {
                            assert(s@.subrange(x, y)[a - 1 - x] == s@[a - 1]);
                        } else if x > a {
                            assert(s@[x - 1] != '\n');
                        }
                    }
                }
            }
            if i == s.len() {
                return false;
            }
            a = i + 1;
        } else {
            proof {
                assert forall|x: int, y: int|
                    0 <= x <= y <= s@.len() && y < i + 1 && (x == 0 || s@[x - 1] == '\n')
                    && (y == s@.len() || s@[y] == '\n') && !s@.subrange(x, y).contains('\n')
                    implies #[trigger] trim(s@.subrange(x, y)) != line@ by {
                    if y == i {
                        assert(s@[y] != '\n');
                    }
                }
            }
        }
        if i == s.len() {
            return false;
        }
        i = i + 1;
    }
    false
}

fn slice_chars_local(s: &Vec<char>, from: usize, to: usize) -> (r: Vec<char>)
    requires
        from <= to <= s.len(),
    ensures
        r@ == s@.subrange(from as int, to as int),
{
    crate::text::slice_chars(s, from, to)
}

/// The updated `.git/info/exclude` content, or `None` when the worktrees
/// line is already there.
pub fn worktrees_exclude_update(existing: &str) -> (r: Option<String>)
    ensures
        match r {
            Some(u) => exclude_update_spec(existing@) == Some(u@),
            None => exclude_update_spec(existing@) is None,
        },
{
    let s = chars_of(existing);
    let line = chars_of(WORKTREES_EXCLUDE_LINE);
    if has_line_exec(&s, &line) {
        return None;
    }
    let mut out = chars_of(existing);
    if s.len() > 0 && s[s.len() - 1] != '\n' {
        out.push('\n');
    }
    extend_str(&mut out, WORKTREES_EXCLUDE_LINE);
    out.push('\n');
    assert(out@ =~= exclude_update_spec(existing@)->Some_0);
    Some(string_of(&out))
}

// ---------------------------------------------------------------------------
// Reading `git` replies
// ---------------------------------------------------------------------------

/// The trimmed standard output of a successful call, when it is not empty
/// (an origin URL, a branch name, a commit id); `None` otherwise.
pub fn trimmed_output(r: &CommandResult) -> (o: Option<String>)
    ensures
        crate::dispatch_flow::opt_owned(o) == output_text(*r),
{
    match r {
        CommandResult::Exited { success, stdout, stderr } => {
            if !*success {
                return None;
            }
            let t = trim_exec(&chars_of(stdout.as_str()));
            if t.len() == 0 { None } else { Some(string_of(&t)) }
        },
        CommandResult::SpawnFailed(_) => None,
    }
}

/// The warning of a best-effort `git` call: none when it succeeded, else
/// `<what>: <trimmed stderr>` or `<what>: <spawn error>`.
pub open spec fn warning_text(what: Seq<char>, r: CommandResult) -> Option<Seq<char>> {
    match r {
        CommandResult::Exited { success, stdout, stderr } => if success {
            None
        } else {
            Some(what + ": "@ + trim(stderr@))
        },
        CommandResult::SpawnFailed(e) => Some(what + ": "@ + e@),
    }
}

/// The warning of a best-effort `git` call (see [`warning_text`]).
pub fn best_effort_warning(what: &str, r: &CommandResult) -> (o: Option<String>)
    ensures
        crate::dispatch_flow::opt_owned(o) == warning_text(what@, *r),
{
    match r {
        CommandResult::Exited { success, stdout, stderr } => {
            if *success {
                None
            } else {
                let t = trimmed(stderr.as_str());
                Some(msg3(what, ": ", t.as_str()))
            }
        },
        CommandResult::SpawnFailed(e) => Some(msg3(what, ": ", e.as_str())),
    }
}

/// The warning of pointing the clone's origin at `url`.
pub fn point_origin_warning(url: &str, r: &CommandResult) -> (o: Option<String>)
    ensures
        crate::dispatch_flow::opt_owned(o) == warning_text(
            "failed to point the clone's origin at the source's own origin ("@ + url@ + ")"@,
            *r,
        ),
{
    let what = msg3("failed to point the clone's origin at the source's own origin (", url, ")");
    best_effort_warning(what.as_str(), r)
}

/// The warning of removing the clone's default local-path origin.
pub fn remove_origin_warning(r: &CommandResult) -> (o: Option<String>)
    ensures
        crate::dispatch_flow::opt_owned(o) == warning_text("failed to remove the clone's default local-path origin"@, *r),
{
    best_effort_warning("failed to remove the clone's default local-path origin", r)
}

/// Some non-empty line of `a` is also a line of `b` (both trimmed).
pub open spec fn share_a_line(a: Seq<char>, b: Seq<char>) -> bool {
    exists|x: Seq<char>| x.len() > 0 && #[trigger] has_line(a, x) && has_line(b, x)
}

fn share_a_line_exec(s: &Vec<char>, other: &Vec<char>) -> (r: bool)
    ensures
        r == share_a_line(s@, other@),
{
    let mut a: usize = 0;
    let mut i: usize = 0;
    while i <= s.len()
        invariant
            a <= i <= s.len() + 1,
            i <= s.len() ==> a <= i,
            a == 0 || s@[a - 1] == '\n',
            a <= s.len(),
            forall|k: int| a <= k < i && k < s.len() ==> s@[k] != '\n',
            forall|x: int, y: int|
                0 <= x <= y <= s@.len() && y < i && (x == 0 || s@[x - 1] == '\n')
                && (y == s@.len() || s@[y] == '\n') && !s@.subrange(x, y).contains('\n')
                ==> #[trigger] trim(s@.subrange(x, y)).len() == 0 || !has_line(other@, trim(s@.subrange(x, y))),
        decreases s.len() + 1 - i,
    {
        if i == s.len() || s[i] == '\n' {
            let seg = slice_chars_local(s, a, i);
            let t = trim_exec(&seg);
            proof {
                assert(!s@.subrange(a as int, i as int).contains('\n')) by {
                    assert forall|k: int| 0 <= k < i - a implies s@.subrange(a as int, i as int)[k] != '\n' by {
                        assert(s@.subrange(a as int, i as int)[k] == s@[a + k]);
                    }
                }
            }
            if t.len() > 0 && has_line_exec(other, &t) {
                proof {
                    assert(trim(s@.subrange(a as int, i as int)) == t@);
                    assert(has_line(s@, t@));
                }
                return true;
            }
            proof {
                assert forall|x: int, y: int|
                    0 <= x <= y <= s@.len() && y < i + 1 && (x == 0 || s@[x - 1] == '\n')
                    && (y == s@.len() || s@[y] == '\n') && !s@.subrange(x, y).contains('\n')
                    implies #[trigger] trim(s@.subrange(x, y)).len() == 0 || !has_line(other@, trim(s@.subrange(x, y))) by {
                    if y == i {
                        if x < a {
                            assert(s@.subrange(x, y)[a - 1 - x] == s@[a - 1]);
                        } else if x > a {
                            assert(s@[x - 1] != '\n');
                        }
                    }
                }
            }
            if i == s.len() {
                proof {
                    lemma_no_shared_line(s@, other@);
                }
                return false;
            }
            a = i + 1;
        } else {
            proof {
                assert forall|x: int, y: int|
                    0 <= x <= y <= s@.len() && y < i + 1 && (x == 0 || s@[x - 1] == '\n')
                    && (y == s@.len() || s@[y] == '\n') && !s@.subrange(x, y).contains('\n')
                    implies #[trigger] trim(s@.subrange(x, y)).len() == 0 || !has_line(other@, trim(s@.subrange(x, y))) by {
                    if y == i {
                        assert(s@[y] != '\n');
                    }
                }
            }
        }
        if i == s.len() {
            proof {
                lemma_no_shared_line(s@, other@);
            }
            return false;
        }
        i = i + 1;
    }
    false
}

proof fn lemma_no_shared_line(s: Seq<char>, other: Seq<char>)
    requires
        forall|x: int, y: int|
            0 <= x <= y <= s.len() && y < s.len() + 1 && (x == 0 || s[x - 1] == '\n')
            && (y == s.len() || s[y] == '\n') && !s.subrange(x, y).contains('\n')
            ==> #[trigger] trim(s.subrange(x, y)).len() == 0 || !has_line(other, trim(s.subrange(x, y))),
    ensures
        !share_a_line(s, other),
{
    if share_a_line(s, other) {
        let l = choose|l: Seq<char>| l.len() > 0 && #[trigger] has_line(s, l) && has_line(other, l);
        let (p, q) = choose|p: int, q: int|
            0 <= p <= q <= s.len() && (p == 0 || s[p - 1] == '\n') && (q == s.len() || s[q] == '\n')
            && !s.subrange(p, q).contains('\n') && #[trigger] trim(s.subrange(p, q)) == l;
        assert(trim(s.subrange(p, q)).len() == 0 || !has_line(other, trim(s.subrange(p, q))));
    }
}

/// When both sides have an origin URL, they are the same.
pub open spec fn origins_agree(source_url: Option<String>, clone_url: Option<String>) -> bool {
    match (source_url, clone_url) {
        (Some(a), Some(b)) => a@ == b@,
        _ => true,
    }
}

/// Whether an existing clone's history can be the source's: when both
/// have an origin URL they must be equal, and the two histories must share
/// a root commit. `source_roots` and `clone_roots` are the outputs of
/// `git rev-list --max-parents=0 HEAD` in each (one root commit per line;
/// empty when it could not be read). The check needs no object of one
/// repository to be present in the other, so a source that moved on after
/// the clone was made still matches it.
pub fn histories_related(
    source_url: Option<String>,
    clone_url: Option<String>,
    source_roots: &str,
    clone_roots: &str,
) -> (b: bool)
    ensures
        b == (origins_agree(source_url, clone_url) && share_a_line(source_roots@, clone_roots@)),
{
    match (&source_url, &clone_url) {
        (Some(a), Some(c)) => {
            if !str_eq(a.as_str(), c.as_str()) {
                return false;
            }
        },
        _ => {},
    }
    share_a_line_exec(&chars_of(source_roots), &chars_of(clone_roots))
}

/// What forgetting an isolated workspace asks for next.
#[derive(Debug)]
pub enum ForgetStep {
    /// Look whether the provenance artifact is a file.
    CheckProvenance,
    /// Remove the workspace directory and everything in it.
    RemoveDir,
    /// Remove the provenance artifact.
    RemoveProvenance,
    Finish(Result<(), String>),
}

/// How the workspace directory's removal ended.
#[derive(Debug, Clone, PartialEq, Eq)]
pub enum RemoveResult {
    Removed,
    /// It was already gone.
    NotFound,
    Failed(String),
}

/// What the caller reports to [`forget_step`].
#[derive(Debug)]
pub enum ForgetEvent {
    /// Begin, with or without the caller's explicit confirmation.
    Started { confirmed: bool },
    /// Whether the provenance artifact is a file.
    ProvenanceChecked(bool),
    /// How removing the workspace directory ended.
    DirRemoved(RemoveResult),
    /// How removing the provenance artifact ended.
    ProvenanceRemoved(Result<(), String>),
}

/// One step of forgetting the isolated workspace `clone_dir` (whose
/// provenance artifact is `marker_path`) at the request of `remover`:
/// nothing without an explicit confirmation, nothing without this deck's
/// provenance evidence, then the directory (already gone is fine) and the
/// artifact.
pub fn forget_step(clone_dir: &str, marker_path: &str, remover: &str, event: ForgetEvent) -> (r: ForgetStep)
    ensures
        match event {
            ForgetEvent::Started { confirmed } => if !confirmed {
                r is Finish && r->Finish_0 is Err && r->Finish_0->Err_0@ == "refusing to forget: pass an explicit confirming flag to acknowledge that this permanently removes the workspace directory and its provenance record -- nothing was touched"@
            } else {
                r is CheckProvenance
            },
            ForgetEvent::ProvenanceChecked(is_file) => if !is_file {
                r is Finish && r->Finish_0 is Err && r->Finish_0->Err_0@ == "refusing to forget "@ + clone_dir@
                    + ": no M4b ownership evidence found for this workspace (expected a provenance artifact at "@
                    + marker_path@ + ") -- it may never have been created by this deck, or may already have been forgotten"@
            } else {
                r is RemoveDir
            },
            ForgetEvent::DirRemoved(RemoveResult::Failed(e)) => r is Finish && r->Finish_0 is Err && r->Finish_0->Err_0@
                == "failed to remove workspace directory "@ + clone_dir@ + " (requested by "@ + remover@ + "): "@ + e@,
            ForgetEvent::DirRemoved(_) => r is RemoveProvenance,
            ForgetEvent::ProvenanceRemoved(Ok(())) => r is Finish && r->Finish_0 is Ok,
            ForgetEvent::ProvenanceRemoved(Err(e)) => r is Finish && r->Finish_0 is Err && r->Finish_0->Err_0@
                == "failed to remove provenance artifact "@ + marker_path@ + " (requested by "@ + remover@ + "): "@ + e@,
        },
{
    proof {
        reveal_strlit("");
    }
    match event {
        ForgetEvent::Started { confirmed } => {
            if !confirmed {
                ForgetStep::Finish(Err(owned("refusing to forget: pass an explicit confirming flag to acknowledge that this permanently removes the workspace directory and its provenance record -- nothing was touched")))
            } else {
                ForgetStep::CheckProvenance
            }
        },
        ForgetEvent::ProvenanceChecked(is_file) => {
            if !is_file {
                let head = msg3("refusing to forget ", clone_dir, ": no M4b ownership evidence found for this workspace (expected a provenance artifact at ");
                ForgetStep::Finish(Err(msg3(head.as_str(), marker_path, ") -- it may never have been created by this deck, or may already have been forgotten")))
            } else {
                ForgetStep::RemoveDir
            }
        },
        ForgetEvent::DirRemoved(RemoveResult::Failed(e)) => {
            let head = msg5("failed to remove workspace directory ", clone_dir, " (requested by ", remover, "): ");
            ForgetStep::Finish(Err(msg3(head.as_str(), e.as_str(), "")))
        },
        ForgetEvent::DirRemoved(_) => ForgetStep::RemoveProvenance,
        ForgetEvent::ProvenanceRemoved(Ok(())) => ForgetStep::Finish(Ok(())),
        ForgetEvent::ProvenanceRemoved(Err(e)) => {
            let head = msg5("failed to remove provenance artifact ", marker_path, " (requested by ", remover, "): ");
            ForgetStep::Finish(Err(msg3(head.as_str(), e.as_str(), "")))
        },
    }
}

} // verus!
