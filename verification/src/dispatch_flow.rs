//! The per-issue dispatch flow as a machine driven by the caller: the three
//! idempotency signals in order (worktree on disk, the `in-progress`
//! label, an open PR), worktree creation, the registry record, the spawn,
//! and the claim writes, with every notification the flow emits.

use vstd::prelude::*;
use crate::claim::{claim_body, claim_comment_body, Identity};
use crate::dispatch_run::WorktreeCreation;
use crate::issue_dispatch::{
    argv_view, assignee_argv_spec, issue_argv_spec, issue_comment_argv,
    issue_edit_add_label_argv, issue_edit_assignee_argv, issue_paths_spec, issue_view_comments_argv,
    pr_list_for_issue_argv, derive_issue_paths, substitute_issue_number, triage_instruction,
    lemma_login_shape, validate_gh_login, valid_login, IssuePaths, IN_PROGRESS_LABEL,
};
use crate::json::{
    assignees_of, json_document, newest_claim, parse_claim_comment, parse_current_assignees,
    parse_open_pr_present, strings_view, JsonValue,
};
use crate::registry::{path_key, record_worktree, take_worktree, EntryView, RemovalPolicy, WorktreeRegistry};
use crate::text::{chars_of, decimal, extend_str, owned, push_decimal, str_eq, string_of, trim, trim_exec};

verus! {

broadcast use vstd::string::group_string_axioms;

// ---------------------------------------------------------------------------
// Notifications
// ---------------------------------------------------------------------------

/// Why an issue was skipped.
#[derive(Debug, Clone, PartialEq, Eq)]
pub enum SkipReason {
    /// The per-issue worktree is already on disk.
    WorktreeExists,
    /// The issue carries the `in-progress` label; `claimant` is the newest
    /// claim comment's text, when one was found.
    Labelled { claimant: Option<String> },
    /// An open PR's head is the issue's branch.
    OpenPr,
    /// A concurrent creator got the worktree first.
    ConcurrentCreator,
}

/// What the dispatch flow reports.
#[derive(Debug, Clone, PartialEq, Eq)]
pub enum NotifyEvent {
    IssueDispatchRepoError { task: String, repo: String, message: String },
    IssueDispatchFailed { task: String, repo: String, issue: u64, message: String },
    IssueDispatchSkipped { task: String, repo: String, issue: u64, branch: String, reason: SkipReason },
    IssueDispatched { task: String, repo: String, issue: u64 },
    IssueClaimFailed { task: String, repo: String, issue: u64, message: String },
    IssueWorktreeMarkerWarning { task: String, repo: String, issue: u64, worktree: String, error: String },
}

/// Where the flow's notifications go.
pub trait Notifier {
    fn notify(&self, event: NotifyEvent);
}

/// The notification for a failed ownership-marker write, if there was one.
pub fn marker_warning_event(
    task_name: &str,
    repo: &str,
    issue: u64,
    worktree_dir: &str,
    marker_warning: Option<String>,
) -> (r: Option<NotifyEvent>)
    ensures
        match marker_warning {
            None => r is None,
            Some(e) => match r {
                Some(NotifyEvent::IssueWorktreeMarkerWarning { task, repo: rp, issue: n, worktree, error }) =>
                    task@ == task_name@ && rp@ == repo@ && n == issue && worktree@ == worktree_dir@
                    && error == e,
                _ => false,
            },
        },
{
    match marker_warning {
        Some(error) => Some(NotifyEvent::IssueWorktreeMarkerWarning {
            task: owned(task_name),
            repo: owned(repo),
            issue,
            worktree: owned(worktree_dir),
            error,
        }),
        None => None,
    }
}

/// Notify a failed ownership-marker write; nothing when it succeeded.
pub fn notify_marker_warning_if_any<N: Notifier>(
    notifier: &N,
    task_name: &str,
    repo: &str,
    issue: u64,
    worktree_dir: &str,
    marker_warning: Option<String>,
) {
    if let Some(event) = marker_warning_event(task_name, repo, issue, worktree_dir, marker_warning) {
        notifier.notify(event);
    }
}

// ---------------------------------------------------------------------------
// Small decisions
// ---------------------------------------------------------------------------

/// The login named by a `gh api user` reply, when it is a valid login
/// once trimmed.
pub open spec fn login_of_reply(reply: Result<String, String>) -> Option<Seq<char>> {
    match reply {
        Ok(out) => if trim(out@).len() > 0 && valid_login(trim(out@)) { Some(trim(out@)) } else { None },
        Err(_) => None,
    }
}

/// A `gh api user` reply whose trimmed text has the shape of a GitHub login
/// (`^[A-Za-z0-9][A-Za-z0-9-]*$`, capitals included) resolves to exactly
/// that login.
pub proof fn lemma_login_reply_resolves(out: String)
    requires
        ({
            let t = trim(out@);
            t.len() > 0 && (('a' <= t[0] && t[0] <= 'z') || ('A' <= t[0] && t[0] <= 'Z') || ('0' <= t[0] && t[0]
                <= '9')) && forall|i: int|
                1 <= i < t.len() ==> ('a' <= #[trigger] t[i] && t[i] <= 'z') || ('A' <= t[i] && t[i] <= 'Z')
                    || ('0' <= t[i] && t[i] <= '9') || t[i] == '-'
        }),
    ensures
        login_of_reply(Ok(out)) == Some(trim(out@)),
{
    lemma_login_shape(trim(out@));
}

/// The login `gh api user` named, when its reply is a valid login once
/// trimmed; any failure or implausible reply degrades to `None`.
pub fn resolve_login_reply(reply: Result<String, String>) -> (r: Option<String>)
    ensures
        opt_owned(r) == login_of_reply(reply),
{
    match reply {
        Ok(out) => {
            let t = string_of(&trim_exec(&chars_of(out.as_str())));
            if chars_of(t.as_str()).len() == 0 {
                None
            } else if !validate_gh_login(t.as_str()) {
                None
            } else {
                Some(t)
            }
        },
        Err(_) => None,
    }
}

/// The claimant text for a label skip: the raw newest claim comment of a
/// `gh issue view --json comments` reply; `None` on any failure.
pub fn claimant_of_reply(reply: Result<String, String>) -> (r: Option<String>)
    ensures
        match reply {
            Ok(out) => match json_document(trim(out@)) {
                Ok(doc) => match newest_claim(doc) {
                    Some(c) => r is Some && r->Some_0@ == c.raw,
                    None => r is None,
                },
                Err(_) => r is None,
            },
            Err(_) => r is None,
        },
{
    match reply {
        Ok(out) => match parse_claim_comment(out.as_str()) {
            Ok(Some(c)) => Some(c.raw),
            _ => None,
        },
        Err(_) => None,
    }
}

/// The current assignees out of a `gh issue view` reply, none on failure.
pub fn assignees_of_reply(reply: Result<String, String>) -> (r: Vec<String>)
    ensures
        strings_view(r@) == match reply {
            Ok(out) => match json_document(trim(out@)) {
                Ok(doc) => assignees_of(doc),
                Err(_) => Seq::empty(),
            },
            Err(_) => Seq::<Seq<char>>::empty(),
        },
{
    match reply {
        Ok(out) => match parse_current_assignees(out.as_str()) {
            Ok(v) => v,
            Err(_) => {
                let v: Vec<String> = Vec::new();
                assert(strings_view(v@) =~= Seq::<Seq<char>>::empty());
                v
            },
        },
        Err(_) => {
            let v: Vec<String> = Vec::new();
            assert(strings_view(v@) =~= Seq::<Seq<char>>::empty());
            v
        },
    }
}

/// `current` without every entry equal to `login`, in order.
pub open spec fn without(current: Seq<Seq<char>>, login: Seq<char>) -> Seq<Seq<char>> {
    current.filter(|a: Seq<char>| a != login)
}

/// The assignees to remove when `login` takes the issue: every current
/// assignee but `login` itself.
pub fn assignee_removals(current: &Vec<String>, login: &str) -> (r: Vec<String>)
    ensures
        strings_view(r@) == without(strings_view(current@), login@),
{
    let mut out: Vec<String> = Vec::new();
    let mut i: usize = 0;
    while i < current.len()
        invariant
            i <= current.len(),
            strings_view(out@) == without(strings_view(current@.take(i as int)), login@),
        decreases current.len() - i,
    {
        let ghost pre = strings_view(current@.take(i as int));
        assert(strings_view(current@.take(i + 1)) =~= pre.push(current@[i as int]@));
        assert(without(pre.push(current@[i as int]@), login@) == if current@[i as int]@ != login@ {
            without(pre, login@).push(current@[i as int]@)
        } else {
            without(pre, login@)
        }) by {
            reveal(Seq::filter);
            assert(pre.push(current@[i as int]@).drop_last() =~= pre);
        }
        if !str_eq(current[i].as_str(), login) {
            out.push(current[i].clone());
            assert(strings_view(out@) =~= without(strings_view(current@.take(i + 1)), login@));
        }
        i = i + 1;
    }
    assert(current@.take(current.len() as int) =~= current@);
    out
}

/// The prompt handed to a dispatched agent: the template with the issue
/// number substituted, plus the triage instruction when triage is on.
pub fn dispatch_prompt(prompt_template: &str, issue: u64, triage: bool) -> (r: String)
    ensures
        r@ == crate::text::replace_all(
            prompt_template@,
            crate::issue_dispatch::ISSUE_NUMBER_PLACEHOLDER@,
            decimal(issue as nat),
        ) + (if triage {
            "\n\n"@ + "Triage this issue using the following labels: "@ + crate::issue_dispatch::joined_names(
                crate::issue_dispatch::triage_label_list(),
            ) + crate::issue_dispatch::triage_tail()
        } else {
            Seq::empty()
        }),
{
    let p = substitute_issue_number(prompt_template, issue);
    if triage {
        let mut v = chars_of(p.as_str());
        extend_str(&mut v, "\n\n");
        let t = triage_instruction();
        extend_str(&mut v, t.as_str());
        string_of(&v)
    } else {
        assert(p@ =~= p@ + Seq::<char>::empty());
        p
    }
}

/// The creator label of an issue-dispatch worktree: `issue-dispatch:<task>#<n>`.
pub fn dispatch_creator_label(task_name: &str, issue: u64) -> (r: String)
    ensures
        r@ == "issue-dispatch:"@ + task_name@ + "#"@ + decimal(issue as nat),
{
    let mut v = chars_of("issue-dispatch:");
    extend_str(&mut v, task_name);
    extend_str(&mut v, "#");
    push_decimal(&mut v, issue);
    string_of(&v)
}

// ---------------------------------------------------------------------------
// One issue
// ---------------------------------------------------------------------------

/// What the spawn primitive is asked to start.
#[derive(Debug, Clone, PartialEq, Eq)]
pub struct SpawnRequest {
    pub task_name: String,
    pub working_dir: String,
    pub command: Option<String>,
    pub prompt: String,
    pub owner: Option<String>,
}

/// What the spawn started.
#[derive(Debug, Clone, PartialEq, Eq)]
pub enum SpawnKind {
    Orchestration { name: String },
    SingleAgent,
}

/// The fixed inputs of one issue's dispatch.
#[derive(Debug, Clone)]
pub struct IssueJob {
    pub task_name: String,
    pub repo: String,
    pub workspace: String,
    pub prompt_template: String,
    pub triage: bool,
    pub default_command: Option<String>,
    pub issue: u64,
    pub label_in_progress: bool,
    pub clone_dir: String,
    /// The `gh` login resolved for this run, if any.
    pub login: Option<String>,
    /// This host's name, part of every worktree claim identity.
    pub host: String,
}

/// Where the dispatch of one issue stands: which report it waits for.
#[derive(Debug, Clone, Copy, PartialEq, Eq, Structural)]
pub enum IssuePhase {
    Idle,
    CheckingWorktree,
    FetchingClaimant,
    ProbingPr,
    CreatingWorktree,
    Spawning,
    FetchingAssignees,
    Stamping,
    Commenting,
    Labelling,
    Assigning,
    Done,
}

/// The state of one issue's dispatch.
#[derive(Debug)]
pub struct IssueDispatch {
    pub phase: IssuePhase,
    pub paths: IssuePaths,
    pub creator: String,
    pub identity: Option<Identity>,
    pub remove: Vec<String>,
}

/// A report from the caller.
#[derive(Debug)]
pub enum IssueEvent {
    Started,
    /// Whether the asked-about path exists.
    Exists(bool),
    /// A captured `gh` call: its standard output, or its failure.
    Captured(Result<String, String>),
    /// What the worktree creation ended with.
    Created(Result<WorktreeCreation, String>),
    /// What the spawn ended with, and the worktree directory as the file
    /// system resolves it (its canonical path, or the path as derived when it
    /// cannot be resolved): the path the claim identity names.
    Spawned(Result<SpawnKind, String>, String),
    /// The current UTC time in RFC 3339.
    Timestamp(String),
    /// A `gh` call that must exit zero: how it ended.
    Ran(Result<(), String>),
}

/// What the caller is asked to do next.
#[derive(Debug)]
pub enum IssueAction {
    /// Look whether this path exists; report `Exists`.
    CheckPath(String),
    /// Run `gh` with these arguments, capturing standard output; report
    /// `Captured`.
    Capture(Vec<String>),
    /// Create the worktree (the attach-locked creation, reusing an existing
    /// branch) in `clone_dir` at `worktree_dir` on `branch` for `creator`;
    /// report `Created`.
    CreateWorktree { clone_dir: String, worktree_dir: String, branch: String, creator: String },
    /// Spawn this request (delivery detached); report `Spawned`.
    Spawn(SpawnRequest),
    /// Read the clock; report `Timestamp`.
    ReadClock,
    /// Run `gh` with these arguments; report `Ran`.
    Run(Vec<String>),
    /// The issue is done with: `Ok` dispatched or skipped, `Err` failed.
    Finish(Result<(), String>),
}

/// One step's notifications, in order, and the next action.
#[derive(Debug)]
pub struct IssueStep {
    pub notify: Vec<NotifyEvent>,
    pub action: IssueAction,
}

pub open spec fn issue_expects(phase: IssuePhase, e: IssueEvent) -> bool {
    match phase {
        IssuePhase::Idle => e is Started,
        IssuePhase::CheckingWorktree => e is Exists,
        IssuePhase::FetchingClaimant => e is Captured,
        IssuePhase::ProbingPr => e is Captured,
        IssuePhase::CreatingWorktree => e is Created,
        IssuePhase::Spawning => e is Spawned,
        IssuePhase::FetchingAssignees => e is Captured,
        IssuePhase::Stamping => e is Timestamp,
        IssuePhase::Commenting => e is Ran,
        IssuePhase::Labelling => e is Ran,
        IssuePhase::Assigning => e is Ran,
        IssuePhase::Done => false,
    }
}

/// The consistency of an issue-dispatch state with its job.
pub open spec fn issue_state_ok(st: IssueDispatch, job: IssueJob) -> bool {
    &&& st.phase != IssuePhase::Idle ==> (st.paths.clone_dir@, st.paths.worktree_dir@, st.paths.branch@)
        == issue_paths_spec(job.workspace@, job.task_name@, job.issue as nat)
    &&& st.phase != IssuePhase::Idle ==> st.creator@ == "issue-dispatch:"@ + job.task_name@ + "#"@
        + decimal(job.issue as nat)
    &&& (st.phase == IssuePhase::FetchingAssignees || st.phase == IssuePhase::Stamping
        || st.phase == IssuePhase::Commenting || st.phase == IssuePhase::Labelling
        || st.phase == IssuePhase::Assigning) ==> st.identity is Some
    &&& st.phase == IssuePhase::Assigning ==> job.login is Some
    &&& st.phase == IssuePhase::FetchingAssignees ==> job.login is Some
}

/// A fresh dispatch of one issue.
pub fn new_issue_dispatch() -> (st: IssueDispatch)
    ensures
        st.phase == IssuePhase::Idle,
        st.paths.clone_dir@.len() == 0,
        st.paths.worktree_dir@.len() == 0,
        st.paths.branch@.len() == 0,
        st.creator@.len() == 0,
        st.identity is None,
        st.remove@.len() == 0,
{
    IssueDispatch {
        phase: IssuePhase::Idle,
        paths: IssuePaths { clone_dir: String::new(), worktree_dir: String::new(), branch: String::new() },
        creator: String::new(),
        identity: None,
        remove: Vec::new(),
    }
}

pub open spec fn skipped(job: IssueJob, branch: Seq<char>, n: NotifyEvent, reason: SkipReason) -> bool {
    match n {
        NotifyEvent::IssueDispatchSkipped { task, repo, issue, branch: b, reason: r } =>
            task@ == job.task_name@ && repo@ == job.repo@ && issue == job.issue && b@ == branch && r == reason,
        _ => false,
    }
}

/// `n` reports the failed ownership-marker write of worktree `wt` for `job`.
pub open spec fn marker_warned(job: IssueJob, wt: Seq<char>, n: NotifyEvent, error: Seq<char>) -> bool {
    match n {
        NotifyEvent::IssueWorktreeMarkerWarning { task, repo, issue, worktree, error: e } =>
            task@ == job.task_name@ && repo@ == job.repo@ && issue == job.issue && worktree@ == wt && e@ == error,
        _ => false,
    }
}

pub open spec fn claim_failed(job: IssueJob, n: NotifyEvent, message: Seq<char>) -> bool {
    match n {
        NotifyEvent::IssueClaimFailed { task, repo, issue, message: m } =>
            task@ == job.task_name@ && repo@ == job.repo@ && issue == job.issue && m@ == message,
        _ => false,
    }
}

fn skip_event(job: &IssueJob, branch: &String, reason: SkipReason) -> (n: NotifyEvent)
    ensures
        skipped(*job, branch@, n, reason),
{
    NotifyEvent::IssueDispatchSkipped {
        task: job.task_name.clone(),
        repo: job.repo.clone(),
        issue: job.issue,
        branch: branch.clone(),
        reason,
    }
}

fn claim_failed_event(job: &IssueJob, what: &str, e: &str) -> (n: NotifyEvent)
    ensures
        claim_failed(*job, n, what@ + e@),
{
    let mut m = chars_of(what);
    extend_str(&mut m, e);
    NotifyEvent::IssueClaimFailed {
        task: job.task_name.clone(),
        repo: job.repo.clone(),
        issue: job.issue,
        message: string_of(&m),
    }
}

fn one(n: NotifyEvent) -> (v: Vec<NotifyEvent>)
    ensures
        v@ == seq![n],
{
    let mut v: Vec<NotifyEvent> = Vec::new();
    v.push(n);
    v
}

fn none() -> (v: Vec<NotifyEvent>)
    ensures
        v@.len() == 0,
{
    Vec::new()
}

/// Whether a PR probe's reply lists no open PR: a JSON array with no element.
pub open spec fn pr_probe_empty(reply: Result<String, String>) -> bool {
    match reply {
        Ok(out) => match json_document(trim(out@)) {
            Ok(JsonValue::Array(items)) => items@.len() == 0,
            _ => false,
        },
        Err(_) => false,
    }
}

/// The phase that one step of an issue's dispatch moves to from `phase` on
/// `event`.
pub open spec fn issue_next_phase(phase: IssuePhase, job: IssueJob, event: IssueEvent) -> IssuePhase {
    match event {
        IssueEvent::Started => IssuePhase::CheckingWorktree,
        IssueEvent::Exists(present) => if present {
            IssuePhase::Done
        } else if job.label_in_progress {
            IssuePhase::FetchingClaimant
        } else {
            IssuePhase::ProbingPr
        },
        IssueEvent::Captured(reply) => match phase {
            IssuePhase::FetchingClaimant => IssuePhase::Done,
            IssuePhase::ProbingPr => if pr_probe_empty(reply) {
                IssuePhase::CreatingWorktree
            } else {
                IssuePhase::Done
            },
            _ => IssuePhase::Stamping,
        },
        IssueEvent::Created(r) => match r {
            Ok(WorktreeCreation::Created { .. }) => IssuePhase::Spawning,
            _ => IssuePhase::Done,
        },
        IssueEvent::Spawned(r, _) => match r {
            Ok(_) => if job.login is Some {
                IssuePhase::FetchingAssignees
            } else {
                IssuePhase::Stamping
            },
            Err(_) => IssuePhase::Done,
        },
        IssueEvent::Timestamp(_) => IssuePhase::Commenting,
        IssueEvent::Ran(_) => match phase {
            IssuePhase::Commenting => IssuePhase::Labelling,
            IssuePhase::Labelling => if job.login is Some {
                IssuePhase::Assigning
            } else {
                IssuePhase::Done
            },
            _ => IssuePhase::Done,
        },
    }
}

pub open spec fn opt_owned(o: Option<String>) -> Option<Seq<char>> {
    match o {
        Some(s) => Some(s@),
        None => None,
    }
}

/// One step of dispatching `job.issue`.
///
/// A worktree already on disk skips the issue (no `gh` call at all); the
/// `in-progress` label skips it next, naming the newest claim comment when
/// one can be read; an open PR on the issue's branch skips it last, and a
/// failed or malformed PR probe fails the issue. Otherwise the worktree is
/// created (a concurrent claim, a leftover branch or a timeout skips), a
/// failed marker write is reported, the worktree is recorded in
/// `worktrees` for tab-close cleanup before the agent is spawned with the
/// substituted prompt, and a failed spawn drops that record again and
/// fails the issue. After a successful spawn the dispatch is reported and
/// the issue is claimed: the comment naming the spawned identity (at the
/// worktree path the spawn report resolved on disk), then the
/// label, then (with a login) the assignee replacing every other current
/// one; a failed write is reported and never fails the issue.
pub fn dispatch_issue_step(
    st: &mut IssueDispatch,
    job: &IssueJob,
    worktrees: &mut WorktreeRegistry,
    event: IssueEvent,
) -> (step: IssueStep)
    requires
        issue_expects(old(st).phase, event),
        issue_state_ok(*old(st), *job),
    ensures
        issue_state_ok(*final(st), *job),
        final(st).phase == issue_next_phase(old(st).phase, *job, event),
        step.action is Finish <==> final(st).phase == IssuePhase::Done,
        !(event is Started) ==> final(st).paths == old(st).paths && final(st).creator == old(st).creator,
        !(event is Spawned) ==> final(st).identity == old(st).identity,
        !(event is Spawned) && old(st).phase != IssuePhase::FetchingAssignees ==> final(st).remove@
            == old(st).remove@,
        (event matches IssueEvent::Spawned(Ok(_), _) && job.login is None) ==> final(st).remove@.len() == 0,
        ({
            let wt = final(st).paths.worktree_dir@;
            let branch = final(st).paths.branch@;
            let reg_unchanged = final(worktrees)@ == old(worktrees)@;
            match event {
                IssueEvent::Started => step.action is CheckPath && step.action->CheckPath_0@ == wt
                    && step.notify@.len() == 0 && reg_unchanged,
                IssueEvent::Exists(true) => step.action == IssueAction::Finish(Ok(()))
                    && step.notify@.len() == 1 && skipped(*job, branch, step.notify@[0], SkipReason::WorktreeExists)
                    && reg_unchanged,
                IssueEvent::Exists(false) => step.notify@.len() == 0 && reg_unchanged && step.action is Capture
                    && argv_view(step.action->Capture_0@) == if job.label_in_progress {
                        issue_argv_spec("view"@, job.repo@, "--json"@, "comments,assignees"@, job.issue as nat)
                    } else {
                        seq!["pr"@, "list"@, "--repo"@, job.repo@, "--state"@, "open"@, "--head"@,
                            crate::issue_dispatch::issue_branch_spec(job.issue as nat), "--json"@, "number"@, "--"@]
                    },
                IssueEvent::Captured(reply) => reg_unchanged && match old(st).phase {
                    IssuePhase::FetchingClaimant => step.action == IssueAction::Finish(Ok(()))
                        && step.notify@.len() == 1 && match step.notify@[0] {
                            NotifyEvent::IssueDispatchSkipped { reason: SkipReason::Labelled { claimant }, .. } =>
                                skipped(*job, branch, step.notify@[0], SkipReason::Labelled { claimant })
                                && opt_owned(claimant) == match reply {
                                    Ok(out) => match json_document(trim(out@)) {
                                        Ok(doc) => match newest_claim(doc) {
                                            Some(c) => Some(c.raw),
                                            None => None,
                                        },
                                        Err(_) => None,
                                    },
                                    Err(_) => None,
                                },
                            _ => false,
                        },
                    IssuePhase::ProbingPr => match reply {
                        Err(e) => step.action is Finish && step.action->Finish_0 is Err
                            && step.action->Finish_0->Err_0@ == e@ && step.notify@.len() == 0,
                        Ok(out) => match json_document(trim(out@)) {
                            Err(pe) => step.action is Finish && step.action->Finish_0 is Err && step.notify@.len() == 0
                                && step.action->Finish_0->Err_0@ == "failed to parse `gh pr list` JSON: "@ + pe,
                            Ok(JsonValue::Array(items)) => if items@.len() > 0 {
                                step.action == IssueAction::Finish(Ok(())) && step.notify@.len() == 1
                                    && skipped(*job, branch, step.notify@[0], SkipReason::OpenPr)
                            } else {
                                step.notify@.len() == 0 && match step.action {
                                    IssueAction::CreateWorktree { clone_dir, worktree_dir, branch: b, creator } =>
                                        clone_dir@ == job.clone_dir@ && worktree_dir@ == wt && b@ == branch
                                        && creator@ == final(st).creator@,
                                    _ => false,
                                }
                            },
                            Ok(_) => step.action is Finish && step.action->Finish_0 is Err && step.notify@.len() == 0
                                && step.action->Finish_0->Err_0@ == "`gh pr list` did not return a JSON array"@,
                        },
                    },
                    IssuePhase::FetchingAssignees => step.notify@.len() == 0 && step.action is ReadClock,
                    _ => false,
                },
                IssueEvent::Created(r) => match r {
                    Err(e) => step.action is Finish && step.action->Finish_0 is Err
                        && step.action->Finish_0->Err_0@ == e@ && reg_unchanged,
                    Ok(WorktreeCreation::Created { marker_warning }) => {
                        &&& final(worktrees)@ == old(worktrees)@.insert(path_key(wt),
                            EntryView { clone_dir: job.clone_dir@, policy: RemovalPolicy::KeepIfDirty })
                        &&& match marker_warning {
                            Some(e) => step.notify@.len() == 1 && marker_warned(*job, wt, step.notify@[0], e@),
                            None => step.notify@.len() == 0,
                        }
                        &&& match step.action {
                            IssueAction::Spawn(req) => req.task_name@ == job.task_name@ && req.working_dir@ == wt
                                && opt_owned(req.command) == opt_owned(job.default_command)
                                && req.prompt@ == crate::text::replace_all(
                                    job.prompt_template@,
                                    crate::issue_dispatch::ISSUE_NUMBER_PLACEHOLDER@,
                                    decimal(job.issue as nat),
                                ) + (if job.triage {
                                    "\n\n"@ + "Triage this issue using the following labels: "@
                                        + crate::issue_dispatch::joined_names(crate::issue_dispatch::triage_label_list())
                                        + crate::issue_dispatch::triage_tail()
                                } else {
                                    Seq::empty()
                                })
                                && req.owner is Some && req.owner->Some_0@ == final(st).creator@,
                            _ => false,
                        }
                    },
                    Ok(_) => step.action == IssueAction::Finish(Ok(())) && step.notify@.len() == 1
                        && skipped(*job, branch, step.notify@[0], SkipReason::ConcurrentCreator) && reg_unchanged,
                },
                IssueEvent::Spawned(r, resolved) => match r {
                    Err(e) => step.action is Finish && step.action->Finish_0 is Err
                        && step.action->Finish_0->Err_0@ == e@ && step.notify@.len() == 0
                        && final(worktrees)@ == old(worktrees)@.remove(path_key(wt)),
                    Ok(kind) => reg_unchanged && step.notify@.len() == 1
                        && step.notify@[0] == (NotifyEvent::IssueDispatched {
                            task: job.task_name, repo: job.repo, issue: job.issue,
                        })
                        && final(st).identity is Some
                        && match (kind, final(st).identity->Some_0) {
                            (SpawnKind::Orchestration { name }, Identity::Worktree { path, branch: b, host, label }) =>
                                path@ == resolved@ && b@ == branch && host@ == job.host@ && label is Some
                                && label->Some_0@ == crate::claim::orchestration_label(name@),
                            (SpawnKind::SingleAgent, Identity::Worktree { path, branch: b, host, label }) =>
                                path@ == resolved@ && b@ == branch && host@ == job.host@ && label is Some
                                && label->Some_0@ == crate::claim::issue_dispatch_label(job.task_name@, job.issue as nat),
                            _ => false,
                        }
                        && if job.login is Some {
                            step.action is Capture && argv_view(step.action->Capture_0@)
                                == issue_argv_spec("view"@, job.repo@, "--json"@, "comments,assignees"@, job.issue as nat)
                        } else {
                            step.action is ReadClock
                        },
                },
                IssueEvent::Timestamp(ts) => reg_unchanged && step.notify@.len() == 0 && step.action is Run
                    && argv_view(step.action->Run_0@) == issue_argv_spec("comment"@, job.repo@, "--body"@,
                        claim_body(final(st).identity->Some_0, ts@, opt_owned(job.login), None), job.issue as nat),
                IssueEvent::Ran(r) => reg_unchanged && (match r {
                    Ok(()) => step.notify@.len() == 0,
                    Err(e) => step.notify@.len() == 1 && claim_failed(*job, step.notify@[0], match old(st).phase {
                        IssuePhase::Commenting => "failed to post the claim comment: "@ + e@,
                        IssuePhase::Labelling => "failed to write the in-progress label: "@ + e@,
                        _ => "failed to write the assignee: "@ + e@,
                    }),
                }) && match old(st).phase {
                    IssuePhase::Commenting => step.action is Run && argv_view(step.action->Run_0@)
                        == issue_argv_spec("edit"@, job.repo@, "--add-label"@, IN_PROGRESS_LABEL@, job.issue as nat),
                    IssuePhase::Labelling => if job.login is Some {
                        step.action is Run && argv_view(step.action->Run_0@) == assignee_argv_spec(job.repo@,
                            job.issue as nat, opt_owned(job.login), strings_view(old(st).remove@))
                    } else {
                        step.action == IssueAction::Finish(Ok(()))
                    },
                    _ => step.action == IssueAction::Finish(Ok(())),
                },
            }
        }),
        old(st).phase == IssuePhase::FetchingAssignees ==> match event {
            IssueEvent::Captured(reply) => final(st).phase == IssuePhase::Stamping
                && strings_view(final(st).remove@) == without(
                    match reply {
                        Ok(out) => match json_document(trim(out@)) {
                            Ok(doc) => assignees_of(doc),
                            Err(_) => Seq::empty(),
                        },
                        Err(_) => Seq::<Seq<char>>::empty(),
                    },
                    job.login->Some_0@,
                ),
            _ => false,
        },
{
    match event {
        IssueEvent::Started => {
            st.paths = derive_issue_paths(job.workspace.as_str(), job.task_name.as_str(), job.issue);
            st.creator = dispatch_creator_label(job.task_name.as_str(), job.issue);
            st.phase = IssuePhase::CheckingWorktree;
            IssueStep { notify: none(), action: IssueAction::CheckPath(st.paths.worktree_dir.clone()) }
        },
        IssueEvent::Exists(present) => {
            if present {
                st.phase = IssuePhase::Done;
                let n = skip_event(job, &st.paths.branch, SkipReason::WorktreeExists);
                IssueStep { notify: one(n), action: IssueAction::Finish(Ok(())) }
            } else if job.label_in_progress {
                st.phase = IssuePhase::FetchingClaimant;
                IssueStep {
                    notify: none(),
                    action: IssueAction::Capture(issue_view_comments_argv(job.repo.as_str(), job.issue)),
                }
            } else {
                st.phase = IssuePhase::ProbingPr;
                IssueStep {
                    notify: none(),
                    action: IssueAction::Capture(pr_list_for_issue_argv(job.repo.as_str(), job.issue)),
                }
            }
        },
        IssueEvent::Captured(reply) => {
            if st.phase == IssuePhase::FetchingClaimant {
                st.phase = IssuePhase::Done;
                let claimant = claimant_of_reply(reply);
                let n = skip_event(job, &st.paths.branch, SkipReason::Labelled { claimant });
                IssueStep { notify: one(n), action: IssueAction::Finish(Ok(())) }
            } else if st.phase == IssuePhase::ProbingPr {
                let out = match reply {
                    Ok(out) => out,
                    Err(e) => {
                        st.phase = IssuePhase::Done;
                        return IssueStep { notify: none(), action: IssueAction::Finish(Err(e)) };
                    },
                };
                match parse_open_pr_present(out.as_str()) {
                    Err(e) => {
                        st.phase = IssuePhase::Done;
                        IssueStep { notify: none(), action: IssueAction::Finish(Err(e)) }
                    },
                    Ok(true) => {
                        st.phase = IssuePhase::Done;
                        let n = skip_event(job, &st.paths.branch, SkipReason::OpenPr);
                        IssueStep { notify: one(n), action: IssueAction::Finish(Ok(())) }
                    },
                    Ok(false) => {
                        st.phase = IssuePhase::CreatingWorktree;
                        IssueStep {
                            notify: none(),
                            action: IssueAction::CreateWorktree {
                                clone_dir: job.clone_dir.clone(),
                                worktree_dir: st.paths.worktree_dir.clone(),
                                branch: st.paths.branch.clone(),
                                creator: st.creator.clone(),
                            },
                        }
                    },
                }
            } else {
                let current = assignees_of_reply(reply);
                let login = job.login.as_ref().unwrap();
                st.remove = assignee_removals(&current, login.as_str());
                st.phase = IssuePhase::Stamping;
                IssueStep { notify: none(), action: IssueAction::ReadClock }
            }
        },
        IssueEvent::Created(r) => match r {
            Err(e) => {
                st.phase = IssuePhase::Done;
                IssueStep { notify: none(), action: IssueAction::Finish(Err(e)) }
            },
            Ok(WorktreeCreation::Created { marker_warning }) => {
                let mut notify = none();
                match marker_warning_event(
                    job.task_name.as_str(),
                    job.repo.as_str(),
                    job.issue,
                    st.paths.worktree_dir.as_str(),
                    marker_warning,
                ) {
                    Some(n) => notify.push(n),
                    None => {},
                }
                record_worktree(
                    worktrees,
                    st.paths.worktree_dir.as_str(),
                    job.clone_dir.as_str(),
                    RemovalPolicy::KeepIfDirty,
                );
                let prompt = dispatch_prompt(job.prompt_template.as_str(), job.issue, job.triage);
                let command = match &job.default_command {
                    Some(c) => Some(c.clone()),
                    None => None,
                };
                st.phase = IssuePhase::Spawning;
                IssueStep {
                    notify,
                    action: IssueAction::Spawn(SpawnRequest {
                        task_name: job.task_name.clone(),
                        working_dir: st.paths.worktree_dir.clone(),
                        command,
                        prompt,
                        owner: Some(st.creator.clone()),
                    }),
                }
            },
            Ok(_) => {
                st.phase = IssuePhase::Done;
                let n = skip_event(job, &st.paths.branch, SkipReason::ConcurrentCreator);
                IssueStep { notify: one(n), action: IssueAction::Finish(Ok(())) }
            },
        },
        IssueEvent::Spawned(r, resolved) => match r {
            Err(e) => {
                let _ = take_worktree(worktrees, st.paths.worktree_dir.as_str());
                st.phase = IssuePhase::Done;
                IssueStep { notify: none(), action: IssueAction::Finish(Err(e)) }
            },
            Ok(kind) => {
                let n = NotifyEvent::IssueDispatched { task: job.task_name.clone(), repo: job.repo.clone(), issue: job.issue };
                let identity = match kind {
                    SpawnKind::Orchestration { name } => Identity::orchestration(
                        name.as_str(),
                        resolved.as_str(),
                        st.paths.branch.as_str(),
                        job.host.as_str(),
                    ),
                    SpawnKind::SingleAgent => Identity::issue_dispatch(
                        job.task_name.as_str(),
                        job.issue,
                        resolved.as_str(),
                        st.paths.branch.as_str(),
                        job.host.as_str(),
                    ),
                };
                st.identity = Some(identity);
                if job.login.is_some() {
                    st.phase = IssuePhase::FetchingAssignees;
                    IssueStep {
                        notify: one(n),
                        action: IssueAction::Capture(issue_view_comments_argv(job.repo.as_str(), job.issue)),
                    }
                } else {
                    st.remove = Vec::new();
                    st.phase = IssuePhase::Stamping;
                    IssueStep { notify: one(n), action: IssueAction::ReadClock }
                }
            },
        },
        IssueEvent::Timestamp(ts) => {
            let login: Option<&str> = match &job.login {
                Some(l) => Some(l.as_str()),
                None => None,
            };
            let body = claim_comment_body(st.identity.as_ref().unwrap(), ts.as_str(), login, None);
            st.phase = IssuePhase::Commenting;
            IssueStep { notify: none(), action: IssueAction::Run(issue_comment_argv(job.repo.as_str(), job.issue, body.as_str())) }
        },
        IssueEvent::Ran(r) => {
            let phase = st.phase;
            let notify = match r {
                Ok(()) => none(),
                Err(e) => {
                    let what = if phase == IssuePhase::Commenting {
                        "failed to post the claim comment: "
                    } else if phase == IssuePhase::Labelling {
                        "failed to write the in-progress label: "
                    } else {
                        "failed to write the assignee: "
                    };
                    one(claim_failed_event(job, what, e.as_str()))
                },
            };
            if phase == IssuePhase::Commenting {
                st.phase = IssuePhase::Labelling;
                IssueStep {
                    notify,
                    action: IssueAction::Run(issue_edit_add_label_argv(job.repo.as_str(), job.issue, IN_PROGRESS_LABEL)),
                }
            } else if phase == IssuePhase::Labelling && job.login.is_some() {
                let login: Option<&str> = match &job.login {
                    Some(l) => Some(l.as_str()),
                    None => None,
                };
                st.phase = IssuePhase::Assigning;
                IssueStep {
                    notify,
                    action: IssueAction::Run(issue_edit_assignee_argv(job.repo.as_str(), job.issue, login, st.remove.as_slice())),
                }
            } else {
                st.phase = IssuePhase::Done;
                IssueStep { notify, action: IssueAction::Finish(Ok(())) }
            }
        },
    }
}

} // verus!
