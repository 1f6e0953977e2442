//! One fire of an `issue_dispatch` task, as a machine driven by the caller:
//! validate the workspace root, provision the repo clone (verifying an
//! existing clone's origin before touching it), enumerate the open issues,
//! ensure the claim label (and, with triage, the label vocabulary),
//! resolve the `gh` login once, and dispatch each of the first
//! `max_per_run` issues inside its own error boundary.

use vstd::prelude::*;
use crate::dispatch_flow::{login_of_reply, opt_owned, resolve_login_reply, IssueJob, NotifyEvent};
use crate::dispatch_run::{canonical_workspace, github_owner_name_spec, is_absolute, origin_matches_repo, absolute_path};
use crate::issue_dispatch::{
    argv_view, gh_current_login_argv, issue_list_argv, issue_list_argv_spec, label_create_argv,
    opt_view, path_join, path_join_exec, push_arg, sanitize_clone_segment, sanitize_segment_spec,
    triage_labels, type_labels, LabelSpec, IN_PROGRESS_LABEL, IN_PROGRESS_LABEL_COLOR,
    IN_PROGRESS_LABEL_DESCRIPTION,
};
use crate::json::{json_document, open_issues_of, parse_open_issues, JsonValue, OpenIssue};
use crate::text::{ascii_lower, chars_of, debug_quoted, debug_str, extend_str, owned, string_of, trim, trim_exec};

verus! {

broadcast use vstd::string::group_string_axioms;

/// The `issue_dispatch` settings of a scheduled task.
#[derive(Debug, Clone, PartialEq, Eq)]
pub struct IssueDispatchConfig {
    pub repo: String,
    pub max_per_run: usize,
    pub label: Option<String>,
    pub query: Option<String>,
    pub triage: bool,
}

/// The fixed inputs of one fire.
#[derive(Debug, Clone)]
pub struct RunJob {
    pub task_name: String,
    pub working_dir: String,
    pub prompt_template: String,
    pub cfg: IssueDispatchConfig,
    pub default_command: Option<String>,
    /// This host's name, for the claim identities.
    pub host: String,
}

/// Where the fire stands: which report it waits for.
#[derive(Debug, Clone, Copy, PartialEq, Eq, Structural)]
pub enum RunPhase {
    Idle,
    CheckingClone,
    ReadingOrigin,
    Fetching,
    Pulling,
    CreatingWorkspace,
    Cloning,
    Excluding,
    Listing,
    EnsuringClaimLabel,
    ResolvingLogin,
    EnsuringLabels,
    Dispatching,
    Done,
}

/// The state of one fire.
#[derive(Debug)]
pub struct RunDispatch {
    pub phase: RunPhase,
    pub workspace: String,
    pub clone_dir: String,
    /// The issues considered this fire (at most `max_per_run`), in order.
    pub issues: Vec<OpenIssue>,
    /// The next issue to dispatch.
    pub next_issue: usize,
    /// The next vocabulary label to ensure.
    pub next_label: usize,
    pub login: Option<String>,
}

/// A report from the caller.
#[derive(Debug)]
pub enum RunEvent {
    Started,
    /// Whether the asked-about path is a directory.
    IsDir(bool),
    /// A captured call: its standard output, or its failure.
    Captured(Result<String, String>),
    /// A call that must succeed: how it ended.
    Ran(Result<(), String>),
    /// How the asked-for issue's dispatch ended.
    IssueDone(Result<(), String>),
}

/// What the caller is asked to do next.
#[derive(Debug)]
pub enum RunAction {
    /// Look whether this path is a directory; report `IsDir`.
    CheckDir(String),
    /// Run `git` with these arguments capturing its output; report `Captured`.
    CaptureGit(Vec<String>),
    /// Run `git` with these arguments; report `Ran`.
    RunGit(Vec<String>),
    /// Run `gh` with these arguments capturing its output; report `Captured`.
    CaptureGh(Vec<String>),
    /// Run `gh` with these arguments; report `Ran`.
    RunGh(Vec<String>),
    /// Create this directory and its parents; report `Ran`.
    CreateDir(String),
    /// Make `.git/info/exclude` of this clone hide `.worktrees/` (see
    /// `worktrees_exclude_update`); report `Ran`.
    EnsureExcluded(String),
    /// Dispatch this issue (see `dispatch_issue_step`); report `IssueDone`.
    Dispatch(IssueJob),
    /// The fire is over.
    Finish,
}

/// One step's notifications and the next action.
#[derive(Debug)]
pub struct RunStep {
    pub notify: Vec<NotifyEvent>,
    pub action: RunAction,
}

pub open spec fn run_expects(phase: RunPhase, e: RunEvent) -> bool {
    match phase {
        RunPhase::Idle => e is Started,
        RunPhase::CheckingClone => e is IsDir,
        RunPhase::ReadingOrigin => e is Captured,
        RunPhase::Fetching => e is Ran,
        RunPhase::Pulling => e is Ran,
        RunPhase::CreatingWorkspace => e is Ran,
        RunPhase::Cloning => e is Ran,
        RunPhase::Excluding => e is Ran,
        RunPhase::Listing => e is Captured,
        RunPhase::EnsuringClaimLabel => e is Ran,
        RunPhase::ResolvingLogin => e is Captured,
        RunPhase::EnsuringLabels => e is Ran,
        RunPhase::Dispatching => e is IssueDone,
        RunPhase::Done => false,
    }
}

/// The clone directory of a fire: the workspace joined with the task
/// name's sanitized segment.
pub open spec fn run_clone_dir(workspace: Seq<char>, task_name: Seq<char>) -> Seq<char> {
    path_join(workspace, sanitize_segment_spec(task_name))
}

pub open spec fn run_state_ok(st: RunDispatch, job: RunJob) -> bool {
    &&& st.phase != RunPhase::Idle && st.phase != RunPhase::Done ==> is_absolute(job.working_dir@)
        && absolute_path(job.working_dir@) == Ok::<Seq<char>, Seq<char>>(st.workspace@)
        && st.clone_dir@ == run_clone_dir(st.workspace@, job.task_name@)
    &&& st.issues@.len() <= job.cfg.max_per_run
    &&& st.next_issue <= st.issues@.len()
    &&& st.phase == RunPhase::Dispatching ==> st.next_issue < st.issues@.len()
    &&& st.phase == RunPhase::EnsuringLabels ==> job.cfg.triage
    &&& st.next_label <= 8
}

/// A fresh fire.
pub fn new_run_dispatch() -> (st: RunDispatch)
    ensures
        st.phase == RunPhase::Idle,
        st.issues@.len() == 0,
        st.next_issue == 0,
        st.next_label == 0,
        st.workspace@.len() == 0,
        st.clone_dir@.len() == 0,
        st.login is None,
{
    RunDispatch {
        phase: RunPhase::Idle,
        workspace: String::new(),
        clone_dir: String::new(),
        issues: Vec::new(),
        next_issue: 0,
        next_label: 0,
        login: None,
    }
}

pub open spec fn repo_error(job: RunJob, n: NotifyEvent, message: Seq<char>) -> bool {
    match n {
        NotifyEvent::IssueDispatchRepoError { task, repo, message: m } =>
            task@ == job.task_name@ && repo@ == job.cfg.repo@ && m@ == message,
        _ => false,
    }
}

fn repo_error_event(job: &RunJob, message: String) -> (n: NotifyEvent)
    ensures
        repo_error(*job, n, message@),
{
    NotifyEvent::IssueDispatchRepoError { task: job.task_name.clone(), repo: job.cfg.repo.clone(), message }
}

/// The label vocabulary ensured under triage, in order: the seven triage
/// labels, then the type label.
pub open spec fn vocabulary() -> Seq<LabelSpec> {
    crate::issue_dispatch::triage_label_list() + seq![
        (LabelSpec {
            name: "chore",
            color: "d93f0b",
            description: "Maintenance work with no user-facing surface.",
        }),
    ]
}

/// A step that asks to create (or refresh) the `i`th vocabulary label and
/// leaves `i + 1` as the next one.
pub open spec fn creates_vocabulary_label(job: RunJob, st: RunDispatch, step: RunStep, i: int) -> bool {
    let l = vocabulary()[i];
    &&& st.next_label == i + 1
    &&& step.notify@.len() == 0
    &&& step.action is RunGh
    &&& argv_view(step.action->RunGh_0@) == seq![
        "label"@, "create"@, l.name@, "--repo"@, job.cfg.repo@, "--color"@, l.color@,
        "--description"@, l.description@, "--force"@,
    ]
}

/// Whether an origin URL read from an existing clone may be fetched: it
/// names the configured repo on GitHub (compared case-insensitively), or it
/// is no GitHub URL at all.
pub open spec fn origin_accepted(job: RunJob, origin: Seq<char>) -> bool {
    match github_owner_name_spec(origin) {
        Some(found) => found == ascii_lower(job.cfg.repo@),
        None => true,
    }
}

/// The phase that one step of a fire moves to from state `st` on `event`.
pub open spec fn run_next_phase(st: RunDispatch, job: RunJob, event: RunEvent) -> RunPhase {
    let issues_or_done = if st.issues@.len() > 0 { RunPhase::Dispatching } else { RunPhase::Done };
    match event {
        RunEvent::Started => if !is_absolute(job.working_dir@) || absolute_path(job.working_dir@) is Err {
            RunPhase::Done
        } else {
            RunPhase::CheckingClone
        },
        RunEvent::IsDir(is_dir) => if is_dir { RunPhase::ReadingOrigin } else { RunPhase::CreatingWorkspace },
        RunEvent::Captured(r) => match st.phase {
            RunPhase::ReadingOrigin => match r {
                Ok(out) => if origin_accepted(job, trim(out@)) { RunPhase::Fetching } else { RunPhase::Done },
                Err(_) => RunPhase::Done,
            },
            RunPhase::Listing => match r {
                Ok(out) => match json_document(trim(out@)) {
                    Ok(JsonValue::Array(_)) => RunPhase::EnsuringClaimLabel,
                    _ => RunPhase::Done,
                },
                Err(_) => RunPhase::Done,
            },
            _ => if job.cfg.triage { RunPhase::EnsuringLabels } else { issues_or_done },
        },
        RunEvent::Ran(r) => match st.phase {
            RunPhase::Fetching => if r is Ok { RunPhase::Pulling } else { RunPhase::Excluding },
            RunPhase::Pulling => RunPhase::Excluding,
            RunPhase::CreatingWorkspace => if r is Ok { RunPhase::Cloning } else { RunPhase::Done },
            RunPhase::Cloning => if r is Ok { RunPhase::Excluding } else { RunPhase::Done },
            RunPhase::Excluding => RunPhase::Listing,
            RunPhase::EnsuringClaimLabel => RunPhase::ResolvingLogin,
            _ => if st.next_label < 8 { RunPhase::EnsuringLabels } else { issues_or_done },
        },
        RunEvent::IssueDone(_) => if st.next_issue + 1 < st.issues@.len() {
            RunPhase::Dispatching
        } else {
            RunPhase::Done
        },
    }
}

/// The `i`th label of the vocabulary ensured under triage: the seven
/// triage labels, then the type label.
fn vocabulary_label(i: usize) -> (l: LabelSpec)
    requires
        i < 8,
    ensures
        l == vocabulary()[i as int],
{
    if i < 7 {
        let t = triage_labels();
        t[i]
    } else {
        let t = type_labels();
        t[0]
    }
}

/// The first `max` issues, in order.
pub fn issues_to_consider(issues: Vec<OpenIssue>, max: usize) -> (r: Vec<OpenIssue>)
    ensures
        r@ == if issues@.len() <= max { issues@ } else { issues@.take(max as int) },
{
    let mut out: Vec<OpenIssue> = Vec::new();
    let mut i: usize = 0;
    while i < issues.len() && i < max
        invariant
            i <= issues.len(),
            i <= max,
            out@ == issues@.take(i as int),
        decreases issues.len() - i,
    {
        out.push(issues[i]);
        i = i + 1;
        assert(out@ =~= issues@.take(i as int));
    }
    if issues.len() <= max {
        assert(issues@.take(issues.len() as int) =~= issues@);
    }
    out
}

/// One step of a fire of `job`.
///
/// A relative or unabsolutizable workspace root, a clone directory whose
/// origin cannot be read or names another GitHub repo, a workspace that
/// cannot be created, a failed `gh repo clone`, and a failed or malformed
/// issue enumeration each end the fire with a repo-level error. An existing
/// clone is fetched and fast-forwarded (a failure there only leaves the
/// refs as they were). The claim label is ensured unconditionally and the
/// `gh` login resolved once; with triage the label vocabulary is ensured
/// too (failures ignored). The first `max_per_run` issues are then
/// dispatched in order; a failed issue is reported and the next one runs.
pub fn run_dispatch_step(st: &mut RunDispatch, job: &RunJob, event: RunEvent) -> (step: RunStep)
    requires
        run_expects(old(st).phase, event),
        run_state_ok(*old(st), *job),
    ensures
        run_state_ok(*final(st), *job),
        final(st).phase == run_next_phase(*old(st), *job, event),
        step.action is Finish <==> final(st).phase == RunPhase::Done,
        !(event is Started) ==> final(st).workspace == old(st).workspace && final(st).clone_dir == old(st).clone_dir,
        !(event is Captured && old(st).phase == RunPhase::Listing) ==> final(st).issues == old(st).issues,
        !(event is Captured && old(st).phase == RunPhase::ResolvingLogin) ==> final(st).login == old(st).login,
        old(st).phase == RunPhase::ResolvingLogin && job.cfg.triage ==> creates_vocabulary_label(*job, *final(st),
            step, 0),
        old(st).phase == RunPhase::EnsuringLabels && old(st).next_label < 8 ==> creates_vocabulary_label(*job,
            *final(st), step, old(st).next_label as int),
        match event {
            RunEvent::Started => if !is_absolute(job.working_dir@) || absolute_path(job.working_dir@) is Err {
                step.action is Finish && step.notify@.len() == 1 && repo_error(*job, step.notify@[0],
                    if !is_absolute(job.working_dir@) {
                        "working_dir "@ + debug_quoted(job.working_dir@)
                            + " is not absolute; issue-dispatch requires an absolute workspace root"@
                    } else {
                        "failed to absolutize working_dir "@ + debug_quoted(job.working_dir@) + ": "@
                            + absolute_path(job.working_dir@)->Err_0
                    })
            } else {
                step.notify@.len() == 0 && step.action is CheckDir && step.action->CheckDir_0@ == final(st).clone_dir@
            },
            RunEvent::Captured(r) => match old(st).phase {
                RunPhase::ReadingOrigin => match r {
                    Err(e) => step.action is Finish && step.notify@.len() == 1 && repo_error(*job, step.notify@[0],
                        "clone dir "@ + old(st).clone_dir@
                            + " has no usable git origin; refusing to refresh a foreign dir: "@ + e@),
                    Ok(out) => {
                        let origin = trim(out@);
                        let ok = match github_owner_name_spec(origin) {
                            Some(found) => found == ascii_lower(job.cfg.repo@),
                            None => true,
                        };
                        if ok {
                            step.notify@.len() == 0 && step.action is RunGit
                                && argv_view(step.action->RunGit_0@) == seq!["-C"@, old(st).clone_dir@, "fetch"@]
                        } else {
                            step.action is Finish && step.notify@.len() == 1 && repo_error(*job, step.notify@[0],
                                "clone dir "@ + old(st).clone_dir@ + " has origin "@ + debug_quoted(origin)
                                    + ", which does not match configured repo "@ + debug_quoted(job.cfg.repo@)
                                    + "; refusing to fetch/pull (fail-closed)"@)
                        }
                    },
                },
                RunPhase::Listing => match r {
                    Err(e) => step.action is Finish && step.notify@.len() == 1 && repo_error(*job, step.notify@[0], e@),
                    Ok(out) => match json_document(trim(out@)) {
                        Ok(JsonValue::Array(items)) => step.notify@.len() == 0 && final(st).issues@ == (if open_issues_of(
                            items@,
                        ).len() <= job.cfg.max_per_run {
                            open_issues_of(items@)
                        } else {
                            open_issues_of(items@).take(job.cfg.max_per_run as int)
                        }) && step.action is RunGh && argv_view(step.action->RunGh_0@) == seq![
                            "label"@, "create"@, IN_PROGRESS_LABEL@, "--repo"@, job.cfg.repo@, "--color"@,
                            IN_PROGRESS_LABEL_COLOR@, "--description"@, IN_PROGRESS_LABEL_DESCRIPTION@, "--force"@,
                        ],
                        Ok(_) => step.action is Finish && step.notify@.len() == 1 && repo_error(*job, step.notify@[0],
                            "`gh issue list` did not return a JSON array"@),
                        Err(pe) => step.action is Finish && step.notify@.len() == 1 && repo_error(*job, step.notify@[0],
                            "failed to parse `gh issue list` JSON: "@ + pe),
                    },
                },
                _ => opt_owned(final(st).login) == login_of_reply(r) && step.notify@.len() == 0,
            },
            RunEvent::IssueDone(r) => {
                let issue = old(st).issues@[old(st).next_issue as int];
                &&& final(st).next_issue == old(st).next_issue + 1
                &&& match r {
                    Ok(()) => step.notify@.len() == 0,
                    Err(m) => step.notify@.len() == 1 && step.notify@[0] == (NotifyEvent::IssueDispatchFailed {
                        task: job.task_name, repo: job.cfg.repo, issue: issue.number, message: m,
                    }),
                }
                &&& final(st).next_issue < old(st).issues@.len() ==> dispatches(*job, *final(st), step.action,
                    final(st).next_issue as int)
                &&& final(st).next_issue == old(st).issues@.len() ==> step.action is Finish
            },
            RunEvent::IsDir(is_dir) => step.notify@.len() == 0 && if is_dir {
                step.action is CaptureGit && argv_view(step.action->CaptureGit_0@)
                    == seq!["-C"@, old(st).clone_dir@, "remote"@, "get-url"@, "origin"@]
            } else {
                step.action is CreateDir && step.action->CreateDir_0@ == old(st).workspace@
            },
            RunEvent::Ran(r) => match old(st).phase {
                RunPhase::Fetching => step.notify@.len() == 0 && if r is Ok {
                    step.action is RunGit && argv_view(step.action->RunGit_0@)
                        == seq!["-C"@, old(st).clone_dir@, "pull"@, "--ff-only"@]
                } else {
                    step.action is EnsureExcluded && step.action->EnsureExcluded_0@ == old(st).clone_dir@
                },
                RunPhase::Pulling => step.notify@.len() == 0 && step.action is EnsureExcluded
                    && step.action->EnsureExcluded_0@ == old(st).clone_dir@,
                RunPhase::CreatingWorkspace => match r {
                    Err(e) => step.action is Finish && step.notify@.len() == 1 && repo_error(*job, step.notify@[0],
                        "failed to create workspace "@ + old(st).workspace@ + ": "@ + e@),
                    Ok(()) => step.notify@.len() == 0 && step.action is RunGh && argv_view(step.action->RunGh_0@)
                        == seq!["repo"@, "clone"@, job.cfg.repo@, old(st).clone_dir@],
                },
                RunPhase::Cloning => match r {
                    Err(e) => step.action is Finish && step.notify@.len() == 1 && repo_error(*job, step.notify@[0], e@),
                    Ok(()) => step.notify@.len() == 0 && step.action is EnsureExcluded
                        && step.action->EnsureExcluded_0@ == old(st).clone_dir@,
                },
                RunPhase::Excluding => step.notify@.len() == 0 && step.action is CaptureGh
                    && argv_view(step.action->CaptureGh_0@) == issue_list_argv_spec(job.cfg.repo@,
                        job.cfg.max_per_run as nat, opt_owned(job.cfg.label), opt_owned(job.cfg.query)),
                RunPhase::EnsuringClaimLabel => step.notify@.len() == 0 && step.action is CaptureGh
                    && argv_view(step.action->CaptureGh_0@) == seq!["api"@, "user"@, "--jq"@, ".login"@],
                _ => step.notify@.len() == 0,
            },
        },
        old(st).phase == RunPhase::ResolvingLogin || old(st).phase == RunPhase::EnsuringLabels ==> {
            ||| (final(st).phase == RunPhase::EnsuringLabels && job.cfg.triage && step.action is RunGh)
            ||| (final(st).issues@.len() > 0 && final(st).phase == RunPhase::Dispatching
                && dispatches(*job, *final(st), step.action, 0))
            ||| (final(st).issues@.len() == 0 && step.action is Finish)
        },
{
    match event {
        RunEvent::Started => {
            match canonical_workspace(job.working_dir.as_str()) {
                Err(message) => {
                    st.phase = RunPhase::Done;
                    let n = repo_error_event(job, message);
                    let mut v: Vec<NotifyEvent> = Vec::new();
                    v.push(n);
                    RunStep { notify: v, action: RunAction::Finish }
                },
                Ok(ws) => {
                    let seg = sanitize_clone_segment(job.task_name.as_str());
                    st.clone_dir = path_join_exec(ws.as_str(), seg.as_str());
                    st.workspace = ws;
                    st.phase = RunPhase::CheckingClone;
                    RunStep { notify: Vec::new(), action: RunAction::CheckDir(st.clone_dir.clone()) }
                },
            }
        },
        RunEvent::IsDir(is_dir) => {
            if is_dir {
                st.phase = RunPhase::ReadingOrigin;
                let mut v: Vec<String> = Vec::new();
                push_arg(&mut v, "-C");
                push_arg(&mut v, st.clone_dir.as_str());
                push_arg(&mut v, "remote");
                push_arg(&mut v, "get-url");
                push_arg(&mut v, "origin");
                RunStep { notify: Vec::new(), action: RunAction::CaptureGit(v) }
            } else {
                st.phase = RunPhase::CreatingWorkspace;
                RunStep { notify: Vec::new(), action: RunAction::CreateDir(st.workspace.clone()) }
            }
        },
        RunEvent::Captured(r) => {
            if st.phase == RunPhase::ReadingOrigin {
                match r {
                    Err(e) => {
                        st.phase = RunPhase::Done;
                        let mut m = chars_of("clone dir ");
                        extend_str(&mut m, st.clone_dir.as_str());
                        extend_str(&mut m, " has no usable git origin; refusing to refresh a foreign dir: ");
                        extend_str(&mut m, e.as_str());
                        let mut v: Vec<NotifyEvent> = Vec::new();
                        v.push(repo_error_event(job, string_of(&m)));
                        RunStep { notify: v, action: RunAction::Finish }
                    },
                    Ok(out) => {
                        let origin = string_of(&trim_exec(&chars_of(out.as_str())));
                        if !origin_matches_repo(origin.as_str(), job.cfg.repo.as_str()) {
                            st.phase = RunPhase::Done;
                            let mut m = chars_of("clone dir ");
                            extend_str(&mut m, st.clone_dir.as_str());
                            extend_str(&mut m, " has origin ");
                            extend_str(&mut m, debug_str(origin.as_str()).as_str());
                            extend_str(&mut m, ", which does not match configured repo ");
                            extend_str(&mut m, debug_str(job.cfg.repo.as_str()).as_str());
                            extend_str(&mut m, "; refusing to fetch/pull (fail-closed)");
                            let mut v: Vec<NotifyEvent> = Vec::new();
                            v.push(repo_error_event(job, string_of(&m)));
                            RunStep { notify: v, action: RunAction::Finish }
                        } else {
                            st.phase = RunPhase::Fetching;
                            let mut v: Vec<String> = Vec::new();
                            push_arg(&mut v, "-C");
                            push_arg(&mut v, st.clone_dir.as_str());
                            push_arg(&mut v, "fetch");
                            RunStep { notify: Vec::new(), action: RunAction::RunGit(v) }
                        }
                    },
                }
            } else if st.phase == RunPhase::Listing {
                let out = match r {
                    Err(e) => {
                        st.phase = RunPhase::Done;
                        let mut v: Vec<NotifyEvent> = Vec::new();
                        v.push(repo_error_event(job, e));
                        return RunStep { notify: v, action: RunAction::Finish };
                    },
                    Ok(out) => out,
                };
                match parse_open_issues(out.as_str()) {
                    Err(e) => {
                        st.phase = RunPhase::Done;
                        let mut v: Vec<NotifyEvent> = Vec::new();
                        v.push(repo_error_event(job, e));
                        RunStep { notify: v, action: RunAction::Finish }
                    },
                    Ok(issues) => {
                        st.issues = issues_to_consider(issues, job.cfg.max_per_run);
                        st.next_issue = 0;
                        st.phase = RunPhase::EnsuringClaimLabel;
                        let argv = label_create_argv(
                            job.cfg.repo.as_str(),
                            IN_PROGRESS_LABEL,
                            IN_PROGRESS_LABEL_COLOR,
                            IN_PROGRESS_LABEL_DESCRIPTION,
                        );
                        RunStep { notify: Vec::new(), action: RunAction::RunGh(argv) }
                    },
                }
            } else {
                st.login = resolve_login_reply(r);
                if job.cfg.triage {
                    st.phase = RunPhase::EnsuringLabels;
                    st.next_label = 1;
                    let l = vocabulary_label(0);
                    RunStep {
                        notify: Vec::new(),
                        action: RunAction::RunGh(label_create_argv(job.cfg.repo.as_str(), l.name, l.color, l.description)),
                    }
                } else {
                    start_issues(st, job)
                }
            }
        },
        RunEvent::Ran(r) => {
            if st.phase == RunPhase::Fetching {
                match r {
                    Ok(()) => {
                        st.phase = RunPhase::Pulling;
                        let mut v: Vec<String> = Vec::new();
                        push_arg(&mut v, "-C");
                        push_arg(&mut v, st.clone_dir.as_str());
                        push_arg(&mut v, "pull");
                        push_arg(&mut v, "--ff-only");
                        RunStep { notify: Vec::new(), action: RunAction::RunGit(v) }
                    },
                    Err(_) => {
                        st.phase = RunPhase::Excluding;
                        RunStep { notify: Vec::new(), action: RunAction::EnsureExcluded(st.clone_dir.clone()) }
                    },
                }
            } else if st.phase == RunPhase::Pulling {
                st.phase = RunPhase::Excluding;
                RunStep { notify: Vec::new(), action: RunAction::EnsureExcluded(st.clone_dir.clone()) }
            } else if st.phase == RunPhase::CreatingWorkspace {
                match r {
                    Err(e) => {
                        st.phase = RunPhase::Done;
                        let mut m = chars_of("failed to create workspace ");
                        extend_str(&mut m, st.workspace.as_str());
                        extend_str(&mut m, ": ");
                        extend_str(&mut m, e.as_str());
                        let mut v: Vec<NotifyEvent> = Vec::new();
                        v.push(repo_error_event(job, string_of(&m)));
                        RunStep { notify: v, action: RunAction::Finish }
                    },
                    Ok(()) => {
                        st.phase = RunPhase::Cloning;
                        let mut v: Vec<String> = Vec::new();
                        push_arg(&mut v, "repo");
                        push_arg(&mut v, "clone");
                        push_arg(&mut v, job.cfg.repo.as_str());
                        push_arg(&mut v, st.clone_dir.as_str());
                        RunStep { notify: Vec::new(), action: RunAction::RunGh(v) }
                    },
                }
            } else if st.phase == RunPhase::Cloning {
                match r {
                    Err(e) => {
                        st.phase = RunPhase::Done;
                        let mut v: Vec<NotifyEvent> = Vec::new();
                        v.push(repo_error_event(job, e));
                        RunStep { notify: v, action: RunAction::Finish }
                    },
                    Ok(()) => {
                        st.phase = RunPhase::Excluding;
                        RunStep { notify: Vec::new(), action: RunAction::EnsureExcluded(st.clone_dir.clone()) }
                    },
                }
            } else if st.phase == RunPhase::Excluding {
                st.phase = RunPhase::Listing;
                let argv = issue_list_argv(
                    job.cfg.repo.as_str(),
                    job.cfg.max_per_run,
                    as_opt_str(&job.cfg.label),
                    as_opt_str(&job.cfg.query),
                );
                RunStep { notify: Vec::new(), action: RunAction::CaptureGh(argv) }
            } else if st.phase == RunPhase::EnsuringClaimLabel {
                st.phase = RunPhase::ResolvingLogin;
                RunStep { notify: Vec::new(), action: RunAction::CaptureGh(gh_current_login_argv()) }
            } else {
                if st.next_label < 8 {
                    let l = vocabulary_label(st.next_label);
                    st.next_label = st.next_label + 1;
                    RunStep {
                        notify: Vec::new(),
                        action: RunAction::RunGh(label_create_argv(job.cfg.repo.as_str(), l.name, l.color, l.description)),
                    }
                } else {
                    start_issues(st, job)
                }
            }
        },
        RunEvent::IssueDone(r) => {
            let issue = st.issues[st.next_issue].number;
            let notify = match r {
                Ok(()) => Vec::new(),
                Err(message) => {
                    let mut v: Vec<NotifyEvent> = Vec::new();
                    v.push(NotifyEvent::IssueDispatchFailed {
                        task: job.task_name.clone(),
                        repo: job.cfg.repo.clone(),
                        issue,
                        message,
                    });
                    v
                },
            };
            st.next_issue = st.next_issue + 1;
            if st.next_issue < st.issues.len() {
                RunStep { notify, action: RunAction::Dispatch(issue_job(st, job)) }
            } else {
                st.phase = RunPhase::Done;
                RunStep { notify, action: RunAction::Finish }
            }
        },
    }
}

/// The job of the `i`th considered issue.
pub open spec fn dispatches(job: RunJob, st: RunDispatch, act: RunAction, i: int) -> bool {
    match act {
        RunAction::Dispatch(j) => {
            &&& 0 <= i < st.issues@.len()
            &&& j.issue == st.issues@[i].number
            &&& j.label_in_progress == st.issues@[i].in_progress_label
            &&& j.task_name@ == job.task_name@
            &&& j.repo@ == job.cfg.repo@
            &&& j.workspace@ == st.workspace@
            &&& j.clone_dir@ == st.clone_dir@
            &&& j.prompt_template@ == job.prompt_template@
            &&& j.triage == job.cfg.triage
            &&& opt_owned(j.login) == opt_owned(st.login)
            &&& opt_owned(j.default_command) == opt_owned(job.default_command)
            &&& j.host@ == job.host@
        },
        _ => false,
    }
}

fn as_opt_str(o: &Option<String>) -> (r: Option<&str>)
    ensures
        opt_view(r) == opt_owned(*o),
{
    match o {
        Some(s) => Some(s.as_str()),
        None => None,
    }
}

fn clone_opt(o: &Option<String>) -> (r: Option<String>)
    ensures
        opt_owned(r) == opt_owned(*o),
{
    match o {
        Some(s) => Some(owned(s.as_str())),
        None => None,
    }
}

fn issue_job(st: &RunDispatch, job: &RunJob) -> (j: IssueJob)
    requires
        st.next_issue < st.issues@.len(),
    ensures
        dispatches(*job, *st, RunAction::Dispatch(j), st.next_issue as int),
{
    let i = st.issues[st.next_issue];
    IssueJob {
        task_name: job.task_name.clone(),
        repo: job.cfg.repo.clone(),
        workspace: st.workspace.clone(),
        prompt_template: job.prompt_template.clone(),
        triage: job.cfg.triage,
        default_command: clone_opt(&job.default_command),
        issue: i.number,
        label_in_progress: i.in_progress_label,
        clone_dir: st.clone_dir.clone(),
        login: clone_opt(&st.login),
        host: job.host.clone(),
    }
}

fn start_issues(st: &mut RunDispatch, job: &RunJob) -> (step: RunStep)
    requires
        run_state_ok(*old(st), *job),
        old(st).phase != RunPhase::Idle && old(st).phase != RunPhase::Done,
    ensures
        run_state_ok(*final(st), *job),
        step.notify@.len() == 0,
        final(st).issues == old(st).issues,
        final(st).login == old(st).login,
        final(st).workspace == old(st).workspace,
        final(st).clone_dir == old(st).clone_dir,
        final(st).next_issue == 0,
        step.action is Finish <==> final(st).phase == RunPhase::Done,
        final(st).issues@.len() > 0 ==> final(st).phase == RunPhase::Dispatching
            && dispatches(*job, *final(st), step.action, 0),
        final(st).issues@.len() == 0 ==> step.action is Finish,
{
    st.next_issue = 0;
    if st.issues.len() > 0 {
        st.phase = RunPhase::Dispatching;
        RunStep { notify: Vec::new(), action: RunAction::Dispatch(issue_job(st, job)) }
    } else {
        st.phase = RunPhase::Done;
        RunStep { notify: Vec::new(), action: RunAction::Finish }
    }
}

} // verus!
