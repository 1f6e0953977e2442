use dot_agent_deck::claim::{
    claim_comment_body, parse_claim_fields, release_comment_body, sanitize_claimant_name, Identity,
};
use dot_agent_deck::clone_flow::{worktrees_exclude_update, CommandResult};
use dot_agent_deck::dispatch_run::{
    after_isolated_clone_cleanup, canonical_workspace, cleanup_outcome, classify_worktree_add_result,
    clone_destination_predates_attempt, common_dir_from_absolute, hostname_or_unknown, common_dir_from_relative, fnv1a64, hex16,
    is_worktree_scan_short_read, isolated_clone_error_verdict, provenance_content, provenance_file_name,
    spawn_failure_message, status_failure_message, status_timeout_message,
    worktree_attach_lock_path_from_common_dir, AddError, AddOutcome, CloneErrorVerdict, IsolatedCloneOutcome,
    ResumeRejection,
};
use dot_agent_deck::issue_dispatch::{derive_issue_paths, path_join_exec, sanitize_clone_segment};
use dot_agent_deck::mode_manager::quote_shell_arg;
use dot_agent_deck::registry::{remove_worktree_step, KeptReason, RemovalPolicy, RemoveEvent, RemoveOutcome, RemoveStep};

// --- the segment of a dispatch name -------------------------------------------

fn is_single_segment(s: &str) -> bool {
    !s.is_empty() && !s.contains('/') && !s.contains('\\') && !s.contains('\0') && !s.contains("..")
}

#[test]
fn sanitized_segment_is_always_one_safe_component() {
    for name in [
        "",
        "..",
        "...",
        ".....",
        "a/../b",
        "..\\..\\x",
        "x\0y",
        "  ./.  ",
        "Issues vfarcic/dot-ai",
        "ünïcode/名前",
        "/",
        "a..b...c",
    ] {
        let seg = sanitize_clone_segment(name);
        assert!(is_single_segment(&seg), "{name:?} gave {seg:?}");
    }
    assert_eq!(sanitize_clone_segment("a...b"), "a.b");
    assert_eq!(sanitize_clone_segment("名前/x"), "名前-x");
    assert_eq!(sanitize_clone_segment(" ./. "), "issues");
}

#[test]
fn safe_segment_is_its_own_segment() {
    for name in ["dispatch-task", "nightly_2", "a.b", "名前"] {
        assert_eq!(sanitize_clone_segment(name), name);
        assert_eq!(sanitize_clone_segment(&sanitize_clone_segment(name)), name);
    }
}

#[test]
fn derived_paths_stay_under_the_working_dir() {
    let p = derive_issue_paths("/work", "../../etc", 3);
    assert_eq!(p.clone_dir, "/work/--etc");
    assert_eq!(p.worktree_dir, "/work/--etc/.worktrees/issue-3");
    assert_eq!(p.branch, "agent/issue-3");
    assert_eq!(path_join_exec("/a/", "b"), "/a/b");
    assert_eq!(path_join_exec("/a", "/b"), "/b");
    assert_eq!(path_join_exec("", "b"), "b");
}

// --- one shell word -----------------------------------------------------------

/// A POSIX shell's reading of one word: single quotes keep everything up to
/// the next single quote, a backslash outside quotes keeps the next
/// character, an unquoted blank or operator ends the word.
fn read_shell_word(t: &str) -> Option<String> {
    let mut out = String::new();
    let mut chars = t.chars();
    let mut quoted = false;
    while let Some(c) = chars.next() {
        if quoted {
            if c == '\'' {
                quoted = false;
            } else {
                out.push(c);
            }
        } else if c == '\'' {
            quoted = true;
        } else if c == '\\' {
            out.push(chars.next()?);
        } else if " \t\n;&|<>()".contains(c) {
            return None;
        } else {
            out.push(c);
        }
    }
    if quoted {
        None
    } else {
        Some(out)
    }
}

#[test]
fn quoted_shell_arg_reads_back_as_itself() {
    for s in ["", "'", "''", "it's", "a b", "before'\n'after", "$HOME `x` \\ \"q\"", "; rm -rf / &"] {
        let q = quote_shell_arg(s);
        assert_eq!(read_shell_word(&q).as_deref(), Some(s), "quoted as {q:?}");
    }
    assert_eq!(quote_shell_arg("it's"), r"'it'\''s'");
    assert_eq!(quote_shell_arg(""), "''");
}

// --- identities and claims ----------------------------------------------------

#[test]
fn identity_label_never_compared_but_anchor_always_is() {
    let bare = Identity::worktree("/w/a", "b1", "box");
    let decorated = Identity::orchestration("orch", "/w/a", "b1", "box");
    let dispatched = Identity::issue_dispatch("task", 4, "/w/a", "b1", "box");
    assert_eq!(bare.to_string(), decorated.to_string());
    assert_eq!(bare.to_string(), dispatched.to_string());
    assert_ne!(bare.to_string(), Identity::worktree("/w/b", "b1", "box").to_string());
    assert_ne!(bare.to_string(), Identity::worktree("/w/a", "b2", "box").to_string());
    assert_ne!(bare.to_string(), Identity::worktree("/w/a", "b1", "other").to_string());
    assert_ne!(Identity::human("worktree", "x").to_string(), Identity::worktree("", "", "x").to_string());
}

#[test]
fn claim_comment_reads_back_its_identity() {
    let id = Identity::issue_dispatch("nightly", 7, "/ws/n/.worktrees/issue-7", "agent/issue-7", "box");
    let body = claim_comment_body(&id, "2026-08-09T00:00:00Z", Some("bot"), None);
    let parsed = parse_claim_fields(&body).expect("a claim");
    assert_eq!(parsed.identity, id.to_string());
    assert_eq!(parsed.timestamp, "2026-08-09T00:00:00Z");
    assert_eq!(parsed.login.as_deref(), Some("bot"));
    assert_eq!(parsed.raw, body);

    let human = Identity::human("dave", "laptop");
    let body = claim_comment_body(&human, "2026-08-09T00:00:00Z", None, Some("worktree:/x@y|z"));
    let parsed = parse_claim_fields(&body).expect("a claim");
    assert_eq!(parsed.identity, human.to_string());
    assert_eq!(parsed.login.as_deref(), Some("dave"));
}

#[test]
fn release_comment_never_reads_as_a_claim() {
    let id = Identity::worktree("/w", "b", "h");
    let body = release_comment_body(&id, "T", Some("bot"), Some("someone"), Some("done"));
    assert!(body.starts_with("Released by "));
    assert_eq!(parse_claim_fields(&body), None);
}

#[test]
fn sanitized_names_are_stable() {
    let once = sanitize_claimant_name("a`b\nc\x07d\re");
    assert_eq!(once, "ab cd e");
    assert_eq!(sanitize_claimant_name(&once), once);
}

// --- the exclude file ---------------------------------------------------------

#[test]
fn exclude_update_is_idempotent() {
    for existing in ["", "x", "x\n", ".worktrees", " .worktrees/x\n"] {
        let updated = worktrees_exclude_update(existing).expect("line missing");
        assert_eq!(worktrees_exclude_update(&updated), None, "after {existing:?}");
    }
}

// --- hashes, paths and messages -----------------------------------------------

#[test]
fn fnv1a64_and_hex_match_the_reference_values() {
    assert_eq!(fnv1a64(b""), 0xcbf29ce484222325);
    assert_eq!(fnv1a64(b"a"), 0xaf63dc4c8601ec8c);
    assert_eq!(hex16(0xaf63dc4c8601ec8c).iter().collect::<String>(), "af63dc4c8601ec8c");
    assert_eq!(hex16(0).iter().collect::<String>(), "0000000000000000");
}

#[test]
fn lock_and_provenance_names_carry_the_path_hash() {
    assert_eq!(
        worktree_attach_lock_path_from_common_dir("/r/.git", "/ws/task/.worktrees/issue-7"),
        "/r/.git/dot-agent-deck-worktree-locks/issue-7-1a7bb31258c06581.lock"
    );
    assert_eq!(provenance_file_name("/repo-clones/feature"), "feature-9ae0d2d8f435333a");
    assert!(provenance_file_name("/").starts_with("clone-"));
    assert_eq!(
        provenance_content(0xab, "feature", "/repo-clones/feature"),
        "schema=2\nroot-hash=00000000000000ab\nname=feature\npath=/repo-clones/feature\n"
    );
}

#[test]
fn command_failure_messages() {
    let args = vec!["-C".to_string(), "/r".to_string(), "status".to_string()];
    assert_eq!(
        status_failure_message("git", &args, "exit status: 128", " fatal: nope \n"),
        "`git -C /r status` failed (exit status: 128): fatal: nope"
    );
    assert_eq!(
        status_timeout_message("git", &args, "30s"),
        "`git -C /r status` timed out after 30s without exiting"
    );
    assert_eq!(spawn_failure_message("git", "No such file"), "failed to run `git`: No such file");
}

#[test]
fn common_dir_replies() {
    let ok = |out: &str| CommandResult::Exited { success: true, stdout: out.into(), stderr: String::new() };
    let bad = CommandResult::Exited { success: false, stdout: String::new(), stderr: " old git \n".into() };
    assert_eq!(common_dir_from_absolute("/c", &ok("/c/.git\n")), Some(Ok("/c/.git".to_string())));
    assert_eq!(common_dir_from_absolute("/c", &bad), None);
    assert_eq!(
        common_dir_from_absolute("/c", &ok("  ")),
        Some(Err("git rev-parse --git-common-dir in \"/c\" printed no output".to_string()))
    );
    assert_eq!(common_dir_from_relative("/c", &ok(".git\n")), Ok("/c/.git".to_string()));
    assert_eq!(
        common_dir_from_relative("/c", &bad),
        Err("git rev-parse --git-common-dir in \"/c\" failed: old git".to_string())
    );
    assert_eq!(
        common_dir_from_relative("/c", &CommandResult::SpawnFailed("gone".into())),
        Err("failed to run git rev-parse --git-common-dir in \"/c\": gone".to_string())
    );
}

#[test]
fn canonical_workspace_keeps_an_absolute_root() {
    assert_eq!(canonical_workspace("/ws/a"), Ok("/ws/a".to_string()));
    assert_eq!(canonical_workspace("/ws/./a//b"), Ok("/ws/a/b".to_string()));
    assert_eq!(
        canonical_workspace("ws"),
        Err("working_dir \"ws\" is not absolute; issue-dispatch requires an absolute workspace root".to_string())
    );
}

// --- classifying failures -----------------------------------------------------

#[test]
fn add_results_classify_against_the_directory() {
    assert_eq!(classify_worktree_add_result(false, Ok(())), Ok(AddOutcome::Created));
    assert_eq!(classify_worktree_add_result(true, Err(AddError::Failed("x".into()))), Ok(AddOutcome::AlreadyClaimed));
    assert_eq!(classify_worktree_add_result(true, Err(AddError::TimedOut("t".into()))), Ok(AddOutcome::TimedOut));
    assert_eq!(classify_worktree_add_result(false, Err(AddError::TimedOut("t".into()))), Err("t".to_string()));
    assert!(is_worktree_scan_short_read("failed to read .git/worktrees/a/commondir"));
    assert!(!is_worktree_scan_short_read("fatal: invalid reference"));
}

#[test]
fn clone_errors_classify_against_the_directory() {
    let pre = "fatal: destination path 'x' already exists and is not an empty directory.";
    assert!(clone_destination_predates_attempt(pre));
    assert_eq!(isolated_clone_error_verdict(AddError::Failed(pre.into()), true), CloneErrorVerdict::AlreadyClaimed);
    assert_eq!(
        isolated_clone_error_verdict(AddError::TimedOut(pre.into()), true),
        CloneErrorVerdict::CleanUp { timed_out: true, error: pre.into() }
    );
    assert_eq!(
        isolated_clone_error_verdict(AddError::Failed("e".into()), false),
        CloneErrorVerdict::Propagate("e".into())
    );
    assert_eq!(
        after_isolated_clone_cleanup(false, "e".into(), Some("me".into())),
        IsolatedCloneOutcome::Failed { error: "e".into(), cleaned_up_by: Some("me".into()) }
    );
    assert_eq!(cleanup_outcome(true, false, "me"), Some("me".to_string()));
    assert_eq!(cleanup_outcome(true, true, "me"), None);
    assert!(ResumeRejection::Contested.describe().contains("try again"));
}

// --- removing a worktree on last close ----------------------------------------

#[test]
fn removal_policies() {
    let wt = "/c/.worktrees/issue-1";
    assert!(matches!(
        remove_worktree_step(wt, "/c", RemovalPolicy::IsolatedClone, "tab", RemoveEvent::Start),
        RemoveStep::Finish(ref o) if *o == RemoveOutcome::Kept(KeptReason::IsolatedClone)
    ));
    match remove_worktree_step(wt, "/c", RemovalPolicy::KeepIfDirty, "tab", RemoveEvent::Start) {
        RemoveStep::ProbeDirty(a) => assert_eq!(a, ["-C", wt, "status", "--porcelain"]),
        other => panic!("expected a probe, got {other:?}"),
    }
    assert!(matches!(
        remove_worktree_step(wt, "/c", RemovalPolicy::KeepIfDirty, "tab", RemoveEvent::Probed(Ok(" M x\n".into()))),
        RemoveStep::Finish(ref o) if *o == RemoveOutcome::Kept(KeptReason::Dirty)
    ));
    assert!(matches!(
        remove_worktree_step(wt, "/c", RemovalPolicy::KeepIfDirty, "tab", RemoveEvent::Probed(Err("e".into()))),
        RemoveStep::Finish(ref o) if *o == RemoveOutcome::Kept(KeptReason::ProbeError)
    ));
    match remove_worktree_step(wt, "/c", RemovalPolicy::KeepIfDirty, "tab", RemoveEvent::Probed(Ok("\n".into()))) {
        RemoveStep::Remove(a) => assert_eq!(a, ["-C", "/c", "worktree", "remove", "--", wt]),
        other => panic!("expected a removal, got {other:?}"),
    }
    match remove_worktree_step(wt, "/c", RemovalPolicy::Force, "tab", RemoveEvent::Start) {
        RemoveStep::Remove(a) => assert_eq!(a, ["-C", "/c", "worktree", "remove", "--force", "--", wt]),
        other => panic!("expected a removal, got {other:?}"),
    }
    assert!(matches!(
        remove_worktree_step(wt, "/c", RemovalPolicy::Force, "tab", RemoveEvent::Ran(Ok(()))),
        RemoveStep::Finish(ref o) if *o == RemoveOutcome::Removed("tab".into())
    ));
    assert!(matches!(
        remove_worktree_step(wt, "/c", RemovalPolicy::Force, "tab", RemoveEvent::Ran(Err("locked".into()))),
        RemoveStep::Finish(ref o) if *o == RemoveOutcome::RemoveFailed("locked".into())
    ));
}

#[test]
fn host_name_is_trimmed_or_unknown() {
    assert_eq!(hostname_or_unknown(" box-1\n"), "box-1");
    assert_eq!(hostname_or_unknown(""), "unknown-host");
    assert_eq!(hostname_or_unknown(" \t"), "unknown-host");
}

#[test]
fn ensure_worktrees_excluded_appends_once_idempotently() {
    let after_first = worktrees_exclude_update("").expect("the line is missing");
    assert!(after_first.lines().any(|l| l.trim() == ".worktrees/"), "{after_first:?}");
    let after_second = worktrees_exclude_update(&after_first).unwrap_or(after_first.clone());
    assert_eq!(after_second.lines().filter(|l| l.trim() == ".worktrees/").count(), 1, "{after_second:?}");
}

#[test]
fn quote_shell_arg_round_trips_through_posix_shell() {
    let tricky = "spaced 'single' \"double\" $VAR `backtick` \\backslash\nnewline; & | (sub) *.rs";
    assert_eq!(read_shell_word(&quote_shell_arg(tricky)).as_deref(), Some(tricky));
}

#[test]
fn quote_shell_arg_round_trips_an_empty_string() {
    assert_eq!(read_shell_word(&quote_shell_arg("")).as_deref(), Some(""));
}

#[test]
fn quote_shell_arg_round_trips_a_lone_single_quote() {
    assert_eq!(read_shell_word(&quote_shell_arg("'")).as_deref(), Some("'"));
}

#[test]
fn quote_shell_arg_round_trips_a_quote_adjacent_to_a_real_newline() {
    let tricky = "before'\n'after";
    assert_eq!(read_shell_word(&quote_shell_arg(tricky)).as_deref(), Some(tricky));
}

#[test]
fn worktree_007_timeout_classifies_distinctly_from_already_claimed() {
    assert_eq!(classify_worktree_add_result(true, Err(AddError::TimedOut("timed out".into()))), Ok(AddOutcome::TimedOut));
    assert_eq!(
        classify_worktree_add_result(true, Err(AddError::Failed("add failed".into()))),
        Ok(AddOutcome::AlreadyClaimed)
    );
    assert_eq!(
        classify_worktree_add_result(false, Err(AddError::Failed("add failed: bad ref".into()))),
        Err("add failed: bad ref".to_string())
    );
}

/// The outcome of a failed isolated-clone call, as the provisioning
/// reports it once a partial directory of ours has been cleaned up by
/// `remover`.
fn handled(err: AddError, dir_exists: bool, remover: &str) -> Result<IsolatedCloneOutcome, String> {
    match isolated_clone_error_verdict(err, dir_exists) {
        CloneErrorVerdict::Propagate(e) => Err(e),
        CloneErrorVerdict::AlreadyClaimed => Ok(IsolatedCloneOutcome::AlreadyClaimed),
        CloneErrorVerdict::CleanUp { timed_out, error } => {
            Ok(after_isolated_clone_cleanup(timed_out, error, cleanup_outcome(true, false, remover)))
        }
    }
}

#[test]
fn handle_isolated_clone_add_error_covers_timed_out_failed_and_absent() {
    assert_eq!(
        handled(AddError::TimedOut("simulated timeout".into()), true, "tester"),
        Ok(IsolatedCloneOutcome::TimedOut { cleaned_up_by: Some("tester".into()) })
    );
    assert_eq!(
        handled(AddError::Failed("simulated: Clone succeeded, but checkout failed".into()), true, "tester"),
        Ok(IsolatedCloneOutcome::Failed {
            error: "simulated: Clone succeeded, but checkout failed".into(),
            cleaned_up_by: Some("tester".into()),
        })
    );
    assert_eq!(
        handled(AddError::Failed("genuine git failure".into()), false, "tester"),
        Err("genuine git failure".to_string())
    );
}

#[test]
fn handle_isolated_clone_add_error_never_deletes_a_preexisting_destination() {
    let e = "fatal: destination path '/ws/someone-elses-worktree' already exists and is not an empty directory.";
    assert_eq!(
        isolated_clone_error_verdict(AddError::Failed(e.into()), true),
        CloneErrorVerdict::AlreadyClaimed
    );
    assert_eq!(handled(AddError::Failed(e.into()), true, "tester"), Ok(IsolatedCloneOutcome::AlreadyClaimed));
}
