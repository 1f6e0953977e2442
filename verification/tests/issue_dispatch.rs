use std::path::Path;

use dot_agent_deck::claim::{
    claim_comment_body, parse_claim_fields, release_comment_body, Identity, CLAIM_COMMENT_PREFIX,
    RELEASE_COMMENT_PREFIX,
};
use dot_agent_deck::issue_dispatch::{
    default_issue_dispatch_name, derive_issue_paths, dispatch_decision, gh_current_login_argv,
    isolated_clone_checkout_argv, isolated_clone_remote_branch_probe_argv, issue_branch,
    issue_comment_argv, issue_edit_add_label_argv, issue_edit_assignee_argv,
    issue_edit_remove_label_argv, issue_list_argv, issue_view_claim_state_argv,
    issue_view_comments_argv, label_create_argv, pr_list_for_issue_argv, sanitize_clone_segment,
    substitute_issue_number, type_labels, validate_gh_login, validate_issue_dispatch_config,
    worktree_remove_argv, BranchLocation, DispatchDecision, DEFAULT_ISSUE_PROMPT_TEMPLATE,
    IN_PROGRESS_LABEL,
};
use dot_agent_deck::json::{parse_claim_state, parse_current_assignees};

#[test]
fn substitute_issue_number_replaces_placeholder() {
    assert_eq!(
        substitute_issue_number("Work on issue {{issue_number}}", 42),
        "Work on issue 42"
    );
    assert_eq!(
        substitute_issue_number("#{{issue_number}} -> {{issue_number}}", 7),
        "#7 -> 7"
    );
    assert_eq!(
        substitute_issue_number(DEFAULT_ISSUE_PROMPT_TEMPLATE, 120),
        "Work on issue 120"
    );
}

#[test]
fn substitute_issue_number_leaves_placeholderless_template_unchanged() {
    assert_eq!(substitute_issue_number("/prd-full please", 9), "/prd-full please");
}

#[test]
fn default_issue_dispatch_name_is_issues_repo() {
    assert_eq!(default_issue_dispatch_name("vfarcic/dot-ai"), "Issues vfarcic/dot-ai");
}

#[test]
fn derive_issue_paths_exact_layout() {
    let paths = derive_issue_paths("/work/space", "dispatch-task", 17);
    assert_eq!(paths.clone_dir, "/work/space/dispatch-task");
    assert_eq!(paths.worktree_dir, "/work/space/dispatch-task/.worktrees/issue-17");
    assert_eq!(paths.branch, "agent/issue-17");
}

#[test]
fn derive_issue_paths_sanitizes_default_seed_name_with_slash() {
    let paths = derive_issue_paths("/work/space", "Issues vfarcic/dot-ai", 17);
    assert_eq!(paths.clone_dir, "/work/space/Issues vfarcic-dot-ai");
    assert_eq!(
        paths.worktree_dir,
        "/work/space/Issues vfarcic-dot-ai/.worktrees/issue-17"
    );
}

#[test]
fn derive_issue_paths_never_escapes_working_dir() {
    let wd = Path::new("/work/space");
    for name in [
        "/etc/passwd",
        "../../escape",
        "a/b/c",
        "Issues vfarcic/dot-ai",
        r"..\..\windows",
    ] {
        let clone_dir = derive_issue_paths("/work/space", name, 1).clone_dir;
        let clone = Path::new(&clone_dir);
        assert!(
            clone.starts_with(wd),
            "clone dir {clone:?} escaped working dir for name {name:?}"
        );
        let rel = clone.strip_prefix(wd).expect("clone dir under working dir");
        assert_eq!(
            rel.components().count(),
            1,
            "clone dir {clone:?} must be ONE segment under the working dir (name {name:?})"
        );
        assert!(
            !clone.to_string_lossy().contains(".."),
            "clone dir {clone:?} must not contain `..` (name {name:?})"
        );
    }
}

#[test]
fn sanitize_clone_segment_passthrough_and_fallback() {
    assert_eq!(sanitize_clone_segment("dispatch-task"), "dispatch-task");
    assert_eq!(sanitize_clone_segment("Issues vfarcic/dot-ai"), "Issues vfarcic-dot-ai");
    assert_eq!(sanitize_clone_segment(".."), "issues");
    assert_eq!(sanitize_clone_segment("/"), "issues");
    assert_eq!(sanitize_clone_segment(""), "issues");
    assert_eq!(sanitize_clone_segment("."), "issues");
}

#[test]
fn issue_branch_is_deterministic() {
    assert_eq!(issue_branch(1), "agent/issue-1");
    assert_eq!(issue_branch(999), "agent/issue-999");
}

#[test]
fn issue_list_argv_no_filters() {
    assert_eq!(
        issue_list_argv("vfarcic/dot-ai", 5, None, None),
        vec![
            "issue", "list", "--repo", "vfarcic/dot-ai", "--state", "open", "--json",
            "number,labels", "--limit", "5", "--",
        ]
    );
}

#[test]
fn issue_list_argv_label_only() {
    assert_eq!(
        issue_list_argv("vfarcic/dot-ai", 3, Some("agent-eligible"), None),
        vec![
            "issue", "list", "--repo", "vfarcic/dot-ai", "--state", "open", "--json",
            "number,labels", "--limit", "3", "--label", "agent-eligible", "--",
        ]
    );
}

#[test]
fn issue_list_argv_query_override() {
    assert_eq!(
        issue_list_argv("vfarcic/dot-ai", 10, None, Some("is:open sort:created-asc")),
        vec![
            "issue", "list", "--repo", "vfarcic/dot-ai", "--state", "open", "--json",
            "number,labels", "--limit", "10", "--search", "is:open sort:created-asc", "--",
        ]
    );
}

#[test]
fn issue_list_argv_label_and_query_both_present() {
    assert_eq!(
        issue_list_argv("o/r", 2, Some("bug"), Some("milestone:v1")),
        vec![
            "issue", "list", "--repo", "o/r", "--state", "open", "--json", "number,labels",
            "--limit", "2", "--label", "bug", "--search", "milestone:v1", "--",
        ]
    );
}

#[test]
fn argv_builders_carry_end_of_options_separator() {
    assert!(issue_list_argv("o/r", 1, None, None).contains(&"--".to_string()));
    assert!(pr_list_for_issue_argv("o/r", 1).contains(&"--".to_string()));
}

#[test]
fn worktree_remove_argv_carries_end_of_options_separator_before_path() {
    let clone_dir = "/repo/clone";
    let worktree_dir = "/repo/worktrees/agent-issue-7";
    let argv = worktree_remove_argv(clone_dir, worktree_dir);
    let dash_dash = argv
        .iter()
        .position(|a| a == "--")
        .expect("worktree_remove_argv must contain a `--` end-of-options separator");
    assert_eq!(
        argv.get(dash_dash + 1).map(String::as_str),
        Some(worktree_dir),
        "the `--` separator must sit IMMEDIATELY before the path argument, got {argv:?}"
    );
}

#[test]
fn isolated_clone_checkout_argv_creates_new_branch_when_absent() {
    assert_eq!(
        isolated_clone_checkout_argv("/repo/clone-my-feature", "my-feature", BranchLocation::Absent),
        vec!["-C", "/repo/clone-my-feature", "checkout", "-b", "my-feature"]
    );
}

#[test]
fn isolated_clone_checkout_argv_attaches_existing_local_branch() {
    assert_eq!(
        isolated_clone_checkout_argv("/repo/clone-my-feature", "my-feature", BranchLocation::Local),
        vec!["-C", "/repo/clone-my-feature", "checkout", "my-feature"]
    );
}

#[test]
fn isolated_clone_checkout_argv_tracks_remote_only_branch_explicitly() {
    assert_eq!(
        isolated_clone_checkout_argv(
            "/repo/clone-my-feature",
            "my-feature",
            BranchLocation::RemoteOnly
        ),
        vec![
            "-C",
            "/repo/clone-my-feature",
            "checkout",
            "-b",
            "my-feature",
            "--track",
            "origin/my-feature",
        ]
    );
}

#[test]
fn isolated_clone_remote_branch_probe_argv_probes_remote_tracking_ref() {
    assert_eq!(
        isolated_clone_remote_branch_probe_argv("/repo/clone-my-feature", "my-feature"),
        vec![
            "-C",
            "/repo/clone-my-feature",
            "rev-parse",
            "--verify",
            "--quiet",
            "refs/remotes/origin/my-feature",
        ]
    );
}

#[test]
fn pr_list_for_issue_argv_keys_on_head_branch() {
    assert_eq!(
        pr_list_for_issue_argv("vfarcic/dot-ai", 17),
        vec![
            "pr", "list", "--repo", "vfarcic/dot-ai", "--state", "open", "--head",
            "agent/issue-17", "--json", "number", "--",
        ]
    );
}

#[test]
fn validate_issue_dispatch_config_accepts_valid_slug_and_filters() {
    assert!(validate_issue_dispatch_config("vfarcic/dot-ai", 3, None, None).is_ok());
    assert!(validate_issue_dispatch_config(
        "acme/widgets.v2",
        5,
        Some("agent-eligible"),
        Some("is:open sort:created-asc")
    )
    .is_ok());
    assert!(validate_issue_dispatch_config("o/r", 1, None, None).is_ok());
}

#[test]
fn validate_issue_dispatch_config_rejects_bad_repo() {
    assert!(validate_issue_dispatch_config("not-a-slug", 3, None, None).is_err());
    assert!(validate_issue_dispatch_config("a/b/c", 3, None, None).is_err());
    assert!(validate_issue_dispatch_config("owner/", 3, None, None).is_err());
    assert!(validate_issue_dispatch_config("/name", 3, None, None).is_err());
    assert!(validate_issue_dispatch_config("ext::sh -c id", 3, None, None).is_err());
    assert!(validate_issue_dispatch_config("file:///etc", 3, None, None).is_err());
    assert!(validate_issue_dispatch_config("-x/y", 3, None, None).is_err());
}

#[test]
fn validate_issue_dispatch_config_rejects_max_per_run_below_one() {
    let err = validate_issue_dispatch_config("o/r", 0, None, None).unwrap_err();
    assert!(err.contains("max_per_run"), "error should name the offending field, got {err:?}");
    assert!(validate_issue_dispatch_config("vfarcic/dot-ai", 0, None, None).is_err());
}

#[test]
fn validate_issue_dispatch_config_rejects_empty_label_or_query() {
    let label_err = validate_issue_dispatch_config("o/r", 3, Some(""), None).unwrap_err();
    assert!(label_err.contains("label"), "error should name the label, got {label_err:?}");
    let query_err = validate_issue_dispatch_config("o/r", 3, None, Some("")).unwrap_err();
    assert!(query_err.contains("query"), "error should name the query, got {query_err:?}");
}

#[test]
fn validate_issue_dispatch_config_rejects_leading_dash_label_or_query() {
    assert!(validate_issue_dispatch_config("o/r", 3, Some("-rf"), None).is_err());
    assert!(validate_issue_dispatch_config("o/r", 3, None, Some("--owner")).is_err());
    assert!(validate_issue_dispatch_config("o/r", 3, Some("agent-eligible"), None).is_ok());
}

#[test]
fn dispatch_decision_truth_table() {
    for worktree_exists in [false, true] {
        for open_pr in [false, true] {
            for label in [false, true] {
                let expected = if worktree_exists || open_pr || label {
                    DispatchDecision::Skip
                } else {
                    DispatchDecision::Dispatch
                };
                assert_eq!(
                    dispatch_decision(worktree_exists, open_pr, label),
                    expected,
                    "dispatch_decision({worktree_exists}, {open_pr}, {label})"
                );
            }
        }
    }
}

#[test]
fn issue_edit_add_label_argv_shape() {
    assert_eq!(
        issue_edit_add_label_argv("acme/widgets", 7, IN_PROGRESS_LABEL),
        vec!["issue", "edit", "--repo", "acme/widgets", "--add-label", "in-progress", "--", "7"]
    );
}

#[test]
fn issue_edit_remove_label_argv_shape() {
    assert_eq!(
        issue_edit_remove_label_argv("acme/widgets", 7, IN_PROGRESS_LABEL),
        vec!["issue", "edit", "--repo", "acme/widgets", "--remove-label", "in-progress", "--", "7"]
    );
}

#[test]
fn issue_comment_argv_shape() {
    assert_eq!(
        issue_comment_argv("acme/widgets", 7, "Claimed by scheduled task `dispatch-task`."),
        vec![
            "issue",
            "comment",
            "--repo",
            "acme/widgets",
            "--body",
            "Claimed by scheduled task `dispatch-task`.",
            "--",
            "7",
        ]
    );
}

#[test]
fn issue_view_comments_argv_shape() {
    assert_eq!(
        issue_view_comments_argv("acme/widgets", 7),
        vec!["issue", "view", "--repo", "acme/widgets", "--json", "comments,assignees", "--", "7"]
    );
}

#[test]
fn type_labels_contains_only_chore() {
    let labels = type_labels();
    assert_eq!(labels.len(), 1);
    assert_eq!(labels[0].name, "chore");
}

#[test]
fn label_create_argv_carries_color_and_description() {
    assert_eq!(
        label_create_argv("acme/widgets", IN_PROGRESS_LABEL, "006b75", "claim marker"),
        vec![
            "label",
            "create",
            "in-progress",
            "--repo",
            "acme/widgets",
            "--color",
            "006b75",
            "--description",
            "claim marker",
            "--force",
        ]
    );
}

#[test]
fn claim_comment_body_names_task_identity() {
    let identity = Identity::issue_dispatch(
        "dispatch-task",
        7,
        "/work/dispatch-task/.worktrees/issue-7",
        "agent/issue-7",
        "host-1",
    );
    let body = claim_comment_body(&identity, "2026-08-09T00:00:00Z", None, None);
    assert!(body.starts_with(CLAIM_COMMENT_PREFIX), "got {body:?}");
    assert!(body.contains("dispatch-task"), "body must name the claiming task, got {body:?}");
    assert!(body.contains("/work/dispatch-task/.worktrees/issue-7"));
    assert!(body.contains("agent/issue-7"));
    assert!(body.contains("2026-08-09T00:00:00Z"));
    assert!(
        !body.contains("for @"),
        "no login was supplied, so the `for @<login>` clause must be omitted entirely, got {body:?}"
    );
}

#[test]
fn claim_comment_body_neutralizes_backtick_and_newline_in_task_name() {
    let identity = Identity::issue_dispatch(
        "x` cc @nobody\ninjected",
        7,
        "/work/x/.worktrees/issue-7",
        "agent/issue-7",
        "host-1",
    );
    let body = claim_comment_body(&identity, "2026-08-09T00:00:00Z", None, None);
    assert_eq!(
        body.matches('`').count(),
        6,
        "task name must not be able to introduce extra backticks, got {body:?}"
    );
    assert!(!body.contains('\n'), "task name must not be able to introduce a raw newline, got {body:?}");
    assert!(!body.contains("x`"), "the name's own backtick must not survive verbatim, got {body:?}");
}

#[test]
fn claim_comment_body_includes_login_and_takeover_clause() {
    let holder = Identity::orchestration("orch-A", "/work/wt-a", "branch-a", "host-1").to_string();
    let identity = Identity::orchestration("orch-B", "/work/wt-b", "branch-b", "host-1");
    let body = claim_comment_body(&identity, "2026-08-09T00:00:00Z", Some("bob"), Some(&holder));
    assert!(body.starts_with(CLAIM_COMMENT_PREFIX));
    assert!(body.contains(", for @bob"), "must carry the login clause, got {body:?}");
    assert!(
        body.contains(&format!("taking over from `{holder}`")),
        "must name who it was taken over from, backtick-wrapped, got {body:?}"
    );
    assert!(body.starts_with(CLAIM_COMMENT_PREFIX));
}

#[test]
fn release_comment_body_names_releaser_and_reason() {
    let identity = Identity::orchestration("orch-B", "/work/wt-b", "branch-b", "host-1");
    let body = release_comment_body(&identity, "2026-08-09T00:00:00Z", Some("bob"), None, Some("PR merged"));
    assert!(body.starts_with(RELEASE_COMMENT_PREFIX), "got {body:?}");
    assert!(body.contains(", for @bob"), "got {body:?}");
    assert!(body.contains("PR merged"), "got {body:?}");
    assert!(
        !body.contains("forcibly released"),
        "no forced_from was supplied, so the forced clause must be omitted, got {body:?}"
    );
}

#[test]
fn release_comment_body_names_who_it_was_forced_from() {
    let holder = Identity::orchestration("orch-A", "/work/wt-a", "branch-a", "host-1").to_string();
    let identity = Identity::orchestration("orch-B", "/work/wt-b", "branch-b", "host-1");
    let body = release_comment_body(&identity, "2026-08-09T00:00:00Z", None, Some(&holder), None);
    assert!(
        body.contains(&format!("forcibly released from `{holder}`")),
        "must name who it was forcibly released from, backtick-wrapped, got {body:?}"
    );
}

#[test]
fn release_comment_body_sanitizes_reason() {
    let identity = Identity::orchestration("orch-B", "/work/wt-b", "branch-b", "host-1");
    let body = release_comment_body(&identity, "2026-08-09T00:00:00Z", None, None, Some("done`\ninjected"));
    assert!(!body.contains('\n'), "got {body:?}");
    assert!(!body.contains("done`"), "got {body:?}");
}

#[test]
fn human_claim_comment_body_names_login_and_host_not_for_clause() {
    let identity = Identity::human("alice", "host-1");
    let body = claim_comment_body(&identity, "2026-08-09T00:00:00Z", Some("alice"), None);
    assert!(body.starts_with(CLAIM_COMMENT_PREFIX));
    assert!(body.starts_with("Claimed by @alice working from `host-1` at"));
    assert!(
        !body.contains(", for @"),
        "a human-form claim must not carry a redundant `for @<login>` clause, got {body:?}"
    );
}

#[test]
fn identity_renders_each_form() {
    let host = "build-host";
    assert_eq!(
        Identity::orchestration("orch-A", "/work/wt-a", "branch-a", host).to_string(),
        format!("worktree:/work/wt-a@branch-a|{host}")
    );
    assert_eq!(
        Identity::issue_dispatch("dispatch-task", 7, "/work/wt", "branch-x", host).to_string(),
        format!("worktree:/work/wt@branch-x|{host}")
    );
    assert_eq!(Identity::human("alice", "host-1").to_string(), "human:alice@host-1");
}

#[test]
fn identity_comparison_is_on_the_whole_string_not_the_name_alone() {
    let a = Identity::orchestration("same-name", "/work/wt-1", "branch-1", "host-1");
    let b = Identity::orchestration("same-name", "/work/wt-2", "branch-1", "host-1");
    assert_ne!(a, b);
    assert_ne!(a.to_string(), b.to_string());
}

#[test]
fn identity_comparison_ignores_the_decorative_label() {
    let bare = Identity::worktree("/work/wt-a", "branch-a", "host-1");
    let named = Identity::orchestration("orch-A", "/work/wt-a", "branch-a", "host-1");
    assert_eq!(bare.to_string(), named.to_string());
}

#[test]
fn validate_gh_login_accepts_and_rejects() {
    assert!(validate_gh_login("alice"));
    assert!(validate_gh_login("a"));
    assert!(validate_gh_login("alice-bob9"));
    assert!(!validate_gh_login(""));
    assert!(!validate_gh_login("-alice"));
    assert!(!validate_gh_login("alice bob"));
    assert!(!validate_gh_login("alice`"));
    assert!(!validate_gh_login("alice\nbob"));
}

#[test]
fn gh_current_login_argv_shape() {
    assert_eq!(gh_current_login_argv(), vec!["api", "user", "--jq", ".login"]);
}

#[test]
fn issue_edit_assignee_argv_shapes() {
    assert_eq!(
        issue_edit_assignee_argv("acme/widgets", 7, Some("bob"), &["alice".to_string()]),
        vec![
            "issue", "edit", "--repo", "acme/widgets", "--add-assignee", "bob",
            "--remove-assignee", "alice", "--", "7",
        ]
    );
    assert_eq!(
        issue_edit_assignee_argv("acme/widgets", 7, Some("bob"), &[]),
        vec!["issue", "edit", "--repo", "acme/widgets", "--add-assignee", "bob", "--", "7"]
    );
    assert_eq!(
        issue_edit_assignee_argv(
            "acme/widgets",
            7,
            Some("bob"),
            &["alice".to_string(), "carol".to_string()]
        ),
        vec![
            "issue", "edit", "--repo", "acme/widgets", "--add-assignee", "bob",
            "--remove-assignee", "alice", "--remove-assignee", "carol", "--", "7",
        ]
    );
}

#[test]
fn issue_view_claim_state_argv_shape() {
    assert_eq!(
        issue_view_claim_state_argv("acme/widgets", 7),
        vec![
            "issue", "view", "--repo", "acme/widgets", "--json", "labels,comments,assignees", "--",
            "7",
        ]
    );
}

#[test]
fn parse_claim_fields_extracts_worktree_identity_timestamp_login() {
    let comment = "Claimed by the orchestration `orch-A` working `/work/wt-a` on branch `branch-a` at 2026-08-09T00:00:00Z, for @alice.";
    let parsed = parse_claim_fields(comment).expect("must parse");
    assert_eq!(parsed.identity, "worktree:/work/wt-a@branch-a");
    assert_eq!(parsed.timestamp, "2026-08-09T00:00:00Z");
    assert_eq!(parsed.login.as_deref(), Some("alice"));
    assert_eq!(parsed.raw, comment);
}

#[test]
fn parse_claim_fields_extracts_human_identity_and_login() {
    let comment = "Claimed by @dave working from `host-1` at 2026-08-09T00:00:00Z.";
    let parsed = parse_claim_fields(comment).expect("must parse");
    assert_eq!(parsed.identity, "human:dave@host-1");
    assert_eq!(parsed.timestamp, "2026-08-09T00:00:00Z");
    assert_eq!(parsed.login.as_deref(), Some("dave"));
}

#[test]
fn parse_claim_fields_no_login_clause() {
    let comment = "Claimed by the orchestration working `/work/wt-bare` on branch `bare-branch` at 2026-08-09T00:00:00Z.";
    let parsed = parse_claim_fields(comment).expect("must parse");
    assert_eq!(parsed.identity, "worktree:/work/wt-bare@bare-branch");
    assert_eq!(parsed.login, None);
}

#[test]
fn parse_claim_fields_takeover_clause_does_not_break_login_parse() {
    let comment = "Claimed by the orchestration `orch-B` working `/work/wt-b` on branch `branch-b` at 2026-08-09T00:00:00Z, for @bob, taking over from `worktree:/work/wt-a@branch-a`.";
    let parsed = parse_claim_fields(comment).expect("must parse");
    assert_eq!(parsed.identity, "worktree:/work/wt-b@branch-b");
    assert_eq!(parsed.login.as_deref(), Some("bob"));
    assert_eq!(parsed.timestamp, "2026-08-09T00:00:00Z");
}

#[test]
fn parse_claim_fields_rejects_unrelated_text() {
    assert_eq!(parse_claim_fields("just a comment"), None);
}

#[test]
fn parse_claim_fields_rejects_old_format_comment() {
    let comment = "Claimed by orchestration:orch-A@host-1:a1b2c3d4 on `host-1` at 2026-08-09T00:00:00Z, for @alice.";
    assert_eq!(parse_claim_fields(comment), None);
}

#[test]
fn parse_claim_state_reads_label_and_newest_claim() {
    let json = r#"{"labels":[{"name":"in-progress"}],"comments":[
        {"body":"unrelated"},
        {"body":"Claimed by the orchestration `orch-A` working `/work/wt-a` on branch `branch-a` at 2026-08-01T00:00:00Z, for @alice."},
        {"body":"Claimed by the orchestration `orch-B` working `/work/wt-b` on branch `branch-b` at 2026-08-09T00:00:00Z, for @bob."}
    ],"assignees":[{"login":"alice"}]}"#;
    let (label_present, held, assignees) = parse_claim_state(json).unwrap();
    assert!(label_present);
    let held = held.expect("a claim comment must be found");
    assert_eq!(held.identity, "worktree:/work/wt-b@branch-b");
    assert_eq!(held.login.as_deref(), Some("bob"));
    assert_eq!(assignees, vec!["alice".to_string()]);
}

#[test]
fn parse_claim_state_no_label_no_comments() {
    let (label_present, held, assignees) = parse_claim_state(r#"{"labels":[],"comments":[]}"#).unwrap();
    assert!(!label_present);
    assert_eq!(held, None);
    assert_eq!(assignees, Vec::<String>::new());
}

#[test]
fn parse_claim_state_labelled_with_no_claim_comment() {
    let json = r#"{"labels":[{"name":"in-progress"}],"comments":[{"body":"unrelated"}]}"#;
    let (label_present, held, assignees) = parse_claim_state(json).unwrap();
    assert!(label_present);
    assert_eq!(held, None);
    assert_eq!(assignees, Vec::<String>::new());
}

#[test]
fn parse_claim_state_rejects_non_json() {
    assert!(parse_claim_state("not json").is_err());
}

#[test]
fn parse_current_assignees_reads_logins_missing_field_is_empty() {
    let json = r#"{"comments":[],"assignees":[{"login":"alice"},{"login":"bob"}]}"#;
    assert_eq!(
        parse_current_assignees(json).unwrap(),
        vec!["alice".to_string(), "bob".to_string()]
    );
    assert_eq!(parse_current_assignees(r#"{"comments":[]}"#).unwrap(), Vec::<String>::new());
}
