//! Pure issue-dispatch helpers: prompt templating, per-issue path and branch
//! derivation, `gh`/`git` argv construction, validation of the user-config
//! GitHub knobs, the idempotency decision, and the label vocabulary.
//!
//! Paths are modelled as POSIX path strings: `path_join` is the
//! one-component `PathBuf::push` of a Unix path.

use vstd::prelude::*;
use crate::text::{
    chars_of, debug_quoted, debug_str, decimal, decimal_string, extend_chars, extend_str,
    is_ascii_alnum, is_ascii_alnum_exec, owned, push_decimal, replace_all, replace_all_exec,
    starts_with, starts_with_exec, string_of, trim, trim_exec,
};

verus! {

broadcast use vstd::string::group_string_axioms;

// ---------------------------------------------------------------------------
// Argument vectors
// ---------------------------------------------------------------------------

/// The characters of each argument of an argument vector.
pub open spec fn argv_view(v: Seq<String>) -> Seq<Seq<char>> {
    v.map_values(|s: String| s@)
}

/// Append `s` as one more argument.
pub fn push_arg(v: &mut Vec<String>, s: &str)
    ensures
        argv_view(final(v)@) == argv_view(old(v)@).push(s@),
{
    v.push(owned(s));
    assert(argv_view(v@) =~= argv_view(old(v)@).push(s@));
}

/// Append an owned argument.
pub fn push_arg_string(v: &mut Vec<String>, s: String)
    ensures
        argv_view(final(v)@) == argv_view(old(v)@).push(s@),
{
    v.push(s);
    assert(argv_view(v@) =~= argv_view(old(v)@).push(s@));
}

// ---------------------------------------------------------------------------
// Prompt templating + default name
// ---------------------------------------------------------------------------

/// The single placeholder substituted in an issue-dispatch prompt template
/// with the issue's number.
pub const ISSUE_NUMBER_PLACEHOLDER: &'static str = "{{issue_number}}";

/// The default-seed prompt template for a newly-created issue-dispatch task.
pub const DEFAULT_ISSUE_PROMPT_TEMPLATE: &'static str = "Work on issue {{issue_number}}";

/// Every placeholder occurrence in `template` replaced by the decimal issue
/// number, leftmost first; a template without the placeholder is unchanged.
pub fn substitute_issue_number(template: &str, issue_number: u64) -> (r: String)
    ensures
        r@ == replace_all(template@, ISSUE_NUMBER_PLACEHOLDER@, decimal(issue_number as nat)),
{
    proof {
        reveal_strlit("{{issue_number}}");
    }
    let t = chars_of(template);
    let p = chars_of(ISSUE_NUMBER_PLACEHOLDER);
    let mut n: Vec<char> = Vec::new();
    push_decimal(&mut n, issue_number);
    assert(n@ =~= decimal(issue_number as nat));
    let out = replace_all_exec(&t, &p, &n);
    string_of(&out)
}

/// The default task name for an issue-dispatch task targeting `repo`:
/// `Issues <repo>`.
pub fn default_issue_dispatch_name(repo: &str) -> (r: String)
    ensures
        r@ == "Issues "@ + repo@,
{
    let mut v = chars_of("Issues ");
    extend_str(&mut v, repo);
    string_of(&v)
}

// ---------------------------------------------------------------------------
// Per-issue path & branch derivation
// ---------------------------------------------------------------------------

/// `base` with the relative-or-absolute component `seg` pushed onto it, as a
/// POSIX `PathBuf::push` does: an absolute `seg` replaces `base`; otherwise a
/// `/` separates the two unless `base` is empty or already ends in one.
pub open spec fn path_join(base: Seq<char>, seg: Seq<char>) -> Seq<char> {
    if seg.len() > 0 && seg[0] == '/' {
        seg
    } else if base.len() > 0 && base.last() != '/' {
        base + seq!['/'] + seg
    } else {
        base + seg
    }
}

/// POSIX `Path::join` of one component.
pub fn path_join_exec(base: &str, seg: &str) -> (r: String)
    ensures
        r@ == path_join(base@, seg@),
{
    let b = chars_of(base);
    let s = chars_of(seg);
    if s.len() > 0 && s[0] == '/' {
        return string_of(&s);
    }
    let mut v = b;
    if v.len() > 0 && v[v.len() - 1] != '/' {
        v.push('/');
    }
    extend_chars(&mut v, &s);
    string_of(&v)
}

/// The deterministic filesystem layout + branch for one dispatched issue.
#[derive(Debug, Clone, PartialEq, Eq)]
pub struct IssuePaths {
    /// The repo clone directory: `<working_dir>/<segment of name>`.
    pub clone_dir: String,
    /// The per-issue worktree: `<clone_dir>/.worktrees/issue-<n>`.
    pub worktree_dir: String,
    /// The per-issue branch: `agent/issue-<n>`.
    pub branch: String,
}

/// The per-issue branch name `agent/issue-<n>`.
pub open spec fn issue_branch_spec(n: nat) -> Seq<char> {
    "agent/issue-"@ + decimal(n)
}

/// The deterministic per-issue branch name: `agent/issue-<n>`.
pub fn issue_branch(issue_number: u64) -> (r: String)
    ensures
        r@ == issue_branch_spec(issue_number as nat),
{
    let mut v = chars_of("agent/issue-");
    push_decimal(&mut v, issue_number);
    string_of(&v)
}

/// `name` with `/` and `\` mapped to `-` and NUL characters dropped.
pub open spec fn collapse_separators(s: Seq<char>) -> Seq<char>
    decreases s.len(),
{
    if s.len() == 0 {
        s
    } else {
        let rest = collapse_separators(s.drop_last());
        let c = s.last();
        if c == '/' || c == '\\' {
            rest.push('-')
        } else if c == '\0' {
            rest
        } else {
            rest.push(c)
        }
    }
}

/// The name of `char::is_alphanumeric`'s result (Unicode `Alphabetic` or
/// `Numeric`).
pub uninterp spec fn unicode_alphanumeric(c: char) -> bool;

/// `char::is_alphanumeric`: Unicode `Alphabetic` or `Numeric`, which on
/// ASCII is exactly the letters and digits.
#[verifier::external_body]
pub(crate) fn char_is_alphanumeric(c: char) -> (b: bool)
    ensures
        b == unicode_alphanumeric(c),
        (c as u32) < 128 ==> (b == is_ascii_alnum(c)),
{
    c.is_alphanumeric()
}

/// Whether some character of `s` is alphanumeric.
pub open spec fn has_alphanumeric(s: Seq<char>) -> bool {
    exists|i: int| 0 <= i < s.len() && unicode_alphanumeric(#[trigger] s[i])
}

/// The separator-free, parent-reference-free segment derived from `name`.
pub open spec fn sanitize_segment_spec(name: Seq<char>) -> Seq<char> {
    let trimmed = trim(replace_all(collapse_separators(name), ".."@, ""@));
    if has_alphanumeric(trimmed) {
        trimmed
    } else {
        "issues"@
    }
}

/// Reduce `name` to a single filesystem segment: `/` and `\` collapse to `-`,
/// NUL is dropped, `..` is removed (leftmost first), whitespace is trimmed;
/// a result with no alphanumeric character falls back to `issues`.
pub fn sanitize_clone_segment(name: &str) -> (r: String)
    ensures
        r@ == sanitize_segment_spec(name@),
{
    let n = chars_of(name);
    let mut collapsed: Vec<char> = Vec::new();
    let mut i: usize = 0;
    while i < n.len()
        invariant
            i <= n.len(),
            collapsed@ == collapse_separators(n@.take(i as int)),
        decreases n.len() - i,
    {
        let c = n[i];
        assert(n@.take(i + 1).drop_last() =~= n@.take(i as int));
        if c == '/' || c == '\\' {
            collapsed.push('-');
        } else if c != '\0' {
            collapsed.push(c);
        }
        i = i + 1;
    }
    assert(n@.take(n.len() as int) =~= n@);
    proof {
        reveal_strlit("..");
        reveal_strlit("");
    }
    let dots = chars_of("..");
    let empty: Vec<char> = Vec::new();
    assert(empty@ =~= ""@);
    let removed = replace_all_exec(&collapsed, &dots, &empty);
    let trimmed = trim_exec(&removed);
    let mut j: usize = 0;
    while j < trimmed.len()
        invariant
            j <= trimmed.len(),
            trimmed@ == trim(replace_all(collapse_separators(name@), ".."@, ""@)),
            forall|k: int| 0 <= k < j ==> !unicode_alphanumeric(#[trigger] trimmed@[k]),
        decreases trimmed.len() - j,
    {
        if char_is_alphanumeric(trimmed[j]) {
            assert(has_alphanumeric(trimmed@)) by {
                assert(unicode_alphanumeric(trimmed@[j as int]));
            }
            return string_of(&trimmed);
        }
        j = j + 1;
    }
    owned("issues")
}

/// The derived clone dir, worktree dir and branch for one issue.
pub open spec fn issue_paths_spec(working_dir: Seq<char>, name: Seq<char>, n: nat) -> (
    Seq<char>,
    Seq<char>,
    Seq<char>,
) {
    let clone_dir = path_join(working_dir, sanitize_segment_spec(name));
    (
        clone_dir,
        path_join(path_join(clone_dir, ".worktrees"@), "issue-"@ + decimal(n)),
        issue_branch_spec(n),
    )
}

/// Derive the clone dir (`<working_dir>/<sanitized name>`), the per-issue
/// worktree dir (`<clone_dir>/.worktrees/issue-<n>`) and branch.
pub fn derive_issue_paths(working_dir: &str, name: &str, issue_number: u64) -> (r: IssuePaths)
    ensures
        (r.clone_dir@, r.worktree_dir@, r.branch@) == issue_paths_spec(
            working_dir@,
            name@,
            issue_number as nat,
        ),
{
    let segment = sanitize_clone_segment(name);
    let clone_dir = path_join_exec(working_dir, segment.as_str());
    let worktrees = path_join_exec(clone_dir.as_str(), ".worktrees");
    let mut leaf = chars_of("issue-");
    push_decimal(&mut leaf, issue_number);
    let leaf = string_of(&leaf);
    let worktree_dir = path_join_exec(worktrees.as_str(), leaf.as_str());
    IssuePaths { clone_dir, worktree_dir, branch: issue_branch(issue_number) }
}

// ---------------------------------------------------------------------------
// `gh` argv construction
// ---------------------------------------------------------------------------

/// The `gh issue list` argv (arguments after `gh`).
pub open spec fn issue_list_argv_spec(
    repo: Seq<char>,
    max_per_run: nat,
    label: Option<Seq<char>>,
    query: Option<Seq<char>>,
) -> Seq<Seq<char>> {
    seq![
        "issue"@,
        "list"@,
        "--repo"@,
        repo,
        "--state"@,
        "open"@,
        "--json"@,
        "number,labels"@,
        "--limit"@,
        decimal(max_per_run),
    ] + match label {
        Some(l) => seq!["--label"@, l],
        None => Seq::empty(),
    } + match query {
        Some(q) => seq!["--search"@, q],
        None => Seq::empty(),
    } + seq!["--"@]
}

/// The view of an optional string slice.
pub open spec fn opt_view(o: Option<&str>) -> Option<Seq<char>> {
    match o {
        Some(s) => Some(s@),
        None => None,
    }
}

/// Build the `gh issue list` argv: open issues as JSON carrying `number` and
/// `labels`, capped at `max_per_run`, with `--label`/`--search` filters when
/// set, terminated by the `--` end-of-options marker.
pub fn issue_list_argv(repo: &str, max_per_run: usize, label: Option<&str>, query: Option<&str>) -> (r:
    Vec<String>)
    ensures
        argv_view(r@) == issue_list_argv_spec(repo@, max_per_run as nat, opt_view(label), opt_view(query)),
{
    let mut argv: Vec<String> = Vec::new();
    push_arg(&mut argv, "issue");
    push_arg(&mut argv, "list");
    push_arg(&mut argv, "--repo");
    push_arg(&mut argv, repo);
    push_arg(&mut argv, "--state");
    push_arg(&mut argv, "open");
    push_arg(&mut argv, "--json");
    push_arg(&mut argv, "number,labels");
    push_arg(&mut argv, "--limit");
    push_arg_string(&mut argv, decimal_string(max_per_run as u64));
    let ghost base = argv_view(argv@);
    if let Some(l) = label {
        push_arg(&mut argv, "--label");
        push_arg(&mut argv, l);
    }
    let ghost with_label = argv_view(argv@);
    if let Some(q) = query {
        push_arg(&mut argv, "--search");
        push_arg(&mut argv, q);
    }
    let ghost with_query = argv_view(argv@);
    push_arg(&mut argv, "--");
    proof {
        let lab = match opt_view(label) {
            Some(l) => seq!["--label"@, l],
            None => Seq::<Seq<char>>::empty(),
        };
        let qry = match opt_view(query) {
            Some(q) => seq!["--search"@, q],
            None => Seq::<Seq<char>>::empty(),
        };
        assert(with_label =~= base + lab);
        assert(with_query =~= base + lab + qry);
        assert(argv_view(argv@) =~= issue_list_argv_spec(
            repo@,
            max_per_run as nat,
            opt_view(label),
            opt_view(query),
        ));
    }
    argv
}

/// Build the `gh pr list` argv for the secondary idempotency check: open PRs
/// whose head branch is `agent/issue-<n>`.
pub fn pr_list_for_issue_argv(repo: &str, issue_number: u64) -> (r: Vec<String>)
    ensures
        argv_view(r@) == seq![
            "pr"@,
            "list"@,
            "--repo"@,
            repo@,
            "--state"@,
            "open"@,
            "--head"@,
            issue_branch_spec(issue_number as nat),
            "--json"@,
            "number"@,
            "--"@,
        ],
{
    let mut argv: Vec<String> = Vec::new();
    push_arg(&mut argv, "pr");
    push_arg(&mut argv, "list");
    push_arg(&mut argv, "--repo");
    push_arg(&mut argv, repo);
    push_arg(&mut argv, "--state");
    push_arg(&mut argv, "open");
    push_arg(&mut argv, "--head");
    push_arg_string(&mut argv, issue_branch(issue_number));
    push_arg(&mut argv, "--json");
    push_arg(&mut argv, "number");
    push_arg(&mut argv, "--");
    assert(argv_view(argv@) =~= seq![
        "pr"@,
        "list"@,
        "--repo"@,
        repo@,
        "--state"@,
        "open"@,
        "--head"@,
        issue_branch_spec(issue_number as nat),
        "--json"@,
        "number"@,
        "--"@,
    ]);
    argv
}

/// Argv for `git -C <clone_dir> rev-parse --verify --quiet refs/heads/<branch>`.
pub fn worktree_branch_probe_argv(clone_dir: &str, branch: &str) -> (r: Vec<String>)
    ensures
        argv_view(r@) == seq![
            "-C"@,
            clone_dir@,
            "rev-parse"@,
            "--verify"@,
            "--quiet"@,
            "refs/heads/"@ + branch@,
        ],
{
    let mut argv: Vec<String> = Vec::new();
    push_arg(&mut argv, "-C");
    push_arg(&mut argv, clone_dir);
    push_arg(&mut argv, "rev-parse");
    push_arg(&mut argv, "--verify");
    push_arg(&mut argv, "--quiet");
    let mut r = chars_of("refs/heads/");
    extend_str(&mut r, branch);
    push_arg_string(&mut argv, string_of(&r));
    assert(argv_view(argv@) =~= seq![
        "-C"@,
        clone_dir@,
        "rev-parse"@,
        "--verify"@,
        "--quiet"@,
        "refs/heads/"@ + branch@,
    ]);
    argv
}

/// Argv for `git -C <clone_dir> rev-parse --verify --quiet
/// refs/remotes/origin/<branch>`.
pub fn isolated_clone_remote_branch_probe_argv(clone_dir: &str, branch: &str) -> (r: Vec<String>)
    ensures
        argv_view(r@) == seq![
            "-C"@,
            clone_dir@,
            "rev-parse"@,
            "--verify"@,
            "--quiet"@,
            "refs/remotes/origin/"@ + branch@,
        ],
{
    let mut argv: Vec<String> = Vec::new();
    push_arg(&mut argv, "-C");
    push_arg(&mut argv, clone_dir);
    push_arg(&mut argv, "rev-parse");
    push_arg(&mut argv, "--verify");
    push_arg(&mut argv, "--quiet");
    let mut r = chars_of("refs/remotes/origin/");
    extend_str(&mut r, branch);
    push_arg_string(&mut argv, string_of(&r));
    assert(argv_view(argv@) =~= seq![
        "-C"@,
        clone_dir@,
        "rev-parse"@,
        "--verify"@,
        "--quiet"@,
        "refs/remotes/origin/"@ + branch@,
    ]);
    argv
}

/// Argv for `git worktree add`: attaches `branch` when it exists, otherwise
/// creates it with `-b`.
pub fn worktree_add_argv(clone_dir: &str, worktree_dir: &str, branch: &str, branch_exists: bool) -> (r:
    Vec<String>)
    ensures
        argv_view(r@) == seq!["-C"@, clone_dir@, "worktree"@, "add"@, worktree_dir@] + (if branch_exists {
            seq![branch@]
        } else {
            seq!["-b"@, branch@]
        }),
{
    let mut argv: Vec<String> = Vec::new();
    push_arg(&mut argv, "-C");
    push_arg(&mut argv, clone_dir);
    push_arg(&mut argv, "worktree");
    push_arg(&mut argv, "add");
    push_arg(&mut argv, worktree_dir);
    if !branch_exists {
        push_arg(&mut argv, "-b");
    }
    push_arg(&mut argv, branch);
    assert(argv_view(argv@) =~= seq!["-C"@, clone_dir@, "worktree"@, "add"@, worktree_dir@] + (
    if branch_exists {
        seq![branch@]
    } else {
        seq!["-b"@, branch@]
    }));
    argv
}

/// Argv for `git worktree remove --force -- <worktree_dir>`.
pub fn worktree_remove_argv(clone_dir: &str, worktree_dir: &str) -> (r: Vec<String>)
    ensures
        argv_view(r@) == seq![
            "-C"@,
            clone_dir@,
            "worktree"@,
            "remove"@,
            "--force"@,
            "--"@,
            worktree_dir@,
        ],
{
    let mut argv: Vec<String> = Vec::new();
    push_arg(&mut argv, "-C");
    push_arg(&mut argv, clone_dir);
    push_arg(&mut argv, "worktree");
    push_arg(&mut argv, "remove");
    push_arg(&mut argv, "--force");
    push_arg(&mut argv, "--");
    push_arg(&mut argv, worktree_dir);
    assert(argv_view(argv@) =~= seq![
        "-C"@,
        clone_dir@,
        "worktree"@,
        "remove"@,
        "--force"@,
        "--"@,
        worktree_dir@,
    ]);
    argv
}

/// Where the two-probe branch check found `branch` in a freshly cloned
/// isolated working tree.
#[derive(Debug, Clone, Copy, PartialEq, Eq)]
pub enum BranchLocation {
    /// Absent from the clone entirely — create it fresh with `-b`.
    Absent,
    /// Already a local branch (`refs/heads/<branch>`) — attach with a plain
    /// `git checkout <branch>`.
    Local,
    /// Exists only as a remote-tracking ref — use the explicit
    /// `-b <branch> --track origin/<branch>` form.
    RemoteOnly,
}

/// The branch-dependent tail of the isolated-clone checkout argv.
pub open spec fn checkout_tail(branch: Seq<char>, location: BranchLocation) -> Seq<Seq<char>> {
    match location {
        BranchLocation::Local => seq![branch],
        BranchLocation::RemoteOnly => seq!["-b"@, branch, "--track"@, "origin/"@ + branch],
        BranchLocation::Absent => seq!["-b"@, branch],
    }
}

/// Argv for `git checkout` inside a freshly cloned isolated working tree.
pub fn isolated_clone_checkout_argv(clone_dir: &str, branch: &str, location: BranchLocation) -> (r:
    Vec<String>)
    ensures
        argv_view(r@) == seq!["-C"@, clone_dir@, "checkout"@] + checkout_tail(branch@, location),
{
    let mut argv: Vec<String> = Vec::new();
    push_arg(&mut argv, "-C");
    push_arg(&mut argv, clone_dir);
    push_arg(&mut argv, "checkout");
    match location {
        BranchLocation::Local => {
            push_arg(&mut argv, branch);
        },
        BranchLocation::RemoteOnly => {
            push_arg(&mut argv, "-b");
            push_arg(&mut argv, branch);
            push_arg(&mut argv, "--track");
            let mut o = chars_of("origin/");
            extend_str(&mut o, branch);
            push_arg_string(&mut argv, string_of(&o));
        },
        BranchLocation::Absent => {
            push_arg(&mut argv, "-b");
            push_arg(&mut argv, branch);
        },
    }
    assert(argv_view(argv@) =~= seq!["-C"@, clone_dir@, "checkout"@] + checkout_tail(
        branch@,
        location,
    ));
    argv
}

// ---------------------------------------------------------------------------
// Validation of the user-config GitHub knobs
// ---------------------------------------------------------------------------

/// A character allowed in either segment of an `owner/name` slug.
pub open spec fn is_repo_char(c: char) -> bool {
    is_ascii_alnum(c) || c == '.' || c == '_' || c == '-'
}

/// `repo` matches `^[A-Za-z0-9._-]+/[A-Za-z0-9._-]+$`: exactly one `/`, with
/// a non-empty run of allowed characters on each side.
pub open spec fn is_owner_name_spec(repo: Seq<char>) -> bool {
    exists|i: int|
        0 < i < repo.len() - 1 && repo[i] == '/' && forall|j: int|
            0 <= j < repo.len() && j != i ==> is_repo_char(#[trigger] repo[j])
}

fn is_repo_char_exec(c: char) -> (b: bool)
    ensures
        b == is_repo_char(c),
{
    is_ascii_alnum_exec(c) || c == '.' || c == '_' || c == '-'
}

/// Whether `repo` is an `owner/name` slug.
fn is_owner_name(repo: &str) -> (b: bool)
    ensures
        b == is_owner_name_spec(repo@),
{
    let s = chars_of(repo);
    let mut slash: Option<usize> = None;
    let mut i: usize = 0;
    while i < s.len()
        invariant
            i <= s.len(),
            s@ == repo@,
            match slash {
                Some(k) => k < i && s@[k as int] == '/' && forall|j: int|
                    0 <= j < i && j != k ==> is_repo_char(#[trigger] s@[j]),
                None => forall|j: int| 0 <= j < i ==> is_repo_char(#[trigger] s@[j]),
            },
        decreases s.len() - i,
    {
        let c = s[i];
        if c == '/' {
            if slash.is_some() {
                proof {
                    let k = slash->0;
                    assert forall|m: int|
                        0 < m < s@.len() - 1 && s@[m] == '/' implies !(forall|j: int|
                        0 <= j < s@.len() && j != m ==> is_repo_char(#[trigger] s@[j])) by {
                        if m == k {
                            assert(!is_repo_char(s@[i as int]));
                        } else {
                            assert(!is_repo_char(s@[k as int]));
                        }
                    }
                }
                return false;
            }
            slash = Some(i);
        } else if !is_repo_char_exec(c) {
            proof {
                assert forall|m: int|
                    0 < m < s@.len() - 1 && s@[m] == '/' implies !(forall|j: int|
                    0 <= j < s@.len() && j != m ==> is_repo_char(#[trigger] s@[j])) by {
                    assert(i != m);
                }
            }
            return false;
        }
        i = i + 1;
    }
    match slash {
        Some(k) => {
            let ok = 0 < k && k + 1 < s.len();
            proof {
                if !ok {
                    assert forall|m: int|
                        0 < m < s@.len() - 1 && s@[m] == '/' implies !(forall|j: int|
                        0 <= j < s@.len() && j != m ==> is_repo_char(#[trigger] s@[j])) by {
                        assert(m != k);
                        assert(!is_repo_char(s@[k as int]));
                    }
                }
            }
            ok
        },
        None => {
            proof {
                assert forall|m: int|
                    0 < m < s@.len() - 1 && s@[m] == '/' implies !(forall|j: int|
                    0 <= j < s@.len() && j != m ==> is_repo_char(#[trigger] s@[j])) by {
                    assert(!is_repo_char(s@[m]));
                }
            }
            false
        },
    }
}

/// The message refusing a malformed `repo`.
pub open spec fn bad_repo_message(repo: Seq<char>) -> Seq<char> {
    "issue_dispatch repo "@ + debug_quoted(repo)
        + " must be a GitHub `owner/name` slug (letters, digits, '.', '_', '-' in each segment; no leading '-')"@
}

/// The message refusing a `max_per_run` below one.
pub open spec fn bad_cap_message(max_per_run: nat) -> Seq<char> {
    "issue_dispatch max_per_run must be at least 1 (a cap of "@ + decimal(max_per_run)
        + " makes `gh issue list --limit 0` dispatch nothing every fire)"@
}

/// The message refusing an empty or flag-shaped filter named `knob`.
pub open spec fn bad_filter_message(knob: Seq<char>, value: Seq<char>) -> Seq<char> {
    if value.len() == 0 {
        "issue_dispatch "@ + knob + " must not be empty"@
    } else {
        "issue_dispatch "@ + knob + " "@ + debug_quoted(value)
            + " must not start with '-' (it would be parsed as a `gh` flag)"@
    }
}

/// A filter value `gh` must never see: empty, or starting with `-`.
pub open spec fn bad_filter(value: Seq<char>) -> bool {
    value.len() == 0 || value[0] == '-'
}

/// The first problem with an issue-dispatch configuration, if any, checked
/// in the order repo, cap, label, query.
pub open spec fn config_error(
    repo: Seq<char>,
    max_per_run: nat,
    label: Option<Seq<char>>,
    query: Option<Seq<char>>,
) -> Option<Seq<char>> {
    if starts_with(repo, "-"@) || !is_owner_name_spec(repo) {
        Some(bad_repo_message(repo))
    } else if max_per_run < 1 {
        Some(bad_cap_message(max_per_run))
    } else if label is Some && bad_filter(label->0) {
        Some(bad_filter_message("label"@, label->0))
    } else if query is Some && bad_filter(query->0) {
        Some(bad_filter_message("query"@, query->0))
    } else {
        None
    }
}

fn filter_error(knob: &str, value: &str) -> (r: Option<String>)
    ensures
        match r {
            Some(e) => bad_filter(value@) && e@ == bad_filter_message(knob@, value@),
            None => !bad_filter(value@),
        },
{
    let v = chars_of(value);
    if v.len() == 0 {
        let mut m = chars_of("issue_dispatch ");
        extend_str(&mut m, knob);
        extend_str(&mut m, " must not be empty");
        return Some(string_of(&m));
    }
    if v[0] == '-' {
        let mut m = chars_of("issue_dispatch ");
        extend_str(&mut m, knob);
        extend_str(&mut m, " ");
        let d = debug_str(value);
        extend_str(&mut m, d.as_str());
        extend_str(&mut m, " must not start with '-' (it would be parsed as a `gh` flag)");
        return Some(string_of(&m));
    }
    None
}

/// Validate the GitHub-specific knobs of an `issue_dispatch` task before they
/// reach `gh`/`git`: `repo` must be an `owner/name` slug not starting with
/// `-`, `max_per_run` at least 1, and `label`/`query`, when set, non-empty
/// and not starting with `-`. The error names the first violated rule.
pub fn validate_issue_dispatch_config(
    repo: &str,
    max_per_run: usize,
    label: Option<&str>,
    query: Option<&str>,
) -> (r: Result<(), String>)
    ensures
        match r {
            Ok(()) => config_error(repo@, max_per_run as nat, opt_view(label), opt_view(query)) is None,
            Err(e) => config_error(repo@, max_per_run as nat, opt_view(label), opt_view(query))
                == Some(e@),
        },
{
    let rs = chars_of(repo);
    let dash = chars_of("-");
    if starts_with_exec(&rs, &dash) || !is_owner_name(repo) {
        let mut m = chars_of("issue_dispatch repo ");
        let d = debug_str(repo);
        extend_str(&mut m, d.as_str());
        extend_str(
            &mut m,
            " must be a GitHub `owner/name` slug (letters, digits, '.', '_', '-' in each segment; no leading '-')",
        );
        return Err(string_of(&m));
    }
    if max_per_run < 1 {
        let mut m = chars_of("issue_dispatch max_per_run must be at least 1 (a cap of ");
        push_decimal(&mut m, max_per_run as u64);
        extend_str(&mut m, " makes `gh issue list --limit 0` dispatch nothing every fire)");
        return Err(string_of(&m));
    }
    if let Some(l) = label {
        if let Some(e) = filter_error("label", l) {
            return Err(e);
        }
    }
    if let Some(q) = query {
        if let Some(e) = filter_error("query", q) {
            return Err(e);
        }
    }
    Ok(())
}

// ---------------------------------------------------------------------------
// Idempotency decision
// ---------------------------------------------------------------------------

/// Whether a candidate issue should be dispatched or skipped.
#[derive(Debug, Clone, Copy, PartialEq, Eq)]
pub enum DispatchDecision {
    /// Provision the worktree and spawn an agent for this issue.
    Dispatch,
    /// Skip — the issue is already claimed.
    Skip,
}

/// Skip when any of the three idempotency signals is set (per-issue worktree
/// exists, an open PR's head is `agent/issue-<n>`, the `in-progress` label is
/// present); dispatch only when all three are clear.
pub fn dispatch_decision(
    worktree_exists: bool,
    open_pr_with_matching_head: bool,
    label_in_progress: bool,
) -> (d: DispatchDecision)
    ensures
        (d == DispatchDecision::Skip) == (worktree_exists || open_pr_with_matching_head
            || label_in_progress),
{
    if worktree_exists || open_pr_with_matching_head || label_in_progress {
        DispatchDecision::Skip
    } else {
        DispatchDecision::Dispatch
    }
}

// ---------------------------------------------------------------------------
// Claim label / comment / assignee argv
// ---------------------------------------------------------------------------

/// The claim label written on a successful dispatch and read back as the
/// third idempotency signal.
pub const IN_PROGRESS_LABEL: &'static str = "in-progress";

/// [`IN_PROGRESS_LABEL`]'s colour.
pub const IN_PROGRESS_LABEL_COLOR: &'static str = "006b75";

/// [`IN_PROGRESS_LABEL`]'s description.
pub const IN_PROGRESS_LABEL_DESCRIPTION: &'static str =
    "Claimed by an issue-dispatch task; do not dispatch again until this label is removed.";

/// `gh issue <verb> --repo <repo> <flag> <value> -- <issue>`, the shape of
/// every single-issue edit/comment/view argv.
pub open spec fn issue_argv_spec(
    verb: Seq<char>,
    repo: Seq<char>,
    flag: Seq<char>,
    value: Seq<char>,
    issue: nat,
) -> Seq<Seq<char>> {
    seq!["issue"@, verb, "--repo"@, repo, flag, value, "--"@, decimal(issue)]
}

fn issue_argv(verb: &str, repo: &str, flag: &str, value: &str, issue: u64) -> (r: Vec<String>)
    ensures
        argv_view(r@) == issue_argv_spec(verb@, repo@, flag@, value@, issue as nat),
{
    let mut argv: Vec<String> = Vec::new();
    push_arg(&mut argv, "issue");
    push_arg(&mut argv, verb);
    push_arg(&mut argv, "--repo");
    push_arg(&mut argv, repo);
    push_arg(&mut argv, flag);
    push_arg(&mut argv, value);
    push_arg(&mut argv, "--");
    push_arg_string(&mut argv, decimal_string(issue));
    assert(argv_view(argv@) =~= issue_argv_spec(verb@, repo@, flag@, value@, issue as nat));
    argv
}

/// `gh issue edit --repo <repo> --add-label <label> -- <issue>`.
pub fn issue_edit_add_label_argv(repo: &str, issue: u64, label: &str) -> (r: Vec<String>)
    ensures
        argv_view(r@) == issue_argv_spec("edit"@, repo@, "--add-label"@, label@, issue as nat),
{
    issue_argv("edit", repo, "--add-label", label, issue)
}

/// `gh issue edit --repo <repo> --remove-label <label> -- <issue>`.
pub fn issue_edit_remove_label_argv(repo: &str, issue: u64, label: &str) -> (r: Vec<String>)
    ensures
        argv_view(r@) == issue_argv_spec("edit"@, repo@, "--remove-label"@, label@, issue as nat),
{
    issue_argv("edit", repo, "--remove-label", label, issue)
}

/// `gh issue comment --repo <repo> --body <body> -- <issue>`.
pub fn issue_comment_argv(repo: &str, issue: u64, body: &str) -> (r: Vec<String>)
    ensures
        argv_view(r@) == issue_argv_spec("comment"@, repo@, "--body"@, body@, issue as nat),
{
    issue_argv("comment", repo, "--body", body, issue)
}

/// `gh issue view --repo <repo> --json comments,assignees -- <issue>`.
pub fn issue_view_comments_argv(repo: &str, issue: u64) -> (r: Vec<String>)
    ensures
        argv_view(r@) == issue_argv_spec("view"@, repo@, "--json"@, "comments,assignees"@, issue as nat),
{
    issue_argv("view", repo, "--json", "comments,assignees", issue)
}

/// `gh issue view --repo <repo> --json labels,comments,assignees -- <issue>`.
pub fn issue_view_claim_state_argv(repo: &str, issue: u64) -> (r: Vec<String>)
    ensures
        argv_view(r@) == issue_argv_spec(
            "view"@,
            repo@,
            "--json"@,
            "labels,comments,assignees"@,
            issue as nat,
        ),
{
    issue_argv("view", repo, "--json", "labels,comments,assignees", issue)
}

/// `gh api user --jq .login`: resolves the currently-authenticated login.
pub fn gh_current_login_argv() -> (r: Vec<String>)
    ensures
        argv_view(r@) == seq!["api"@, "user"@, "--jq"@, ".login"@],
{
    let mut argv: Vec<String> = Vec::new();
    push_arg(&mut argv, "api");
    push_arg(&mut argv, "user");
    push_arg(&mut argv, "--jq");
    push_arg(&mut argv, ".login");
    assert(argv_view(argv@) =~= seq!["api"@, "user"@, "--jq"@, ".login"@]);
    argv
}

/// One `--remove-assignee <login>` pair per entry of `remove`.
pub open spec fn remove_assignee_flags(remove: Seq<Seq<char>>) -> Seq<Seq<char>>
    decreases remove.len(),
{
    if remove.len() == 0 {
        Seq::empty()
    } else {
        remove_assignee_flags(remove.drop_last()) + seq!["--remove-assignee"@, remove.last()]
    }
}

/// The replace-to-one assignee argv.
pub open spec fn assignee_argv_spec(
    repo: Seq<char>,
    issue: nat,
    add: Option<Seq<char>>,
    remove: Seq<Seq<char>>,
) -> Seq<Seq<char>> {
    seq!["issue"@, "edit"@, "--repo"@, repo] + match add {
        Some(a) => seq!["--add-assignee"@, a],
        None => Seq::empty(),
    } + remove_assignee_flags(remove) + seq!["--"@, decimal(issue)]
}

/// Build the `gh issue edit --add-assignee/--remove-assignee` argv: `add` is
/// the new assignee, one `--remove-assignee` per displaced login.
pub fn issue_edit_assignee_argv(repo: &str, issue: u64, add: Option<&str>, remove: &[String]) -> (r:
    Vec<String>)
    ensures
        argv_view(r@) == assignee_argv_spec(repo@, issue as nat, opt_view(add), argv_view(remove@)),
{
    let mut argv: Vec<String> = Vec::new();
    push_arg(&mut argv, "issue");
    push_arg(&mut argv, "edit");
    push_arg(&mut argv, "--repo");
    push_arg(&mut argv, repo);
    if let Some(a) = add {
        push_arg(&mut argv, "--add-assignee");
        push_arg(&mut argv, a);
    }
    let ghost head = argv_view(argv@);
    let mut i: usize = 0;
    while i < remove.len()
        invariant
            i <= remove.len(),
            argv_view(argv@) == head + remove_assignee_flags(argv_view(remove@).take(i as int)),
        decreases remove.len() - i,
    {
        push_arg(&mut argv, "--remove-assignee");
        push_arg(&mut argv, remove[i].as_str());
        proof {
            let t = argv_view(remove@).take(i + 1);
            assert(t.drop_last() =~= argv_view(remove@).take(i as int));
            assert(argv_view(argv@) =~= head + remove_assignee_flags(t));
        }
        i = i + 1;
    }
    let ghost tail_start = argv_view(argv@);
    push_arg(&mut argv, "--");
    push_arg_string(&mut argv, decimal_string(issue));
    proof {
        assert(argv_view(remove@).take(remove@.len() as int) =~= argv_view(remove@));
        let a = match opt_view(add) {
            Some(a) => seq!["--add-assignee"@, a],
            None => Seq::<Seq<char>>::empty(),
        };
        assert(head =~= seq!["issue"@, "edit"@, "--repo"@, repo@] + a);
        assert(argv_view(argv@) =~= assignee_argv_spec(
            repo@,
            issue as nat,
            opt_view(add),
            argv_view(remove@),
        ));
    }
    argv
}

// ---------------------------------------------------------------------------
// Label vocabulary + triage instruction
// ---------------------------------------------------------------------------

/// A label's canonical shape: name, colour (hex digits, no `#`), description.
#[derive(Debug, Clone, Copy, PartialEq, Eq)]
pub struct LabelSpec {
    pub name: &'static str,
    pub color: &'static str,
    pub description: &'static str,
}

/// The triage label vocabulary, as data.
pub open spec fn triage_label_list() -> Seq<LabelSpec> {
    seq![
        LabelSpec { name: "priority-high", color: "b60205", description: "High priority — address soon." },
        LabelSpec { name: "priority-medium", color: "fbca04", description: "Medium priority." },
        LabelSpec { name: "priority-low", color: "0e8a16", description: "Low priority — can wait." },
        LabelSpec { name: "size-high", color: "0052cc", description: "Large amount of work." },
        LabelSpec { name: "size-medium", color: "1d76db", description: "Moderate amount of work." },
        LabelSpec { name: "size-low", color: "c5def5", description: "Small amount of work." },
        LabelSpec { name: "needs-triage", color: "d4c5f9", description: "Priority not yet determined." },
    ]
}

/// The triage label vocabulary: three priorities, three sizes and
/// `needs-triage`, each with a fixed colour and description.
pub fn triage_labels() -> (r: [LabelSpec; 7])
    ensures
        r@ == triage_label_list(),
{
    let r = [
        LabelSpec { name: "priority-high", color: "b60205", description: "High priority — address soon." },
        LabelSpec { name: "priority-medium", color: "fbca04", description: "Medium priority." },
        LabelSpec { name: "priority-low", color: "0e8a16", description: "Low priority — can wait." },
        LabelSpec { name: "size-high", color: "0052cc", description: "Large amount of work." },
        LabelSpec { name: "size-medium", color: "1d76db", description: "Moderate amount of work." },
        LabelSpec { name: "size-low", color: "c5def5", description: "Small amount of work." },
        LabelSpec { name: "needs-triage", color: "d4c5f9", description: "Priority not yet determined." },
    ];
    assert(r@ =~= triage_label_list());
    r
}

/// The work-type vocabulary's GitHub-label surface: `chore` only (the other
/// work types already exist on GitHub with their own defaults).
pub fn type_labels() -> (r: [LabelSpec; 1])
    ensures
        r@ == seq![
            (LabelSpec {
                name: "chore",
                color: "d93f0b",
                description: "Maintenance work with no user-facing surface.",
            }),
        ],
{
    let r = [
        LabelSpec {
            name: "chore",
            color: "d93f0b",
            description: "Maintenance work with no user-facing surface.",
        },
    ];
    assert(r@ =~= seq![
        (LabelSpec {
            name: "chore",
            color: "d93f0b",
            description: "Maintenance work with no user-facing surface.",
        }),
    ]);
    r
}

/// `gh label create <label> --repo <repo> --color <color> --description
/// <description> --force`.
pub fn label_create_argv(repo: &str, label: &str, color: &str, description: &str) -> (r: Vec<String>)
    ensures
        argv_view(r@) == seq![
            "label"@,
            "create"@,
            label@,
            "--repo"@,
            repo@,
            "--color"@,
            color@,
            "--description"@,
            description@,
            "--force"@,
        ],
{
    let mut argv: Vec<String> = Vec::new();
    push_arg(&mut argv, "label");
    push_arg(&mut argv, "create");
    push_arg(&mut argv, label);
    push_arg(&mut argv, "--repo");
    push_arg(&mut argv, repo);
    push_arg(&mut argv, "--color");
    push_arg(&mut argv, color);
    push_arg(&mut argv, "--description");
    push_arg(&mut argv, description);
    push_arg(&mut argv, "--force");
    assert(argv_view(argv@) =~= seq![
        "label"@,
        "create"@,
        label@,
        "--repo"@,
        repo@,
        "--color"@,
        color@,
        "--description"@,
        description@,
        "--force"@,
    ]);
    argv
}

/// The names of `labels`, joined by `, `.
pub open spec fn joined_names(labels: Seq<LabelSpec>) -> Seq<char>
    decreases labels.len(),
{
    if labels.len() == 0 {
        Seq::empty()
    } else if labels.len() == 1 {
        labels[0].name@
    } else {
        joined_names(labels.drop_last()) + ", "@ + labels.last().name@
    }
}

/// The fixed tail of the triage instruction, after the label list.
pub open spec fn triage_tail() -> Seq<char> {
    ". Apply one size label (`size-high`, `size-medium`, or `size-low`) for how much work it looks like, and one priority label (`priority-high`, `priority-medium`, or `priority-low`) when you are confident in the ranking. If you are uncertain or not confident about the priority, apply `needs-triage` instead and leave priority unset rather than guess — a wrong priority is worse than no priority at all. If a human is present in this session you may instead ask a bounded question, e.g. \"priority for #<N>: high, medium, or low?\" — but never block an unattended, scheduled run on a prompt: apply `needs-triage` and continue."@
}

/// The triage instruction appended to a dispatched issue's prompt: names the
/// full vocabulary and states the uncertainty rule.
pub fn triage_instruction() -> (r: String)
    ensures
        r@ == "Triage this issue using the following labels: "@ + joined_names(triage_label_list())
            + triage_tail(),
{
    let labels = triage_labels();
    let mut v = chars_of("Triage this issue using the following labels: ");
    let ghost head = v@;
    let mut i: usize = 0;
    while i < 7
        invariant
            i <= 7,
            labels@ == triage_label_list(),
            v@ == head + joined_names(labels@.take(i as int)),
        decreases 7 - i,
    {
        let ghost before = v@;
        if i > 0 {
            extend_str(&mut v, ", ");
        }
        extend_str(&mut v, labels[i].name);
        proof {
            let t = labels@.take(i + 1);
            assert(t.drop_last() =~= labels@.take(i as int));
            if i == 0 {
                assert(labels@.take(0) =~= Seq::<LabelSpec>::empty());
            }
            assert(v@ =~= head + joined_names(t));
        }
        i = i + 1;
    }
    assert(labels@.take(7) =~= labels@);
    extend_str(
        &mut v,
        ". Apply one size label (`size-high`, `size-medium`, or `size-low`) for how much work it looks like, and one priority label (`priority-high`, `priority-medium`, or `priority-low`) when you are confident in the ranking. If you are uncertain or not confident about the priority, apply `needs-triage` instead and leave priority unset rather than guess — a wrong priority is worse than no priority at all. If a human is present in this session you may instead ask a bounded question, e.g. \"priority for #<N>: high, medium, or low?\" — but never block an unattended, scheduled run on a prompt: apply `needs-triage` and continue.",
    );
    string_of(&v)
}

// ---------------------------------------------------------------------------
// `gh` login validation
// ---------------------------------------------------------------------------

/// `login` matches `^[A-Za-z0-9][A-Za-z0-9-]*$`.
pub open spec fn valid_login(login: Seq<char>) -> bool {
    login.len() > 0 && is_ascii_alnum(login[0]) && forall|i: int|
        1 <= i < login.len() ==> is_ascii_alnum(#[trigger] login[i]) || login[i] == '-'
}

/// Accept only `^[A-Za-z0-9][A-Za-z0-9-]*$` — the shape of a GitHub login.
pub fn validate_gh_login(login: &str) -> (b: bool)
    ensures
        b == valid_login(login@),
{
    let s = chars_of(login);
    if s.len() == 0 || !is_ascii_alnum_exec(s[0]) {
        return false;
    }
    let mut i: usize = 1;
    while i < s.len()
        invariant
            1 <= i <= s.len(),
            s@ == login@,
            forall|j: int| 1 <= j < i ==> is_ascii_alnum(#[trigger] s@[j]) || s@[j] == '-',
        decreases s.len() - i,
    {
        if !(is_ascii_alnum_exec(s[i]) || s[i] == '-') {
            return false;
        }
        i = i + 1;
    }
    true
}

/// An ASCII letter or digit is a character in one of the ranges `a`..=`z`,
/// `A`..=`Z`, `0`..=`9`.
proof fn lemma_ascii_alnum_ranges(c: char)
    ensures
        is_ascii_alnum(c) <==> (('a' <= c && c <= 'z') || ('A' <= c && c <= 'Z') || ('0' <= c && c <= '9')),
{
    assert((c as u32) as int == c as int);
    assert(('a' <= c) <==> ('a' as int <= c as int));
    assert(('z' >= c) <==> ('z' as int >= c as int));
    assert(('A' <= c) <==> ('A' as int <= c as int));
    assert(('Z' >= c) <==> ('Z' as int >= c as int));
    assert(('0' <= c) <==> ('0' as int <= c as int));
    assert(('9' >= c) <==> ('9' as int >= c as int));
}

/// A login is exactly a text of the shape `^[A-Za-z0-9][A-Za-z0-9-]*$`:
/// a non-empty text whose first character is an ASCII letter (of either
/// case) or digit and whose later characters are ASCII letters, digits or
/// `-`.
pub proof fn lemma_login_shape(s: Seq<char>)
    ensures
        valid_login(s) <==> (s.len() > 0 && (('a' <= s[0] && s[0] <= 'z') || ('A' <= s[0] && s[0] <= 'Z') || (
        '0' <= s[0] && s[0] <= '9')) && forall|i: int|
            1 <= i < s.len() ==> ('a' <= #[trigger] s[i] && s[i] <= 'z') || ('A' <= s[i] && s[i] <= 'Z') || ('0'
                <= s[i] && s[i] <= '9') || s[i] == '-'),
{
    if s.len() > 0 {
        lemma_ascii_alnum_ranges(s[0]);
    }
    assert forall|i: int| 1 <= i < s.len() implies (is_ascii_alnum(#[trigger] s[i]) <==> (('a' <= s[i] && s[i]
        <= 'z') || ('A' <= s[i] && s[i] <= 'Z') || ('0' <= s[i] && s[i] <= '9'))) by {
        lemma_ascii_alnum_ranges(s[i]);
    }
}

/// Every `owner/name` slug whose two segments are non-empty runs of ASCII
/// letters, digits, `.`, `_` and `-`, the owner not starting with `-`, is
/// an accepted repo: with a cap of at least one and no filters the
/// configuration validates.
pub proof fn lemma_slug_accepted(owner: Seq<char>, name: Seq<char>, max_per_run: nat)
    requires
        owner.len() > 0,
        name.len() > 0,
        owner[0] != '-',
        max_per_run >= 1,
        forall|i: int| 0 <= i < owner.len() ==> ('a' <= #[trigger] owner[i] && owner[i] <= 'z') || ('A' <= owner[i]
            && owner[i] <= 'Z') || ('0' <= owner[i] && owner[i] <= '9') || owner[i] == '.' || owner[i] == '_'
            || owner[i] == '-',
        forall|i: int| 0 <= i < name.len() ==> ('a' <= #[trigger] name[i] && name[i] <= 'z') || ('A' <= name[i]
            && name[i] <= 'Z') || ('0' <= name[i] && name[i] <= '9') || name[i] == '.' || name[i] == '_'
            || name[i] == '-',
    ensures
        config_error(owner + seq!['/'] + name, max_per_run, None, None) is None,
{
    let repo = owner + seq!['/'] + name;
    let k = owner.len() as int;
    assert forall|j: int| 0 <= j < repo.len() && j != k implies is_repo_char(#[trigger] repo[j]) by {
        if j < k {
            assert(repo[j] == owner[j]);
        } else {
            assert(repo[j] == name[j - k - 1]);
        }
        lemma_ascii_alnum_ranges(repo[j]);
    }
    assert(repo[k] == '/');
    assert(is_owner_name_spec(repo));
    reveal_strlit("-");
    assert(!starts_with(repo, "-"@)) by {
        if starts_with(repo, "-"@) {
            assert(repo.take(1)[0] == "-"@[0]);
        }
    }
}

} // verus!
