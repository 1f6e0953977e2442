//! Decisions of the fire-time dispatch flow that sit between its `gh` and
//! `git` calls: workspace validation, origin attribution, classification
//! of `git worktree add` and `git clone` failures, the bounded retry of a
//! racing add, and the refusals of an isolated-clone resume.

use vstd::prelude::*;
use crate::text::{
    ascii_lower, ascii_lower_exec, chars_of, contains, contains_str, debug_quoted, debug_str,
    ends_with, ends_with_exec, extend_str, find, find_exec, owned, slice_chars, starts_with,
    starts_with_exec, string_of, trim, trim_end_char, trim_end_char_exec, trim_exec,
};

verus! {

broadcast use vstd::string::group_string_axioms;

// ---------------------------------------------------------------------------
// Workspace root
// ---------------------------------------------------------------------------

/// The outcome of `std::path::absolute` on an absolute POSIX path, rendered
/// back to text (the path, or the I/O error's `Display`).
pub uninterp spec fn absolute_path(p: Seq<char>) -> Result<Seq<char>, Seq<char>>;

/// `std::path::absolute(p)`, the result rendered with `to_string_lossy` and
/// an error with `Display`. Only called on an absolute path, for which the
/// outcome depends on the path alone (no current directory is consulted).
#[verifier::external_body]
fn path_absolute(p: &str) -> (r: Result<String, String>)
    requires
        starts_with(p@, seq!['/']),
    ensures
        match r {
            Ok(a) => absolute_path(p@) == Ok::<Seq<char>, Seq<char>>(a@),
            Err(e) => absolute_path(p@) == Err::<Seq<char>, Seq<char>>(e@),
        },
{
    match std::path::absolute(std::path::Path::new(p)) {
        Ok(a) => Ok(a.to_string_lossy().into_owned()),
        Err(e) => Err(e.to_string()),
    }
}

/// The host name recorded in a claim identity: the name the system
/// reported, trimmed, or `unknown-host` when that is empty (or could not be
/// read at all, which the caller reports as an empty name).
pub fn hostname_or_unknown(reported: &str) -> (r: String)
    ensures
        r@ == if trim(reported@).len() > 0 { trim(reported@) } else { "unknown-host"@ },
{
    let t = trim_exec(&chars_of(reported));
    if t.len() > 0 {
        string_of(&t)
    } else {
        owned("unknown-host")
    }
}

/// A POSIX path is absolute when it starts with `/`.
pub open spec fn is_absolute(p: Seq<char>) -> bool {
    starts_with(p, seq!['/'])
}

/// The workspace root of a run: `working_dir` absolutized, refused when it
/// is relative.
pub fn canonical_workspace(working_dir: &str) -> (r: Result<String, String>)
    ensures
        !is_absolute(working_dir@) ==> r is Err && r->Err_0@ == "working_dir "@ + debug_quoted(working_dir@)
            + " is not absolute; issue-dispatch requires an absolute workspace root"@,
        is_absolute(working_dir@) ==> match absolute_path(working_dir@) {
            Ok(a) => r is Ok && r->Ok_0@ == a,
            Err(e) => r is Err && r->Err_0@ == "failed to absolutize working_dir "@ + debug_quoted(working_dir@)
                + ": "@ + e,
        },
{
    let w = chars_of(working_dir);
    let slash = vec!['/'];
    assert(slash@ == seq!['/']);
    if !starts_with_exec(&w, &slash) {
        let mut msg = chars_of("working_dir ");
        extend_str(&mut msg, debug_str(working_dir).as_str());
        extend_str(&mut msg, " is not absolute; issue-dispatch requires an absolute workspace root");
        return Err(string_of(&msg));
    }
    match path_absolute(working_dir) {
        Ok(a) => Ok(a),
        Err(e) => {
            let mut msg = chars_of("failed to absolutize working_dir ");
            extend_str(&mut msg, debug_str(working_dir).as_str());
            extend_str(&mut msg, ": ");
            extend_str(&mut msg, e.as_str());
            Err(string_of(&msg))
        },
    }
}

// ---------------------------------------------------------------------------
// Origin attribution
// ---------------------------------------------------------------------------

/// The part of `s` after the first of the recognised github.com remote
/// prefixes that it starts with.
pub open spec fn after_github_prefix(s: Seq<char>) -> Option<Seq<char>> {
    if starts_with(s, "https://github.com/"@) {
        Some(s.skip("https://github.com/"@.len() as int))
    } else if starts_with(s, "http://github.com/"@) {
        Some(s.skip("http://github.com/"@.len() as int))
    } else if starts_with(s, "ssh://git@github.com/"@) {
        Some(s.skip("ssh://git@github.com/"@.len() as int))
    } else if starts_with(s, "git://github.com/"@) {
        Some(s.skip("git://github.com/"@.len() as int))
    } else if starts_with(s, "git@github.com:"@) {
        Some(s.skip("git@github.com:"@.len() as int))
    } else {
        None
    }
}

/// `rest` without one trailing `.git`, then without trailing slashes.
pub open spec fn repo_path_part(rest: Seq<char>) -> Seq<char> {
    let r = if ends_with(rest, ".git"@) { rest.take(rest.len() - 4) } else { rest };
    trim_end_char(r, '/')
}

/// `p` is `owner/name`: exactly one slash, with something on each side.
pub open spec fn is_owner_slash_name(p: Seq<char>) -> bool {
    match find(p, seq!['/']) {
        Some(i) => 0 < i && i + 1 < p.len() && !contains(p.skip(i + 1), seq!['/']),
        None => false,
    }
}

/// The lowercase `owner/name` of a github.com remote URL, or `None` when the
/// URL is not a recognisable github.com remote.
pub open spec fn github_owner_name_spec(origin: Seq<char>) -> Option<Seq<char>> {
    match after_github_prefix(trim(origin)) {
        Some(rest) => {
            let p = repo_path_part(rest);
            if is_owner_slash_name(p) { Some(ascii_lower(p)) } else { None }
        },
        None => None,
    }
}

fn strip_prefix_chars(s: &Vec<char>, p: &str) -> (r: Option<Vec<char>>)
    ensures
        match r {
            Some(rest) => starts_with(s@, p@) && rest@ == s@.skip(p@.len() as int),
            None => !starts_with(s@, p@),
        },
{
    let pv = chars_of(p);
    if starts_with_exec(s, &pv) {
        let rest = slice_chars(s, pv.len(), s.len());
        assert(rest@ =~= s@.skip(p@.len() as int));
        Some(rest)
    } else {
        None
    }
}

/// Normalise a github.com remote URL to lowercase `owner/name`; `None` for
/// any other remote. Handles the `https://`, `http://`, `ssh://git@`,
/// `git://` and `git@…:` forms, with or without a trailing `.git`.
pub fn github_owner_name(origin: &str) -> (r: Option<String>)
    ensures
        match r {
            Some(s) => github_owner_name_spec(origin@) == Some(s@),
            None => github_owner_name_spec(origin@) is None,
        },
{
    proof {
        reveal_strlit("https://github.com/");
        reveal_strlit("http://github.com/");
        reveal_strlit("ssh://git@github.com/");
        reveal_strlit("git://github.com/");
        reveal_strlit("git@github.com:");
        reveal_strlit(".git");
    }
    let s = trim_exec(&chars_of(origin));
    let rest = match strip_prefix_chars(&s, "https://github.com/") {
        Some(r) => r,
        None => match strip_prefix_chars(&s, "http://github.com/") {
            Some(r) => r,
            None => match strip_prefix_chars(&s, "ssh://git@github.com/") {
                Some(r) => r,
                None => match strip_prefix_chars(&s, "git://github.com/") {
                    Some(r) => r,
                    None => match strip_prefix_chars(&s, "git@github.com:") {
                        Some(r) => r,
                        None => return None,
                    },
                },
            },
        },
    };
    assert(after_github_prefix(s@) == Some(rest@));
    let git = chars_of(".git");
    let r = if ends_with_exec(&rest, &git) {
        slice_chars(&rest, 0, rest.len() - 4)
    } else {
        slice_chars(&rest, 0, rest.len())
    };
    assert(r@ =~= (if ends_with(rest@, ".git"@) { rest@.take(rest@.len() - 4) } else { rest@ }));
    let p = trim_end_char_exec(&r, '/');
    assert(p@ == repo_path_part(rest@));
    let slash = vec!['/'];
    assert(slash@ == seq!['/']);
    match find_exec(&p, &slash) {
        Some(i) => {
            proof {
                crate::text::lemma_find(p@, slash@);
                assert(crate::text::occurs_at(p@, slash@, i as int));
            }
            assert(i < p.len());
            if i == 0 || i + 1 >= p.len() {
                return None;
            }
            let tail = slice_chars(&p, i + 1, p.len());
            assert(tail@ =~= p@.skip(i + 1));
            if find_exec(&tail, &slash).is_some() {
                return None;
            }
            Some(string_of(&ascii_lower_exec(&p)))
        },
        None => None,
    }
}

/// Whether an existing clone's `origin` is consistent with the configured
/// `repo`: a github.com origin must name the same `owner/name`
/// (ASCII-case-insensitively); any other origin cannot be attributed and is
/// accepted.
pub fn origin_matches_repo(origin: &str, repo: &str) -> (b: bool)
    ensures
        b == match github_owner_name_spec(origin@) {
            Some(found) => found == ascii_lower(repo@),
            None => true,
        },
{
    match github_owner_name(origin) {
        Some(found) => {
            let want = ascii_lower_exec(&chars_of(repo));
            let got = chars_of(found.as_str());
            crate::text::chars_eq(&got, &want)
        },
        None => true,
    }
}

// ---------------------------------------------------------------------------
// `git worktree add` / `git clone` failures
// ---------------------------------------------------------------------------

/// A failed `git` call: a genuine failure, or a bounded wait that expired.
#[derive(Debug, Clone, PartialEq, Eq)]
pub enum AddError {
    Failed(String),
    TimedOut(String),
}

/// How a `git worktree add` ended, once its target directory was looked at.
#[derive(Debug, Clone, Copy, PartialEq, Eq, Structural)]
pub enum AddOutcome {
    Created,
    AlreadyClaimed,
    TimedOut,
}

/// Classify a `git worktree add` result, given whether the target
/// directory exists afterwards: a failure that left the directory present
/// is a concurrent claim, a timeout that left it present is our own
/// half-created add, and a failure that left it absent is a real error.
pub fn classify_worktree_add_result(
    worktree_dir_exists: bool,
    add_result: Result<(), AddError>,
) -> (r: Result<AddOutcome, String>)
    ensures
        match add_result {
            Ok(()) => r == Ok::<AddOutcome, String>(AddOutcome::Created),
            Err(AddError::TimedOut(e)) => if worktree_dir_exists {
                r == Ok::<AddOutcome, String>(AddOutcome::TimedOut)
            } else {
                r is Err && r->Err_0@ == e@
            },
            Err(AddError::Failed(e)) => if worktree_dir_exists {
                r == Ok::<AddOutcome, String>(AddOutcome::AlreadyClaimed)
            } else {
                r is Err && r->Err_0@ == e@
            },
        },
{
    match add_result {
        Ok(()) => Ok(AddOutcome::Created),
        Err(AddError::TimedOut(e)) => if worktree_dir_exists {
            Ok(AddOutcome::TimedOut)
        } else {
            Err(e)
        },
        Err(AddError::Failed(e)) => if worktree_dir_exists {
            Ok(AddOutcome::AlreadyClaimed)
        } else {
            Err(e)
        },
    }
}

/// Attempts (the first included) at `git worktree add` when it fails on a
/// concurrent add's half-written administrative directory.
pub const WORKTREE_ADD_ATTEMPTS: u32 = 5;

/// `100 << min(n, 10)`.
pub open spec fn backoff_ms(n: nat) -> nat
    decreases n,
{
    if n == 0 { 100 } else if n > 10 { backoff_ms(10) } else { 2 * backoff_ms((n - 1) as nat) }
}

/// Backoff in milliseconds before retry `attempt` (1-based):
/// `100 << min(attempt - 1, 10)` with a saturating subtraction, so
/// 100, 200, 400, 800 ms for the attempts that are actually retried.
pub fn worktree_add_backoff(attempt: u32) -> (ms: u64)
    ensures
        ms == backoff_ms(if attempt == 0 { 0 } else { (attempt - 1) as nat }),
{
    let n: u32 = if attempt == 0 { 0 } else { attempt - 1 };
    let n: u32 = if n > 10 { 10 } else { n };
    let mut ms: u64 = 100;
    let mut i: u32 = 0;
    while i < n
        invariant
            i <= n <= 10,
            ms == backoff_ms(i as nat),
            ms <= 102400,
        decreases n - i,
    {
        proof {
            assert(backoff_ms((i + 1) as nat) == 2 * backoff_ms(i as nat));
            lemma_backoff_bound(i as nat);
        }
        ms = ms * 2;
        i = i + 1;
    }
    proof {
        let k: nat = if attempt == 0 { 0 } else { (attempt - 1) as nat };
        if k > 10 {
            assert(backoff_ms(k) == backoff_ms(10));
        }
    }
    ms
}

proof fn lemma_backoff_bound(n: nat)
    requires
        n < 10,
    ensures
        backoff_ms(n) <= 51200,
{
    reveal_with_fuel(backoff_ms, 11);
    assert(backoff_ms(9) == 51200);
    lemma_backoff_monotone(n, 9);
}

proof fn lemma_backoff_monotone(n: nat, m: nat)
    requires
        n <= m <= 10,
    ensures
        backoff_ms(n) <= backoff_ms(m),
    decreases m,
{
    if n < m {
        lemma_backoff_monotone(n, (m - 1) as nat);
    }
}

/// Does this `git worktree add` failure come from reading a concurrent
/// add's half-written `commondir` file?
pub fn is_worktree_scan_short_read(err: &str) -> (b: bool)
    ensures
        b == contains(err@, "commondir"@),
{
    contains_str(err, "commondir")
}

/// Does this `git clone` failure say that the destination already existed
/// before the attempt?
pub fn clone_destination_predates_attempt(error_text: &str) -> (b: bool)
    ensures
        b == (contains(error_text@, "destination path"@) && contains(error_text@, "already exists"@)),
{
    contains_str(error_text, "destination path") && contains_str(error_text, "already exists")
}

/// Outcome of creating a per-issue worktree.
#[derive(Debug, Clone, PartialEq, Eq)]
pub enum WorktreeCreation {
    /// Created; carries the ownership-marker write error, if that failed.
    Created { marker_warning: Option<String> },
    /// The worktree directory is already there (a concurrent claim).
    AlreadyClaimed,
    /// The directory is absent but the branch exists and may not be reused.
    BranchExists,
    /// Our own add timed out; names who removed the half-created directory.
    TimedOut { cleaned_up_by: Option<String> },
}

// ---------------------------------------------------------------------------
// Isolated clones
// ---------------------------------------------------------------------------

/// Why an existing directory at an isolated clone's path was not resumed.
#[derive(Debug, Clone, Copy, PartialEq, Eq, Structural)]
pub enum ResumeRejection {
    Stranger,
    AncestryMismatch,
    Unhealthy,
    Contested,
}

pub open spec fn describe_spec(r: ResumeRejection) -> Seq<char> {
    match r {
        ResumeRejection::Stranger => "a directory already exists there but was not created by this deck (no ownership evidence found) — remove it manually, or pick a different Name"@,
        ResumeRejection::AncestryMismatch => "the existing directory's history does not match this project (wrong repo, or stale) — remove it manually, or pick a different Name"@,
        ResumeRejection::Unhealthy => "the existing directory's git state could not be read (it may be corrupt or mid-delete) — it was left untouched; repair or remove it manually"@,
        ResumeRejection::Contested => "another request just resumed it first — try again"@,
    }
}

impl ResumeRejection {
    /// The user-facing explanation of the refusal.
    pub fn describe(&self) -> (s: &'static str)
        ensures
            s@ == describe_spec(*self),
    {
        match self {
            ResumeRejection::Stranger => "a directory already exists there but was not created by this deck (no ownership evidence found) — remove it manually, or pick a different Name",
            ResumeRejection::AncestryMismatch => "the existing directory's history does not match this project (wrong repo, or stale) — remove it manually, or pick a different Name",
            ResumeRejection::Unhealthy => "the existing directory's git state could not be read (it may be corrupt or mid-delete) — it was left untouched; repair or remove it manually",
            ResumeRejection::Contested => "another request just resumed it first — try again",
        }
    }
}

/// Outcome of provisioning an isolated clone.
#[derive(Debug, Clone, PartialEq, Eq)]
pub enum IsolatedCloneOutcome {
    Created { marker_warning: Option<String>, origin_warning: Option<String> },
    AlreadyClaimed,
    TimedOut { cleaned_up_by: Option<String> },
    Failed { error: String, cleaned_up_by: Option<String> },
    Resumed { fetch_warning: Option<String> },
    Rejected(ResumeRejection),
}

/// What to do about a failed `git clone` / checkout of an isolated clone.
#[derive(Debug, Clone, PartialEq, Eq)]
pub enum CloneErrorVerdict {
    /// Nothing was left on disk: propagate the error.
    Propagate(String),
    /// The destination predates the attempt: leave it, report a claim.
    AlreadyClaimed,
    /// A partial directory of ours is left: clean it up, then report
    /// with [`after_isolated_clone_cleanup`].
    CleanUp { timed_out: bool, error: String },
}

/// First half of the handling of a failed isolated-clone `git` call, given
/// whether the clone directory exists afterwards.
pub fn isolated_clone_error_verdict(err: AddError, clone_dir_exists: bool) -> (r: CloneErrorVerdict)
    ensures
        ({
            let (e, timed_out) = match err {
                AddError::TimedOut(e) => (e, true),
                AddError::Failed(e) => (e, false),
            };
            if !clone_dir_exists {
                r is Propagate && r->Propagate_0@ == e@
            } else if !timed_out && contains(e@, "destination path"@) && contains(e@, "already exists"@) {
                r == CloneErrorVerdict::AlreadyClaimed
            } else {
                r is CleanUp && r->timed_out == timed_out && r->error@ == e@
            }
        }),
{
    let (e, timed_out) = match err {
        AddError::TimedOut(e) => (e, true),
        AddError::Failed(e) => (e, false),
    };
    if !clone_dir_exists {
        return CloneErrorVerdict::Propagate(e);
    }
    if !timed_out && clone_destination_predates_attempt(e.as_str()) {
        return CloneErrorVerdict::AlreadyClaimed;
    }
    CloneErrorVerdict::CleanUp { timed_out, error: e }
}

/// Second half: the outcome once the cleanup has run (`cleaned_up_by` names
/// who removed the partial directory, when it is gone).
pub fn after_isolated_clone_cleanup(
    timed_out: bool,
    error: String,
    cleaned_up_by: Option<String>,
) -> (r: IsolatedCloneOutcome)
    ensures
        timed_out ==> r == (IsolatedCloneOutcome::TimedOut { cleaned_up_by }),
        !timed_out ==> r == (IsolatedCloneOutcome::Failed { error, cleaned_up_by }),
{
    if timed_out {
        IsolatedCloneOutcome::TimedOut { cleaned_up_by }
    } else {
        IsolatedCloneOutcome::Failed { error, cleaned_up_by }
    }
}

// ---------------------------------------------------------------------------
// Lock and provenance paths
// ---------------------------------------------------------------------------

/// The 64-bit FNV-1a offset basis and prime.
pub const FNV_OFFSET: u64 = 0xcbf29ce484222325u64;
pub const FNV_PRIME: u64 = 0x100000001b3u64;

/// The 64-bit FNV-1a hash of `bytes`.
pub open spec fn fnv1a64_spec(bytes: Seq<u8>) -> u64
    decreases bytes.len(),
{
    if bytes.len() == 0 {
        FNV_OFFSET
    } else {
        (fnv1a64_spec(bytes.drop_last()) ^ (bytes.last() as u64)).wrapping_mul(FNV_PRIME)
    }
}

/// The 64-bit FNV-1a hash of `bytes`.
pub fn fnv1a64(bytes: &[u8]) -> (h: u64)
    ensures
        h == fnv1a64_spec(bytes@),
{
    let mut h: u64 = FNV_OFFSET;
    let mut i: usize = 0;
    while i < bytes.len()
        invariant
            i <= bytes@.len(),
            h == fnv1a64_spec(bytes@.take(i as int)),
        decreases bytes@.len() - i,
    {
        assert(bytes@.take(i + 1).drop_last() =~= bytes@.take(i as int));
        h = (h ^ (bytes[i] as u64)).wrapping_mul(FNV_PRIME);
        i = i + 1;
    }
    assert(bytes@.take(bytes@.len() as int) =~= bytes@);
    h
}

/// The lowercase hexadecimal digit for `d < 16`.
pub open spec fn hex_char(d: nat) -> char {
    if d < 10 { ((d + 48) as u8) as char } else { ((d + 87) as u8) as char }
}

/// `n` in lowercase hexadecimal, zero-padded to `width` digits (the low
/// `width` digits when it needs more).
pub open spec fn hex_fixed(n: nat, width: nat) -> Seq<char>
    decreases width,
{
    if width == 0 {
        Seq::empty()
    } else {
        hex_fixed(n / 16, (width - 1) as nat).push(hex_char(n % 16))
    }
}

/// `format!("{n:016x}")`.
pub fn hex16(n: u64) -> (r: Vec<char>)
    ensures
        r@ == hex_fixed(n as nat, 16),
{
    let mut v: Vec<char> = vec!['0', '0', '0', '0', '0', '0', '0', '0', '0', '0', '0', '0', '0', '0', '0', '0'];
    let mut cur: u64 = n;
    let mut m: usize = 16;
    while m > 0
        invariant
            m <= 16,
            v@.len() == 16,
            hex_fixed(n as nat, 16) == hex_fixed(cur as nat, m as nat) + v@.skip(m as int),
        decreases m,
    {
        let d: u64 = cur % 16;
        let c: char = if d < 10 { ((d + 48) as u8) as char } else { ((d + 87) as u8) as char };
        let ghost old_v = v@;
        v.set(m - 1, c);
        proof {
            assert(hex_fixed(cur as nat, m as nat) == hex_fixed((cur / 16) as nat, (m - 1) as nat).push(hex_char((cur % 16) as nat)));
            assert(v@.skip(m - 1) =~= seq![c] + old_v.skip(m as int));
            assert(hex_fixed((cur / 16) as nat, (m - 1) as nat).push(hex_char((cur % 16) as nat)) + old_v.skip(m as int)
                =~= hex_fixed((cur / 16) as nat, (m - 1) as nat) + v@.skip(m - 1));
        }
        cur = cur / 16;
        m = m - 1;
    }
    assert(hex_fixed(cur as nat, 0) =~= Seq::<char>::empty());
    assert(v@.skip(0) =~= v@);
    v
}

/// The last component of a path (`Path::file_name`): trailing slashes
/// ignored; `None` for a path ending in `..` or with no last component.
pub open spec fn file_name_spec(p: Seq<char>) -> Option<Seq<char>> {
    let t = trim_end_char(p, '/');
    let start = last_slash_end(t);
    let name = t.skip(start);
    if name.len() == 0 || name == ".."@ { None } else { Some(name) }
}

/// The index just past the last `/` of `t`, or 0.
pub open spec fn last_slash_end(t: Seq<char>) -> int
    decreases t.len(),
{
    if t.len() == 0 {
        0
    } else if t.last() == '/' {
        t.len() as int
    } else {
        last_slash_end(t.drop_last())
    }
}

proof fn lemma_last_slash_end_bound(t: Seq<char>)
    ensures
        0 <= last_slash_end(t) <= t.len(),
    decreases t.len(),
{
    if t.len() > 0 && t.last() != '/' {
        lemma_last_slash_end_bound(t.drop_last());
    }
}

fn file_name(p: &Vec<char>) -> (r: Option<Vec<char>>)
    ensures
        match r {
            Some(n) => file_name_spec(p@) == Some(n@),
            None => file_name_spec(p@) is None,
        },
{
    let t = trim_end_char_exec(p, '/');
    let mut start: usize = t.len();
    assert(t@.take(start as int) =~= t@);
    while start > 0 && t[start - 1] != '/'
        invariant
            start <= t@.len(),
            last_slash_end(t@) == last_slash_end(t@.take(start as int)),
        decreases start,
    {
        assert(t@.take(start as int).drop_last() =~= t@.take(start - 1));
        start = start - 1;
    }
    proof {
        if start > 0 {
            assert(t@.take(start as int).last() == '/');
        }
        assert(t@.take(t@.len() as int) =~= t@);
    }
    let name = slice_chars(&t, start, t.len());
    assert(name@ =~= t@.skip(start as int));
    proof {
        reveal_strlit("..");
    }
    let dots = chars_of("..");
    if name.len() == 0 || crate::text::chars_eq(&name, &dots) {
        None
    } else {
        Some(name)
    }
}

/// The attach lock of a worktree: `<common_dir>/dot-agent-deck-worktree-locks/
/// <basename>-<hash>.lock`, where the basename is the canonical worktree
/// path's last component (`worktree` when it has none) and the hash is the
/// FNV-1a of the canonical path's UTF-8 bytes in 16 hex digits.
pub fn worktree_attach_lock_path_from_common_dir(common_dir: &str, canonical_worktree_dir: &str) -> (r: String)
    ensures
        r@ == crate::issue_dispatch::path_join(
            crate::issue_dispatch::path_join(common_dir@, "dot-agent-deck-worktree-locks"@),
            (match file_name_spec(canonical_worktree_dir@) {
                Some(n) => n,
                None => "worktree"@,
            }) + "-"@ + hex_fixed(fnv1a64_spec(vstd::utf8::encode_utf8(canonical_worktree_dir@)) as nat, 16) + ".lock"@,
        ),
{
    let h = fnv1a64(canonical_worktree_dir.as_bytes());
    let mut leaf = match file_name(&chars_of(canonical_worktree_dir)) {
        Some(n) => n,
        None => chars_of("worktree"),
    };
    extend_str(&mut leaf, "-");
    let hex = hex16(h);
    crate::text::extend_chars(&mut leaf, &hex);
    extend_str(&mut leaf, ".lock");
    let dir = crate::issue_dispatch::path_join_exec(common_dir, "dot-agent-deck-worktree-locks");
    crate::issue_dispatch::path_join_exec(dir.as_str(), string_of(&leaf).as_str())
}

/// The file name of an isolated clone's provenance artifact:
/// `<basename>-<hash>`, the basename being the canonical clone path's last
/// component (`clone` when it has none) and the hash the FNV-1a of the
/// canonical path's UTF-8 bytes in 16 hex digits.
pub fn provenance_file_name(canonical_clone_dir: &str) -> (r: String)
    ensures
        r@ == (match file_name_spec(canonical_clone_dir@) {
            Some(n) => n,
            None => "clone"@,
        }) + "-"@ + hex_fixed(fnv1a64_spec(vstd::utf8::encode_utf8(canonical_clone_dir@)) as nat, 16),
{
    let h = fnv1a64(canonical_clone_dir.as_bytes());
    let mut leaf = match file_name(&chars_of(canonical_clone_dir)) {
        Some(n) => n,
        None => chars_of("clone"),
    };
    extend_str(&mut leaf, "-");
    let hex = hex16(h);
    crate::text::extend_chars(&mut leaf, &hex);
    string_of(&leaf)
}

/// The content of an isolated clone's provenance artifact.
pub fn provenance_content(root_hash: u64, name: &str, canonical_clone_dir: &str) -> (r: String)
    ensures
        r@ == "schema=2\nroot-hash="@ + hex_fixed(root_hash as nat, 16) + "\nname="@ + name@ + "\npath="@
            + canonical_clone_dir@ + "\n"@,
{
    let mut v = chars_of("schema=2\nroot-hash=");
    let hex = hex16(root_hash);
    crate::text::extend_chars(&mut v, &hex);
    extend_str(&mut v, "\nname=");
    extend_str(&mut v, name);
    extend_str(&mut v, "\npath=");
    extend_str(&mut v, canonical_clone_dir);
    extend_str(&mut v, "\n");
    string_of(&v)
}

/// Who cleaned up a half-created directory: the remover, when the removal
/// succeeded and the directory is gone; nobody otherwise.
pub fn cleanup_outcome(removed: bool, still_exists: bool, remover: &str) -> (r: Option<String>)
    ensures
        (removed && !still_exists) ==> r is Some && r->Some_0@ == remover@,
        !(removed && !still_exists) ==> r is None,
{
    if removed && !still_exists {
        Some(owned(remover))
    } else {
        None
    }
}

// ---------------------------------------------------------------------------
// `git` / `gh` failure texts
// ---------------------------------------------------------------------------

/// Arguments joined by single spaces (`[&str]::join(" ")`).
pub open spec fn joined_args(args: Seq<Seq<char>>) -> Seq<char>
    decreases args.len(),
{
    if args.len() == 0 {
        Seq::empty()
    } else if args.len() == 1 {
        args[0]
    } else {
        joined_args(args.drop_last()) + " "@ + args.last()
    }
}

fn join_args(args: &[String]) -> (r: Vec<char>)
    ensures
        r@ == joined_args(crate::issue_dispatch::argv_view(args@)),
{
    proof {
        reveal_strlit(" ");
    }
    let mut v: Vec<char> = Vec::new();
    let mut i: usize = 0;
    while i < args.len()
        invariant
            i <= args@.len(),
            v@ == joined_args(crate::issue_dispatch::argv_view(args@.take(i as int))),
        decreases args@.len() - i,
    {
        let ghost pre = crate::issue_dispatch::argv_view(args@.take(i as int));
        assert(crate::issue_dispatch::argv_view(args@.take(i + 1)) =~= pre.push(args@[i as int]@));
        assert(pre.push(args@[i as int]@).drop_last() =~= pre);
        let ghost old_v = v@;
        if i > 0 {
            v.push(' ');
        }
        extend_str(&mut v, args[i].as_str());
        proof {
            reveal_strlit(" ");
            let q = pre.push(args@[i as int]@);
            if i == 0 {
                assert(pre.len() == 0);
                assert(old_v.len() == 0);
                assert(v@ =~= args@[i as int]@);
                assert(joined_args(q) == q[0]);
            } else {
                assert(q.len() >= 2);
                assert(joined_args(q) == joined_args(q.drop_last()) + " "@ + q.last());
                assert(v@ =~= old_v + " "@ + args@[i as int]@);
            }
        }
        i = i + 1;
    }
    assert(args@.take(args@.len() as int) =~= args@);
    v
}

/// The failure text of a child that exited non-zero:
/// `` `<program> <args>` failed (<status>): <stderr, trimmed> ``.
pub fn status_failure_message(program: &str, args: &[String], status: &str, stderr: &str) -> (r: String)
    ensures
        r@ == "`"@ + program@ + " "@ + joined_args(crate::issue_dispatch::argv_view(args@)) + "` failed ("@
            + status@ + "): "@ + trim(stderr@),
{
    let mut v = chars_of("`");
    extend_str(&mut v, program);
    extend_str(&mut v, " ");
    let j = join_args(args);
    crate::text::extend_chars(&mut v, &j);
    extend_str(&mut v, "` failed (");
    extend_str(&mut v, status);
    extend_str(&mut v, "): ");
    let t = trim_exec(&chars_of(stderr));
    crate::text::extend_chars(&mut v, &t);
    string_of(&v)
}

/// The failure text of a child killed at its deadline:
/// `` `<program> <args>` timed out after <timeout> without exiting ``.
pub fn status_timeout_message(program: &str, args: &[String], timeout: &str) -> (r: String)
    ensures
        r@ == "`"@ + program@ + " "@ + joined_args(crate::issue_dispatch::argv_view(args@)) + "` timed out after "@
            + timeout@ + " without exiting"@,
{
    let mut v = chars_of("`");
    extend_str(&mut v, program);
    extend_str(&mut v, " ");
    let j = join_args(args);
    crate::text::extend_chars(&mut v, &j);
    extend_str(&mut v, "` timed out after ");
    extend_str(&mut v, timeout);
    extend_str(&mut v, " without exiting");
    string_of(&v)
}

/// `failed to run `<program>`: <error>`.
pub fn spawn_failure_message(program: &str, error: &str) -> (r: String)
    ensures
        r@ == "failed to run `"@ + program@ + "`: "@ + error@,
{
    let mut v = chars_of("failed to run `");
    extend_str(&mut v, program);
    extend_str(&mut v, "`: ");
    extend_str(&mut v, error);
    string_of(&v)
}

// ---------------------------------------------------------------------------
// The git common dir
// ---------------------------------------------------------------------------

/// What `git rev-parse --git-common-dir` told: the common dir from the
/// absolute form's output, or `None` when that form failed and the plain
/// form must be tried; an error when it could not run or printed nothing.
pub fn common_dir_from_absolute(clone_dir: &str, r: &crate::clone_flow::CommandResult) -> (out: Option<Result<String, String>>)
    ensures
        match *r {
            crate::clone_flow::CommandResult::SpawnFailed(e) => out is Some && out->Some_0 is Err
                && out->Some_0->Err_0@ == "failed to run git rev-parse --git-common-dir in "@ + debug_quoted(clone_dir@)
                    + ": "@ + e@,
            crate::clone_flow::CommandResult::Exited { success, stdout, stderr } => if !success {
                out is None
            } else if trim(stdout@).len() == 0 {
                out is Some && out->Some_0 is Err && out->Some_0->Err_0@ == "git rev-parse --git-common-dir in "@
                    + debug_quoted(clone_dir@) + " printed no output"@
            } else {
                out is Some && out->Some_0 is Ok && out->Some_0->Ok_0@ == trim(stdout@)
            },
        },
{
    match r {
        crate::clone_flow::CommandResult::SpawnFailed(e) => {
            let mut v = chars_of("failed to run git rev-parse --git-common-dir in ");
            extend_str(&mut v, debug_str(clone_dir).as_str());
            extend_str(&mut v, ": ");
            extend_str(&mut v, e.as_str());
            Some(Err(string_of(&v)))
        },
        crate::clone_flow::CommandResult::Exited { success, stdout, stderr } => {
            if !*success {
                return None;
            }
            let t = trim_exec(&chars_of(stdout.as_str()));
            if t.len() == 0 {
                let mut v = chars_of("git rev-parse --git-common-dir in ");
                extend_str(&mut v, debug_str(clone_dir).as_str());
                extend_str(&mut v, " printed no output");
                Some(Err(string_of(&v)))
            } else {
                Some(Ok(string_of(&t)))
            }
        },
    }
}

/// What the plain `git rev-parse --git-common-dir` told: the common dir
/// joined onto the clone directory, or the error.
pub fn common_dir_from_relative(clone_dir: &str, r: &crate::clone_flow::CommandResult) -> (out: Result<String, String>)
    ensures
        match *r {
            crate::clone_flow::CommandResult::SpawnFailed(e) => out is Err
                && out->Err_0@ == "failed to run git rev-parse --git-common-dir in "@ + debug_quoted(clone_dir@)
                    + ": "@ + e@,
            crate::clone_flow::CommandResult::Exited { success, stdout, stderr } => if !success {
                out is Err && out->Err_0@ == "git rev-parse --git-common-dir in "@ + debug_quoted(clone_dir@)
                    + " failed: "@ + trim(stderr@)
            } else if trim(stdout@).len() == 0 {
                out is Err && out->Err_0@ == "git rev-parse --git-common-dir in "@ + debug_quoted(clone_dir@)
                    + " printed no output"@
            } else {
                out is Ok && out->Ok_0@ == crate::issue_dispatch::path_join(clone_dir@, trim(stdout@))
            },
        },
{
    match r {
        crate::clone_flow::CommandResult::SpawnFailed(e) => {
            let mut v = chars_of("failed to run git rev-parse --git-common-dir in ");
            extend_str(&mut v, debug_str(clone_dir).as_str());
            extend_str(&mut v, ": ");
            extend_str(&mut v, e.as_str());
            Err(string_of(&v))
        },
        crate::clone_flow::CommandResult::Exited { success, stdout, stderr } => {
            if !*success {
                let mut v = chars_of("git rev-parse --git-common-dir in ");
                extend_str(&mut v, debug_str(clone_dir).as_str());
                extend_str(&mut v, " failed: ");
                let t = trim_exec(&chars_of(stderr.as_str()));
                crate::text::extend_chars(&mut v, &t);
                return Err(string_of(&v));
            }
            let t = trim_exec(&chars_of(stdout.as_str()));
            if t.len() == 0 {
                let mut v = chars_of("git rev-parse --git-common-dir in ");
                extend_str(&mut v, debug_str(clone_dir).as_str());
                extend_str(&mut v, " printed no output");
                Err(string_of(&v))
            } else {
                Ok(crate::issue_dispatch::path_join_exec(clone_dir, string_of(&t).as_str()))
            }
        },
    }
}

} // verus!
