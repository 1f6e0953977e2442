//! The daemon-side worktree registry: per-issue worktree path → the clone
//! that owns it and the removal policy that applies when its last agent
//! closes, plus the agent-record lookups the close watcher uses to decide
//! when that moment has come.
//!
//! Paths are compared by their components, as `std::path::Path` compares
//! them (see [`path_key`]).

use vstd::prelude::*;
use crate::issue_dispatch::{argv_view, push_arg};
use crate::text::{chars_of, owned, str_eq, string_of, trim, trim_exec};

verus! {

broadcast use vstd::string::group_string_axioms;

/// Whether a recorded worktree may be removed while it still holds
/// uncommitted work.
#[derive(Debug, Clone, Copy, PartialEq, Eq, Structural)]
pub enum RemovalPolicy {
    /// Remove unconditionally (`--force`), discarding uncommitted changes.
    Force,
    /// Refuse to remove a worktree with uncommitted changes.
    KeepIfDirty,
    /// The entry is an isolated clone, not a linked worktree: it is never
    /// removed on tab close.
    IsolatedClone,
}

/// What the close handler needs to clean up one recorded worktree.
#[derive(Debug, Clone, PartialEq, Eq)]
pub struct WorktreeEntry {
    /// The clone that owns the worktree (preserved by removal).
    pub clone_dir: String,
    pub policy: RemovalPolicy,
}

/// The value-level content of a [`WorktreeEntry`].
pub struct EntryView {
    pub clone_dir: Seq<char>,
    pub policy: RemovalPolicy,
}

pub open spec fn entry_view(e: WorktreeEntry) -> EntryView {
    EntryView { clone_dir: e.clone_dir@, policy: e.policy }
}

// ---------------------------------------------------------------------------
// Paths compared by their components
// ---------------------------------------------------------------------------

/// A piece of a path between separators that is a component of its own:
/// not empty and not `.`.
pub open spec fn kept_piece(piece: Seq<char>) -> Seq<Seq<char>> {
    if piece.len() == 0 || piece == seq!['.'] {
        Seq::empty()
    } else {
        seq![piece]
    }
}

/// The normal components of `p` from index `i` on, `piece` being what was
/// read since the last `/`: the `/`-separated pieces that are neither empty
/// nor `.`, in order.
pub open spec fn normal_components(p: Seq<char>, i: int, piece: Seq<char>) -> Seq<Seq<char>>
    decreases p.len() - i,
{
    if i < 0 || i >= p.len() {
        kept_piece(piece)
    } else if p[i] == '/' {
        kept_piece(piece) + normal_components(p, i + 1, Seq::empty())
    } else {
        normal_components(p, i + 1, piece.push(p[i]))
    }
}

/// How `p` starts: `/` when rooted, `.` when it starts with a `.`
/// component (`.` alone or `./`), else nothing.
pub open spec fn path_head(p: Seq<char>) -> Seq<char> {
    if p.len() > 0 && p[0] == '/' {
        seq!['/']
    } else if p == seq!['.'] || (p.len() >= 2 && p[0] == '.' && p[1] == '/') {
        seq!['.']
    } else {
        Seq::empty()
    }
}

/// The components by which two paths are compared, as `std::path::Path`
/// compares them: repeated separators, `.` pieces after the first and a
/// trailing separator make no difference; a root or a leading `.` does.
pub open spec fn path_key(p: Seq<char>) -> Seq<Seq<char>> {
    seq![path_head(p)] + normal_components(p, 0, Seq::empty())
}

/// Two paths name the same place by their components.
pub open spec fn same_path(a: Seq<char>, b: Seq<char>) -> bool {
    path_key(a) == path_key(b)
}

/// The values of a list of strings.
pub open spec fn strings_of(v: Seq<String>) -> Seq<Seq<char>> {
    Seq::new(v.len(), |i: int| v[i]@)
}

fn push_piece(out: &mut Vec<String>, piece: &Vec<char>)
    ensures
        strings_of(final(out)@) == strings_of(old(out)@) + kept_piece(piece@),
{
    if piece.len() == 0 || (piece.len() == 1 && piece[0] == '.') {
        assert(strings_of(out@) =~= strings_of(out@) + kept_piece(piece@)) by {
            if piece.len() == 1 {
                assert(piece@ =~= seq!['.']);
            }
        }
    } else {
        let ghost before = out@;
        out.push(string_of(piece));
        assert(piece@ != seq!['.']) by {
            if piece@ == seq!['.'] {
                assert(piece@.len() == 1 && piece@[0] == '.');
            }
        }
        assert(strings_of(out@) =~= strings_of(before) + kept_piece(piece@));
    }
}

/// The components of `p` (see [`path_key`]).
pub fn path_components(p: &str) -> (r: Vec<String>)
    ensures
        strings_of(r@) == path_key(p@),
{
    let cs = chars_of(p);
    let n = cs.len();
    let head: &str = if n > 0 && cs[0] == '/' {
        "/"
    } else if (n == 1 && cs[0] == '.') || (n >= 2 && cs[0] == '.' && cs[1] == '/') {
        "."
    } else {
        ""
    };
    proof {
        reveal_strlit("/");
        reveal_strlit(".");
        reveal_strlit("");
        if n == 1 && cs@[0] == '.' {
            assert(cs@ =~= seq!['.']);
        }
        if cs@ == seq!['.'] {
            assert(n == 1 && cs@[0] == '.');
        }
    }
    assert(head@ == path_head(p@));
    let mut out: Vec<String> = Vec::new();
    out.push(owned(head));
    assert(strings_of(out@) =~= seq![path_head(p@)]);
    let mut piece: Vec<char> = Vec::new();
    let mut i: usize = 0;
    while i < n
        invariant
            i <= n,
            n == cs@.len(),
            cs@ == p@,
            strings_of(out@) + normal_components(p@, i as int, piece@) == path_key(p@),
        decreases n - i,
    {
        let ghost before = strings_of(out@);
        let ghost pc = piece@;
        if cs[i] == '/' {
            push_piece(&mut out, &piece);
            piece = Vec::new();
            assert(normal_components(p@, i as int, pc) == kept_piece(pc) + normal_components(p@, i + 1, Seq::empty()));
            assert(before + (kept_piece(pc) + normal_components(p@, i + 1, Seq::empty())) =~= (before + kept_piece(pc))
                + normal_components(p@, i + 1, Seq::empty()));
            assert(piece@ =~= Seq::<char>::empty());
        } else {
            piece.push(cs[i]);
            assert(normal_components(p@, i as int, pc) == normal_components(p@, i + 1, pc.push(p@[i as int])));
        }
        i = i + 1;
    }
    let ghost before = strings_of(out@);
    push_piece(&mut out, &piece);
    assert(normal_components(p@, n as int, piece@) == kept_piece(piece@));
    out
}

/// Whether two component lists are the same.
fn same_components(a: &Vec<String>, b: &Vec<String>) -> (r: bool)
    ensures
        r == (strings_of(a@) == strings_of(b@)),
{
    if a.len() != b.len() {
        assert(strings_of(a@).len() != strings_of(b@).len());
        return false;
    }
    let mut i: usize = 0;
    while i < a.len()
        invariant
            i <= a.len(),
            a.len() == b.len(),
            forall|j: int| 0 <= j < i ==> (#[trigger] a@[j])@ == b@[j]@,
        decreases a.len() - i,
    {
        if !str_eq(a[i].as_str(), b[i].as_str()) {
            assert(strings_of(a@)[i as int] != strings_of(b@)[i as int]);
            return false;
        }
        i = i + 1;
    }
    assert(strings_of(a@) =~= strings_of(b@));
    true
}

/// Whether `a` and `b` name the same place by their components (see
/// [`path_key`]).
pub fn paths_match(a: &str, b: &str) -> (r: bool)
    ensures
        r == same_path(a@, b@),
{
    let ka = path_components(a);
    let kb = path_components(b);
    same_components(&ka, &kb)
}

/// Worktree path → [`WorktreeEntry`]; each path is recorded at most once.
pub struct WorktreeRegistry {
    entries: Vec<(String, WorktreeEntry)>,
}

/// Some entry of `s` is keyed by `k`.
pub open spec fn has_key(s: Seq<(String, WorktreeEntry)>, k: Seq<Seq<char>>) -> bool {
    exists|i: int| 0 <= i < s.len() && path_key((#[trigger] s[i]).0@) == k
}

/// No two entries of `s` share a key.
pub open spec fn keys_distinct(s: Seq<(String, WorktreeEntry)>) -> bool {
    forall|i: int, j: int|
        0 <= i < s.len() && 0 <= j < s.len() && i != j ==> path_key((#[trigger] s[i]).0@) != path_key((#[trigger] s[j]).0@)
}

/// The entry keyed by `k` (meaningful when `has_key(s, k)`).
pub open spec fn entry_at(s: Seq<(String, WorktreeEntry)>, k: Seq<Seq<char>>) -> EntryView {
    entry_view(s[choose|i: int| 0 <= i < s.len() && path_key((#[trigger] s[i]).0@) == k].1)
}

/// The registry's contents as a map.
pub open spec fn entries_map(s: Seq<(String, WorktreeEntry)>) -> Map<Seq<Seq<char>>, EntryView> {
    Map::new(|k: Seq<Seq<char>>| has_key(s, k), |k: Seq<Seq<char>>| entry_at(s, k))
}

impl View for WorktreeRegistry {
    type V = Map<Seq<Seq<char>>, EntryView>;

    closed spec fn view(&self) -> Map<Seq<Seq<char>>, EntryView> {
        entries_map(self.entries@)
    }
}

impl WorktreeRegistry {
    #[verifier::type_invariant]
    spec fn well_formed(self) -> bool {
        keys_distinct(self.entries@)
    }
}

/// With distinct keys, the entry found for the key of index `i` is `s[i]`.
proof fn lemma_entry_at_index(s: Seq<(String, WorktreeEntry)>, i: int)
    requires
        keys_distinct(s),
        0 <= i < s.len(),
    ensures
        has_key(s, path_key(s[i].0@)),
        entry_at(s, path_key(s[i].0@)) == entry_view(s[i].1),
{
    let k = path_key(s[i].0@);
    assert(path_key(s[i].0@) == k);
    let j = choose|j: int| 0 <= j < s.len() && path_key((#[trigger] s[j]).0@) == k;
    assert(0 <= j < s.len() && path_key(s[j].0@) == k);
    assert(j == i);
}

/// Index of the entry recorded for the path `k`, if any.
fn find_key(s: &Vec<(String, WorktreeEntry)>, k: &str) -> (r: Option<usize>)
    ensures
        match r {
            Some(i) => i < s.len() && path_key(s@[i as int].0@) == path_key(k@),
            None => !has_key(s@, path_key(k@)),
        },
{
    let mut i: usize = 0;
    while i < s.len()
        invariant
            i <= s.len(),
            forall|j: int| 0 <= j < i ==> path_key((#[trigger] s@[j]).0@) != path_key(k@),
        decreases s.len() - i,
    {
        if paths_match(s[i].0.as_str(), k) {
            return Some(i);
        }
        i = i + 1;
    }
    None
}

/// An empty registry.
pub fn new_worktree_registry() -> (r: WorktreeRegistry)
    ensures
        r@ == Map::<Seq<Seq<char>>, EntryView>::empty(),
{
    let r = WorktreeRegistry { entries: Vec::new() };
    assert(r@ =~= Map::<Seq<Seq<char>>, EntryView>::empty());
    r
}

/// Record a freshly created worktree (→ its owning clone and removal
/// policy). Recording a path again replaces its entry.
pub fn record_worktree(
    worktrees: &mut WorktreeRegistry,
    worktree_dir: &str,
    clone_dir: &str,
    policy: RemovalPolicy,
)
    ensures
        final(worktrees)@ == old(worktrees)@.insert(
            path_key(worktree_dir@),
            EntryView { clone_dir: clone_dir@, policy },
        ),
{
    proof {
        use_type_invariant(&*worktrees);
    }
    let entry = WorktreeEntry { clone_dir: owned(clone_dir), policy };
    let ghost old_s = worktrees.entries@;
    let ghost ev = EntryView { clone_dir: clone_dir@, policy };
    match find_key(&worktrees.entries, worktree_dir) {
        Some(i) => {
            let mut entries: Vec<(String, WorktreeEntry)> = Vec::new();
            std::mem::swap(&mut entries, &mut worktrees.entries);
            assert(entries@ == old_s);
            entries.set(i, (owned(worktree_dir), entry));
            let ghost s = entries@;
            assert(s == old_s.update(i as int, s[i as int]));
            assert(keys_distinct(s)) by {
                assert forall|a: int, b: int|
                    0 <= a < s.len() && 0 <= b < s.len() && a != b implies
                    path_key((#[trigger] s[a]).0@) != path_key((#[trigger] s[b]).0@) by {
                    if a != i && b != i {
                        assert(s[a] == old_s[a] && s[b] == old_s[b]);
                    } else if a == i {
                        assert(s[b] == old_s[b]);
                        assert(path_key(old_s[i as int].0@) != path_key(old_s[b].0@));
                    } else {
                        assert(s[a] == old_s[a]);
                        assert(path_key(old_s[i as int].0@) != path_key(old_s[a].0@));
                    }
                }
            }
            assert(entries_map(s) =~= entries_map(old_s).insert(path_key(worktree_dir@), ev)) by {
                assert forall|k: Seq<Seq<char>>| #[trigger] has_key(s, k) == (has_key(old_s, k) || k == path_key(worktree_dir@)) by {
                    if has_key(old_s, k) {
                        let j = choose|j: int| 0 <= j < old_s.len() && path_key((#[trigger] old_s[j]).0@) == k;
                        if j == i {
                            assert(path_key(s[i as int].0@) == k);
                        } else {
                            assert(path_key(s[j].0@) == k);
                        }
                    }
                    if k == path_key(worktree_dir@) {
                        assert(path_key(s[i as int].0@) == k);
                    }
                    if has_key(s, k) {
                        let j = choose|j: int| 0 <= j < s.len() && path_key((#[trigger] s[j]).0@) == k;
                        if j != i {
                            assert(path_key(old_s[j].0@) == k);
                        }
                    }
                }
                assert forall|k: Seq<Seq<char>>| #[trigger] has_key(s, k) implies
                    entry_at(s, k) == entries_map(old_s).insert(path_key(worktree_dir@), ev)[k] by {
                    let j = choose|j: int| 0 <= j < s.len() && path_key((#[trigger] s[j]).0@) == k;
                    lemma_entry_at_index(s, j);
                    if j != i {
                        lemma_entry_at_index(old_s, j);
                    }
                }
            }
            worktrees.entries = entries;
        },
        None => {
            let mut entries: Vec<(String, WorktreeEntry)> = Vec::new();
            std::mem::swap(&mut entries, &mut worktrees.entries);
            assert(entries@ == old_s);
            entries.push((owned(worktree_dir), entry));
            let ghost s = entries@;
            let ghost n = old_s.len() as int;
            assert(keys_distinct(s)) by {
                assert forall|a: int, b: int|
                    0 <= a < s.len() && 0 <= b < s.len() && a != b implies
                    path_key((#[trigger] s[a]).0@) != path_key((#[trigger] s[b]).0@) by {
                    if a < n && b < n {
                        assert(s[a] == old_s[a] && s[b] == old_s[b]);
                    } else if a == n {
                        assert(s[b] == old_s[b]);
                        assert(!has_key(old_s, path_key(worktree_dir@)));
                        assert(path_key(old_s[b].0@) != path_key(worktree_dir@));
                    } else {
                        assert(s[a] == old_s[a]);
                        assert(path_key(old_s[a].0@) != path_key(worktree_dir@));
                    }
                }
            }
            assert(entries_map(s) =~= entries_map(old_s).insert(path_key(worktree_dir@), ev)) by {
                assert forall|k: Seq<Seq<char>>| #[trigger] has_key(s, k) == (has_key(old_s, k) || k == path_key(worktree_dir@)) by {
                    if has_key(old_s, k) {
                        let j = choose|j: int| 0 <= j < old_s.len() && path_key((#[trigger] old_s[j]).0@) == k;
                        assert(path_key(s[j].0@) == k);
                    }
                    if k == path_key(worktree_dir@) {
                        assert(path_key(s[n].0@) == k);
                    }
                    if has_key(s, k) {
                        let j = choose|j: int| 0 <= j < s.len() && path_key((#[trigger] s[j]).0@) == k;
                        if j != n {
                            assert(path_key(old_s[j].0@) == k);
                        }
                    }
                }
                assert forall|k: Seq<Seq<char>>| #[trigger] has_key(s, k) implies
                    entry_at(s, k) == entries_map(old_s).insert(path_key(worktree_dir@), ev)[k] by {
                    let j = choose|j: int| 0 <= j < s.len() && path_key((#[trigger] s[j]).0@) == k;
                    lemma_entry_at_index(s, j);
                    if j != n {
                        assert(s[j] == old_s[j]);
                        lemma_entry_at_index(old_s, j);
                    }
                }
            }
            worktrees.entries = entries;
        },
    }
}

/// Drop the entry recorded for `worktree_dir` and hand it back; `None` when
/// nothing is recorded for that path.
pub fn take_worktree(worktrees: &mut WorktreeRegistry, worktree_dir: &str) -> (r: Option<WorktreeEntry>)
    ensures
        match r {
            Some(e) => old(worktrees)@.contains_key(path_key(worktree_dir@))
                && entry_view(e) == old(worktrees)@[path_key(worktree_dir@)],
            None => !old(worktrees)@.contains_key(path_key(worktree_dir@)),
        },
        final(worktrees)@ == old(worktrees)@.remove(path_key(worktree_dir@)),
{
    proof {
        use_type_invariant(&*worktrees);
    }
    let ghost old_s = worktrees.entries@;
    match find_key(&worktrees.entries, worktree_dir) {
        Some(i) => {
            let mut entries: Vec<(String, WorktreeEntry)> = Vec::new();
            std::mem::swap(&mut entries, &mut worktrees.entries);
            assert(entries@ == old_s);
            let (_, e) = entries.remove(i);
            let ghost s = entries@;
            proof {
                lemma_entry_at_index(old_s, i as int);
            }
            assert(keys_distinct(s)) by {
                assert forall|a: int, b: int|
                    0 <= a < s.len() && 0 <= b < s.len() && a != b implies
                    path_key((#[trigger] s[a]).0@) != path_key((#[trigger] s[b]).0@) by {
                    let a2 = if a < i { a } else { a + 1 };
                    let b2 = if b < i { b } else { b + 1 };
                    assert(s[a] == old_s[a2] && s[b] == old_s[b2]);
                }
            }
            assert(entries_map(s) =~= entries_map(old_s).remove(path_key(worktree_dir@))) by {
                assert forall|k: Seq<Seq<char>>| #[trigger] has_key(s, k) == (has_key(old_s, k) && k != path_key(worktree_dir@)) by {
                    if has_key(old_s, k) && k != path_key(worktree_dir@) {
                        let j = choose|j: int| 0 <= j < old_s.len() && path_key((#[trigger] old_s[j]).0@) == k;
                        assert(j != i);
                        if j < i {
                            assert(path_key(s[j].0@) == k);
                        } else {
                            assert(path_key(s[j - 1].0@) == k);
                        }
                    }
                    if has_key(s, k) {
                        let j = choose|j: int| 0 <= j < s.len() && path_key((#[trigger] s[j]).0@) == k;
                        let j2 = if j < i { j } else { j + 1 };
                        assert(old_s[j2] == s[j]);
                        assert(j2 != i);
                        assert(path_key(old_s[j2].0@) != path_key(old_s[i as int].0@));
                    }
                }
                assert forall|k: Seq<Seq<char>>| #[trigger] has_key(s, k) implies
                    entry_at(s, k) == entries_map(old_s)[k] by {
                    let j = choose|j: int| 0 <= j < s.len() && path_key((#[trigger] s[j]).0@) == k;
                    let j2 = if j < i { j } else { j + 1 };
                    assert(old_s[j2] == s[j]);
                    lemma_entry_at_index(s, j);
                    lemma_entry_at_index(old_s, j2);
                }
            }
            worktrees.entries = entries;
            Some(e)
        },
        None => {
            assert(entries_map(old_s) =~= entries_map(old_s).remove(path_key(worktree_dir@)));
            None
        },
    }
}

/// A worktree recorded under one spelling of its path is handed back by the
/// first take under any spelling with the same components, and not by a
/// second one; the other entries are untouched.
pub proof fn lemma_record_then_take(
    m: Map<Seq<Seq<char>>, EntryView>,
    recorded: Seq<char>,
    taken: Seq<char>,
    e: EntryView,
)
    requires
        same_path(recorded, taken),
    ensures
        m.insert(path_key(recorded), e).contains_key(path_key(taken)),
        m.insert(path_key(recorded), e)[path_key(taken)] == e,
        !m.insert(path_key(recorded), e).remove(path_key(taken)).contains_key(path_key(taken)),
        m.insert(path_key(recorded), e).remove(path_key(taken)) == m.remove(path_key(recorded)),
{
    assert(m.insert(path_key(recorded), e).remove(path_key(taken)) =~= m.remove(path_key(recorded)));
}

// ---------------------------------------------------------------------------
// Agent records: which worktree a live agent is rooted in
// ---------------------------------------------------------------------------

/// How an agent pane belongs to a tab.
#[derive(Debug, Clone, PartialEq, Eq)]
pub enum TabMembership {
    /// One role pane of an orchestration tab; every role shares the
    /// orchestration's working directory.
    Orchestration {
        name: String,
        role_index: usize,
        role_name: String,
        is_start_role: bool,
        orchestration_cwd: Option<String>,
        display_title: Option<String>,
        orchestration_id: Option<String>,
    },
}

/// What the close watcher knows of a live agent.
#[derive(Debug, Clone, PartialEq, Eq)]
pub struct AgentRecord {
    pub id: String,
    pub cwd: Option<String>,
    pub tab_membership: Option<TabMembership>,
}

pub open spec fn opt_string_view(o: Option<String>) -> Option<Seq<char>> {
    match o {
        Some(s) => Some(s@),
        None => None,
    }
}

/// The worktree an agent is rooted in: an orchestration role's shared
/// orchestration cwd, else the agent's own cwd.
pub open spec fn record_worktree_dir(r: AgentRecord) -> Option<Seq<char>> {
    match r.tab_membership {
        Some(TabMembership::Orchestration { orchestration_cwd, .. }) => opt_string_view(orchestration_cwd),
        None => opt_string_view(r.cwd),
    }
}

fn clone_opt(o: &Option<String>) -> (r: Option<String>)
    ensures
        opt_string_view(r) == opt_string_view(*o),
{
    match o {
        Some(s) => Some(owned(s.as_str())),
        None => None,
    }
}

/// The per-issue worktree a closing agent was dispatched into: the
/// orchestration cwd for an orchestration tab, else the agent's cwd.
pub fn worktree_of_record(record: &AgentRecord) -> (r: Option<String>)
    ensures
        opt_string_view(r) == record_worktree_dir(*record),
{
    match &record.tab_membership {
        Some(TabMembership::Orchestration { orchestration_cwd, .. }) => clone_opt(orchestration_cwd),
        None => clone_opt(&record.cwd),
    }
}

/// The agent of `r` is rooted in `dir` (compared by components).
pub open spec fn rooted_in(r: AgentRecord, dir: Seq<char>) -> bool {
    match record_worktree_dir(r) {
        Some(w) => same_path(w, dir),
        None => false,
    }
}

/// Whether any live agent in `records` is still rooted in `worktree_dir`.
pub fn worktree_still_in_use(records: &[AgentRecord], worktree_dir: &str) -> (b: bool)
    ensures
        b == exists|i: int| 0 <= i < records@.len() && rooted_in(#[trigger] records@[i], worktree_dir@),
{
    let mut i: usize = 0;
    while i < records.len()
        invariant
            i <= records@.len(),
            forall|j: int| 0 <= j < i ==> !rooted_in(#[trigger] records@[j], worktree_dir@),
        decreases records.len() - i,
    {
        match worktree_of_record(&records[i]) {
            Some(w) => {
                if paths_match(w.as_str(), worktree_dir) {
                    return true;
                }
            },
            None => {},
        }
        i = i + 1;
    }
    false
}

// ---------------------------------------------------------------------------
// Removal on last close
// ---------------------------------------------------------------------------

/// Why a worktree was left in place.
#[derive(Debug, Clone, Copy, PartialEq, Eq, Structural)]
pub enum KeptReason {
    /// It holds uncommitted changes.
    Dirty,
    /// Its status could not be read, so dirtiness is unknown.
    ProbeError,
    /// It is an isolated clone, never removed on tab close.
    IsolatedClone,
}

/// What a removal did.
#[derive(Debug, Clone, PartialEq, Eq)]
pub enum RemoveOutcome {
    /// Removed, by the named remover.
    Removed(String),
    /// Left in place.
    Kept(KeptReason),
    /// `git worktree remove` failed; carries the error.
    RemoveFailed(String),
}

/// Argv for `git -C <clone_dir> worktree remove [--force] -- <worktree_dir>`.
pub fn remove_worktree_argv(clone_dir: &str, worktree_dir: &str, force: bool) -> (r: Vec<String>)
    ensures
        argv_view(r@) == (if force {
            seq!["-C"@, clone_dir@, "worktree"@, "remove"@, "--force"@, "--"@, worktree_dir@]
        } else {
            seq!["-C"@, clone_dir@, "worktree"@, "remove"@, "--"@, worktree_dir@]
        }),
{
    let mut args: Vec<String> = Vec::new();
    push_arg(&mut args, "-C");
    push_arg(&mut args, clone_dir);
    push_arg(&mut args, "worktree");
    push_arg(&mut args, "remove");
    if force {
        push_arg(&mut args, "--force");
    }
    push_arg(&mut args, "--");
    push_arg(&mut args, worktree_dir);
    args
}

/// Argv for the dirtiness probe `git -C <worktree_dir> status --porcelain`.
pub fn dirty_probe_argv(worktree_dir: &str) -> (r: Vec<String>)
    ensures
        argv_view(r@) == seq!["-C"@, worktree_dir@, "status"@, "--porcelain"@],
{
    let mut args: Vec<String> = Vec::new();
    push_arg(&mut args, "-C");
    push_arg(&mut args, worktree_dir);
    push_arg(&mut args, "status");
    push_arg(&mut args, "--porcelain");
    args
}

/// The next thing the removal of one worktree asks its runner to do.
#[derive(Debug)]
pub enum RemoveStep {
    /// Run `git` with these arguments (the dirtiness probe) and report its
    /// standard output, or its failure, back as [`RemoveEvent::Probed`].
    ProbeDirty(Vec<String>),
    /// Run `git` with these arguments (the removal) and report back as
    /// [`RemoveEvent::Ran`].
    Remove(Vec<String>),
    /// The removal is over.
    Finish(RemoveOutcome),
}

/// What the runner reports back.
#[derive(Debug)]
pub enum RemoveEvent {
    Start,
    Probed(Result<String, String>),
    Ran(Result<(), String>),
}

/// One decision of the removal of `worktree_dir` from `clone_dir`: an
/// isolated clone is kept without a probe; `KeepIfDirty` probes first and
/// keeps a dirty tree (or one whose status cannot be read); `Force` removes
/// straight away; the removal's own result is reported as removed-by-
/// `remover` or as the failure.
pub fn remove_worktree_step(
    worktree_dir: &str,
    clone_dir: &str,
    policy: RemovalPolicy,
    remover: &str,
    event: RemoveEvent,
) -> (r: RemoveStep)
    ensures
        match event {
            RemoveEvent::Start => match policy {
                RemovalPolicy::IsolatedClone => r == RemoveStep::Finish(RemoveOutcome::Kept(KeptReason::IsolatedClone)),
                RemovalPolicy::KeepIfDirty => r is ProbeDirty
                    && argv_view(r->ProbeDirty_0@) == seq!["-C"@, worktree_dir@, "status"@, "--porcelain"@],
                RemovalPolicy::Force => r is Remove
                    && argv_view(r->Remove_0@) == seq!["-C"@, clone_dir@, "worktree"@, "remove"@, "--force"@, "--"@, worktree_dir@],
            },
            RemoveEvent::Probed(Ok(out)) => if trim(out@).len() > 0 {
                r == RemoveStep::Finish(RemoveOutcome::Kept(KeptReason::Dirty))
            } else {
                r is Remove && argv_view(r->Remove_0@) == (if policy == RemovalPolicy::Force {
                    seq!["-C"@, clone_dir@, "worktree"@, "remove"@, "--force"@, "--"@, worktree_dir@]
                } else {
                    seq!["-C"@, clone_dir@, "worktree"@, "remove"@, "--"@, worktree_dir@]
                })
            },
            RemoveEvent::Probed(Err(_)) => r == RemoveStep::Finish(RemoveOutcome::Kept(KeptReason::ProbeError)),
            RemoveEvent::Ran(Ok(())) => r is Finish && r->Finish_0 is Removed
                && r->Finish_0->Removed_0@ == remover@,
            RemoveEvent::Ran(Err(e)) => r is Finish && r->Finish_0 is RemoveFailed
                && r->Finish_0->RemoveFailed_0@ == e@,
        },
{
    match event {
        RemoveEvent::Start => match policy {
            RemovalPolicy::IsolatedClone => RemoveStep::Finish(RemoveOutcome::Kept(KeptReason::IsolatedClone)),
            RemovalPolicy::KeepIfDirty => RemoveStep::ProbeDirty(dirty_probe_argv(worktree_dir)),
            RemovalPolicy::Force => RemoveStep::Remove(remove_worktree_argv(clone_dir, worktree_dir, true)),
        },
        RemoveEvent::Probed(Ok(out)) => {
            let t = trim_exec(&chars_of(out.as_str()));
            if t.len() > 0 {
                RemoveStep::Finish(RemoveOutcome::Kept(KeptReason::Dirty))
            } else {
                let force = match policy {
                    RemovalPolicy::Force => true,
                    _ => false,
                };
                RemoveStep::Remove(remove_worktree_argv(clone_dir, worktree_dir, force))
            }
        },
        RemoveEvent::Probed(Err(_)) => RemoveStep::Finish(RemoveOutcome::Kept(KeptReason::ProbeError)),
        RemoveEvent::Ran(Ok(())) => RemoveStep::Finish(RemoveOutcome::Removed(owned(remover))),
        RemoveEvent::Ran(Err(e)) => RemoveStep::Finish(RemoveOutcome::RemoveFailed(e)),
    }
}

} // verus!
