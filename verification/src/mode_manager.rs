//! Mode panes: the watch-command line a pane runs, and the round-robin pool
//! of reactive panes that commands matching a mode's rules are routed to.

use vstd::prelude::*;
use crate::text::{
    chars_of, debug_quoted, debug_str, decimal, extend_str, owned, push_decimal, replace_all,
    replace_all_exec, str_eq, string_of,
};

verus! {

broadcast use vstd::string::group_string_axioms;

// ---------------------------------------------------------------------------
// The watch command line
// ---------------------------------------------------------------------------

/// `s` as one POSIX shell word: wrapped in single quotes, each embedded
/// single quote written as `'\''`.
pub open spec fn shell_quoted(s: Seq<char>) -> Seq<char> {
    seq!['\''] + replace_all(s, seq!['\''], seq!['\'', '\\', '\'', '\'']) + seq!['\'']
}

/// Quote `s` as a single POSIX shell word.
pub fn quote_shell_arg(s: &str) -> (r: String)
    ensures
        r@ == shell_quoted(s@),
{
    let q = vec!['\''];
    let esc = vec!['\'', '\\', '\'', '\''];
    assert(q@ == seq!['\'']);
    assert(esc@ == seq!['\'', '\\', '\'', '\'']);
    let body = replace_all_exec(&chars_of(s), &q, &esc);
    let mut out = q.clone();
    let mut i: usize = 0;
    while i < body.len()
        invariant
            i <= body.len(),
            out@ == seq!['\''] + body@.take(i as int),
        decreases body.len() - i,
    {
        out.push(body[i]);
        i = i + 1;
        assert(out@ =~= seq!['\''] + body@.take(i as int));
    }
    out.push('\'');
    assert(body@.take(body.len() as int) =~= body@);
    assert(out@ =~= shell_quoted(s@));
    string_of(&out)
}

/// The command line a watch pane runs on a POSIX host:
/// `<exe> watch --interval <n> <command>`, both paths quoted as shell words.
pub fn watch_invocation(exe: &str, interval_secs: u64, command: &str) -> (r: String)
    ensures
        r@ == shell_quoted(exe@) + " watch --interval "@ + decimal(interval_secs as nat) + " "@
            + shell_quoted(command@),
{
    let mut v = chars_of(quote_shell_arg(exe).as_str());
    extend_str(&mut v, " watch --interval ");
    push_decimal(&mut v, interval_secs);
    extend_str(&mut v, " ");
    extend_str(&mut v, quote_shell_arg(command).as_str());
    string_of(&v)
}

/// The command line a watch pane runs on a Windows host: the executable
/// path verbatim and the command in Rust's `Debug` quoting.
pub fn watch_invocation_windows(exe: &str, interval_secs: u64, command: &str) -> (r: String)
    ensures
        r@ == exe@ + " watch --interval "@ + decimal(interval_secs as nat) + " "@ + debug_quoted(command@),
{
    let mut v = chars_of(exe);
    extend_str(&mut v, " watch --interval ");
    push_decimal(&mut v, interval_secs);
    extend_str(&mut v, " ");
    extend_str(&mut v, debug_str(command).as_str());
    string_of(&v)
}

// ---------------------------------------------------------------------------
// The reactive pool
// ---------------------------------------------------------------------------

/// The reactive panes of a mode, allocated round-robin.
#[derive(Debug)]
pub struct ReactivePool {
    pane_ids: Vec<String>,
    next: usize,
}

/// The ids of a pool, as strings.
pub open spec fn ids_view(v: Seq<String>) -> Seq<Seq<char>> {
    v.map_values(|s: String| s@)
}

impl ReactivePool {
    /// The pane ids, in order.
    pub closed spec fn ids(self) -> Seq<Seq<char>> {
        ids_view(self.pane_ids@)
    }

    /// The index of the pane the next allocation hands out.
    pub closed spec fn cursor(self) -> nat {
        self.next as nat
    }

    /// The cursor is on a pane, or at 0 when there is none.
    pub open spec fn cursor_ok(self) -> bool {
        if self.ids().len() == 0 { self.cursor() == 0 } else { self.cursor() < self.ids().len() }
    }

    /// An empty pool.
    pub fn new() -> (p: ReactivePool)
        ensures
            p.ids() == Seq::<Seq<char>>::empty(),
            p.cursor() == 0,
            p.cursor_ok(),
    {
        let p = ReactivePool { pane_ids: Vec::new(), next: 0 };
        assert(p.ids() =~= Seq::<Seq<char>>::empty());
        p
    }

    /// Add a pane at the end of the rotation.
    pub fn add(&mut self, pane_id: String)
        requires
            old(self).cursor_ok(),
        ensures
            final(self).ids() == old(self).ids().push(pane_id@),
            final(self).cursor() == old(self).cursor(),
            final(self).cursor_ok(),
    {
        self.pane_ids.push(pane_id);
        assert(ids_view(self.pane_ids@) =~= ids_view(old(self).pane_ids@).push(pane_id@));
    }

    /// The pane at the cursor, advancing the cursor cyclically; `None` for
    /// an empty pool.
    pub fn allocate(&mut self) -> (r: Option<String>)
        requires
            old(self).cursor_ok(),
        ensures
            final(self).ids() == old(self).ids(),
            final(self).cursor_ok(),
            old(self).ids().len() == 0 ==> r is None && final(self).cursor() == old(self).cursor(),
            old(self).ids().len() > 0 ==> r is Some && r->Some_0@ == old(self).ids()[old(self).cursor() as int]
                && final(self).cursor() == (old(self).cursor() + 1) % old(self).ids().len(),
    {
        if self.pane_ids.len() == 0 {
            return None;
        }
        let ghost len = self.pane_ids@.len() as int;
        let id = owned(self.pane_ids[self.next].as_str());
        assert(ids_view(self.pane_ids@)[self.next as int] == self.pane_ids@[self.next as int]@);
        let n = if self.next + 1 == self.pane_ids.len() { 0 } else { self.next + 1 };
        proof {
            if self.next + 1 == len {
                vstd::arithmetic::div_mod::lemma_mod_self_0(len);
            } else {
                vstd::arithmetic::div_mod::lemma_small_mod((self.next + 1) as nat, len as nat);
            }
        }
        self.next = n;
        Some(id)
    }

    /// The pane ids, in order.
    pub fn all_ids(&self) -> (r: &[String])
        ensures
            ids_view(r@) == self.ids(),
    {
        self.pane_ids.as_slice()
    }

    /// Replace the first pane named `old_id` by `new_id`; nothing when no
    /// pane has that id.
    pub fn replace(&mut self, old_id: &str, new_id: String)
        requires
            old(self).cursor_ok(),
        ensures
            final(self).cursor() == old(self).cursor(),
            final(self).cursor_ok(),
            match old(self).ids().index_of_first(old_id@) {
                Some(i) => final(self).ids() == old(self).ids().update(i, new_id@),
                None => final(self).ids() == old(self).ids(),
            },
    {
        let mut i: usize = 0;
        while i < self.pane_ids.len()
            invariant
                i <= self.pane_ids@.len(),
                self.pane_ids@ == old(self).pane_ids@,
                self.next == old(self).next,
                old(self).cursor_ok(),
                forall|j: int| 0 <= j < i ==> (#[trigger] self.pane_ids@[j])@ != old_id@,
            decreases self.pane_ids@.len() - i,
        {
            if str_eq(self.pane_ids[i].as_str(), old_id) {
                proof {
                    let ids = ids_view(old(self).pane_ids@);
                    assert(ids[i as int] == old_id@);
                    assert forall|j: int| 0 <= j < i implies ids[j] != old_id@ by {
                        assert(ids[j] == old(self).pane_ids@[j]@);
                    }
                    lemma_first_index(ids, old_id@, i as int);
                }
                let mut ids = Vec::new();
                std::mem::swap(&mut ids, &mut self.pane_ids);
                ids.set(i, new_id);
                self.pane_ids = ids;
                assert(ids_view(self.pane_ids@) =~= ids_view(old(self).pane_ids@).update(i as int, new_id@));
                assert(ids_view(self.pane_ids@).len() == ids_view(old(self).pane_ids@).len());
                return;
            }
            i = i + 1;
        }
        proof {
            let ids = ids_view(old(self).pane_ids@);
            assert forall|j: int| 0 <= j < ids.len() implies ids[j] != old_id@ by {
                assert(ids[j] == old(self).pane_ids@[j]@);
            }
            ids.index_of_first_ensures(old_id@);
        }
    }

    /// Drop every pane named in `gone`, re-clamping the cursor to the
    /// remaining panes.
    pub fn forget(&mut self, gone: &[String])
        ensures
            final(self).ids() == old(self).ids().filter(kept_by(ids_view(gone@))),
            final(self).cursor_ok(),
            final(self).ids().len() == 0 ==> final(self).cursor() == 0,
            final(self).ids().len() > 0 ==> final(self).cursor() == old(self).cursor() % final(self).ids().len(),
    {
        let mut kept: Vec<String> = Vec::new();
        let mut i: usize = 0;
        let ghost keep = kept_by(ids_view(gone@));
        while i < self.pane_ids.len()
            invariant
                i <= self.pane_ids@.len(),
                self.pane_ids@ == old(self).pane_ids@,
                self.next == old(self).next,
                keep == kept_by(ids_view(gone@)),
                ids_view(kept@) == ids_view(self.pane_ids@.take(i as int)).filter(keep),
            decreases self.pane_ids@.len() - i,
        {
            let ghost pre = ids_view(self.pane_ids@.take(i as int));
            let id = &self.pane_ids[i];
            assert(ids_view(self.pane_ids@.take(i + 1)) =~= pre.push(id@));
            assert(pre.push(id@).filter(keep) == if keep(id@) { pre.filter(keep).push(id@) } else { pre.filter(keep) }) by {
                reveal(Seq::filter);
                assert(pre.push(id@).drop_last() =~= pre);
            }
            if !contains_id(gone, id.as_str()) {
                assert(keep(id@));
                let ghost before = kept@;
                kept.push(owned(id.as_str()));
                assert(ids_view(kept@) =~= ids_view(before).push(id@));
                assert(ids_view(kept@) =~= ids_view(self.pane_ids@.take(i + 1)).filter(keep));
            } else {
                assert(!keep(id@));
            }
            i = i + 1;
        }
        assert(self.pane_ids@.take(self.pane_ids@.len() as int) =~= self.pane_ids@);
        let n = if kept.len() == 0 { 0 } else { self.next % kept.len() };
        self.pane_ids = kept;
        self.next = n;
    }
}

/// Keep the ids not named in `gone`.
pub open spec fn kept_by(gone: Seq<Seq<char>>) -> spec_fn(Seq<char>) -> bool {
    |id: Seq<char>| !gone.contains(id)
}

/// The first occurrence of `x` in `s` is at `i`.
proof fn lemma_first_index(s: Seq<Seq<char>>, x: Seq<char>, i: int)
    requires
        0 <= i < s.len(),
        s[i] == x,
        forall|j: int| 0 <= j < i ==> s[j] != x,
    ensures
        s.index_of_first(x) == Some(i),
{
    s.index_of_first_ensures(x);
    assert(s.contains(x));
    let k = s.index_of_first(x)->Some_0;
    if k < i {
        assert(s[k] != x);
    }
    if k > i {
        assert(s[i] != x);
    }
}

/// Whether `ids` names `id`.
pub fn contains_id(ids: &[String], id: &str) -> (b: bool)
    ensures
        b == ids_view(ids@).contains(id@),
{
    let mut i: usize = 0;
    while i < ids.len()
        invariant
            i <= ids@.len(),
            forall|j: int| 0 <= j < i ==> (#[trigger] ids@[j])@ != id@,
        decreases ids@.len() - i,
    {
        if str_eq(ids[i].as_str(), id) {
            assert(ids_view(ids@)[i as int] == id@);
            return true;
        }
        i = i + 1;
    }
    assert forall|j: int| 0 <= j < ids_view(ids@).len() implies ids_view(ids@)[j] != id@ by {
        assert(ids_view(ids@)[j] == ids@[j]@);
    }
    false
}

/// Successive allocations from a non-empty pool visit its panes in order,
/// wrapping around: if the cursor is `(c + k) % len` after `k`
/// allocations, it is `(c + k + 1) % len` after one more.
pub proof fn lemma_allocate_round_robin(len: int, c: int, k: int)
    requires
        len > 0,
        0 <= c < len,
        k >= 0,
    ensures
        0 <= (c + k) % len < len,
        ((c + k) % len + 1) % len == (c + k + 1) % len,
{
    vstd::arithmetic::div_mod::lemma_mod_bound(c + k, len);
    vstd::arithmetic::div_mod::lemma_add_mod_noop(c + k, 1, len);
    if len == 1 {
        assert(1int % 1 == 0);
        assert(((c + k) % len + 1) % len == 0) by (nonlinear_arith)
            requires len == 1;
        assert((c + k + 1) % len == 0) by (nonlinear_arith)
            requires len == 1;
    } else {
        vstd::arithmetic::div_mod::lemma_small_mod(1, len as nat);
    }
}

// ---------------------------------------------------------------------------
// Rule patterns
// ---------------------------------------------------------------------------

/// The `Display` text of `regex::Regex::new`'s error on `pattern`, or
/// `None` when the pattern compiles.
pub uninterp spec fn regex_compile_error(pattern: Seq<char>) -> Option<Seq<char>>;

/// Whether the regex compiled from `pattern` matches somewhere in `text`
/// (`regex::Regex::is_match`).
pub uninterp spec fn regex_matches(pattern: Seq<char>, text: Seq<char>) -> bool;

/// `regex::Regex::new(pattern)`, reduced to its error text (`None` when
/// the pattern compiles).
#[verifier::external_body]
fn pattern_error(pattern: &str) -> (r: Option<String>)
    ensures
        match r {
            Some(e) => regex_compile_error(pattern@) == Some(e@),
            None => regex_compile_error(pattern@) is None,
        },
{
    match regex::Regex::new(pattern) {
        Ok(_) => None,
        Err(e) => Some(e.to_string()),
    }
}

/// `regex::Regex::new(pattern)?.is_match(text)` for a pattern known to
/// compile.
#[verifier::external_body]
fn pattern_is_match(pattern: &str, text: &str) -> (b: bool)
    requires
        regex_compile_error(pattern@) is None,
    ensures
        b == regex_matches(pattern@, text@),
{
    match regex::Regex::new(pattern) {
        Ok(re) => re.is_match(text),
        Err(_) => false,
    }
}

// ---------------------------------------------------------------------------
// Mode configuration and errors
// ---------------------------------------------------------------------------

/// A persistent pane of a mode.
#[derive(Debug, Clone, PartialEq, Eq)]
pub struct PaneConfig {
    pub name: Option<String>,
    pub command: String,
    pub watch: bool,
}

/// A rule routing matching commands to a reactive pane.
#[derive(Debug, Clone, PartialEq, Eq)]
pub struct RuleConfig {
    pub pattern: String,
    pub watch: bool,
    pub interval: Option<u64>,
}

/// A mode: its panes, its rules, and how many reactive panes it keeps.
#[derive(Debug, Clone, PartialEq, Eq)]
pub struct ModeConfig {
    pub name: String,
    pub init_command: Option<String>,
    pub panes: Vec<PaneConfig>,
    pub rules: Vec<RuleConfig>,
    pub reactive_panes: usize,
}

/// A failure of the pane backend.
#[derive(Debug, Clone, PartialEq, Eq)]
pub enum PaneError {
    CommandFailed(String),
}

/// What a mode operation can fail with.
#[derive(Debug, Clone, PartialEq, Eq)]
pub enum ModeManagerError {
    InvalidPattern { pattern: String, source: String },
    Pane(PaneError),
    NoActiveMode,
}

/// What a routed command changed in the pane layout.
#[derive(Debug, Clone, PartialEq, Eq)]
pub struct PaneChange {
    pub closed: Option<String>,
    pub created: Option<String>,
}

/// A command queued for a pane until its shell is ready.
#[derive(Debug, Clone, PartialEq, Eq)]
pub struct PendingCommand {
    pub pane_id: String,
    pub init_command: Option<String>,
    pub command: String,
}

struct CompiledRule {
    pattern: String,
    watch: bool,
    interval: Option<u64>,
}

struct ActiveMode {
    name: String,
    has_init: bool,
    compiled_rules: Vec<CompiledRule>,
    persistent_pane_ids: Vec<String>,
    reactive_pool: ReactivePool,
    pending_commands: Vec<PendingCommand>,
}

/// The line that clears a reactive pane's prompt and screen.
pub const CLEAR_PROMPT_LINE: &'static str = "export PS1= PS2= PROMPT= && printf '\\x1b[3J\\x1b[2J\\x1b[H'";

/// The mode manager: the active mode's panes and rules.
pub struct ModeManager {
    active_mode: Option<ActiveMode>,
    cwd: Option<String>,
    side_pane_dims: (u16, u16),
}

impl ModeManager {
    /// The active mode's name.
    pub closed spec fn active_name(self) -> Option<Seq<char>> {
        match self.active_mode {
            Some(m) => Some(m.name@),
            None => None,
        }
    }

    /// The active mode's rules: (pattern, watch, interval).
    pub closed spec fn rules(self) -> Seq<(Seq<char>, bool, Option<u64>)> {
        match self.active_mode {
            Some(m) => m.compiled_rules@.map_values(|r: CompiledRule| (r.pattern@, r.watch, r.interval)),
            None => Seq::empty(),
        }
    }

    /// The active mode's persistent pane ids.
    pub closed spec fn persistent(self) -> Seq<Seq<char>> {
        match self.active_mode {
            Some(m) => ids_view(m.persistent_pane_ids@),
            None => Seq::empty(),
        }
    }

    /// The active mode's reactive pane ids, in rotation order.
    pub closed spec fn reactive(self) -> Seq<Seq<char>> {
        match self.active_mode {
            Some(m) => m.reactive_pool.ids(),
            None => Seq::empty(),
        }
    }

    /// The reactive pane the next routed command goes to.
    pub closed spec fn reactive_cursor(self) -> nat {
        match self.active_mode {
            Some(m) => m.reactive_pool.cursor(),
            None => 0,
        }
    }

    /// Whether the active mode has an init command.
    pub closed spec fn has_init(self) -> bool {
        match self.active_mode {
            Some(m) => m.has_init,
            None => false,
        }
    }

    /// The commands still queued for the active mode's panes.
    pub closed spec fn pending(self) -> Seq<PendingCommand> {
        match self.active_mode {
            Some(m) => m.pending_commands@,
            None => Seq::empty(),
        }
    }

    /// The side-pane size (rows, columns) new panes are created with.
    pub closed spec fn dims(self) -> (u16, u16) {
        self.side_pane_dims
    }

    /// The working directory new panes are created in.
    pub closed spec fn cwd_view(self) -> Option<Seq<char>> {
        match self.cwd {
            Some(c) => Some(c@),
            None => None,
        }
    }

    /// The manager's internal consistency: every rule compiles and the
    /// reactive cursor is on a pane.
    pub closed spec fn wf(self) -> bool {
        match self.active_mode {
            Some(m) => m.reactive_pool.cursor_ok() && forall|i: int|
                0 <= i < m.compiled_rules@.len() ==> regex_compile_error(
                    (#[trigger] m.compiled_rules@[i]).pattern@,
                ) is None,
            None => true,
        }
    }

    /// No mode active, side panes of 24 rows by 80 columns.
    pub fn new() -> (m: ModeManager)
        ensures
            m.wf(),
            m.active_name() is None,
            m.dims() == (24u16, 80u16),
            m.cwd_view() is None,
    {
        ModeManager { active_mode: None, cwd: None, side_pane_dims: (24, 80) }
    }

    /// The side-pane size that panes created from now on get.
    pub fn set_side_pane_dims(&mut self, dims: (u16, u16))
        requires
            old(self).wf(),
        ensures
            final(self).wf(),
            final(self).dims() == dims,
            final(self).active_name() == old(self).active_name(),
            final(self).reactive() == old(self).reactive(),
            final(self).persistent() == old(self).persistent(),
            final(self).rules() == old(self).rules(),
            final(self).has_init() == old(self).has_init(),
            final(self).pending() == old(self).pending(),
            final(self).reactive_cursor() == old(self).reactive_cursor(),
            final(self).cwd_view() == old(self).cwd_view(),
    {
        self.side_pane_dims = dims;
    }

    /// The active mode's name.
    pub fn active_mode_name(&self) -> (r: Option<&str>)
        ensures
            match r {
                Some(n) => self.active_name() == Some(n@),
                None => self.active_name() is None,
            },
    {
        match &self.active_mode {
            Some(m) => Some(m.name.as_str()),
            None => None,
        }
    }

    /// Every pane the active mode manages: the persistent ones, then the
    /// reactive ones.
    pub fn managed_pane_ids(&self) -> (r: Vec<String>)
        ensures
            ids_view(r@) == self.persistent() + self.reactive(),
    {
        match &self.active_mode {
            Some(mode) => {
                let mut ids: Vec<String> = Vec::new();
                let mut i: usize = 0;
                while i < mode.persistent_pane_ids.len()
                    invariant
                        i <= mode.persistent_pane_ids@.len(),
                        ids_view(ids@) == ids_view(mode.persistent_pane_ids@.take(i as int)),
                    decreases mode.persistent_pane_ids@.len() - i,
                {
                    let ghost before = ids@;
                    ids.push(owned(mode.persistent_pane_ids[i].as_str()));
                    assert(ids_view(ids@) =~= ids_view(before).push(mode.persistent_pane_ids@[i as int]@));
                    assert(mode.persistent_pane_ids@.take(i + 1) =~= mode.persistent_pane_ids@.take(i as int).push(
                        mode.persistent_pane_ids@[i as int],
                    ));
                    i = i + 1;
                    assert(ids_view(ids@) =~= ids_view(mode.persistent_pane_ids@.take(i as int)));
                }
                assert(mode.persistent_pane_ids@.take(i as int) =~= mode.persistent_pane_ids@);
                let reactive = mode.reactive_pool.all_ids();
                let ghost base = ids@;
                let mut j: usize = 0;
                while j < reactive.len()
                    invariant
                        j <= reactive@.len(),
                        ids_view(ids@) == ids_view(base) + ids_view(reactive@.take(j as int)),
                    decreases reactive@.len() - j,
                {
                    let ghost before = ids@;
                    ids.push(owned(reactive[j].as_str()));
                    assert(ids_view(ids@) =~= ids_view(before).push(reactive@[j as int]@));
                    assert(reactive@.take(j + 1) =~= reactive@.take(j as int).push(reactive@[j as int]));
                    j = j + 1;
                    assert(ids_view(ids@) =~= ids_view(base) + ids_view(reactive@.take(j as int)));
                }
                assert(reactive@.take(j as int) =~= reactive@);
                ids
            },
            None => {
                let ids: Vec<String> = Vec::new();
                assert(ids_view(ids@) =~= Seq::<Seq<char>>::empty() + Seq::<Seq<char>>::empty());
                ids
            },
        }
    }

    /// Whether `pane_id` is one of the active mode's reactive panes.
    pub fn is_reactive_pane(&self, pane_id: &str) -> (b: bool)
        ensures
            b == self.reactive().contains(pane_id@),
    {
        match &self.active_mode {
            Some(m) => contains_id(m.reactive_pool.all_ids(), pane_id),
            None => false,
        }
    }

    /// Forget panes that are gone: drop them from the persistent list, the
    /// reactive rotation and the pending commands.
    pub fn forget_panes(&mut self, gone: &[String])
        requires
            old(self).wf(),
        ensures
            final(self).wf(),
            final(self).active_name() == old(self).active_name(),
            final(self).persistent() == old(self).persistent().filter(kept_by(ids_view(gone@))),
            final(self).reactive() == old(self).reactive().filter(kept_by(ids_view(gone@))),
            final(self).pending() == old(self).pending().filter(
                |p: PendingCommand| !ids_view(gone@).contains(p.pane_id@),
            ),
            final(self).rules() == old(self).rules(),
            final(self).has_init() == old(self).has_init(),
            final(self).dims() == old(self).dims(),
            final(self).cwd_view() == old(self).cwd_view(),
            final(self).reactive().len() == 0 ==> final(self).reactive_cursor() == 0,
            final(self).reactive().len() > 0 ==> final(self).reactive_cursor() == old(self).reactive_cursor()
                % final(self).reactive().len(),
    {
        let mut mode = match self.active_mode.take() {
            Some(m) => m,
            None => return,
        };
        let mut kept: Vec<String> = Vec::new();
        let mut i: usize = 0;
        while i < mode.persistent_pane_ids.len()
            invariant
                i <= mode.persistent_pane_ids@.len(),
                ids_view(kept@) == ids_view(mode.persistent_pane_ids@.take(i as int)).filter(kept_by(ids_view(gone@))),
            decreases mode.persistent_pane_ids@.len() - i,
        {
            let ghost pre = ids_view(mode.persistent_pane_ids@.take(i as int));
            let id = &mode.persistent_pane_ids[i];
            assert(ids_view(mode.persistent_pane_ids@.take(i + 1)) =~= pre.push(id@));
            assert(pre.push(id@).filter(kept_by(ids_view(gone@))) == if kept_by(ids_view(gone@))(id@) {
                pre.filter(kept_by(ids_view(gone@))).push(id@)
            } else {
                pre.filter(kept_by(ids_view(gone@)))
            }) by {
                reveal(Seq::filter);
                assert(pre.push(id@).drop_last() =~= pre);
            }
            if !contains_id(gone, id.as_str()) {
                let ghost before = kept@;
                kept.push(owned(id.as_str()));
                assert(ids_view(kept@) =~= ids_view(before).push(id@));
            }
            i = i + 1;
        }
        assert(mode.persistent_pane_ids@.take(i as int) =~= mode.persistent_pane_ids@);
        mode.persistent_pane_ids = kept;
        mode.reactive_pool.forget(gone);
        let mut all: Vec<PendingCommand> = Vec::new();
        std::mem::swap(&mut all, &mut mode.pending_commands);
        let ghost orig = all@;
        let mut pending: Vec<PendingCommand> = Vec::new();
        let ghost pkeep = |p: PendingCommand| !ids_view(gone@).contains(p.pane_id@);
        let ghost mut k: int = 0;
        while all.len() > 0
            invariant
                0 <= k <= orig.len(),
                all@ == orig.skip(k),
                pkeep == (|p: PendingCommand| !ids_view(gone@).contains(p.pane_id@)),
                pending@ == orig.take(k).filter(pkeep),
            decreases all@.len(),
        {
            let ghost pre = orig.take(k);
            let p = all.remove(0);
            assert(p == orig[k]);
            assert(orig.take(k + 1) =~= pre.push(p));
            assert(pre.push(p).filter(pkeep) == if pkeep(p) { pre.filter(pkeep).push(p) } else { pre.filter(pkeep) }) by {
                reveal(Seq::filter);
                assert(pre.push(p).drop_last() =~= pre);
            }
            if !contains_id(gone, p.pane_id.as_str()) {
                pending.push(p);
            }
            proof {
                k = k + 1;
            }
            assert(all@ =~= orig.skip(k));
        }
        assert(orig.take(k) =~= orig);
        mode.pending_commands = pending;
        self.active_mode = Some(mode);
    }
}

// ---------------------------------------------------------------------------
// Deactivation, pending commands
// ---------------------------------------------------------------------------

/// The lines written to a pane for one pending command, in order: the init
/// command, the command when it is not empty, and the prompt-clearing line
/// for a reactive pane.
pub open spec fn pending_lines(p: PendingCommand, reactive: bool) -> Seq<Seq<char>> {
    (match p.init_command {
        Some(i) => seq![i@],
        None => Seq::empty(),
    }) + (if p.command@.len() > 0 { seq![p.command@] } else { Seq::empty() })
        + (if reactive { seq![CLEAR_PROMPT_LINE@] } else { Seq::empty() })
}

/// One pending command and the lines to write for it.
#[derive(Debug)]
pub struct PaneWrite {
    pub pending: PendingCommand,
    pub lines: Vec<String>,
}

impl ModeManager {
    /// End the active mode: the ids of its panes, persistent ones first,
    /// for the caller to close.
    pub fn deactivate_mode(&mut self) -> (r: Result<Vec<String>, ModeManagerError>)
        requires
            old(self).wf(),
        ensures
            final(self).wf(),
            final(self).active_name() is None,
            final(self).dims() == old(self).dims(),
            final(self).cwd_view() == old(self).cwd_view(),
            old(self).active_name() is None ==> r == Err::<Vec<String>, ModeManagerError>(ModeManagerError::NoActiveMode),
            old(self).active_name() is Some ==> r is Ok && ids_view(r->Ok_0@) == old(self).persistent() + old(self).reactive(),
    {
        let ids = self.managed_pane_ids();
        match self.active_mode.take() {
            Some(_) => Ok(ids),
            None => Err(ModeManagerError::NoActiveMode),
        }
    }

    /// Take the queued commands with the lines to write for each; the
    /// caller writes them as [`command_write_step`] asks and hands the
    /// entries it returns back to [`ModeManager::requeue_pending`].
    pub fn start_mode_commands(&mut self) -> (r: Result<Vec<PaneWrite>, ModeManagerError>)
        requires
            old(self).wf(),
        ensures
            final(self).wf(),
            final(self).active_name() == old(self).active_name(),
            final(self).reactive() == old(self).reactive(),
            final(self).persistent() == old(self).persistent(),
            final(self).reactive_cursor() == old(self).reactive_cursor(),
            final(self).rules() == old(self).rules(),
            final(self).has_init() == old(self).has_init(),
            final(self).dims() == old(self).dims(),
            final(self).cwd_view() == old(self).cwd_view(),
            old(self).active_name() is None ==> r == Err::<Vec<PaneWrite>, ModeManagerError>(ModeManagerError::NoActiveMode),
            old(self).active_name() is Some ==> r is Ok && final(self).pending().len() == 0
                && r->Ok_0@.len() == old(self).pending().len()
                && forall|i: int| 0 <= i < r->Ok_0@.len() ==> {
                    let w = #[trigger] r->Ok_0@[i];
                    &&& w.pending == old(self).pending()[i]
                    &&& ids_view(w.lines@) == pending_lines(w.pending, old(self).reactive().contains(w.pending.pane_id@))
                },
    {
        let mut mode = match self.active_mode.take() {
            Some(m) => m,
            None => return Err(ModeManagerError::NoActiveMode),
        };
        let mut all: Vec<PendingCommand> = Vec::new();
        std::mem::swap(&mut all, &mut mode.pending_commands);
        let ghost orig = all@;
        let mut out: Vec<PaneWrite> = Vec::new();
        let ghost mut k: int = 0;
        while all.len() > 0
            invariant
                0 <= k <= orig.len(),
                all@ == orig.skip(k),
                out@.len() == k,
                mode.reactive_pool.cursor_ok(),
                forall|i: int| 0 <= i < k ==> {
                    let w = #[trigger] out@[i];
                    &&& w.pending == orig[i]
                    &&& ids_view(w.lines@) == pending_lines(w.pending, mode.reactive_pool.ids().contains(w.pending.pane_id@))
                },
            decreases all@.len(),
        {
            let p = all.remove(0);
            assert(p == orig[k]);
            let reactive = contains_id(mode.reactive_pool.all_ids(), p.pane_id.as_str());
            let mut lines: Vec<String> = Vec::new();
            match &p.init_command {
                Some(i) => lines.push(owned(i.as_str())),
                None => {},
            }
            let ghost l1 = lines@;
            if chars_of(p.command.as_str()).len() > 0 {
                lines.push(owned(p.command.as_str()));
            }
            let ghost l2 = lines@;
            if reactive {
                lines.push(owned(CLEAR_PROMPT_LINE));
            }
            assert(ids_view(lines@) =~= pending_lines(p, reactive));
            out.push(PaneWrite { pending: p, lines });
            proof {
                k = k + 1;
            }
            assert(all@ =~= orig.skip(k));
        }
        self.active_mode = Some(mode);
        Ok(out)
    }

    /// Queue again the commands whose writes failed.
    pub fn requeue_pending(&mut self, failed: Vec<PendingCommand>)
        requires
            old(self).wf(),
        ensures
            final(self).wf(),
            final(self).active_name() == old(self).active_name(),
            final(self).reactive() == old(self).reactive(),
            final(self).persistent() == old(self).persistent(),
            final(self).reactive_cursor() == old(self).reactive_cursor(),
            final(self).rules() == old(self).rules(),
            final(self).has_init() == old(self).has_init(),
            final(self).dims() == old(self).dims(),
            final(self).cwd_view() == old(self).cwd_view(),
            old(self).active_name() is Some ==> final(self).pending() == old(self).pending() + failed@,
    {
        match self.active_mode.take() {
            Some(mut mode) => {
                let mut f = failed;
                mode.pending_commands.append(&mut f);
                self.active_mode = Some(mode);
            },
            None => {},
        }
    }
}

// ---------------------------------------------------------------------------
// Writing the queued commands
// ---------------------------------------------------------------------------

/// The writes of one [`ModeManager::start_mode_commands`] call in progress:
/// the entries, the line of `writes[entry]` written last or next, and the
/// entries to queue again so far.
#[derive(Debug)]
pub struct CommandWrites {
    pub writes: Vec<PaneWrite>,
    pub entry: usize,
    pub line: usize,
    pub failed: Vec<PendingCommand>,
}

/// A report from the caller.
#[derive(Debug, Clone, Copy, PartialEq, Eq)]
pub enum WriteEvent {
    Started,
    /// Whether the asked-for write succeeded.
    Wrote(bool),
}

/// What the caller is asked to do next.
#[derive(Debug)]
pub enum WriteAction {
    /// Write `line` to `pane_id`; report `Wrote`.
    Write { pane_id: String, line: String },
    /// Every entry is done: queue these again
    /// ([`ModeManager::requeue_pending`]).
    Done(Vec<PendingCommand>),
}

/// The first line still to write at or after line `l` of entry `e`: the
/// entry, and the line within it (`writes.len()` when none is left).
pub open spec fn next_write_at(writes: Seq<PaneWrite>, e: int, l: int) -> (int, int)
    decreases writes.len() - e,
{
    if e < 0 || e >= writes.len() {
        (writes.len() as int, 0)
    } else if l < writes[e].lines@.len() {
        (e, l)
    } else {
        next_write_at(writes, e + 1, 0)
    }
}

/// Where writing goes on after `event` from line `l` of entry `e`: the first
/// entry at the start, the next line after a success, and the next entry
/// after a failure, so nothing more is written to a pane whose write failed.
pub open spec fn after_write(writes: Seq<PaneWrite>, e: int, l: int, event: WriteEvent) -> (int, int) {
    match event {
        WriteEvent::Started => next_write_at(writes, 0, 0),
        WriteEvent::Wrote(true) => next_write_at(writes, e, l + 1),
        WriteEvent::Wrote(false) => next_write_at(writes, e + 1, 0),
    }
}

proof fn lemma_next_write_not_before(writes: Seq<PaneWrite>, e: int, l: int)
    requires
        0 <= e <= writes.len(),
    ensures
        next_write_at(writes, e, l).0 >= e,
        next_write_at(writes, e, l).0 == e && e < writes.len() ==> next_write_at(writes, e, l).1 == l,
    decreases writes.len() - e,
{
    if e < writes.len() && l >= writes[e].lines@.len() {
        lemma_next_write_not_before(writes, e + 1, 0);
    }
}

/// A pane whose write failed gets no further line of that entry: writing
/// goes on at a later entry. After a success it goes on at the next line of
/// the same entry or later.
pub proof fn lemma_failed_write_ends_entry(writes: Seq<PaneWrite>, e: int, l: int)
    requires
        0 <= e < writes.len(),
    ensures
        after_write(writes, e, l, WriteEvent::Wrote(false)).0 > e,
        after_write(writes, e, l, WriteEvent::Wrote(true)).0 > e
            || after_write(writes, e, l, WriteEvent::Wrote(true)) == (e, l + 1),
{
    lemma_next_write_not_before(writes, e + 1, 0);
    lemma_next_write_not_before(writes, e, l + 1);
}

pub open spec fn pendings_view(s: Seq<PendingCommand>) -> Seq<(Seq<char>, Option<Seq<char>>, Seq<char>)> {
    s.map_values(|p: PendingCommand| pending_view(p))
}

/// A state that waits for `event`.
pub open spec fn write_expects(st: CommandWrites, event: WriteEvent) -> bool {
    match event {
        WriteEvent::Started => st.entry == 0 && st.line == 0 && st.failed@.len() == 0,
        WriteEvent::Wrote(_) => st.entry < st.writes@.len() && st.line < st.writes@[st.entry as int].lines@.len(),
    }
}

/// The writes of `writes`, none done yet.
pub fn new_command_writes(writes: Vec<PaneWrite>) -> (st: CommandWrites)
    ensures
        st.writes@ == writes@,
        write_expects(st, WriteEvent::Started),
{
    CommandWrites { writes, entry: 0, line: 0, failed: Vec::new() }
}

fn copy_pending(p: &PendingCommand) -> (r: PendingCommand)
    ensures
        pending_view(r) == pending_view(*p),
{
    let init_command = match &p.init_command {
        Some(i) => Some(owned(i.as_str())),
        None => None,
    };
    PendingCommand { pane_id: owned(p.pane_id.as_str()), init_command, command: owned(p.command.as_str()) }
}

/// One step of writing the queued commands: each entry's lines go to its
/// pane in order; the first failed write of an entry ends that entry, which
/// is queued again, and writing goes on with the next entry. When every
/// entry is done the entries to queue again are handed back, in order:
/// exactly those with a failed write.
pub fn command_write_step(st: &mut CommandWrites, event: WriteEvent) -> (act: WriteAction)
    requires
        write_expects(*old(st), event),
    ensures
        final(st).writes@ == old(st).writes@,
        ({
            let (e, l) = after_write(old(st).writes@, old(st).entry as int, old(st).line as int, event);
            let failed = pendings_view(old(st).failed@) + (if event == WriteEvent::Wrote(false) {
                seq![pending_view(old(st).writes@[old(st).entry as int].pending)]
            } else {
                Seq::empty()
            });
            if e < old(st).writes@.len() {
                &&& final(st).entry == e && final(st).line == l
                &&& pendings_view(final(st).failed@) == failed
                &&& write_expects(*final(st), WriteEvent::Wrote(true))
                &&& match act {
                    WriteAction::Write { pane_id, line } => pane_id@ == old(st).writes@[e].pending.pane_id@
                        && line@ == old(st).writes@[e].lines@[l]@,
                    _ => false,
                }
            } else {
                match act {
                    WriteAction::Done(f) => pendings_view(f@) == failed,
                    _ => false,
                }
            }
        }),
{
    let ghost old_failed = st.failed@;
    let (mut e, mut l) = match event {
        WriteEvent::Started => (0usize, 0usize),
        WriteEvent::Wrote(true) => {
            let _count = st.writes[st.entry].lines.len();
            (st.entry, st.line + 1)
        },
        WriteEvent::Wrote(false) => {
            let _count = st.writes.len();
            let p = copy_pending(&st.writes[st.entry].pending);
            st.failed.push(p);
            (st.entry + 1, 0usize)
        },
    };
    assert(pendings_view(st.failed@) =~= pendings_view(old_failed) + (if event == WriteEvent::Wrote(false) {
        seq![pending_view(st.writes@[old(st).entry as int].pending)]
    } else {
        Seq::empty()
    }));
    let ghost target = after_write(st.writes@, old(st).entry as int, old(st).line as int, event);
    assert(next_write_at(st.writes@, e as int, l as int) == target);
    while e < st.writes.len() && l >= st.writes[e].lines.len()
        invariant
            e <= st.writes@.len(),
            next_write_at(st.writes@, e as int, l as int) == target,
        decreases st.writes@.len() - e,
    {
        e = e + 1;
        l = 0;
    }
    if e < st.writes.len() {
        st.entry = e;
        st.line = l;
        let w = &st.writes[e];
        WriteAction::Write { pane_id: owned(w.pending.pane_id.as_str()), line: owned(w.lines[l].as_str()) }
    } else {
        let mut f: Vec<PendingCommand> = Vec::new();
        std::mem::swap(&mut f, &mut st.failed);
        WriteAction::Done(f)
    }
}

// ---------------------------------------------------------------------------
// Routing a command
// ---------------------------------------------------------------------------

/// How a routed command reaches its reactive pane.
#[derive(Debug, Clone, PartialEq, Eq)]
pub enum CommandRoute {
    /// The mode has an init command: interrupt `pane_id` (a `\x03`
    /// write whose failure is ignored), write `line` (its failure is the
    /// command's failure), then rename the pane to `title` (failure
    /// ignored). No pane is closed or created: `pane_id` now runs the
    /// command (see [`routed_pane_change`]).
    Rewrite { pane_id: String, line: String, title: String },
    /// Create a new pane running `command_line`, named `display_name`, in
    /// `cwd` with the side-pane size; on success hand it to
    /// [`ModeManager::reactive_pane_created`] and close `old_pane_id`
    /// (failure ignored).
    Replace { old_pane_id: String, command_line: String, display_name: String, cwd: Option<String>, rows: u16, cols: u16 },
}

/// The first rule (by index) whose pattern matches `command`.
pub open spec fn first_match(rules: Seq<(Seq<char>, bool, Option<u64>)>, command: Seq<char>) -> Option<int> {
    if exists|i: int| 0 <= i < rules.len() && regex_matches(#[trigger] rules[i].0, command) {
        Some(choose|i: int| 0 <= i < rules.len() && regex_matches(#[trigger] rules[i].0, command)
            && forall|j: int| 0 <= j < i ==> !regex_matches(#[trigger] rules[j].0, command))
    } else {
        None
    }
}

/// The command line a matched rule runs.
pub open spec fn routed_line(rule: (Seq<char>, bool, Option<u64>), command: Seq<char>, exe: Seq<char>) -> Seq<char> {
    if rule.1 {
        shell_quoted(exe) + " watch --interval "@ + decimal(
            match rule.2 {
                Some(n) => n as nat,
                None => 5,
            },
        ) + " "@ + shell_quoted(command)
    } else {
        command
    }
}

proof fn lemma_first_match_is(rules: Seq<(Seq<char>, bool, Option<u64>)>, command: Seq<char>, i: int)
    requires
        0 <= i < rules.len(),
        regex_matches(rules[i].0, command),
        forall|j: int| 0 <= j < i ==> !regex_matches(#[trigger] rules[j].0, command),
    ensures
        first_match(rules, command) == Some(i),
{
    let k = choose|k: int| 0 <= k < rules.len() && regex_matches(#[trigger] rules[k].0, command)
        && forall|j: int| 0 <= j < k ==> !regex_matches(#[trigger] rules[j].0, command);
    assert(0 <= k < rules.len() && regex_matches(rules[k].0, command)
        && forall|j: int| 0 <= j < k ==> !regex_matches(#[trigger] rules[j].0, command));
    if k < i {
        assert(!regex_matches(rules[k].0, command));
    }
    if k > i {
        assert(!regex_matches(rules[i].0, command));
    }
}

impl ModeManager {
    /// Route `command` to a reactive pane: the first rule whose pattern
    /// matches picks the command line (a watch rule wraps it in a watch
    /// invocation of `exe`, every `interval` seconds, 5 by default); the
    /// pane is the next one of the rotation. `Ok(None)` when no rule
    /// matches; an error without an active mode or without reactive panes.
    pub fn handle_command(&mut self, command: &str, exe: &str) -> (r: Result<Option<CommandRoute>, ModeManagerError>)
        requires
            old(self).wf(),
        ensures
            final(self).wf(),
            final(self).active_name() == old(self).active_name(),
            final(self).reactive() == old(self).reactive(),
            final(self).persistent() == old(self).persistent(),
            final(self).rules() == old(self).rules(),
            final(self).has_init() == old(self).has_init(),
            final(self).pending() == old(self).pending(),
            final(self).dims() == old(self).dims(),
            final(self).cwd_view() == old(self).cwd_view(),
            old(self).active_name() is None ==> r == Err::<Option<CommandRoute>, ModeManagerError>(ModeManagerError::NoActiveMode),
            old(self).active_name() is Some ==> match first_match(old(self).rules(), command@) {
                None => r == Ok::<Option<CommandRoute>, ModeManagerError>(None)
                    && final(self).reactive_cursor() == old(self).reactive_cursor(),
                Some(i) => if old(self).reactive().len() == 0 {
                    match r {
                        Err(ModeManagerError::Pane(PaneError::CommandFailed(m))) => m@ == "No reactive panes available"@,
                        _ => false,
                    }
                } else {
                    let pane = old(self).reactive()[old(self).reactive_cursor() as int];
                    let line = routed_line(old(self).rules()[i], command@, exe@);
                    &&& final(self).reactive_cursor() == (old(self).reactive_cursor() + 1) % old(self).reactive().len()
                    &&& r is Ok && r->Ok_0 is Some
                    &&& match r->Ok_0->Some_0 {
                        CommandRoute::Rewrite { pane_id, line: l, title } => old(self).has_init() && pane_id@ == pane
                            && l@ == CLEAR_PROMPT_LINE@ + " && "@ + line && title@ == command@,
                        CommandRoute::Replace { old_pane_id, command_line, display_name, cwd, rows, cols } =>
                            !old(self).has_init() && old_pane_id@ == pane && command_line@ == line
                            && display_name@ == command@ && opt_owned_view(cwd) == old(self).cwd_view()
                            && (rows, cols) == old(self).dims(),
                    }
                },
            },
    {
        let mut mode = match self.active_mode.take() {
            Some(m) => m,
            None => return Err(ModeManagerError::NoActiveMode),
        };
        let ghost rules = self_rules(&mode);
        let mut idx: usize = 0;
        let mut found = false;
        assert(rules.len() == mode.compiled_rules@.len());
        while idx < mode.compiled_rules.len() && !found
            invariant
                idx <= mode.compiled_rules@.len(),
                rules == self_rules(&mode),
                rules.len() == mode.compiled_rules@.len(),
                forall|i: int| 0 <= i < mode.compiled_rules@.len() ==> regex_compile_error(
                    (#[trigger] mode.compiled_rules@[i]).pattern@,
                ) is None,
                forall|j: int| 0 <= j < idx ==> !regex_matches(#[trigger] rules[j].0, command@),
                found ==> idx < rules.len() && regex_matches(rules[idx as int].0, command@),
            decreases mode.compiled_rules@.len() - idx + (if found { 0int } else { 1int }),
        {
            assert(rules[idx as int].0 == mode.compiled_rules@[idx as int].pattern@);
            if pattern_is_match(mode.compiled_rules[idx].pattern.as_str(), command) {
                found = true;
            } else {
                idx = idx + 1;
            }
        }
        if !found {
            self.active_mode = Some(mode);
            return Ok(None);
        }
        proof {
            lemma_first_match_is(rules, command@, idx as int);
        }
        let old_pane_id = match mode.reactive_pool.allocate() {
            Some(id) => id,
            None => {
                self.active_mode = Some(mode);
                return Err(ModeManagerError::Pane(PaneError::CommandFailed(owned("No reactive panes available"))));
            },
        };
        let rule = &mode.compiled_rules[idx];
        let pane_cmd = if rule.watch {
            let interval_secs: u64 = match rule.interval {
                Some(n) => n,
                None => 5,
            };
            watch_invocation(exe, interval_secs, command)
        } else {
            owned(command)
        };
        let route = if mode.has_init {
            let mut l = chars_of(CLEAR_PROMPT_LINE);
            extend_str(&mut l, " && ");
            extend_str(&mut l, pane_cmd.as_str());
            CommandRoute::Rewrite { pane_id: old_pane_id, line: string_of(&l), title: owned(command) }
        } else {
            let cwd = match &self.cwd {
                Some(c) => Some(owned(c.as_str())),
                None => None,
            };
            CommandRoute::Replace {
                old_pane_id,
                command_line: pane_cmd,
                display_name: owned(command),
                cwd,
                rows: self.side_pane_dims.0,
                cols: self.side_pane_dims.1,
            }
        };
        self.active_mode = Some(mode);
        Ok(Some(route))
    }

    /// The replacement pane of a routed command was created: it takes the
    /// old pane's place in the rotation.
    pub fn reactive_pane_created(&mut self, old_pane_id: &str, new_pane_id: String)
        requires
            old(self).wf(),
        ensures
            final(self).wf(),
            final(self).active_name() == old(self).active_name(),
            final(self).reactive_cursor() == old(self).reactive_cursor(),
            final(self).persistent() == old(self).persistent(),
            final(self).pending() == old(self).pending(),
            final(self).rules() == old(self).rules(),
            final(self).has_init() == old(self).has_init(),
            final(self).dims() == old(self).dims(),
            final(self).cwd_view() == old(self).cwd_view(),
            final(self).reactive() == match old(self).reactive().index_of_first(old_pane_id@) {
                Some(i) => old(self).reactive().update(i, new_pane_id@),
                None => old(self).reactive(),
            },
    {
        match self.active_mode.take() {
            Some(mut mode) => {
                mode.reactive_pool.replace(old_pane_id, new_pane_id);
                self.active_mode = Some(mode);
            },
            None => {
                assert(Seq::<Seq<char>>::empty().index_of_first(old_pane_id@) is None) by {
                    Seq::<Seq<char>>::empty().index_of_first_ensures(old_pane_id@);
                }
            },
        }
    }
}

spec fn self_rules(m: &ActiveMode) -> Seq<(Seq<char>, bool, Option<u64>)> {
    m.compiled_rules@.map_values(|r: CompiledRule| (r.pattern@, r.watch, r.interval))
}

pub open spec fn opt_owned_view(o: Option<String>) -> Option<Seq<char>> {
    match o {
        Some(s) => Some(s@),
        None => None,
    }
}

/// What a routed command changed in the pane layout once its pane work
/// succeeded. A command written to the existing pane reports that pane as
/// the one now running it and closes nothing; a replacement reports the
/// closed pane and the `replacement` created in its place.
pub fn routed_pane_change(route: &CommandRoute, replacement: Option<String>) -> (c: PaneChange)
    requires
        route is Replace <==> replacement is Some,
    ensures
        match *route {
            CommandRoute::Rewrite { pane_id, .. } => c.closed is None && opt_owned_view(c.created) == Some(pane_id@),
            CommandRoute::Replace { old_pane_id, .. } => opt_owned_view(c.closed) == Some(old_pane_id@)
                && opt_owned_view(c.created) == opt_owned_view(replacement),
        },
{
    match route {
        CommandRoute::Rewrite { pane_id, .. } => PaneChange { closed: None, created: Some(owned(pane_id.as_str())) },
        CommandRoute::Replace { old_pane_id, .. } => PaneChange {
            closed: Some(owned(old_pane_id.as_str())),
            created: replacement,
        },
    }
}

// ---------------------------------------------------------------------------
// Activating a mode
// ---------------------------------------------------------------------------

/// A mode activation in progress: the compiled rules and the panes created
/// so far.
pub struct Activation {
    rules: Vec<CompiledRule>,
    persistent: Vec<String>,
    pending: Vec<PendingCommand>,
    pool: ReactivePool,
    created: Vec<String>,
    requested: bool,
}

/// The next thing an activation asks for.
#[derive(Debug)]
pub enum ActivationStep {
    /// Create a pane named `display_name` in `cwd` with the side-pane size
    /// and report its id (or the failure) to the next step.
    CreatePane { display_name: String, cwd: Option<String>, rows: u16, cols: u16 },
    /// A creation failed: close these panes (every one created so far);
    /// the activation fails with `error`.
    Failed { close: Vec<String>, error: ModeManagerError },
    /// The mode is active.
    Activated,
}

/// A queued command as (pane, init command, command).
pub open spec fn pending_view(p: PendingCommand) -> (Seq<char>, Option<Seq<char>>, Seq<char>) {
    (p.pane_id@, opt_owned_view(p.init_command), p.command@)
}

/// The commands an activation queues for the panes `created` so far: each
/// persistent pane's (effective) command, then, when the mode has an init
/// command, an empty command for each reactive pane.
pub open spec fn expected_pending(config: ModeConfig, created: Seq<Seq<char>>, exe: Seq<char>) -> Seq<
    (Seq<char>, Option<Seq<char>>, Seq<char>),
> {
    let p = config.panes@.len() as int;
    let n = created.len() as int;
    let init = opt_owned_view(config.init_command);
    let persistent = Seq::new(
        (if n < p { n } else { p }) as nat,
        |i: int| (created[i], init, effective_command(config.panes@[i], exe)),
    );
    let reactive = if init is Some && n > p {
        Seq::new((n - p) as nat, |j: int| (created[p + j], init, Seq::<char>::empty()))
    } else {
        Seq::empty()
    };
    persistent + reactive
}

/// The rules of a configuration, as (pattern, watch, interval).
pub open spec fn config_rules(config: ModeConfig) -> Seq<(Seq<char>, bool, Option<u64>)> {
    config.rules@.map_values(|r: RuleConfig| (r.pattern@, r.watch, r.interval))
}

/// The first rule of `rules` whose pattern does not compile.
pub open spec fn first_bad_rule(rules: Seq<RuleConfig>) -> Option<int> {
    if exists|i: int| 0 <= i < rules.len() && regex_compile_error((#[trigger] rules[i]).pattern@) is Some {
        Some(choose|i: int| 0 <= i < rules.len() && regex_compile_error((#[trigger] rules[i]).pattern@) is Some
            && forall|j: int| 0 <= j < i ==> regex_compile_error((#[trigger] rules[j]).pattern@) is None)
    } else {
        None
    }
}

/// The display name of the `k`th pane an activation creates: the
/// persistent panes (by name, else by command), then `reactive-<i>`.
pub open spec fn activation_pane_name(config: ModeConfig, k: int) -> Seq<char> {
    if k < config.panes@.len() {
        match config.panes@[k].name {
            Some(n) => n@,
            None => config.panes@[k].command@,
        }
    } else {
        "reactive-"@ + decimal((k - config.panes@.len()) as nat)
    }
}

/// The command queued for a persistent pane: its command, or a watch
/// invocation of `exe` every 10 seconds for a watch pane.
pub open spec fn effective_command(pane: PaneConfig, exe: Seq<char>) -> Seq<char> {
    if pane.watch {
        shell_quoted(exe) + " watch --interval "@ + decimal(10) + " "@ + shell_quoted(pane.command@)
    } else {
        pane.command@
    }
}

impl Activation {
    /// The number of panes created so far.
    pub closed spec fn created_count(self) -> nat {
        self.created@.len()
    }

    /// The ids of the panes created so far, in creation order.
    pub closed spec fn created_ids(self) -> Seq<Seq<char>> {
        ids_view(self.created@)
    }

    /// Whether a pane creation has been asked for and not yet reported.
    pub closed spec fn awaiting(self) -> bool {
        self.requested
    }

    /// The activation so far agrees with `config`: its rules, the panes
    /// created (persistent first, then reactive) and the commands queued.
    pub closed spec fn fits(self, config: ModeConfig, exe: Seq<char>) -> bool {
        &&& self.rules@.map_values(|r: CompiledRule| (r.pattern@, r.watch, r.interval)) == config_rules(config)
        &&& forall|i: int| 0 <= i < self.rules@.len() ==> regex_compile_error((#[trigger] self.rules@[i]).pattern@) is None
        &&& self.created@.len() <= config.panes@.len() + config.reactive_panes
        &&& self.pool.cursor_ok()
        &&& self.pool.cursor() == 0
        &&& self.created@.len() <= config.panes@.len() ==> self.persistent@.len() == self.created@.len()
            && self.pool.ids().len() == 0
        &&& self.created@.len() > config.panes@.len() ==> self.persistent@.len() == config.panes@.len()
            && self.pool.ids().len() == self.created@.len() - config.panes@.len()
        &&& ids_view(self.created@) == ids_view(self.persistent@) + self.pool.ids()
        &&& self.pending@.map_values(|p: PendingCommand| pending_view(p)) == expected_pending(
            config, ids_view(self.created@), exe,
        )
        &&& self.requested ==> self.created@.len() < config.panes@.len() + config.reactive_panes
    }

}

impl ModeManager {
    /// Begin activating `config` with working directory `cwd` and
    /// side-pane size `dims`: an active mode is ended first (its panes are
    /// returned for the caller to close), then every rule pattern is
    /// compiled; the first one that does not compile fails the activation.
    pub fn begin_activation(
        &mut self,
        config: &ModeConfig,
        cwd: Option<&str>,
        dims: (u16, u16),
        exe: &str,
    ) -> (r: (Vec<String>, Result<Activation, ModeManagerError>))
        requires
            old(self).wf(),
        ensures
            final(self).wf(),
            final(self).active_name() is None,
            final(self).dims() == dims,
            final(self).cwd_view() == crate::issue_dispatch::opt_view(cwd),
            ids_view(r.0@) == old(self).persistent() + old(self).reactive(),
            match first_bad_rule(config.rules@) {
                Some(i) => match r.1 {
                    Err(ModeManagerError::InvalidPattern { pattern, source }) => pattern@ == config.rules@[i].pattern@
                        && regex_compile_error(pattern@) == Some(source@),
                    _ => false,
                },
                None => r.1 is Ok && r.1->Ok_0.fits(*config, exe@) && r.1->Ok_0.created_count() == 0
                    && !r.1->Ok_0.awaiting(),
            },
    {
        self.side_pane_dims = dims;
        let previous = match self.deactivate_mode() {
            Ok(ids) => ids,
            Err(_) => {
                let v: Vec<String> = Vec::new();
                assert(ids_view(v@) =~= Seq::<Seq<char>>::empty() + Seq::<Seq<char>>::empty());
                v
            },
        };
        self.cwd = match cwd {
            Some(c) => Some(owned(c)),
            None => None,
        };
        let mut rules: Vec<CompiledRule> = Vec::new();
        let mut i: usize = 0;
        while i < config.rules.len()
            invariant
                i <= config.rules@.len(),
                rules@.len() == i,
                self.wf(),
                self.active_name() is None,
                self.dims() == dims,
                self.cwd_view() == crate::issue_dispatch::opt_view(cwd),
                ids_view(previous@) == old(self).persistent() + old(self).reactive(),
                rules@.map_values(|r: CompiledRule| (r.pattern@, r.watch, r.interval))
                    == config_rules(*config).take(i as int),
                forall|j: int| 0 <= j < i ==> regex_compile_error((#[trigger] config.rules@[j]).pattern@) is None,
                forall|j: int| 0 <= j < i ==> regex_compile_error((#[trigger] rules@[j]).pattern@) is None,
            decreases config.rules@.len() - i,
        {
            let rule = &config.rules[i];
            match pattern_error(rule.pattern.as_str()) {
                Some(source) => {
                    proof {
                        lemma_first_bad(config.rules@, i as int);
                    }
                    return (previous, Err(ModeManagerError::InvalidPattern { pattern: rule.pattern.clone(), source }));
                },
                None => {},
            }
            let ghost before = rules@;
            rules.push(CompiledRule { pattern: owned(rule.pattern.as_str()), watch: rule.watch, interval: rule.interval });
            assert(rules@.map_values(|r: CompiledRule| (r.pattern@, r.watch, r.interval)) =~= config_rules(*config).take(i + 1));
            i = i + 1;
        }
        proof {
            assert(config_rules(*config).take(i as int) =~= config_rules(*config));
            if first_bad_rule(config.rules@) is Some {
                let k = choose|k: int| 0 <= k < config.rules@.len() && regex_compile_error((#[trigger] config.rules@[k]).pattern@) is Some;
                assert(regex_compile_error(config.rules@[k].pattern@) is None);
            }
        }
        let act = Activation {
            rules,
            persistent: Vec::new(),
            pending: Vec::new(),
            pool: ReactivePool::new(),
            created: Vec::new(),
            requested: false,
        };
        assert(ids_view(act.created@) =~= ids_view(act.persistent@) + act.pool.ids());
        assert(act.pending@.map_values(|p: PendingCommand| pending_view(p)) =~= expected_pending(
            *config, ids_view(act.created@), exe@,
        ));
        (previous, Ok(act))
    }
}

proof fn lemma_first_bad(rules: Seq<RuleConfig>, i: int)
    requires
        0 <= i < rules.len(),
        regex_compile_error(rules[i].pattern@) is Some,
        forall|j: int| 0 <= j < i ==> regex_compile_error((#[trigger] rules[j]).pattern@) is None,
    ensures
        first_bad_rule(rules) == Some(i),
{
    let k = choose|k: int| 0 <= k < rules.len() && regex_compile_error((#[trigger] rules[k]).pattern@) is Some
        && forall|j: int| 0 <= j < k ==> regex_compile_error((#[trigger] rules[j]).pattern@) is None;
    assert(0 <= k < rules.len() && regex_compile_error(rules[k].pattern@) is Some
        && forall|j: int| 0 <= j < k ==> regex_compile_error((#[trigger] rules[j]).pattern@) is None);
    if k < i {
        assert(regex_compile_error(rules[k].pattern@) is None);
    }
    if k > i {
        assert(regex_compile_error(rules[i].pattern@) is None);
    }
}

proof fn lemma_expected_pending_push(config: ModeConfig, created: Seq<Seq<char>>, id: Seq<char>, exe: Seq<char>)
    ensures
        expected_pending(config, created.push(id), exe) == expected_pending(config, created, exe) + (if created.len()
            < config.panes@.len() {
            seq![(id, opt_owned_view(config.init_command), effective_command(config.panes@[created.len() as int], exe))]
        } else if config.init_command is Some {
            seq![(id, opt_owned_view(config.init_command), Seq::<char>::empty())]
        } else {
            Seq::empty()
        }),
{
    let p = config.panes@.len() as int;
    let n = created.len() as int;
    let c2 = created.push(id);
    let init = opt_owned_view(config.init_command);
    let a = expected_pending(config, created, exe);
    let b = expected_pending(config, c2, exe);
    if n < p {
        assert(b =~= a + seq![(id, init, effective_command(config.panes@[n], exe))]);
    } else if init is Some {
        assert(b =~= a + seq![(id, init, Seq::<char>::empty())]);
    } else {
        assert(b =~= a);
    }
}

/// The `k`th pane name, built.
fn pane_name(config: &ModeConfig, k: usize) -> (r: String)
    requires
        k < config.panes@.len() + config.reactive_panes,
    ensures
        r@ == activation_pane_name(*config, k as int),
{
    if k < config.panes.len() {
        match &config.panes[k].name {
            Some(n) => owned(n.as_str()),
            None => owned(config.panes[k].command.as_str()),
        }
    } else {
        let mut v = chars_of("reactive-");
        push_decimal(&mut v, (k - config.panes.len()) as u64);
        string_of(&v)
    }
}

impl ModeManager {
    /// One step of an activation begun by [`ModeManager::begin_activation`]:
    /// `created` is the outcome of the pane creation the previous step
    /// asked for (`None` on the first step). Panes are created in order,
    /// the persistent ones (each queuing its command, a watch pane's
    /// wrapped in a watch invocation of `exe`) and then the reactive ones
    /// (queuing an empty command when the mode has an init command); a
    /// failed creation closes every pane created so far and fails the
    /// activation; after the last pane the mode becomes active with its
    /// reactive rotation at the first pane.
    pub fn activation_step(
        &mut self,
        act: &mut Activation,
        config: &ModeConfig,
        exe: &str,
        created: Option<Result<String, PaneError>>,
    ) -> (step: ActivationStep)
        requires
            old(self).wf(),
            old(self).active_name() is None,
            old(act).fits(*config, exe@),
            created is Some <==> old(act).awaiting(),
        ensures
            final(self).wf(),
            final(self).dims() == old(self).dims(),
            final(self).cwd_view() == old(self).cwd_view(),
            match created {
                Some(Err(e)) => step is Failed && step->Failed_error == ModeManagerError::Pane(e)
                    && ids_view(step->Failed_close@) == old(act).created_ids()
                    && final(self).active_name() is None,
                _ => {
                    let ids = match created {
                        Some(Ok(id)) => old(act).created_ids().push(id@),
                        _ => old(act).created_ids(),
                    };
                    let total = config.panes@.len() + config.reactive_panes;
                    if ids.len() < total {
                        &&& final(act).fits(*config, exe@)
                        &&& final(act).created_ids() == ids
                        &&& final(act).awaiting()
                        &&& final(self).active_name() is None
                        &&& match step {
                            ActivationStep::CreatePane { display_name, cwd, rows, cols } =>
                                display_name@ == activation_pane_name(*config, ids.len() as int)
                                && opt_owned_view(cwd) == old(self).cwd_view() && (rows, cols) == old(self).dims(),
                            _ => false,
                        }
                    } else {
                        &&& step is Activated
                        &&& final(self).active_name() == Some(config.name@)
                        &&& final(self).rules() == config_rules(*config)
                        &&& final(self).persistent() == ids.take(config.panes@.len() as int)
                        &&& final(self).reactive() == ids.skip(config.panes@.len() as int)
                        &&& final(self).reactive_cursor() == 0
                        &&& final(self).has_init() == (config.init_command is Some)
                        &&& final(self).pending().map_values(|p: PendingCommand| pending_view(p))
                            == expected_pending(*config, ids, exe@)
                    }
                },
            },
    {
        let ghost pcount = config.panes@.len() as int;
        let ghost init = opt_owned_view(config.init_command);
        match created {
            Some(Err(e)) => {
                act.requested = false;
                let mut close: Vec<String> = Vec::new();
                std::mem::swap(&mut close, &mut act.created);
                return ActivationStep::Failed { close, error: ModeManagerError::Pane(e) };
            },
            Some(Ok(id)) => {
                let k = act.created.len();
                let ghost old_created = ids_view(act.created@);
                let ghost old_pending = act.pending@.map_values(|p: PendingCommand| pending_view(p));
                if k < config.panes.len() {
                    let pane = &config.panes[k];
                    let command = if pane.watch {
                        watch_invocation(exe, 10, pane.command.as_str())
                    } else {
                        owned(pane.command.as_str())
                    };
                    let init_cmd = match &config.init_command {
                        Some(c) => Some(owned(c.as_str())),
                        None => None,
                    };
                    act.pending.push(PendingCommand { pane_id: owned(id.as_str()), init_command: init_cmd, command });
                    act.persistent.push(owned(id.as_str()));
                } else {
                    act.pool.add(owned(id.as_str()));
                    if config.init_command.is_some() {
                        let init_cmd = match &config.init_command {
                            Some(c) => Some(owned(c.as_str())),
                            None => None,
                        };
                        act.pending.push(PendingCommand { pane_id: owned(id.as_str()), init_command: init_cmd, command: String::new() });
                    }
                }
                act.created.push(id);
                proof {
                    let newc = ids_view(act.created@);
                    assert(newc =~= old_created.push(id@));
                    assert(ids_view(act.created@) =~= ids_view(act.persistent@) + act.pool.ids());
                    lemma_expected_pending_push(*config, old_created, id@, exe@);
                    assert(act.pending@.map_values(|p: PendingCommand| pending_view(p)) =~= expected_pending(*config, newc, exe@));
                }
                act.requested = false;
            },
            None => {},
        }
        let k = act.created.len();
        let more = if k < config.panes.len() { true } else { k - config.panes.len() < config.reactive_panes };
        if more {
            act.requested = true;
            let cwd = match &self.cwd {
                Some(c) => Some(owned(c.as_str())),
                None => None,
            };
            return ActivationStep::CreatePane {
                display_name: pane_name(config, k),
                cwd,
                rows: self.side_pane_dims.0,
                cols: self.side_pane_dims.1,
            };
        }
        let mut rules: Vec<CompiledRule> = Vec::new();
        std::mem::swap(&mut rules, &mut act.rules);
        let mut persistent: Vec<String> = Vec::new();
        std::mem::swap(&mut persistent, &mut act.persistent);
        let mut pending: Vec<PendingCommand> = Vec::new();
        std::mem::swap(&mut pending, &mut act.pending);
        let mut pool = ReactivePool::new();
        std::mem::swap(&mut pool, &mut act.pool);
        self.active_mode = Some(ActiveMode {
            name: owned(config.name.as_str()),
            has_init: config.init_command.is_some(),
            compiled_rules: rules,
            persistent_pane_ids: persistent,
            reactive_pool: pool,
            pending_commands: pending,
        });
        proof {
            let ids = ids_view(act.created@);
            assert(ids.take(pcount) =~= self.persistent());
            assert(ids.skip(pcount) =~= self.reactive());
        }
        ActivationStep::Activated
    }
}

} // verus!
