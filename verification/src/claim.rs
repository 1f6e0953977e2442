//! Claimant identity, the claim/release comment bodies posted on an issue,
//! and the parser that reads a claim comment back.
//!
//! An identity names an INSTANCE: a worktree (its path, branch and the
//! claiming host) or a human (`gh` login and host). Two identities are
//! compared through their whole rendered string, never a field alone, and a
//! worktree identity's decorative label never takes part in it.

use vstd::prelude::*;
use crate::text::{
    chars_of, decimal, extend_chars, extend_str, find, find_exec, is_control_char,
    is_control_exec, push_decimal, slice_chars, starts_with, starts_with_exec, string_of,
    trim_end_char, trim_end_char_exec,
};
use crate::issue_dispatch::{valid_login, validate_gh_login};

verus! {

broadcast use vstd::string::group_string_axioms;

// ---------------------------------------------------------------------------
// Name sanitization
// ---------------------------------------------------------------------------

/// `name` made safe to embed in a backtick-wrapped code span of a public
/// comment: backticks dropped, `\n`/`\r` turned into a space, every other
/// control character dropped.
pub open spec fn sanitize_name(s: Seq<char>) -> Seq<char>
    decreases s.len(),
{
    if s.len() == 0 {
        s
    } else {
        let r = sanitize_name(s.drop_last());
        let c = s.last();
        if c == '`' {
            r
        } else if c == '\n' || c == '\r' {
            r.push(' ')
        } else if is_control_char(c) {
            r
        } else {
            r.push(c)
        }
    }
}

/// A character that sanitization keeps unchanged.
pub open spec fn clean_char(c: char) -> bool {
    c != '`' && !is_control_char(c)
}

/// Every character of `s` is clean.
pub open spec fn is_clean(s: Seq<char>) -> bool {
    forall|i: int| 0 <= i < s.len() ==> clean_char(#[trigger] s[i])
}

/// Neutralise untrusted text for interpolation into a public comment.
pub fn sanitize_claimant_name(name: &str) -> (r: String)
    ensures
        r@ == sanitize_name(name@),
{
    let s = chars_of(name);
    let mut out: Vec<char> = Vec::new();
    let mut i: usize = 0;
    while i < s.len()
        invariant
            i <= s.len(),
            out@ == sanitize_name(s@.take(i as int)),
        decreases s.len() - i,
    {
        let c = s[i];
        assert(s@.take(i + 1).drop_last() =~= s@.take(i as int));
        if c == '`' {
        } else if c == '\n' || c == '\r' {
            out.push(' ');
        } else if is_control_exec(c) {
        } else {
            out.push(c);
        }
        i = i + 1;
    }
    assert(s@.take(s.len() as int) =~= s@);
    string_of(&out)
}

/// Law: sanitized text carries no backtick and no control character — in
/// particular no raw newline.
pub proof fn lemma_sanitize_is_clean(s: Seq<char>)
    ensures
        is_clean(sanitize_name(s)),
    decreases s.len(),
{
    if s.len() > 0 {
        lemma_sanitize_is_clean(s.drop_last());
    }
}

/// Law: sanitization leaves clean text unchanged.
pub proof fn lemma_sanitize_clean_fixed(s: Seq<char>)
    requires
        is_clean(s),
    ensures
        sanitize_name(s) == s,
    decreases s.len(),
{
    if s.len() > 0 {
        assert(is_clean(s.drop_last())) by {
            assert forall|i: int| 0 <= i < s.drop_last().len() implies clean_char(
                #[trigger] s.drop_last()[i],
            ) by {
                assert(s.drop_last()[i] == s[i]);
            }
        }
        lemma_sanitize_clean_fixed(s.drop_last());
        assert(clean_char(s[s.len() - 1]));
        assert(s.drop_last().push(s.last()) =~= s);
    }
}

/// Law: sanitization is idempotent.
pub proof fn lemma_sanitize_idempotent(s: Seq<char>)
    ensures
        sanitize_name(sanitize_name(s)) == sanitize_name(s),
{
    lemma_sanitize_is_clean(s);
    lemma_sanitize_clean_fixed(sanitize_name(s));
}

// ---------------------------------------------------------------------------
// Identity
// ---------------------------------------------------------------------------

/// The two forms of claimant identity.
#[derive(Debug, Clone, PartialEq, Eq)]
pub enum Identity {
    /// An agent working a worktree: `path`, `branch` and the claiming `host`
    /// are the compared identity; `label` is decoration only.
    Worktree { path: String, branch: String, host: String, label: Option<String> },
    /// A human claiming outside any worktree: `human:<login>@<host>`.
    Human { login: String, host: String },
}

/// The whole compared identity string.
pub open spec fn identity_string(id: Identity) -> Seq<char> {
    match id {
        Identity::Worktree { path, branch, host, .. } => "worktree:"@ + path@ + "@"@ + branch@
            + "|"@ + host@,
        Identity::Human { login, host } => "human:"@ + login@ + "@"@ + host@,
    }
}

/// The decoration of an orchestration-claimed worktree.
pub open spec fn orchestration_label(name: Seq<char>) -> Seq<char> {
    "the orchestration `"@ + sanitize_name(name) + "`"@
}

/// The decoration of a single-agent issue-dispatch fire.
pub open spec fn issue_dispatch_label(task: Seq<char>, issue: nat) -> Seq<char> {
    "the issue-dispatch task `"@ + sanitize_name(task) + "` (issue #"@ + decimal(issue) + ")"@
}

impl Identity {
    /// A bare worktree identity with no decorative label. `path` is expected
    /// already canonical; `host` is the claiming machine's hostname.
    pub fn worktree(path: &str, branch: &str, host: &str) -> (r: Identity)
        ensures
            r is Worktree,
            r->Worktree_label is None,
            r->Worktree_path@ == path@,
            r->Worktree_branch@ == branch@,
            r->Worktree_host@ == host@,
    {
        Identity::Worktree {
            path: path.to_string(),
            branch: branch.to_string(),
            host: host.to_string(),
            label: None,
        }
    }

    /// A worktree identity decorated as the orchestration `name` (sanitized).
    pub fn orchestration(name: &str, worktree_path: &str, branch: &str, host: &str) -> (r: Identity)
        ensures
            r is Worktree,
            r->Worktree_path@ == worktree_path@,
            r->Worktree_branch@ == branch@,
            r->Worktree_host@ == host@,
            r->Worktree_label is Some,
            r->Worktree_label->0@ == orchestration_label(name@),
    {
        let mut l = chars_of("the orchestration `");
        let n = sanitize_claimant_name(name);
        extend_str(&mut l, n.as_str());
        extend_str(&mut l, "`");
        Identity::Worktree {
            path: worktree_path.to_string(),
            branch: branch.to_string(),
            host: host.to_string(),
            label: Some(string_of(&l)),
        }
    }

    /// A worktree identity decorated as the single-agent fire of `task` for
    /// `issue` (`task` sanitized).
    pub fn issue_dispatch(task: &str, issue: u64, worktree_path: &str, branch: &str, host: &str) -> (r:
        Identity)
        ensures
            r is Worktree,
            r->Worktree_path@ == worktree_path@,
            r->Worktree_branch@ == branch@,
            r->Worktree_host@ == host@,
            r->Worktree_label is Some,
            r->Worktree_label->0@ == issue_dispatch_label(task@, issue as nat),
    {
        let mut l = chars_of("the issue-dispatch task `");
        let n = sanitize_claimant_name(task);
        extend_str(&mut l, n.as_str());
        extend_str(&mut l, "` (issue #");
        push_decimal(&mut l, issue);
        extend_str(&mut l, ")");
        Identity::Worktree {
            path: worktree_path.to_string(),
            branch: branch.to_string(),
            host: host.to_string(),
            label: Some(string_of(&l)),
        }
    }

    /// A human identity; `login` is expected already validated.
    pub fn human(login: &str, host: &str) -> (r: Identity)
        ensures
            r is Human,
            r->Human_login@ == login@,
            r->Human_host@ == host@,
    {
        Identity::Human { login: login.to_string(), host: host.to_string() }
    }

    /// The whole compared identity string: `worktree:<path>@<branch>|<host>`
    /// or `human:<login>@<host>`.
    pub fn to_string(&self) -> (r: String)
        ensures
            r@ == identity_string(*self),
    {
        match self {
            Identity::Worktree { path, branch, host, .. } => {
                let mut v = chars_of("worktree:");
                extend_str(&mut v, path.as_str());
                extend_str(&mut v, "@");
                extend_str(&mut v, branch.as_str());
                extend_str(&mut v, "|");
                extend_str(&mut v, host.as_str());
                string_of(&v)
            },
            Identity::Human { login, host } => {
                let mut v = chars_of("human:");
                extend_str(&mut v, login.as_str());
                extend_str(&mut v, "@");
                extend_str(&mut v, host.as_str());
                string_of(&v)
            },
        }
    }
}

// ---------------------------------------------------------------------------
// Claim / release comment bodies
// ---------------------------------------------------------------------------

/// The literal prefix every claim comment starts with.
pub const CLAIM_COMMENT_PREFIX: &'static str = "Claimed by ";

/// The literal prefix every release comment starts with.
pub const RELEASE_COMMENT_PREFIX: &'static str = "Released by ";

/// The "who + where + when" clause shared by claim and release bodies.
pub open spec fn identity_clause(prefix: Seq<char>, id: Identity, timestamp: Seq<char>) -> Seq<char> {
    match id {
        Identity::Worktree { path, branch, host, label } => prefix + (match label {
            Some(l) => l@,
            None => "the orchestration"@,
        }) + " working `"@ + sanitize_name(path@) + "` on branch `"@ + sanitize_name(branch@)
            + "` on host "@ + host@ + " at "@ + timestamp,
        Identity::Human { login, host } => prefix + "@"@ + login@ + " working from `"@ + host@
            + "` at "@ + timestamp,
    }
}

/// The `, for @<login>` clause: worktree form only.
pub open spec fn login_clause(id: Identity, login: Option<Seq<char>>) -> Seq<char> {
    if id is Worktree && login is Some {
        ", for @"@ + login->0
    } else {
        Seq::empty()
    }
}

/// The view of an optional string slice.
pub open spec fn opt_str(o: Option<&str>) -> Option<Seq<char>> {
    match o {
        Some(s) => Some(s@),
        None => None,
    }
}

/// The claim-comment body.
pub open spec fn claim_body(
    id: Identity,
    timestamp: Seq<char>,
    login: Option<Seq<char>>,
    takeover_from: Option<Seq<char>>,
) -> Seq<char> {
    identity_clause(CLAIM_COMMENT_PREFIX@, id, timestamp) + login_clause(id, login) + (
    match takeover_from {
        Some(p) => ", taking over from `"@ + p + "`"@,
        None => Seq::empty(),
    }) + "."@
}

/// The release-comment body.
pub open spec fn release_body(
    id: Identity,
    timestamp: Seq<char>,
    login: Option<Seq<char>>,
    forced_from: Option<Seq<char>>,
    reason: Option<Seq<char>>,
) -> Seq<char> {
    identity_clause(RELEASE_COMMENT_PREFIX@, id, timestamp) + login_clause(id, login) + (
    match forced_from {
        Some(p) => ", forcibly released from `"@ + p + "`"@,
        None => Seq::empty(),
    }) + (match reason {
        Some(r) => ", reason: "@ + sanitize_name(r),
        None => Seq::empty(),
    }) + "."@
}

/// A given reason always closes the release body, whatever the login and
/// forced-release clauses: the body with a reason is the body without one,
/// its final `.` replaced by `, reason: ` and the sanitized reason, then
/// `.`.
pub proof fn lemma_release_reason_always_rendered(
    id: Identity,
    timestamp: Seq<char>,
    login: Option<Seq<char>>,
    forced_from: Option<Seq<char>>,
    reason: Seq<char>,
)
    ensures
        ({
            let without = release_body(id, timestamp, login, forced_from, None);
            &&& without.len() > 0 && without.last() == '.'
            &&& release_body(id, timestamp, login, forced_from, Some(reason)) == without.drop_last() + ", reason: "@
                + sanitize_name(reason) + "."@
        }),
{
    reveal_strlit(".");
    let without = release_body(id, timestamp, login, forced_from, None);
    let head = identity_clause(RELEASE_COMMENT_PREFIX@, id, timestamp) + login_clause(id, login) + (
    match forced_from {
        Some(p) => ", forcibly released from `"@ + p + "`"@,
        None => Seq::empty(),
    });
    assert(without =~= head + "."@);
    assert(without.drop_last() =~= head);
    assert(release_body(id, timestamp, login, forced_from, Some(reason)) =~= head + ", reason: "@ + sanitize_name(
        reason,
    ) + "."@);
}

fn render_identity_clause(out: &mut Vec<char>, identity: &Identity, timestamp: &str)
    ensures
        final(out)@ == identity_clause(old(out)@, *identity, timestamp@),
{
    match identity {
        Identity::Worktree { path, branch, host, label } => {
            match label {
                Some(l) => extend_str(out, l.as_str()),
                None => extend_str(out, "the orchestration"),
            }
            extend_str(out, " working `");
            let p = sanitize_claimant_name(path.as_str());
            extend_str(out, p.as_str());
            extend_str(out, "` on branch `");
            let b = sanitize_claimant_name(branch.as_str());
            extend_str(out, b.as_str());
            extend_str(out, "` on host ");
            extend_str(out, host.as_str());
            extend_str(out, " at ");
            extend_str(out, timestamp);
        },
        Identity::Human { login, host } => {
            extend_str(out, "@");
            extend_str(out, login.as_str());
            extend_str(out, " working from `");
            extend_str(out, host.as_str());
            extend_str(out, "` at ");
            extend_str(out, timestamp);
        },
    }
}

/// Render the claim-comment body: the identity clause, the `for @<login>`
/// clause (worktree form only), the takeover tail, and a final `.`.
pub fn claim_comment_body(
    identity: &Identity,
    timestamp: &str,
    login: Option<&str>,
    takeover_from: Option<&str>,
) -> (r: String)
    ensures
        r@ == claim_body(*identity, timestamp@, opt_str(login), opt_str(takeover_from)),
{
    let mut body = chars_of(CLAIM_COMMENT_PREFIX);
    render_identity_clause(&mut body, identity, timestamp);
    if let Identity::Worktree { .. } = identity {
        if let Some(l) = login {
            extend_str(&mut body, ", for @");
            extend_str(&mut body, l);
        }
    }
    if let Some(prev) = takeover_from {
        extend_str(&mut body, ", taking over from `");
        extend_str(&mut body, prev);
        extend_str(&mut body, "`");
    }
    extend_str(&mut body, ".");
    string_of(&body)
}

/// Render the release-comment body: the claim body's mirror, with the forced
/// tail and the sanitized reason.
pub fn release_comment_body(
    identity: &Identity,
    timestamp: &str,
    login: Option<&str>,
    forced_from: Option<&str>,
    reason: Option<&str>,
) -> (r: String)
    ensures
        r@ == release_body(
            *identity,
            timestamp@,
            opt_str(login),
            opt_str(forced_from),
            opt_str(reason),
        ),
{
    let mut body = chars_of(RELEASE_COMMENT_PREFIX);
    render_identity_clause(&mut body, identity, timestamp);
    if let Identity::Worktree { .. } = identity {
        if let Some(l) = login {
            extend_str(&mut body, ", for @");
            extend_str(&mut body, l);
        }
    }
    if let Some(prev) = forced_from {
        extend_str(&mut body, ", forcibly released from `");
        extend_str(&mut body, prev);
        extend_str(&mut body, "`");
    }
    if let Some(reason) = reason {
        extend_str(&mut body, ", reason: ");
        let s = sanitize_claimant_name(reason);
        extend_str(&mut body, s.as_str());
    }
    extend_str(&mut body, ".");
    string_of(&body)
}

// ---------------------------------------------------------------------------
// Claim comment parsing
// ---------------------------------------------------------------------------

/// The fields of one already-located claim comment.
#[derive(Debug, Clone, PartialEq, Eq)]
pub struct ParsedClaim {
    /// The composed identity string, compared verbatim.
    pub identity: String,
    pub timestamp: String,
    /// The `@<login>` clause, when one was parsed and is a valid login.
    pub login: Option<String>,
    /// The full, unparsed comment body.
    pub raw: String,
}

/// The value-level content of a [`ParsedClaim`].
pub struct ClaimFields {
    pub identity: Seq<char>,
    pub timestamp: Seq<char>,
    pub login: Option<Seq<char>>,
    pub raw: Seq<char>,
}

impl View for ParsedClaim {
    type V = ClaimFields;

    open spec fn view(&self) -> ClaimFields {
        ClaimFields {
            identity: self.identity@,
            timestamp: self.timestamp@,
            login: match self.login {
                Some(l) => Some(l@),
                None => None,
            },
            raw: self.raw@,
        }
    }
}

/// The view of an optional parsed claim.
pub open spec fn claim_view(o: Option<ParsedClaim>) -> Option<ClaimFields> {
    match o {
        Some(c) => Some(c@),
        None => None,
    }
}

/// The index of the first occurrence of `p` in `s`, or `s.len()` when none.
pub open spec fn find_or_len(s: Seq<char>, p: Seq<char>) -> int {
    match find(s, p) {
        Some(i) => i,
        None => s.len() as int,
    }
}

/// One claim's own line: `rest` cut at the first newline or at the next
/// literal claim prefix, whichever comes first.
pub open spec fn claim_line_spec(rest: Seq<char>) -> Seq<char> {
    let nl = find_or_len(rest, "\n"@);
    let nc = find_or_len(rest, CLAIM_COMMENT_PREFIX@);
    rest.take(if nl <= nc { nl } else { nc })
}

/// The timestamp after the first ` at ` marker, ending at the next `,` (with
/// trailing `.` trimmed), together with the remainder from that `,` on.
pub open spec fn extract_timestamp_spec(s: Seq<char>) -> Option<(Seq<char>, Seq<char>)> {
    match find(s, " at "@) {
        None => None,
        Some(i) => {
            let after = s.skip(i + " at "@.len());
            let end = find_or_len(after, ","@);
            Some((trim_end_char(after.take(end), '.'), after.skip(end)))
        },
    }
}

/// The human form: `<login> working from `<host>` at <ts>...`.
pub open spec fn parse_human_spec(after_at: Seq<char>, raw: Seq<char>) -> Option<ClaimFields> {
    match find(after_at, " working from `"@) {
        None => None,
        Some(m) => {
            let login = after_at.take(m);
            let after_marker = after_at.skip(m + " working from `"@.len());
            if !valid_login(login) {
                None
            } else {
                match find(after_marker, "`"@) {
                    None => None,
                    Some(h) => match extract_timestamp_spec(after_marker.skip(h + 1)) {
                        None => None,
                        Some(ts) => Some(
                            ClaimFields {
                                identity: "human:"@ + login + "@"@ + after_marker.take(h),
                                timestamp: ts.0,
                                login: Some(login),
                                raw,
                            },
                        ),
                    },
                }
            }
        },
    }
}

/// The optional `, for @<login>` clause after the timestamp, kept only when
/// it is a valid login.
pub open spec fn login_after_timestamp(s: Seq<char>) -> Option<Seq<char>> {
    match find(s, ", for @"@) {
        None => None,
        Some(i) => {
            let after = s.skip(i + ", for @"@.len());
            let candidate = trim_end_char(after.take(find_or_len(after, ","@)), '.');
            if valid_login(candidate) {
                Some(candidate)
            } else {
                None
            }
        },
    }
}

/// The optional ` on host <host>` clause after the branch: the `|<host>`
/// identity suffix and the text from the following ` at ` on.
pub open spec fn host_clause(after_branch: Seq<char>) -> Option<(Seq<char>, Seq<char>)> {
    if starts_with(after_branch, " on host "@) {
        let after_host = after_branch.skip(" on host "@.len() as int);
        match find(after_host, " at "@) {
            None => None,
            Some(e) => Some(("|"@ + after_host.take(e), after_host.skip(e))),
        }
    } else {
        Some((Seq::empty(), after_branch))
    }
}

/// The worktree form: `<decoration> working `<path>` on branch `<branch>`
/// [on host <host>] at <ts>[, for @<login>]...`.
pub open spec fn parse_worktree_spec(line: Seq<char>, raw: Seq<char>) -> Option<ClaimFields> {
    match find(line, " working `"@) {
        None => None,
        Some(w) => {
            let after_working = line.skip(w + " working `"@.len());
            match find(after_working, "`"@) {
                None => None,
                Some(pe) => {
                    let path = after_working.take(pe);
                    let after_path = after_working.skip(pe + 1);
                    match find(after_path, " on branch `"@) {
                        None => None,
                        Some(bi) => {
                            let after_bm = after_path.skip(bi + " on branch `"@.len());
                            match find(after_bm, "`"@) {
                                None => None,
                                Some(be) => {
                                    let branch = after_bm.take(be);
                                    match host_clause(after_bm.skip(be + 1)) {
                                        None => None,
                                        Some(hc) => match extract_timestamp_spec(hc.1) {
                                            None => None,
                                            Some(ts) => Some(
                                                ClaimFields {
                                                    identity: "worktree:"@ + path + "@"@ + branch
                                                        + hc.0,
                                                    timestamp: ts.0,
                                                    login: login_after_timestamp(ts.1),
                                                    raw,
                                                },
                                            ),
                                        },
                                    }
                                },
                            }
                        },
                    }
                },
            }
        },
    }
}

/// The fields of a claim comment, or `None` when it matches neither shape
/// [`claim_comment_body`] renders.
pub open spec fn parse_claim_spec(raw: Seq<char>) -> Option<ClaimFields> {
    if !starts_with(raw, CLAIM_COMMENT_PREFIX@) {
        None
    } else {
        let line = claim_line_spec(raw.skip(CLAIM_COMMENT_PREFIX@.len() as int));
        if starts_with(line, "@"@) {
            parse_human_spec(line.skip(1), raw)
        } else {
            parse_worktree_spec(line, raw)
        }
    }
}

fn skip_chars(s: &Vec<char>, n: usize) -> (r: Vec<char>)
    requires
        n <= s.len(),
    ensures
        r@ == s@.skip(n as int),
{
    let r = slice_chars(s, n, s.len());
    assert(r@ =~= s@.skip(n as int));
    r
}

fn take_chars(s: &Vec<char>, n: usize) -> (r: Vec<char>)
    requires
        n <= s.len(),
    ensures
        r@ == s@.take(n as int),
{
    let r = slice_chars(s, 0, n);
    assert(r@ =~= s@.take(n as int));
    r
}

fn find_or_len_exec(s: &Vec<char>, p: &str) -> (r: usize)
    ensures
        r as int == find_or_len(s@, p@),
        r <= s.len(),
{
    let pv = chars_of(p);
    match find_exec(s, &pv) {
        Some(i) => {
            proof {
                crate::text::lemma_find(s@, p@);
            }
            i
        },
        None => s.len(),
    }
}

/// Where a literal marker `p` first occurs in `s`.
fn find_lit(s: &Vec<char>, p: &str) -> (r: Option<usize>)
    ensures
        match r {
            Some(i) => find(s@, p@) == Some(i as int) && i + p@.len() <= s.len(),
            None => find(s@, p@) is None,
        },
{
    let pv = chars_of(p);
    let r = find_exec(s, &pv);
    proof {
        crate::text::lemma_find(s@, p@);
    }
    r
}

fn extract_timestamp(s: &Vec<char>) -> (r: Option<(Vec<char>, Vec<char>)>)
    ensures
        match r {
            Some(p) => extract_timestamp_spec(s@) == Some((p.0@, p.1@)),
            None => extract_timestamp_spec(s@) is None,
        },
{
    let i = match find_lit(s, " at ") {
        Some(i) => i,
        None => return None,
    };
    let m = chars_of(" at ");
    let after = skip_chars(s, i + m.len());
    let end = find_or_len_exec(&after, ",");
    let head = take_chars(&after, end);
    let ts = trim_end_char_exec(&head, '.');
    let rest = skip_chars(&after, end);
    Some((ts, rest))
}

fn parse_human_claim(after_at: &Vec<char>, raw: &str) -> (r: Option<ParsedClaim>)
    ensures
        claim_view(r) == parse_human_spec(after_at@, raw@),
{
    let m = match find_lit(after_at, " working from `") {
        Some(m) => m,
        None => return None,
    };
    let marker = chars_of(" working from `");
    let login = take_chars(after_at, m);
    let after_marker = skip_chars(after_at, m + marker.len());
    let login_s = string_of(&login);
    if !validate_gh_login(login_s.as_str()) {
        return None;
    }
    proof {
        reveal_strlit("`");
    }
    let h = match find_lit(&after_marker, "`") {
        Some(h) => h,
        None => return None,
    };
    let host = take_chars(&after_marker, h);
    let after_host = skip_chars(&after_marker, h + 1);
    let (ts, _rest) = match extract_timestamp(&after_host) {
        Some(p) => p,
        None => return None,
    };
    let mut id = chars_of("human:");
    extend_chars(&mut id, &login);
    extend_str(&mut id, "@");
    extend_chars(&mut id, &host);
    Some(
        ParsedClaim {
            identity: string_of(&id),
            timestamp: string_of(&ts),
            login: Some(login_s),
            raw: raw.to_string(),
        },
    )
}

fn login_after_timestamp_exec(s: &Vec<char>) -> (r: Option<String>)
    ensures
        match r {
            Some(l) => login_after_timestamp(s@) == Some(l@),
            None => login_after_timestamp(s@) is None,
        },
{
    let i = match find_lit(s, ", for @") {
        Some(i) => i,
        None => return None,
    };
    let m = chars_of(", for @");
    let after = skip_chars(s, i + m.len());
    let end = find_or_len_exec(&after, ",");
    let head = take_chars(&after, end);
    let cand = trim_end_char_exec(&head, '.');
    let cs = string_of(&cand);
    if validate_gh_login(cs.as_str()) {
        Some(cs)
    } else {
        None
    }
}

fn host_clause_exec(after_branch: &Vec<char>) -> (r: Option<(Vec<char>, Vec<char>)>)
    ensures
        match r {
            Some(p) => host_clause(after_branch@) == Some((p.0@, p.1@)),
            None => host_clause(after_branch@) is None,
        },
{
    let marker = chars_of(" on host ");
    if starts_with_exec(after_branch, &marker) {
        let after_host = skip_chars(after_branch, marker.len());
        let e = match find_lit(&after_host, " at ") {
            Some(e) => e,
            None => return None,
        };
        let mut suffix = chars_of("|");
        let host = take_chars(&after_host, e);
        extend_chars(&mut suffix, &host);
        Some((suffix, skip_chars(&after_host, e)))
    } else {
        let empty: Vec<char> = Vec::new();
        assert(empty@ =~= Seq::<char>::empty());
        Some((empty, slice_chars(after_branch, 0, after_branch.len())))
    }
}

fn parse_worktree_claim(line: &Vec<char>, raw: &str) -> (r: Option<ParsedClaim>)
    ensures
        claim_view(r) == parse_worktree_spec(line@, raw@),
{
    let w = match find_lit(line, " working `") {
        Some(w) => w,
        None => return None,
    };
    let wm = chars_of(" working `");
    let after_working = skip_chars(line, w + wm.len());
    proof {
        reveal_strlit("`");
    }
    let pe = match find_lit(&after_working, "`") {
        Some(pe) => pe,
        None => return None,
    };
    let path = take_chars(&after_working, pe);
    let after_path = skip_chars(&after_working, pe + 1);
    let bi = match find_lit(&after_path, " on branch `") {
        Some(bi) => bi,
        None => return None,
    };
    let bm = chars_of(" on branch `");
    let after_bm = skip_chars(&after_path, bi + bm.len());
    let be = match find_lit(&after_bm, "`") {
        Some(be) => be,
        None => return None,
    };
    let branch = take_chars(&after_bm, be);
    let after_branch = skip_chars(&after_bm, be + 1);
    let (suffix, after_hb) = match host_clause_exec(&after_branch) {
        Some(p) => p,
        None => return None,
    };
    let (ts, after_ts) = match extract_timestamp(&after_hb) {
        Some(p) => p,
        None => return None,
    };
    let login = login_after_timestamp_exec(&after_ts);
    let mut id = chars_of("worktree:");
    extend_chars(&mut id, &path);
    extend_str(&mut id, "@");
    extend_chars(&mut id, &branch);
    extend_chars(&mut id, &suffix);
    Some(
        ParsedClaim {
            identity: string_of(&id),
            timestamp: string_of(&ts),
            login,
            raw: raw.to_string(),
        },
    )
}

/// Parse the structured fields out of one claim comment body: the human form
/// `Claimed by @<login> working from `<host>` at <ts>...` or the worktree
/// form `Claimed by <decoration> working `<path>` on branch `<branch>` [on
/// host <host>] at <ts>[, for @<login>]...`, every search bounded to the
/// claim's own line. `None` when neither shape matches.
pub fn parse_claim_fields(raw: &str) -> (r: Option<ParsedClaim>)
    ensures
        claim_view(r) == parse_claim_spec(raw@),
{
    let s = chars_of(raw);
    let prefix = chars_of(CLAIM_COMMENT_PREFIX);
    if !starts_with_exec(&s, &prefix) {
        return None;
    }
    let rest = skip_chars(&s, prefix.len());
    let nl = find_or_len_exec(&rest, "\n");
    let nc = find_or_len_exec(&rest, CLAIM_COMMENT_PREFIX);
    let line = take_chars(&rest, if nl <= nc { nl } else { nc });
    proof {
        reveal_strlit("@");
    }
    let at = chars_of("@");
    if starts_with_exec(&line, &at) {
        let after_at = skip_chars(&line, at.len());
        parse_human_claim(&after_at, raw)
    } else {
        parse_worktree_claim(&line, raw)
    }
}

} // verus!
