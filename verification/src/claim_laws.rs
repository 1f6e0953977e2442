//! What a claim comment reads back as: the parser recovers the identity,
//! timestamp and login that the renderer wrote.

use vstd::prelude::*;
use crate::claim::{
    claim_body, claim_line_spec, extract_timestamp_spec, host_clause, identity_clause, identity_string,
    is_clean, lemma_sanitize_clean_fixed, lemma_sanitize_is_clean, login_after_timestamp, login_clause,
    parse_claim_spec, parse_worktree_spec, release_body, sanitize_name, ClaimFields, Identity,
    CLAIM_COMMENT_PREFIX, RELEASE_COMMENT_PREFIX,
};
use crate::issue_dispatch::valid_login;
use crate::text::{
    contains, find, is_ascii_alnum, lemma_find, lemma_find_is, lemma_find_none, occurs_at, starts_with,
    trim_end_char,
};

verus! {

broadcast use vstd::string::group_string_axioms;

// ---------------------------------------------------------------------------
// Searching in concatenations
// ---------------------------------------------------------------------------

/// A first occurrence that lies inside `x` stays first in `x + y`.
pub proof fn lemma_find_in_prefix(x: Seq<char>, y: Seq<char>, p: Seq<char>, i: int)
    requires
        find(x, p) == Some(i),
        i + p.len() <= x.len(),
    ensures
        find(x + y, p) == Some(i),
{
    lemma_find(x, p);
    let s = x + y;
    assert(s.subrange(i, i + p.len()) =~= x.subrange(i, i + p.len()));
    assert forall|j: int| 0 <= j < i implies !#[trigger] occurs_at(s, p, j) by {
        assert(!occurs_at(x, p, j));
        if occurs_at(s, p, j) {
            assert(s.subrange(j, j + p.len()) =~= x.subrange(j, j + p.len()));
        }
    }
    lemma_find_is(s, p, i);
}

/// `p` found at the very start.
pub proof fn lemma_find_at_start(s: Seq<char>, p: Seq<char>)
    requires
        starts_with(s, p),
    ensures
        find(s, p) == Some(0int),
{
    assert(s.subrange(0, p.len() as int) =~= s.take(p.len() as int));
    lemma_find_is(s, p, 0);
}

/// In `x + y` where `x` has no `c` and `y` starts with `c`, the first `c`
/// is at `x.len()`.
pub proof fn lemma_find_char_after(x: Seq<char>, y: Seq<char>, c: char)
    requires
        !x.contains(c),
        y.len() > 0,
        y[0] == c,
    ensures
        find(x + y, seq![c]) == Some(x.len() as int),
{
    let s = x + y;
    let n = x.len() as int;
    assert(s.subrange(n, n + 1) =~= seq![c]);
    assert forall|j: int| 0 <= j < n implies !#[trigger] occurs_at(s, seq![c], j) by {
        if occurs_at(s, seq![c], j) {
            assert(s.subrange(j, j + 1)[0] == s[j]);
            assert(x[j] == c);
        }
    }
    lemma_find_is(s, seq![c], n);
}

/// No occurrence of a text that contains `c` in a text without `c`.
pub proof fn lemma_no_find_without_char(s: Seq<char>, p: Seq<char>, c: char, k: int)
    requires
        !s.contains(c),
        0 <= k < p.len(),
        p[k] == c,
    ensures
        find(s, p) is None,
{
    assert forall|j: int| 0 <= j implies !#[trigger] occurs_at(s, p, j) by {
        if occurs_at(s, p, j) {
            assert(s.subrange(j, j + p.len())[k] == s[j + k]);
            assert(s[j + k] == c);
        }
    }
    lemma_find_none(s, p);
}

proof fn lemma_sanitized_has_no_backtick(s: Seq<char>)
    ensures
        !sanitize_name(s).contains('`'),
{
    lemma_sanitize_is_clean(s);
    let t = sanitize_name(s);
    if t.contains('`') {
        let j = choose|j: int| 0 <= j < t.len() && t[j] == '`';
        assert(crate::claim::clean_char(t[j]));
    }
}

/// `trim_end_char` leaves text not ending in `c` unchanged.
proof fn lemma_trim_end_char_noop(s: Seq<char>, c: char)
    requires
        s.len() == 0 || s.last() != c,
    ensures
        trim_end_char(s, c) == s,
{
}

/// `trim_end_char` drops one appended `c` from text not ending in `c`.
proof fn lemma_trim_end_char_one(s: Seq<char>, c: char)
    requires
        s.len() == 0 || s.last() != c,
    ensures
        trim_end_char(s.push(c), c) == s,
{
    assert(s.push(c).drop_last() =~= s);
    assert(s.push(c).last() == c);
    assert(trim_end_char(s.push(c), c) == trim_end_char(s.push(c).drop_last(), c));
    lemma_trim_end_char_noop(s, c);
}

/// A valid login holds no comma and no dot.
proof fn lemma_login_chars(l: Seq<char>)
    requires
        valid_login(l),
    ensures
        !l.contains(','),
        !l.contains('.'),
        !l.contains(' '),
{
    if l.contains(',') {
        let j = choose|j: int| 0 <= j < l.len() && l[j] == ',';
        if j > 0 {
            assert(is_ascii_alnum(l[j]) || l[j] == '-');
        }
    }
    if l.contains('.') {
        let j = choose|j: int| 0 <= j < l.len() && l[j] == '.';
        if j > 0 {
            assert(is_ascii_alnum(l[j]) || l[j] == '-');
        }
    }
    if l.contains(' ') {
        let j = choose|j: int| 0 <= j < l.len() && l[j] == ' ';
        if j > 0 {
            assert(is_ascii_alnum(l[j]) || l[j] == '-');
        }
    }
}

// ---------------------------------------------------------------------------
// Round trip, worktree form
// ---------------------------------------------------------------------------

/// The decoration text of a worktree identity's clause.
pub open spec fn decoration(label: Option<String>) -> Seq<char> {
    match label {
        Some(l) => l@,
        None => "the orchestration"@,
    }
}

/// The takeover tail of a claim body.
pub open spec fn takeover_tail(takeover_from: Option<Seq<char>>) -> Seq<char> {
    match takeover_from {
        Some(p) => ", taking over from `"@ + p + "`"@,
        None => Seq::empty(),
    }
}

/// The text of a claim comment after its `Claimed by ` prefix.
pub open spec fn claim_tail(id: Identity, timestamp: Seq<char>, login: Option<Seq<char>>, takeover_from: Option<Seq<char>>) -> Seq<char> {
    claim_body(id, timestamp, login, takeover_from).skip(CLAIM_COMMENT_PREFIX@.len() as int)
}

/// The timestamp and login read from ` at <ts><login clause><takeover>.`.
proof fn lemma_after_host(
    timestamp: Seq<char>,
    lc: Seq<char>,
    tc: Seq<char>,
    login: Option<Seq<char>>,
)
    requires
        !timestamp.contains(','),
        timestamp.len() == 0 || timestamp.last() != '.',
        login is Some ==> valid_login(login->Some_0) && lc == ", for @"@ + login->Some_0,
        login is None ==> lc == Seq::<char>::empty(),
        tc.len() > 0 ==> tc[0] == ',',
    ensures
        ({
            let r = extract_timestamp_spec(" at "@ + (timestamp + lc + tc + "."@));
            &&& r is Some
            &&& r->Some_0.0 == timestamp
            &&& (login is Some || !contains(tc + "."@, ", for @"@)) ==> login_after_timestamp(r->Some_0.1) == login
        }),
{
    reveal_strlit(" at ");
    reveal_strlit(", for @");
    reveal_strlit(".");
    reveal_strlit(",");
    let a7 = timestamp + lc + tc + "."@;
    let a6 = " at "@ + a7;
    assert(a6.take(4) =~= " at "@);
    lemma_find_at_start(a6, " at "@);
    assert(a6.skip(4) =~= a7);
    assert(","@ =~= seq![',']);
    if lc.len() > 0 || tc.len() > 0 {
        let tail = lc + tc + "."@;
        assert(a7 =~= timestamp + tail);
        if lc.len() > 0 {
            assert(tail[0] == lc[0]);
        } else {
            assert(tail[0] == tc[0]);
        }
        lemma_find_char_after(timestamp, tail, ',');
        assert(a7.take(timestamp.len() as int) =~= timestamp);
        lemma_trim_end_char_noop(timestamp, '.');
        assert(a7.skip(timestamp.len() as int) =~= tail);
        if login is Some {
            let lg = login->Some_0;
            assert(tail.take(7) =~= ", for @"@);
            lemma_find_at_start(tail, ", for @"@);
            let after = lg + tc + "."@;
            assert(tail.skip(7) =~= after);
            lemma_login_chars(lg);
            if tc.len() > 0 {
                assert(after =~= lg + (tc + "."@));
                lemma_find_char_after(lg, tc + "."@, ',');
                assert(after.take(lg.len() as int) =~= lg);
                lemma_trim_end_char_noop(lg, '.');
            } else {
                assert(after =~= lg.push('.'));
                assert(!after.contains(',')) by {
                    if after.contains(',') {
                        let j = choose|j: int| 0 <= j < after.len() && after[j] == ',';
                        if j < lg.len() {
                            assert(lg[j] == ',');
                        }
                    }
                }
                lemma_no_find_without_char(after, ","@, ',', 0);
                assert(after.take(after.len() as int) =~= after);
                lemma_trim_end_char_one(lg, '.');
            }
        } else {
            assert(tail =~= tc + "."@);
            lemma_find(tail, ", for @"@);
        }
        assert(extract_timestamp_spec(a6) == Some((timestamp, tail)));
    } else {
        assert(a7 =~= timestamp.push('.'));
        assert(!a7.contains(',')) by {
            if a7.contains(',') {
                let j = choose|j: int| 0 <= j < a7.len() && a7[j] == ',';
                if j < timestamp.len() {
                    assert(timestamp[j] == ',');
                }
            }
        }
        lemma_no_find_without_char(a7, ","@, ',', 0);
        assert(a7.take(a7.len() as int) =~= a7);
        lemma_trim_end_char_one(timestamp, '.');
        assert(a7.skip(a7.len() as int) =~= Seq::<char>::empty());
        lemma_no_find_without_char(Seq::<char>::empty(), ", for @"@, ',', 0);
    }
}

/// The worktree-form parse of `<l> working `<sp>` on branch `<sb>` on
/// host <h><a6>`.
proof fn lemma_worktree_line(
    l: Seq<char>,
    sp: Seq<char>,
    sb: Seq<char>,
    h: Seq<char>,
    a6: Seq<char>,
    raw: Seq<char>,
)
    requires
        find(l + " working `"@, " working `"@) == Some(l.len() as int),
        find(h + " at "@, " at "@) == Some(h.len() as int),
        starts_with(a6, " at "@),
        !sp.contains('`'),
        !sb.contains('`'),
        extract_timestamp_spec(a6) is Some,
    ensures
        parse_worktree_spec(l + " working `"@ + sp + "` on branch `"@ + sb + "` on host "@ + h + a6, raw)
            == Some(
            ClaimFields {
                identity: "worktree:"@ + sp + "@"@ + sb + "|"@ + h,
                timestamp: extract_timestamp_spec(a6)->Some_0.0,
                login: login_after_timestamp(extract_timestamp_spec(a6)->Some_0.1),
                raw,
            },
        ),
{
    reveal_strlit(" working `");
    reveal_strlit("` on branch `");
    reveal_strlit(" on branch `");
    reveal_strlit("` on host ");
    reveal_strlit(" on host ");
    reveal_strlit(" at ");
    reveal_strlit("`");
    let a5 = h + a6;
    let a4 = " on host "@ + a5;
    let a3 = sb + "`"@ + a4;
    let a2 = " on branch `"@ + a3;
    let a1 = sp + "`"@ + a2;
    let line = l + " working `"@ + a1;
    assert(l + " working `"@ + sp + "` on branch `"@ + sb + "` on host "@ + h + a6 =~= line);
    assert(line =~= (l + " working `"@) + a1);
    lemma_find_in_prefix(l + " working `"@, a1, " working `"@, l.len() as int);
    assert(line.skip(l.len() as int + 10) =~= a1);
    assert("`"@ =~= seq!['`']);
    assert(a1 =~= sp + ("`"@ + a2));
    lemma_find_char_after(sp, "`"@ + a2, '`');
    assert(a1.take(sp.len() as int) =~= sp);
    assert(a1.skip(sp.len() as int + 1) =~= a2);
    assert(a2.take(12) =~= " on branch `"@);
    lemma_find_at_start(a2, " on branch `"@);
    assert(a2.skip(12) =~= a3);
    assert(a3 =~= sb + ("`"@ + a4));
    lemma_find_char_after(sb, "`"@ + a4, '`');
    assert(a3.take(sb.len() as int) =~= sb);
    assert(a3.skip(sb.len() as int + 1) =~= a4);
    assert(a4.take(9) =~= " on host "@);
    assert(a4.skip(9) =~= a5);
    assert(a6 =~= " at "@ + a6.skip(4)) by {
        assert(a6.take(4) =~= " at "@);
    }
    assert(a5 =~= (h + " at "@) + a6.skip(4));
    lemma_find_in_prefix(h + " at "@, a6.skip(4), " at "@, h.len() as int);
    assert(a5.take(h.len() as int) =~= h);
    assert(a5.skip(h.len() as int) =~= a6);
    assert(host_clause(a4) == Some(("|"@ + h, a6)));
    assert(find(line, " working `"@) == Some(l.len() as int));
    assert(find(a1, "`"@) == Some(sp.len() as int));
    assert(find(a2, " on branch `"@) == Some(0int));
    assert(find(a3, "`"@) == Some(sb.len() as int));
    assert(("worktree:"@ + sp + "@"@ + sb) + ("|"@ + h) =~= "worktree:"@ + sp + "@"@ + sb + "|"@ + h);
}

/// Law: a worktree claim comment reads back as the identity it was
/// rendered for — `worktree:<path>@<branch>|<host>` with path and branch as
/// the comment shows them (sanitized) — together with its timestamp and
/// its login. It holds whenever the comment is one line with one claim in
/// it, the decoration does not look like a human claim nor hold the
/// ` working `` marker before its own, the host ends at its first ` at `,
/// the timestamp holds no comma and does not end with a dot, a login is a
/// valid one, and a takeover tail without a login clause does not look
/// like one.
#[verifier::rlimit(40)]
pub proof fn lemma_worktree_claim_round_trip(
    id: Identity,
    timestamp: Seq<char>,
    login: Option<Seq<char>>,
    takeover_from: Option<Seq<char>>,
)
    requires
        id is Worktree,
        !starts_with(decoration(id->Worktree_label), "@"@),
        find(decoration(id->Worktree_label) + " working `"@, " working `"@) == Some(
            decoration(id->Worktree_label).len() as int,
        ),
        find(id->Worktree_host@ + " at "@, " at "@) == Some(id->Worktree_host@.len() as int),
        !timestamp.contains(','),
        timestamp.len() == 0 || timestamp.last() != '.',
        login is Some ==> valid_login(login->Some_0),
        login is None ==> !contains(takeover_tail(takeover_from) + "."@, ", for @"@),
        !contains(claim_tail(id, timestamp, login, takeover_from), "\n"@),
        !contains(claim_tail(id, timestamp, login, takeover_from), CLAIM_COMMENT_PREFIX@),
    ensures
        parse_claim_spec(claim_body(id, timestamp, login, takeover_from)) == Some(
            ClaimFields {
                identity: "worktree:"@ + sanitize_name(id->Worktree_path@) + "@"@ + sanitize_name(
                    id->Worktree_branch@,
                ) + "|"@ + id->Worktree_host@,
                timestamp,
                login,
                raw: claim_body(id, timestamp, login, takeover_from),
            },
        ),
{
    reveal_strlit("Claimed by ");
    reveal_strlit("@");
    reveal_strlit(", taking over from `");
    reveal_strlit(", for @");
    reveal_strlit(" at ");
    reveal_strlit(" working `");
    let l = decoration(id->Worktree_label);
    let sp = sanitize_name(id->Worktree_path@);
    let sb = sanitize_name(id->Worktree_branch@);
    let h = id->Worktree_host@;
    let lc = login_clause(id, login);
    let tc = takeover_tail(takeover_from);
    let body = claim_body(id, timestamp, login, takeover_from);
    let prefix = CLAIM_COMMENT_PREFIX@;
    let a6 = " at "@ + (timestamp + lc + tc + "."@);
    let rest = l + " working `"@ + sp + "` on branch `"@ + sb + "` on host "@ + h + a6;
    assert(body =~= prefix + rest);
    assert(body.take(prefix.len() as int) =~= prefix);
    assert(body.skip(prefix.len() as int) =~= rest);
    lemma_find(rest, "\n"@);
    lemma_find(rest, prefix);
    assert(claim_line_spec(rest) =~= rest);
    if starts_with(rest, "@"@) {
        if l.len() > 0 {
            assert(rest[0] == l[0]);
            assert(l.take(1) =~= "@"@);
        } else {
            assert(rest[0] == ' ');
        }
    }
    if tc.len() > 0 {
        assert(tc[0] == ',');
    }
    lemma_after_host(timestamp, lc, tc, login);
    lemma_sanitized_has_no_backtick(id->Worktree_path@);
    lemma_sanitized_has_no_backtick(id->Worktree_branch@);
    assert(a6.take(4) =~= " at "@);
    lemma_worktree_line(l, sp, sb, h, a6, body);
}

/// Law: when the worktree's path and branch need no sanitizing, the
/// identity read back from its claim comment is the identity's own
/// compared string, so a claim compares equal to the identity that wrote it.
pub proof fn lemma_worktree_claim_identity_matches(
    id: Identity,
    timestamp: Seq<char>,
    login: Option<Seq<char>>,
    takeover_from: Option<Seq<char>>,
)
    requires
        id is Worktree,
        is_clean(id->Worktree_path@),
        is_clean(id->Worktree_branch@),
        !starts_with(decoration(id->Worktree_label), "@"@),
        find(decoration(id->Worktree_label) + " working `"@, " working `"@) == Some(
            decoration(id->Worktree_label).len() as int,
        ),
        find(id->Worktree_host@ + " at "@, " at "@) == Some(id->Worktree_host@.len() as int),
        !timestamp.contains(','),
        timestamp.len() == 0 || timestamp.last() != '.',
        login is Some ==> valid_login(login->Some_0),
        login is None ==> !contains(takeover_tail(takeover_from) + "."@, ", for @"@),
        !contains(claim_tail(id, timestamp, login, takeover_from), "\n"@),
        !contains(claim_tail(id, timestamp, login, takeover_from), CLAIM_COMMENT_PREFIX@),
    ensures
        parse_claim_spec(claim_body(id, timestamp, login, takeover_from)) is Some,
        parse_claim_spec(claim_body(id, timestamp, login, takeover_from))->Some_0.identity == identity_string(id),
{
    lemma_worktree_claim_round_trip(id, timestamp, login, takeover_from);
    lemma_sanitize_clean_fixed(id->Worktree_path@);
    lemma_sanitize_clean_fixed(id->Worktree_branch@);
}

// ---------------------------------------------------------------------------
// Round trip, human form
// ---------------------------------------------------------------------------

/// Law: a human claim comment reads back as `human:<login>@<host>` with
/// its timestamp and the login. It holds whenever the comment is one line
/// with one claim in it, the login is a valid one, the host holds no
/// backtick, and the timestamp holds no comma and does not end with a dot.
pub proof fn lemma_human_claim_round_trip(
    id: Identity,
    timestamp: Seq<char>,
    login: Option<Seq<char>>,
    takeover_from: Option<Seq<char>>,
)
    requires
        id is Human,
        valid_login(id->Human_login@),
        !id->Human_host@.contains('`'),
        !timestamp.contains(','),
        timestamp.len() == 0 || timestamp.last() != '.',
        !contains(claim_tail(id, timestamp, login, takeover_from), "\n"@),
        !contains(claim_tail(id, timestamp, login, takeover_from), CLAIM_COMMENT_PREFIX@),
    ensures
        parse_claim_spec(claim_body(id, timestamp, login, takeover_from)) == Some(
            ClaimFields {
                identity: identity_string(id),
                timestamp,
                login: Some(id->Human_login@),
                raw: claim_body(id, timestamp, login, takeover_from),
            },
        ),
{
    reveal_strlit("Claimed by ");
    reveal_strlit("@");
    reveal_strlit(" working from `");
    reveal_strlit("` at ");
    reveal_strlit("`");
    reveal_strlit(" at ");
    reveal_strlit("human:");
    reveal_strlit(", taking over from `");
    let lg = id->Human_login@;
    let h = id->Human_host@;
    let tc = takeover_tail(takeover_from);
    let lc = login_clause(id, login);
    assert(lc =~= Seq::<char>::empty());
    let body = claim_body(id, timestamp, login, takeover_from);
    let prefix = CLAIM_COMMENT_PREFIX@;
    let a6 = " at "@ + (timestamp + lc + tc + "."@);
    let after_marker = h + "`"@ + a6;
    let after_at = lg + " working from `"@ + after_marker;
    let rest = "@"@ + after_at;
    assert(body =~= prefix + rest);
    assert(body.take(prefix.len() as int) =~= prefix);
    assert(body.skip(prefix.len() as int) =~= rest);
    lemma_find(rest, "\n"@);
    lemma_find(rest, prefix);
    assert(claim_line_spec(rest) =~= rest);
    assert(rest.take(1) =~= "@"@);
    assert(rest.skip(1) =~= after_at);
    // the ` working from `` marker right after the login
    lemma_login_chars(lg);
    let m = " working from `"@;
    assert(after_at.subrange(lg.len() as int, lg.len() + m.len() as int) =~= m);
    assert forall|j: int| 0 <= j < lg.len() implies !#[trigger] occurs_at(after_at, m, j) by {
        if occurs_at(after_at, m, j) {
            assert(after_at.subrange(j, j + m.len())[0] == after_at[j]);
            assert(after_at[j] == lg[j]);
            assert(lg[j] == ' ');
        }
    }
    lemma_find_is(after_at, m, lg.len() as int);
    assert(after_at.take(lg.len() as int) =~= lg);
    assert(after_at.skip(lg.len() + m.len() as int) =~= after_marker);
    // the host
    assert("`"@ =~= seq!['`']);
    assert(after_marker =~= h + ("`"@ + a6));
    lemma_find_char_after(h, "`"@ + a6, '`');
    assert(after_marker.take(h.len() as int) =~= h);
    assert(after_marker.skip(h.len() as int + 1) =~= a6);
    // the timestamp (no login clause in the human form)
    if tc.len() > 0 {
        assert(tc[0] == ',');
    }
    lemma_after_host(timestamp, lc, tc, None);
    assert("human:"@ + lg + "@"@ + after_marker.take(h.len() as int) =~= identity_string(id));
}

// ---------------------------------------------------------------------------
// What an identity compares on
// ---------------------------------------------------------------------------

/// Law: the decorative label of a worktree identity never takes part in
/// comparison: two worktree identities with the same path, branch and host
/// compare equal whatever their labels.
pub proof fn lemma_identity_label_not_compared(
    path: String,
    branch: String,
    host: String,
    first: Option<String>,
    second: Option<String>,
)
    ensures
        identity_string(Identity::Worktree { path, branch, host, label: first }) == identity_string(
            Identity::Worktree { path, branch, host, label: second },
        ),
{
}

/// Law: two worktree identities that agree on two of path, branch and host
/// compare equal only when they also agree on the third, so a shared label
/// or name never makes two distinct worktrees (or machines) one holder.
pub proof fn lemma_worktree_identity_distinguishes(a: Identity, b: Identity)
    requires
        a is Worktree,
        b is Worktree,
        identity_string(a) == identity_string(b),
    ensures
        a->Worktree_branch@ == b->Worktree_branch@ && a->Worktree_host@ == b->Worktree_host@
            ==> a->Worktree_path@ == b->Worktree_path@,
        a->Worktree_path@ == b->Worktree_path@ && a->Worktree_host@ == b->Worktree_host@
            ==> a->Worktree_branch@ == b->Worktree_branch@,
        a->Worktree_path@ == b->Worktree_path@ && a->Worktree_branch@ == b->Worktree_branch@
            ==> a->Worktree_host@ == b->Worktree_host@,
{
    reveal_strlit("@");
    reveal_strlit("|");
    let w = "worktree:"@;
    let (pa, ba, ha) = (a->Worktree_path@, a->Worktree_branch@, a->Worktree_host@);
    let (pb, bb, hb) = (b->Worktree_path@, b->Worktree_branch@, b->Worktree_host@);
    let sa = identity_string(a);
    let sb = identity_string(b);
    assert(sa =~= w + pa + "@"@ + ba + "|"@ + ha);
    assert(sb =~= w + pb + "@"@ + bb + "|"@ + hb);
    let k = w.len() as int;
    if ba == bb && ha == hb {
        assert(pa.len() == pb.len());
        assert(sa.subrange(k, k + pa.len()) =~= pa);
        assert(sb.subrange(k, k + pb.len()) =~= pb);
    }
    if pa == pb && ha == hb {
        assert(ba.len() == bb.len());
        let m = k + pa.len() + 1;
        assert(sa.subrange(m, m + ba.len()) =~= ba);
        assert(sb.subrange(m, m + bb.len()) =~= bb);
    }
    if pa == pb && ba == bb {
        assert(ha.len() == hb.len());
        let m = k + pa.len() + 1 + ba.len() + 1;
        assert(sa.subrange(m, sa.len() as int) =~= ha);
        assert(sb.subrange(m, sb.len() as int) =~= hb);
    }
}

/// Law: a worktree identity and a human identity never compare equal.
pub proof fn lemma_worktree_never_equals_human(a: Identity, b: Identity)
    requires
        a is Worktree,
        b is Human,
    ensures
        identity_string(a) != identity_string(b),
{
    reveal_strlit("worktree:");
    reveal_strlit("human:");
    let sa = identity_string(a);
    let sb = identity_string(b);
    assert(sa[0] == 'w');
    assert(sb[0] == 'h');
}

/// Law: a release comment never reads back as a claim, so releasing an
/// issue can never be mistaken for someone holding it.
pub proof fn lemma_release_never_reads_as_claim(
    id: Identity,
    timestamp: Seq<char>,
    login: Option<Seq<char>>,
    forced_from: Option<Seq<char>>,
    reason: Option<Seq<char>>,
)
    ensures
        parse_claim_spec(release_body(id, timestamp, login, forced_from, reason)) is None,
{
    reveal_strlit("Released by ");
    reveal_strlit("Claimed by ");
    let body = release_body(id, timestamp, login, forced_from, reason);
    let clause = identity_clause(RELEASE_COMMENT_PREFIX@, id, timestamp);
    assert(clause[0] == 'R');
    assert(body[0] == clause[0]);
    if starts_with(body, CLAIM_COMMENT_PREFIX@) {
        assert(body.take(11)[0] == body[0]);
    }
}

} // verus!
