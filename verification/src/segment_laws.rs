//! What the clone-dir segment derived from a dispatch name can and cannot
//! hold: never a path separator, a NUL or a parent reference, never empty;
//! and an already-safe segment comes back unchanged.

use vstd::prelude::*;
use crate::issue_dispatch::{collapse_separators, has_alphanumeric, sanitize_segment_spec};
use crate::text::{
    contains, lemma_find, lemma_find_none, occurs_at, replace_all, replace_from, trim, trim_end, trim_start,
};

verus! {

broadcast use vstd::string::group_string_axioms;

/// A character that would let a segment nest or escape: `/`, `\` or NUL.
pub open spec fn is_separator_like(c: char) -> bool {
    c == '/' || c == '\\' || c == '\0'
}

/// No separator-like character and no two dots in a row.
pub open spec fn single_segment(s: Seq<char>) -> bool {
    &&& forall|k: int| 0 <= k < s.len() ==> !is_separator_like(#[trigger] s[k])
    &&& forall|k: int| 0 <= k < s.len() - 1 ==> !(#[trigger] s[k] == '.' && s[k + 1] == '.')
}

proof fn lemma_collapse_has_no_separator(s: Seq<char>)
    ensures
        forall|k: int| 0 <= k < collapse_separators(s).len() ==> !is_separator_like(
            #[trigger] collapse_separators(s)[k],
        ),
    decreases s.len(),
{
    if s.len() > 0 {
        let rest = collapse_separators(s.drop_last());
        lemma_collapse_has_no_separator(s.drop_last());
        let r = collapse_separators(s);
        assert forall|k: int| 0 <= k < r.len() implies !is_separator_like(#[trigger] r[k]) by {
            if k < rest.len() {
                assert(r[k] == rest[k]);
            }
        }
    }
}

/// Dropping `..` pairs keeps every character of the input and leaves no two
/// dots in a row.
proof fn lemma_remove_dots(s: Seq<char>, i: int)
    requires
        0 <= i <= s.len(),
        forall|k: int| 0 <= k < s.len() ==> !is_separator_like(#[trigger] s[k]),
    ensures
        single_segment(replace_from(s, ".."@, ""@, i)),
        i < s.len() && s[i] != '.' ==> replace_from(s, ".."@, ""@, i).len() > 0
            && replace_from(s, ".."@, ""@, i)[0] == s[i],
    decreases s.len() - i,
{
    reveal_strlit("..");
    reveal_strlit("");
    let r = replace_from(s, ".."@, ""@, i);
    if i >= s.len() {
        assert(r =~= Seq::<char>::empty());
    } else if occurs_at(s, ".."@, i) {
        lemma_remove_dots(s, i + 2);
        assert(r =~= replace_from(s, ".."@, ""@, i + 2));
        assert(s.subrange(i, i + 2)[0] == s[i]);
    } else {
        lemma_remove_dots(s, i + 1);
        let rest = replace_from(s, ".."@, ""@, i + 1);
        assert(r =~= seq![s[i]] + rest);
        if s[i] == '.' && i + 1 < s.len() {
            assert(s[i + 1] != '.') by {
                if s[i + 1] == '.' {
                    assert(s.subrange(i, i + 2) =~= ".."@);
                }
            }
            assert(!occurs_at(s, ".."@, i + 1)) by {
                if occurs_at(s, ".."@, i + 1) {
                    assert(s.subrange(i + 1, i + 3)[0] == s[i + 1]);
                }
            }
        }
        assert forall|k: int| 0 <= k < r.len() - 1 implies !(#[trigger] r[k] == '.' && r[k + 1]
            == '.') by {
            if k > 0 {
                assert(r[k] == rest[k - 1]);
                assert(r[k + 1] == rest[k]);
            }
        }
    }
}

proof fn lemma_single_segment_drop_first(s: Seq<char>)
    requires
        single_segment(s),
        s.len() > 0,
    ensures
        single_segment(s.drop_first()),
{
    let t = s.drop_first();
    assert forall|k: int| 0 <= k < t.len() - 1 implies !(#[trigger] t[k] == '.' && t[k + 1]
        == '.') by {
        assert(t[k] == s[k + 1]);
        assert(t[k + 1] == s[k + 2]);
    }
}

proof fn lemma_trim_keeps_single_segment(s: Seq<char>)
    requires
        single_segment(s),
    ensures
        single_segment(trim_start(s)),
        single_segment(trim_end(s)),
    decreases s.len(),
{
    if s.len() > 0 {
        lemma_single_segment_drop_first(s);
        lemma_trim_keeps_single_segment(s.drop_first());
        lemma_trim_keeps_single_segment(s.drop_last());
    }
}

/// A text with no two dots in a row does not contain `..`.
proof fn lemma_no_double_dot(s: Seq<char>)
    requires
        single_segment(s),
    ensures
        !contains(s, ".."@),
{
    reveal_strlit("..");
    assert forall|j: int| 0 <= j implies !#[trigger] occurs_at(s, ".."@, j) by {
        if occurs_at(s, ".."@, j) {
            assert(s.subrange(j, j + 2)[0] == s[j]);
            assert(s.subrange(j, j + 2)[1] == s[j + 1]);
        }
    }
    lemma_find_none(s, ".."@);
}

/// The segment derived from any dispatch name is a single, non-empty path
/// component: it holds no `/`, `\` or NUL and no `..`, so joined under a
/// working dir it can neither nest nor escape it.
pub proof fn lemma_sanitized_segment_is_single(name: Seq<char>)
    ensures
        sanitize_segment_spec(name).len() > 0,
        forall|k: int|
            0 <= k < sanitize_segment_spec(name).len() ==> !is_separator_like(
                #[trigger] sanitize_segment_spec(name)[k],
            ),
        !contains(sanitize_segment_spec(name), ".."@),
{
    reveal_strlit("issues");
    reveal_strlit("..");
    let collapsed = collapse_separators(name);
    lemma_collapse_has_no_separator(name);
    lemma_remove_dots(collapsed, 0);
    let removed = replace_all(collapsed, ".."@, ""@);
    lemma_trim_keeps_single_segment(removed);
    lemma_trim_keeps_single_segment(trim_start(removed));
    let trimmed = trim(removed);
    let r = sanitize_segment_spec(name);
    if has_alphanumeric(trimmed) {
        assert(r == trimmed);
    } else {
        assert(r =~= "issues"@);
        assert(single_segment(r)) by {
            assert forall|k: int| 0 <= k < r.len() - 1 implies !(#[trigger] r[k] == '.' && r[k
                + 1] == '.') by {}
        }
    }
    lemma_no_double_dot(r);
}

proof fn lemma_collapse_fixed(s: Seq<char>)
    requires
        forall|k: int| 0 <= k < s.len() ==> !is_separator_like(#[trigger] s[k]),
    ensures
        collapse_separators(s) == s,
    decreases s.len(),
{
    if s.len() > 0 {
        lemma_collapse_fixed(s.drop_last());
        assert(s.drop_last().push(s.last()) =~= s);
    }
}

proof fn lemma_replace_without_occurrence(s: Seq<char>, p: Seq<char>, r: Seq<char>, i: int)
    requires
        p.len() > 0,
        0 <= i <= s.len(),
        forall|j: int| 0 <= j ==> !#[trigger] occurs_at(s, p, j),
    ensures
        replace_from(s, p, r, i) == s.skip(i),
    decreases s.len() - i,
{
    if i < s.len() {
        lemma_replace_without_occurrence(s, p, r, i + 1);
        assert(seq![s[i]] + s.skip(i + 1) =~= s.skip(i));
    } else {
        assert(s.skip(i) =~= Seq::<char>::empty());
    }
}

/// A name that already is a safe segment (no `/`, `\`, NUL or `..`, no
/// surrounding whitespace, some alphanumeric character) is its own segment.
pub proof fn lemma_safe_segment_unchanged(name: Seq<char>)
    requires
        forall|k: int| 0 <= k < name.len() ==> !is_separator_like(#[trigger] name[k]),
        !contains(name, ".."@),
        trim(name) == name,
        has_alphanumeric(name),
    ensures
        sanitize_segment_spec(name) == name,
{
    reveal_strlit("..");
    lemma_collapse_fixed(name);
    lemma_find(name, ".."@);
    lemma_replace_without_occurrence(name, ".."@, ""@, 0);
    assert(name.skip(0) =~= name);
}

} // verus!
