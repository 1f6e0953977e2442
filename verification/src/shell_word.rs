//! How a POSIX shell reads one word (Shell Command Language, "Quoting"):
//! single quotes preserve every character up to the next single quote, an
//! unquoted backslash preserves the character after it, and an unquoted
//! blank or operator character ends the word. What `quote_shell_arg`
//! renders reads back as exactly the text it was given.

use vstd::prelude::*;
use crate::mode_manager::shell_quoted;
use crate::text::{occurs_at, replace_from};

verus! {

broadcast use vstd::string::group_string_axioms;

/// A character that, unquoted, ends a shell word or starts an operator.
pub open spec fn ends_word(c: char) -> bool {
    c == ' ' || c == '\t' || c == '\n' || c == ';' || c == '&' || c == '|' || c == '<' || c == '>'
        || c == '(' || c == ')'
}

/// `p` in front of what `o` read, when it read anything.
pub open spec fn prefixed(p: Seq<char>, o: Option<Seq<char>>) -> Option<Seq<char>> {
    match o {
        Some(v) => Some(p + v),
        None => None,
    }
}

/// The rest of a word read after an opening single quote: `None` when the
/// quote is never closed or the word ends early.
pub open spec fn read_quoted(t: Seq<char>) -> Option<Seq<char>>
    decreases t.len(),
{
    if t.len() == 0 {
        None
    } else if t[0] == '\'' {
        read_plain(t.drop_first())
    } else {
        prefixed(seq![t[0]], read_quoted(t.drop_first()))
    }
}

/// The value of `t` read as one whole unquoted-context shell word: `None`
/// when `t` is not exactly one word.
pub open spec fn read_plain(t: Seq<char>) -> Option<Seq<char>>
    decreases t.len(),
{
    if t.len() == 0 {
        Some(Seq::empty())
    } else if t[0] == '\'' {
        read_quoted(t.drop_first())
    } else if t[0] == '\\' && t.len() >= 2 {
        prefixed(seq![t[1]], read_plain(t.skip(2)))
    } else if ends_word(t[0]) {
        None
    } else {
        prefixed(seq![t[0]], read_plain(t.drop_first()))
    }
}

proof fn lemma_quoted_body_reads_back(s: Seq<char>, i: int)
    requires
        0 <= i <= s.len(),
    ensures
        read_quoted(replace_from(s, seq!['\''], seq!['\'', '\\', '\'', '\''], i) + seq!['\''])
            == Some(s.skip(i)),
    decreases s.len() - i,
{
    let q = seq!['\''];
    let esc = seq!['\'', '\\', '\'', '\''];
    let body = replace_from(s, q, esc, i);
    let t = body + q;
    if i >= s.len() {
        assert(body =~= Seq::<char>::empty());
        assert(t =~= q);
        assert(t.drop_first() =~= Seq::<char>::empty());
        assert(s.skip(i) =~= Seq::<char>::empty());
        assert(t[0] == '\'');
        assert(read_plain(t.drop_first()) == Some(Seq::<char>::empty()));
        assert(read_quoted(t) == Some(s.skip(i)));
    } else if occurs_at(s, q, i) {
        lemma_quoted_body_reads_back(s, i + 1);
        let rest = replace_from(s, q, esc, i + 1) + q;
        assert(body == esc + replace_from(s, q, esc, i + 1));
        assert(t =~= esc + rest);
        assert(s.subrange(i, i + 1)[0] == s[i]);
        assert(s[i] == '\'');
        let t1 = t.drop_first();
        assert(t1 =~= seq!['\\', '\'', '\''] + rest);
        assert(t1.skip(2) =~= seq!['\''] + rest);
        assert((seq!['\''] + rest).drop_first() =~= rest);
        assert(read_plain(seq!['\''] + rest) == read_quoted(rest));
        assert(read_plain(t1) == prefixed(seq!['\''], read_quoted(rest)));
        assert(seq!['\''] + s.skip(i + 1) =~= s.skip(i));
        assert(t[0] == '\'');
        assert(t1[0] == '\\');
        assert(t1[1] == '\'');
        assert(read_quoted(t) == read_plain(t1));
        assert(read_quoted(t) == Some(s.skip(i)));
    } else {
        lemma_quoted_body_reads_back(s, i + 1);
        let rest = replace_from(s, q, esc, i + 1) + q;
        assert(s[i] != '\'') by {
            if s[i] == '\'' {
                assert(s.subrange(i, i + 1) =~= q);
            }
        }
        assert(t =~= seq![s[i]] + rest);
        assert(t.drop_first() =~= rest);
        assert(seq![s[i]] + s.skip(i + 1) =~= s.skip(i));
        assert(t[0] == s[i]);
        assert(read_quoted(t) == prefixed(seq![s[i]], read_quoted(rest)));
        assert(read_quoted(t) == Some(s.skip(i)));
    }
}

/// A POSIX shell reads `quote_shell_arg(s)` back as the single word `s`,
/// whatever characters `s` holds (quotes, backslashes, newlines, `$`,
/// blanks and operators included).
pub proof fn lemma_shell_quoted_reads_back(s: Seq<char>)
    ensures
        read_plain(shell_quoted(s)) == Some(s),
{
    let q = seq!['\''];
    let esc = seq!['\'', '\\', '\'', '\''];
    lemma_quoted_body_reads_back(s, 0);
    let t = shell_quoted(s);
    let body = replace_from(s, q, esc, 0);
    assert(t =~= q + (body + q));
    assert(t.drop_first() =~= body + q);
    assert(s.skip(0) =~= s);
}

} // verus!
