//! What the dispatch flow reads out of `gh`'s JSON replies: the claim label,
//! the newest claim comment, the current assignees, the open-issue list and
//! the open-PR probe.
//!
//! A reply is handed over as a [`JsonValue`] tree of plain values; every
//! reader here is total over that tree — a missing or malformed field
//! degrades to "absent" exactly where the reader's own contract says so.

use vstd::prelude::*;
use crate::text::{chars_of, starts_with, starts_with_exec, str_eq, string_of, trim, trim_exec};
use crate::claim::{
    claim_view, parse_claim_fields, parse_claim_spec, ClaimFields, ParsedClaim,
    CLAIM_COMMENT_PREFIX,
};
use crate::issue_dispatch::IN_PROGRESS_LABEL;

verus! {

broadcast use vstd::string::group_string_axioms;

/// A JSON document as plain values. `Number` carries the value when it is a
/// non-negative integer that fits a `u64` (`serde_json::Value::as_u64`),
/// otherwise `None`. An object is its members in order.
#[derive(Debug)]
pub enum JsonValue {
    Null,
    Bool(bool),
    Number(Option<u64>),
    Str(String),
    Array(Vec<JsonValue>),
    Object(Vec<(String, JsonValue)>),
}

// ---------------------------------------------------------------------------
// JSON text
// ---------------------------------------------------------------------------

#[verifier::external_type_specification]
#[verifier::external_body]
pub struct ExValue(serde_json::Value);

/// The outcome of `serde_json::from_str::<serde_json::Value>` on a text: the
/// document as a [`JsonValue`], or the parser error's `Display` text.
pub uninterp spec fn json_document(text: Seq<char>) -> Result<JsonValue, Seq<char>>;

/// The plain-value copy of a parsed `serde_json::Value`: every variant is
/// moved across one for one, a number through `Number::as_u64`. Called only
/// by [`parse_json_text`], whose contract covers the composition.
#[verifier::external_body]
fn json_value_of(v: &serde_json::Value) -> JsonValue {
    match v {
        serde_json::Value::Null => JsonValue::Null,
        serde_json::Value::Bool(b) => JsonValue::Bool(*b),
        serde_json::Value::Number(n) => JsonValue::Number(n.as_u64()),
        serde_json::Value::String(s) => JsonValue::Str(s.clone()),
        serde_json::Value::Array(a) => JsonValue::Array(a.iter().map(json_value_of).collect()),
        serde_json::Value::Object(m) => JsonValue::Object(
            m.iter().map(|(k, x)| (k.clone(), json_value_of(x))).collect(),
        ),
    }
}

/// `serde_json::from_str::<serde_json::Value>(text)`, the document copied
/// into a [`JsonValue`] and the error rendered with `Display`. The contract
/// only names the outcome as a function of `text`; what the parser accepts
/// is serde_json's grammar and is not restated here.
#[verifier::external_body]
fn parse_json_text(text: &str) -> (r: Result<JsonValue, String>)
    ensures
        match r {
            Ok(v) => json_document(text@) == Ok::<JsonValue, Seq<char>>(v),
            Err(e) => json_document(text@) == Err::<JsonValue, Seq<char>>(e@),
        },
{
    match serde_json::from_str::<serde_json::Value>(text) {
        Ok(v) => Ok(json_value_of(&v)),
        Err(e) => Err(e.to_string()),
    }
}

/// Parse a `gh` reply: the text trimmed of surrounding whitespace, then
/// handed to the JSON parser; a parse failure becomes
/// `failed to parse `<what>` JSON: <parser error>`.
pub fn parse_gh_json(text: &str, what: &str) -> (r: Result<JsonValue, String>)
    ensures
        match json_document(trim(text@)) {
            Ok(v) => r == Ok::<JsonValue, String>(v),
            Err(e) => r is Err && r->Err_0@ == "failed to parse `"@ + what@ + "` JSON: "@ + e,
        },
{
    let t = string_of(&trim_exec(&chars_of(text)));
    match parse_json_text(t.as_str()) {
        Ok(v) => Ok(v),
        Err(e) => {
            let mut msg = chars_of("failed to parse `");
            crate::text::extend_str(&mut msg, what);
            crate::text::extend_str(&mut msg, "` JSON: ");
            crate::text::extend_str(&mut msg, e.as_str());
            Err(string_of(&msg))
        },
    }
}

/// The first member of `members` named `key`.
pub open spec fn member(members: Seq<(String, JsonValue)>, key: Seq<char>) -> Option<JsonValue>
    decreases members.len(),
{
    if members.len() == 0 {
        None
    } else if members[0].0@ == key {
        Some(members[0].1)
    } else {
        member(members.drop_first(), key)
    }
}

/// `value[key]` for an object, `None` otherwise (`Value::get`).
pub open spec fn get(v: JsonValue, key: Seq<char>) -> Option<JsonValue> {
    match v {
        JsonValue::Object(members) => member(members@, key),
        _ => None,
    }
}

/// `value.get(key).and_then(as_str)`.
pub open spec fn get_str(v: JsonValue, key: Seq<char>) -> Option<Seq<char>> {
    match get(v, key) {
        Some(JsonValue::Str(s)) => Some(s@),
        _ => None,
    }
}

/// `value.get(key).and_then(as_array)`.
pub open spec fn get_array(v: JsonValue, key: Seq<char>) -> Option<Seq<JsonValue>> {
    match get(v, key) {
        Some(JsonValue::Array(items)) => Some(items@),
        _ => None,
    }
}

fn member_exec<'a>(members: &'a Vec<(String, JsonValue)>, key: &str) -> (r: Option<&'a JsonValue>)
    ensures
        match r {
            Some(v) => member(members@, key@) == Some(*v),
            None => member(members@, key@) is None,
        },
{
    let mut i: usize = 0;
    assert(members@.skip(0) =~= members@);
    while i < members.len()
        invariant
            i <= members.len(),
            member(members@, key@) == member(members@.skip(i as int), key@),
        decreases members.len() - i,
    {
        assert(members@.skip(i as int).drop_first() =~= members@.skip(i + 1));
        assert(members@.skip(i as int)[0] == members@[i as int]);
        if str_eq(members[i].0.as_str(), key) {
            return Some(&members[i].1);
        }
        i = i + 1;
    }
    None
}

/// `value.get(key)`.
pub fn get_exec<'a>(v: &'a JsonValue, key: &str) -> (r: Option<&'a JsonValue>)
    ensures
        match r {
            Some(x) => get(*v, key@) == Some(*x),
            None => get(*v, key@) is None,
        },
{
    match v {
        JsonValue::Object(members) => member_exec(members, key),
        _ => None,
    }
}

/// `value.get(key).and_then(as_str)`.
pub fn get_str_exec<'a>(v: &'a JsonValue, key: &str) -> (r: Option<&'a String>)
    ensures
        match r {
            Some(s) => get_str(*v, key@) == Some(s@),
            None => get_str(*v, key@) is None,
        },
{
    match get_exec(v, key) {
        Some(JsonValue::Str(s)) => Some(s),
        _ => None,
    }
}

/// `value.get(key).and_then(as_array)`.
pub fn get_array_exec<'a>(v: &'a JsonValue, key: &str) -> (r: Option<&'a Vec<JsonValue>>)
    ensures
        match r {
            Some(a) => get_array(*v, key@) == Some(a@),
            None => get_array(*v, key@) is None,
        },
{
    match get_exec(v, key) {
        Some(JsonValue::Array(items)) => Some(items),
        _ => None,
    }
}

// ---------------------------------------------------------------------------
// Claim state
// ---------------------------------------------------------------------------

/// Some element of `labels` has `name == label`.
pub open spec fn names_label(labels: Seq<JsonValue>, label: Seq<char>) -> bool {
    exists|i: int| 0 <= i < labels.len() && get_str(#[trigger] labels[i], "name"@) == Some(label)
}

/// The document's `labels` array carries [`IN_PROGRESS_LABEL`].
pub open spec fn in_progress_labelled(doc: JsonValue) -> bool {
    match get_array(doc, "labels"@) {
        Some(labels) => names_label(labels, IN_PROGRESS_LABEL@),
        None => false,
    }
}

/// The comment's `body` is a string starting with the claim prefix.
pub open spec fn is_claim_comment(c: JsonValue) -> bool {
    match get_str(c, "body"@) {
        Some(b) => starts_with(b, CLAIM_COMMENT_PREFIX@),
        None => false,
    }
}

/// The body of the LAST claim comment in `comments`, if any.
pub open spec fn newest_claim_body(comments: Seq<JsonValue>) -> Option<Seq<char>>
    decreases comments.len(),
{
    if comments.len() == 0 {
        None
    } else if is_claim_comment(comments.last()) {
        get_str(comments.last(), "body"@)
    } else {
        newest_claim_body(comments.drop_last())
    }
}

/// The newest claim is the last comment whose body starts with the claim
/// prefix, whatever comes after it: a comment appended after the others
/// leaves the newest claim as it was unless its own body is a claim, and
/// then it is the newest claim. With no comments there is none.
pub proof fn lemma_newest_claim_is_last_claim(comments: Seq<JsonValue>, c: JsonValue)
    ensures
        newest_claim_body(Seq::empty()) is None,
        (match get_str(c, "body"@) {
            Some(b) => starts_with(b, CLAIM_COMMENT_PREFIX@),
            None => false,
        }) ==> newest_claim_body(comments.push(c)) == get_str(c, "body"@),
        !(match get_str(c, "body"@) {
            Some(b) => starts_with(b, CLAIM_COMMENT_PREFIX@),
            None => false,
        }) ==> newest_claim_body(comments.push(c)) == newest_claim_body(comments),
{
    assert(comments.push(c).drop_last() =~= comments);
    assert(comments.push(c).last() == c);
}

/// The parsed newest claim comment of a `gh issue view --json comments`
/// document (`None` when there is none, or it does not parse).
pub open spec fn newest_claim(doc: JsonValue) -> Option<ClaimFields> {
    match get_array(doc, "comments"@) {
        Some(comments) => match newest_claim_body(comments) {
            Some(b) => parse_claim_spec(b),
            None => None,
        },
        None => None,
    }
}

/// The `login` strings of the document's `assignees` array, in order;
/// entries without a string `login` are skipped, and a missing or
/// non-array field reads as no assignees.
pub open spec fn logins_of(items: Seq<JsonValue>) -> Seq<Seq<char>>
    decreases items.len(),
{
    if items.len() == 0 {
        Seq::empty()
    } else {
        let rest = logins_of(items.drop_last());
        match get_str(items.last(), "login"@) {
            Some(l) => rest.push(l),
            None => rest,
        }
    }
}

/// The current assignee logins of a `gh issue view` document.
pub open spec fn assignees_of(doc: JsonValue) -> Seq<Seq<char>> {
    match get_array(doc, "assignees"@) {
        Some(items) => logins_of(items),
        None => Seq::empty(),
    }
}

/// The characters of each string.
pub open spec fn strings_view(v: Seq<String>) -> Seq<Seq<char>> {
    v.map_values(|s: String| s@)
}

fn labels_contain(labels: &Vec<JsonValue>, label: &str) -> (b: bool)
    ensures
        b == names_label(labels@, label@),
{
    let mut i: usize = 0;
    while i < labels.len()
        invariant
            i <= labels.len(),
            forall|j: int| 0 <= j < i ==> get_str(#[trigger] labels@[j], "name"@) != Some(label@),
        decreases labels.len() - i,
    {
        match get_str_exec(&labels[i], "name") {
            Some(n) => {
                if str_eq(n.as_str(), label) {
                    return true;
                }
            },
            None => {},
        }
        proof {
            reveal_strlit("name");
        }
        i = i + 1;
    }
    false
}

/// Whether the document's `labels` carry the `in-progress` claim label.
pub fn in_progress_label_present(doc: &JsonValue) -> (b: bool)
    ensures
        b == in_progress_labelled(*doc),
{
    match get_array_exec(doc, "labels") {
        Some(labels) => labels_contain(labels, IN_PROGRESS_LABEL),
        None => false,
    }
}

fn is_claim_comment_exec(c: &JsonValue) -> (b: bool)
    ensures
        b == is_claim_comment(*c),
{
    match get_str_exec(c, "body") {
        Some(body) => {
            let s = chars_of(body.as_str());
            let p = chars_of(CLAIM_COMMENT_PREFIX);
            starts_with_exec(&s, &p)
        },
        None => false,
    }
}

/// The newest claim comment of a `gh issue view` document, parsed: the LAST
/// comment whose body starts with the claim prefix, run through
/// [`parse_claim_fields`].
pub fn newest_claim_comment(doc: &JsonValue) -> (r: Option<ParsedClaim>)
    ensures
        claim_view(r) == newest_claim(*doc),
{
    let comments = match get_array_exec(doc, "comments") {
        Some(c) => c,
        None => return None,
    };
    let mut i: usize = comments.len();
    assert(comments@.take(i as int) =~= comments@);
    while i > 0
        invariant
            i <= comments.len(),
            newest_claim_body(comments@) == newest_claim_body(comments@.take(i as int)),
            get_array(*doc, "comments"@) == Some(comments@),
        decreases i,
    {
        assert(comments@.take(i as int).drop_last() =~= comments@.take(i - 1));
        assert(comments@.take(i as int).last() == comments@[i - 1]);
        if is_claim_comment_exec(&comments[i - 1]) {
            let body = get_str_exec(&comments[i - 1], "body");
            match body {
                Some(b) => {
                    return parse_claim_fields(b.as_str());
                },
                None => return None,
            }
        }
        i = i - 1;
    }
    None
}

/// The current assignee logins of a `gh issue view` document.
pub fn current_assignees(doc: &JsonValue) -> (r: Vec<String>)
    ensures
        strings_view(r@) == assignees_of(*doc),
{
    let mut out: Vec<String> = Vec::new();
    let items = match get_array_exec(doc, "assignees") {
        Some(items) => items,
        None => {
            assert(strings_view(out@) =~= Seq::<Seq<char>>::empty());
            return out;
        },
    };
    let mut i: usize = 0;
    while i < items.len()
        invariant
            i <= items.len(),
            strings_view(out@) == logins_of(items@.take(i as int)),
        decreases items.len() - i,
    {
        assert(items@.take(i + 1).drop_last() =~= items@.take(i as int));
        assert(items@.take(i + 1).last() == items@[i as int]);
        match get_str_exec(&items[i], "login") {
            Some(l) => {
                out.push(l.clone());
                assert(strings_view(out@) =~= logins_of(items@.take(i + 1)));
            },
            None => {},
        }
        i = i + 1;
    }
    assert(items@.take(items.len() as int) =~= items@);
    out
}

/// (label present, newest claim, current assignees) out of one
/// `gh issue view --json labels,comments,assignees` document.
pub fn claim_state(doc: &JsonValue) -> (r: (bool, Option<ParsedClaim>, Vec<String>))
    ensures
        r.0 == in_progress_labelled(*doc),
        claim_view(r.1) == newest_claim(*doc),
        strings_view(r.2@) == assignees_of(*doc),
{
    (in_progress_label_present(doc), newest_claim_comment(doc), current_assignees(doc))
}

// ---------------------------------------------------------------------------
// Open issues / open PRs
// ---------------------------------------------------------------------------

/// One entry from `gh issue list --json number,labels`.
#[derive(Debug, Clone, Copy, PartialEq, Eq)]
pub struct OpenIssue {
    pub number: u64,
    pub in_progress_label: bool,
}

/// The issue number of an entry, when it has a numeric `number`.
pub open spec fn issue_number(v: JsonValue) -> Option<u64> {
    match get(v, "number"@) {
        Some(JsonValue::Number(Some(n))) => Some(n),
        _ => None,
    }
}

/// The open issues of a `gh issue list` array, in order; entries without a
/// numeric `number` are skipped.
pub open spec fn open_issues_of(items: Seq<JsonValue>) -> Seq<OpenIssue>
    decreases items.len(),
{
    if items.len() == 0 {
        Seq::empty()
    } else {
        let rest = open_issues_of(items.drop_last());
        match issue_number(items.last()) {
            Some(n) => rest.push(
                OpenIssue { number: n, in_progress_label: in_progress_labelled(items.last()) },
            ),
            None => rest,
        }
    }
}

/// Read a `gh issue list --json number,labels` reply: an array of
/// (number, in-progress label) in returned order; anything but an array is
/// refused.
pub fn open_issues(doc: &JsonValue) -> (r: Result<Vec<OpenIssue>, String>)
    ensures
        match r {
            Ok(v) => doc is Array && v@ == open_issues_of(doc->Array_0@),
            Err(e) => !(doc is Array) && e@ == "`gh issue list` did not return a JSON array"@,
        },
{
    let items = match doc {
        JsonValue::Array(items) => items,
        _ => return Err("`gh issue list` did not return a JSON array".to_string()),
    };
    let mut out: Vec<OpenIssue> = Vec::new();
    let mut i: usize = 0;
    while i < items.len()
        invariant
            i <= items.len(),
            out@ == open_issues_of(items@.take(i as int)),
        decreases items.len() - i,
    {
        assert(items@.take(i + 1).drop_last() =~= items@.take(i as int));
        assert(items@.take(i + 1).last() == items@[i as int]);
        match get_exec(&items[i], "number") {
            Some(JsonValue::Number(Some(n))) => {
                let labelled = in_progress_label_present(&items[i]);
                out.push(OpenIssue { number: *n, in_progress_label: labelled });
            },
            _ => {},
        }
        i = i + 1;
    }
    assert(items@.take(items.len() as int) =~= items@);
    Ok(out)
}

/// Read a `gh pr list --json number` reply: `true` for a non-empty array;
/// anything but an array is refused rather than read as "no PR".
pub fn open_pr_present(doc: &JsonValue) -> (r: Result<bool, String>)
    ensures
        match r {
            Ok(b) => doc is Array && b == (doc->Array_0@.len() > 0),
            Err(e) => !(doc is Array) && e@ == "`gh pr list` did not return a JSON array"@,
        },
{
    match doc {
        JsonValue::Array(items) => Ok(items.len() > 0),
        _ => Err("`gh pr list` did not return a JSON array".to_string()),
    }
}

// ---------------------------------------------------------------------------
// Entry points on raw `gh` output
// ---------------------------------------------------------------------------

/// Parse a `gh issue view --json labels,comments,assignees` reply into
/// (label present, newest claim, current assignees).
pub fn parse_claim_state(json: &str) -> (r: Result<(bool, Option<ParsedClaim>, Vec<String>), String>)
    ensures
        match json_document(trim(json@)) {
            Ok(doc) => r is Ok && {
                let t = r->Ok_0;
                &&& t.0 == in_progress_labelled(doc)
                &&& claim_view(t.1) == newest_claim(doc)
                &&& strings_view(t.2@) == assignees_of(doc)
            },
            Err(e) => r is Err && r->Err_0@ == "failed to parse `gh issue view` JSON: "@ + e,
        },
{
    let doc = match parse_gh_json(json, "gh issue view") {
        Ok(d) => d,
        Err(e) => {
            proof {
                reveal_strlit("failed to parse `");
                reveal_strlit("gh issue view");
                reveal_strlit("` JSON: ");
                reveal_strlit("failed to parse `gh issue view` JSON: ");
                assert("failed to parse `"@ + "gh issue view"@ + "` JSON: "@ =~= "failed to parse `gh issue view` JSON: "@);
            }
            return Err(e);
        },
    };
    Ok(claim_state(&doc))
}

/// Parse a `gh issue view --json ...,assignees` reply into the current
/// assignee logins alone.
pub fn parse_current_assignees(json: &str) -> (r: Result<Vec<String>, String>)
    ensures
        match json_document(trim(json@)) {
            Ok(doc) => r is Ok && strings_view(r->Ok_0@) == assignees_of(doc),
            Err(e) => r is Err && r->Err_0@ == "failed to parse `gh issue view` JSON: "@ + e,
        },
{
    let doc = match parse_gh_json(json, "gh issue view") {
        Ok(d) => d,
        Err(e) => {
            proof {
                reveal_strlit("failed to parse `");
                reveal_strlit("gh issue view");
                reveal_strlit("` JSON: ");
                reveal_strlit("failed to parse `gh issue view` JSON: ");
                assert("failed to parse `"@ + "gh issue view"@ + "` JSON: "@ =~= "failed to parse `gh issue view` JSON: "@);
            }
            return Err(e);
        },
    };
    Ok(current_assignees(&doc))
}

/// Parse a `gh issue view --json comments` reply into its newest claim.
pub fn parse_claim_comment(json: &str) -> (r: Result<Option<ParsedClaim>, String>)
    ensures
        match json_document(trim(json@)) {
            Ok(doc) => r is Ok && claim_view(r->Ok_0) == newest_claim(doc),
            Err(e) => r is Err && r->Err_0@ == "failed to parse `gh issue view` JSON: "@ + e,
        },
{
    let doc = match parse_gh_json(json, "gh issue view") {
        Ok(d) => d,
        Err(e) => {
            proof {
                reveal_strlit("failed to parse `");
                reveal_strlit("gh issue view");
                reveal_strlit("` JSON: ");
                reveal_strlit("failed to parse `gh issue view` JSON: ");
                assert("failed to parse `"@ + "gh issue view"@ + "` JSON: "@ =~= "failed to parse `gh issue view` JSON: "@);
            }
            return Err(e);
        },
    };
    Ok(newest_claim_comment(&doc))
}

/// Parse a `gh issue list --json number,labels` reply.
pub fn parse_open_issues(json: &str) -> (r: Result<Vec<OpenIssue>, String>)
    ensures
        match json_document(trim(json@)) {
            Ok(doc) => match doc {
                JsonValue::Array(items) => r is Ok && r->Ok_0@ == open_issues_of(items@),
                _ => r is Err && r->Err_0@ == "`gh issue list` did not return a JSON array"@,
            },
            Err(e) => r is Err && r->Err_0@ == "failed to parse `gh issue list` JSON: "@ + e,
        },
{
    let doc = match parse_gh_json(json, "gh issue list") {
        Ok(d) => d,
        Err(e) => {
            proof {
                reveal_strlit("failed to parse `");
                reveal_strlit("gh issue list");
                reveal_strlit("` JSON: ");
                reveal_strlit("failed to parse `gh issue list` JSON: ");
                assert("failed to parse `"@ + "gh issue list"@ + "` JSON: "@ =~= "failed to parse `gh issue list` JSON: "@);
            }
            return Err(e);
        },
    };
    open_issues(&doc)
}

/// Parse a `gh pr list --json number` reply: whether any PR is open.
pub fn parse_open_pr_present(json: &str) -> (r: Result<bool, String>)
    ensures
        match json_document(trim(json@)) {
            Ok(doc) => match doc {
                JsonValue::Array(items) => r == Ok::<bool, String>(items@.len() > 0),
                _ => r is Err && r->Err_0@ == "`gh pr list` did not return a JSON array"@,
            },
            Err(e) => r is Err && r->Err_0@ == "failed to parse `gh pr list` JSON: "@ + e,
        },
{
    let doc = match parse_gh_json(json, "gh pr list") {
        Ok(d) => d,
        Err(e) => {
            proof {
                reveal_strlit("failed to parse `");
                reveal_strlit("gh pr list");
                reveal_strlit("` JSON: ");
                reveal_strlit("failed to parse `gh pr list` JSON: ");
                assert("failed to parse `"@ + "gh pr list"@ + "` JSON: "@ =~= "failed to parse `gh pr list` JSON: "@);
            }
            return Err(e);
        },
    };
    open_pr_present(&doc)
}

} // verus!
