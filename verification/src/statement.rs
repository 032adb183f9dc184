//! Lexical classification of SQL statements.

use vstd::prelude::*;
use vstd::string::*;

verus! {

/// How the results of a statement are collected.
#[derive(Clone, Copy, Debug, PartialEq, Eq, Structural)]
pub enum StatementKind {
    /// The statement returns rows; its first result set is kept.
    RowProducing,
    /// The statement changes state; every result set is discarded.
    RowAffecting,
}

/// Whether `c` has the Unicode `White_Space` property, as `char::is_whitespace` reports it.
pub uninterp spec fn is_whitespace(c: char) -> bool;

/// The lowercase form of `s`, as `str::to_lowercase` computes it.
pub uninterp spec fn lowercase(s: Seq<char>) -> Seq<char>;

/// `s` without its leading whitespace.
pub open spec fn trim_start(s: Seq<char>) -> Seq<char>
    decreases s.len(),
{
    if s.len() > 0 && is_whitespace(s[0]) {
        trim_start(s.drop_first())
    } else {
        s
    }
}

/// `s` without its trailing whitespace.
pub open spec fn trim_end(s: Seq<char>) -> Seq<char>
    decreases s.len(),
{
    if s.len() > 0 && is_whitespace(s.last()) {
        trim_end(s.drop_last())
    } else {
        s
    }
}

/// `s` without its leading and trailing whitespace.
pub open spec fn trim(s: Seq<char>) -> Seq<char> {
    trim_end(trim_start(s))
}

/// The keyword that marks a row-producing statement.
pub open spec fn select_keyword() -> Seq<char> {
    seq!['s', 'e', 'l', 'e', 'c', 't']
}

/// The form of a statement that is inspected: trimmed, then lowercased.
pub open spec fn folded(text: Seq<char>) -> Seq<char> {
    lowercase(trim(text))
}

/// The kind of a statement whose folded form is `folded`.
pub open spec fn kind_of_folded(folded: Seq<char>) -> StatementKind {
    if select_keyword().is_prefix_of(folded) {
        StatementKind::RowProducing
    } else {
        StatementKind::RowAffecting
    }
}

/// The kind of the statement `text`.
pub open spec fn kind_of(text: Seq<char>) -> StatementKind {
    kind_of_folded(folded(text))
}

/// Calls `char::is_whitespace`. The contract gives the answer the name
/// [`is_whitespace`]; which characters are whitespace is not stated here.
#[verifier::external_body]
fn char_is_whitespace(c: char) -> (b: bool)
    ensures
        b == is_whitespace(c),
{
    c.is_whitespace()
}

/// Calls `str::to_lowercase`. The contract gives the result the name
/// [`lowercase`]; the Unicode case mapping itself is not stated here.
#[verifier::external_body]
fn to_lowercase(s: &str) -> (r: String)
    ensures
        r@ == lowercase(s@),
{
    s.to_lowercase()
}

proof fn lemma_trim_start_skips(s: Seq<char>, i: int)
    requires
        0 <= i <= s.len(),
        forall|k: int| 0 <= k < i ==> is_whitespace(#[trigger] s[k]),
    ensures
        trim_start(s) == trim_start(s.subrange(i, s.len() as int)),
    decreases i,
{
    if i == 0 {
        assert(s.subrange(0, s.len() as int) =~= s);
    } else {
        lemma_trim_start_skips(s, i - 1);
        let t = s.subrange(i - 1, s.len() as int);
        assert(t[0] == s[i - 1]);
        assert(t.drop_first() =~= s.subrange(i, s.len() as int));
    }
}

proof fn lemma_trim_end_skips(s: Seq<char>, j: int)
    requires
        0 <= j <= s.len(),
        forall|k: int| j <= k < s.len() ==> is_whitespace(#[trigger] s[k]),
    ensures
        trim_end(s) == trim_end(s.subrange(0, j)),
    decreases s.len() - j,
{
    if j == s.len() {
        assert(s.subrange(0, j) =~= s);
    } else {
        lemma_trim_end_skips(s, j + 1);
        let t = s.subrange(0, j + 1);
        assert(t.last() == s[j]);
        assert(t.drop_last() =~= s.subrange(0, j));
    }
}

/// Removes leading and trailing whitespace from `text`.
pub fn trim_text(text: &str) -> (r: &str)
    ensures
        r@ == trim(text@),
{
    let n: usize = text.unicode_len();
    let mut start: usize = 0;
    while start < n
        invariant_except_break
            start <= n,
            n == text@.len(),
            forall|k: int| 0 <= k < start ==> is_whitespace(#[trigger] text@[k]),
        ensures
            start <= n,
            n == text@.len(),
            forall|k: int| 0 <= k < start ==> is_whitespace(#[trigger] text@[k]),
            start < n ==> !is_whitespace(text@[start as int]),
        decreases n - start,
    {
        if !char_is_whitespace(text.get_char(start)) {
            break;
        }
        start = start + 1;
    }
    let ghost rest = text@.subrange(start as int, n as int);
    proof {
        lemma_trim_start_skips(text@, start as int);
        assert(start < n ==> rest[0] == text@[start as int]);
        assert(trim_start(rest) == rest);
    }
    let mut end: usize = n;
    while end > start
        invariant_except_break
            start <= end <= n,
            n == text@.len(),
            forall|k: int| end <= k < n ==> is_whitespace(#[trigger] text@[k]),
        ensures
            start <= end <= n,
            n == text@.len(),
            forall|k: int| end <= k < n ==> is_whitespace(#[trigger] text@[k]),
            end > start ==> !is_whitespace(text@[end - 1]),
        decreases end,
    {
        if !char_is_whitespace(text.get_char(end - 1)) {
            break;
        }
        end = end - 1;
    }
    proof {
        let kept = rest.subrange(0, end - start);
        assert forall|k: int| end - start <= k < rest.len() implies is_whitespace(
            #[trigger] rest[k],
        ) by {
            assert(rest[k] == text@[start + k]);
        }
        lemma_trim_end_skips(rest, end - start);
        assert(end > start ==> kept.last() == text@[end - 1]);
        assert(trim_end(kept) == kept);
        assert(kept =~= text@.subrange(start as int, end as int));
    }
    text.substring_char(start, end)
}

/// Whether `text` begins with `prefix`.
pub fn has_prefix(text: &str, prefix: &str) -> (b: bool)
    ensures
        b == prefix@.is_prefix_of(text@),
{
    let m: usize = prefix.unicode_len();
    let n: usize = text.unicode_len();
    if m > n {
        return false;
    }
    let mut i: usize = 0;
    while i < m
        invariant
            i <= m <= n,
            m == prefix@.len(),
            n == text@.len(),
            forall|k: int| 0 <= k < i ==> prefix@[k] == text@[k],
        decreases m - i,
    {
        if prefix.get_char(i) != text.get_char(i) {
            return false;
        }
        i = i + 1;
    }
    assert(prefix@ =~= text@.subrange(0, m as int));
    true
}

/// Classifies a statement from its folded form: row-producing exactly when
/// the folded form begins with `select`.
pub fn classify_folded(folded: &str) -> (kind: StatementKind)
    ensures
        kind == kind_of_folded(folded@),
{
    proof {
        reveal_strlit("select");
        assert("select"@ =~= select_keyword());
    }
    if has_prefix(folded, "select") {
        StatementKind::RowProducing
    } else {
        StatementKind::RowAffecting
    }
}

/// Classifies a statement: its text is trimmed and lowercased, and it is
/// row-producing exactly when what remains begins with `select`. Every other
/// text, the empty one included, is row-affecting.
pub fn classify(text: &str) -> (kind: StatementKind)
    ensures
        kind == kind_of(text@),
{
    let lowered = to_lowercase(trim_text(text));
    classify_folded(lowered.as_str())
}

} // verus!
