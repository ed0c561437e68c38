//! Lines of a text: where line breaks end and where lines start.

use vstd::prelude::*;

verus! {

/// Whether a character is, or may end, a line break: line feed, carriage
/// return, vertical tab, form feed, next line, line separator and
/// paragraph separator.
pub open spec fn is_break_char(c: char) -> bool {
    c == '\u{0A}' || c == '\u{0D}' || c == '\u{0B}' || c == '\u{0C}' || c == '\u{85}' || c
        == '\u{2028}' || c == '\u{2029}'
}

/// Whether a line break ends just before index `i`. A carriage return
/// that a line feed follows is no line break of its own: the two are one.
pub open spec fn break_ends_at(text: Seq<char>, i: int) -> bool {
    &&& 0 < i <= text.len()
    &&& is_break_char(text[i - 1])
    &&& !(text[i - 1] == '\u{0D}' && i < text.len() && text[i] == '\u{0A}')
}

/// The number of line breaks that end within the first `n` characters.
pub open spec fn breaks_before(text: Seq<char>, n: int) -> nat
    decreases n,
{
    if n <= 0 {
        0
    } else if break_ends_at(text, n) {
        breaks_before(text, n - 1) + 1
    } else {
        breaks_before(text, n - 1)
    }
}

/// The number of lines of a text: one more than its line breaks. A text
/// that ends in a line break has an empty last line.
pub open spec fn line_count(text: Seq<char>) -> nat {
    breaks_before(text, text.len() as int) + 1
}

/// The first index, from `from` on, before which exactly `line` line
/// breaks end; the length of the text where there is none.
pub open spec fn line_start_from(text: Seq<char>, line: int, from: int) -> int
    decreases text.len() - from,
{
    if from < 0 || from >= text.len() {
        text.len() as int
    } else if breaks_before(text, from) == line {
        from
    } else {
        line_start_from(text, line, from + 1)
    }
}

/// The index at which line `line` starts: the start of the text for line
/// 0, the end of a line break for a later line. The line one past the
/// last starts at the end of the text.
pub open spec fn line_start(text: Seq<char>, line: int) -> int {
    line_start_from(text, line, 0)
}

/// The characters of line `line`, its line break included.
pub open spec fn line_text(text: Seq<char>, line: int) -> Seq<char> {
    text.subrange(line_start(text, line), line_start(text, line + 1))
}

/// A line starts within the text or at its end.
pub proof fn lemma_line_start_from_bound(text: Seq<char>, line: int, from: int)
    requires
        0 <= from <= text.len(),
    ensures
        from <= line_start_from(text, line, from) <= text.len(),
    decreases text.len() - from,
{
    if from < text.len() && breaks_before(text, from) != line {
        lemma_line_start_from_bound(text, line, from + 1);
    }
}

/// A line starts within the text or at its end.
pub proof fn lemma_line_start_bound(text: Seq<char>, line: int)
    ensures
        0 <= line_start(text, line) <= text.len(),
{
    lemma_line_start_from_bound(text, line, 0);
}

/// The count of line breaks grows by at most one from one index to the
/// next, and never falls.
pub proof fn lemma_breaks_monotone(text: Seq<char>, i: int, j: int)
    requires
        0 <= i <= j,
    ensures
        breaks_before(text, i) <= breaks_before(text, j) <= breaks_before(text, i) + (j - i),
    decreases j - i,
{
    if i < j {
        lemma_breaks_monotone(text, i, j - 1);
    }
}

/// Every count from zero up to the count at `n` is the count at some
/// index up to `n`.
pub proof fn lemma_breaks_reach(text: Seq<char>, line: int, n: int) -> (k: int)
    requires
        0 <= n,
        0 <= line <= breaks_before(text, n),
    ensures
        0 <= k <= n,
        breaks_before(text, k) == line,
    decreases n,
{
    if breaks_before(text, n) == line {
        n
    } else {
        lemma_breaks_reach(text, line, n - 1)
    }
}

/// What `line_start_from` finds: no index before it, from `from` on, has
/// `line` line breaks before it, and it has, unless it is the end of the
/// text.
pub proof fn lemma_line_start_from_first(text: Seq<char>, line: int, from: int)
    requires
        0 <= from <= text.len(),
    ensures
        forall|k: int|
            from <= k < line_start_from(text, line, from) ==> breaks_before(text, k) != line,
        line_start_from(text, line, from) < text.len() ==> breaks_before(
            text,
            line_start_from(text, line, from),
        ) == line,
    decreases text.len() - from,
{
    if from < text.len() && breaks_before(text, from) != line {
        lemma_line_start_from_first(text, line, from + 1);
    }
}

/// A line of the text starts where exactly as many line breaks end
/// before it as lines stand before it.
pub proof fn lemma_line_start_counts(text: Seq<char>, line: int)
    requires
        0 <= line < line_count(text),
    ensures
        breaks_before(text, line_start(text, line)) == line,
{
    lemma_line_start_from_bound(text, line, 0);
    lemma_line_start_from_first(text, line, 0);
    if line_start(text, line) == text.len() {
        let k = lemma_breaks_reach(text, line, text.len() as int);
        assert(k == text.len());
    }
}

/// A line of the text ends where the next one starts, at or after its
/// own start and within the text: the lines lie one after the other.
pub proof fn lemma_line_bounds(text: Seq<char>, line: int)
    requires
        0 <= line < line_count(text),
    ensures
        0 <= line_start(text, line) <= line_start(text, line + 1) <= text.len(),
        line_text(text, line).len() == line_start(text, line + 1) - line_start(text, line),
{
    lemma_line_start_from_bound(text, line, 0);
    lemma_line_start_from_bound(text, line + 1, 0);
    lemma_line_start_from_first(text, line, 0);
    lemma_line_start_from_first(text, line + 1, 0);
    let a = line_start(text, line);
    let b = line_start(text, line + 1);
    if b < a {
        assert(breaks_before(text, b) == line + 1);
        let k = lemma_breaks_reach(text, line, b);
        assert(breaks_before(text, k) != line);
    }
}

/// The first line starts at the start of the text.
pub proof fn lemma_first_line_starts_at_zero(text: Seq<char>)
    ensures
        line_start(text, 0) == 0,
{
}

/// The line one past the last starts at the end of the text.
pub proof fn lemma_line_past_last_starts_at_end(text: Seq<char>)
    ensures
        line_start(text, line_count(text) as int) == text.len(),
{
    lemma_line_start_from_bound(text, line_count(text) as int, 0);
    lemma_line_start_from_first(text, line_count(text) as int, 0);
    let r = line_start(text, line_count(text) as int);
    if r < text.len() {
        lemma_breaks_monotone(text, r, text.len() as int);
    }
}

} // verus!
