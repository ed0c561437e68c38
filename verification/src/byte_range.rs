//! Splitting a range of bytes, at an offset or at a delimiter of the text
//! that it spans.

use vstd::prelude::*;
use vstd::string::*;
use vstd::slice::slice_subrange;
use std::ops::Range;
use crate::scan::{is_single_byte, find_byte, find_byte_in};

verus! {

/// The two parts of a range split `at` bytes after its start.
pub open spec fn split_parts(range: Range<usize>, at: usize) -> (Range<usize>, Range<usize>) {
    (
        Range { start: range.start, end: (range.start + at) as usize },
        Range { start: (range.start + at) as usize, end: range.end },
    )
}

/// The part of a range from `from` to `to` bytes after its start.
pub open spec fn sub_part(range: Range<usize>, from: usize, to: usize) -> Range<usize> {
    Range { start: (range.start + from) as usize, end: (range.start + to) as usize }
}

/// The parts of a range before and after the first delimiter of the text
/// that it spans. A part that would be empty is `None`. Without a
/// delimiter the whole range is the first part, unless the text is empty.
pub open spec fn delimited_parts(bytes: Seq<u8>, range: Range<usize>, delim: u8) -> (
    Option<Range<usize>>,
    Option<Range<usize>>,
) {
    match find_byte(bytes, delim) {
        Some(offset) => (
            if offset == 0 {
                None
            } else {
                Some(Range { start: range.start, end: (range.start + offset) as usize })
            },
            if offset + 1 >= bytes.len() {
                None
            } else {
                Some(Range { start: (range.start + offset + 1) as usize, end: range.end })
            },
        ),
        None => if bytes.len() > 0 {
            (Some(range), None)
        } else {
            (None, None)
        },
    }
}

/// The three parts of a range: what stands before the first delimiter,
/// and what follows it, split in turn at the second delimiter.
pub open spec fn delimited_parts_tri(bytes: Seq<u8>, range: Range<usize>, delim0: u8, delim1: u8) -> (
    Option<Range<usize>>,
    Option<Range<usize>>,
    Option<Range<usize>>,
) {
    if bytes.len() == 0 {
        (None, None, None)
    } else {
        let (first, remainder) = delimited_parts(bytes, range, delim0);
        match remainder {
            Some(rest) => {
                let (second, third) = delimited_parts(
                    bytes.subrange(rest.start - range.start, rest.end - range.start),
                    rest,
                    delim1,
                );
                (first, second, third)
            },
            None => (first, None, None),
        }
    }
}

/// Splits a range into two parts, `at` bytes after its start.
#[must_use]
pub fn splitrange(range: Range<usize>, at: usize) -> (parts: (Range<usize>, Range<usize>))
    requires
        range.start <= range.end,
        at <= range.end - range.start,
    ensures
        parts == split_parts(range, at),
{
    (
        Range { start: range.start, end: range.start + at },
        Range { start: range.start + at, end: range.end },
    )
}

/// The left part of a range split `at` bytes after its start.
#[must_use]
pub fn splitrange_left(range: Range<usize>, at: usize) -> (left: Range<usize>)
    requires
        range.start <= range.end,
        at <= range.end - range.start,
    ensures
        left == split_parts(range, at).0,
{
    splitrange(range, at).0
}

/// The right part of a range split `at` bytes after its start.
#[must_use]
pub fn splitrange_right(range: Range<usize>, at: usize) -> (right: Range<usize>)
    requires
        range.start <= range.end,
        at <= range.end - range.start,
    ensures
        right == split_parts(range, at).1,
{
    splitrange(range, at).1
}

/// The part of a range from `from` to `to` bytes after its start.
#[must_use]
pub fn subrange(range: Range<usize>, from: usize, to: usize) -> (part: Range<usize>)
    requires
        range.start <= range.end,
        from <= to <= range.end - range.start,
    ensures
        part == sub_part(range, from, to),
{
    Range { start: range.start + from, end: range.start + to }
}

/// Splits a range at the first delimiter among the bytes that it spans.
pub fn delimited(bytes: &[u8], range: Range<usize>, delim: u8) -> (parts: (
    Option<Range<usize>>,
    Option<Range<usize>>,
))
    requires
        range.start <= range.end,
        bytes@.len() == range.end - range.start,
    ensures
        parts == delimited_parts(bytes@, range, delim),
{
    let start = range.start;
    let end = range.end;
    match find_byte_in(bytes, delim) {
        Some(offset) => {
            let left = if offset == 0 {
                None
            } else {
                Some(Range { start, end: start + offset })
            };
            let right = if offset + 1 >= bytes.len() {
                None
            } else {
                Some(Range { start: start + offset + 1, end })
            };
            (left, right)
        },
        None => {
            if bytes.len() > 0 {
                (Some(Range { start, end }), None)
            } else {
                (None, None)
            }
        },
    }
}

/// Splits the range of a text into the parts before and after the first
/// delimiter. A part that would be empty is `None`. Without a delimiter
/// the whole range is the first part, unless the text is empty.
///
/// The range has to span exactly the text, and the delimiter has to be a
/// single byte in UTF-8.
#[must_use]
pub fn subrange_delimited(text: &str, range: Range<usize>, delim: char) -> (parts: (
    Option<Range<usize>>,
    Option<Range<usize>>,
))
    requires
        range.start <= range.end,
        text.spec_bytes().len() == range.end - range.start,
        is_single_byte(delim),
    ensures
        parts == delimited_parts(text.spec_bytes(), range, delim as u8),
{
    delimited(text.as_bytes(), range, delim as u8)
}

/// Splits a range at the first of one delimiter, and what follows it at
/// the first of another.
pub fn delimited_tri(bytes: &[u8], range: Range<usize>, delim0: u8, delim1: u8) -> (parts: (
    Option<Range<usize>>,
    Option<Range<usize>>,
    Option<Range<usize>>,
))
    requires
        bytes@.len() > 0 ==> range.start <= range.end && bytes@.len() == range.end - range.start,
    ensures
        parts == delimited_parts_tri(bytes@, range, delim0, delim1),
{
    if bytes.len() == 0 {
        return (None, None, None);
    }
    let start = range.start;
    proof {
        crate::scan::lemma_find_byte(bytes@, delim0);
    }
    let (first, remainder) = delimited(bytes, range, delim0);
    match remainder {
        Some(rest) => {
            let rest_bytes = slice_subrange(bytes, rest.start - start, rest.end - start);
            let (second, third) = delimited(rest_bytes, rest, delim1);
            (first, second, third)
        },
        None => (first, None, None),
    }
}

/// Splits the range of a text into three parts: what stands before the
/// first delimiter, and what follows it, split in turn at the second
/// delimiter. An empty text gives no part.
///
/// The range has to span exactly the text, unless the text is empty, and
/// each delimiter has to be a single byte in UTF-8.
#[must_use]
pub fn subrange_delimited_tri(text: &str, range: Range<usize>, delim0: char, delim1: char) -> (parts: (
    Option<Range<usize>>,
    Option<Range<usize>>,
    Option<Range<usize>>,
))
    requires
        is_single_byte(delim0),
        is_single_byte(delim1),
        text.spec_bytes().len() > 0 ==> range.start <= range.end && text.spec_bytes().len()
            == range.end - range.start,
    ensures
        parts == delimited_parts_tri(text.spec_bytes(), range, delim0 as u8, delim1 as u8),
{
    delimited_tri(text.as_bytes(), range, delim0 as u8, delim1 as u8)
}

} // verus!
