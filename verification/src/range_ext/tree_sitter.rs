//! Ranges of a syntax tree: byte offsets together with points, whose
//! columns count bytes.

use vstd::prelude::*;
use vstd::string::*;
use vstd::slice::slice_subrange;
use crate::position::TsPoint;
use crate::range_ext::RangeExt;
use crate::scan::{is_single_byte, is_continuation, find_byte, find_byte_in, newlines_before,
    line_begin, chars_between, scan_line, count_chars};

verus! {

/// A range of a text as a syntax tree has it: where it starts and ends,
/// in bytes and as points.
#[derive(Debug, Default, Clone, Copy, PartialEq, Eq, Hash, Structural)]
pub struct TsRange {
    pub start_byte: usize,
    pub end_byte: usize,
    pub start_point: TsPoint,
    pub end_point: TsPoint,
}

/// Whether one point stands before another or is the same.
pub open spec fn ts_le(a: TsPoint, b: TsPoint) -> bool {
    a.row < b.row || (a.row == b.row && a.column <= b.column)
}

/// The point that lies `at` after `start`: on the first row columns count
/// from the start's column, on later rows from 0.
pub open spec fn ts_absolute(start: TsPoint, at: TsPoint) -> TsPoint {
    TsPoint {
        row: (start.row + at.row) as usize,
        column: if at.row == 0 {
            (start.column + at.column) as usize
        } else {
            at.column
        },
    }
}

/// Whether the point that lies `at` after `start` can be written down.
pub open spec fn ts_fits(start: TsPoint, at: TsPoint) -> bool {
    start.row + at.row <= usize::MAX && (at.row == 0 ==> start.column + at.column <= usize::MAX)
}

/// Whether a range spans exactly a text, and the points within the text
/// can be written down.
pub open spec fn ts_spans(range: TsRange, bytes: Seq<u8>) -> bool {
    &&& range.start_byte <= range.end_byte
    &&& bytes.len() == range.end_byte - range.start_byte
    &&& range.start_point.row + bytes.len() < usize::MAX
    &&& range.start_point.column + bytes.len() < usize::MAX
}

/// The point of the byte at `offset`, relative to the start of the text.
pub open spec fn ts_relative_point(bytes: Seq<u8>, offset: int) -> TsPoint {
    TsPoint {
        row: newlines_before(bytes, offset) as usize,
        column: (offset - line_begin(bytes, offset)) as usize,
    }
}

/// The offset of the first character, from `from` on, that stands at a
/// point relative to the start of the text. The end of the text counts
/// as a place too. `None` where the point is not met.
pub open spec fn ts_locate(bytes: Seq<u8>, at: TsPoint, from: int) -> Option<int>
    decreases bytes.len() - from,
{
    if from < 0 {
        None
    } else if from >= bytes.len() {
        if ts_relative_point(bytes, bytes.len() as int) == at {
            Some(bytes.len() as int)
        } else {
            None
        }
    } else if !is_continuation(bytes[from]) && ts_relative_point(bytes, from) == at {
        Some(from)
    } else {
        ts_locate(bytes, at, from + 1)
    }
}

/// The byte at which a point relative to the start of a range lies: the
/// start of the range where the point is not met in the text.
pub open spec fn ts_byte_of(range: TsRange, bytes: Seq<u8>, at: TsPoint) -> usize {
    match ts_locate(bytes, at, 0) {
        Some(offset) => (range.start_byte + offset) as usize,
        None => range.start_byte,
    }
}

/// The offset at which the character with index `k` starts, searched
/// from `from` on; the length of the text where there is none.
pub open spec fn ts_char_offset(bytes: Seq<u8>, k: int, from: int) -> int
    decreases bytes.len() - from,
{
    if from < 0 || from >= bytes.len() {
        bytes.len() as int
    } else if !is_continuation(bytes[from]) && chars_between(bytes, 0, from) == k {
        from
    } else {
        ts_char_offset(bytes, k, from + 1)
    }
}

/// The offset just after the first `k` characters of a text.
pub open spec fn ts_offset_after(bytes: Seq<u8>, k: int) -> int {
    if k <= 0 {
        0
    } else {
        ts_char_offset(bytes, k, 0)
    }
}

/// The point of the byte at `offset` of the text of a range.
pub open spec fn ts_point_of(range: TsRange, bytes: Seq<u8>, offset: int) -> TsPoint {
    ts_absolute(range.start_point, ts_relative_point(bytes, offset))
}

/// The point just after a delimiter at `offset`: the start of the next
/// row after a line feed, the next column otherwise.
pub open spec fn ts_point_after(range: TsRange, bytes: Seq<u8>, offset: int) -> TsPoint {
    let at = ts_point_of(range, bytes, offset);
    if bytes[offset] == 0x0A {
        TsPoint { row: (at.row + 1) as usize, column: 0 }
    } else {
        TsPoint { row: at.row, column: (at.column + 1) as usize }
    }
}

/// The range shrunk by `amount_left` characters at its start and
/// `amount_right` characters at its end. Where the two meet, the result
/// is empty and stands where the shrunk start stands.
pub open spec fn ts_shrunk(range: TsRange, bytes: Seq<u8>, amount_left: usize, amount_right: usize) -> TsRange {
    if bytes.len() == 0 {
        range
    } else {
        let total = chars_between(bytes, 0, bytes.len() as int);
        let kept = if amount_right >= total {
            0
        } else {
            total - amount_right
        };
        let new_start = ts_offset_after(bytes, amount_left as int);
        let new_end = ts_offset_after(bytes, kept);
        if new_start > new_end {
            TsRange {
                start_byte: (range.start_byte + new_start) as usize,
                end_byte: (range.start_byte + new_start) as usize,
                start_point: ts_point_of(range, bytes, new_start),
                end_point: ts_point_of(range, bytes, new_start),
            }
        } else {
            TsRange {
                start_byte: (range.start_byte + new_start) as usize,
                end_byte: (range.start_byte + new_end) as usize,
                start_point: ts_point_of(range, bytes, new_start),
                end_point: ts_point_of(range, bytes, new_end),
            }
        }
    }
}

/// The parts of a range before and after the first delimiter of the text.
pub open spec fn ts_delimited_parts(range: TsRange, bytes: Seq<u8>, delim: u8) -> (
    Option<TsRange>,
    Option<TsRange>,
) {
    match find_byte(bytes, delim) {
        Some(offset) => (
            if offset == 0 {
                None
            } else {
                Some(
                    TsRange {
                        start_byte: range.start_byte,
                        end_byte: (range.start_byte + offset) as usize,
                        start_point: range.start_point,
                        end_point: ts_point_of(range, bytes, offset),
                    },
                )
            },
            if offset + 1 >= bytes.len() {
                None
            } else {
                Some(
                    TsRange {
                        start_byte: (range.start_byte + offset + 1) as usize,
                        end_byte: range.end_byte,
                        start_point: ts_point_after(range, bytes, offset),
                        end_point: range.end_point,
                    },
                )
            },
        ),
        None => if bytes.len() > 0 {
            (Some(range), None)
        } else {
            (None, None)
        },
    }
}

/// Whether a range can be split at two delimiters in turn.
pub open spec fn ts_can_delimit_tri(range: TsRange, bytes: Seq<u8>, delim0: u8, delim1: u8) -> bool {
    bytes.len() > 0 ==> ts_spans(range, bytes) && match ts_delimited_parts(range, bytes, delim0).1 {
        Some(rest) => ts_spans(rest, bytes.skip(rest.start_byte - range.start_byte)),
        None => true,
    }
}

/// The three parts of a range split at two delimiters in turn.
pub open spec fn ts_delimited_parts_tri(range: TsRange, bytes: Seq<u8>, delim0: u8, delim1: u8) -> (
    Option<TsRange>,
    Option<TsRange>,
    Option<TsRange>,
) {
    if bytes.len() == 0 {
        (None, None, None)
    } else {
        let (first, remainder) = ts_delimited_parts(range, bytes, delim0);
        match remainder {
            Some(rest) => {
                let (second, third) = ts_delimited_parts(
                    rest,
                    bytes.skip(rest.start_byte - range.start_byte),
                    delim1,
                );
                (first, second, third)
            },
            None => (first, None, None),
        }
    }
}

/// The point that lies `at` after `start`.
fn absolute(start: TsPoint, at: TsPoint) -> (point: TsPoint)
    requires
        ts_fits(start, at),
    ensures
        point == ts_absolute(start, at),
{
    TsPoint {
        row: start.row + at.row,
        column: if at.row == 0 {
            start.column + at.column
        } else {
            at.column
        },
    }
}

/// Finds the offset of the first character that stands at a point.
fn locate(bytes: &[u8], at: TsPoint) -> (found: Option<usize>)
    ensures
        match found {
            Some(offset) => ts_locate(bytes@, at, 0) == Some(offset as int) && offset
                <= bytes@.len(),
            None => ts_locate(bytes@, at, 0).is_none(),
        },
{
    let mut row: usize = 0;
    let mut begin: usize = 0;
    let mut i: usize = 0;
    while i < bytes.len()
        invariant
            i <= bytes@.len(),
            row == newlines_before(bytes@, i as int),
            begin == line_begin(bytes@, i as int),
            row <= i,
            begin <= i,
            ts_locate(bytes@, at, 0) == ts_locate(bytes@, at, i as int),
        decreases bytes.len() - i,
    {
        let b = bytes[i];
        if !(0x80 <= b && b < 0xC0) && row == at.row && i - begin == at.column {
            return Some(i);
        }
        if b == 0x0A {
            row += 1;
            begin = i + 1;
        }
        i += 1;
    }
    if row == at.row && i - begin == at.column {
        Some(i)
    } else {
        None
    }
}

/// The byte at which a point relative to the start of a range lies.
fn byte_of(range: &TsRange, bytes: &[u8], at: TsPoint) -> (byte: usize)
    requires
        range.start_byte <= range.end_byte,
        bytes@.len() == range.end_byte - range.start_byte,
    ensures
        byte == ts_byte_of(*range, bytes@, at),
{
    match locate(bytes, at) {
        Some(offset) => range.start_byte + offset,
        None => range.start_byte,
    }
}

/// Finds the offset just after the first `k` characters.
fn offset_after(bytes: &[u8], k: usize) -> (offset: usize)
    ensures
        offset == ts_offset_after(bytes@, k as int),
        offset <= bytes@.len(),
{
    if k == 0 {
        return 0;
    }
    let mut seen: usize = 0;
    let mut i: usize = 0;
    while i < bytes.len()
        invariant
            i <= bytes@.len(),
            k > 0,
            seen == chars_between(bytes@, 0, i as int),
            seen <= i,
            ts_char_offset(bytes@, k as int, 0) == ts_char_offset(bytes@, k as int, i as int),
        decreases bytes.len() - i,
    {
        let b = bytes[i];
        if !(0x80 <= b && b < 0xC0) {
            if seen == k {
                return i;
            }
            seen += 1;
        }
        i += 1;
    }
    i
}

/// The point of the byte at `offset` of the text of a range.
fn point_of(range: &TsRange, bytes: &[u8], offset: usize) -> (point: TsPoint)
    requires
        ts_spans(*range, bytes@),
        offset <= bytes@.len(),
    ensures
        point == ts_point_of(*range, bytes@, offset as int),
        point.row <= range.start_point.row + offset,
        point.column <= range.start_point.column + offset,
{
    let (rows, begin) = scan_line(bytes, offset);
    absolute(range.start_point, TsPoint { row: rows, column: offset - begin })
}

/// Splits a range at the first delimiter among the bytes of its text.
fn delimit(range: TsRange, bytes: &[u8], delim: u8) -> (parts: (Option<TsRange>, Option<TsRange>))
    requires
        ts_spans(range, bytes@),
    ensures
        parts == ts_delimited_parts(range, bytes@, delim),
{
    match find_byte_in(bytes, delim) {
        Some(offset) => {
            let at = point_of(&range, bytes, offset);
            let left = if offset == 0 {
                None
            } else {
                Some(
                    TsRange {
                        start_byte: range.start_byte,
                        end_byte: range.start_byte + offset,
                        start_point: range.start_point,
                        end_point: at,
                    },
                )
            };
            let right = if offset + 1 >= bytes.len() {
                None
            } else {
                let after = if bytes[offset] == 0x0A {
                    TsPoint { row: at.row + 1, column: 0 }
                } else {
                    TsPoint { row: at.row, column: at.column + 1 }
                };
                Some(
                    TsRange {
                        start_byte: range.start_byte + offset + 1,
                        end_byte: range.end_byte,
                        start_point: after,
                        end_point: range.end_point,
                    },
                )
            };
            (left, right)
        },
        None => {
            if bytes.len() > 0 {
                (Some(range), None)
            } else {
                (None, None)
            }
        },
    }
}

impl RangeExt for TsRange {
    type Position = TsPoint;

    open spec fn can_split_at(self, text: Seq<u8>, at: TsPoint) -> bool {
        self.start_byte <= self.end_byte && text.len() == self.end_byte - self.start_byte
            && ts_fits(self.start_point, at)
    }

    open spec fn split_at_parts(self, text: Seq<u8>, at: TsPoint) -> (Self, Self) {
        (
            TsRange {
                start_byte: self.start_byte,
                end_byte: ts_byte_of(self, text, at),
                start_point: self.start_point,
                end_point: ts_absolute(self.start_point, at),
            },
            TsRange {
                start_byte: ts_byte_of(self, text, at),
                end_byte: self.end_byte,
                start_point: ts_absolute(self.start_point, at),
                end_point: self.end_point,
            },
        )
    }

    open spec fn can_shrink(self, text: Seq<u8>, amount_left: usize, amount_right: usize) -> bool {
        ts_spans(self, text)
    }

    open spec fn shrunk(self, text: Seq<u8>, amount_left: usize, amount_right: usize) -> Self {
        ts_shrunk(self, text, amount_left, amount_right)
    }

    open spec fn can_sub(self, text: Seq<u8>, from: TsPoint, to: TsPoint) -> bool {
        ts_le(from, to) && self.start_byte <= self.end_byte && text.len() == self.end_byte
            - self.start_byte && ts_fits(self.start_point, from) && ts_fits(self.start_point, to)
    }

    open spec fn sub_part(self, text: Seq<u8>, from: TsPoint, to: TsPoint) -> Self {
        TsRange {
            start_byte: ts_byte_of(self, text, from),
            end_byte: ts_byte_of(self, text, to),
            start_point: ts_absolute(self.start_point, from),
            end_point: ts_absolute(self.start_point, to),
        }
    }

    open spec fn can_sub_delimited(self, text: Seq<u8>, delimiter: char) -> bool {
        is_single_byte(delimiter) && ts_spans(self, text)
    }

    open spec fn sub_delimited_parts(self, text: Seq<u8>, delimiter: char) -> (
        Option<Self>,
        Option<Self>,
    ) {
        ts_delimited_parts(self, text, delimiter as u8)
    }

    open spec fn can_sub_delimited_tri(self, text: Seq<u8>, delim0: char, delim1: char) -> bool {
        is_single_byte(delim0) && is_single_byte(delim1) && ts_can_delimit_tri(
            self,
            text,
            delim0 as u8,
            delim1 as u8,
        )
    }

    open spec fn sub_delimited_tri_parts(self, text: Seq<u8>, delim0: char, delim1: char) -> (
        Option<Self>,
        Option<Self>,
        Option<Self>,
    ) {
        ts_delimited_parts_tri(self, text, delim0 as u8, delim1 as u8)
    }

    fn split_at(self, text: &str, at: TsPoint) -> (parts: (Self, Self)) {
        let middle = absolute(self.start_point, at);
        let at_byte = byte_of(&self, text.as_bytes(), at);
        (
            TsRange {
                start_byte: self.start_byte,
                end_byte: at_byte,
                start_point: self.start_point,
                end_point: middle,
            },
            TsRange {
                start_byte: at_byte,
                end_byte: self.end_byte,
                start_point: middle,
                end_point: self.end_point,
            },
        )
    }

    fn shrink(self, text: &str, amount_left: usize, amount_right: usize) -> (range: Self) {
        let bytes = text.as_bytes();
        if bytes.len() == 0 {
            return self;
        }
        let total = count_chars(bytes, 0, bytes.len());
        let kept = if amount_right >= total {
            0
        } else {
            total - amount_right
        };
        let new_start = offset_after(bytes, amount_left);
        let new_end = offset_after(bytes, kept);
        let start_point = point_of(&self, bytes, new_start);
        if new_start > new_end {
            TsRange {
                start_byte: self.start_byte + new_start,
                end_byte: self.start_byte + new_start,
                start_point,
                end_point: start_point,
            }
        } else {
            TsRange {
                start_byte: self.start_byte + new_start,
                end_byte: self.start_byte + new_end,
                start_point,
                end_point: point_of(&self, bytes, new_end),
            }
        }
    }

    fn sub(self, text: &str, from: TsPoint, to: TsPoint) -> (part: Self) {
        let bytes = text.as_bytes();
        TsRange {
            start_byte: byte_of(&self, bytes, from),
            end_byte: byte_of(&self, bytes, to),
            start_point: absolute(self.start_point, from),
            end_point: absolute(self.start_point, to),
        }
    }

    fn sub_delimited(self, text: &str, delimiter: char) -> (parts: (Option<Self>, Option<Self>)) {
        delimit(self, text.as_bytes(), delimiter as u8)
    }

    fn sub_delimited_tri(self, text: &str, delim0: char, delim1: char) -> (parts: (
        Option<Self>,
        Option<Self>,
        Option<Self>,
    )) {
        let bytes = text.as_bytes();
        if bytes.len() == 0 {
            return (None, None, None);
        }
        let start_byte = self.start_byte;
        proof {
            crate::scan::lemma_find_byte(bytes@, delim0 as u8);
        }
        let (first, remainder) = delimit(self, bytes, delim0 as u8);
        match remainder {
            Some(rest) => {
                let rest_bytes = slice_subrange(bytes, rest.start_byte - start_byte, bytes.len());
                assert(rest_bytes@ =~= bytes@.skip(rest.start_byte - start_byte));
                let (second, third) = delimit(rest, rest_bytes, delim1 as u8);
                (first, second, third)
            },
            None => (first, None, None),
        }
    }
}

} // verus!
