//! Ranges of protocol positions.

use vstd::prelude::*;
use vstd::string::*;
use vstd::slice::slice_subrange;
use crate::position::LspPosition;
use crate::range_ext::RangeExt;
use crate::scan::{is_single_byte, find_byte, find_byte_in, newlines_before,
    line_begin, chars_between, scan_line, count_chars};

verus! {

/// A range of a text, from one protocol position to another.
#[derive(Debug, Default, Clone, Copy, PartialEq, Eq, Hash, Structural)]
pub struct LspRange {
    pub start: LspPosition,
    pub end: LspPosition,
}

/// Whether one position stands before another or is the same.
pub open spec fn lsp_le(a: LspPosition, b: LspPosition) -> bool {
    a.line < b.line || (a.line == b.line && a.character <= b.character)
}

/// The line of the position that lies `at` after `start`.
pub open spec fn lsp_absolute_line(start: LspPosition, at: LspPosition) -> int {
    start.line + at.line
}

/// The column of the position that lies `at` after `start`: on the first
/// line columns count from the start's column, on later lines from 0.
pub open spec fn lsp_absolute_character(start: LspPosition, at: LspPosition) -> int {
    if at.line == 0 {
        start.character + at.character
    } else {
        at.character as int
    }
}

/// The position that lies `at` after `start`.
pub open spec fn lsp_absolute(start: LspPosition, at: LspPosition) -> LspPosition {
    LspPosition {
        line: lsp_absolute_line(start, at) as u32,
        character: lsp_absolute_character(start, at) as u32,
    }
}

/// Whether the position that lies `at` after the start of a range can be
/// written down and lies within the range.
pub open spec fn lsp_within(range: LspRange, at: LspPosition) -> bool {
    &&& lsp_absolute_line(range.start, at) <= u32::MAX
    &&& lsp_absolute_character(range.start, at) <= u32::MAX
    &&& lsp_le(range.start, lsp_absolute(range.start, at))
    &&& lsp_le(lsp_absolute(range.start, at), range.end)
}

/// The position of the byte at `offset`, relative to the start of the
/// text: the line feeds before it, and the characters between the start
/// of its line and it.
pub open spec fn lsp_position_of(bytes: Seq<u8>, offset: int) -> LspPosition {
    LspPosition {
        line: newlines_before(bytes, offset) as u32,
        character: chars_between(bytes, line_begin(bytes, offset), offset) as u32,
    }
}

/// The position just after a delimiter at `offset`: the start of the next
/// line after a line feed, the next column otherwise.
pub open spec fn lsp_position_after(bytes: Seq<u8>, offset: int) -> LspPosition {
    let at = lsp_position_of(bytes, offset);
    if bytes[offset] == 0x0A {
        LspPosition { line: (at.line + 1) as u32, character: 0 }
    } else {
        LspPosition { line: at.line, character: (at.character + 1) as u32 }
    }
}

/// Whether a range can be split at the first delimiter of the text: the
/// text is short enough for 32-bit positions, and the positions before
/// and after the delimiter lie within the range where a part starts or
/// ends there.
pub open spec fn lsp_can_delimit(range: LspRange, bytes: Seq<u8>, delim: u8) -> bool {
    &&& bytes.len() < u32::MAX
    &&& match find_byte(bytes, delim) {
        Some(offset) => {
            &&& offset > 0 ==> lsp_within(range, lsp_position_of(bytes, offset))
            &&& offset + 1 < bytes.len() ==> lsp_within(range, lsp_position_after(bytes, offset))
        },
        None => true,
    }
}

/// The parts of a range before and after the first delimiter of the text.
pub open spec fn lsp_delimited_parts(range: LspRange, bytes: Seq<u8>, delim: u8) -> (
    Option<LspRange>,
    Option<LspRange>,
) {
    if bytes.len() == 0 {
        (None, None)
    } else {
        match find_byte(bytes, delim) {
            Some(offset) => (
                if offset == 0 {
                    None
                } else {
                    Some(
                        LspRange {
                            start: range.start,
                            end: lsp_absolute(range.start, lsp_position_of(bytes, offset)),
                        },
                    )
                },
                if offset + 1 >= bytes.len() {
                    None
                } else {
                    Some(
                        LspRange {
                            start: lsp_absolute(range.start, lsp_position_after(bytes, offset)),
                            end: range.end,
                        },
                    )
                },
            ),
            None => (Some(range), None),
        }
    }
}

/// Whether a range can be split at two delimiters in turn.
pub open spec fn lsp_can_delimit_tri(range: LspRange, bytes: Seq<u8>, delim0: u8, delim1: u8) -> bool {
    bytes.len() > 0 ==> lsp_can_delimit(range, bytes, delim0) && match lsp_delimited_parts(
        range,
        bytes,
        delim0,
    ).1 {
        Some(rest) => lsp_can_delimit(
            rest,
            bytes.skip(find_byte(bytes, delim0).unwrap() + 1),
            delim1,
        ),
        None => true,
    }
}

/// The three parts of a range split at two delimiters in turn.
pub open spec fn lsp_delimited_parts_tri(range: LspRange, bytes: Seq<u8>, delim0: u8, delim1: u8) -> (
    Option<LspRange>,
    Option<LspRange>,
    Option<LspRange>,
) {
    if bytes.len() == 0 {
        (None, None, None)
    } else {
        let (first, remainder) = lsp_delimited_parts(range, bytes, delim0);
        match remainder {
            Some(rest) => {
                let (second, third) = lsp_delimited_parts(
                    rest,
                    bytes.skip(find_byte(bytes, delim0).unwrap() + 1),
                    delim1,
                );
                (first, second, third)
            },
            None => (first, None, None),
        }
    }
}

/// The position that lies `at` after `start`.
fn absolute(start: LspPosition, at: LspPosition) -> (position: LspPosition)
    requires
        lsp_absolute_line(start, at) <= u32::MAX,
        lsp_absolute_character(start, at) <= u32::MAX,
    ensures
        position == lsp_absolute(start, at),
{
    LspPosition {
        line: start.line + at.line,
        character: if at.line == 0 {
            start.character + at.character
        } else {
            at.character
        },
    }
}

/// The position of the byte at `offset`, relative to the start of the
/// text.
fn position_of(bytes: &[u8], offset: usize) -> (position: LspPosition)
    requires
        offset <= bytes@.len(),
        bytes@.len() < u32::MAX,
    ensures
        position == lsp_position_of(bytes@, offset as int),
        position.line <= offset,
        position.character <= offset,
{
    let (lines, begin) = scan_line(bytes, offset);
    let chars = count_chars(bytes, begin, offset);
    LspPosition { line: lines as u32, character: chars as u32 }
}

/// Splits a range at the first delimiter among the bytes of its text.
fn delimit(range: LspRange, bytes: &[u8], delim: u8) -> (parts: (Option<LspRange>, Option<LspRange>))
    requires
        lsp_can_delimit(range, bytes@, delim),
    ensures
        parts == lsp_delimited_parts(range, bytes@, delim),
{
    if bytes.len() == 0 {
        return (None, None);
    }
    match find_byte_in(bytes, delim) {
        Some(offset) => {
            let at = position_of(bytes, offset);
            let left = if offset == 0 {
                None
            } else {
                Some(LspRange { start: range.start, end: absolute(range.start, at) })
            };
            let right = if offset + 1 >= bytes.len() {
                None
            } else {
                let after = if bytes[offset] == 0x0A {
                    LspPosition { line: at.line + 1, character: 0 }
                } else {
                    LspPosition { line: at.line, character: at.character + 1 }
                };
                Some(LspRange { start: absolute(range.start, after), end: range.end })
            };
            (left, right)
        },
        None => (Some(range), None),
    }
}

impl RangeExt for LspRange {
    type Position = LspPosition;

    open spec fn can_split_at(self, text: Seq<u8>, at: LspPosition) -> bool {
        lsp_within(self, at)
    }

    open spec fn split_at_parts(self, text: Seq<u8>, at: LspPosition) -> (Self, Self) {
        (
            LspRange { start: self.start, end: lsp_absolute(self.start, at) },
            LspRange { start: lsp_absolute(self.start, at), end: self.end },
        )
    }

    open spec fn can_shrink(self, text: Seq<u8>, amount_left: usize, amount_right: usize) -> bool {
        self.start.line == self.end.line && self.start.character + amount_left + amount_right
            <= self.end.character
    }

    open spec fn shrunk(self, text: Seq<u8>, amount_left: usize, amount_right: usize) -> Self {
        LspRange {
            start: LspPosition {
                line: self.start.line,
                character: (self.start.character + amount_left) as u32,
            },
            end: LspPosition {
                line: self.end.line,
                character: (self.end.character - amount_right) as u32,
            },
        }
    }

    open spec fn can_sub(self, text: Seq<u8>, from: LspPosition, to: LspPosition) -> bool {
        lsp_le(from, to) && lsp_within(self, from) && lsp_within(self, to)
    }

    open spec fn sub_part(self, text: Seq<u8>, from: LspPosition, to: LspPosition) -> Self {
        LspRange { start: lsp_absolute(self.start, from), end: lsp_absolute(self.start, to) }
    }

    open spec fn can_sub_delimited(self, text: Seq<u8>, delimiter: char) -> bool {
        is_single_byte(delimiter) && lsp_can_delimit(self, text, delimiter as u8)
    }

    open spec fn sub_delimited_parts(self, text: Seq<u8>, delimiter: char) -> (
        Option<Self>,
        Option<Self>,
    ) {
        lsp_delimited_parts(self, text, delimiter as u8)
    }

    open spec fn can_sub_delimited_tri(self, text: Seq<u8>, delim0: char, delim1: char) -> bool {
        is_single_byte(delim0) && is_single_byte(delim1) && lsp_can_delimit_tri(
            self,
            text,
            delim0 as u8,
            delim1 as u8,
        )
    }

    open spec fn sub_delimited_tri_parts(self, text: Seq<u8>, delim0: char, delim1: char) -> (
        Option<Self>,
        Option<Self>,
        Option<Self>,
    ) {
        lsp_delimited_parts_tri(self, text, delim0 as u8, delim1 as u8)
    }

    fn split_at(self, text: &str, at: LspPosition) -> (parts: (Self, Self)) {
        let middle = absolute(self.start, at);
        (LspRange { start: self.start, end: middle }, LspRange { start: middle, end: self.end })
    }

    fn shrink(self, text: &str, amount_left: usize, amount_right: usize) -> (range: Self) {
        LspRange {
            start: LspPosition {
                line: self.start.line,
                character: self.start.character + amount_left as u32,
            },
            end: LspPosition {
                line: self.end.line,
                character: self.end.character - amount_right as u32,
            },
        }
    }

    fn sub(self, text: &str, from: LspPosition, to: LspPosition) -> (part: Self) {
        LspRange { start: absolute(self.start, from), end: absolute(self.start, to) }
    }

    fn sub_delimited(self, text: &str, delimiter: char) -> (parts: (Option<Self>, Option<Self>)) {
        delimit(self, text.as_bytes(), delimiter as u8)
    }

    fn sub_delimited_tri(self, text: &str, delim0: char, delim1: char) -> (parts: (
        Option<Self>,
        Option<Self>,
        Option<Self>,
    )) {
        let bytes = text.as_bytes();
        if bytes.len() == 0 {
            return (None, None, None);
        }
        let (first, remainder) = delimit(self, bytes, delim0 as u8);
        match remainder {
            Some(rest) => {
                let offset = match find_byte_in(bytes, delim0 as u8) {
                    Some(offset) => offset,
                    None => 0,
                };
                let rest_bytes = slice_subrange(bytes, offset + 1, bytes.len());
                assert(rest_bytes@ =~= bytes@.skip(offset + 1));
                let (second, third) = delimit(rest, rest_bytes, delim1 as u8);
                (first, second, third)
            },
            None => (first, None, None),
        }
    }
}

} // verus!
