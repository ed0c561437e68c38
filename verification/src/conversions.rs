//! Conversion of a position from one encoding to another.

use vstd::prelude::*;
use ropey::Rope;
use ropey::RopeSlice;
use crate::encoding::Encoding;
use crate::position::Position;
use crate::measure::{units, column_to_char, char_to_column, convert_column,
    lemma_char_at_unit_bound, lemma_units_utf32, lemma_char_at_unit_utf32,
    lemma_round_trip, lemma_convert_column_bound};
use crate::lines::{line_count, line_text};
use crate::rope::{rope_text, slice_text, rope_len_lines, rope_line,
    slice_len_chars, slice_len_bytes, slice_len_utf16_cu, slice_char_to_byte,
    slice_char_to_utf16_cu, slice_byte_to_char, slice_utf16_cu_to_char};

verus! {

/// The character boundary within `line` that `col` denotes under `source`.
fn slice_column_to_char(line: &RopeSlice, col: usize, source: Encoding) -> (idx: usize)
    ensures
        idx == column_to_char(source, slice_text(*line), col as nat),
        idx <= slice_text(*line).len(),
{
    proof {
        let text = slice_text(*line);
        let total = units(source, text);
        lemma_char_at_unit_bound(source, text, if col < total { col as nat } else { total });
        lemma_units_utf32(text);
    }
    match source {
        Encoding::UTF8 => {
            let len = slice_len_bytes(line);
            let capped = if col < len { col } else { len };
            slice_byte_to_char(line, capped)
        },
        Encoding::UTF16 => {
            let len = slice_len_utf16_cu(line);
            let capped = if col < len { col } else { len };
            slice_utf16_cu_to_char(line, capped)
        },
        Encoding::UTF32 => {
            let len = slice_len_chars(line);
            let capped = if col < len { col } else { len };
            proof {
                lemma_char_at_unit_utf32(slice_text(*line), capped as nat);
            }
            capped
        },
    }
}

/// The column of the character boundary `idx` of `line` under `target`.
fn slice_char_to_column(line: &RopeSlice, idx: usize, target: Encoding) -> (col: usize)
    requires
        idx <= slice_text(*line).len(),
    ensures
        col == char_to_column(target, slice_text(*line), idx as nat),
{
    match target {
        Encoding::UTF8 => slice_char_to_byte(line, idx),
        Encoding::UTF16 => slice_char_to_utf16_cu(line, idx),
        Encoding::UTF32 => {
            proof {
                lemma_units_utf32(slice_text(*line).take(idx as int));
            }
            idx
        },
    }
}

/// What `position_to_encoding` returns.
pub open spec fn converted_position(
    text: Seq<char>,
    position: Position,
    source: Encoding,
    target: Encoding,
) -> Position {
    if source == target {
        position
    } else {
        Position {
            line: position.line,
            col: convert_column(line_text(text, position.line as int), position.col as nat, source, target)
                as usize,
        }
    }
}

/// Round trip: a position whose column counts characters and lies within
/// its line comes back unchanged from a conversion to any encoding and
/// back, as long as the line's code units can be counted in a `usize`.
pub proof fn lemma_position_round_trip(text: Seq<char>, position: Position, x: Encoding)
    requires
        position.col <= line_text(text, position.line as int).len(),
        units(x, line_text(text, position.line as int)) <= usize::MAX,
    ensures
        converted_position(
            text,
            converted_position(text, position, Encoding::UTF32, x),
            x,
            Encoding::UTF32,
        ) == position,
{
    let line = line_text(text, position.line as int);
    lemma_round_trip(line, position.col as nat, x);
    if x != Encoding::UTF32 {
        lemma_convert_column_bound(line, position.col as nat, Encoding::UTF32, x);
    }
}

/// Converts a position read under `source` into the position that denotes
/// the same place under `target`. Only the column changes. A column past
/// the end of its line denotes the end of the line. With the same encoding
/// on both sides the position comes back as it is.
///
/// The line has to exist when the encodings differ.
pub fn position_to_encoding(
    contents: &Rope,
    position: Position,
    source: Encoding,
    target: Encoding,
) -> (result: Position)
    requires
        source != target ==> position.line < line_count(rope_text(*contents)),
    ensures
        result == converted_position(rope_text(*contents), position, source, target),
        result.line == position.line,
        source == target ==> result == position,
        source != target ==> result.col == convert_column(
            line_text(rope_text(*contents), position.line as int),
            position.col as nat,
            source,
            target,
        ),
{
    if source == target {
        return position;
    }
    let line = rope_line(contents, position.line);
    let idx = slice_column_to_char(&line, position.col, source);
    let col = slice_char_to_column(&line, idx, target);
    Position { line: position.line, col }
}

/// Converts a position as `position_to_encoding` does, where its line
/// exists or the two encodings are the same. `None` otherwise.
pub fn try_position_to_encoding(
    contents: &Rope,
    position: Position,
    source: Encoding,
    target: Encoding,
) -> (result: Option<Position>)
    ensures
        result.is_some() <==> (source == target || position.line < line_count(rope_text(*contents))),
        result.is_some() ==> result.unwrap() == converted_position(
            rope_text(*contents),
            position,
            source,
            target,
        ),
{
    if source == target || position.line < rope_len_lines(contents) {
        Some(position_to_encoding(contents, position, source, target))
    } else {
        None
    }
}

/// The byte offset within `line` that `col` denotes under `source`. Under
/// UTF-8 it is the column itself, capped at the length of the line.
pub open spec fn column_to_byte(source: Encoding, line: Seq<char>, col: nat) -> nat {
    if source == Encoding::UTF8 {
        if col < units(Encoding::UTF8, line) {
            col
        } else {
            units(Encoding::UTF8, line)
        }
    } else {
        char_to_column(Encoding::UTF8, line, column_to_char(source, line, col))
    }
}

/// The character offset, within its line, of a position read under
/// `encoding`. A column past the end of the line denotes its end.
///
/// The line has to exist.
pub fn position_to_char_offset(contents: &Rope, position: Position, encoding: Encoding) -> (offset: usize)
    requires
        position.line < line_count(rope_text(*contents)),
    ensures
        offset == column_to_char(
            encoding,
            line_text(rope_text(*contents), position.line as int),
            position.col as nat,
        ),
{
    let line = rope_line(contents, position.line);
    slice_column_to_char(&line, position.col, encoding)
}

/// The byte offset, within its line, of a position read under
/// `encoding`. A column past the end of the line denotes its end.
///
/// The line has to exist.
pub fn position_to_byte_offset(contents: &Rope, position: Position, encoding: Encoding) -> (offset: usize)
    requires
        position.line < line_count(rope_text(*contents)),
    ensures
        offset == column_to_byte(
            encoding,
            line_text(rope_text(*contents), position.line as int),
            position.col as nat,
        ),
{
    let line = rope_line(contents, position.line);
    match encoding {
        Encoding::UTF8 => {
            let len = slice_len_bytes(&line);
            if position.col < len {
                position.col
            } else {
                len
            }
        },
        _ => {
            let idx = slice_column_to_char(&line, position.col, encoding);
            slice_char_to_byte(&line, idx)
        },
    }
}

/// The character offset of a position within its line, as
/// `position_to_char_offset` gives it, where the line exists.
pub fn try_position_to_char_offset(contents: &Rope, position: Position, encoding: Encoding) -> (offset:
    Option<usize>)
    ensures
        offset.is_some() <==> position.line < line_count(rope_text(*contents)),
        offset.is_some() ==> offset.unwrap() == column_to_char(
            encoding,
            line_text(rope_text(*contents), position.line as int),
            position.col as nat,
        ),
{
    if position.line < rope_len_lines(contents) {
        Some(position_to_char_offset(contents, position, encoding))
    } else {
        None
    }
}

/// The byte offset of a position within its line, as
/// `position_to_byte_offset` gives it, where the line exists.
pub fn try_position_to_byte_offset(contents: &Rope, position: Position, encoding: Encoding) -> (offset:
    Option<usize>)
    ensures
        offset.is_some() <==> position.line < line_count(rope_text(*contents)),
        offset.is_some() ==> offset.unwrap() == column_to_byte(
            encoding,
            line_text(rope_text(*contents), position.line as int),
            position.col as nat,
        ),
{
    if position.line < rope_len_lines(contents) {
        Some(position_to_byte_offset(contents, position, encoding))
    } else {
        None
    }
}

} // verus!
