//! The rope that holds a document's text, and what this library relies on
//! of it. Everything here is stated of the `ropey` crate and taken on
//! trust. Lines are those that `ropey` knows when built with its default
//! features, which recognise every Unicode line break.

use vstd::prelude::*;
use ropey::Rope;
use ropey::RopeSlice;
use crate::encoding::Encoding;
use crate::measure::{units, char_at_unit};
use crate::lines::{line_count, line_start, line_text};

verus! {

/// `ropey::Rope`: a text held in a tree of chunks. The library sees
/// nothing inside it.
#[verifier::external_type_specification]
#[verifier::external_body]
pub struct ExRope(ropey::Rope);

/// `ropey::RopeSlice`: a part of a rope, borrowed from it. The library
/// sees nothing inside it.
#[verifier::external_type_specification]
#[verifier::external_body]
pub struct ExRopeSlice<'a>(ropey::RopeSlice<'a>);

/// The characters that a rope holds, in order.
pub uninterp spec fn rope_text(rope: Rope) -> Seq<char>;

/// The characters that a slice of a rope spans, in order.
pub uninterp spec fn slice_text(slice: RopeSlice) -> Seq<char>;

/// `Rope::from_str`: the rope holds exactly the characters of `text`.
#[verifier::external_body]
pub(crate) fn rope_from_str(text: &str) -> (rope: Rope)
    ensures
        rope_text(rope) == text@,
{
    Rope::from_str(text)
}

/// `Rope::clone`: the copy holds the same characters.
#[verifier::external_body]
pub(crate) fn rope_clone(rope: &Rope) -> (copy: Rope)
    ensures
        rope_text(copy) == rope_text(*rope),
{
    rope.clone()
}

/// `String::from(&Rope)`: the string holds the rope's characters.
#[verifier::external_body]
pub(crate) fn rope_to_string(rope: &Rope) -> (s: String)
    ensures
        s@ == rope_text(*rope),
{
    String::from(rope)
}

/// `Rope::len_chars`: the number of characters.
#[verifier::external_body]
pub(crate) fn rope_len_chars(rope: &Rope) -> (n: usize)
    ensures
        n == rope_text(*rope).len(),
{
    rope.len_chars()
}

/// `Rope::len_lines`: the number of lines, which is one more than the
/// number of line breaks.
#[verifier::external_body]
pub(crate) fn rope_len_lines(rope: &Rope) -> (n: usize)
    ensures
        n == line_count(rope_text(*rope)),
{
    rope.len_lines()
}

/// `Rope::try_line_to_char`: the character index at which a line starts.
/// It fails exactly for a line index above the line count; the line one
/// past the last starts at the end of the text.
#[verifier::external_body]
pub(crate) fn rope_try_line_to_char(rope: &Rope, line: usize) -> (r: Option<usize>)
    ensures
        r.is_some() <==> line <= line_count(rope_text(*rope)),
        r.is_some() ==> r.unwrap() == line_start(rope_text(*rope), line as int),
{
    rope.try_line_to_char(line).ok()
}

/// `Rope::line`: the slice from the start of a line to the start of the
/// next one, so that a line holds its line break. It panics for an index
/// that is not below the line count.
#[verifier::external_body]
pub(crate) fn rope_line<'a>(rope: &'a Rope, line: usize) -> (slice: RopeSlice<'a>)
    requires
        line < line_count(rope_text(*rope)),
    ensures
        slice_text(slice) == line_text(rope_text(*rope), line as int),
{
    rope.line(line)
}

/// `Rope::char_to_byte`: the number of bytes before a character index.
/// It panics for an index above the number of characters.
#[verifier::external_body]
pub(crate) fn rope_char_to_byte(rope: &Rope, char_idx: usize) -> (b: usize)
    requires
        char_idx <= rope_text(*rope).len(),
    ensures
        b == units(Encoding::UTF8, rope_text(*rope).take(char_idx as int)),
{
    rope.char_to_byte(char_idx)
}

/// `Rope::try_remove`: removes the characters from `start` up to `end`.
/// It fails, and changes nothing, unless `start <= end <= len_chars()`.
#[verifier::external_body]
pub(crate) fn rope_try_remove(rope: &mut Rope, start: usize, end: usize) -> (ok: bool)
    ensures
        ok <==> start <= end <= rope_text(*old(rope)).len(),
        ok ==> rope_text(*final(rope)) == rope_text(*old(rope)).take(start as int)
            + rope_text(*old(rope)).skip(end as int),
        !ok ==> rope_text(*final(rope)) == rope_text(*old(rope)),
{
    rope.try_remove(start..end).is_ok()
}

/// `Rope::try_insert`: inserts `text` before character `char_idx`.
/// It fails, and changes nothing, unless `char_idx <= len_chars()`.
#[verifier::external_body]
pub(crate) fn rope_try_insert(rope: &mut Rope, char_idx: usize, text: &str) -> (ok: bool)
    ensures
        ok <==> char_idx <= rope_text(*old(rope)).len(),
        ok ==> rope_text(*final(rope)) == rope_text(*old(rope)).take(char_idx as int) + text@
            + rope_text(*old(rope)).skip(char_idx as int),
        !ok ==> rope_text(*final(rope)) == rope_text(*old(rope)),
{
    rope.try_insert(char_idx, text).is_ok()
}

/// `RopeSlice::len_chars`: the number of characters of the slice.
#[verifier::external_body]
pub(crate) fn slice_len_chars(slice: &RopeSlice) -> (n: usize)
    ensures
        n == slice_text(*slice).len(),
{
    slice.len_chars()
}

/// `RopeSlice::len_bytes`: the number of UTF-8 bytes of the slice.
#[verifier::external_body]
pub(crate) fn slice_len_bytes(slice: &RopeSlice) -> (n: usize)
    ensures
        n == units(Encoding::UTF8, slice_text(*slice)),
{
    slice.len_bytes()
}

/// `RopeSlice::len_utf16_cu`: the number of UTF-16 code units of the slice.
#[verifier::external_body]
pub(crate) fn slice_len_utf16_cu(slice: &RopeSlice) -> (n: usize)
    ensures
        n == units(Encoding::UTF16, slice_text(*slice)),
{
    slice.len_utf16_cu()
}

/// `RopeSlice::char_to_byte`: the number of bytes before a character
/// index. It panics for an index above the number of characters.
#[verifier::external_body]
pub(crate) fn slice_char_to_byte(slice: &RopeSlice, char_idx: usize) -> (b: usize)
    requires
        char_idx <= slice_text(*slice).len(),
    ensures
        b == units(Encoding::UTF8, slice_text(*slice).take(char_idx as int)),
{
    slice.char_to_byte(char_idx)
}

/// `RopeSlice::char_to_utf16_cu`: the number of UTF-16 code units before a
/// character index. It panics for an index above the number of characters.
#[verifier::external_body]
pub(crate) fn slice_char_to_utf16_cu(slice: &RopeSlice, char_idx: usize) -> (u: usize)
    requires
        char_idx <= slice_text(*slice).len(),
    ensures
        u == units(Encoding::UTF16, slice_text(*slice).take(char_idx as int)),
{
    slice.char_to_utf16_cu(char_idx)
}

/// `RopeSlice::byte_to_char`: the index of the character that a byte
/// belongs to, and the number of characters for the offset at the end.
/// It panics for an offset above the number of bytes.
#[verifier::external_body]
pub(crate) fn slice_byte_to_char(slice: &RopeSlice, byte_idx: usize) -> (c: usize)
    requires
        byte_idx <= units(Encoding::UTF8, slice_text(*slice)),
    ensures
        c == char_at_unit(Encoding::UTF8, slice_text(*slice), byte_idx as nat),
{
    slice.byte_to_char(byte_idx)
}

/// `RopeSlice::utf16_cu_to_char`: the index of the character that a UTF-16
/// code unit belongs to, and the number of characters for the offset at
/// the end. It panics for an offset above the number of code units.
#[verifier::external_body]
pub(crate) fn slice_utf16_cu_to_char(slice: &RopeSlice, utf16_idx: usize) -> (c: usize)
    requires
        utf16_idx <= units(Encoding::UTF16, slice_text(*slice)),
    ensures
        c == char_at_unit(Encoding::UTF16, slice_text(*slice), utf16_idx as nat),
{
    slice.utf16_cu_to_char(utf16_idx)
}

} // verus!
