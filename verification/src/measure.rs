//! How many code units a piece of text takes under each encoding, and which
//! character a code unit offset falls into.

use vstd::prelude::*;
use crate::encoding::Encoding;

verus! {

/// The number of UTF-8 code units (bytes) of one character.
pub open spec fn char_utf8_width(c: char) -> nat {
    let v = c as u32;
    if v < 0x80 {
        1
    } else if v < 0x800 {
        2
    } else if v < 0x10000 {
        3
    } else {
        4
    }
}

/// The number of UTF-16 code units of one character.
pub open spec fn char_utf16_width(c: char) -> nat {
    if (c as u32) < 0x10000 {
        1
    } else {
        2
    }
}

/// The number of code units of one character under `e`.
pub open spec fn unit_width(e: Encoding, c: char) -> nat {
    match e {
        Encoding::UTF8 => char_utf8_width(c),
        Encoding::UTF16 => char_utf16_width(c),
        Encoding::UTF32 => 1,
    }
}

/// The number of code units of `s` under `e`.
pub open spec fn units(e: Encoding, s: Seq<char>) -> nat
    decreases s.len(),
{
    if s.len() == 0 {
        0
    } else {
        unit_width(e, s[0]) + units(e, s.drop_first())
    }
}

/// The index of the character that the code unit at offset `u` belongs to,
/// counting under `e`. An offset at or past the end gives `s.len()`.
pub open spec fn char_at_unit(e: Encoding, s: Seq<char>, u: nat) -> nat
    decreases s.len(),
{
    if s.len() == 0 || u < unit_width(e, s[0]) {
        0
    } else {
        1 + char_at_unit(e, s.drop_first(), (u - unit_width(e, s[0])) as nat)
    }
}

/// The character boundary that column `col` denotes in `line` under `e`.
/// A column past the end of the line denotes the end of the line.
pub open spec fn column_to_char(e: Encoding, line: Seq<char>, col: nat) -> nat {
    let total = units(e, line);
    char_at_unit(e, line, if col < total { col } else { total })
}

/// The column of the character boundary `idx` of `line`, counted under `e`.
pub open spec fn char_to_column(e: Encoding, line: Seq<char>, idx: nat) -> nat {
    units(e, line.take(idx as int))
}

/// The column that denotes under `target` what `col` denotes under `source`.
pub open spec fn convert_column(line: Seq<char>, col: nat, source: Encoding, target: Encoding) -> nat {
    if source == target {
        col
    } else {
        char_to_column(target, line, column_to_char(source, line, col))
    }
}

/// The UTF-8 code units of a text are the bytes of its UTF-8 encoding.
pub proof fn lemma_units_utf8_are_bytes(s: Seq<char>)
    ensures
        units(Encoding::UTF8, s) == vstd::utf8::encode_utf8(s).len(),
    decreases s.len(),
{
    if s.len() > 0 {
        vstd::utf8::char_is_scalar(s[0]);
        assert(vstd::utf8::encode_scalar(s[0] as u32).len() == char_utf8_width(s[0]));
        lemma_units_utf8_are_bytes(s.drop_first());
    }
}

/// Under UTF-32 the code units of a text are its characters.
pub proof fn lemma_units_utf32(s: Seq<char>)
    ensures
        units(Encoding::UTF32, s) == s.len(),
    decreases s.len(),
{
    if s.len() > 0 {
        lemma_units_utf32(s.drop_first());
    }
}

/// A prefix has no more code units than the whole.
pub proof fn lemma_units_prefix(e: Encoding, s: Seq<char>, n: int)
    requires
        0 <= n <= s.len(),
    ensures
        units(e, s.take(n)) <= units(e, s),
    decreases s.len(),
{
    if n == 0 {
        assert(s.take(0).len() == 0);
    } else {
        assert(s.take(n)[0] == s[0]);
        assert(s.take(n).drop_first() =~= s.drop_first().take(n - 1));
        lemma_units_prefix(e, s.drop_first(), n - 1);
    }
}

/// The character found for an offset is an index into the text or its end.
pub proof fn lemma_char_at_unit_bound(e: Encoding, s: Seq<char>, u: nat)
    ensures
        char_at_unit(e, s, u) <= s.len(),
    decreases s.len(),
{
    if s.len() > 0 && u >= unit_width(e, s[0]) {
        lemma_char_at_unit_bound(e, s.drop_first(), (u - unit_width(e, s[0])) as nat);
    }
}

/// The offset at which character `n` starts falls into character `n`.
pub proof fn lemma_char_at_unit_of_prefix(e: Encoding, s: Seq<char>, n: int)
    requires
        0 <= n <= s.len(),
    ensures
        char_at_unit(e, s, units(e, s.take(n))) == n,
    decreases s.len(),
{
    if n == 0 {
        assert(s.take(0).len() == 0);
    } else {
        assert(s.take(n)[0] == s[0]);
        assert(s.take(n).drop_first() =~= s.drop_first().take(n - 1));
        lemma_char_at_unit_of_prefix(e, s.drop_first(), n - 1);
    }
}

/// Under UTF-32 the character at an offset is the offset, capped at the end.
pub proof fn lemma_char_at_unit_utf32(s: Seq<char>, u: nat)
    ensures
        char_at_unit(Encoding::UTF32, s, u) == if u < s.len() { u } else { s.len() },
    decreases s.len(),
{
    if s.len() > 0 && u >= 1 {
        lemma_char_at_unit_utf32(s.drop_first(), (u - 1) as nat);
    }
}

/// Clamping: a converted column lies within the line as measured under
/// the target, whatever the column was, unless the two encodings are the
/// same.
pub proof fn lemma_convert_column_bound(line: Seq<char>, col: nat, source: Encoding, target: Encoding)
    requires
        source != target,
    ensures
        convert_column(line, col, source, target) <= units(target, line),
{
    let total = units(source, line);
    let capped = if col < total { col } else { total };
    lemma_char_at_unit_bound(source, line, capped);
    lemma_units_prefix(target, line, char_at_unit(source, line, capped) as int);
}

/// Round trip: a column that counts characters and lies within the line
/// comes back unchanged from a conversion to any encoding and back.
pub proof fn lemma_round_trip(line: Seq<char>, c: nat, x: Encoding)
    requires
        c <= line.len(),
    ensures
        convert_column(line, convert_column(line, c, Encoding::UTF32, x), x, Encoding::UTF32) == c,
{
    if x != Encoding::UTF32 {
        lemma_units_utf32(line);
        lemma_char_at_unit_utf32(line, c);
        assert(column_to_char(Encoding::UTF32, line, c) == c);
        let there = units(x, line.take(c as int));
        assert(convert_column(line, c, Encoding::UTF32, x) == there);
        lemma_units_prefix(x, line, c as int);
        lemma_char_at_unit_of_prefix(x, line, c as int);
        assert(column_to_char(x, line, there) == c);
        lemma_units_utf32(line.take(c as int));
    }
}

} // verus!
