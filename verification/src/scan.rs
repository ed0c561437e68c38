//! Scanning the UTF-8 bytes of a text: finding a delimiter, counting line
//! breaks and characters.

use vstd::prelude::*;

verus! {

/// Whether a character takes a single byte in UTF-8.
pub open spec fn is_single_byte(c: char) -> bool {
    (c as u32) < 0x80
}

/// Whether a byte continues a character rather than starting one.
pub open spec fn is_continuation(b: u8) -> bool {
    0x80 <= b < 0xC0
}

/// The index of the first byte equal to `b`, if there is one.
pub open spec fn find_byte(bytes: Seq<u8>, b: u8) -> Option<int>
    decreases bytes.len(),
{
    if bytes.len() == 0 {
        None
    } else if bytes[0] == b {
        Some(0)
    } else {
        match find_byte(bytes.drop_first(), b) {
            Some(i) => Some(i + 1),
            None => None,
        }
    }
}

/// What `find_byte` finds is the first occurrence, and it finds nothing
/// only where there is none.
pub proof fn lemma_find_byte(bytes: Seq<u8>, b: u8)
    ensures
        match find_byte(bytes, b) {
            Some(i) => 0 <= i < bytes.len() && bytes[i] == b && forall|j: int|
                0 <= j < i ==> bytes[j] != b,
            None => forall|j: int| 0 <= j < bytes.len() ==> bytes[j] != b,
        },
    decreases bytes.len(),
{
    if bytes.len() > 0 && bytes[0] != b {
        lemma_find_byte(bytes.drop_first(), b);
        match find_byte(bytes.drop_first(), b) {
            Some(i) => {
                assert forall|j: int| 0 <= j < i + 1 implies bytes[j] != b by {
                    if j > 0 {
                        assert(bytes[j] == bytes.drop_first()[j - 1]);
                    }
                }
            },
            None => {
                assert forall|j: int| 0 <= j < bytes.len() implies bytes[j] != b by {
                    if j > 0 {
                        assert(bytes[j] == bytes.drop_first()[j - 1]);
                    }
                }
            },
        }
    }
}

/// Finds the first byte equal to `b`.
pub fn find_byte_in(bytes: &[u8], b: u8) -> (found: Option<usize>)
    ensures
        match found {
            Some(i) => find_byte(bytes@, b) == Some(i as int) && i < bytes@.len(),
            None => find_byte(bytes@, b).is_none(),
        },
{
    let mut i: usize = 0;
    while i < bytes.len()
        invariant
            i <= bytes@.len(),
            forall|j: int| 0 <= j < i ==> bytes@[j] != b,
        decreases bytes.len() - i,
    {
        if bytes[i] == b {
            proof {
                lemma_find_byte(bytes@, b);
            }
            return Some(i);
        }
        i += 1;
    }
    proof {
        lemma_find_byte(bytes@, b);
    }
    None
}

/// The number of line feeds among the first `n` bytes.
pub open spec fn newlines_before(bytes: Seq<u8>, n: int) -> int
    decreases n,
{
    if n <= 0 || n > bytes.len() {
        0
    } else if bytes[n - 1] == 0x0A {
        newlines_before(bytes, n - 1) + 1
    } else {
        newlines_before(bytes, n - 1)
    }
}

/// The index at which the line that holds byte `n` begins: just after
/// the last line feed among the first `n` bytes, or 0.
pub open spec fn line_begin(bytes: Seq<u8>, n: int) -> int
    decreases n,
{
    if n <= 0 || n > bytes.len() {
        0
    } else if bytes[n - 1] == 0x0A {
        n
    } else {
        line_begin(bytes, n - 1)
    }
}

/// The number of characters that start among the bytes from `from` up to
/// `to`.
pub open spec fn chars_between(bytes: Seq<u8>, from: int, to: int) -> int
    decreases to - from,
{
    if to <= from || to > bytes.len() || from < 0 {
        0
    } else if is_continuation(bytes[to - 1]) {
        chars_between(bytes, from, to - 1)
    } else {
        chars_between(bytes, from, to - 1) + 1
    }
}

/// Counts the line feeds before `offset` and finds where the line of
/// `offset` begins.
pub fn scan_line(bytes: &[u8], offset: usize) -> (found: (usize, usize))
    requires
        offset <= bytes@.len(),
    ensures
        found.0 == newlines_before(bytes@, offset as int),
        found.1 == line_begin(bytes@, offset as int),
        found.0 <= offset,
        found.1 <= offset,
{
    let mut lines: usize = 0;
    let mut begin: usize = 0;
    let mut i: usize = 0;
    while i < offset
        invariant
            i <= offset <= bytes@.len(),
            lines == newlines_before(bytes@, i as int),
            begin == line_begin(bytes@, i as int),
            lines <= i,
            begin <= i,
        decreases offset - i,
    {
        if bytes[i] == 0x0A {
            lines += 1;
            begin = i + 1;
        }
        i += 1;
    }
    (lines, begin)
}

/// Counts the characters that start among the bytes from `from` up to
/// `to`.
pub fn count_chars(bytes: &[u8], from: usize, to: usize) -> (n: usize)
    requires
        from <= to <= bytes@.len(),
    ensures
        n == chars_between(bytes@, from as int, to as int),
        n <= to - from,
{
    let mut n: usize = 0;
    let mut i: usize = from;
    while i < to
        invariant
            from <= i <= to <= bytes@.len(),
            n == chars_between(bytes@, from as int, i as int),
            n <= i - from,
        decreases to - i,
    {
        let b = bytes[i];
        if !(0x80 <= b && b < 0xC0) {
            n += 1;
        }
        i += 1;
    }
    n
}

} // verus!
