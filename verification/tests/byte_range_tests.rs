use lsp_state::byte_range::{
    splitrange, splitrange_left, splitrange_right, subrange, subrange_delimited, subrange_delimited_tri,
};
use lsp_state::position::TsPoint;
use lsp_state::range_ext::tree_sitter::TsRange;
use lsp_state::range_ext::RangeExt;
use lsp_state::scan::{count_chars, find_byte_in, scan_line};

#[test]
fn split_and_sub() {
    assert_eq!(splitrange(3..10, 4), (3..7, 7..10));
    assert_eq!(splitrange_left(3..10, 4), 3..7);
    assert_eq!(splitrange_right(3..10, 4), 7..10);
    assert_eq!(subrange(3..10, 1, 5), 4..8);
}

#[test]
fn delimited_examples() {
    assert_eq!(subrange_delimited("one/two", 0..7, '/'), (Some(0..3), Some(4..7)));
    assert_eq!(subrange_delimited("/two", 0..4, '/'), (None, Some(1..4)));
    assert_eq!(subrange_delimited("one/", 0..4, '/'), (Some(0..3), None));
    assert_eq!(subrange_delimited("one", 0..3, '/'), (Some(0..3), None));
    assert_eq!(subrange_delimited("", 0..0, '/'), (None, None));
    assert_eq!(subrange_delimited("a/b/c", 10..15, '/'), (Some(10..11), Some(12..15)));
}

#[test]
fn delimited_tri_examples() {
    assert_eq!(
        subrange_delimited_tri("one/two@three", 0..13, '/', '@'),
        (Some(0..3), Some(4..7), Some(8..13))
    );
    assert_eq!(subrange_delimited_tri("one/two", 0..7, '/', '@'), (Some(0..3), Some(4..7), None));
    assert_eq!(subrange_delimited_tri("one", 0..3, '/', '@'), (Some(0..3), None, None));
    assert_eq!(subrange_delimited_tri("", 0..0, '/', '@'), (None, None, None));
    assert_eq!(subrange_delimited_tri("a@b/c@d", 0..7, '/', '@'), (Some(0..3), Some(4..5), Some(6..7)));
}

#[test]
fn delimiter_after_wide_characters() {
    assert_eq!(subrange_delimited("\u{e9}/x", 0..4, '/'), (Some(0..2), Some(3..4)));
}

#[test]
fn scanning_bytes() {
    let bytes = "a\u{e9}\nbc\n\u{1F600}/".as_bytes();
    assert_eq!(find_byte_in(bytes, b'/'), Some(11));
    assert_eq!(find_byte_in(bytes, b'#'), None);
    assert_eq!(scan_line(bytes, 11), (2, 7));
    assert_eq!(scan_line(bytes, 2), (0, 0));
    assert_eq!(count_chars(bytes, 0, bytes.len()), 8);
    assert_eq!(count_chars(bytes, 7, 11), 1);
}

fn ts(start_byte: usize, start: (usize, usize), end_byte: usize, end: (usize, usize)) -> TsRange {
    TsRange {
        start_byte,
        end_byte,
        start_point: TsPoint { row: start.0, column: start.1 },
        end_point: TsPoint { row: end.0, column: end.1 },
    }
}

#[test]
fn tree_range_shrinks_by_characters() {
    let range = ts(10, (2, 4), 15, (2, 9));
    assert_eq!(range.shrink("hello", 1, 2), ts(11, (2, 5), 13, (2, 7)));
    assert_eq!(range.shrink("hello", 0, 0), ts(10, (2, 4), 15, (2, 9)));
    assert_eq!(range.shrink("hello", 0, 9), ts(10, (2, 4), 10, (2, 4)));
    assert_eq!(range.shrink("hello", 4, 4), ts(14, (2, 8), 14, (2, 8)));
    assert_eq!(range.shrink("hello", 9, 0), ts(15, (2, 9), 15, (2, 9)));
}

#[test]
fn tree_range_shrinks_across_lines_and_wide_characters() {
    // six bytes: a two-byte character, a line feed, three letters
    let range = ts(0, (0, 3), 6, (1, 3));
    assert_eq!(range.shrink("\u{e9}\nabc", 1, 1), ts(2, (0, 5), 5, (1, 2)));
    assert_eq!(range.shrink("\u{e9}\nabc", 2, 0), ts(3, (1, 0), 6, (1, 3)));
}

#[test]
fn tree_range_with_empty_text_is_left_alone() {
    let range = ts(4, (1, 1), 4, (1, 1));
    assert_eq!(range.shrink("", 3, 3), range);
}

#[test]
fn tree_range_point_that_is_not_met_falls_to_the_start() {
    let range = ts(5, (0, 5), 10, (0, 10));
    let (left, right) = range.split_at("hello", TsPoint { row: 3, column: 0 });
    assert_eq!(left, ts(5, (0, 5), 5, (3, 0)));
    assert_eq!(right, ts(5, (3, 0), 10, (0, 10)));
}
