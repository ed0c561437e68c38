use lsp_state::conversions::{position_to_encoding, try_position_to_encoding};
use lsp_state::document::Document;
use lsp_state::encoding::Encoding;
use lsp_state::position::{LspPosition, Position, TsPoint};

// 'a' is one unit everywhere; U+00E9 is two bytes; U+1F600 is four bytes
// and two UTF-16 units.
const LINE: &str = "a\u{e9}\u{1F600}b\nsecond\n";

fn doc(text: &str) -> Document {
    Document::new("file:///doc".to_string(), text, 1, "plain".to_string(), None)
}

fn pos(line: usize, col: usize) -> Position {
    Position { line, col }
}

#[test]
fn same_encoding_is_identity() {
    let d = doc(LINE);
    assert_eq!(position_to_encoding(d.text(), pos(0, 99), Encoding::UTF16, Encoding::UTF16), pos(0, 99));
}

#[test]
fn utf32_to_utf8_counts_bytes() {
    let d = doc(LINE);
    assert_eq!(position_to_encoding(d.text(), pos(0, 0), Encoding::UTF32, Encoding::UTF8), pos(0, 0));
    assert_eq!(position_to_encoding(d.text(), pos(0, 1), Encoding::UTF32, Encoding::UTF8), pos(0, 1));
    assert_eq!(position_to_encoding(d.text(), pos(0, 2), Encoding::UTF32, Encoding::UTF8), pos(0, 3));
    assert_eq!(position_to_encoding(d.text(), pos(0, 3), Encoding::UTF32, Encoding::UTF8), pos(0, 7));
    assert_eq!(position_to_encoding(d.text(), pos(0, 4), Encoding::UTF32, Encoding::UTF8), pos(0, 8));
}

#[test]
fn utf32_to_utf16_counts_code_units() {
    let d = doc(LINE);
    assert_eq!(position_to_encoding(d.text(), pos(0, 2), Encoding::UTF32, Encoding::UTF16), pos(0, 2));
    assert_eq!(position_to_encoding(d.text(), pos(0, 3), Encoding::UTF32, Encoding::UTF16), pos(0, 4));
    assert_eq!(position_to_encoding(d.text(), pos(0, 4), Encoding::UTF32, Encoding::UTF16), pos(0, 5));
}

#[test]
fn utf8_to_utf16_and_back() {
    let d = doc(LINE);
    assert_eq!(position_to_encoding(d.text(), pos(0, 7), Encoding::UTF8, Encoding::UTF16), pos(0, 4));
    assert_eq!(position_to_encoding(d.text(), pos(0, 4), Encoding::UTF16, Encoding::UTF8), pos(0, 7));
}

#[test]
fn offset_inside_a_character_denotes_that_character() {
    let d = doc(LINE);
    // byte 5 lies inside the four-byte character, which is character 2
    assert_eq!(position_to_encoding(d.text(), pos(0, 5), Encoding::UTF8, Encoding::UTF32), pos(0, 2));
    // UTF-16 unit 3 is the second half of the surrogate pair
    assert_eq!(position_to_encoding(d.text(), pos(0, 3), Encoding::UTF16, Encoding::UTF32), pos(0, 2));
}

#[test]
fn column_past_the_line_is_clamped() {
    let d = doc(LINE);
    // the first line has five characters with its line feed: 9 bytes, 6 UTF-16 units
    assert_eq!(position_to_encoding(d.text(), pos(0, 500), Encoding::UTF32, Encoding::UTF8), pos(0, 9));
    assert_eq!(position_to_encoding(d.text(), pos(0, 500), Encoding::UTF8, Encoding::UTF16), pos(0, 6));
    assert_eq!(position_to_encoding(d.text(), pos(0, 500), Encoding::UTF16, Encoding::UTF32), pos(0, 5));
}

#[test]
fn line_passes_through() {
    let d = doc(LINE);
    assert_eq!(position_to_encoding(d.text(), pos(1, 3), Encoding::UTF32, Encoding::UTF8), pos(1, 3));
}

#[test]
fn round_trip_from_utf32() {
    let d = doc(LINE);
    for x in [Encoding::UTF8, Encoding::UTF16, Encoding::UTF32] {
        for c in 0..=5usize {
            let there = position_to_encoding(d.text(), pos(0, c), Encoding::UTF32, x);
            let back = position_to_encoding(d.text(), there, x, Encoding::UTF32);
            assert_eq!(back, pos(0, c));
        }
    }
}

#[test]
fn try_conversion_knows_missing_lines() {
    let d = doc("one\ntwo");
    assert_eq!(
        try_position_to_encoding(d.text(), pos(1, 2), Encoding::UTF16, Encoding::UTF8),
        Some(pos(1, 2))
    );
    assert_eq!(try_position_to_encoding(d.text(), pos(2, 0), Encoding::UTF16, Encoding::UTF8), None);
    assert_eq!(
        try_position_to_encoding(d.text(), pos(7, 3), Encoding::UTF8, Encoding::UTF8),
        Some(pos(7, 3))
    );
}

#[test]
fn positions_convert_to_and_from_protocol_positions() {
    let p = Position::from_lsp(LspPosition { line: 3, character: 9 });
    assert_eq!(p, pos(3, 9));
    assert_eq!(p.into_lsp(), LspPosition { line: 3, character: 9 });
}

#[test]
fn positions_convert_to_and_from_tree_points() {
    let p = Position::from_ts(TsPoint { row: 4, column: 2 });
    assert_eq!(p, pos(4, 2));
    assert_eq!(p.into_ts(), TsPoint { row: 4, column: 2 });
}

#[test]
fn positions_convert_through_from_and_into() {
    let p: Position = LspPosition { line: 1, character: 2 }.into();
    assert_eq!(p, pos(1, 2));
    let back: LspPosition = p.into();
    assert_eq!(back, LspPosition { line: 1, character: 2 });
    let q = Position::from(TsPoint { row: 5, column: 6 });
    assert_eq!(q, pos(5, 6));
    assert_eq!(TsPoint::from(q), TsPoint { row: 5, column: 6 });
}

#[test]
fn empty_last_line_clamps_to_zero() {
    let d = doc("ab\n");
    assert_eq!(position_to_encoding(d.text(), pos(1, 5), Encoding::UTF16, Encoding::UTF8), pos(1, 0));
    assert_eq!(try_position_to_encoding(d.text(), pos(2, 5), Encoding::UTF16, Encoding::UTF8), None);
}

#[test]
fn carriage_return_and_line_feed_belong_to_their_line() {
    let d = doc("\u{e9}b\r\ncd\ref");
    assert_eq!(position_to_encoding(d.text(), pos(0, 99), Encoding::UTF8, Encoding::UTF32), pos(0, 4));
    assert_eq!(position_to_encoding(d.text(), pos(0, 99), Encoding::UTF32, Encoding::UTF8), pos(0, 5));
    assert_eq!(position_to_encoding(d.text(), pos(1, 99), Encoding::UTF16, Encoding::UTF32), pos(1, 3));
    assert_eq!(position_to_encoding(d.text(), pos(2, 99), Encoding::UTF16, Encoding::UTF32), pos(2, 2));
    assert_eq!(try_position_to_encoding(d.text(), pos(3, 0), Encoding::UTF16, Encoding::UTF32), None);
}
