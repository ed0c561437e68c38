use lsp_state::conversions::{
    position_to_byte_offset, position_to_char_offset, try_position_to_byte_offset,
    try_position_to_char_offset,
};
use lsp_state::document::{Document, Edit, EditRange, InputEdit};
use lsp_state::encoding::{Encoding, PositionEncoding};
use lsp_state::position::{Position, TsPoint};
use lsp_state::server_state::{Negotiation, ServerState, SyncCapabilities};

fn pos(line: usize, col: usize) -> Position {
    Position { line, col }
}

fn point(row: usize, column: usize) -> TsPoint {
    TsPoint { row, column }
}

fn edit(start: Position, end: Position, text: &str) -> Edit {
    Edit { range: Some(EditRange { start, end }), text: text.to_string() }
}

fn doc(text: &str) -> Document {
    Document::new("d".to_string(), text, 1, "plain".to_string(), None)
}

#[test]
fn marker_of_an_edit_within_a_line() {
    // the second line starts at byte 7: "h\u{e9}llo\n" is seven bytes
    let d = doc("h\u{e9}llo\nw\u{1F600}rld\n");
    let e = edit(pos(1, 1), pos(1, 3), "ab");
    let marker = d.input_edit(&e, Encoding::UTF16).unwrap();
    assert_eq!(
        marker,
        InputEdit {
            start_byte: 8,
            old_end_byte: 12,
            new_end_byte: 10,
            start_position: point(1, 1),
            old_end_position: point(1, 5),
            new_end_position: point(1, 3),
        }
    );
}

#[test]
fn marker_of_an_edit_that_brings_lines() {
    let d = doc("abc\ndef");
    let e = edit(pos(0, 1), pos(1, 1), "X\nY\u{e9}Z");
    let marker = d.input_edit(&e, Encoding::UTF32).unwrap();
    assert_eq!(
        marker,
        InputEdit {
            start_byte: 1,
            old_end_byte: 5,
            new_end_byte: 7,
            start_position: point(0, 1),
            old_end_position: point(1, 1),
            new_end_position: point(1, 4),
        }
    );
}

#[test]
fn marker_is_missing_where_the_edit_cannot_be_applied() {
    let d = doc("abc");
    assert_eq!(d.input_edit(&edit(pos(4, 0), pos(4, 1), "x"), Encoding::UTF16), None);
    assert_eq!(d.input_edit(&Edit { range: None, text: "x".to_string() }, Encoding::UTF16), None);
}

#[test]
fn markers_follow_the_text_as_it_changes() {
    let d = doc("one two");
    let edits = vec![edit(pos(0, 0), pos(0, 3), "1"), edit(pos(0, 2), pos(0, 5), "2")];
    let markers = d.input_edits(&edits, Encoding::UTF8).unwrap();
    assert_eq!(markers.len(), 2);
    assert_eq!(markers[0].start_byte, 0);
    assert_eq!(markers[0].old_end_byte, 3);
    assert_eq!(markers[0].new_end_byte, 1);
    // the second edit is measured on "1 two"
    assert_eq!(markers[1].start_byte, 2);
    assert_eq!(markers[1].old_end_byte, 5);
    assert_eq!(markers[1].new_end_byte, 3);
    assert_eq!(markers[1].new_end_position, point(0, 3));
    // the document itself is untouched
    assert_eq!(d.text_contents(), "one two");
    assert_eq!(d.input_edits(&vec![edit(pos(0, 0), pos(0, 1), ""), edit(pos(7, 0), pos(7, 0), "")], Encoding::UTF8), None);
    assert_eq!(d.input_edits(&Vec::new(), Encoding::UTF8), Some(Vec::new()));
}

#[test]
fn offsets_within_a_line() {
    let d = doc("a\u{e9}\u{1F600}b\nnext");
    assert_eq!(position_to_char_offset(d.text(), pos(0, 3), Encoding::UTF8), 2);
    assert_eq!(position_to_char_offset(d.text(), pos(0, 4), Encoding::UTF16), 3);
    assert_eq!(position_to_char_offset(d.text(), pos(0, 3), Encoding::UTF32), 3);
    assert_eq!(position_to_char_offset(d.text(), pos(0, 99), Encoding::UTF32), 5);
    assert_eq!(position_to_byte_offset(d.text(), pos(0, 5), Encoding::UTF8), 5);
    assert_eq!(position_to_byte_offset(d.text(), pos(0, 99), Encoding::UTF8), 9);
    assert_eq!(position_to_byte_offset(d.text(), pos(0, 3), Encoding::UTF16), 3);
    assert_eq!(position_to_byte_offset(d.text(), pos(0, 4), Encoding::UTF16), 7);
    assert_eq!(position_to_byte_offset(d.text(), pos(0, 3), Encoding::UTF32), 7);
    assert_eq!(position_to_byte_offset(d.text(), pos(1, 2), Encoding::UTF32), 2);
}

#[test]
fn offsets_of_missing_lines() {
    let d = doc("abc");
    assert_eq!(try_position_to_char_offset(d.text(), pos(0, 2), Encoding::UTF16), Some(2));
    assert_eq!(try_position_to_char_offset(d.text(), pos(1, 0), Encoding::UTF16), None);
    assert_eq!(try_position_to_byte_offset(d.text(), pos(0, 2), Encoding::UTF16), Some(2));
    assert_eq!(try_position_to_byte_offset(d.text(), pos(1, 0), Encoding::UTF16), None);
}

#[test]
fn handshake_fixes_the_encoding() {
    let mut state = ServerState::new(Vec::new());
    assert_eq!(state.get_position_encoding(), PositionEncoding::UTF16);
    let answer = state.initialize(&vec![Encoding::UTF16, Encoding::UTF8]);
    assert_eq!(
        answer,
        Negotiation {
            position_encoding: Encoding::UTF8,
            sync: SyncCapabilities { incremental: true, open_close: true, save_includes_text: true },
        }
    );
    assert_eq!(state.get_position_encoding(), Encoding::UTF8);
    let answer = state.initialize(&Vec::new());
    assert_eq!(answer.position_encoding, Encoding::UTF16);
    assert_eq!(state.get_position_encoding(), Encoding::UTF16);
}
