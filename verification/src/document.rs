//! A tracked document, and the incremental application of edits to its text.

use vstd::prelude::*;
use vstd::string::*;
use ropey::Rope;
use crate::encoding::Encoding;
use crate::document_matcher::GrammarId;
use crate::position::{Position, TsPoint};
use crate::measure::{convert_column, units};
use crate::scan::{newlines_before, line_begin, scan_line};
use crate::conversions::position_to_encoding;
use crate::lines::{line_count, line_start, line_text, lemma_line_start_bound};
use crate::rope::{rope_text, rope_from_str, rope_clone,
    rope_to_string, rope_len_chars, rope_len_lines, rope_try_line_to_char, rope_try_remove,
    rope_try_insert, rope_char_to_byte};

verus! {

/// The two ends of the text that an edit replaces, in the session's encoding.
#[derive(Debug, Clone, Copy, PartialEq, Eq, Structural)]
pub struct EditRange {
    pub start: Position,
    pub end: Position,
}

/// One edit of a change notification: a range and the text that replaces
/// it. An edit without a range stands for a replacement of the whole text
/// and cannot be applied incrementally.
#[derive(Debug)]
pub struct Edit {
    pub range: Option<EditRange>,
    pub text: String,
}

/// The column of `position` counted in characters. Under UTF-32 it is the
/// column as given. Under another encoding it is measured within the
/// position's line; the line one past the last is empty.
pub open spec fn column_in_chars(text: Seq<char>, position: Position, encoding: Encoding) -> int {
    if encoding == Encoding::UTF32 {
        position.col as int
    } else if position.line < line_count(text) {
        convert_column(
            line_text(text, position.line as int),
            position.col as nat,
            encoding,
            Encoding::UTF32,
        ) as int
    } else {
        0
    }
}

/// The character offsets between which an edit replaces text: the start,
/// and the end moved into the part from the start to the end of the text.
/// `None` where a line lies beyond the line count or the start lies
/// beyond the text.
pub open spec fn edit_span(text: Seq<char>, range: EditRange, encoding: Encoding) -> Option<(int, int)> {
    if range.start.line > line_count(text) || range.end.line > line_count(text) {
        None
    } else {
        let start = line_start(text, range.start.line as int) + column_in_chars(
            text,
            range.start,
            encoding,
        );
        let end = line_start(text, range.end.line as int) + column_in_chars(
            text,
            range.end,
            encoding,
        );
        if start > text.len() {
            None
        } else if end < start {
            Some((start, start))
        } else if end > text.len() {
            Some((start, text.len() as int))
        } else {
            Some((start, end))
        }
    }
}

/// The offsets between which an edit replaces text lie within the text,
/// the start at or before the end.
pub proof fn lemma_edit_span_bounds(text: Seq<char>, range: EditRange, encoding: Encoding)
    ensures
        match edit_span(text, range, encoding) {
            Some((start, end)) => 0 <= start <= end <= text.len(),
            None => true,
        },
{
    lemma_line_start_bound(text, range.start.line as int);
    lemma_line_start_bound(text, range.end.line as int);
}

/// The text after one edit, built directly: what stands before the start,
/// the replacement, what stands after the end. `None` where the edit
/// cannot be applied incrementally.
pub open spec fn apply_edit(text: Seq<char>, edit: Edit, encoding: Encoding) -> Option<Seq<char>> {
    match edit.range {
        None => None,
        Some(range) => match edit_span(text, range, encoding) {
            None => None,
            Some((start, end)) => Some(text.take(start) + edit.text@ + text.skip(end)),
        },
    }
}

/// The text after a list of edits, each applied to what the one before it
/// left. `None` as soon as one of them cannot be applied.
pub open spec fn apply_edits(text: Seq<char>, edits: Seq<Edit>, encoding: Encoding) -> Option<Seq<char>>
    decreases edits.len(),
{
    if edits.len() == 0 {
        Some(text)
    } else {
        match apply_edit(text, edits[0], encoding) {
            None => None,
            Some(next) => apply_edits(next, edits.drop_first(), encoding),
        }
    }
}

/// The text after the edits of a list that can be applied one after the
/// other, up to the first that cannot.
pub open spec fn apply_edits_partial(text: Seq<char>, edits: Seq<Edit>, encoding: Encoding) -> Seq<char>
    decreases edits.len(),
{
    if edits.len() == 0 {
        text
    } else {
        match apply_edit(text, edits[0], encoding) {
            None => text,
            Some(next) => apply_edits_partial(next, edits.drop_first(), encoding),
        }
    }
}

/// Applying two lists of edits one after the other gives the text that
/// applying their concatenation gives.
pub proof fn lemma_apply_edits_concat(text: Seq<char>, first: Seq<Edit>, second: Seq<Edit>, encoding: Encoding)
    ensures
        apply_edits(text, first + second, encoding) == match apply_edits(text, first, encoding) {
            None => None,
            Some(middle) => apply_edits(middle, second, encoding),
        },
    decreases first.len(),
{
    if first.len() == 0 {
        assert(first + second =~= second);
    } else {
        assert((first + second)[0] == first[0]);
        assert((first + second).drop_first() =~= first.drop_first() + second);
        match apply_edit(text, first[0], encoding) {
            None => {},
            Some(next) => {
                lemma_apply_edits_concat(next, first.drop_first(), second, encoding);
            },
        }
    }
}

/// An edit without a range cannot be applied incrementally.
pub proof fn lemma_edit_without_range_fails(text: Seq<char>, edit: Edit, encoding: Encoding)
    requires
        edit.range.is_none(),
    ensures
        apply_edit(text, edit, encoding).is_none(),
{
}

/// An edit that cannot be applied, after edits that can, makes the whole
/// list fail: so does any edit that names a line beyond the line count
/// of the text that the edits before it left.
pub proof fn lemma_failing_edit_fails_all(text: Seq<char>, edits: Seq<Edit>, k: int, encoding: Encoding)
    requires
        0 <= k < edits.len(),
        apply_edits(text, edits.take(k), encoding).is_some(),
        apply_edit(apply_edits(text, edits.take(k), encoding).unwrap(), edits[k], encoding).is_none(),
    ensures
        apply_edits(text, edits, encoding).is_none(),
{
    let middle = apply_edits(text, edits.take(k), encoding).unwrap();
    assert(edits =~= edits.take(k) + edits.skip(k));
    lemma_apply_edits_concat(text, edits.take(k), edits.skip(k), encoding);
    assert(edits.skip(k)[0] == edits[k]);
    assert(apply_edits(middle, edits.skip(k), encoding).is_none());
}

/// The column of `position` counted in bytes. Under UTF-8 it is the
/// column as given. Under another encoding it is measured within the
/// position's line; the line one past the last is empty.
pub open spec fn column_in_bytes(text: Seq<char>, position: Position, encoding: Encoding) -> int {
    if encoding == Encoding::UTF8 {
        position.col as int
    } else if position.line < line_count(text) {
        convert_column(
            line_text(text, position.line as int),
            position.col as nat,
            encoding,
            Encoding::UTF8,
        ) as int
    } else {
        0
    }
}

/// What a syntax tree has to be told of an edit before it is parsed
/// anew: where the replaced text started and ended, and where the
/// replacement ends, each as a byte offset and as a point.
#[derive(Debug, Clone, Copy, PartialEq, Eq, Structural)]
pub struct InputEdit {
    pub start_byte: usize,
    pub old_end_byte: usize,
    pub new_end_byte: usize,
    pub start_position: TsPoint,
    pub old_end_position: TsPoint,
    pub new_end_position: TsPoint,
}

/// The row at which a replacement ends that starts on row `row`.
pub open spec fn end_row(row: int, replacement: Seq<u8>) -> int {
    row + newlines_before(replacement, replacement.len() as int)
}

/// The column, in bytes, at which a replacement ends that starts at
/// column `column`: the bytes after its last line feed, or the start
/// column and all its bytes where it has no line feed.
pub open spec fn end_column(column: int, replacement: Seq<u8>) -> int {
    if newlines_before(replacement, replacement.len() as int) == 0 {
        column + replacement.len()
    } else {
        replacement.len() - line_begin(replacement, replacement.len() as int)
    }
}

/// The marker for one edit, computed on the text before the edit.
/// `None` where the edit cannot be applied incrementally, or where an
/// offset of the marker does not fit the machine's numbers.
pub open spec fn input_edit_of(text: Seq<char>, edit: Edit, encoding: Encoding) -> Option<InputEdit> {
    match edit.range {
        None => None,
        Some(range) => match edit_span(text, range, encoding) {
            None => None,
            Some((start, end)) => {
                let replacement = vstd::utf8::encode_utf8(edit.text@);
                let start_byte = units(Encoding::UTF8, text.take(start));
                let start_column = column_in_bytes(text, range.start, encoding);
                let new_end_byte = start_byte + replacement.len();
                let new_row = end_row(range.start.line as int, replacement);
                let new_column = end_column(start_column, replacement);
                if new_end_byte > usize::MAX || new_row > usize::MAX || new_column > usize::MAX {
                    None
                } else {
                    Some(
                        InputEdit {
                            start_byte: start_byte as usize,
                            old_end_byte: units(Encoding::UTF8, text.take(end)) as usize,
                            new_end_byte: new_end_byte as usize,
                            start_position: TsPoint {
                                row: range.start.line,
                                column: start_column as usize,
                            },
                            old_end_position: TsPoint {
                                row: range.end.line,
                                column: column_in_bytes(text, range.end, encoding) as usize,
                            },
                            new_end_position: TsPoint {
                                row: new_row as usize,
                                column: new_column as usize,
                            },
                        },
                    )
                }
            },
        },
    }
}

/// The markers for a list of edits, each computed on the text that the
/// edits before it left. `None` where one of them has none.
pub open spec fn input_edits_of(text: Seq<char>, edits: Seq<Edit>, encoding: Encoding) -> Option<
    Seq<InputEdit>,
>
    decreases edits.len(),
{
    if edits.len() == 0 {
        Some(Seq::empty())
    } else {
        match (input_edit_of(text, edits[0], encoding), apply_edit(text, edits[0], encoding)) {
            (Some(marker), Some(next)) => match input_edits_of(next, edits.drop_first(), encoding) {
                Some(rest) => Some(seq![marker] + rest),
                None => None,
            },
            _ => None,
        }
    }
}

/// What a document keeps of the matcher configuration that it fell
/// under: its name, and its grammar where it has one.
#[derive(Debug)]
pub struct Matched {
    pub name: String,
    pub grammar: Option<GrammarId>,
}

/// What a document keeps of its matcher configuration, as contracts speak
/// of it.
pub struct MatchedView {
    pub name: Seq<char>,
    pub grammar: Option<GrammarId>,
}

impl View for Matched {
    type V = MatchedView;

    open spec fn view(&self) -> MatchedView {
        MatchedView { name: self.name@, grammar: self.grammar }
    }
}

/// A matcher that may be absent, as contracts speak of it.
pub open spec fn opt_matched_view(matcher: Option<Matched>) -> Option<MatchedView> {
    match matcher {
        Some(m) => Some(m@),
        None => None,
    }
}

/// What a document is: its address, text, version, language identifier
/// and what it keeps of the matcher configuration that it fell under.
pub struct DocumentView {
    pub uri: Seq<char>,
    pub text: Seq<char>,
    pub version: i32,
    pub language: Seq<char>,
    pub matcher: Option<MatchedView>,
}

/// A document that the server tracks.
pub struct Document {
    uri: String,
    text: Rope,
    version: i32,
    language: String,
    matcher: Option<Matched>,
}

impl View for Document {
    type V = DocumentView;

    closed spec fn view(&self) -> DocumentView {
        DocumentView {
            uri: self.uri@,
            text: rope_text(self.text),
            version: self.version,
            language: self.language@,
            matcher: opt_matched_view(self.matcher),
        }
    }
}

/// The column of `position` counted in characters.
fn column_in_chars_of(text: &Rope, position: Position, encoding: Encoding) -> (col: usize)
    ensures
        col == column_in_chars(rope_text(*text), position, encoding),
{
    match encoding {
        Encoding::UTF32 => position.col,
        _ => {
            if position.line < rope_len_lines(text) {
                position_to_encoding(text, position, encoding, Encoding::UTF32).col
            } else {
                0
            }
        },
    }
}

/// The character offsets between which an edit replaces text.
fn edit_span_of(text: &Rope, range: &EditRange, encoding: Encoding) -> (span: Option<(usize, usize)>)
    ensures
        match span {
            Some((start, end)) => edit_span(rope_text(*text), *range, encoding) == Some(
                (start as int, end as int),
            ) && start <= end <= rope_text(*text).len(),
            None => edit_span(rope_text(*text), *range, encoding).is_none(),
        },
{
    let len = rope_len_chars(text);
    proof {
        lemma_line_start_bound(rope_text(*text), range.start.line as int);
        lemma_line_start_bound(rope_text(*text), range.end.line as int);
    }
    let start_line = match rope_try_line_to_char(text, range.start.line) {
        Some(offset) => offset,
        None => { return None; },
    };
    let end_line = match rope_try_line_to_char(text, range.end.line) {
        Some(offset) => offset,
        None => { return None; },
    };
    let start_col = column_in_chars_of(text, range.start, encoding);
    if start_col > len - start_line {
        return None;
    }
    let start = start_line + start_col;
    let end_col = column_in_chars_of(text, range.end, encoding);
    let end = if end_col > len - end_line {
        len
    } else if end_line + end_col < start {
        start
    } else {
        end_line + end_col
    };
    Some((start, end))
}

/// Applies one edit to a rope. `false`, with the rope unchanged, where
/// the edit cannot be applied incrementally.
fn apply_edit_to(text: &mut Rope, edit: &Edit, encoding: Encoding) -> (ok: bool)
    ensures
        ok <==> apply_edit(rope_text(*old(text)), *edit, encoding).is_some(),
        ok ==> Some(rope_text(*final(text))) == apply_edit(rope_text(*old(text)), *edit, encoding),
        !ok ==> rope_text(*final(text)) == rope_text(*old(text)),
{
    let range = match edit.range {
        Some(range) => range,
        None => { return false; },
    };
    let (start, end) = match edit_span_of(text, &range, encoding) {
        Some(span) => span,
        None => { return false; },
    };
    let ghost before = rope_text(*text);
    let removed = rope_try_remove(text, start, end);
    let ghost between = rope_text(*text);
    let inserted = rope_try_insert(text, start, edit.text.as_str());
    proof {
        assert(removed && inserted);
        assert(between.take(start as int) =~= before.take(start as int));
        assert(between.skip(start as int) =~= before.skip(end as int));
    }
    true
}

/// The column of `position` counted in bytes.
fn column_in_bytes_of(text: &Rope, position: Position, encoding: Encoding) -> (col: usize)
    ensures
        col == column_in_bytes(rope_text(*text), position, encoding),
{
    match encoding {
        Encoding::UTF8 => position.col,
        _ => {
            if position.line < rope_len_lines(text) {
                position_to_encoding(text, position, encoding, Encoding::UTF8).col
            } else {
                0
            }
        },
    }
}

/// The marker for one edit, computed on the text before the edit.
fn input_edit_for(text: &Rope, edit: &Edit, encoding: Encoding) -> (marker: Option<InputEdit>)
    ensures
        marker == input_edit_of(rope_text(*text), *edit, encoding),
{
    let range = match edit.range {
        Some(range) => range,
        None => { return None; },
    };
    let (start, end) = match edit_span_of(text, &range, encoding) {
        Some(span) => span,
        None => { return None; },
    };
    let replacement = edit.text.as_str().as_bytes();
    let start_byte = rope_char_to_byte(text, start);
    let old_end_byte = rope_char_to_byte(text, end);
    let start_column = column_in_bytes_of(text, range.start, encoding);
    let old_end_column = column_in_bytes_of(text, range.end, encoding);
    let (rows, begin) = scan_line(replacement, replacement.len());
    if replacement.len() > usize::MAX - start_byte || rows > usize::MAX - range.start.line {
        return None;
    }
    let new_column = if rows == 0 {
        if replacement.len() > usize::MAX - start_column {
            return None;
        }
        start_column + replacement.len()
    } else {
        replacement.len() - begin
    };
    Some(
        InputEdit {
            start_byte,
            old_end_byte,
            new_end_byte: start_byte + replacement.len(),
            start_position: TsPoint { row: range.start.line, column: start_column },
            old_end_position: TsPoint { row: range.end.line, column: old_end_column },
            new_end_position: TsPoint { row: range.start.line + rows, column: new_column },
        },
    )
}

impl Document {
    /// A document with the given contents.
    pub fn new(uri: String, text: &str, version: i32, language: String, matcher: Option<Matched>) -> (doc: Self)
        ensures
            doc@ == (DocumentView {
                uri: uri@,
                text: text@,
                version: version,
                language: language@,
                matcher: opt_matched_view(matcher),
            }),
    {
        Document { uri, text: rope_from_str(text), version, language, matcher }
    }

    /// An independent copy of the document as it is now.
    pub fn snapshot(&self) -> (copy: Self)
        ensures
            copy@ == self@,
    {
        Document {
            uri: self.uri.clone(),
            text: rope_clone(&self.text),
            version: self.version,
            language: self.language.clone(),
            matcher: match &self.matcher {
                Some(m) => Some(Matched { name: m.name.clone(), grammar: m.grammar }),
                None => None,
            },
        }
    }

    /// The address of the document.
    #[must_use]
    pub fn url(&self) -> (uri: &str)
        ensures
            uri@ == self@.uri,
    {
        self.uri.as_str()
    }

    /// The text of the document as the rope that holds it.
    #[must_use]
    pub fn text(&self) -> (rope: &Rope)
        ensures
            rope_text(*rope) == self@.text,
    {
        &self.text
    }

    /// The full text of the document as a string.
    #[must_use]
    pub fn text_contents(&self) -> (contents: String)
        ensures
            contents@ == self@.text,
    {
        rope_to_string(&self.text)
    }

    /// The full text of the document as UTF-8 bytes.
    #[must_use]
    pub fn text_bytes(&self) -> (bytes: Vec<u8>)
        ensures
            bytes@ == vstd::utf8::encode_utf8(self@.text),
    {
        let contents = rope_to_string(&self.text);
        contents.as_str().as_bytes_vec()
    }

    /// The version of the document: the one that the client gave with the
    /// last notification that changed it.
    #[must_use]
    pub fn version(&self) -> (version: i32)
        ensures
            version == self@.version,
    {
        self.version
    }

    /// The language identifier of the document.
    #[must_use]
    pub fn language(&self) -> (language: &str)
        ensures
            language@ == self@.language,
    {
        self.language.as_str()
    }

    /// The name of the matcher configuration that the document fell under,
    /// if it fell under one.
    #[must_use]
    pub fn matched_name(&self) -> (name: Option<&str>)
        ensures
            match name {
                Some(n) => self@.matcher.is_some() && self@.matcher.unwrap().name == n@,
                None => self@.matcher.is_none(),
            },
    {
        match &self.matcher {
            Some(m) => Some(m.name.as_str()),
            None => None,
        }
    }

    /// The grammar of the document: that of its matcher configuration,
    /// unless it was discarded.
    #[must_use]
    pub fn syntax_language(&self) -> (grammar: Option<GrammarId>)
        ensures
            grammar == match self@.matcher {
                Some(m) => m.grammar,
                None => None,
            },
    {
        match &self.matcher {
            Some(m) => m.grammar,
            None => None,
        }
    }

    /// Whether the document has a grammar.
    #[must_use]
    pub fn has_syntax_language(&self) -> (has: bool)
        ensures
            has == (self@.matcher.is_some() && self@.matcher.unwrap().grammar.is_some()),
    {
        self.syntax_language().is_some()
    }

    /// Discards the grammar of the document, for a grammar that no parser
    /// can be made for. Everything else stays.
    pub fn discard_grammar(&mut self)
        ensures
            final(self)@ == (DocumentView {
                matcher: match old(self)@.matcher {
                    Some(m) => Some(MatchedView { grammar: None, ..m }),
                    None => None,
                },
                ..old(self)@
            }),
    {
        match &mut self.matcher {
            Some(m) => {
                m.grammar = None;
            },
            None => {},
        }
    }

    /// Replaces the text, and the matcher that goes with it. Address,
    /// version and language stay.
    pub fn replace_text(&mut self, text: &str, matcher: Option<Matched>)
        ensures
            final(self)@ == (DocumentView {
                text: text@,
                matcher: opt_matched_view(matcher),
                ..old(self)@
            }),
    {
        self.text = rope_from_str(text);
        self.matcher = matcher;
    }

    /// The marker that a syntax tree needs for one edit, computed on the
    /// text as it is now, before the edit is applied.
    pub fn input_edit(&self, edit: &Edit, encoding: Encoding) -> (marker: Option<InputEdit>)
        ensures
            marker == input_edit_of(self@.text, *edit, encoding),
    {
        input_edit_for(&self.text, edit, encoding)
    }

    /// The markers that a syntax tree needs for the edits of a change
    /// notification, each computed on the text that the edits before it
    /// left. The document itself stays as it is. `None` where an edit has
    /// no marker.
    pub fn input_edits(&self, edits: &Vec<Edit>, encoding: Encoding) -> (markers: Option<Vec<InputEdit>>)
        ensures
            match markers {
                Some(list) => input_edits_of(self@.text, edits@, encoding) == Some(list@),
                None => input_edits_of(self@.text, edits@, encoding).is_none(),
            },
    {
        let mut text = rope_clone(&self.text);
        let mut list: Vec<InputEdit> = Vec::new();
        let mut i: usize = 0;
        assert(edits@.skip(0) =~= edits@);
        assert(Seq::<InputEdit>::empty() + Seq::<InputEdit>::empty() =~= Seq::<InputEdit>::empty());
        while i < edits.len()
            invariant
                i <= edits.len(),
                input_edits_of(self@.text, edits@, encoding) == match input_edits_of(
                    rope_text(text),
                    edits@.skip(i as int),
                    encoding,
                ) {
                    Some(rest) => Some(list@ + rest),
                    None => None,
                },
            decreases edits.len() - i,
        {
            proof {
                assert(edits@.skip(i as int)[0] == edits@[i as int]);
                assert(edits@.skip(i as int).drop_first() =~= edits@.skip(i + 1));
            }
            let ghost current = rope_text(text);
            let marker = match input_edit_for(&text, &edits[i], encoding) {
                Some(marker) => marker,
                None => {
                    assert(input_edits_of(current, edits@.skip(i as int), encoding).is_none());
                    return None;
                },
            };
            if !apply_edit_to(&mut text, &edits[i], encoding) {
                assert(input_edits_of(current, edits@.skip(i as int), encoding).is_none());
                return None;
            }
            proof {
                let rest = input_edits_of(rope_text(text), edits@.skip(i + 1), encoding);
                if rest.is_some() {
                    assert(list@ + (seq![marker] + rest.unwrap()) =~= list@.push(marker)
                        + rest.unwrap());
                }
            }
            list.push(marker);
            i += 1;
        }
        proof {
            assert(list@ + Seq::<InputEdit>::empty() =~= list@);
        }
        Some(list)
    }

    /// Takes over the version of a change notification and applies its
    /// edits in order, each to the text that the one before it left.
    ///
    /// Returns `true` where every edit could be applied: the text is then
    /// the one that the edits give when built directly. Returns `false` at
    /// the first edit that cannot be applied; the remaining edits are not
    /// tried, and the text is left as the edits before that one made it,
    /// of no use until it is loaded anew.
    pub fn apply_changes(&mut self, version: i32, edits: &Vec<Edit>, encoding: Encoding) -> (ok: bool)
        ensures
            final(self)@.version == version,
            final(self)@.uri == old(self)@.uri,
            final(self)@.language == old(self)@.language,
            final(self)@.matcher == old(self)@.matcher,
            ok <==> apply_edits(old(self)@.text, edits@, encoding).is_some(),
            ok ==> Some(final(self)@.text) == apply_edits(old(self)@.text, edits@, encoding),
            final(self)@.text == apply_edits_partial(old(self)@.text, edits@, encoding),
    {
        self.version = version;
        let ghost start_text = rope_text(self.text);
        let mut i: usize = 0;
        assert(edits@.skip(0) =~= edits@);
        while i < edits.len()
            invariant
                i <= edits.len(),
                self.version == version,
                start_text == old(self)@.text,
                self.uri == old(self).uri,
                self.language == old(self).language,
                self.matcher == old(self).matcher,
                apply_edits(start_text, edits@, encoding) == apply_edits(
                    rope_text(self.text),
                    edits@.skip(i as int),
                    encoding,
                ),
                apply_edits_partial(start_text, edits@, encoding) == apply_edits_partial(
                    rope_text(self.text),
                    edits@.skip(i as int),
                    encoding,
                ),
            decreases edits.len() - i,
        {
            proof {
                assert(edits@.skip(i as int)[0] == edits@[i as int]);
                assert(edits@.skip(i as int).drop_first() =~= edits@.skip(i + 1));
            }
            let ghost current = rope_text(self.text);
            if !apply_edit_to(&mut self.text, &edits[i], encoding) {
                assert(apply_edits(current, edits@.skip(i as int), encoding).is_none());
                assert(apply_edits_partial(current, edits@.skip(i as int), encoding) == current);
                return false;
            }
            i += 1;
        }
        true
    }
}

} // verus!
