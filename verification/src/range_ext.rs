//! Splitting and narrowing ranges of three kinds: ranges of bytes, ranges
//! of protocol positions, and ranges of a syntax tree.

use vstd::prelude::*;
use vstd::string::*;

pub mod bytes;
pub mod lsp;
pub mod tree_sitter;

verus! {

/// Operations on a range that spans a text. Positions handed to them are
/// relative to the start of the range. `text` is the text that the range
/// spans; its UTF-8 bytes are what the contracts speak of.
pub trait RangeExt: Sized {
    type Position;

    /// Whether the range can be split at a position.
    spec fn can_split_at(self, text: Seq<u8>, at: Self::Position) -> bool;

    /// The two parts of the range split at a position.
    spec fn split_at_parts(self, text: Seq<u8>, at: Self::Position) -> (Self, Self);

    /// Whether the range can be shrunk by the given amounts.
    spec fn can_shrink(self, text: Seq<u8>, amount_left: usize, amount_right: usize) -> bool;

    /// The range shrunk by the given amounts on its two sides.
    spec fn shrunk(self, text: Seq<u8>, amount_left: usize, amount_right: usize) -> Self;

    /// Whether the part between two positions can be taken.
    spec fn can_sub(self, text: Seq<u8>, from: Self::Position, to: Self::Position) -> bool;

    /// The part of the range between two positions.
    spec fn sub_part(self, text: Seq<u8>, from: Self::Position, to: Self::Position) -> Self;

    /// Whether the range can be split at a delimiter of its text.
    spec fn can_sub_delimited(self, text: Seq<u8>, delimiter: char) -> bool;

    /// The parts of the range before and after the first delimiter.
    spec fn sub_delimited_parts(self, text: Seq<u8>, delimiter: char) -> (Option<Self>, Option<Self>);

    /// Whether the range can be split at two delimiters of its text.
    spec fn can_sub_delimited_tri(self, text: Seq<u8>, delim0: char, delim1: char) -> bool;

    /// The three parts of the range split at two delimiters in turn.
    spec fn sub_delimited_tri_parts(self, text: Seq<u8>, delim0: char, delim1: char) -> (
        Option<Self>,
        Option<Self>,
        Option<Self>,
    );

    /// Splits the range into two parts at a position.
    #[must_use]
    fn split_at(self, text: &str, at: Self::Position) -> (parts: (Self, Self))
        requires
            self.can_split_at(text.spec_bytes(), at),
        ensures
            parts == self.split_at_parts(text.spec_bytes(), at),
    ;

    /// The left part of the range split at a position.
    #[must_use]
    fn split_off_left(self, text: &str, at: Self::Position) -> (left: Self)
        requires
            self.can_split_at(text.spec_bytes(), at),
        ensures
            left == self.split_at_parts(text.spec_bytes(), at).0,
    {
        let (left, _) = self.split_at(text, at);
        left
    }

    /// The right part of the range split at a position.
    #[must_use]
    fn split_off_right(self, text: &str, at: Self::Position) -> (right: Self)
        requires
            self.can_split_at(text.spec_bytes(), at),
        ensures
            right == self.split_at_parts(text.spec_bytes(), at).1,
    {
        let (_, right) = self.split_at(text, at);
        right
    }

    /// Shrinks the range by the given amounts on its left and its right.
    #[must_use]
    fn shrink(self, text: &str, amount_left: usize, amount_right: usize) -> (range: Self)
        requires
            self.can_shrink(text.spec_bytes(), amount_left, amount_right),
        ensures
            range == self.shrunk(text.spec_bytes(), amount_left, amount_right),
    ;

    /// The part of the range from `from` to `to`.
    #[must_use]
    fn sub(self, text: &str, from: Self::Position, to: Self::Position) -> (part: Self)
        requires
            self.can_sub(text.spec_bytes(), from, to),
        ensures
            part == self.sub_part(text.spec_bytes(), from, to),
    ;

    /// Splits the range into the parts before and after the first
    /// delimiter of its text. A part that would be empty is `None`.
    /// Without a delimiter the whole range is the first part, unless the
    /// text is empty.
    #[must_use]
    fn sub_delimited(self, text: &str, delimiter: char) -> (parts: (Option<Self>, Option<Self>))
        requires
            self.can_sub_delimited(text.spec_bytes(), delimiter),
        ensures
            parts == self.sub_delimited_parts(text.spec_bytes(), delimiter),
    ;

    /// Splits the range into three parts: what stands before the first
    /// delimiter, and what follows it, split in turn at the second one.
    #[must_use]
    fn sub_delimited_tri(self, text: &str, delim0: char, delim1: char) -> (parts: (
        Option<Self>,
        Option<Self>,
        Option<Self>,
    ))
        requires
            self.can_sub_delimited_tri(text.spec_bytes(), delim0, delim1),
        ensures
            parts == self.sub_delimited_tri_parts(text.spec_bytes(), delim0, delim1),
    ;
}

} // verus!
