//! Positions in a text: a line and a column.

use vstd::prelude::*;

verus! {

/// A line and a column. What the column counts depends on the encoding
/// that the position is read under.
#[derive(Debug, Default, Clone, Copy, PartialEq, Eq, Hash, Structural)]
pub struct Position {
    pub line: usize,
    pub col: usize,
}

/// A position as the protocol carries it: two 32-bit numbers.
#[derive(Debug, Default, Clone, Copy, PartialEq, Eq, Hash, Structural)]
pub struct LspPosition {
    pub line: u32,
    pub character: u32,
}

/// A position as a syntax tree carries it: a row and a column in bytes.
#[derive(Debug, Default, Clone, Copy, PartialEq, Eq, Hash, Structural)]
pub struct TsPoint {
    pub row: usize,
    pub column: usize,
}

impl Position {
    /// The position that a protocol position denotes.
    #[must_use]
    pub fn from_lsp(position: LspPosition) -> (p: Self)
        ensures
            p.line == position.line,
            p.col == position.character,
    {
        Position { line: position.line as usize, col: position.character as usize }
    }

    /// The protocol position for this one. A line or column that does not
    /// fit in 32 bits keeps its low 32 bits.
    #[must_use]
    pub fn into_lsp(self) -> (p: LspPosition)
        ensures
            p.line == self.line as u32,
            p.character == self.col as u32,
            self.line <= u32::MAX ==> p.line == self.line,
            self.col <= u32::MAX ==> p.character == self.col,
    {
        LspPosition {
            line: #[verifier::truncate] (self.line as u32),
            character: #[verifier::truncate] (self.col as u32),
        }
    }

    /// The position that a syntax tree point denotes.
    #[must_use]
    pub fn from_ts(point: TsPoint) -> (p: Self)
        ensures
            p.line == point.row,
            p.col == point.column,
    {
        Position { line: point.row, col: point.column }
    }

    /// The syntax tree point for this position.
    #[must_use]
    pub fn into_ts(self) -> (p: TsPoint)
        ensures
            p.row == self.line,
            p.column == self.col,
    {
        TsPoint { row: self.line, column: self.col }
    }
}

impl From<LspPosition> for Position {
    fn from(position: LspPosition) -> (p: Self) {
        Position::from_lsp(position)
    }
}

impl vstd::std_specs::convert::FromSpecImpl<LspPosition> for Position {
    open spec fn obeys_from_spec() -> bool {
        true
    }

    open spec fn from_spec(position: LspPosition) -> Self {
        Position { line: position.line as usize, col: position.character as usize }
    }
}

impl From<Position> for LspPosition {
    fn from(position: Position) -> (p: Self) {
        position.into_lsp()
    }
}

impl vstd::std_specs::convert::FromSpecImpl<Position> for LspPosition {
    open spec fn obeys_from_spec() -> bool {
        true
    }

    open spec fn from_spec(position: Position) -> Self {
        LspPosition { line: position.line as u32, character: position.col as u32 }
    }
}

impl From<TsPoint> for Position {
    fn from(point: TsPoint) -> (p: Self) {
        Position::from_ts(point)
    }
}

impl vstd::std_specs::convert::FromSpecImpl<TsPoint> for Position {
    open spec fn obeys_from_spec() -> bool {
        true
    }

    open spec fn from_spec(point: TsPoint) -> Self {
        Position { line: point.row, col: point.column }
    }
}

impl From<Position> for TsPoint {
    fn from(position: Position) -> (p: Self) {
        position.into_ts()
    }
}

impl vstd::std_specs::convert::FromSpecImpl<Position> for TsPoint {
    open spec fn obeys_from_spec() -> bool {
        true
    }

    open spec fn from_spec(position: Position) -> Self {
        TsPoint { row: position.line, column: position.col }
    }
}

} // verus!
