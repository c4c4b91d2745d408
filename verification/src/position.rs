//! Places in the source text.

use vstd::prelude::*;

verus! {

/// A place in the source text, by line and column.
#[derive(Clone, Copy, Debug, PartialEq, Eq, Structural)]
pub struct Position {
    pub line_number: u32,
    pub column_number: u32,
}

impl Position {
    /// The place at the given line and column.
    pub fn new(line_number: u32, column_number: u32) -> (position: Position)
        ensures
            position == (Position { line_number, column_number }),
    {
        Position { line_number, column_number }
    }
}

/// A stretch of the source text, from its first place to its last.
#[derive(Clone, Copy, Debug, PartialEq, Eq, Structural)]
pub struct Span {
    pub start: Position,
    pub end: Position,
}

impl Span {
    /// The stretch between two places.
    pub fn new(start: Position, end: Position) -> (span: Span)
        ensures
            span == (Span { start, end }),
    {
        Span { start, end }
    }
}

} // verus!
