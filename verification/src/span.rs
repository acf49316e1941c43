//! Source positions and spans.
//!
//! A `Position` is a 1-based line/column pair used for diagnostics.  A `Span`
//! is a half-open range of positions.  A `LinearPosition` is a token index
//! into the token stream of a whole parse, and a `LinearSpan` a half-open
//! range of token indices: it lets a later stage re-enter a function body
//! without re-lexing from the start of the source.

use vstd::prelude::*;

verus! {

/// A source position: 1-based line and column.
#[derive(Clone, Copy, Debug, PartialEq, Eq, Structural)]
pub struct Position {
    pub line: u32,
    pub column: u32,
}

impl Position {
    /// Creates a position; lines and columns start at 1.
    pub fn new(line: u32, column: u32) -> (r: Position)
        requires
            line >= 1,
            column >= 1,
        ensures
            r == (Position { line, column }),
    {
        Position { line, column }
    }

    /// True when `self` does not come after `other` in source order.
    pub open spec fn spec_le(self, other: Position) -> bool {
        self.line < other.line || (self.line == other.line && self.column <= other.column)
    }
}

/// A half-open range of source positions.
#[derive(Clone, Copy, Debug, PartialEq, Eq, Structural)]
pub struct Span {
    pub start: Position,
    pub end: Position,
}

impl Span {
    /// True when the span's start does not come after its end.
    pub open spec fn wf(self) -> bool {
        self.start.spec_le(self.end)
    }

    /// Creates a span from its start and end positions.
    pub fn new(start: Position, end: Position) -> (r: Span)
        ensures
            r == (Span { start, end }),
            start.spec_le(end) ==> r.wf(),
    {
        Span { start, end }
    }

    /// The start position of the span.
    pub fn start(&self) -> (r: Position)
        ensures
            r == self.start,
    {
        self.start
    }

    /// The end position of the span.
    pub fn end(&self) -> (r: Position)
        ensures
            r == self.end,
    {
        self.end
    }
}

/// An absolute token index into the token stream of one parse.
#[derive(Clone, Copy, Debug, PartialEq, Eq, Structural)]
pub struct LinearPosition {
    pub pos: u64,
}

impl LinearPosition {
    /// Creates a linear position from a token index.
    pub fn new(pos: u64) -> (r: LinearPosition)
        ensures
            r == (LinearPosition { pos }),
    {
        LinearPosition { pos }
    }
}

/// A half-open range of token indices over the whole parse.
#[derive(Clone, Copy, Debug, PartialEq, Eq, Structural)]
pub struct LinearSpan {
    pub start: LinearPosition,
    pub end: LinearPosition,
}

impl LinearSpan {
    /// True when the range's start does not exceed its end.
    pub open spec fn wf(self) -> bool {
        self.start.pos <= self.end.pos
    }

    /// Creates a token-index range.
    pub fn new(start: LinearPosition, end: LinearPosition) -> (r: LinearSpan)
        requires
            start.pos <= end.pos,
        ensures
            r == (LinearSpan { start, end }),
            r.wf(),
    {
        LinearSpan { start, end }
    }

    /// An empty range at token index zero.
    pub fn zero() -> (r: LinearSpan)
        ensures
            r == (LinearSpan { start: LinearPosition { pos: 0 }, end: LinearPosition { pos: 0 } }),
            r.wf(),
    {
        LinearSpan { start: LinearPosition { pos: 0 }, end: LinearPosition { pos: 0 } }
    }

    /// Extends the range so that it ends at `end`.
    pub fn union(self, end: LinearPosition) -> (r: LinearSpan)
        requires
            self.start.pos <= end.pos,
        ensures
            r == (LinearSpan { start: self.start, end }),
            r.wf(),
    {
        LinearSpan { start: self.start, end }
    }
}

} // verus!
