//! Logical positions and selections.
//!
//! A position is a `(line, column)` pair, both zero-based; the column counts
//! characters within the line, not bytes and not screen cells.

use vstd::prelude::*;

verus! {

/// A logical position: line and column, both zero-based.
#[derive(Debug, Clone, Copy, PartialEq, Eq, PartialOrd, Ord, Hash, Structural)]
pub struct Pos {
    pub line: usize,
    pub col: usize,
}

/// Lexicographic order on positions: by line, then by column.
pub open spec fn pos_le(a: Pos, b: Pos) -> bool {
    a.line < b.line || (a.line == b.line && a.col <= b.col)
}

impl Pos {
    pub fn new(line: usize, col: usize) -> (r: Pos)
        ensures
            r.line == line,
            r.col == col,
    {
        Pos { line, col }
    }

    pub fn zero() -> (r: Pos)
        ensures
            r.line == 0,
            r.col == 0,
    {
        Pos { line: 0, col: 0 }
    }
}

/// A selection: an anchor and an active cursor. It is empty when both are equal.
#[derive(Debug, Clone, Copy, PartialEq, Eq, Hash, Structural)]
pub struct Selection {
    pub anchor: Pos,
    pub cursor: Pos,
}

impl Selection {
    pub fn new(anchor: Pos, cursor: Pos) -> (r: Selection)
        ensures
            r.anchor == anchor,
            r.cursor == cursor,
    {
        Selection { anchor, cursor }
    }

    /// An empty selection at `at`.
    pub fn empty(at: Pos) -> (r: Selection)
        ensures
            r.anchor == at,
            r.cursor == at,
    {
        Selection { anchor: at, cursor: at }
    }

    /// The two ends in lexicographic order: `(start, end)` with `start <= end`.
    pub fn ordered(&self) -> (r: (Pos, Pos))
        ensures
            pos_le(self.anchor, self.cursor) ==> r == (self.anchor, self.cursor),
            !pos_le(self.anchor, self.cursor) ==> r == (self.cursor, self.anchor),
            pos_le(r.0, r.1),
    {
        if self.anchor.line < self.cursor.line || (self.anchor.line == self.cursor.line
            && self.anchor.col <= self.cursor.col) {
            (self.anchor, self.cursor)
        } else {
            (self.cursor, self.anchor)
        }
    }

    pub fn is_empty(&self) -> (r: bool)
        ensures
            r == (self.anchor == self.cursor),
    {
        self.anchor == self.cursor
    }
}

} // verus!
