//! A zero-based `(line, column)` location in a text buffer.

use vstd::prelude::*;

verus! {

/// Zero-based line and column of a character in a buffer.
#[derive(Debug, Clone, Copy, PartialEq, Eq, Structural)]
pub struct Position {
    /// Zero-based line index.
    pub line: usize,
    /// Zero-based column index.
    pub col: usize,
}

impl Position {
    /// Creates a position from its line and column.
    pub fn new(line: usize, col: usize) -> (r: Position)
        ensures
            r.line == line,
            r.col == col,
    {
        Position { line, col }
    }
}

} // verus!
