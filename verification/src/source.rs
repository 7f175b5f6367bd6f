//! Positions in a source text, carried into errors.

use vstd::prelude::*;

verus! {

/// A place in a source text. Lines and columns count from one.
#[derive(Clone, Copy, Debug, PartialEq, Eq, Structural)]
pub struct Pos {
    pub line: usize,
    pub column: usize,
}

impl Pos {
    /// The place at the line and the column.
    pub fn new(line: usize, column: usize) -> (pos: Pos)
        ensures
            pos == (Pos { line, column }),
    {
        Pos { line, column }
    }
}

/// The stretch of a source text that a construct takes up.
#[derive(Clone, Copy, Debug, PartialEq, Eq, Structural)]
pub struct SourceInfo {
    pub start: Pos,
    pub end: Pos,
}

impl SourceInfo {
    /// The stretch from `start` to `end`.
    pub fn new(start: Pos, end: Pos) -> (info: SourceInfo)
        ensures
            info == (SourceInfo { start, end }),
    {
        SourceInfo { start, end }
    }
}

} // verus!
