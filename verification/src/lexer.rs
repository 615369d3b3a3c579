//! What the code generator keeps of the lexer: source positions and the
//! width suffixes of numeric literals.

use vstd::prelude::*;

verus! {

/// A place in the source text, counted from line 1, column 1.
#[derive(Clone, Copy, PartialEq, Eq, Structural, Debug)]
pub struct Position {
    pub line: u32,
    pub column: u32,
}

impl Position {
    pub fn new(line: u32, column: u32) -> (p: Position)
        ensures
            p.line == line,
            p.column == column,
    {
        Position { line, column }
    }

    /// The line as the line-number table stores it; lines beyond the range
    /// of the table's entries are held at its largest entry.
    pub open spec fn spec_lineno(self) -> i32 {
        if self.line <= 0x7fff_ffff {
            self.line as i32
        } else {
            0x7fff_ffff
        }
    }

    #[verifier::when_used_as_spec(spec_lineno)]
    pub fn lineno(self) -> (r: i32)
        ensures
            r == self.spec_lineno(),
    {
        if self.line <= 0x7fff_ffff {
            self.line as i32
        } else {
            0x7fff_ffff
        }
    }
}

/// Width suffix of an integer literal.
#[derive(Clone, Copy, PartialEq, Eq, Structural, Debug)]
pub enum IntSuffix {
    Byte,
    Int,
    Long,
}

/// Width suffix of a floating-point literal.
#[derive(Clone, Copy, PartialEq, Eq, Structural, Debug)]
pub enum FloatSuffix {
    Float,
    Double,
}

} // verus!
