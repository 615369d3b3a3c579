//! The runtime faults that emitted code can raise.

use vstd::prelude::*;

verus! {

/// Kind of a trap. A trap ends the running fiber unless an enclosing
/// exception handler takes it.
#[allow(non_camel_case_types)]
#[derive(Clone, Copy, PartialEq, Eq, Structural, Debug)]
pub enum Trap {
    DIV0,
    ASSERT,
    INDEX_OUT_OF_BOUNDS,
    NIL,
    CAST,
    UNEXPECTED,
    OOM,
}

impl Trap {
    /// The number by which the trap helper is told the kind.
    pub open spec fn spec_code(self) -> u32 {
        match self {
            Trap::DIV0 => 0,
            Trap::ASSERT => 1,
            Trap::INDEX_OUT_OF_BOUNDS => 2,
            Trap::NIL => 3,
            Trap::CAST => 4,
            Trap::UNEXPECTED => 5,
            Trap::OOM => 6,
        }
    }

    #[verifier::when_used_as_spec(spec_code)]
    pub fn code(self) -> (r: u32)
        ensures
            r == self.spec_code(),
    {
        match self {
            Trap::DIV0 => 0,
            Trap::ASSERT => 1,
            Trap::INDEX_OUT_OF_BOUNDS => 2,
            Trap::NIL => 3,
            Trap::CAST => 4,
            Trap::UNEXPECTED => 5,
            Trap::OOM => 6,
        }
    }
}

} // verus!
