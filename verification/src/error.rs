//! Why code generation gives up on a function.

use vstd::prelude::*;

verus! {

/// A fault in what the code generator was handed. None of them can come
/// from a program that passed semantic analysis; each ends the compilation
/// of the function.
#[derive(Clone, Copy, PartialEq, Eq, Structural, Debug)]
pub enum GenError {
    /// A construct that is not lowered: a struct literal or identifier, an
    /// optional `try`, a floating-point three-way comparison.
    Unsupported,
    /// A value is to be delivered in a register of the wrong kind.
    WrongStore,
    /// A node resolves to an intrinsic that does not apply to it.
    UnexpectedIntrinsic,
    /// Semantic analysis left no record where one is needed, or a record
    /// names what does not exist.
    MissingInfo,
    /// A temporary slot is reserved while it is still in use.
    TempConflict,
    /// A temporary slot is still in use when the expression is done.
    UnfreedTemps,
    /// A call resolves to a function that cannot be called.
    BadCallee,
    /// A position, an offset or a displacement is beyond its machine type.
    TooLarge,
    /// The code space or the permanent heap is exhausted.
    OutOfMemory,
}

} // verus!
