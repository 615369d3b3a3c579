//! The register file of the 64-bit target and the fixed register roles of
//! the baseline compiler.

use vstd::prelude::*;

verus! {

/// General-purpose register.
#[derive(Clone, Copy, PartialEq, Eq, Structural, Debug)]
pub enum Reg {
    RAX,
    RCX,
    RDX,
    RBX,
    RSP,
    RBP,
    RSI,
    RDI,
    R8,
    R9,
    R10,
    R11,
    R12,
    R13,
    R14,
    R15,
}

/// Floating-point register.
#[derive(Clone, Copy, PartialEq, Eq, Structural, Debug)]
pub enum FReg {
    XMM0,
    XMM1,
    XMM2,
    XMM3,
    XMM4,
    XMM5,
    XMM6,
    XMM7,
    XMM8,
    XMM9,
    XMM10,
    XMM11,
    XMM12,
    XMM13,
    XMM14,
    XMM15,
}

/// Where integer and reference results are delivered.
pub const REG_RESULT: Reg = Reg::RAX;

/// First scratch register of two-operand lowering.
pub const REG_TMP1: Reg = Reg::R10;

/// Second scratch register.
pub const REG_TMP2: Reg = Reg::R11;

/// Stack pointer.
pub const REG_SP: Reg = Reg::RSP;

/// Frame pointer; locals and temporaries are addressed relative to it.
pub const REG_FP: Reg = Reg::RBP;

/// Where floating-point results are delivered.
pub const FREG_RESULT: FReg = FReg::XMM0;

/// Scratch floating-point register.
pub const FREG_TMP1: FReg = FReg::XMM1;

/// Registers that carry the leading call arguments, in argument order.
pub const REG_PARAMS: [Reg; 6] = [Reg::RDI, Reg::RSI, Reg::RDX, Reg::RCX, Reg::R8, Reg::R9];

/// Width of a pointer in bytes.
pub const PTR_WIDTH: i32 = 8;

/// A memory operand.
#[derive(Clone, Copy, PartialEq, Eq, Structural, Debug)]
pub enum Mem {
    /// A frame slot at this offset from the frame pointer.
    Local(i32),
    /// `[base + disp]`.
    Base(Reg, i32),
    /// `[base + index * scale + disp]`.
    Index(Reg, Reg, i32, i32),
}

} // verus!
