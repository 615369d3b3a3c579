//! The encoding of the instructions for the 64-bit x86 processor.
//!
//! Every instruction is encoded with a fixed number of bytes, whatever its
//! registers and displacements are: register instructions always carry a
//! prefix byte, and memory operands always a scale-index-base byte and a
//! displacement of 32 bits. So the place of every instruction is known
//! before a jump is encoded.

use crate::codegen::CondCode;
use crate::cpu::{FReg, Mem, Reg};
use crate::masm::{FloatOp, Insn, IntOp};
use crate::ty::MachineMode;
use vstd::prelude::*;

verus! {

/// The low three bits of a register's number.
pub open spec fn spec_low(r: Reg) -> u8 {
    match r {
        Reg::RAX => 0,
        Reg::RCX => 1,
        Reg::RDX => 2,
        Reg::RBX => 3,
        Reg::RSP => 4,
        Reg::RBP => 5,
        Reg::RSI => 6,
        Reg::RDI => 7,
        Reg::R8 => 0,
        Reg::R9 => 1,
        Reg::R10 => 2,
        Reg::R11 => 3,
        Reg::R12 => 4,
        Reg::R13 => 5,
        Reg::R14 => 6,
        Reg::R15 => 7,
    }
}

#[verifier::when_used_as_spec(spec_low)]
pub fn low(r: Reg) -> (n: u8)
    ensures
        n == spec_low(r),
        n <= 7,
{
    match r {
        Reg::RAX => 0,
        Reg::RCX => 1,
        Reg::RDX => 2,
        Reg::RBX => 3,
        Reg::RSP => 4,
        Reg::RBP => 5,
        Reg::RSI => 6,
        Reg::RDI => 7,
        Reg::R8 => 0,
        Reg::R9 => 1,
        Reg::R10 => 2,
        Reg::R11 => 3,
        Reg::R12 => 4,
        Reg::R13 => 5,
        Reg::R14 => 6,
        Reg::R15 => 7,
    }
}

/// The high bit of a register's number.
pub open spec fn spec_msb(r: Reg) -> u8 {
    match r {
        Reg::RAX => 0,
        Reg::RCX => 0,
        Reg::RDX => 0,
        Reg::RBX => 0,
        Reg::RSP => 0,
        Reg::RBP => 0,
        Reg::RSI => 0,
        Reg::RDI => 0,
        Reg::R8 => 1,
        Reg::R9 => 1,
        Reg::R10 => 1,
        Reg::R11 => 1,
        Reg::R12 => 1,
        Reg::R13 => 1,
        Reg::R14 => 1,
        Reg::R15 => 1,
    }
}

#[verifier::when_used_as_spec(spec_msb)]
pub fn msb(r: Reg) -> (n: u8)
    ensures
        n == spec_msb(r),
        n <= 1,
{
    match r {
        Reg::RAX => 0,
        Reg::RCX => 0,
        Reg::RDX => 0,
        Reg::RBX => 0,
        Reg::RSP => 0,
        Reg::RBP => 0,
        Reg::RSI => 0,
        Reg::RDI => 0,
        Reg::R8 => 1,
        Reg::R9 => 1,
        Reg::R10 => 1,
        Reg::R11 => 1,
        Reg::R12 => 1,
        Reg::R13 => 1,
        Reg::R14 => 1,
        Reg::R15 => 1,
    }
}

/// The low three bits of a floating-point register's number.
pub open spec fn spec_flow(r: FReg) -> u8 {
    match r {
        FReg::XMM0 => 0,
        FReg::XMM1 => 1,
        FReg::XMM2 => 2,
        FReg::XMM3 => 3,
        FReg::XMM4 => 4,
        FReg::XMM5 => 5,
        FReg::XMM6 => 6,
        FReg::XMM7 => 7,
        FReg::XMM8 => 0,
        FReg::XMM9 => 1,
        FReg::XMM10 => 2,
        FReg::XMM11 => 3,
        FReg::XMM12 => 4,
        FReg::XMM13 => 5,
        FReg::XMM14 => 6,
        FReg::XMM15 => 7,
    }
}

#[verifier::when_used_as_spec(spec_flow)]
pub fn flow(r: FReg) -> (n: u8)
    ensures
        n == spec_flow(r),
        n <= 7,
{
    match r {
        FReg::XMM0 => 0,
        FReg::XMM1 => 1,
        FReg::XMM2 => 2,
        FReg::XMM3 => 3,
        FReg::XMM4 => 4,
        FReg::XMM5 => 5,
        FReg::XMM6 => 6,
        FReg::XMM7 => 7,
        FReg::XMM8 => 0,
        FReg::XMM9 => 1,
        FReg::XMM10 => 2,
        FReg::XMM11 => 3,
        FReg::XMM12 => 4,
        FReg::XMM13 => 5,
        FReg::XMM14 => 6,
        FReg::XMM15 => 7,
    }
}

/// The high bit of a floating-point register's number.
pub open spec fn spec_fmsb(r: FReg) -> u8 {
    match r {
        FReg::XMM0 => 0,
        FReg::XMM1 => 0,
        FReg::XMM2 => 0,
        FReg::XMM3 => 0,
        FReg::XMM4 => 0,
        FReg::XMM5 => 0,
        FReg::XMM6 => 0,
        FReg::XMM7 => 0,
        FReg::XMM8 => 1,
        FReg::XMM9 => 1,
        FReg::XMM10 => 1,
        FReg::XMM11 => 1,
        FReg::XMM12 => 1,
        FReg::XMM13 => 1,
        FReg::XMM14 => 1,
        FReg::XMM15 => 1,
    }
}

#[verifier::when_used_as_spec(spec_fmsb)]
pub fn fmsb(r: FReg) -> (n: u8)
    ensures
        n == spec_fmsb(r),
        n <= 1,
{
    match r {
        FReg::XMM0 => 0,
        FReg::XMM1 => 0,
        FReg::XMM2 => 0,
        FReg::XMM3 => 0,
        FReg::XMM4 => 0,
        FReg::XMM5 => 0,
        FReg::XMM6 => 0,
        FReg::XMM7 => 0,
        FReg::XMM8 => 1,
        FReg::XMM9 => 1,
        FReg::XMM10 => 1,
        FReg::XMM11 => 1,
        FReg::XMM12 => 1,
        FReg::XMM13 => 1,
        FReg::XMM14 => 1,
        FReg::XMM15 => 1,
    }
}
/// The condition as the processor numbers it.
pub open spec fn spec_cc(cond: CondCode) -> u8 {
    match cond {
        CondCode::UnsignedLess => 2,
        CondCode::UnsignedGreaterEq => 3,
        CondCode::Zero | CondCode::Equal => 4,
        CondCode::NonZero | CondCode::NotEqual => 5,
        CondCode::UnsignedLessEq => 6,
        CondCode::UnsignedGreater => 7,
        CondCode::Less => 12,
        CondCode::GreaterEq => 13,
        CondCode::LessEq => 14,
        CondCode::Greater => 15,
    }
}

#[verifier::when_used_as_spec(spec_cc)]
pub fn cc(cond: CondCode) -> (n: u8)
    ensures
        n == spec_cc(cond),
        n <= 15,
{
    match cond {
        CondCode::UnsignedLess => 2,
        CondCode::UnsignedGreaterEq => 3,
        CondCode::Zero | CondCode::Equal => 4,
        CondCode::NonZero | CondCode::NotEqual => 5,
        CondCode::UnsignedLessEq => 6,
        CondCode::UnsignedGreater => 7,
        CondCode::Less => 12,
        CondCode::GreaterEq => 13,
        CondCode::LessEq => 14,
        CondCode::Greater => 15,
    }
}

/// `1` for the modes of 64 bits, `0` for the others.
pub open spec fn spec_wide(mode: MachineMode) -> u8 {
    match mode {
        MachineMode::Int64 | MachineMode::Ptr => 1,
        _ => 0,
    }
}

#[verifier::when_used_as_spec(spec_wide)]
pub fn wide(mode: MachineMode) -> (n: u8)
    ensures
        n == spec_wide(mode),
        n <= 1,
{
    match mode {
        MachineMode::Int64 | MachineMode::Ptr => 1,
        _ => 0,
    }
}

/// The prefix byte that widens the operands and extends the register
/// numbers.
pub open spec fn spec_rex(w: u8, r: u8, x: u8, b: u8) -> u8 {
    (0x40 + 8 * w + 4 * r + 2 * x + b) as u8
}

#[verifier::when_used_as_spec(spec_rex)]
pub fn rex(w: u8, r: u8, x: u8, b: u8) -> (n: u8)
    requires
        w <= 1,
        r <= 1,
        x <= 1,
        b <= 1,
    ensures
        n == spec_rex(w, r, x, b),
{
    0x40 + 8 * w + 4 * r + 2 * x + b
}

/// The byte that names the operands: addressing form, register, and
/// register or memory.
pub open spec fn spec_modrm(form: u8, reg: u8, rm: u8) -> u8 {
    (64 * form + 8 * reg + rm) as u8
}

#[verifier::when_used_as_spec(spec_modrm)]
pub fn modrm(form: u8, reg: u8, rm: u8) -> (n: u8)
    requires
        form <= 3,
        reg <= 7,
        rm <= 7,
    ensures
        n == spec_modrm(form, reg, rm),
{
    64 * form + 8 * reg + rm
}

/// A word of 32 bits, low byte first.
pub open spec fn spec_le32(x: u32) -> Seq<u8> {
    seq![
        (x % 256) as u8,
        ((x / 256) % 256) as u8,
        ((x / 65536) % 256) as u8,
        ((x / 16777216) % 256) as u8,
    ]
}

/// The four bytes of a word are its digits to the base 256.
pub proof fn lemma_le32_value(x: u32)
    ensures
        spec_le32(x).len() == 4,
        spec_le32(x)[0] + 256 * spec_le32(x)[1] + 65536 * spec_le32(x)[2] + 16777216 * spec_le32(
            x,
        )[3] == x,
{
}

/// Appends `x`, low byte first.
pub fn put32(v: &mut Vec<u8>, x: u32)
    ensures
        final(v)@ == old(v)@ + spec_le32(x),
{
    v.push((x % 256) as u8);
    v.push(((x / 256) % 256) as u8);
    v.push(((x / 65536) % 256) as u8);
    v.push(((x / 16777216) % 256) as u8);
    assert(v@ =~= old(v)@ + spec_le32(x));
}

/// A signed word of 32 bits as the unsigned word with the same bits.
pub open spec fn spec_bits32(x: i32) -> u32 {
    if x >= 0 {
        x as u32
    } else {
        (x + 0x1_0000_0000) as u32
    }
}

#[verifier::when_used_as_spec(spec_bits32)]
pub fn bits32(x: i32) -> (r: u32)
    ensures
        r == spec_bits32(x),
{
    if x >= 0 {
        x as u32
    } else {
        (x as i64 + 0x1_0000_0000) as u32
    }
}

/// A signed word of 64 bits as the unsigned word with the same bits.
pub open spec fn spec_bits64(x: i64) -> u64 {
    if x >= 0 {
        x as u64
    } else {
        (x + 0x1_0000_0000_0000_0000) as u64
    }
}

#[verifier::when_used_as_spec(spec_bits64)]
pub fn bits64(x: i64) -> (r: u64)
    ensures
        r == spec_bits64(x),
{
    if x >= 0 {
        x as u64
    } else {
        (x as i128 + 0x1_0000_0000_0000_0000) as u64
    }
}

/// The low 32 bits of an immediate.
pub open spec fn spec_low32(x: i64) -> u32 {
    (spec_bits64(x) % 0x1_0000_0000) as u32
}

#[verifier::when_used_as_spec(spec_low32)]
pub fn low32(x: i64) -> (r: u32)
    ensures
        r == spec_low32(x),
{
    (bits64(x) % 0x1_0000_0000) as u32
}

/// A word of 64 bits, low byte first.
pub open spec fn spec_le64(x: u64) -> Seq<u8> {
    spec_le32((x % 0x1_0000_0000) as u32) + spec_le32((x / 0x1_0000_0000) as u32)
}

/// Appends `x`, low byte first.
pub fn put64(v: &mut Vec<u8>, x: u64)
    ensures
        final(v)@ == old(v)@ + spec_le64(x),
{
    put32(v, (x % 0x1_0000_0000) as u32);
    put32(v, (x / 0x1_0000_0000) as u32);
    assert(v@ =~= old(v)@ + spec_le64(x));
}

/// The bits that stand for an index scale of 1, 2, 4 or 8.
pub open spec fn spec_scale_bits(scale: i32) -> u8 {
    if scale == 2 {
        1
    } else if scale == 4 {
        2
    } else if scale == 8 {
        3
    } else {
        0
    }
}

#[verifier::when_used_as_spec(spec_scale_bits)]
pub fn scale_bits(scale: i32) -> (n: u8)
    ensures
        n == spec_scale_bits(scale),
        n <= 3,
{
    if scale == 2 {
        1
    } else if scale == 4 {
        2
    } else if scale == 8 {
        3
    } else {
        0
    }
}

/// Whether a memory operand can be encoded: the scale of an index is 1, 2,
/// 4 or 8, and the stack pointer is no index.
pub open spec fn spec_mem_ok(mem: Mem) -> bool {
    match mem {
        Mem::Index(_, index, scale, _) => (scale == 1 || scale == 2 || scale == 4 || scale == 8)
            && index != Reg::RSP,
        _ => true,
    }
}

#[verifier::when_used_as_spec(spec_mem_ok)]
pub fn mem_ok(mem: Mem) -> (r: bool)
    ensures
        r == spec_mem_ok(mem),
{
    match mem {
        Mem::Index(_, index, scale, _) => (scale == 1 || scale == 2 || scale == 4 || scale == 8)
            && index != Reg::RSP,
        _ => true,
    }
}

/// The prefix bit for the index register of a memory operand.
pub open spec fn spec_mem_x(mem: Mem) -> u8 {
    match mem {
        Mem::Index(_, index, _, _) => spec_msb(index),
        _ => 0,
    }
}

#[verifier::when_used_as_spec(spec_mem_x)]
pub fn mem_x(mem: Mem) -> (n: u8)
    ensures
        n == spec_mem_x(mem),
        n <= 1,
{
    match mem {
        Mem::Index(_, index, _, _) => msb(index),
        _ => 0,
    }
}

/// The prefix bit for the base register of a memory operand.
pub open spec fn spec_mem_b(mem: Mem) -> u8 {
    match mem {
        Mem::Local(_) => 0,
        Mem::Base(base, _) => spec_msb(base),
        Mem::Index(base, _, _, _) => spec_msb(base),
    }
}

#[verifier::when_used_as_spec(spec_mem_b)]
pub fn mem_b(mem: Mem) -> (n: u8)
    ensures
        n == spec_mem_b(mem),
        n <= 1,
{
    match mem {
        Mem::Local(_) => 0,
        Mem::Base(base, _) => msb(base),
        Mem::Index(base, _, _, _) => msb(base),
    }
}

/// The scale-index-base byte of a memory operand. A frame slot is based on
/// the frame pointer; an operand without index has the index bits that
/// stand for none.
pub open spec fn spec_sib(mem: Mem) -> u8 {
    match mem {
        Mem::Local(_) => (8 * 4 + 5) as u8,
        Mem::Base(base, _) => (8 * 4 + spec_low(base)) as u8,
        Mem::Index(base, index, scale, _) => (64 * spec_scale_bits(scale) + 8 * spec_low(index)
            + spec_low(base)) as u8,
    }
}

/// The displacement of a memory operand.
pub open spec fn spec_disp(mem: Mem) -> i32 {
    match mem {
        Mem::Local(offset) => offset,
        Mem::Base(_, disp) => disp,
        Mem::Index(_, _, _, disp) => disp,
    }
}

/// The bytes that name register field `reg` and memory operand `mem`.
pub open spec fn spec_operand(reg: u8, mem: Mem) -> Seq<u8> {
    seq![spec_modrm(2, reg, 4), spec_sib(mem)] + spec_le32(spec_bits32(spec_disp(mem)))
}

/// Appends the bytes that name register field `reg` and memory operand
/// `mem`.
pub fn put_operand(v: &mut Vec<u8>, reg: u8, mem: Mem)
    requires
        reg <= 7,
    ensures
        final(v)@ == old(v)@ + spec_operand(reg, mem),
{
    v.push(modrm(2, reg, 4));
    match mem {
        Mem::Local(offset) => {
            v.push(8 * 4 + 5);
            put32(v, bits32(offset));
        },
        Mem::Base(base, disp) => {
            v.push(8 * 4 + low(base));
            put32(v, bits32(disp));
        },
        Mem::Index(base, index, scale, disp) => {
            v.push(64 * scale_bits(scale) + 8 * low(index) + low(base));
            put32(v, bits32(disp));
        },
    }
    assert(v@ =~= old(v)@ + spec_operand(reg, mem));
}

/// A register instruction: prefix, operation code, and the byte that names
/// registers `reg` and `rm`.
pub open spec fn spec_rr(w: u8, op: u8, reg: Reg, rm: Reg) -> Seq<u8> {
    seq![spec_rex(w, spec_msb(reg), 0, spec_msb(rm)), op, spec_modrm(3, spec_low(reg), spec_low(rm))]
}

/// Appends a register instruction.
pub fn put_rr(v: &mut Vec<u8>, w: u8, op: u8, reg: Reg, rm: Reg)
    requires
        w <= 1,
    ensures
        final(v)@ == old(v)@ + spec_rr(w, op, reg, rm),
{
    v.push(rex(w, msb(reg), 0, msb(rm)));
    v.push(op);
    v.push(modrm(3, low(reg), low(rm)));
    assert(v@ =~= old(v)@ + spec_rr(w, op, reg, rm));
}

/// A register instruction whose operation is chosen by the register field:
/// prefix, operation code, and the byte that names extension `ext` and
/// register `rm`.
pub open spec fn spec_ext(w: u8, op: u8, ext: u8, rm: Reg) -> Seq<u8> {
    seq![spec_rex(w, 0, 0, spec_msb(rm)), op, spec_modrm(3, ext, spec_low(rm))]
}

/// Appends a register instruction whose operation is chosen by the register
/// field.
pub fn put_ext(v: &mut Vec<u8>, w: u8, op: u8, ext: u8, rm: Reg)
    requires
        w <= 1,
        ext <= 7,
    ensures
        final(v)@ == old(v)@ + spec_ext(w, op, ext, rm),
{
    v.push(rex(w, 0, 0, msb(rm)));
    v.push(op);
    v.push(modrm(3, ext, low(rm)));
    assert(v@ =~= old(v)@ + spec_ext(w, op, ext, rm));
}

/// The copy of register `src` to register `dest`.
pub open spec fn spec_mov(w: u8, dest: Reg, src: Reg) -> Seq<u8> {
    spec_rr(w, 0x89, src, dest)
}

/// A register instruction with a two-byte operation code.
pub open spec fn spec_rr2(w: u8, op: u8, reg: Reg, rm: Reg) -> Seq<u8> {
    seq![
        spec_rex(w, spec_msb(reg), 0, spec_msb(rm)),
        0x0f,
        op,
        spec_modrm(3, spec_low(reg), spec_low(rm)),
    ]
}

/// Appends a register instruction with a two-byte operation code.
pub fn put_rr2(v: &mut Vec<u8>, w: u8, op: u8, reg: Reg, rm: Reg)
    requires
        w <= 1,
    ensures
        final(v)@ == old(v)@ + spec_rr2(w, op, reg, rm),
{
    v.push(rex(w, msb(reg), 0, msb(rm)));
    v.push(0x0f);
    v.push(op);
    v.push(modrm(3, low(reg), low(rm)));
    assert(v@ =~= old(v)@ + spec_rr2(w, op, reg, rm));
}

/// An instruction of a register and a memory operand: prefix, operation
/// code and operand bytes.
pub open spec fn spec_rm(w: u8, op: u8, reg: Reg, mem: Mem) -> Seq<u8> {
    seq![spec_rex(w, spec_msb(reg), spec_mem_x(mem), spec_mem_b(mem)), op] + spec_operand(
        spec_low(reg),
        mem,
    )
}

/// Appends an instruction of a register and a memory operand.
pub fn put_rm(v: &mut Vec<u8>, w: u8, op: u8, reg: Reg, mem: Mem)
    requires
        w <= 1,
    ensures
        final(v)@ == old(v)@ + spec_rm(w, op, reg, mem),
{
    v.push(rex(w, msb(reg), mem_x(mem), mem_b(mem)));
    v.push(op);
    put_operand(v, low(reg), mem);
    assert(v@ =~= old(v)@ + spec_rm(w, op, reg, mem));
}

/// The prefix byte of a floating-point instruction: single or double
/// precision.
pub open spec fn spec_precision(mode: MachineMode) -> u8 {
    if mode == MachineMode::Float64 {
        0xf2
    } else {
        0xf3
    }
}

#[verifier::when_used_as_spec(spec_precision)]
pub fn precision(mode: MachineMode) -> (n: u8)
    ensures
        n == spec_precision(mode),
{
    match mode {
        MachineMode::Float64 => 0xf2,
        _ => 0xf3,
    }
}

/// A floating-point instruction of two registers.
pub open spec fn spec_ff(mode: MachineMode, op: u8, reg: FReg, rm: FReg) -> Seq<u8> {
    seq![
        spec_precision(mode),
        spec_rex(0, spec_fmsb(reg), 0, spec_fmsb(rm)),
        0x0f,
        op,
        spec_modrm(3, spec_flow(reg), spec_flow(rm)),
    ]
}

/// Appends a floating-point instruction of two registers.
pub fn put_ff(v: &mut Vec<u8>, mode: MachineMode, op: u8, reg: FReg, rm: FReg)
    ensures
        final(v)@ == old(v)@ + spec_ff(mode, op, reg, rm),
{
    v.push(precision(mode));
    v.push(rex(0, fmsb(reg), 0, fmsb(rm)));
    v.push(0x0f);
    v.push(op);
    v.push(modrm(3, flow(reg), flow(rm)));
    assert(v@ =~= old(v)@ + spec_ff(mode, op, reg, rm));
}

/// A floating-point instruction of a register and a memory operand.
pub open spec fn spec_fm(mode: MachineMode, op: u8, reg: FReg, mem: Mem) -> Seq<u8> {
    seq![
        spec_precision(mode),
        spec_rex(0, spec_fmsb(reg), spec_mem_x(mem), spec_mem_b(mem)),
        0x0f,
        op,
    ] + spec_operand(spec_flow(reg), mem)
}

/// Appends a floating-point instruction of a register and a memory
/// operand.
pub fn put_fm(v: &mut Vec<u8>, mode: MachineMode, op: u8, reg: FReg, mem: Mem)
    ensures
        final(v)@ == old(v)@ + spec_fm(mode, op, reg, mem),
{
    v.push(precision(mode));
    v.push(rex(0, fmsb(reg), mem_x(mem), mem_b(mem)));
    v.push(0x0f);
    v.push(op);
    put_operand(v, flow(reg), mem);
    assert(v@ =~= old(v)@ + spec_fm(mode, op, reg, mem));
}

/// The operation code of an integer operation that works on two registers
/// in place.
pub open spec fn spec_arith_op(op: IntOp) -> u8 {
    match op {
        IntOp::Add => 0x01,
        IntOp::Sub => 0x29,
        IntOp::Or => 0x09,
        IntOp::And => 0x21,
        _ => 0x31,
    }
}

/// The register-field extension of a shift.
pub open spec fn spec_shift_ext(op: IntOp) -> u8 {
    match op {
        IntOp::Shl => 4,
        IntOp::Sar => 7,
        _ => 5,
    }
}

/// The operation code of a floating-point operation.
pub open spec fn spec_float_op(op: FloatOp) -> u8 {
    match op {
        FloatOp::Add => 0x58,
        FloatOp::Sub => 0x5c,
        FloatOp::Mul => 0x59,
        FloatOp::Div => 0x5e,
    }
}

/// Whether the registers of an integer operation suit it: a division does
/// not divide by the registers it works in, and a shift does not shift the
/// register that holds its count.
pub open spec fn spec_operands_ok(op: IntOp, lhs: Reg, rhs: Reg) -> bool {
    match op {
        IntOp::Div | IntOp::Mod => rhs != Reg::RAX && rhs != Reg::RDX,
        IntOp::Shl | IntOp::Sar | IntOp::Shr => lhs != Reg::RCX,
        _ => true,
    }
}

#[verifier::when_used_as_spec(spec_operands_ok)]
pub fn operands_ok(op: IntOp, lhs: Reg, rhs: Reg) -> (r: bool)
    ensures
        r == spec_operands_ok(op, lhs, rhs),
{
    match op {
        IntOp::Div | IntOp::Mod => match rhs {
            Reg::RAX | Reg::RDX => false,
            _ => true,
        },
        IntOp::Shl | IntOp::Sar | IntOp::Shr => match lhs {
            Reg::RCX => false,
            _ => true,
        },
        _ => true,
    }
}

/// The mode of an instruction, if it has one.
pub open spec fn spec_mode_of(insn: Insn) -> Option<MachineMode> {
    match insn {
        Insn::LoadMem(mode, _, _) => Some(mode),
        Insn::StoreMem(mode, _, _) => Some(mode),
        Insn::LoadfMem(mode, _, _) => Some(mode),
        Insn::StorefMem(mode, _, _) => Some(mode),
        Insn::CopyReg(mode, _, _) => Some(mode),
        Insn::CopyFreg(mode, _, _) => Some(mode),
        Insn::LoadIntConst(mode, _, _) => Some(mode),
        Insn::LoadFloatConst(mode, _, _) => Some(mode),
        Insn::IntNeg(mode, _, _) => Some(mode),
        Insn::IntNot(mode, _, _) => Some(mode),
        Insn::IntArith(_, mode, _, _, _) => Some(mode),
        Insn::FloatArith(_, mode, _, _, _) => Some(mode),
        Insn::ExtendByte(mode, _, _) => Some(mode),
        Insn::CmpReg(mode, _, _) => Some(mode),
        Insn::CmpFreg(mode, _, _) => Some(mode),
        Insn::CmpMem(mode, _, _) => Some(mode),
        Insn::CmpMemImm(mode, _, _) => Some(mode),
        Insn::CmpZero(mode, _) => Some(mode),
        _ => None,
    }
}

/// Whether an instruction works on floating-point registers.
pub open spec fn spec_on_floats(insn: Insn) -> bool {
    match insn {
        Insn::LoadfMem(_, _, _) => true,
        Insn::StorefMem(_, _, _) => true,
        Insn::CopyFreg(_, _, _) => true,
        Insn::LoadFloatConst(_, _, _) => true,
        Insn::FloatArith(_, _, _, _, _) => true,
        Insn::CmpFreg(_, _, _) => true,
        _ => false,
    }
}

/// Whether the mode of an instruction suits it: integer instructions take
/// integer modes and floating-point ones floating-point modes.
pub open spec fn spec_mode_ok(insn: Insn) -> bool {
    match spec_mode_of(insn) {
        Some(mode) => mode.is_float() == spec_on_floats(insn),
        None => true,
    }
}

/// The memory operand of an instruction, if it has one.
pub open spec fn spec_mem_of(insn: Insn) -> Option<Mem> {
    match insn {
        Insn::LoadMem(_, _, mem) => Some(mem),
        Insn::StoreMem(_, mem, _) => Some(mem),
        Insn::LoadfMem(_, _, mem) => Some(mem),
        Insn::StorefMem(_, mem, _) => Some(mem),
        Insn::CmpMem(_, mem, _) => Some(mem),
        Insn::CmpMemImm(_, mem, _) => Some(mem),
        _ => None,
    }
}

/// Whether an instruction can be encoded: its mode suits it, its memory
/// operand is as `spec_mem_ok` says, and the registers of an integer
/// operation as `spec_operands_ok`.
pub open spec fn spec_encodable(insn: Insn) -> bool {
    &&& spec_mode_ok(insn)
    &&& match spec_mem_of(insn) {
        Some(mem) => spec_mem_ok(mem),
        None => true,
    }
    &&& match insn {
        Insn::IntArith(op, _, _, lhs, rhs) => spec_operands_ok(op, lhs, rhs),
        _ => true,
    }
}

/// The bytes of an instruction that reads or writes memory.
pub open spec fn spec_memory(insn: Insn) -> Seq<u8> {
    match insn {
        Insn::LoadMem(mode, dest, mem) => if mode == MachineMode::Int8 {
            // the byte is widened with zeros
            seq![spec_rex(0, spec_msb(dest), spec_mem_x(mem), spec_mem_b(mem)), 0x0f, 0xb6]
                + spec_operand(spec_low(dest), mem)
        } else {
            spec_rm(spec_wide(mode), 0x8b, dest, mem)
        },
        Insn::LoadfMem(mode, dest, mem) => spec_fm(mode, 0x10, dest, mem),
        Insn::StoreMem(mode, mem, src) => spec_rm(
            spec_wide(mode),
            if mode == MachineMode::Int8 {
                0x88
            } else {
                0x89
            },
            src,
            mem,
        ),
        Insn::StorefMem(mode, mem, src) => spec_fm(mode, 0x11, src, mem),
        Insn::CmpMem(mode, mem, rhs) => spec_rm(spec_wide(mode), 0x39, rhs, mem),
        Insn::CmpMemImm(mode, mem, imm) => seq![
            spec_rex(spec_wide(mode), 0, spec_mem_x(mem), spec_mem_b(mem)),
            0x81,
        ] + spec_operand(7, mem) + spec_le32(spec_bits32(imm)),
        _ => Seq::empty(),
    }
}

/// The bytes of a division of `lhs` by `rhs`. The dividend goes to the
/// accumulator and is widened into the register beside it; `from` is the
/// register in which the result wanted comes, quotient or remainder.
pub open spec fn spec_div(w: u8, dest: Reg, lhs: Reg, rhs: Reg, from: Reg) -> Seq<u8> {
    spec_mov(w, Reg::RAX, lhs) + seq![spec_rex(w, 0, 0, 0), 0x99u8] + spec_ext(w, 0xf7, 7, rhs)
        + spec_mov(w, dest, from)
}

/// The bytes of an integer operation on operands of width `w`. The
/// operation works in `lhs`, and its result is copied to `dest`.
pub open spec fn spec_arith(op: IntOp, w: u8, dest: Reg, lhs: Reg, rhs: Reg) -> Seq<u8> {
    match op {
        IntOp::Mul => spec_rr2(w, 0xaf, lhs, rhs) + spec_mov(w, dest, lhs),
        IntOp::Div => spec_div(w, dest, lhs, rhs, Reg::RAX),
        IntOp::Mod => spec_div(w, dest, lhs, rhs, Reg::RDX),
        // the count goes to the count register
        IntOp::Shl | IntOp::Sar | IntOp::Shr => spec_mov(w, Reg::RCX, rhs) + spec_ext(
            w,
            0xd3,
            spec_shift_ext(op),
            lhs,
        ) + spec_mov(w, dest, lhs),
        _ => spec_rr(w, spec_arith_op(op), rhs, lhs) + spec_mov(w, dest, lhs),
    }
}

/// The bytes of an instruction that works on integer registers alone.
pub open spec fn spec_integer(insn: Insn) -> Seq<u8> {
    match insn {
        Insn::CopyReg(mode, dest, src) => spec_mov(spec_wide(mode), dest, src),
        Insn::LoadIntConst(mode, dest, imm) => if spec_wide(mode) == 1 {
            seq![spec_rex(1, 0, 0, spec_msb(dest)), (0xb8 + spec_low(dest)) as u8] + spec_le64(
                spec_bits64(imm),
            )
        } else {
            seq![spec_rex(0, 0, 0, spec_msb(dest)), (0xb8 + spec_low(dest)) as u8] + spec_le32(
                spec_low32(imm),
            )
        },
        Insn::IntNeg(mode, dest, src) => spec_mov(spec_wide(mode), dest, src) + spec_ext(
            spec_wide(mode),
            0xf7,
            3,
            dest,
        ),
        Insn::IntNot(mode, dest, src) => spec_mov(spec_wide(mode), dest, src) + spec_ext(
            spec_wide(mode),
            0xf7,
            2,
            dest,
        ),
        // exclusive or with 1
        Insn::BoolNot(dest, src) => spec_mov(0, dest, src) + spec_ext(0, 0x83, 6, dest) + seq![
            1u8,
        ],
        Insn::IntArith(op, mode, dest, lhs, rhs) => spec_arith(op, spec_wide(mode), dest, lhs, rhs),
        Insn::ExtendByte(mode, dest, src) => spec_rr2(spec_wide(mode), 0xbe, dest, src),
        Insn::ExtendIntLong(dest, src) => spec_rr(1, 0x63, dest, src),
        Insn::CmpReg(mode, lhs, rhs) => spec_rr(spec_wide(mode), 0x39, rhs, lhs),
        Insn::CmpZero(mode, reg) => spec_rr(spec_wide(mode), 0x85, reg, reg),
        // the flag goes to the low byte, which is widened
        Insn::SetIf(dest, cond) => seq![
            spec_rex(0, 0, 0, spec_msb(dest)),
            0x0f,
            (0x90 + spec_cc(cond)) as u8,
            spec_modrm(3, 0, spec_low(dest)),
        ] + spec_rr2(0, 0xb6, dest, dest),
        Insn::CallReg(reg) => spec_ext(0, 0xff, 2, reg),
        _ => Seq::empty(),
    }
}

/// The bytes of an instruction that works on floating-point registers
/// alone.
pub open spec fn spec_float(insn: Insn) -> Seq<u8> {
    match insn {
        Insn::CopyFreg(mode, dest, src) => spec_ff(mode, 0x10, dest, src),
        Insn::FloatArith(op, mode, dest, lhs, rhs) => spec_ff(mode, spec_float_op(op), lhs, rhs)
            + spec_ff(mode, 0x10, dest, lhs),
        Insn::CmpFreg(mode, lhs, rhs) => if mode == MachineMode::Float64 {
            seq![
                0x66u8,
                spec_rex(0, spec_fmsb(lhs), 0, spec_fmsb(rhs)),
                0x0f,
                0x2e,
                spec_modrm(3, spec_flow(lhs), spec_flow(rhs)),
            ]
        } else {
            seq![
                spec_rex(0, spec_fmsb(lhs), 0, spec_fmsb(rhs)),
                0x0f,
                0x2e,
                spec_modrm(3, spec_flow(lhs), spec_flow(rhs)),
            ]
        },
        _ => Seq::empty(),
    }
}

/// The bytes of an instruction whose encoding holds the displacement `rel`:
/// a jump, or a load from the constant pool.
pub open spec fn spec_relative(insn: Insn, rel: i32) -> Seq<u8> {
    match insn {
        Insn::LoadFloatConst(mode, dest, _) => seq![
            spec_precision(mode),
            spec_rex(0, spec_fmsb(dest), 0, 0),
            0x0f,
            0x10,
            spec_modrm(0, spec_flow(dest), 5),
        ] + spec_le32(spec_bits32(rel)),
        Insn::LoadConstPool(dest, _) => seq![
            spec_rex(1, spec_msb(dest), 0, 0),
            0x8b,
            spec_modrm(0, spec_low(dest), 5),
        ] + spec_le32(spec_bits32(rel)),
        Insn::Jump(_) => seq![0xe9u8] + spec_le32(spec_bits32(rel)),
        Insn::JumpIf(cond, _) => seq![0x0fu8, (0x80 + spec_cc(cond)) as u8] + spec_le32(
            spec_bits32(rel),
        ),
        _ => Seq::empty(),
    }
}

/// The bytes of `insn`. `rel` is the displacement, from the end of the
/// instruction, of what a jump goes to or a load from the constant pool
/// reads; other instructions do not use it.
pub open spec fn spec_encode(insn: Insn, rel: i32) -> Seq<u8> {
    match insn {
        Insn::Debug => seq![0xccu8],
        // the frame pointer is saved and set, and the frame reserved
        Insn::Prolog(size) => seq![0x55u8, 0x48, 0x89, 0xe5, 0x48, 0x81, 0xec] + spec_le32(
            spec_bits32(size),
        ),
        // the frame is released, the frame pointer restored, and the
        // function returns
        Insn::Epilog(_) => seq![0x48u8, 0x89, 0xec, 0x5d, 0xc3],
        // a load from the address that is the trap's number: the fault it
        // raises tells the kind
        Insn::Trap(trap) => seq![0x4cu8, 0x8b, 0x14, 0x25] + spec_le32(trap.code()),
        Insn::Jump(_) | Insn::JumpIf(_, _) | Insn::LoadConstPool(_, _) | Insn::LoadFloatConst(
            _,
            _,
            _,
        ) => spec_relative(insn, rel),
        Insn::LoadMem(_, _, _) | Insn::LoadfMem(_, _, _) | Insn::StoreMem(_, _, _)
        | Insn::StorefMem(_, _, _) | Insn::CmpMem(_, _, _) | Insn::CmpMemImm(_, _, _) => spec_memory(
            insn,
        ),
        Insn::CopyFreg(_, _, _) | Insn::FloatArith(_, _, _, _, _) | Insn::CmpFreg(_, _, _) => spec_float(
            insn,
        ),
        _ => spec_integer(insn),
    }
}

/// Number of bytes of `insn`.
pub open spec fn spec_size(insn: Insn) -> usize {
    match insn {
        Insn::Debug => 1,
        Insn::Prolog(_) => 11,
        Insn::Epilog(_) => 5,
        Insn::LoadMem(mode, _, _) => if mode == MachineMode::Int8 {
            9
        } else {
            8
        },
        Insn::LoadfMem(_, _, _) => 10,
        Insn::StoreMem(_, _, _) => 8,
        Insn::StorefMem(_, _, _) => 10,
        Insn::CopyReg(_, _, _) => 3,
        Insn::CopyFreg(_, _, _) => 5,
        Insn::LoadIntConst(mode, _, _) => if spec_wide(mode) == 1 {
            10
        } else {
            6
        },
        Insn::LoadFloatConst(_, _, _) => 9,
        Insn::LoadConstPool(_, _) => 7,
        Insn::IntNeg(_, _, _) => 6,
        Insn::IntNot(_, _, _) => 6,
        Insn::BoolNot(_, _) => 7,
        Insn::IntArith(op, _, _, _, _) => match op {
            IntOp::Mul => 7,
            IntOp::Div | IntOp::Mod => 11,
            IntOp::Shl | IntOp::Sar | IntOp::Shr => 9,
            _ => 6,
        },
        Insn::FloatArith(_, _, _, _, _) => 10,
        Insn::ExtendByte(_, _, _) => 4,
        Insn::ExtendIntLong(_, _) => 3,
        Insn::CmpReg(_, _, _) => 3,
        Insn::CmpFreg(mode, _, _) => if mode == MachineMode::Float64 {
            5
        } else {
            4
        },
        Insn::CmpMem(_, _, _) => 8,
        Insn::CmpMemImm(_, _, _) => 12,
        Insn::CmpZero(_, _) => 3,
        Insn::SetIf(_, _) => 8,
        Insn::Jump(_) => 5,
        Insn::JumpIf(_, _) => 6,
        Insn::CallReg(_) => 3,
        Insn::Trap(_) => 8,
    }
}

/// The encoding of an instruction has the size of the instruction, whatever
/// its registers and displacements are.
pub proof fn lemma_size(insn: Insn, rel: i32)
    ensures
        spec_encode(insn, rel).len() == spec_size(insn),
        1 <= spec_size(insn) <= 12,
{
    lemma_part_sizes();
    match insn {
        Insn::IntArith(op, mode, dest, lhs, rhs) => {
            let w = spec_wide(mode);
            assert(seq![spec_rex(w, 0, 0, 0), 0x99u8].len() == 2);
            assert(spec_div(w, dest, lhs, rhs, Reg::RAX).len() == 11);
            assert(spec_div(w, dest, lhs, rhs, Reg::RDX).len() == 11);
            assert(spec_arith(op, w, dest, lhs, rhs).len() == spec_size(insn));
        },
        Insn::Jump(_) | Insn::JumpIf(_, _) | Insn::LoadConstPool(_, _) | Insn::LoadFloatConst(
            _,
            _,
            _,
        ) => {
            assert(spec_relative(insn, rel).len() == spec_size(insn));
        },
        Insn::LoadMem(_, _, _) | Insn::LoadfMem(_, _, _) | Insn::StoreMem(_, _, _)
        | Insn::StorefMem(_, _, _) | Insn::CmpMem(_, _, _) | Insn::CmpMemImm(_, _, _) => {
            assert(spec_memory(insn).len() == spec_size(insn));
        },
        Insn::CopyFreg(_, _, _) | Insn::FloatArith(_, _, _, _, _) | Insn::CmpFreg(_, _, _) => {
            assert(spec_float(insn).len() == spec_size(insn));
        },
        Insn::Debug | Insn::Prolog(_) | Insn::Epilog(_) | Insn::Trap(_) => {},
        _ => {
            assert(spec_integer(insn).len() == spec_size(insn));
        },
    }
}

/// The sizes of the parts that encodings are made of.
pub proof fn lemma_part_sizes()
    ensures
        forall|x: u32| #[trigger] spec_le32(x).len() == 4,
        forall|x: u64| #[trigger] spec_le64(x).len() == 8,
        forall|reg: u8, mem: Mem| #[trigger] spec_operand(reg, mem).len() == 6,
        forall|w: u8, op: u8, reg: Reg, rm: Reg| #[trigger] spec_rr(w, op, reg, rm).len() == 3,
        forall|w: u8, op: u8, reg: Reg, rm: Reg| #[trigger] spec_rr2(w, op, reg, rm).len() == 4,
        forall|w: u8, op: u8, ext: u8, rm: Reg| #[trigger] spec_ext(w, op, ext, rm).len() == 3,
        forall|w: u8, dest: Reg, src: Reg| #[trigger] spec_mov(w, dest, src).len() == 3,
        forall|w: u8, op: u8, reg: Reg, mem: Mem| #[trigger] spec_rm(w, op, reg, mem).len() == 8,
        forall|mode: MachineMode, op: u8, reg: FReg, rm: FReg| #[trigger]
            spec_ff(mode, op, reg, rm).len() == 5,
        forall|mode: MachineMode, op: u8, reg: FReg, mem: Mem| #[trigger]
            spec_fm(mode, op, reg, mem).len() == 10,
{
}

/// Number of bytes of `insn`.
#[verifier::when_used_as_spec(spec_size)]
pub fn size(insn: Insn) -> (n: usize)
    ensures
        n == spec_size(insn),
        1 <= n <= 12,
{
    match insn {
        Insn::Debug => 1,
        Insn::Prolog(_) => 11,
        Insn::Epilog(_) => 5,
        Insn::LoadMem(mode, _, _) => match mode {
            MachineMode::Int8 => 9,
            _ => 8,
        },
        Insn::LoadfMem(_, _, _) => 10,
        Insn::StoreMem(_, _, _) => 8,
        Insn::StorefMem(_, _, _) => 10,
        Insn::CopyReg(_, _, _) => 3,
        Insn::CopyFreg(_, _, _) => 5,
        Insn::LoadIntConst(mode, _, _) => if wide(mode) == 1 {
            10
        } else {
            6
        },
        Insn::LoadFloatConst(_, _, _) => 9,
        Insn::LoadConstPool(_, _) => 7,
        Insn::IntNeg(_, _, _) => 6,
        Insn::IntNot(_, _, _) => 6,
        Insn::BoolNot(_, _) => 7,
        Insn::IntArith(op, _, _, _, _) => match op {
            IntOp::Mul => 7,
            IntOp::Div | IntOp::Mod => 11,
            IntOp::Shl | IntOp::Sar | IntOp::Shr => 9,
            _ => 6,
        },
        Insn::FloatArith(_, _, _, _, _) => 10,
        Insn::ExtendByte(_, _, _) => 4,
        Insn::ExtendIntLong(_, _) => 3,
        Insn::CmpReg(_, _, _) => 3,
        Insn::CmpFreg(mode, _, _) => match mode {
            MachineMode::Float64 => 5,
            _ => 4,
        },
        Insn::CmpMem(_, _, _) => 8,
        Insn::CmpMemImm(_, _, _) => 12,
        Insn::CmpZero(_, _) => 3,
        Insn::SetIf(_, _) => 8,
        Insn::Jump(_) => 5,
        Insn::JumpIf(_, _) => 6,
        Insn::CallReg(_) => 3,
        Insn::Trap(_) => 8,
    }
}

/// The operation code of an integer operation that works on two registers
/// in place.
#[verifier::when_used_as_spec(spec_arith_op)]
pub fn arith_op(op: IntOp) -> (n: u8)
    ensures
        n == spec_arith_op(op),
{
    match op {
        IntOp::Add => 0x01,
        IntOp::Sub => 0x29,
        IntOp::Or => 0x09,
        IntOp::And => 0x21,
        _ => 0x31,
    }
}

/// The register-field extension of a shift.
#[verifier::when_used_as_spec(spec_shift_ext)]
pub fn shift_ext(op: IntOp) -> (n: u8)
    ensures
        n == spec_shift_ext(op),
        n <= 7,
{
    match op {
        IntOp::Shl => 4,
        IntOp::Sar => 7,
        _ => 5,
    }
}

/// The operation code of a floating-point operation.
#[verifier::when_used_as_spec(spec_float_op)]
pub fn float_op(op: FloatOp) -> (n: u8)
    ensures
        n == spec_float_op(op),
{
    match op {
        FloatOp::Add => 0x58,
        FloatOp::Sub => 0x5c,
        FloatOp::Mul => 0x59,
        FloatOp::Div => 0x5e,
    }
}

#[verifier::when_used_as_spec(spec_mode_of)]
pub fn mode_of(insn: Insn) -> (r: Option<MachineMode>)
    ensures
        r == spec_mode_of(insn),
{
    match insn {
        Insn::LoadMem(mode, _, _) => Some(mode),
        Insn::StoreMem(mode, _, _) => Some(mode),
        Insn::LoadfMem(mode, _, _) => Some(mode),
        Insn::StorefMem(mode, _, _) => Some(mode),
        Insn::CopyReg(mode, _, _) => Some(mode),
        Insn::CopyFreg(mode, _, _) => Some(mode),
        Insn::LoadIntConst(mode, _, _) => Some(mode),
        Insn::LoadFloatConst(mode, _, _) => Some(mode),
        Insn::IntNeg(mode, _, _) => Some(mode),
        Insn::IntNot(mode, _, _) => Some(mode),
        Insn::IntArith(_, mode, _, _, _) => Some(mode),
        Insn::FloatArith(_, mode, _, _, _) => Some(mode),
        Insn::ExtendByte(mode, _, _) => Some(mode),
        Insn::CmpReg(mode, _, _) => Some(mode),
        Insn::CmpFreg(mode, _, _) => Some(mode),
        Insn::CmpMem(mode, _, _) => Some(mode),
        Insn::CmpMemImm(mode, _, _) => Some(mode),
        Insn::CmpZero(mode, _) => Some(mode),
        _ => None,
    }
}

#[verifier::when_used_as_spec(spec_on_floats)]
pub fn on_floats(insn: Insn) -> (r: bool)
    ensures
        r == spec_on_floats(insn),
{
    match insn {
        Insn::LoadfMem(_, _, _) => true,
        Insn::StorefMem(_, _, _) => true,
        Insn::CopyFreg(_, _, _) => true,
        Insn::LoadFloatConst(_, _, _) => true,
        Insn::FloatArith(_, _, _, _, _) => true,
        Insn::CmpFreg(_, _, _) => true,
        _ => false,
    }
}

#[verifier::when_used_as_spec(spec_mode_ok)]
pub fn mode_ok(insn: Insn) -> (r: bool)
    ensures
        r == spec_mode_ok(insn),
{
    match mode_of(insn) {
        Some(mode) => mode.is_float() == on_floats(insn),
        None => true,
    }
}

#[verifier::when_used_as_spec(spec_mem_of)]
pub fn mem_of(insn: Insn) -> (r: Option<Mem>)
    ensures
        r == spec_mem_of(insn),
{
    match insn {
        Insn::LoadMem(_, _, mem) => Some(mem),
        Insn::StoreMem(_, mem, _) => Some(mem),
        Insn::LoadfMem(_, _, mem) => Some(mem),
        Insn::StorefMem(_, mem, _) => Some(mem),
        Insn::CmpMem(_, mem, _) => Some(mem),
        Insn::CmpMemImm(_, mem, _) => Some(mem),
        _ => None,
    }
}

/// Whether `insn` can be encoded.
#[verifier::when_used_as_spec(spec_encodable)]
pub fn encodable(insn: Insn) -> (r: bool)
    ensures
        r == spec_encodable(insn),
{
    let mem = match mem_of(insn) {
        Some(mem) => mem_ok(mem),
        None => true,
    };
    let operands = match insn {
        Insn::IntArith(op, _, _, lhs, rhs) => operands_ok(op, lhs, rhs),
        _ => true,
    };
    mode_ok(insn) && mem && operands
}

/// Appends the division of `lhs` by `rhs`; the result wanted, quotient or
/// remainder, comes in `from`.
fn put_div(v: &mut Vec<u8>, w: u8, dest: Reg, lhs: Reg, rhs: Reg, from: Reg)
    requires
        w <= 1,
    ensures
        final(v)@ == old(v)@ + spec_div(w, dest, lhs, rhs, from),
{
    put_rr(v, w, 0x89, lhs, Reg::RAX);
    v.push(rex(w, 0, 0, 0));
    v.push(0x99);
    put_ext(v, w, 0xf7, 7, rhs);
    put_rr(v, w, 0x89, from, dest);
    assert(v@ =~= old(v)@ + spec_div(w, dest, lhs, rhs, from));
}

/// Appends an operation that works on two registers in place.
fn put_in_place(v: &mut Vec<u8>, op: IntOp, w: u8, dest: Reg, lhs: Reg, rhs: Reg)
    requires
        w <= 1,
    ensures
        final(v)@ == old(v)@ + (spec_rr(w, spec_arith_op(op), rhs, lhs) + spec_mov(w, dest, lhs)),
{
    put_rr(v, w, arith_op(op), rhs, lhs);
    put_rr(v, w, 0x89, lhs, dest);
    assert(v@ =~= old(v)@ + (spec_rr(w, spec_arith_op(op), rhs, lhs) + spec_mov(w, dest, lhs)));
}

/// Appends a shift.
fn put_shift(v: &mut Vec<u8>, op: IntOp, w: u8, dest: Reg, lhs: Reg, rhs: Reg)
    requires
        w <= 1,
    ensures
        final(v)@ == old(v)@ + (spec_mov(w, Reg::RCX, rhs) + spec_ext(
            w,
            0xd3,
            spec_shift_ext(op),
            lhs,
        ) + spec_mov(w, dest, lhs)),
{
    put_rr(v, w, 0x89, rhs, Reg::RCX);
    put_ext(v, w, 0xd3, shift_ext(op), lhs);
    put_rr(v, w, 0x89, lhs, dest);
    assert(v@ =~= old(v)@ + (spec_mov(w, Reg::RCX, rhs) + spec_ext(
        w,
        0xd3,
        spec_shift_ext(op),
        lhs,
    ) + spec_mov(w, dest, lhs)));
}

/// Appends a multiplication.
fn put_mul(v: &mut Vec<u8>, w: u8, dest: Reg, lhs: Reg, rhs: Reg)
    requires
        w <= 1,
    ensures
        final(v)@ == old(v)@ + (spec_rr2(w, 0xaf, lhs, rhs) + spec_mov(w, dest, lhs)),
{
    put_rr2(v, w, 0xaf, lhs, rhs);
    put_rr(v, w, 0x89, lhs, dest);
    assert(v@ =~= old(v)@ + (spec_rr2(w, 0xaf, lhs, rhs) + spec_mov(w, dest, lhs)));
}

/// Appends an integer operation.
fn put_arith(v: &mut Vec<u8>, op: IntOp, w: u8, dest: Reg, lhs: Reg, rhs: Reg)
    requires
        w <= 1,
    ensures
        final(v)@ == old(v)@ + spec_arith(op, w, dest, lhs, rhs),
{
    match op {
        IntOp::Mul => put_mul(v, w, dest, lhs, rhs),
        IntOp::Div => put_div(v, w, dest, lhs, rhs, Reg::RAX),
        IntOp::Mod => put_div(v, w, dest, lhs, rhs, Reg::RDX),
        IntOp::Shl | IntOp::Sar | IntOp::Shr => put_shift(v, op, w, dest, lhs, rhs),
        _ => put_in_place(v, op, w, dest, lhs, rhs),
    }
}

/// Appends an instruction whose encoding holds a displacement.
fn put_relative(v: &mut Vec<u8>, insn: Insn, rel: i32)
    requires
        insn is Jump || insn is JumpIf || insn is LoadConstPool || insn is LoadFloatConst,
    ensures
        final(v)@ == old(v)@ + spec_relative(insn, rel),
{
    match insn {
        Insn::LoadFloatConst(mode, dest, _) => {
            v.push(precision(mode));
            v.push(rex(0, fmsb(dest), 0, 0));
            v.push(0x0f);
            v.push(0x10);
            v.push(modrm(0, flow(dest), 5));
        },
        Insn::LoadConstPool(dest, _) => {
            v.push(rex(1, msb(dest), 0, 0));
            v.push(0x8b);
            v.push(modrm(0, low(dest), 5));
        },
        Insn::Jump(_) => {
            v.push(0xe9);
        },
        Insn::JumpIf(cond, _) => {
            v.push(0x0f);
            v.push(0x80 + cc(cond));
        },
        _ => {},
    }
    put32(v, bits32(rel));
    assert(v@ =~= old(v)@ + spec_relative(insn, rel));
}

/// Appends an instruction that reads or writes memory.
fn put_memory(v: &mut Vec<u8>, insn: Insn)
    requires
        insn is LoadMem || insn is LoadfMem || insn is StoreMem || insn is StorefMem
            || insn is CmpMem || insn is CmpMemImm,
    ensures
        final(v)@ == old(v)@ + spec_memory(insn),
{
    match insn {
        Insn::LoadMem(mode, dest, mem) => match mode {
            MachineMode::Int8 => {
                v.push(rex(0, msb(dest), mem_x(mem), mem_b(mem)));
                v.push(0x0f);
                v.push(0xb6);
                put_operand(v, low(dest), mem);
            },
            _ => {
                put_rm(v, wide(mode), 0x8b, dest, mem);
            },
        },
        Insn::LoadfMem(mode, dest, mem) => {
            put_fm(v, mode, 0x10, dest, mem);
        },
        Insn::StoreMem(mode, mem, src) => {
            let op: u8 = match mode {
                MachineMode::Int8 => 0x88,
                _ => 0x89,
            };
            put_rm(v, wide(mode), op, src, mem);
        },
        Insn::StorefMem(mode, mem, src) => {
            put_fm(v, mode, 0x11, src, mem);
        },
        Insn::CmpMem(mode, mem, rhs) => {
            put_rm(v, wide(mode), 0x39, rhs, mem);
        },
        Insn::CmpMemImm(mode, mem, imm) => {
            v.push(rex(wide(mode), 0, mem_x(mem), mem_b(mem)));
            v.push(0x81);
            put_operand(v, 7, mem);
            put32(v, bits32(imm));
        },
        _ => {},
    }
    assert(v@ =~= old(v)@ + spec_memory(insn));
}

/// Appends an instruction that works on integer registers alone.
fn put_integer(v: &mut Vec<u8>, insn: Insn)
    requires
        insn is CopyReg || insn is LoadIntConst || insn is IntNeg || insn is IntNot
            || insn is BoolNot || insn is ExtendByte || insn is ExtendIntLong || insn is CmpReg
            || insn is CmpZero || insn is SetIf || insn is CallReg || insn is IntArith,
    ensures
        final(v)@ == old(v)@ + spec_integer(insn),
{
    match insn {
        Insn::CopyReg(mode, dest, src) => {
            put_rr(v, wide(mode), 0x89, src, dest);
        },
        Insn::LoadIntConst(mode, dest, imm) => {
            if wide(mode) == 1 {
                v.push(rex(1, 0, 0, msb(dest)));
                v.push(0xb8 + low(dest));
                put64(v, bits64(imm));
            } else {
                v.push(rex(0, 0, 0, msb(dest)));
                v.push(0xb8 + low(dest));
                put32(v, low32(imm));
            }
        },
        Insn::IntNeg(mode, dest, src) => {
            put_rr(v, wide(mode), 0x89, src, dest);
            put_ext(v, wide(mode), 0xf7, 3, dest);
        },
        Insn::IntNot(mode, dest, src) => {
            put_rr(v, wide(mode), 0x89, src, dest);
            put_ext(v, wide(mode), 0xf7, 2, dest);
        },
        Insn::BoolNot(dest, src) => {
            put_rr(v, 0, 0x89, src, dest);
            put_ext(v, 0, 0x83, 6, dest);
            v.push(1);
        },
        Insn::ExtendByte(mode, dest, src) => {
            put_rr2(v, wide(mode), 0xbe, dest, src);
        },
        Insn::ExtendIntLong(dest, src) => {
            put_rr(v, 1, 0x63, dest, src);
        },
        Insn::CmpReg(mode, lhs, rhs) => {
            put_rr(v, wide(mode), 0x39, rhs, lhs);
        },
        Insn::CmpZero(mode, reg) => {
            put_rr(v, wide(mode), 0x85, reg, reg);
        },
        Insn::SetIf(dest, cond) => {
            v.push(rex(0, 0, 0, msb(dest)));
            v.push(0x0f);
            v.push(0x90 + cc(cond));
            v.push(modrm(3, 0, low(dest)));
            put_rr2(v, 0, 0xb6, dest, dest);
        },
        Insn::CallReg(reg) => {
            put_ext(v, 0, 0xff, 2, reg);
        },
        Insn::IntArith(op, mode, dest, lhs, rhs) => {
            put_arith(v, op, wide(mode), dest, lhs, rhs);
        },
        _ => {},
    }
    assert(v@ =~= old(v)@ + spec_integer(insn));
}

/// Appends an instruction that works on floating-point registers alone.
fn put_float(v: &mut Vec<u8>, insn: Insn)
    requires
        insn is CopyFreg || insn is FloatArith || insn is CmpFreg,
    ensures
        final(v)@ == old(v)@ + spec_float(insn),
{
    match insn {
        Insn::CopyFreg(mode, dest, src) => {
            put_ff(v, mode, 0x10, dest, src);
        },
        Insn::FloatArith(op, mode, dest, lhs, rhs) => {
            put_ff(v, mode, float_op(op), lhs, rhs);
            put_ff(v, mode, 0x10, dest, lhs);
        },
        Insn::CmpFreg(mode, lhs, rhs) => {
            match mode {
                MachineMode::Float64 => {
                    v.push(0x66);
                },
                _ => {},
            }
            v.push(rex(0, fmsb(lhs), 0, fmsb(rhs)));
            v.push(0x0f);
            v.push(0x2e);
            v.push(modrm(3, flow(lhs), flow(rhs)));
        },
        _ => {},
    }
    assert(v@ =~= old(v)@ + spec_float(insn));
}

/// Appends the bytes of `insn`, with displacement `rel` where its encoding
/// holds one.
pub fn put(v: &mut Vec<u8>, insn: Insn, rel: i32)
    ensures
        final(v)@ == old(v)@ + spec_encode(insn, rel),
        final(v)@.len() == old(v)@.len() + spec_size(insn),
{
    proof {
        lemma_size(insn, rel);
    }
    match insn {
        Insn::Debug => {
            v.push(0xcc);
            assert(v@ =~= old(v)@ + spec_encode(insn, rel));
        },
        Insn::Prolog(size) => {
            v.push(0x55);
            v.push(0x48);
            v.push(0x89);
            v.push(0xe5);
            v.push(0x48);
            v.push(0x81);
            v.push(0xec);
            put32(v, bits32(size));
            assert(v@ =~= old(v)@ + spec_encode(insn, rel));
        },
        Insn::Epilog(_) => {
            v.push(0x48);
            v.push(0x89);
            v.push(0xec);
            v.push(0x5d);
            v.push(0xc3);
            assert(v@ =~= old(v)@ + spec_encode(insn, rel));
        },
        Insn::Trap(trap) => {
            v.push(0x4c);
            v.push(0x8b);
            v.push(0x14);
            v.push(0x25);
            put32(v, trap.code());
            assert(v@ =~= old(v)@ + spec_encode(insn, rel));
        },
        Insn::Jump(_) | Insn::JumpIf(_, _) | Insn::LoadConstPool(_, _) | Insn::LoadFloatConst(
            _,
            _,
            _,
        ) => {
            put_relative(v, insn, rel);
        },
        Insn::LoadMem(_, _, _) | Insn::LoadfMem(_, _, _) | Insn::StoreMem(_, _, _)
        | Insn::StorefMem(_, _, _) | Insn::CmpMem(_, _, _) | Insn::CmpMemImm(_, _, _) => {
            put_memory(v, insn);
        },
        Insn::CopyFreg(_, _, _) | Insn::FloatArith(_, _, _, _, _) | Insn::CmpFreg(_, _, _) => {
            put_float(v, insn);
        },
        _ => {
            put_integer(v, insn);
        },
    }
}

} // verus!
