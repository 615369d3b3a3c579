//! What a listing does when it runs, for the instructions that move
//! words, compare and branch. The laws of the code generator are stated
//! against this machine.
//!
//! The machine works on whole words: every register and every memory cell
//! holds an integer, and a load or store moves one, whatever its mode.
//! Arithmetic, floating point, calls and frame set-up are not modelled: the
//! machine does not step over them.

use crate::codegen::CondCode;
use crate::cpu::{Mem, Reg, REG_FP};
use crate::dseg::{DSegEntry, DSegValue};
use crate::masm::{Insn, Label, MasmView};
use crate::trap::Trap;
use vstd::prelude::*;

verus! {

/// The operands of the last comparison.
pub struct Flags {
    pub lhs: int,
    pub rhs: int,
}

/// The state of the machine.
pub struct Machine {
    /// Position of the instruction that runs next.
    pub pc: int,
    pub regs: Map<Reg, int>,
    /// Memory, by address.
    pub mem: Map<int, int>,
    pub flags: Flags,
    /// The trap that was raised; the machine has stopped then.
    pub trap: Option<Trap>,
}

/// The word `x` taken as unsigned: its residue of 64 bits.
pub open spec fn unsigned(x: int) -> int {
    x % 0x1_0000_0000_0000_0000
}

/// Whether the last comparison meets `cond`. The unsigned conditions
/// compare the operands taken as unsigned words.
pub open spec fn holds(cond: CondCode, flags: Flags) -> bool {
    match cond {
        CondCode::Zero | CondCode::Equal => flags.lhs == flags.rhs,
        CondCode::NonZero | CondCode::NotEqual => flags.lhs != flags.rhs,
        CondCode::Greater => flags.lhs > flags.rhs,
        CondCode::GreaterEq => flags.lhs >= flags.rhs,
        CondCode::Less => flags.lhs < flags.rhs,
        CondCode::LessEq => flags.lhs <= flags.rhs,
        CondCode::UnsignedGreater => unsigned(flags.lhs) > unsigned(flags.rhs),
        CondCode::UnsignedGreaterEq => unsigned(flags.lhs) >= unsigned(flags.rhs),
        CondCode::UnsignedLess => unsigned(flags.lhs) < unsigned(flags.rhs),
        CondCode::UnsignedLessEq => unsigned(flags.lhs) <= unsigned(flags.rhs),
    }
}

impl Machine {
    /// The address that `mem` names. Frame slots are counted from the frame
    /// pointer.
    pub open spec fn addr(self, mem: Mem) -> int {
        match mem {
            Mem::Local(offset) => self.regs[REG_FP] + offset,
            Mem::Base(base, disp) => self.regs[base] + disp,
            Mem::Index(base, index, scale, disp) => self.regs[base] + self.regs[index] * scale + disp,
        }
    }

    /// The machine with `value` in `reg`, at the next instruction.
    pub open spec fn set_reg(self, reg: Reg, value: int) -> Machine {
        Machine { pc: self.pc + 1, regs: self.regs.insert(reg, value), ..self }
    }

    /// The machine after a comparison of `lhs` with `rhs`, at the next
    /// instruction.
    pub open spec fn compared(self, lhs: int, rhs: int) -> Machine {
        Machine { pc: self.pc + 1, flags: Flags { lhs, rhs }, ..self }
    }
}

/// The trap of the exit that waits at `l`: that of the first such exit.
pub open spec fn trap_at(v: MasmView, l: Label, from: int) -> Option<Trap>
    decreases v.bailouts.len() - from,
{
    if from < 0 || from >= v.bailouts.len() {
        None
    } else if v.bailouts[from].label == l {
        Some(v.bailouts[from].trap)
    } else {
        trap_at(v, l, from + 1)
    }
}

/// The machine after a jump to `l`: at the position that `l` is bound to,
/// or stopped by the trap of the exit that waits at `l`. A label that is
/// neither bound nor waited at cannot be jumped to.
pub open spec fn jump_to(v: MasmView, m: Machine, l: Label) -> Option<Machine> {
    if l.0 >= v.labels.len() {
        None
    } else {
        match v.labels[l.0 as int] {
            Some(p) => Some(Machine { pc: p as int, ..m }),
            None => match trap_at(v, l, 0) {
                Some(trap) => Some(Machine { trap: Some(trap), ..m }),
                None => None,
            },
        }
    }
}

/// The pool entry at displacement `disp` from the pool's end: the latest
/// such entry among the first `n`.
pub open spec fn pool_entry(entries: Seq<DSegEntry>, disp: int, n: int) -> Option<DSegValue>
    decreases n,
{
    if n <= 0 || n > entries.len() {
        None
    } else if entries[n - 1].disp == disp {
        Some(entries[n - 1].value)
    } else {
        pool_entry(entries, disp, n - 1)
    }
}

/// The word that a pool entry holds.
pub open spec fn word_of(value: DSegValue) -> int {
    match value {
        DSegValue::Ptr(p) => p as int,
        DSegValue::Float(bits) => bits as int,
        DSegValue::Double(bits) => bits as int,
    }
}

/// The machine after the instruction at its position has run, or `None` if
/// the machine has stopped, has left the listing, or stands at an
/// instruction that is not modelled.
pub open spec fn step(v: MasmView, m: Machine) -> Option<Machine> {
    if m.trap is Some || m.pc < 0 || m.pc >= v.insns.len() {
        None
    } else {
        match v.insns[m.pc] {
            Insn::LoadMem(_, dest, mem) => Some(m.set_reg(dest, m.mem[m.addr(mem)])),
            Insn::StoreMem(_, mem, src) => Some(
                Machine { pc: m.pc + 1, mem: m.mem.insert(m.addr(mem), m.regs[src]), ..m },
            ),
            Insn::CopyReg(_, dest, src) => Some(m.set_reg(dest, m.regs[src])),
            Insn::LoadIntConst(_, dest, imm) => Some(m.set_reg(dest, imm as int)),
            Insn::LoadConstPool(dest, disp) => match pool_entry(
                v.dseg.entries,
                disp - m.pc,
                v.dseg.entries.len() as int,
            ) {
                Some(value) => Some(m.set_reg(dest, word_of(value))),
                None => None,
            },
            Insn::CmpReg(_, lhs, rhs) => Some(m.compared(m.regs[lhs], m.regs[rhs])),
            Insn::CmpMem(_, mem, rhs) => Some(m.compared(m.mem[m.addr(mem)], m.regs[rhs])),
            Insn::CmpMemImm(_, mem, imm) => Some(m.compared(m.mem[m.addr(mem)], imm as int)),
            Insn::CmpZero(_, reg) => Some(m.compared(m.regs[reg], 0)),
            Insn::SetIf(dest, cond) => Some(
                m.set_reg(
                    dest,
                    if holds(cond, m.flags) {
                        1
                    } else {
                        0
                    },
                ),
            ),
            Insn::Jump(l) => jump_to(v, m, l),
            Insn::JumpIf(cond, l) => if holds(cond, m.flags) {
                jump_to(v, m, l)
            } else {
                Some(Machine { pc: m.pc + 1, ..m })
            },
            Insn::Trap(trap) => Some(Machine { trap: Some(trap), ..m }),
            _ => None,
        }
    }
}

/// The machine after `n` instructions have run.
pub open spec fn run(v: MasmView, m: Machine, n: nat) -> Option<Machine>
    decreases n,
{
    if n == 0 {
        Some(m)
    } else {
        match step(v, m) {
            Some(m1) => run(v, m1, (n - 1) as nat),
            None => None,
        }
    }
}

/// Whether the machine gets from `m` to `to` by running the listing.
pub open spec fn reaches(v: MasmView, m: Machine, to: Machine) -> bool {
    exists|n: nat| run(v, m, n) == Some(to)
}

/// Running `a` steps and then `b` steps is running `a + b` steps.
pub proof fn lemma_run_split(v: MasmView, m: Machine, a: nat, b: nat)
    ensures
        run(v, m, a + b) == match run(v, m, a) {
            Some(m1) => run(v, m1, b),
            None => None,
        },
    decreases a,
{
    if a > 0 {
        match step(v, m) {
            Some(m1) => {
                lemma_run_split(v, m1, (a - 1) as nat, b);
                assert((a - 1) as nat + b == (a + b - 1) as nat);
            },
            None => {},
        }
    }
}

} // verus!
