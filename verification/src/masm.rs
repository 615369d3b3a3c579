//! The macro assembler: an instruction listing under construction, with its
//! label table, constant pool, deferred trap exits and the safepoint,
//! line-number, comment and exception-handler tables.
//!
//! Positions count instructions from the start of the listing.

use crate::codegen::CondCode;
use crate::cpu::{FReg, Mem, Reg, PTR_WIDTH, REG_PARAMS, REG_RESULT};
use crate::ctxt::FctId;
use crate::dseg::{DSeg, DSegView};
use crate::fct::{CatchType, Comment, ExHandler, GcPoint, JitFct, JitFctView};
use crate::lexer::Position;
use crate::object::{offset_of_array_data, offset_of_array_length};
use crate::trap::Trap;
use crate::ty::MachineMode;
use crate::vtable::{offset_of_method_table, METHOD_INDEX_LIMIT};
use vstd::prelude::*;

verus! {

/// A position in the listing that can be jumped to before it is known.
#[derive(Clone, Copy, PartialEq, Eq, Structural, Debug)]
pub struct Label(pub usize);

/// Integer operation of three registers.
#[derive(Clone, Copy, PartialEq, Eq, Structural, Debug)]
pub enum IntOp {
    Add,
    Sub,
    Mul,
    Div,
    Mod,
    Or,
    And,
    Xor,
    Shl,
    Sar,
    Shr,
}

/// Floating-point operation of three registers.
#[derive(Clone, Copy, PartialEq, Eq, Structural, Debug)]
pub enum FloatOp {
    Add,
    Sub,
    Mul,
    Div,
}

/// One instruction of the listing.
#[derive(Clone, Copy, PartialEq, Eq, Structural, Debug)]
pub enum Insn {
    /// Breakpoint.
    Debug,
    /// Set up a frame with this many bytes below the frame pointer.
    Prolog(i32),
    /// Tear the frame down and return to the caller.
    Epilog(i32),
    /// `dest := [mem]`.
    LoadMem(MachineMode, Reg, Mem),
    /// `dest := [mem]`, floating point.
    LoadfMem(MachineMode, FReg, Mem),
    /// `[mem] := src`.
    StoreMem(MachineMode, Mem, Reg),
    /// `[mem] := src`, floating point.
    StorefMem(MachineMode, Mem, FReg),
    /// `dest := src`.
    CopyReg(MachineMode, Reg, Reg),
    /// `dest := src`, floating point.
    CopyFreg(MachineMode, FReg, FReg),
    /// `dest := imm`.
    LoadIntConst(MachineMode, Reg, i64),
    /// `dest :=` the pool entry at this displacement from the instruction.
    LoadFloatConst(MachineMode, FReg, i32),
    /// `dest :=` the pool entry at this displacement from the instruction.
    LoadConstPool(Reg, i32),
    /// `dest := -src`.
    IntNeg(MachineMode, Reg, Reg),
    /// `dest := !src`, bitwise.
    IntNot(MachineMode, Reg, Reg),
    /// `dest := src ^ 1`.
    BoolNot(Reg, Reg),
    /// `dest := lhs op rhs`.
    IntArith(IntOp, MachineMode, Reg, Reg, Reg),
    /// `dest := lhs op rhs`, floating point.
    FloatArith(FloatOp, MachineMode, FReg, FReg, FReg),
    /// `dest :=` the low byte of `src`, sign-extended to the mode.
    ExtendByte(MachineMode, Reg, Reg),
    /// `dest :=` the low 32 bits of `src`, sign-extended to 64 bits.
    ExtendIntLong(Reg, Reg),
    /// Compare `lhs` with `rhs` and set the flags.
    CmpReg(MachineMode, Reg, Reg),
    /// Compare `lhs` with `rhs` and set the flags, floating point.
    CmpFreg(MachineMode, FReg, FReg),
    /// Compare `[mem]` with `rhs` and set the flags.
    CmpMem(MachineMode, Mem, Reg),
    /// Compare `[mem]` with `imm` and set the flags.
    CmpMemImm(MachineMode, Mem, i32),
    /// Compare `reg` with zero and set the flags.
    CmpZero(MachineMode, Reg),
    /// `dest := 1` if the flags meet the condition, else `0`.
    SetIf(Reg, CondCode),
    /// Continue at the label.
    Jump(Label),
    /// Continue at the label if the flags meet the condition.
    JumpIf(CondCode, Label),
    /// Call the function whose address `reg` holds.
    CallReg(Reg),
    /// Hand control to the trap helper.
    Trap(Trap),
}

impl Insn {
    /// The label this instruction may continue at, if it is a jump.
    pub open spec fn target(self) -> Option<Label> {
        match self {
            Insn::Jump(l) => Some(l),
            Insn::JumpIf(_, l) => Some(l),
            _ => None,
        }
    }

    /// Whether this instruction is a call, and so a safepoint.
    pub open spec fn is_call(self) -> bool {
        self is CallReg
    }

    /// Neither a jump nor a call.
    pub open spec fn plain(self) -> bool {
        self.target() is None && !self.is_call()
    }
}

/// A trap exit that is placed behind the function's code when the listing is
/// finished: at `label` the trap helper is entered for `trap`, raised at
/// `pos` in the source.
#[derive(Clone, Copy, PartialEq, Eq, Structural, Debug)]
pub struct Bailout {
    pub label: Label,
    pub trap: Trap,
    pub pos: Position,
}

/// Largest number of instructions at which positions and pool
/// displacements can still be added without overflow.
pub const CODE_LIMIT: usize = 0x3fff_fff0;

/// An assembler as a value.
#[verifier::ext_equal]
pub struct MasmView {
    pub insns: Seq<Insn>,
    /// For each label, the position it is bound to.
    pub labels: Seq<Option<usize>>,
    pub bailouts: Seq<Bailout>,
    pub dseg: DSegView,
    /// Position and live reference slots of each safepoint.
    pub gcpoints: Seq<(usize, Set<i32>)>,
    /// Position and source line.
    pub linenos: Seq<(usize, i32)>,
    pub comments: Seq<(usize, Comment)>,
    pub handlers: Seq<ExHandler>,
}

impl MasmView {
    /// The assembler before anything is emitted.
    pub open spec fn empty() -> MasmView {
        MasmView {
            insns: Seq::empty(),
            labels: Seq::empty(),
            bailouts: Seq::empty(),
            dseg: DSegView { entries: Seq::empty(), size: 0 },
            gcpoints: Seq::empty(),
            linenos: Seq::empty(),
            comments: Seq::empty(),
            handlers: Seq::empty(),
        }
    }

    /// The position of the next instruction.
    pub open spec fn pos(self) -> usize {
        self.insns.len() as usize
    }

    /// Whether a trap exit is waiting at `l`.
    pub open spec fn pending(self, l: Label) -> bool {
        exists|j: int| 0 <= j < self.bailouts.len() && (#[trigger] self.bailouts[j]).label == l
    }

    /// Whether `l` was created and is neither bound nor a waiting trap exit.
    pub open spec fn open_label(self, l: Label) -> bool {
        &&& l.0 < self.labels.len()
        &&& self.labels[l.0 as int] is None
        &&& !self.pending(l)
    }

    /// The labels that still have to be bound.
    pub open spec fn unresolved(self) -> Set<Label> {
        Set::new(|l: Label| self.open_label(l))
    }

    /// Whether a safepoint is recorded at position `p`.
    pub open spec fn has_gcpoint(self, p: int) -> bool {
        exists|g: int| 0 <= g < self.gcpoints.len() && (#[trigger] self.gcpoints[g]).0 == p
    }

    /// The calls whose return position has no safepoint yet.
    pub open spec fn uncovered(self) -> Set<int> {
        Set::new(
            |i: int| 0 <= i < self.insns.len() && self.insns[i].is_call() && !self.has_gcpoint(i + 1),
        )
    }

    /// Every jump goes to a label that is bound or is a waiting trap exit.
    pub open spec fn closed(self) -> bool {
        forall|i: int|
            0 <= i < self.insns.len() ==> match (#[trigger] self.insns[i]).target() {
                Some(l) => l.0 < self.labels.len() && !self.open_label(l),
                None => true,
            }
    }

    /// The invariant of an assembler.
    pub open spec fn wf(self) -> bool {
        &&& self.insns.len() <= usize::MAX
        &&& self.labels.len() <= usize::MAX
        &&& forall|l: int|
            0 <= l < self.labels.len() ==> match #[trigger] self.labels[l] {
                Some(p) => p <= self.insns.len(),
                None => true,
            }
        &&& forall|j: int|
            0 <= j < self.bailouts.len() ==> {
                &&& (#[trigger] self.bailouts[j]).label.0 < self.labels.len()
                &&& self.labels[self.bailouts[j].label.0 as int] is None
            }
        &&& forall|j: int, k: int|
            0 <= j < k < self.bailouts.len() ==> (#[trigger] self.bailouts[j]).label != (
            #[trigger] self.bailouts[k]).label
        &&& forall|i: int|
            0 <= i < self.insns.len() ==> match (#[trigger] self.insns[i]).target() {
                Some(l) => l.0 < self.labels.len(),
                None => true,
            }
        &&& forall|g: int|
            0 <= g < self.gcpoints.len() ==> (#[trigger] self.gcpoints[g]).0 <= self.insns.len()
        &&& 0 <= self.dseg.size
    }

    /// Whether positions and pool displacements of what is emitted next
    /// still fit their machine types.
    pub open spec fn fits(self) -> bool {
        self.insns.len() <= CODE_LIMIT && self.dseg.has_room()
    }

    /// The displacement of a pool entry from the next instruction, for an
    /// entry at `disp` from the pool's end.
    pub open spec fn pool_disp(self, disp: i32) -> i32 {
        (disp + self.pos()) as i32
    }

    /// The assembler after `insn` is appended.
    pub open spec fn emit(self, insn: Insn) -> MasmView {
        MasmView { insns: self.insns.push(insn), ..self }
    }

    /// The assembler after a label is created, and that label.
    pub open spec fn create_label(self) -> (MasmView, Label) {
        (MasmView { labels: self.labels.push(None), ..self }, Label(self.labels.len() as usize))
    }

    /// The assembler after `l` is bound to the current position.
    pub open spec fn bind_label(self, l: Label) -> MasmView {
        MasmView { labels: self.labels.update(l.0 as int, Some(self.pos())), ..self }
    }

    /// The assembler after a trap exit is deferred to `l`.
    pub open spec fn emit_bailout(self, l: Label, trap: Trap, pos: Position) -> MasmView {
        MasmView { bailouts: self.bailouts.push(Bailout { label: l, trap, pos }), ..self }
    }

    /// The assembler after a line-number entry for the current position.
    pub open spec fn emit_lineno(self, lineno: i32) -> MasmView {
        MasmView { linenos: self.linenos.push((self.pos(), lineno)), ..self }
    }

    /// The assembler after a trap for `trap` is emitted in place.
    pub open spec fn emit_bailout_inplace(self, trap: Trap, pos: Position) -> MasmView {
        self.emit(Insn::Trap(trap)).emit_lineno(pos.lineno())
    }

    /// The assembler after a safepoint with these live slots is recorded at
    /// the current position.
    pub open spec fn emit_gcpoint(self, refs: Set<i32>) -> MasmView {
        MasmView { gcpoints: self.gcpoints.push((self.pos(), refs)), ..self }
    }

    /// The assembler after a comment is attached to the current position.
    pub open spec fn emit_comment(self, comment: Comment) -> MasmView {
        MasmView { comments: self.comments.push((self.pos(), comment)), ..self }
    }

    /// The assembler after an exception handler is recorded.
    pub open spec fn emit_exception_handler(
        self,
        span: (usize, usize),
        catch: usize,
        offset: Option<i32>,
        catch_type: CatchType,
    ) -> MasmView {
        MasmView {
            handlers: self.handlers.push(
                ExHandler { try_start: span.0, try_end: span.1, catch, offset, catch_type },
            ),
            ..self
        }
    }

    /// The assembler after `ptr` is added to the constant pool, and the
    /// displacement of the new entry.
    pub open spec fn add_addr(self, ptr: u64) -> (MasmView, i32) {
        let dseg = self.dseg.add_addr(ptr);
        (MasmView { dseg, ..self }, dseg.size)
    }

    /// The assembler after the test whether `reg` is null, and the label
    /// that the test jumps to if it is.
    pub open spec fn test_if_nil(self, reg: Reg) -> (MasmView, Label) {
        let (v, l) = self.emit(Insn::CmpZero(MachineMode::Ptr, reg)).create_label();
        (v.emit(Insn::JumpIf(CondCode::Equal, l)), l)
    }

    /// The assembler after the test whether `reg` is null, which raises
    /// `trap` if it is.
    pub open spec fn test_if_nil_bailout(self, pos: Position, reg: Reg, trap: Trap) -> MasmView {
        let (v, l) = self.test_if_nil(reg);
        v.emit_bailout(l, trap, pos)
    }

    /// The assembler after the test of `reg` against zero and the jump to `l`
    /// on `cond`.
    pub open spec fn test_and_jump_if(self, cond: CondCode, reg: Reg, l: Label) -> MasmView {
        self.emit(Insn::CmpZero(MachineMode::Int32, reg)).emit(Insn::JumpIf(cond, l))
    }

    /// The assembler after the bounds check of `index` against the length of
    /// `array`, which raises `INDEX_OUT_OF_BOUNDS` if the index is not below
    /// the length; `temp` is overwritten.
    pub open spec fn check_index_out_of_bounds(
        self,
        pos: Position,
        array: Reg,
        index: Reg,
        temp: Reg,
    ) -> MasmView {
        let (v, l) = self.emit(
            Insn::LoadMem(MachineMode::Int32, temp, Mem::Base(array, offset_of_array_length())),
        ).emit(Insn::CmpReg(MachineMode::Int32, index, temp)).create_label();
        v.emit(Insn::JumpIf(CondCode::UnsignedGreaterEq, l)).emit_bailout(
            l,
            Trap::INDEX_OUT_OF_BOUNDS,
            pos,
        )
    }

    /// The assembler after the load of element `index` of `array`.
    pub open spec fn load_array_elem(
        self,
        mode: MachineMode,
        dest: Reg,
        array: Reg,
        index: Reg,
    ) -> MasmView {
        self.emit(
            Insn::LoadMem(mode, dest, Mem::Index(array, index, mode.size(), offset_of_array_data())),
        )
    }

    /// The assembler after the store of `value` to element `index` of `array`.
    pub open spec fn store_array_elem(
        self,
        mode: MachineMode,
        array: Reg,
        index: Reg,
        value: Reg,
    ) -> MasmView {
        self.emit(
            Insn::StoreMem(
                mode,
                Mem::Index(array, index, mode.size(), offset_of_array_data()),
                value,
            ),
        )
    }

    /// The assembler after a division or remainder, which raises `DIV0` if
    /// `rhs` is zero.
    pub open spec fn checked_div(
        self,
        op: IntOp,
        mode: MachineMode,
        dest: Reg,
        lhs: Reg,
        rhs: Reg,
    ) -> MasmView {
        let (v, l) = self.emit(Insn::CmpZero(mode, rhs)).create_label();
        v.emit(Insn::JumpIf(CondCode::Zero, l)).emit_bailout(
            l,
            Trap::DIV0,
            Position { line: 1, column: 1 },
        ).emit(Insn::IntArith(op, mode, dest, lhs, rhs))
    }

    /// The assembler after a single-precision or double-precision literal,
    /// given by its bits, is added to the pool and loaded from it.
    pub open spec fn load_float_const(self, mode: MachineMode, dest: FReg, bits: u64) -> MasmView {
        let dseg = if mode == MachineMode::Float32 {
            self.dseg.add_float(bits as u32)
        } else {
            self.dseg.add_double(bits)
        };
        MasmView { dseg, ..self }.emit(
            Insn::LoadFloatConst(mode, dest, (dseg.size + self.pos()) as i32),
        )
    }

    /// The assembler after a call of the function at `ptr`: the address goes
    /// to the pool, is loaded from it and called.
    pub open spec fn direct_call(self, ptr: u64) -> MasmView {
        let (v, disp) = self.add_addr(ptr);
        v.emit(Insn::LoadConstPool(REG_RESULT, v.pool_disp(disp))).emit(
            Insn::CallReg(REG_RESULT),
        )
    }

    /// The assembler after a call of method `index` of the receiver in the
    /// first parameter register, through its dispatch table.
    pub open spec fn indirect_call(self, index: u32) -> MasmView {
        self.emit(Insn::LoadMem(MachineMode::Ptr, REG_RESULT, Mem::Base(REG_PARAMS[0], 0))).emit(
            Insn::LoadMem(
                MachineMode::Ptr,
                REG_RESULT,
                Mem::Base(REG_RESULT, (offset_of_method_table() + index * PTR_WIDTH) as i32),
            ),
        ).emit(Insn::CallReg(REG_RESULT))
    }

    /// The assembler after the trap exit `b` is placed at the current
    /// position.
    pub open spec fn place_bailout(self, b: Bailout) -> MasmView {
        MasmView {
            labels: self.labels.update(b.label.0 as int, Some(self.pos())),
            ..self
        }.emit(Insn::Trap(b.trap)).emit_lineno(b.pos.lineno())
    }

    /// The assembler after the first `n` waiting trap exits are placed, in
    /// the order in which they were deferred.
    pub open spec fn place_bailouts(self, n: nat) -> MasmView
        decreases n,
    {
        if n == 0 {
            self
        } else {
            self.place_bailouts((n - 1) as nat).place_bailout(self.bailouts[n - 1])
        }
    }

    /// The finished listing: every waiting trap exit placed behind the code.
    pub open spec fn finish(self) -> MasmView {
        MasmView { bailouts: Seq::empty(), ..self.place_bailouts(self.bailouts.len()) }
    }
}

impl MasmView {
    /// `self` is `old` with `insn` appended, and is as well formed, with the
    /// same labels to bind and the same calls to cover.
    pub open spec fn emitted(self, old: MasmView, insn: Insn) -> bool {
        &&& self == old.emit(insn)
        &&& self.wf()
        &&& self.unresolved() == old.unresolved()
        &&& self.uncovered() == old.uncovered()
    }

    /// `self` is `old` with instructions and labels added: what `old` holds
    /// is still there, at its place.
    pub open spec fn extends(self, old: MasmView) -> bool {
        &&& old.insns.len() <= self.insns.len()
        &&& forall|i: int| 0 <= i < old.insns.len() ==> #[trigger] self.insns[i] == old.insns[i]
        &&& old.labels.len() <= self.labels.len()
        &&& forall|l: int| 0 <= l < old.labels.len() ==> #[trigger] self.labels[l] == old.labels[l]
    }

    /// `self` is as well formed as `old`, with the same labels to bind and
    /// the same calls to cover.
    pub open spec fn keeps(self, old: MasmView) -> bool {
        &&& self.wf()
        &&& self.unresolved() == old.unresolved()
        &&& self.uncovered() == old.uncovered()
    }
}

/// Appending an instruction that is neither a call nor a jump to an unknown
/// label keeps the invariant, the labels to bind and the calls to cover.
proof fn lemma_emit(v: MasmView, insn: Insn)
    requires
        v.wf(),
        v.insns.len() < usize::MAX,
        !insn.is_call(),
        insn.target() matches Some(l) ==> l.0 < v.labels.len(),
    ensures
        v.emit(insn).emitted(v, insn),
{
    let w = v.emit(insn);
    assert forall|i: int| 0 <= i < w.insns.len() implies match (#[trigger] w.insns[i]).target() {
        Some(l) => l.0 < w.labels.len(),
        None => true,
    } by {
        if i < v.insns.len() {
            assert(w.insns[i] == v.insns[i]);
        }
    }
    assert forall|l: Label| w.open_label(l) == v.open_label(l) by {
        lemma_pending_same(v, w, l);
    }
    assert(w.unresolved() =~= v.unresolved());
    assert forall|i: int| w.uncovered().contains(i) == v.uncovered().contains(i) by {
        lemma_gcpoint_same(v, w, i + 1);
        if 0 <= i < v.insns.len() {
            assert(w.insns[i] == v.insns[i]);
        }
    }
    assert(w.uncovered() =~= v.uncovered());
}

/// Appending a call keeps the invariant and the labels to bind, and leaves
/// the call to be covered.
proof fn lemma_emit_call(v: MasmView, reg: Reg)
    requires
        v.wf(),
        v.insns.len() < usize::MAX,
    ensures
        v.emit(Insn::CallReg(reg)).wf(),
        v.emit(Insn::CallReg(reg)).unresolved() == v.unresolved(),
        v.emit(Insn::CallReg(reg)).uncovered() == v.uncovered().insert(v.insns.len() as int),
        !v.uncovered().contains(v.insns.len() as int),
{
    let insn = Insn::CallReg(reg);
    let w = v.emit(insn);
    assert forall|i: int| 0 <= i < w.insns.len() implies match (#[trigger] w.insns[i]).target() {
        Some(l) => l.0 < w.labels.len(),
        None => true,
    } by {
        if i < v.insns.len() {
            assert(w.insns[i] == v.insns[i]);
        }
    }
    assert forall|l: Label| w.open_label(l) == v.open_label(l) by {
        lemma_pending_same(v, w, l);
    }
    assert(w.unresolved() =~= v.unresolved());
    assert(!v.has_gcpoint(v.insns.len() as int + 1)) by {
        if v.has_gcpoint(v.insns.len() as int + 1) {
            let g = choose|g: int|
                0 <= g < v.gcpoints.len() && (#[trigger] v.gcpoints[g]).0 == v.insns.len() + 1;
            assert(v.gcpoints[g].0 <= v.insns.len());
        }
    }
    assert forall|i: int|
        w.uncovered().contains(i) == v.uncovered().insert(v.insns.len() as int).contains(i) by {
        lemma_gcpoint_same(v, w, i + 1);
        if 0 <= i < v.insns.len() {
            assert(w.insns[i] == v.insns[i]);
        }
    }
    assert(w.uncovered() =~= v.uncovered().insert(v.insns.len() as int));
}

/// A new label is one more label to bind.
proof fn lemma_create_label(v: MasmView)
    requires
        v.wf(),
        v.labels.len() < usize::MAX,
    ensures
        v.create_label().0.wf(),
        v.create_label().0.open_label(v.create_label().1),
        !v.unresolved().contains(v.create_label().1),
        v.create_label().0.unresolved() == v.unresolved().insert(v.create_label().1),
        v.create_label().0.uncovered() == v.uncovered(),
{
    let (w, n) = v.create_label();
    assert forall|l: int| 0 <= l < w.labels.len() implies match #[trigger] w.labels[l] {
        Some(p) => p <= w.insns.len(),
        None => true,
    } by {
        if l < v.labels.len() {
            assert(w.labels[l] == v.labels[l]);
        }
    }
    assert forall|j: int| 0 <= j < w.bailouts.len() implies {
        &&& (#[trigger] w.bailouts[j]).label.0 < w.labels.len()
        &&& w.labels[w.bailouts[j].label.0 as int] is None
    } by {
        assert(v.bailouts[j].label.0 < v.labels.len());
        assert(w.labels[v.bailouts[j].label.0 as int] == v.labels[v.bailouts[j].label.0 as int]);
    }
    assert(!v.pending(n)) by {
        if v.pending(n) {
            let j = choose|j: int| 0 <= j < v.bailouts.len() && (#[trigger] v.bailouts[j]).label == n;
            assert(v.bailouts[j].label.0 < v.labels.len());
        }
    }
    assert(w.bailouts == v.bailouts);
    assert forall|l: Label| w.pending(l) == v.pending(l) by {
        lemma_pending_same(v, w, l);
    }
    assert(w.labels[n.0 as int] is None);
    assert(w.open_label(n));
    assert forall|l: Label| w.unresolved().contains(l) == v.unresolved().insert(n).contains(l) by {
        if l.0 < v.labels.len() {
            assert(w.labels[l.0 as int] == v.labels[l.0 as int]);
        }
    }
    assert(w.unresolved() =~= v.unresolved().insert(n));
    assert(w.insns == v.insns && w.gcpoints == v.gcpoints);
    assert forall|i: int| w.uncovered().contains(i) == v.uncovered().contains(i) by {
        lemma_gcpoint_same(v, w, i + 1);
    }
    assert(w.uncovered() =~= v.uncovered());
}

/// Whether a trap exit waits at a label depends on the deferred exits alone.
proof fn lemma_pending_same(v: MasmView, w: MasmView, l: Label)
    requires
        v.bailouts == w.bailouts,
    ensures
        v.pending(l) == w.pending(l),
{
    if v.pending(l) {
        let j = choose|j: int| 0 <= j < v.bailouts.len() && (#[trigger] v.bailouts[j]).label == l;
        assert(w.bailouts[j].label == l);
    }
    if w.pending(l) {
        let j = choose|j: int| 0 <= j < w.bailouts.len() && (#[trigger] w.bailouts[j]).label == l;
        assert(v.bailouts[j].label == l);
    }
}

/// Whether a position has a safepoint depends on the safepoint table alone.
proof fn lemma_gcpoint_same(v: MasmView, w: MasmView, p: int)
    requires
        v.gcpoints == w.gcpoints,
    ensures
        v.has_gcpoint(p) == w.has_gcpoint(p),
{
    if v.has_gcpoint(p) {
        let g = choose|g: int| 0 <= g < v.gcpoints.len() && (#[trigger] v.gcpoints[g]).0 == p;
        assert(w.gcpoints[g].0 == p);
    }
    if w.has_gcpoint(p) {
        let g = choose|g: int| 0 <= g < w.gcpoints.len() && (#[trigger] w.gcpoints[g]).0 == p;
        assert(v.gcpoints[g].0 == p);
    }
}

/// Binding a label takes it from the labels to bind.
proof fn lemma_bind_label(v: MasmView, l: Label)
    requires
        v.wf(),
        v.open_label(l),
    ensures
        v.bind_label(l).wf(),
        v.bind_label(l).unresolved() == v.unresolved().remove(l),
        v.bind_label(l).uncovered() == v.uncovered(),
{
    let w = v.bind_label(l);
    assert forall|j: int| 0 <= j < w.bailouts.len() implies {
        &&& (#[trigger] w.bailouts[j]).label.0 < w.labels.len()
        &&& w.labels[w.bailouts[j].label.0 as int] is None
    } by {
        assert(v.bailouts[j].label.0 < v.labels.len());
        assert(v.bailouts[j].label != l);
    }
    assert forall|k: Label| w.unresolved().contains(k) == v.unresolved().remove(l).contains(k) by {
        lemma_pending_same(v, w, k);
    }
    assert(w.unresolved() =~= v.unresolved().remove(l));
    assert forall|i: int| w.uncovered().contains(i) == v.uncovered().contains(i) by {
        lemma_gcpoint_same(v, w, i + 1);
    }
    assert(w.uncovered() =~= v.uncovered());
}

/// Deferring a trap exit to a label takes it from the labels to bind.
proof fn lemma_emit_bailout(v: MasmView, l: Label, trap: Trap, pos: Position)
    requires
        v.wf(),
        v.open_label(l),
    ensures
        v.emit_bailout(l, trap, pos).wf(),
        v.emit_bailout(l, trap, pos).unresolved() == v.unresolved().remove(l),
        v.emit_bailout(l, trap, pos).uncovered() == v.uncovered(),
{
    let w = v.emit_bailout(l, trap, pos);
    let n = v.bailouts.len() as int;
    assert(w.bailouts[n].label == l);
    assert forall|j: int, k: int| 0 <= j < k < w.bailouts.len() implies (#[trigger] w.bailouts[j]).label
        != (#[trigger] w.bailouts[k]).label by {
        if k == n {
            assert(w.bailouts[j] == v.bailouts[j]);
        }
    }
    assert forall|k: Label| w.unresolved().contains(k) == v.unresolved().remove(l).contains(k) by {
        if k == l {
            assert(w.pending(l));
        } else {
            if v.pending(k) {
                let j = choose|j: int|
                    0 <= j < v.bailouts.len() && (#[trigger] v.bailouts[j]).label == k;
                assert(w.bailouts[j].label == k);
            }
            if w.pending(k) {
                let j = choose|j: int|
                    0 <= j < w.bailouts.len() && (#[trigger] w.bailouts[j]).label == k;
                assert(v.bailouts[j].label == k);
            }
        }
    }
    assert(w.unresolved() =~= v.unresolved().remove(l));
    assert forall|i: int| w.uncovered().contains(i) == v.uncovered().contains(i) by {
        lemma_gcpoint_same(v, w, i + 1);
    }
    assert(w.uncovered() =~= v.uncovered());
}

/// A safepoint covers the call that ends just before it.
proof fn lemma_emit_gcpoint(v: MasmView, refs: Set<i32>)
    requires
        v.wf(),
    ensures
        v.emit_gcpoint(refs).wf(),
        v.emit_gcpoint(refs).unresolved() == v.unresolved(),
        v.emit_gcpoint(refs).uncovered() == v.uncovered().remove(v.insns.len() - 1),
{
    let w = v.emit_gcpoint(refs);
    let n = v.gcpoints.len() as int;
    assert(w.gcpoints[n].0 == v.insns.len());
    assert forall|g: int| 0 <= g < w.gcpoints.len() implies (#[trigger] w.gcpoints[g]).0
        <= w.insns.len() by {
        if g < n {
            assert(w.gcpoints[g] == v.gcpoints[g]);
        }
    }
    assert forall|k: Label| w.unresolved().contains(k) == v.unresolved().contains(k) by {
        lemma_pending_same(v, w, k);
    }
    assert(w.unresolved() =~= v.unresolved());
    assert forall|i: int|
        w.uncovered().contains(i) == v.uncovered().remove(v.insns.len() - 1).contains(i) by {
        if i == v.insns.len() - 1 {
            assert(w.has_gcpoint(i + 1));
        } else {
            if v.has_gcpoint(i + 1) {
                let g = choose|g: int|
                    0 <= g < v.gcpoints.len() && (#[trigger] v.gcpoints[g]).0 == i + 1;
                assert(w.gcpoints[g].0 == i + 1);
            }
            if w.has_gcpoint(i + 1) {
                let g = choose|g: int|
                    0 <= g < w.gcpoints.len() && (#[trigger] w.gcpoints[g]).0 == i + 1;
                assert(v.gcpoints[g].0 == i + 1);
            }
        }
    }
    assert(w.uncovered() =~= v.uncovered().remove(v.insns.len() - 1));
}

/// What does not touch instructions, labels, trap exits and safepoints
/// keeps the invariant, the labels to bind and the calls to cover.
proof fn lemma_tables(v: MasmView, w: MasmView)
    requires
        v.wf(),
        w.insns == v.insns,
        w.labels == v.labels,
        w.bailouts == v.bailouts,
        w.gcpoints == v.gcpoints,
        0 <= w.dseg.size,
    ensures
        w.keeps(v),
{
    assert forall|k: Label| w.unresolved().contains(k) == v.unresolved().contains(k) by {
        lemma_pending_same(v, w, k);
    }
    assert(w.unresolved() =~= v.unresolved());
    assert forall|i: int| w.uncovered().contains(i) == v.uncovered().contains(i) by {
        lemma_gcpoint_same(v, w, i + 1);
    }
    assert(w.uncovered() =~= v.uncovered());
}

/// The macro assembler.
#[derive(Debug)]
pub struct MacroAssembler {
    insns: Vec<Insn>,
    labels: Vec<Option<usize>>,
    bailouts: Vec<Bailout>,
    dseg: DSeg,
    gcpoints: Vec<(usize, GcPoint)>,
    linenos: Vec<(usize, i32)>,
    comments: Vec<(usize, Comment)>,
    handlers: Vec<ExHandler>,
}

impl View for MacroAssembler {
    type V = MasmView;

    closed spec fn view(&self) -> MasmView {
        MasmView {
            insns: self.insns@,
            labels: self.labels@,
            bailouts: self.bailouts@,
            dseg: self.dseg@,
            gcpoints: self.gcpoints@.map_values(|g: (usize, GcPoint)| (g.0, g.1@)),
            linenos: self.linenos@,
            comments: self.comments@,
            handlers: self.handlers@,
        }
    }
}

impl MacroAssembler {
    /// The invariant: that of the assembler's value.
    pub open spec fn wf(&self) -> bool {
        self@.wf()
    }

    /// An assembler that holds nothing yet.
    pub fn new() -> (m: MacroAssembler)
        ensures
            m@ == MasmView::empty(),
            m.wf(),
            m@.unresolved() == Set::<Label>::empty(),
            m@.uncovered() == Set::<int>::empty(),
    {
        let m = MacroAssembler {
            insns: Vec::new(),
            labels: Vec::new(),
            bailouts: Vec::new(),
            dseg: DSeg::new(),
            gcpoints: Vec::new(),
            linenos: Vec::new(),
            comments: Vec::new(),
            handlers: Vec::new(),
        };
        assert(m@ =~= MasmView::empty());
        assert(m@.unresolved() =~= Set::<Label>::empty());
        assert(m@.uncovered() =~= Set::<int>::empty());
        m
    }

    /// The position of the next instruction.
    pub fn pos(&self) -> (p: usize)
        ensures
            p == self@.pos(),
            p == self@.insns.len(),
    {
        self.insns.len()
    }

    /// The displacement from the next instruction of the pool entry at
    /// `disp` from the pool's end.
    pub fn pool_disp(&self, disp: i32) -> (r: i32)
        requires
            self@.insns.len() <= CODE_LIMIT,
            0 <= disp <= crate::dseg::DSEG_LIMIT + 16,
        ensures
            r == self@.pool_disp(disp),
            r == disp + self@.insns.len(),
    {
        disp + self.insns.len() as i32
    }

    /// Whether what is emitted next still fits the machine types of
    /// positions and pool displacements.
    pub fn fits(&self) -> (r: bool)
        requires
            self.wf(),
        ensures
            r == self@.fits(),
    {
        self.insns.len() <= CODE_LIMIT && self.dseg.size() <= crate::dseg::DSEG_LIMIT
    }

    fn emit(&mut self, insn: Insn)
        requires
            old(self).wf(),
            !insn.is_call(),
            insn.target() matches Some(l) ==> l.0 < old(self)@.labels.len(),
        ensures
            final(self)@.emitted(old(self)@, insn),
    {
        self.insns.push(insn);
        proof {
            assert(self.insns.len() == old(self).insns@.len() + 1);
            lemma_emit(old(self)@, insn);
            assert(self@ =~= old(self)@.emit(insn));
        }
    }

    fn call_reg(&mut self, reg: Reg)
        requires
            old(self).wf(),
        ensures
            final(self)@ == old(self)@.emit(Insn::CallReg(reg)),
            final(self).wf(),
            final(self)@.unresolved() == old(self)@.unresolved(),
            final(self)@.uncovered() == old(self)@.uncovered().insert(old(self)@.insns.len() as int),
            !old(self)@.uncovered().contains(old(self)@.insns.len() as int),
    {
        self.insns.push(Insn::CallReg(reg));
        proof {
            assert(self.insns.len() == old(self).insns@.len() + 1);
            lemma_emit_call(old(self)@, reg);
            assert(self@ =~= old(self)@.emit(Insn::CallReg(reg)));
        }
    }

    /// Creates a label, which has to be bound or given a trap exit later.
    pub fn create_label(&mut self) -> (l: Label)
        requires
            old(self).wf(),
        ensures
            final(self)@ == old(self)@.create_label().0,
            l == old(self)@.create_label().1,
            final(self).wf(),
            final(self)@.open_label(l),
            !old(self)@.unresolved().contains(l),
            final(self)@.unresolved() == old(self)@.unresolved().insert(l),
            final(self)@.uncovered() == old(self)@.uncovered(),
    {
        let idx = self.labels.len();
        self.labels.push(None);
        proof {
            assert(self.labels.len() == old(self).labels@.len() + 1);
            lemma_create_label(old(self)@);
            assert(self@ =~= old(self)@.create_label().0);
        }
        Label(idx)
    }

    /// Binds `lbl` to the current position.
    pub fn bind_label(&mut self, lbl: Label)
        requires
            old(self).wf(),
            old(self)@.open_label(lbl),
        ensures
            final(self)@ == old(self)@.bind_label(lbl),
            final(self).wf(),
            final(self)@.unresolved() == old(self)@.unresolved().remove(lbl),
            final(self)@.uncovered() == old(self)@.uncovered(),
    {
        let pos = self.insns.len();
        self.labels.set(lbl.0, Some(pos));
        proof {
            lemma_bind_label(old(self)@, lbl);
            assert(self@ =~= old(self)@.bind_label(lbl));
        }
    }

    /// Defers a trap exit for `trap`, raised at `pos` in the source, to
    /// `lbl`: it is placed behind the code when the listing is finished.
    pub fn emit_bailout(&mut self, lbl: Label, trap: Trap, pos: Position)
        requires
            old(self).wf(),
            old(self)@.open_label(lbl),
        ensures
            final(self)@ == old(self)@.emit_bailout(lbl, trap, pos),
            final(self).wf(),
            final(self)@.unresolved() == old(self)@.unresolved().remove(lbl),
            final(self)@.uncovered() == old(self)@.uncovered(),
    {
        self.bailouts.push(Bailout { label: lbl, trap, pos });
        proof {
            lemma_emit_bailout(old(self)@, lbl, trap, pos);
            assert(self@ =~= old(self)@.emit_bailout(lbl, trap, pos));
        }
    }

    /// Records the source line of the current position.
    pub fn emit_lineno(&mut self, lineno: i32)
        requires
            old(self).wf(),
        ensures
            final(self)@ == old(self)@.emit_lineno(lineno),
            final(self)@.keeps(old(self)@),
    {
        let pos = self.insns.len();
        self.linenos.push((pos, lineno));
        proof {
            assert(self@ =~= old(self)@.emit_lineno(lineno));
            lemma_tables(old(self)@, self@);
        }
    }

    /// Emits the trap for `trap` at the current position.
    pub fn emit_bailout_inplace(&mut self, trap: Trap, pos: Position)
        requires
            old(self).wf(),
        ensures
            final(self)@ == old(self)@.emit_bailout_inplace(trap, pos),
            final(self)@.keeps(old(self)@),
    {
        self.emit(Insn::Trap(trap));
        self.emit_lineno(pos.lineno());
    }

    /// Records a safepoint at the current position.
    pub fn emit_gcpoint(&mut self, gcpoint: GcPoint)
        requires
            old(self).wf(),
        ensures
            final(self)@ == old(self)@.emit_gcpoint(gcpoint@),
            final(self).wf(),
            final(self)@.unresolved() == old(self)@.unresolved(),
            final(self)@.uncovered() == old(self)@.uncovered().remove(old(self)@.insns.len() - 1),
    {
        let pos = self.insns.len();
        let ghost refs = gcpoint@;
        self.gcpoints.push((pos, gcpoint));
        proof {
            lemma_emit_gcpoint(old(self)@, refs);
            assert(self@.gcpoints =~= old(self)@.gcpoints.push((pos, refs)));
            assert(self@ =~= old(self)@.emit_gcpoint(refs));
        }
    }

    /// Attaches a comment to the current position.
    pub fn emit_comment(&mut self, comment: Comment)
        requires
            old(self).wf(),
        ensures
            final(self)@ == old(self)@.emit_comment(comment),
            final(self)@.keeps(old(self)@),
    {
        let pos = self.insns.len();
        self.comments.push((pos, comment));
        proof {
            assert(self@ =~= old(self)@.emit_comment(comment));
            lemma_tables(old(self)@, self@);
        }
    }

    /// Records that an exception raised in `span` resumes at `catch`.
    pub fn emit_exception_handler(
        &mut self,
        span: (usize, usize),
        catch: usize,
        offset: Option<i32>,
        catch_type: CatchType,
    )
        requires
            old(self).wf(),
        ensures
            final(self)@ == old(self)@.emit_exception_handler(span, catch, offset, catch_type),
            final(self)@.keeps(old(self)@),
    {
        self.handlers.push(
            ExHandler { try_start: span.0, try_end: span.1, catch, offset, catch_type },
        );
        proof {
            assert(self@ =~= old(self)@.emit_exception_handler(span, catch, offset, catch_type));
            lemma_tables(old(self)@, self@);
        }
    }

    /// Appends `ptr` to the constant pool and returns its displacement.
    pub fn add_addr(&mut self, ptr: u64) -> (disp: i32)
        requires
            old(self).wf(),
            old(self)@.dseg.has_room(),
        ensures
            final(self)@ == old(self)@.add_addr(ptr).0,
            disp == old(self)@.add_addr(ptr).1,
            final(self)@.keeps(old(self)@),
            old(self)@.dseg.size + 8 <= disp < old(self)@.dseg.size + 16,
    {
        let disp = self.dseg.add_addr(ptr);
        proof {
            assert(self@ =~= old(self)@.add_addr(ptr).0);
            lemma_tables(old(self)@, self@);
        }
        disp
    }
}

impl MacroAssembler {
    /// Emits a breakpoint.
    pub fn debug(&mut self)
        requires
            old(self).wf(),
        ensures
            final(self)@.emitted(old(self)@, Insn::Debug),
    {
        self.emit(Insn::Debug);
    }

    /// Emits the function entry: a frame with `stacksize` bytes below the frame
    /// pointer.
    pub fn prolog(&mut self, stacksize: i32)
        requires
            old(self).wf(),
        ensures
            final(self)@.emitted(old(self)@, Insn::Prolog(stacksize)),
    {
        self.emit(Insn::Prolog(stacksize));
    }

    /// Emits the function exit: the frame is torn down and control returns to
    /// the caller.
    pub fn epilog(&mut self, stacksize: i32)
        requires
            old(self).wf(),
        ensures
            final(self)@.emitted(old(self)@, Insn::Epilog(stacksize)),
    {
        self.emit(Insn::Epilog(stacksize));
    }

    /// Emits `dest := [mem]`.
    pub fn load_mem(&mut self, mode: MachineMode, dest: Reg, mem: Mem)
        requires
            old(self).wf(),
        ensures
            final(self)@.emitted(old(self)@, Insn::LoadMem(mode, dest, mem)),
    {
        self.emit(Insn::LoadMem(mode, dest, mem));
    }

    /// Emits `dest := [mem]` for a floating-point register.
    pub fn loadf_mem(&mut self, mode: MachineMode, dest: FReg, mem: Mem)
        requires
            old(self).wf(),
        ensures
            final(self)@.emitted(old(self)@, Insn::LoadfMem(mode, dest, mem)),
    {
        self.emit(Insn::LoadfMem(mode, dest, mem));
    }

    /// Emits `[mem] := src`.
    pub fn store_mem(&mut self, mode: MachineMode, mem: Mem, src: Reg)
        requires
            old(self).wf(),
        ensures
            final(self)@.emitted(old(self)@, Insn::StoreMem(mode, mem, src)),
    {
        self.emit(Insn::StoreMem(mode, mem, src));
    }

    /// Emits `[mem] := src` for a floating-point register.
    pub fn storef_mem(&mut self, mode: MachineMode, mem: Mem, src: FReg)
        requires
            old(self).wf(),
        ensures
            final(self)@.emitted(old(self)@, Insn::StorefMem(mode, mem, src)),
    {
        self.emit(Insn::StorefMem(mode, mem, src));
    }

    /// Emits `dest := src`.
    pub fn copy_reg(&mut self, mode: MachineMode, dest: Reg, src: Reg)
        requires
            old(self).wf(),
        ensures
            final(self)@.emitted(old(self)@, Insn::CopyReg(mode, dest, src)),
    {
        self.emit(Insn::CopyReg(mode, dest, src));
    }

    /// Emits `dest := src` for floating-point registers.
    pub fn copy_freg(&mut self, mode: MachineMode, dest: FReg, src: FReg)
        requires
            old(self).wf(),
        ensures
            final(self)@.emitted(old(self)@, Insn::CopyFreg(mode, dest, src)),
    {
        self.emit(Insn::CopyFreg(mode, dest, src));
    }

    /// Emits `dest := imm`.
    pub fn load_int_const(&mut self, mode: MachineMode, dest: Reg, imm: i64)
        requires
            old(self).wf(),
        ensures
            final(self)@.emitted(old(self)@, Insn::LoadIntConst(mode, dest, imm)),
    {
        self.emit(Insn::LoadIntConst(mode, dest, imm));
    }

    /// Emits `dest := 1`, the boolean `true`.
    pub fn load_true(&mut self, dest: Reg)
        requires
            old(self).wf(),
        ensures
            final(self)@.emitted(old(self)@, Insn::LoadIntConst(MachineMode::Int32, dest, 1)),
    {
        self.emit(Insn::LoadIntConst(MachineMode::Int32, dest, 1));
    }

    /// Emits `dest := 0`, the boolean `false`.
    pub fn load_false(&mut self, dest: Reg)
        requires
            old(self).wf(),
        ensures
            final(self)@.emitted(old(self)@, Insn::LoadIntConst(MachineMode::Int32, dest, 0)),
    {
        self.emit(Insn::LoadIntConst(MachineMode::Int32, dest, 0));
    }

    /// Emits `dest := 0`, the null reference.
    pub fn load_nil(&mut self, dest: Reg)
        requires
            old(self).wf(),
        ensures
            final(self)@.emitted(old(self)@, Insn::LoadIntConst(MachineMode::Ptr, dest, 0)),
    {
        self.emit(Insn::LoadIntConst(MachineMode::Ptr, dest, 0));
    }

    /// Emits the load of the pool entry that lies `disp` bytes before the
    /// instruction.
    pub fn load_constpool(&mut self, dest: Reg, disp: i32)
        requires
            old(self).wf(),
        ensures
            final(self)@.emitted(old(self)@, Insn::LoadConstPool(dest, disp)),
    {
        self.emit(Insn::LoadConstPool(dest, disp));
    }

    /// Emits `dest := -src`.
    pub fn int_neg(&mut self, mode: MachineMode, dest: Reg, src: Reg)
        requires
            old(self).wf(),
        ensures
            final(self)@.emitted(old(self)@, Insn::IntNeg(mode, dest, src)),
    {
        self.emit(Insn::IntNeg(mode, dest, src));
    }

    /// Emits `dest := !src`, bit by bit.
    pub fn int_not(&mut self, mode: MachineMode, dest: Reg, src: Reg)
        requires
            old(self).wf(),
        ensures
            final(self)@.emitted(old(self)@, Insn::IntNot(mode, dest, src)),
    {
        self.emit(Insn::IntNot(mode, dest, src));
    }

    /// Emits `dest := src ^ 1`.
    pub fn bool_not(&mut self, dest: Reg, src: Reg)
        requires
            old(self).wf(),
        ensures
            final(self)@.emitted(old(self)@, Insn::BoolNot(dest, src)),
    {
        self.emit(Insn::BoolNot(dest, src));
    }

    /// Emits `dest := lhs + rhs`.
    pub fn int_add(&mut self, mode: MachineMode, dest: Reg, lhs: Reg, rhs: Reg)
        requires
            old(self).wf(),
        ensures
            final(self)@.emitted(old(self)@, Insn::IntArith(IntOp::Add, mode, dest, lhs, rhs)),
    {
        self.emit(Insn::IntArith(IntOp::Add, mode, dest, lhs, rhs));
    }

    /// Emits `dest := lhs - rhs`.
    pub fn int_sub(&mut self, mode: MachineMode, dest: Reg, lhs: Reg, rhs: Reg)
        requires
            old(self).wf(),
        ensures
            final(self)@.emitted(old(self)@, Insn::IntArith(IntOp::Sub, mode, dest, lhs, rhs)),
    {
        self.emit(Insn::IntArith(IntOp::Sub, mode, dest, lhs, rhs));
    }

    /// Emits `dest := lhs * rhs`.
    pub fn int_mul(&mut self, mode: MachineMode, dest: Reg, lhs: Reg, rhs: Reg)
        requires
            old(self).wf(),
        ensures
            final(self)@.emitted(old(self)@, Insn::IntArith(IntOp::Mul, mode, dest, lhs, rhs)),
    {
        self.emit(Insn::IntArith(IntOp::Mul, mode, dest, lhs, rhs));
    }

    /// Emits `dest := lhs | rhs`.
    pub fn int_or(&mut self, mode: MachineMode, dest: Reg, lhs: Reg, rhs: Reg)
        requires
            old(self).wf(),
        ensures
            final(self)@.emitted(old(self)@, Insn::IntArith(IntOp::Or, mode, dest, lhs, rhs)),
    {
        self.emit(Insn::IntArith(IntOp::Or, mode, dest, lhs, rhs));
    }

    /// Emits `dest := lhs & rhs`.
    pub fn int_and(&mut self, mode: MachineMode, dest: Reg, lhs: Reg, rhs: Reg)
        requires
            old(self).wf(),
        ensures
            final(self)@.emitted(old(self)@, Insn::IntArith(IntOp::And, mode, dest, lhs, rhs)),
    {
        self.emit(Insn::IntArith(IntOp::And, mode, dest, lhs, rhs));
    }

    /// Emits `dest := lhs ^ rhs`.
    pub fn int_xor(&mut self, mode: MachineMode, dest: Reg, lhs: Reg, rhs: Reg)
        requires
            old(self).wf(),
        ensures
            final(self)@.emitted(old(self)@, Insn::IntArith(IntOp::Xor, mode, dest, lhs, rhs)),
    {
        self.emit(Insn::IntArith(IntOp::Xor, mode, dest, lhs, rhs));
    }

    /// Emits `dest := lhs << rhs`.
    pub fn int_shl(&mut self, mode: MachineMode, dest: Reg, lhs: Reg, rhs: Reg)
        requires
            old(self).wf(),
        ensures
            final(self)@.emitted(old(self)@, Insn::IntArith(IntOp::Shl, mode, dest, lhs, rhs)),
    {
        self.emit(Insn::IntArith(IntOp::Shl, mode, dest, lhs, rhs));
    }

    /// Emits `dest := lhs >> rhs`, keeping the sign.
    pub fn int_sar(&mut self, mode: MachineMode, dest: Reg, lhs: Reg, rhs: Reg)
        requires
            old(self).wf(),
        ensures
            final(self)@.emitted(old(self)@, Insn::IntArith(IntOp::Sar, mode, dest, lhs, rhs)),
    {
        self.emit(Insn::IntArith(IntOp::Sar, mode, dest, lhs, rhs));
    }

    /// Emits `dest := lhs >> rhs`, filling with zeros.
    pub fn int_shr(&mut self, mode: MachineMode, dest: Reg, lhs: Reg, rhs: Reg)
        requires
            old(self).wf(),
        ensures
            final(self)@.emitted(old(self)@, Insn::IntArith(IntOp::Shr, mode, dest, lhs, rhs)),
    {
        self.emit(Insn::IntArith(IntOp::Shr, mode, dest, lhs, rhs));
    }

    /// Emits `dest := lhs + rhs` in floating point.
    pub fn float_add(&mut self, mode: MachineMode, dest: FReg, lhs: FReg, rhs: FReg)
        requires
            old(self).wf(),
        ensures
            final(self)@.emitted(old(self)@, Insn::FloatArith(FloatOp::Add, mode, dest, lhs, rhs)),
    {
        self.emit(Insn::FloatArith(FloatOp::Add, mode, dest, lhs, rhs));
    }

    /// Emits `dest := lhs - rhs` in floating point.
    pub fn float_sub(&mut self, mode: MachineMode, dest: FReg, lhs: FReg, rhs: FReg)
        requires
            old(self).wf(),
        ensures
            final(self)@.emitted(old(self)@, Insn::FloatArith(FloatOp::Sub, mode, dest, lhs, rhs)),
    {
        self.emit(Insn::FloatArith(FloatOp::Sub, mode, dest, lhs, rhs));
    }

    /// Emits `dest := lhs * rhs` in floating point.
    pub fn float_mul(&mut self, mode: MachineMode, dest: FReg, lhs: FReg, rhs: FReg)
        requires
            old(self).wf(),
        ensures
            final(self)@.emitted(old(self)@, Insn::FloatArith(FloatOp::Mul, mode, dest, lhs, rhs)),
    {
        self.emit(Insn::FloatArith(FloatOp::Mul, mode, dest, lhs, rhs));
    }

    /// Emits `dest := lhs / rhs` in floating point.
    pub fn float_div(&mut self, mode: MachineMode, dest: FReg, lhs: FReg, rhs: FReg)
        requires
            old(self).wf(),
        ensures
            final(self)@.emitted(old(self)@, Insn::FloatArith(FloatOp::Div, mode, dest, lhs, rhs)),
    {
        self.emit(Insn::FloatArith(FloatOp::Div, mode, dest, lhs, rhs));
    }

    /// Emits `dest :=` the low byte of `src`, sign-extended to `mode`.
    pub fn extend_byte(&mut self, mode: MachineMode, dest: Reg, src: Reg)
        requires
            old(self).wf(),
        ensures
            final(self)@.emitted(old(self)@, Insn::ExtendByte(mode, dest, src)),
    {
        self.emit(Insn::ExtendByte(mode, dest, src));
    }

    /// Emits `dest :=` the low 32 bits of `src`, sign-extended to 64 bits.
    pub fn extend_int_long(&mut self, dest: Reg, src: Reg)
        requires
            old(self).wf(),
        ensures
            final(self)@.emitted(old(self)@, Insn::ExtendIntLong(dest, src)),
    {
        self.emit(Insn::ExtendIntLong(dest, src));
    }

    /// Emits the comparison of `lhs` with `rhs`.
    pub fn cmp_reg(&mut self, mode: MachineMode, lhs: Reg, rhs: Reg)
        requires
            old(self).wf(),
        ensures
            final(self)@.emitted(old(self)@, Insn::CmpReg(mode, lhs, rhs)),
    {
        self.emit(Insn::CmpReg(mode, lhs, rhs));
    }

    /// Emits the comparison of `lhs` with `rhs` in floating point.
    pub fn cmp_freg(&mut self, mode: MachineMode, lhs: FReg, rhs: FReg)
        requires
            old(self).wf(),
        ensures
            final(self)@.emitted(old(self)@, Insn::CmpFreg(mode, lhs, rhs)),
    {
        self.emit(Insn::CmpFreg(mode, lhs, rhs));
    }

    /// Emits the comparison of `[mem]` with `rhs`.
    pub fn cmp_mem(&mut self, mode: MachineMode, mem: Mem, rhs: Reg)
        requires
            old(self).wf(),
        ensures
            final(self)@.emitted(old(self)@, Insn::CmpMem(mode, mem, rhs)),
    {
        self.emit(Insn::CmpMem(mode, mem, rhs));
    }

    /// Emits the comparison of `[mem]` with `imm`.
    pub fn cmp_mem_imm(&mut self, mode: MachineMode, mem: Mem, imm: i32)
        requires
            old(self).wf(),
        ensures
            final(self)@.emitted(old(self)@, Insn::CmpMemImm(mode, mem, imm)),
    {
        self.emit(Insn::CmpMemImm(mode, mem, imm));
    }

    /// Emits the comparison of `reg` with zero.
    pub fn cmp_zero(&mut self, mode: MachineMode, reg: Reg)
        requires
            old(self).wf(),
        ensures
            final(self)@.emitted(old(self)@, Insn::CmpZero(mode, reg)),
    {
        self.emit(Insn::CmpZero(mode, reg));
    }

    /// Emits `dest := 1` if the flags meet `cond`, else `dest := 0`.
    pub fn set(&mut self, dest: Reg, cond: CondCode)
        requires
            old(self).wf(),
        ensures
            final(self)@.emitted(old(self)@, Insn::SetIf(dest, cond)),
    {
        self.emit(Insn::SetIf(dest, cond));
    }

    /// Emits the entry into the trap helper for `trap`.
    pub fn trap(&mut self, trap: Trap)
        requires
            old(self).wf(),
        ensures
            final(self)@.emitted(old(self)@, Insn::Trap(trap)),
    {
        self.emit(Insn::Trap(trap));
    }

    /// Emits the load of element `index` of `array`.
    pub fn load_array_elem(&mut self, mode: MachineMode, dest: Reg, array: Reg, index: Reg)
        requires
            old(self).wf(),
        ensures
            final(self)@ == old(self)@.load_array_elem(mode, dest, array, index),
            final(self)@.keeps(old(self)@),
    {
        self.emit(
            Insn::LoadMem(mode, dest, Mem::Index(array, index, mode.size(), offset_of_array_data())),
        );
    }

    /// Emits the store of `value` to element `index` of `array`.
    pub fn store_array_elem(&mut self, mode: MachineMode, array: Reg, index: Reg, value: Reg)
        requires
            old(self).wf(),
        ensures
            final(self)@ == old(self)@.store_array_elem(mode, array, index, value),
            final(self)@.keeps(old(self)@),
    {
        self.emit(
            Insn::StoreMem(
                mode,
                Mem::Index(array, index, mode.size(), offset_of_array_data()),
                value,
            ),
        );
    }

    /// Emits a jump to `lbl`.
    pub fn jump(&mut self, lbl: Label)
        requires
            old(self).wf(),
            lbl.0 < old(self)@.labels.len(),
        ensures
            final(self)@.emitted(old(self)@, Insn::Jump(lbl)),
    {
        self.emit(Insn::Jump(lbl));
    }

    /// Emits a jump to `lbl` that is taken if the flags meet `cond`.
    pub fn jump_if(&mut self, cond: CondCode, lbl: Label)
        requires
            old(self).wf(),
            lbl.0 < old(self)@.labels.len(),
        ensures
            final(self)@.emitted(old(self)@, Insn::JumpIf(cond, lbl)),
    {
        self.emit(Insn::JumpIf(cond, lbl));
    }

    /// Emits the test of `reg` against zero and a jump to `lbl` that is taken
    /// on `cond`.
    pub fn test_and_jump_if(&mut self, cond: CondCode, reg: Reg, lbl: Label)
        requires
            old(self).wf(),
            lbl.0 < old(self)@.labels.len(),
            cond == CondCode::Zero || cond == CondCode::NonZero,
        ensures
            final(self)@ == old(self)@.test_and_jump_if(cond, reg, lbl),
            final(self)@.keeps(old(self)@),
    {
        self.emit(Insn::CmpZero(MachineMode::Int32, reg));
        self.emit(Insn::JumpIf(cond, lbl));
    }

    /// Emits the test whether `reg` is null. The label returned is the one
    /// the code jumps to if it is; the caller binds it.
    pub fn test_if_nil(&mut self, reg: Reg) -> (l: Label)
        requires
            old(self).wf(),
        ensures
            final(self)@ == old(self)@.test_if_nil(reg).0,
            l == old(self)@.test_if_nil(reg).1,
            final(self).wf(),
            final(self)@.open_label(l),
            !old(self)@.unresolved().contains(l),
            final(self)@.unresolved() == old(self)@.unresolved().insert(l),
            final(self)@.uncovered() == old(self)@.uncovered(),
    {
        self.emit(Insn::CmpZero(MachineMode::Ptr, reg));
        let lbl = self.create_label();
        self.emit(Insn::JumpIf(CondCode::Equal, lbl));
        lbl
    }

    /// Emits the test whether `reg` is null, which raises `trap` if it is.
    pub fn test_if_nil_bailout(&mut self, pos: Position, reg: Reg, trap: Trap)
        requires
            old(self).wf(),
        ensures
            final(self)@ == old(self)@.test_if_nil_bailout(pos, reg, trap),
            final(self)@.keeps(old(self)@),
    {
        let lbl = self.test_if_nil(reg);
        self.emit_bailout(lbl, trap, pos);
        assert(self@.unresolved() =~= old(self)@.unresolved());
    }

    /// Emits the bounds check of `index` against the length of `array`,
    /// which raises `INDEX_OUT_OF_BOUNDS` unless the index is below the
    /// length. `temp` is overwritten.
    pub fn check_index_out_of_bounds(&mut self, pos: Position, array: Reg, index: Reg, temp: Reg)
        requires
            old(self).wf(),
        ensures
            final(self)@ == old(self)@.check_index_out_of_bounds(pos, array, index, temp),
            final(self)@.keeps(old(self)@),
    {
        self.emit(
            Insn::LoadMem(MachineMode::Int32, temp, Mem::Base(array, offset_of_array_length())),
        );
        self.emit(Insn::CmpReg(MachineMode::Int32, index, temp));
        let lbl = self.create_label();
        self.emit(Insn::JumpIf(CondCode::UnsignedGreaterEq, lbl));
        self.emit_bailout(lbl, Trap::INDEX_OUT_OF_BOUNDS, pos);
        assert(self@.unresolved() =~= old(self)@.unresolved());
    }

    fn checked_div(&mut self, op: IntOp, mode: MachineMode, dest: Reg, lhs: Reg, rhs: Reg)
        requires
            old(self).wf(),
        ensures
            final(self)@ == old(self)@.checked_div(op, mode, dest, lhs, rhs),
            final(self)@.keeps(old(self)@),
    {
        self.emit(Insn::CmpZero(mode, rhs));
        let lbl = self.create_label();
        self.emit(Insn::JumpIf(CondCode::Zero, lbl));
        self.emit_bailout(lbl, Trap::DIV0, Position::new(1, 1));
        assert(self@.unresolved() =~= old(self)@.unresolved());
        self.emit(Insn::IntArith(op, mode, dest, lhs, rhs));
    }

    /// Emits `dest := lhs / rhs`, which raises `DIV0` if `rhs` is zero.
    pub fn int_div(&mut self, mode: MachineMode, dest: Reg, lhs: Reg, rhs: Reg)
        requires
            old(self).wf(),
        ensures
            final(self)@ == old(self)@.checked_div(IntOp::Div, mode, dest, lhs, rhs),
            final(self)@.keeps(old(self)@),
    {
        self.checked_div(IntOp::Div, mode, dest, lhs, rhs);
    }

    /// Emits `dest := lhs % rhs`, which raises `DIV0` if `rhs` is zero.
    pub fn int_mod(&mut self, mode: MachineMode, dest: Reg, lhs: Reg, rhs: Reg)
        requires
            old(self).wf(),
        ensures
            final(self)@ == old(self)@.checked_div(IntOp::Mod, mode, dest, lhs, rhs),
            final(self)@.keeps(old(self)@),
    {
        self.checked_div(IntOp::Mod, mode, dest, lhs, rhs);
    }

    /// Adds a floating-point literal, given by its bits, to the constant pool
    /// and emits its load into `dest`.
    pub fn load_float_const(&mut self, mode: MachineMode, dest: FReg, bits: u64)
        requires
            old(self).wf(),
            old(self)@.fits(),
            mode.is_float(),
            mode == MachineMode::Float32 ==> bits <= u32::MAX,
        ensures
            final(self)@ == old(self)@.load_float_const(mode, dest, bits),
            final(self)@.keeps(old(self)@),
    {
        let disp = match mode {
            MachineMode::Float32 => self.dseg.add_float(bits as u32),
            _ => self.dseg.add_double(bits),
        };
        proof {
            let mid = MasmView { dseg: self.dseg@, ..old(self)@ };
            assert(self@ =~= mid);
            lemma_tables(old(self)@, self@);
        }
        let pos = self.insns.len();
        self.emit(Insn::LoadFloatConst(mode, dest, disp + pos as i32));
    }

    /// Emits the call of the function at `ptr`: the address is added to the
    /// constant pool, loaded from it and called. A safepoint has to follow.
    pub fn direct_call(&mut self, ptr: u64)
        requires
            old(self).wf(),
            old(self)@.fits(),
        ensures
            final(self)@ == old(self)@.direct_call(ptr),
            final(self).wf(),
            final(self)@.unresolved() == old(self)@.unresolved(),
            final(self)@.uncovered() == old(self)@.uncovered().insert(final(self)@.insns.len() - 1),
            !old(self)@.uncovered().contains(final(self)@.insns.len() - 1),
            final(self)@.insns.len() == old(self)@.insns.len() + 2,
            final(self)@.dseg.size < old(self)@.dseg.size + 16,
    {
        let disp = self.add_addr(ptr);
        let at = self.pool_disp(disp);
        self.emit(Insn::LoadConstPool(REG_RESULT, at));
        self.call_reg(REG_RESULT);
    }

    /// Emits the call of method `index` of the receiver in the first
    /// parameter register, through the receiver's dispatch table. A
    /// safepoint has to follow.
    pub fn indirect_call(&mut self, index: u32)
        requires
            old(self).wf(),
            index <= METHOD_INDEX_LIMIT,
        ensures
            final(self)@ == old(self)@.indirect_call(index),
            final(self).wf(),
            final(self)@.unresolved() == old(self)@.unresolved(),
            final(self)@.uncovered() == old(self)@.uncovered().insert(final(self)@.insns.len() - 1),
            !old(self)@.uncovered().contains(final(self)@.insns.len() - 1),
            final(self)@.insns.len() == old(self)@.insns.len() + 3,
    {
        self.emit(Insn::LoadMem(MachineMode::Ptr, REG_RESULT, Mem::Base(REG_PARAMS[0], 0)));
        assert(PTR_WIDTH == 8 && METHOD_INDEX_LIMIT == 0x0fff_fff0);
        let disp = offset_of_method_table() + (index as i32) * PTR_WIDTH;
        self.emit(Insn::LoadMem(MachineMode::Ptr, REG_RESULT, Mem::Base(REG_RESULT, disp)));
        self.call_reg(REG_RESULT);
    }
}

impl MasmView {
    /// Every jump goes to a label that is bound to a position of the
    /// listing.
    pub open spec fn all_bound(self) -> bool {
        forall|i: int|
            0 <= i < self.insns.len() ==> match (#[trigger] self.insns[i]).target() {
                Some(l) => l.0 < self.labels.len() && match self.labels[l.0 as int] {
                    Some(p) => p <= self.insns.len(),
                    None => false,
                },
                None => true,
            }
    }

    /// While the waiting trap exits are placed: the first `n` are, the rest
    /// still wait, and nothing else has changed.
    pub open spec fn placing(self, old: MasmView, n: int) -> bool {
        &&& 0 <= n <= old.bailouts.len()
        &&& self.insns.len() == old.insns.len() + n
        &&& self.labels.len() == old.labels.len()
        &&& forall|i: int| 0 <= i < old.insns.len() ==> #[trigger] self.insns[i] == old.insns[i]
        &&& forall|i: int|
            old.insns.len() <= i < self.insns.len() ==> (#[trigger] self.insns[i]).target() is None
        &&& forall|l: int|
            0 <= l < old.labels.len() && old.labels[l] is Some ==> #[trigger] self.labels[l]
                == old.labels[l]
        &&& forall|l: int|
            0 <= l < self.labels.len() ==> match #[trigger] self.labels[l] {
                Some(p) => p <= self.insns.len(),
                None => true,
            }
        &&& forall|j: int|
            0 <= j < n ==> self.labels[(#[trigger] old.bailouts[j]).label.0 as int] is Some
        &&& forall|j: int|
            n <= j < old.bailouts.len() ==> self.labels[(#[trigger] old.bailouts[j]).label.0 as int]
                is None
    }
}

/// Placing one more trap exit.
proof fn lemma_place_bailout(old: MasmView, v: MasmView, n: int)
    requires
        old.wf(),
        v.placing(old, n),
        n < old.bailouts.len(),
        v.insns.len() < usize::MAX,
    ensures
        v.place_bailout(old.bailouts[n]).placing(old, n + 1),
{
    let b = old.bailouts[n];
    let w = v.place_bailout(b);
    assert(b.label.0 < old.labels.len());
    assert forall|i: int| 0 <= i < old.insns.len() implies #[trigger] w.insns[i] == old.insns[i] by {
        assert(v.insns[i] == old.insns[i]);
    }
    assert forall|i: int| old.insns.len() <= i < w.insns.len() implies (#[trigger] w.insns[i]).target()
        is None by {
        if i < v.insns.len() {
            assert(w.insns[i] == v.insns[i]);
        }
    }
    assert forall|l: int| 0 <= l < old.labels.len() && old.labels[l] is Some implies #[trigger] w.labels[l]
        == old.labels[l] by {
        assert(v.labels[l] == old.labels[l]);
        assert(old.labels[b.label.0 as int] is None);
    }
    assert forall|l: int| 0 <= l < w.labels.len() implies match #[trigger] w.labels[l] {
        Some(p) => p <= w.insns.len(),
        None => true,
    } by {
        if l != b.label.0 {
            assert(w.labels[l] == v.labels[l]);
        }
    }
    assert forall|j: int| 0 <= j < n + 1 implies w.labels[(#[trigger] old.bailouts[j]).label.0 as int]
        is Some by {
        if j < n {
            assert(v.labels[old.bailouts[j].label.0 as int] is Some);
        }
    }
    assert forall|j: int| n + 1 <= j < old.bailouts.len() implies w.labels[(
    #[trigger] old.bailouts[j]).label.0 as int] is None by {
        assert(old.bailouts[n].label != old.bailouts[j].label);
        assert(v.labels[old.bailouts[j].label.0 as int] is None);
    }
}

/// Once every waiting trap exit is placed, a listing whose jumps went to
/// bound labels and waiting trap exits has every jump bound.
proof fn lemma_placed_all_bound(old: MasmView, v: MasmView)
    requires
        old.wf(),
        old.closed(),
        v.placing(old, old.bailouts.len() as int),
    ensures
        v.all_bound(),
{
    assert forall|i: int| 0 <= i < v.insns.len() implies match (#[trigger] v.insns[i]).target() {
        Some(l) => l.0 < v.labels.len() && match v.labels[l.0 as int] {
            Some(p) => p <= v.insns.len(),
            None => false,
        },
        None => true,
    } by {
        if i < old.insns.len() {
            assert(v.insns[i] == old.insns[i]);
            match old.insns[i].target() {
                Some(l) => {
                    assert(!old.open_label(l));
                    if old.labels[l.0 as int] is Some {
                        assert(v.labels[l.0 as int] == old.labels[l.0 as int]);
                    } else {
                        let j = choose|j: int|
                            0 <= j < old.bailouts.len() && (#[trigger] old.bailouts[j]).label == l;
                        assert(v.labels[old.bailouts[j].label.0 as int] is Some);
                    }
                    assert(v.labels[l.0 as int] is Some);
                },
                None => {},
            }
        }
    }
}

/// A listing with no label left to bind has every jump going to a bound
/// label or a waiting trap exit.
pub proof fn lemma_resolved_closed(v: MasmView)
    requires
        v.wf(),
        v.unresolved() == Set::<Label>::empty(),
    ensures
        v.closed(),
{
    assert forall|i: int| 0 <= i < v.insns.len() implies match (#[trigger] v.insns[i]).target() {
        Some(l) => l.0 < v.labels.len() && !v.open_label(l),
        None => true,
    } by {
        match v.insns[i].target() {
            Some(l) => {
                assert(!v.unresolved().contains(l));
            },
            None => {},
        }
    }
}

impl MacroAssembler {
    /// Places every waiting trap exit behind the code: its label is bound
    /// there, the trap is emitted and its source line recorded.
    pub fn finish(&mut self)
        requires
            old(self).wf(),
        ensures
            final(self)@ == old(self)@.finish(),
            final(self)@.bailouts.len() == 0,
            final(self)@.placing(old(self)@, old(self)@.bailouts.len() as int),
            old(self)@.closed() ==> final(self)@.all_bound(),
    {
        let n = self.bailouts.len();
        let mut i: usize = 0;
        while i < n
            invariant
                i <= n,
                n == old(self)@.bailouts.len(),
                old(self).wf(),
                self.bailouts@ == old(self)@.bailouts,
                self@ == (MasmView {
                    bailouts: old(self)@.bailouts,
                    ..old(self)@.place_bailouts(i as nat)
                }),
                self@.placing(old(self)@, i as int),
            decreases n - i,
        {
            let b = self.bailouts[i];
            let pos = self.insns.len();
            let ghost before = self@;
            assert(before.labels[b.label.0 as int] is None);
            self.labels.set(b.label.0, Some(pos));
            self.insns.push(Insn::Trap(b.trap));
            let after = self.insns.len();
            self.linenos.push((after, b.pos.lineno()));
            proof {
                assert(self.insns.len() == before.insns.len() + 1);
                lemma_place_bailout(old(self)@, before, i as int);
                let placed = before.place_bailout(b);
                assert(self@ =~= placed);
                assert(old(self)@.place_bailouts((i + 1) as nat) == old(self)@.place_bailouts(
                    i as nat,
                ).place_bailout(b));
                assert(placed =~= (MasmView {
                    bailouts: old(self)@.bailouts,
                    ..old(self)@.place_bailouts((i + 1) as nat)
                }));
            }
            i += 1;
        }
        self.bailouts.clear();
        proof {
            assert(self@ =~= old(self)@.finish());
            if old(self)@.closed() {
                lemma_placed_all_bound(old(self)@, self@);
            }
        }
    }
}

impl MacroAssembler {
    /// Number of instructions emitted.
    pub fn len(&self) -> (n: usize)
        ensures
            n == self@.insns.len(),
    {
        self.insns.len()
    }

    /// Instruction `i`.
    pub fn insn(&self, i: usize) -> (r: Insn)
        requires
            i < self@.insns.len(),
        ensures
            r == self@.insns[i as int],
    {
        self.insns[i]
    }

    /// Number of labels created.
    pub fn labels_len(&self) -> (n: usize)
        ensures
            n == self@.labels.len(),
    {
        self.labels.len()
    }

    /// The position `lbl` is bound to, if it is bound.
    pub fn label_pos(&self, lbl: Label) -> (r: Option<usize>)
        requires
            lbl.0 < self@.labels.len(),
        ensures
            r == self@.labels[lbl.0 as int],
    {
        self.labels[lbl.0]
    }

    /// Number of trap exits that wait to be placed.
    pub fn bailouts_len(&self) -> (n: usize)
        ensures
            n == self@.bailouts.len(),
    {
        self.bailouts.len()
    }

    /// Waiting trap exit `i`.
    pub fn bailout(&self, i: usize) -> (r: Bailout)
        requires
            i < self@.bailouts.len(),
        ensures
            r == self@.bailouts[i as int],
    {
        self.bailouts[i]
    }

    /// The constant pool.
    pub fn dseg(&self) -> (r: &DSeg)
        ensures
            r@ == self@.dseg,
    {
        &self.dseg
    }

    /// Number of safepoints recorded.
    pub fn gcpoints_len(&self) -> (n: usize)
        ensures
            n == self@.gcpoints.len(),
    {
        self.gcpoints.len()
    }

    /// Position of safepoint `i`.
    pub fn gcpoint_pos(&self, i: usize) -> (r: usize)
        requires
            i < self@.gcpoints.len(),
        ensures
            r == self@.gcpoints[i as int].0,
    {
        self.gcpoints[i].0
    }

    /// Live reference slots of safepoint `i`.
    pub fn gcpoint(&self, i: usize) -> (r: &GcPoint)
        requires
            i < self@.gcpoints.len(),
        ensures
            r@ == self@.gcpoints[i as int].1,
    {
        &self.gcpoints[i].1
    }

    /// Number of line-number entries.
    pub fn linenos_len(&self) -> (n: usize)
        ensures
            n == self@.linenos.len(),
    {
        self.linenos.len()
    }

    /// Line-number entry `i`: position and source line.
    pub fn lineno(&self, i: usize) -> (r: (usize, i32))
        requires
            i < self@.linenos.len(),
        ensures
            r == self@.linenos[i as int],
    {
        self.linenos[i]
    }

    /// Number of comments.
    pub fn comments_len(&self) -> (n: usize)
        ensures
            n == self@.comments.len(),
    {
        self.comments.len()
    }

    /// Comment `i`: position and text.
    pub fn comment(&self, i: usize) -> (r: (usize, Comment))
        requires
            i < self@.comments.len(),
        ensures
            r == self@.comments[i as int],
    {
        self.comments[i]
    }

    /// Number of exception handlers recorded.
    pub fn handlers_len(&self) -> (n: usize)
        ensures
            n == self@.handlers.len(),
    {
        self.handlers.len()
    }

    /// Exception handler `i`.
    pub fn handler(&self, i: usize) -> (r: ExHandler)
        requires
            i < self@.handlers.len(),
        ensures
            r == self@.handlers[i as int],
    {
        self.handlers[i]
    }

    /// Finishes the listing and hands it over as the code of a function
    /// that is entered at address `start` and runs in a frame of
    /// `stacksize` bytes.
    pub fn jit(self, stacksize: i32, start: u64) -> (r: JitFct)
        requires
            self.wf(),
            self@.closed(),
            0 <= self@.finish().dseg.size <= start,
            crate::image::spec_code_size(self@.finish().insns) <= crate::image::IMAGE_LIMIT,
            start + crate::image::spec_code_size(self@.finish().insns) <= u64::MAX,
        ensures
            r@ == (JitFctView {
                fct_start: start,
                framesize: stacksize,
                listing: self@.finish(),
            }),
            r.wf(),
    {
        let mut listing = self;
        listing.finish();
        JitFct::new(start, stacksize, listing)
    }
}

/// Placing the waiting trap exits adds no call and takes no safepoint
/// away: the calls to cover stay the same.
pub proof fn lemma_finish_keeps_covered(v: MasmView)
    requires
        v.wf(),
    ensures
        v.finish().uncovered() == v.uncovered(),
        v.finish().insns.len() == v.insns.len() + v.bailouts.len(),
{
    lemma_place_keeps_covered(v, v.bailouts.len());
    let w = v.place_bailouts(v.bailouts.len());
    let f = v.finish();
    assert forall|i: int| f.uncovered().contains(i) == w.uncovered().contains(i) by {
        lemma_gcpoint_same(w, f, i + 1);
    }
    assert(f.uncovered() =~= v.uncovered());
}

proof fn lemma_place_keeps_covered(v: MasmView, n: nat)
    requires
        v.wf(),
        n <= v.bailouts.len(),
    ensures
        v.place_bailouts(n).uncovered() == v.uncovered(),
        v.place_bailouts(n).insns.len() == v.insns.len() + n,
        v.place_bailouts(n).gcpoints == v.gcpoints,
        forall|i: int| 0 <= i < v.insns.len() ==> v.place_bailouts(n).insns[i] == v.insns[i],
        forall|i: int|
            v.insns.len() <= i < v.insns.len() + n ==> !(#[trigger] v.place_bailouts(n).insns[i]).is_call(),
    decreases n,
{
    if n > 0 {
        lemma_place_keeps_covered(v, (n - 1) as nat);
        let u = v.place_bailouts((n - 1) as nat);
        let w = v.place_bailouts(n);
        assert(w == u.place_bailout(v.bailouts[n - 1]));
        assert forall|i: int| 0 <= i < v.insns.len() implies w.insns[i] == v.insns[i] by {
            assert(w.insns[i] == u.insns[i]);
        }
        assert forall|i: int| v.insns.len() <= i < v.insns.len() + n implies !(#[trigger] w.insns[i]).is_call() by {
            if i < v.insns.len() + n - 1 {
                assert(w.insns[i] == u.insns[i]);
            }
        }
        assert forall|i: int| w.uncovered().contains(i) == v.uncovered().contains(i) by {
            lemma_gcpoint_same(v, w, i + 1);
            if 0 <= i < v.insns.len() {
                assert(w.insns[i] == v.insns[i]);
            } else if v.insns.len() <= i < w.insns.len() {
                assert(!w.insns[i].is_call());
            }
        }
        assert(w.uncovered() =~= v.uncovered());
    } else {
        assert(v.place_bailouts(0).uncovered() =~= v.uncovered());
    }
}

} // verus!
