//! What holds of the code that the generator emits, stated against the
//! machine and proved.

use crate::ast::{Expr, ExprBinType, NodeId};
use crate::codegen::CondCode;
use crate::cpu::{Mem, Reg, PTR_WIDTH, REG_FP, REG_PARAMS, REG_RESULT, REG_TMP1, REG_TMP2};
use crate::ctxt::{Arg, CallSite};
use crate::error::GenError;
use crate::object::{offset_of_array_data, offset_of_array_length};
use crate::ty::BuiltinType;
use crate::ctxt::ConvInfo;
use crate::dseg::lemma_next_disp;
use crate::lexer::Position;
use crate::expr::ExprStore;
use crate::lowering::{
    conv_check, dispatch, display_test, emit_alloc, emit_args, emit_bin_and, emit_bin_or,
    emit_direct_call_insn, emit_expr, emit_indirect_call_insn, emit_self, emit_universal_call,
    free_slot, free_temps, left_end, marshal_args, mode_of, overflow_test, receiver_checked,
    reload_new, reserve_temp_for_arg, reserve_temp_for_node, right_end, short_circuit_tail,
    temp_offset, Env, GenResult, GenState,
};
use crate::trap::Trap;
use crate::machine::{holds, lemma_run_split, pool_entry, run, step, trap_at, Machine};
use crate::masm::{Insn, Label, MasmView};
use crate::ty::MachineMode;
use crate::vtable::{
    offset_in_overflow, offset_of_depth, offset_of_display, offset_of_display_entry,
    offset_of_overflow, VTable, DEPTH_LIMIT, DISPLAY_SIZE,
};
use vstd::prelude::*;

verus! {

/// The machine stands at position `pc` and has not stopped.
pub open spec fn at(m: Machine, pc: int) -> bool {
    m.pc == pc && m.trap is None
}

/// `1` for true, `0` for false.
pub open spec fn truth(b: bool) -> int {
    if b {
        1
    } else {
        0
    }
}

/// The test against a class in the display: two instructions at `base`
/// leave `1` in `dest` if the display of the object's class holds the
/// class at its depth, else `0`.
pub proof fn lemma_display_run(w: MasmView, base: int, dest: Reg, m: Machine, s: VTable, t: VTable)
    requires
        0 <= base,
        base + 2 <= w.insns.len(),
        0 <= t.subtype_depth < DISPLAY_SIZE,
        w.insns[base] == Insn::CmpMem(
            MachineMode::Ptr,
            Mem::Base(REG_TMP1, offset_of_display_entry(t.subtype_depth)),
            REG_TMP2,
        ),
        w.insns[base + 1] == Insn::SetIf(dest, CondCode::Equal),
        at(m, base),
        m.regs[REG_TMP1] == s.ptr,
        m.regs[REG_TMP2] == t.ptr,
        s.wf(),
        s.laid_out(m.mem),
    ensures
        run(w, m, 2) matches Some(m1) && at(m1, base + 2) && m1.mem == m.mem && m1.regs[dest]
            == truth(s.is_subtype_of(&t)),
{
    let depth = t.subtype_depth;
    let m1 = step(w, m).unwrap();
    assert(m.mem[s.ptr + offset_of_display() + depth * PTR_WIDTH] == s.subtype_display@[depth as int]);
    assert(m1.flags.lhs == s.subtype_display@[depth as int]);
    let m2 = step(w, m1).unwrap();
    reveal_with_fuel(run, 3);
    assert(run(w, m, 2) == Some(m2));
}

/// Number of instructions that the test against a deep class runs.
pub open spec fn overflow_steps(s: VTable, t: VTable) -> nat {
    if s.subtype_depth < t.subtype_depth {
        3
    } else {
        6
    }
}

/// The test against a class of depth `DISPLAY_SIZE` or more: the
/// instructions at `base` leave `1` in `dest` if the object's class is at
/// least as deep and its overflow list holds the class at its depth, else
/// `0`.
pub proof fn lemma_overflow_run(
    w: MasmView,
    base: int,
    dest: Reg,
    lbl_false: Label,
    lbl_finished: Label,
    m: Machine,
    s: VTable,
    t: VTable,
)
    requires
        0 <= base,
        base + 7 <= w.insns.len() <= usize::MAX,
        DISPLAY_SIZE <= t.subtype_depth <= DEPTH_LIMIT,
        w.insns[base] == Insn::CmpMemImm(
            MachineMode::Int32,
            Mem::Base(REG_TMP1, offset_of_depth()),
            t.subtype_depth,
        ),
        w.insns[base + 1] == Insn::JumpIf(CondCode::Less, lbl_false),
        w.insns[base + 2] == Insn::LoadMem(
            MachineMode::Ptr,
            REG_TMP1,
            Mem::Base(REG_TMP1, offset_of_overflow()),
        ),
        w.insns[base + 3] == Insn::CmpMem(
            MachineMode::Ptr,
            Mem::Base(REG_TMP1, offset_in_overflow(t.subtype_depth)),
            REG_TMP2,
        ),
        w.insns[base + 4] == Insn::SetIf(dest, CondCode::Equal),
        w.insns[base + 5] == Insn::Jump(lbl_finished),
        w.insns[base + 6] == Insn::LoadIntConst(MachineMode::Int32, dest, 0),
        lbl_false.0 < w.labels.len(),
        lbl_finished.0 < w.labels.len(),
        w.labels[lbl_false.0 as int] == Some((base + 6) as usize),
        w.labels[lbl_finished.0 as int] == Some((base + 7) as usize),
        at(m, base),
        m.regs[REG_TMP1] == s.ptr,
        m.regs[REG_TMP2] == t.ptr,
        s.wf(),
        s.laid_out(m.mem),
    ensures
        run(w, m, overflow_steps(s, t)) matches Some(m1) && at(m1, base + 7) && m1.mem == m.mem
            && m1.regs[dest] == truth(s.is_subtype_of(&t)),
{
    let depth = t.subtype_depth;
    reveal_with_fuel(run, 7);
    let m1 = step(w, m).unwrap();
    assert(m1.flags.lhs == s.subtype_depth);
    let m2 = step(w, m1).unwrap();
    if s.subtype_depth < depth {
        assert(at(m2, base + 6));
        let m3 = step(w, m2).unwrap();
        assert(run(w, m, 3) == Some(m3));
    } else {
        assert(at(m2, base + 2));
        let m3 = step(w, m2).unwrap();
        assert(m3.regs[REG_TMP1] == s.subtype_overflow_ptr);
        let m4 = step(w, m3).unwrap();
        assert(m.mem[s.subtype_overflow_ptr + (depth - DISPLAY_SIZE) * PTR_WIDTH]
            == s.subtype_overflow@[depth - DISPLAY_SIZE]);
        assert(m4.flags.lhs == s.subtype_overflow@[depth - DISPLAY_SIZE]);
        assert(m4.flags.rhs == t.ptr);
        let m5 = step(w, m4).unwrap();
        let m6 = step(w, m5).unwrap();
        assert(at(m6, base + 7));
        assert(run(w, m, 6) == Some(m6));
    }
}

/// The dispatch table of the class that the `is` or `as` at node `id`
/// tests for.
pub open spec fn target(env: Env, id: NodeId) -> VTable {
    env.ctxt.spec_class(env.src.map_convs.spec_get(id).unwrap().cls_id).unwrap().vtable.unwrap()
}

/// Number of instructions that `is` runs for an object of the class with
/// dispatch table `s`.
pub open spec fn is_steps(env: Env, id: NodeId, m: Machine, dest: Reg, s: VTable) -> nat {
    if m.regs[dest] == 0 {
        2
    } else if env.src.map_convs.spec_get(id).unwrap().valid {
        3
    } else if target(env, id).subtype_depth < DISPLAY_SIZE {
        6
    } else {
        4 + overflow_steps(s, target(env, id))
    }
}

/// `x is T` is true exactly for the objects of class `T` and of its
/// descendants.
///
/// The machine stands at the start of the code of the test, with the
/// object in `dest`. If the object is not null its header holds the address
/// of the dispatch table of its class, which memory holds as laid out.
/// Then the code runs to its end and leaves `1` in `dest` if the object is
/// not null and its class is `T` or a descendant of `T`, by the display
/// and the overflow list of its dispatch table, and `0` otherwise. Memory
/// is left as it was.
#[verifier::rlimit(50)]
pub proof fn lemma_is_tests_subtype(
    env: Env,
    s: GenState,
    id: NodeId,
    pos: Position,
    object_id: NodeId,
    dest: Reg,
    m: Machine,
    cls: VTable,
)
    requires
        s.masm.wf(),
        s.masm.insns.len() + 16 <= usize::MAX,
        s.masm.labels.len() + 4 <= usize::MAX,
        conv_check(env, s, id, true, pos, object_id, dest) is Ok,
        !env.src.map_convs.spec_get(id).unwrap().valid,
        at(m, s.masm.insns.len() as int),
        m.regs[dest] != 0 ==> m.mem[m.regs[dest]] == cls.ptr && cls.wf() && cls.laid_out(m.mem),
    ensures
        ({
            let w = conv_check(env, s, id, true, pos, object_id, dest).unwrap().masm;
            &&& run(w, m, is_steps(env, id, m, dest, cls)) matches Some(m1)
            &&& at(m1, w.insns.len() as int)
            &&& m1.mem == m.mem
            &&& m1.regs[dest] == truth(m.regs[dest] != 0 && cls.is_subtype_of(&target(env, id)))
        }),
{
    let w = conv_check(env, s, id, true, pos, object_id, dest).unwrap().masm;
    let t = target(env, id);
    let base = s.masm.insns.len() as int;
    let lbl_nil = Label(s.masm.labels.len() as usize);
    let depth = t.subtype_depth;
    let (m0, l0) = s.masm.test_if_nil(dest);
    assert(l0 == lbl_nil);
    let m1v = m0.emit(Insn::LoadMem(MachineMode::Ptr, REG_TMP1, Mem::Base(dest, 0)));
    assert(m1v.fits());
    let (m2v, disp) = m1v.add_addr(t.ptr);
    let m3v = m2v.emit(Insn::LoadConstPool(REG_TMP2, m2v.pool_disp(disp)));
    lemma_next_disp(m1v.dseg.size as int, 8);
    assert(m2v.pool_disp(disp) == disp + base + 3);
    let tested = if depth >= DISPLAY_SIZE {
        overflow_test(m3v, depth, true, pos, 0, dest)
    } else {
        display_test(m3v, depth, true, pos, 0, dest)
    };
    assert(w == tested.bind_label(lbl_nil));
    assert(w.insns[base] == Insn::CmpZero(MachineMode::Ptr, dest));
    assert(w.insns[base + 1] == Insn::JumpIf(CondCode::Equal, lbl_nil));
    assert(w.insns[base + 2] == Insn::LoadMem(MachineMode::Ptr, REG_TMP1, Mem::Base(dest, 0)));
    assert(w.insns[base + 3] == Insn::LoadConstPool(REG_TMP2, (disp + base + 3) as i32));
    assert(w.labels[lbl_nil.0 as int] == Some(w.insns.len() as usize));
    assert(w.dseg.entries.last().disp == disp);
    assert(pool_entry(w.dseg.entries, disp as int, w.dseg.entries.len() as int) == Some(
        crate::dseg::DSegValue::Ptr(t.ptr),
    ));
    reveal_with_fuel(run, 5);
    let a1 = step(w, m).unwrap();
    let a2 = step(w, a1).unwrap();
    if m.regs[dest] == 0 {
        assert(at(a2, w.insns.len() as int));
        assert(run(w, m, 2) == Some(a2));
    } else {
        assert(at(a2, base + 2));
        let a3 = step(w, a2).unwrap();
        assert(a3.regs[REG_TMP1] == cls.ptr);
        let a4 = step(w, a3).unwrap();
        assert(at(a4, base + 4));
        assert(a4.regs[REG_TMP2] == t.ptr);
        assert(a4.regs[REG_TMP1] == cls.ptr);
        assert(a4.mem == m.mem);
        assert(run(w, m, 4) == Some(a4));
        if depth < DISPLAY_SIZE {
            assert(w.insns[base + 4] == Insn::CmpMem(
                MachineMode::Ptr,
                Mem::Base(REG_TMP1, offset_of_display_entry(depth)),
                REG_TMP2,
            ));
            assert(w.insns[base + 5] == Insn::SetIf(dest, CondCode::Equal));
            lemma_display_run(w, base + 4, dest, a4, cls, t);
            lemma_run_split(w, m, 4, 2);
        } else {
            let lbl_false = Label((s.masm.labels.len() + 1) as usize);
            let lbl_finished = Label((s.masm.labels.len() + 2) as usize);
            assert(w.insns[base + 4] == Insn::CmpMemImm(
                MachineMode::Int32,
                Mem::Base(REG_TMP1, offset_of_depth()),
                depth,
            ));
            assert(w.insns[base + 5] == Insn::JumpIf(CondCode::Less, lbl_false));
            assert(w.insns[base + 6] == Insn::LoadMem(
                MachineMode::Ptr,
                REG_TMP1,
                Mem::Base(REG_TMP1, offset_of_overflow()),
            ));
            assert(w.insns[base + 7] == Insn::CmpMem(
                MachineMode::Ptr,
                Mem::Base(REG_TMP1, offset_in_overflow(depth)),
                REG_TMP2,
            ));
            assert(w.insns[base + 8] == Insn::SetIf(dest, CondCode::Equal));
            assert(w.insns[base + 9] == Insn::Jump(lbl_finished));
            assert(w.insns[base + 10] == Insn::LoadIntConst(MachineMode::Int32, dest, 0));
            assert(w.labels[lbl_false.0 as int] == Some((base + 10) as usize));
            assert(w.labels[lbl_finished.0 as int] == Some((base + 11) as usize));
            lemma_overflow_run(w, base + 4, dest, lbl_false, lbl_finished, a4, cls, t);
            lemma_run_split(w, m, 4, overflow_steps(cls, t));
        }
    }
}

/// Where knowledge at compile time decides: `x is T` for an object that is
/// known to be of class `T` is true unless the object is null.
#[verifier::rlimit(50)]
pub proof fn lemma_is_known(
    env: Env,
    s: GenState,
    id: NodeId,
    pos: Position,
    object_id: NodeId,
    dest: Reg,
    m: Machine,
)
    requires
        s.masm.wf(),
        s.masm.insns.len() + 16 <= usize::MAX,
        s.masm.labels.len() + 4 <= usize::MAX,
        conv_check(env, s, id, true, pos, object_id, dest) is Ok,
        env.src.map_convs.spec_get(id).unwrap().valid,
        at(m, s.masm.insns.len() as int),
    ensures
        ({
            let w = conv_check(env, s, id, true, pos, object_id, dest).unwrap().masm;
            &&& run(
                w,
                m,
                if m.regs[dest] == 0 {
                    2
                } else {
                    3
                },
            ) matches Some(m1)
            &&& at(m1, w.insns.len() as int)
            &&& m1.mem == m.mem
            &&& m1.regs[dest] == truth(m.regs[dest] != 0)
        }),
{
    let w = conv_check(env, s, id, true, pos, object_id, dest).unwrap().masm;
    let base = s.masm.insns.len() as int;
    let lbl_nil = Label(s.masm.labels.len() as usize);
    assert(w.insns[base] == Insn::CmpZero(MachineMode::Ptr, dest));
    assert(w.insns[base + 1] == Insn::JumpIf(CondCode::Equal, lbl_nil));
    assert(w.insns[base + 2] == Insn::LoadIntConst(MachineMode::Int32, dest, 1));
    assert(w.labels[lbl_nil.0 as int] == Some(w.insns.len() as usize));
    reveal_with_fuel(run, 4);
    let a1 = step(w, m).unwrap();
    let a2 = step(w, a1).unwrap();
    if m.regs[dest] != 0 {
        let a3 = step(w, a2).unwrap();
        assert(run(w, m, 3) == Some(a3));
    } else {
        assert(run(w, m, 2) == Some(a2));
    }
}

/// A trap exit that was deferred last, to a label that no earlier exit
/// waits at, is the exit that a jump to the label takes.
pub proof fn lemma_trap_at_last(v: MasmView, l: Label, from: int)
    requires
        v.bailouts.len() > 0,
        0 <= from < v.bailouts.len(),
        v.bailouts.last().label == l,
        forall|j: int| 0 <= j < v.bailouts.len() - 1 ==> (#[trigger] v.bailouts[j]).label != l,
    ensures
        trap_at(v, l, from) == Some(v.bailouts.last().trap),
    decreases v.bailouts.len() - from,
{
    if from < v.bailouts.len() - 1 {
        assert(v.bailouts[from].label != l);
        lemma_trap_at_last(v, l, from + 1);
    }
}

/// How an `as` ends for an object of the class with dispatch table `s`:
/// the object is still in `dest`, or the machine has stopped with `CAST`.
pub open spec fn cast_done(m: Machine, m1: Machine, end: int, dest: Reg, s: VTable, t: VTable) -> bool {
    if m.regs[dest] == 0 || s.is_subtype_of(&t) {
        at(m1, end) && m1.regs[dest] == m.regs[dest]
    } else {
        m1.trap == Some(Trap::CAST)
    }
}

/// Number of instructions that `as` runs, for a class in the display.
pub open spec fn cast_steps(m: Machine, dest: Reg, s: VTable, t: VTable) -> nat {
    if m.regs[dest] == 0 {
        2
    } else if s.is_subtype_of(&t) {
        8
    } else {
        7
    }
}

/// `x as T` keeps the object exactly if it is null or of class `T` or a
/// descendant of `T`, and raises `CAST` otherwise, for a `T` whose depth
/// is below `DISPLAY_SIZE`.
///
/// The machine stands at the start of the code of the cast, with the
/// object in `dest`, which is not the frame pointer. The object's header
/// and the dispatch table of its class are as for `is`, and they are apart
/// from the frame slot that the cast keeps the object in: storing to the
/// slot leaves them as they are.
#[verifier::rlimit(50)]
pub proof fn lemma_as_casts_subtype(
    env: Env,
    s: GenState,
    id: NodeId,
    pos: Position,
    object_id: NodeId,
    dest: Reg,
    m: Machine,
    cls: VTable,
)
    requires
        s.masm.wf(),
        s.masm.insns.len() + 16 <= usize::MAX,
        s.masm.labels.len() + 4 <= usize::MAX,
        conv_check(env, s, id, false, pos, object_id, dest) is Ok,
        !env.src.map_convs.spec_get(id).unwrap().valid,
        target(env, id).subtype_depth < DISPLAY_SIZE,
        at(m, s.masm.insns.len() as int),
        dest != REG_FP,
        m.regs[dest] != 0 ==> {
            let slot = m.regs[REG_FP] + spill_offset(env, s, dest, object_id);
            let mem = m.mem.insert(slot, m.regs[dest]);
            &&& mem[m.regs[dest]] == cls.ptr
            &&& cls.wf()
            &&& cls.laid_out(mem)
        },
    ensures
        ({
            let w = conv_check(env, s, id, false, pos, object_id, dest).unwrap().masm;
            run(w, m, cast_steps(m, dest, cls, target(env, id))) matches Some(m1) && cast_done(
                m,
                m1,
                w.insns.len() as int,
                dest,
                cls,
                target(env, id),
            )
        }),
{
    let w = conv_check(env, s, id, false, pos, object_id, dest).unwrap().masm;
    let t = target(env, id);
    let base = s.masm.insns.len() as int;
    let lbl_nil = Label(s.masm.labels.len() as usize);
    let lbl_bailout = Label((s.masm.labels.len() + 1) as usize);
    let depth = t.subtype_depth;
    let offset = spill_offset(env, s, dest, object_id);
    let (m0, l0) = s.masm.test_if_nil(dest);
    let s0 = s.with(m0);
    let (s1, off1) = reserve_temp_for_node(env, s0, object_id).unwrap();
    assert(off1 == offset);
    assert(s1.masm == m0);
    let m1v = m0.emit(Insn::StoreMem(MachineMode::Ptr, Mem::Local(offset), dest)).emit(
        Insn::LoadMem(MachineMode::Ptr, REG_TMP1, Mem::Base(dest, 0)),
    );
    assert(m1v.fits());
    let (m2v, disp) = m1v.add_addr(t.ptr);
    let m3v = m2v.emit(Insn::LoadConstPool(REG_TMP2, m2v.pool_disp(disp)));
    lemma_next_disp(m1v.dseg.size as int, 8);
    assert(m2v.pool_disp(disp) == disp + base + 4);
    let tested = display_test(m3v, depth, false, pos, offset, dest);
    assert(w == tested.bind_label(lbl_nil));
    assert(w.insns[base] == Insn::CmpZero(MachineMode::Ptr, dest));
    assert(w.insns[base + 1] == Insn::JumpIf(CondCode::Equal, lbl_nil));
    assert(w.insns[base + 2] == Insn::StoreMem(MachineMode::Ptr, Mem::Local(offset), dest));
    assert(w.insns[base + 3] == Insn::LoadMem(MachineMode::Ptr, REG_TMP1, Mem::Base(dest, 0)));
    assert(w.insns[base + 4] == Insn::LoadConstPool(REG_TMP2, (disp + base + 4) as i32));
    assert(w.insns[base + 5] == Insn::CmpMem(
        MachineMode::Ptr,
        Mem::Base(REG_TMP1, offset_of_display_entry(depth)),
        REG_TMP2,
    ));
    assert(w.insns[base + 6] == Insn::JumpIf(CondCode::NotEqual, lbl_bailout));
    assert(w.insns[base + 7] == Insn::LoadMem(MachineMode::Ptr, dest, Mem::Local(offset)));
    assert(w.insns.len() == base + 8);
    assert(w.labels[lbl_nil.0 as int] == Some(w.insns.len() as usize));
    assert(w.labels[lbl_bailout.0 as int] is None);
    assert(w.dseg.entries.last().disp == disp);
    assert(pool_entry(w.dseg.entries, disp as int, w.dseg.entries.len() as int) == Some(
        crate::dseg::DSegValue::Ptr(t.ptr),
    ));
    assert(w.bailouts == s.masm.bailouts.push(
        crate::masm::Bailout { label: lbl_bailout, trap: Trap::CAST, pos },
    ));
    assert forall|j: int| 0 <= j < w.bailouts.len() - 1 implies (#[trigger] w.bailouts[j]).label
        != lbl_bailout by {
        assert(s.masm.bailouts[j].label.0 < s.masm.labels.len());
    }
    lemma_trap_at_last(w, lbl_bailout, 0);
    reveal_with_fuel(run, 9);
    let a1 = step(w, m).unwrap();
    let a2 = step(w, a1).unwrap();
    if m.regs[dest] == 0 {
        assert(at(a2, w.insns.len() as int));
        assert(run(w, m, 2) == Some(a2));
    } else {
        let a3 = step(w, a2).unwrap();
        let slot = m.regs[REG_FP] + offset;
        assert(a3.mem == m.mem.insert(slot, m.regs[dest]));
        let a4 = step(w, a3).unwrap();
        assert(a4.regs[REG_TMP1] == cls.ptr);
        let a5 = step(w, a4).unwrap();
        assert(a5.regs[REG_TMP2] == t.ptr);
        let a6 = step(w, a5).unwrap();
        assert(a3.mem[cls.ptr + offset_of_display() + depth * PTR_WIDTH] == cls.subtype_display@[depth as int]);
        assert(a6.flags.lhs == cls.subtype_display@[depth as int]);
        assert(a6.flags.rhs == t.ptr);
        let a7 = step(w, a6).unwrap();
        if cls.is_subtype_of(&t) {
            assert(at(a7, base + 7));
            assert(a7.regs[REG_FP] == m.regs[REG_FP]);
            let a8 = step(w, a7).unwrap();
            assert(a8.regs[dest] == m.regs[dest]);
            assert(run(w, m, 8) == Some(a8));
        } else {
            assert(a7.trap == Some(Trap::CAST));
            assert(run(w, m, 7) == Some(a7));
        }
    }
}

/// The frame offset of the slot in which an `as` keeps the object.
pub open spec fn spill_offset(env: Env, s: GenState, dest: Reg, object_id: NodeId) -> i32 {
    reserve_temp_for_node(env, s.with(s.masm.test_if_nil(dest).0), object_id).unwrap().1
}

/// What marshalling adds leaves what the listing held where it was.
pub proof fn lemma_marshal_extends(
    env: Env,
    s: GenState,
    id: NodeId,
    pos: Position,
    args: Seq<Arg>,
    temps: Seq<(BuiltinType, i32)>,
    i: int,
    arg_offset: i32,
)
    requires
        marshal_args(env, s, id, pos, args, temps, i, arg_offset) is Ok,
        0 <= i,
    ensures
        ({
            let f = marshal_args(env, s, id, pos, args, temps, i, arg_offset).unwrap();
            &&& f.masm.extends(s.masm)
            &&& s.masm.bailouts.len() <= f.masm.bailouts.len()
            &&& forall|j: int| 0 <= j < s.masm.bailouts.len() ==> #[trigger] f.masm.bailouts[j] == s.masm.bailouts[j]
            &&& i > 0 ==> f.masm.labels == s.masm.labels && f.masm.bailouts == s.masm.bailouts
        }),
    decreases args.len() - i,
{
    if i < args.len() && i < temps.len() {
        let ty = args[i].ty();
        let offset = temps[i].1;
        let mode = mode_of(ty).unwrap();
        if i < REG_PARAMS@.len() {
            let reg = REG_PARAMS[i];
            let m = s.masm.emit(Insn::LoadMem(mode, reg, Mem::Local(offset)));
            let m1 = if i == 0 && receiver_checked(env, id, ty) {
                m.test_if_nil_bailout(pos, reg, Trap::NIL)
            } else {
                m
            };
            lemma_marshal_extends(env, s.with(m1), id, pos, args, temps, i + 1, arg_offset);
            let f = marshal_args(env, s.with(m1), id, pos, args, temps, i + 1, arg_offset).unwrap();
            assert forall|j: int| 0 <= j < s.masm.insns.len() implies #[trigger] f.masm.insns[j]
                == s.masm.insns[j] by {
                assert(f.masm.insns[j] == m1.insns[j]);
            }
            assert forall|l: int| 0 <= l < s.masm.labels.len() implies #[trigger] f.masm.labels[l]
                == s.masm.labels[l] by {
                assert(f.masm.labels[l] == m1.labels[l]);
            }
            assert forall|j: int| 0 <= j < s.masm.bailouts.len() implies #[trigger] f.masm.bailouts[j]
                == s.masm.bailouts[j] by {
                assert(f.masm.bailouts[j] == m1.bailouts[j]);
            }
        } else {
            let m = s.masm.emit(Insn::LoadMem(mode, REG_TMP1, Mem::Local(offset))).emit(
                Insn::StoreMem(mode, Mem::Local(arg_offset), REG_TMP1),
            );
            lemma_marshal_extends(
                env,
                s.with(m),
                id,
                pos,
                args,
                temps,
                i + 1,
                (arg_offset + 8) as i32,
            );
            let f = marshal_args(
                env,
                s.with(m),
                id,
                pos,
                args,
                temps,
                i + 1,
                (arg_offset + 8) as i32,
            ).unwrap();
            assert forall|j: int| 0 <= j < s.masm.insns.len() implies #[trigger] f.masm.insns[j]
                == s.masm.insns[j] by {
                assert(f.masm.insns[j] == m.insns[j]);
            }
        }
    }
}

/// Where argument `i` of a call is on entry to the callee: in parameter
/// register `i` if there is one, else on the stack, the first such argument
/// at `first` from the frame pointer and each further one a word above.
pub open spec fn arg_placed(m: Machine, first: int, i: int, value: int) -> bool {
    if i < REG_PARAMS@.len() {
        m.regs[REG_PARAMS[i]] == value
    } else {
        m.mem[m.regs[REG_FP] + first + 8 * (i - REG_PARAMS@.len())] == value
    }
}

/// The slots of the arguments and the words of the stack arguments are
/// apart.
pub open spec fn slots_apart(temps: Seq<(BuiltinType, i32)>, first: int) -> bool {
    forall|j: int, k: int|
        0 <= j < temps.len() && REG_PARAMS@.len() <= k < temps.len() ==> (#[trigger] temps[j]).1
            != first + 8 * (#[trigger] (k - REG_PARAMS@.len()))
}

/// Marshalling from argument `i` on, for a machine on which the arguments
/// before `i` are placed and the others are in their slots.
#[verifier::rlimit(50)]
proof fn lemma_marshal_from(
    env: Env,
    s: GenState,
    id: NodeId,
    pos: Position,
    args: Seq<Arg>,
    temps: Seq<(BuiltinType, i32)>,
    i: int,
    arg_offset: i32,
    first: int,
    w: MasmView,
    m: Machine,
    vals: Seq<int>,
)
    requires
        1 <= i <= args.len(),
        args.len() == temps.len() == vals.len(),
        marshal_args(env, s, id, pos, args, temps, i, arg_offset) is Ok,
        w.extends(marshal_args(env, s, id, pos, args, temps, i, arg_offset).unwrap().masm),
        at(m, s.masm.insns.len() as int),
        arg_offset == first + 8 * if i <= REG_PARAMS@.len() {
            0
        } else {
            i - REG_PARAMS@.len()
        },
        slots_apart(temps, first),
        forall|j: int| i <= j < args.len() ==> m.mem[m.regs[REG_FP] + (#[trigger] temps[j]).1] == vals[j],
        forall|j: int| 0 <= j < i ==> arg_placed(m, first, j, #[trigger] vals[j]),
    ensures
        ({
            let f = marshal_args(env, s, id, pos, args, temps, i, arg_offset).unwrap().masm;
            &&& run(w, m, (f.insns.len() - s.masm.insns.len()) as nat) matches Some(m1)
            &&& at(m1, f.insns.len() as int)
            &&& m1.regs[REG_FP] == m.regs[REG_FP]
            &&& forall|j: int| 0 <= j < args.len() ==> arg_placed(m1, first, j, #[trigger] vals[j])
        }),
    decreases args.len() - i,
{
    let f = marshal_args(env, s, id, pos, args, temps, i, arg_offset).unwrap().masm;
    let base = s.masm.insns.len() as int;
    if i < args.len() {
        let ty = args[i].ty();
        let offset = temps[i].1;
        let mode = mode_of(ty).unwrap();
        if i < REG_PARAMS@.len() {
            let reg = REG_PARAMS[i];
            let mv = s.masm.emit(Insn::LoadMem(mode, reg, Mem::Local(offset)));
            lemma_marshal_extends(env, s.with(mv), id, pos, args, temps, i + 1, arg_offset);
            assert(f.insns[base] == mv.insns[base]);
            assert(w.insns[base] == Insn::LoadMem(mode, reg, Mem::Local(offset)));
            let m1 = step(w, m).unwrap();
            assert(m1.regs[reg] == vals[i]);
            assert forall|j: int| 0 <= j < i + 1 implies arg_placed(m1, first, j, #[trigger] vals[j]) by {
                if j < i {
                    assert(arg_placed(m, first, j, vals[j]));
                }
            }
            lemma_marshal_from(env, s.with(mv), id, pos, args, temps, i + 1, arg_offset, first, w, m1, vals);
            lemma_run_split(w, m, 1, (f.insns.len() - mv.insns.len()) as nat);
            reveal_with_fuel(run, 2);
        } else {
            let mv = s.masm.emit(Insn::LoadMem(mode, REG_TMP1, Mem::Local(offset))).emit(
                Insn::StoreMem(mode, Mem::Local(arg_offset), REG_TMP1),
            );
            lemma_marshal_extends(
                env,
                s.with(mv),
                id,
                pos,
                args,
                temps,
                i + 1,
                (arg_offset + 8) as i32,
            );
            assert(f.insns[base] == mv.insns[base]);
            assert(f.insns[base + 1] == mv.insns[base + 1]);
            assert(w.insns[base] == Insn::LoadMem(mode, REG_TMP1, Mem::Local(offset)));
            assert(w.insns[base + 1] == Insn::StoreMem(mode, Mem::Local(arg_offset), REG_TMP1));
            let m1 = step(w, m).unwrap();
            let m2 = step(w, m1).unwrap();
            let fp = m.regs[REG_FP];
            assert(m2.mem == m.mem.insert(fp + arg_offset, vals[i]));
            assert forall|j: int| i + 1 <= j < args.len() implies m2.mem[m2.regs[REG_FP] + (
            #[trigger] temps[j]).1] == vals[j] by {
                assert(temps[j].1 != first + 8 * (i - REG_PARAMS@.len()));
            }
            assert forall|j: int| 0 <= j < i + 1 implies arg_placed(m2, first, j, #[trigger] vals[j]) by {
                if j < i {
                    assert(arg_placed(m, first, j, vals[j]));
                }
            }
            lemma_marshal_from(
                env,
                s.with(mv),
                id,
                pos,
                args,
                temps,
                i + 1,
                (arg_offset + 8) as i32,
                first,
                w,
                m2,
                vals,
            );
            lemma_run_split(w, m, 2, (f.insns.len() - mv.insns.len()) as nat);
            reveal_with_fuel(run, 3);
        }
    } else {
        assert(f == s.masm);
    }
}

/// Number of instructions that move the arguments of a call to where the
/// callee expects them.
pub open spec fn marshal_len(
    env: Env,
    s: GenState,
    id: NodeId,
    pos: Position,
    args: Seq<Arg>,
    temps: Seq<(BuiltinType, i32)>,
    first: i32,
) -> nat {
    (marshal_args(env, s, id, pos, args, temps, 0, first).unwrap().masm.insns.len()
        - s.masm.insns.len()) as nat
}

/// On entry to the callee the arguments are where the callee expects them:
/// the first arguments in the parameter registers, in order, and the
/// others on the stack, in order, a word each, from the lowest word of the
/// frame upwards.
///
/// The machine stands at the start of the code that moves the arguments,
/// and the value of each argument is in the slot it was spilled to. The
/// slots are apart from the words of the stack arguments. A receiver that
/// is checked for null is not null: see `lemma_null_receiver_traps` for one
/// that is.
#[verifier::rlimit(50)]
pub proof fn lemma_args_placed(
    env: Env,
    s: GenState,
    id: NodeId,
    pos: Position,
    args: Seq<Arg>,
    temps: Seq<(BuiltinType, i32)>,
    first: i32,
    m: Machine,
    vals: Seq<int>,
)
    requires
        s.masm.wf(),
        s.masm.insns.len() + 4 <= usize::MAX,
        s.masm.labels.len() + 1 <= usize::MAX,
        args.len() == temps.len() == vals.len(),
        marshal_args(env, s, id, pos, args, temps, 0, first) is Ok,
        at(m, s.masm.insns.len() as int),
        slots_apart(temps, first as int),
        forall|j: int| 0 <= j < args.len() ==> m.mem[m.regs[REG_FP] + (#[trigger] temps[j]).1] == vals[j],
        args.len() > 0 && receiver_checked(env, id, args[0].ty()) ==> vals[0] != 0,
    ensures
        ({
            let f = marshal_args(env, s, id, pos, args, temps, 0, first).unwrap().masm;
            &&& run(f, m, marshal_len(env, s, id, pos, args, temps, first)) matches Some(m1)
            &&& at(m1, f.insns.len() as int)
            &&& forall|j: int| 0 <= j < args.len() ==> arg_placed(m1, first as int, j, #[trigger] vals[j])
        }),
{
    let f = marshal_args(env, s, id, pos, args, temps, 0, first).unwrap().masm;
    let base = s.masm.insns.len() as int;
    if args.len() > 0 {
        let ty = args[0].ty();
        let offset = temps[0].1;
        let mode = mode_of(ty).unwrap();
        let reg = REG_PARAMS[0];
        let mv = s.masm.emit(Insn::LoadMem(mode, reg, Mem::Local(offset)));
        let m1v = if receiver_checked(env, id, ty) {
            mv.test_if_nil_bailout(pos, reg, Trap::NIL)
        } else {
            mv
        };
        lemma_marshal_extends(env, s.with(m1v), id, pos, args, temps, 1, first);
        assert(f.insns[base] == m1v.insns[base]);
        assert(f.insns[base] == Insn::LoadMem(mode, reg, Mem::Local(offset)));
        let a1 = step(f, m).unwrap();
        assert(a1.regs[reg] == vals[0]);
        assert(arg_placed(a1, first as int, 0, vals[0]));
        if receiver_checked(env, id, ty) {
            let lbl = Label(s.masm.labels.len() as usize);
            assert(f.insns[base + 1] == m1v.insns[base + 1]);
            assert(f.insns[base + 2] == m1v.insns[base + 2]);
            assert(f.insns[base + 1] == Insn::CmpZero(MachineMode::Ptr, reg));
            assert(f.insns[base + 2] == Insn::JumpIf(CondCode::Equal, lbl));
            let a2 = step(f, a1).unwrap();
            let a3 = step(f, a2).unwrap();
            assert(at(a3, base + 3));
            assert(arg_placed(a3, first as int, 0, vals[0]));
            lemma_marshal_from(env, s.with(m1v), id, pos, args, temps, 1, first, first as int, f, a3, vals);
            lemma_run_split(f, m, 3, (f.insns.len() - m1v.insns.len()) as nat);
            reveal_with_fuel(run, 4);
        } else {
            lemma_marshal_from(env, s.with(m1v), id, pos, args, temps, 1, first, first as int, f, a1, vals);
            lemma_run_split(f, m, 1, (f.insns.len() - m1v.insns.len()) as nat);
            reveal_with_fuel(run, 2);
        }
    }
}

/// A trap exit to a label that no earlier exit waits at is the exit that a
/// jump to the label takes.
pub proof fn lemma_trap_at_first(v: MasmView, l: Label, k: int, from: int)
    requires
        0 <= from <= k < v.bailouts.len(),
        v.bailouts[k].label == l,
        forall|j: int| 0 <= j < k ==> (#[trigger] v.bailouts[j]).label != l,
    ensures
        trap_at(v, l, from) == Some(v.bailouts[k].trap),
    decreases k - from,
{
    if from < k {
        assert(v.bailouts[from].label != l);
        lemma_trap_at_first(v, l, k, from + 1);
    }
}

/// The listing of an array element load behind `v`: the bounds check of
/// `index` against the length of `array`, then the load of the element.
pub open spec fn checked_load(
    v: MasmView,
    pos: Position,
    mode: MachineMode,
    dest: Reg,
    array: Reg,
    index: Reg,
    temp: Reg,
) -> MasmView {
    v.check_index_out_of_bounds(pos, array, index, temp).load_array_elem(mode, dest, array, index)
}

/// An array element load gives the element if the index is within the
/// array, and raises `INDEX_OUT_OF_BOUNDS` if it is not; a negative index
/// is out of bounds.
///
/// The machine stands before the bounds check, with the address of the
/// array in `array` and the index in `index`. The length lies in the word
/// behind the header, the elements behind the length. With an index from
/// zero up to the length the element is in `dest` after four instructions;
/// with any other the trap is raised by the third.
pub proof fn lemma_array_get_checks(
    v: MasmView,
    pos: Position,
    mode: MachineMode,
    dest: Reg,
    array: Reg,
    index: Reg,
    temp: Reg,
    m: Machine,
)
    requires
        v.wf(),
        v.insns.len() + 4 <= usize::MAX,
        v.labels.len() + 1 <= usize::MAX,
        temp != array,
        temp != index,
        at(m, v.insns.len() as int),
        -0x8000_0000_0000_0000 <= m.regs[index] < 0x8000_0000_0000_0000,
        0 <= m.mem[m.regs[array] + offset_of_array_length()] < 0x8000_0000_0000_0000,
    ensures
        ({
            let w = checked_load(v, pos, mode, dest, array, index, temp);
            let len = m.mem[m.regs[array] + offset_of_array_length()];
            if 0 <= m.regs[index] < len {
                run(w, m, 4) matches Some(m1) && at(m1, w.insns.len() as int) && m1.regs[dest]
                    == m.mem[m.regs[array] + m.regs[index] * mode.size()
                    + offset_of_array_data()]
            } else {
                run(w, m, 3) matches Some(m1) && m1.trap == Some(Trap::INDEX_OUT_OF_BOUNDS)
            }
        }),
{
    let w = checked_load(v, pos, mode, dest, array, index, temp);
    let base = v.insns.len() as int;
    let lbl = Label(v.labels.len() as usize);
    let len = m.mem[m.regs[array] + offset_of_array_length()];
    assert(w.insns[base] == Insn::LoadMem(
        MachineMode::Int32,
        temp,
        Mem::Base(array, offset_of_array_length()),
    ));
    assert(w.insns[base + 1] == Insn::CmpReg(MachineMode::Int32, index, temp));
    assert(w.insns[base + 2] == Insn::JumpIf(CondCode::UnsignedGreaterEq, lbl));
    assert(w.insns[base + 3] == Insn::LoadMem(
        mode,
        dest,
        Mem::Index(array, index, mode.size(), offset_of_array_data()),
    ));
    let k = v.bailouts.len() as int;
    assert(w.bailouts[k].label == lbl);
    assert(w.bailouts[k].trap == Trap::INDEX_OUT_OF_BOUNDS);
    assert forall|j: int| 0 <= j < k implies (#[trigger] w.bailouts[j]).label != lbl by {
        assert(v.bailouts[j].label.0 < v.labels.len());
    }
    lemma_trap_at_first(w, lbl, k, 0);
    assert(w.labels[lbl.0 as int] is None);
    reveal_with_fuel(run, 5);
    let a1 = step(w, m).unwrap();
    assert(a1.regs[temp] == len);
    assert(a1.regs[index] == m.regs[index]);
    let a2 = step(w, a1).unwrap();
    assert(a2.flags.lhs == m.regs[index] && a2.flags.rhs == len);
    let a3 = step(w, a2).unwrap();
    if 0 <= m.regs[index] < len {
        assert(!holds(CondCode::UnsignedGreaterEq, a2.flags));
        assert(at(a3, base + 3));
        let a4 = step(w, a3).unwrap();
        assert(a3.regs[array] == m.regs[array]);
        assert(a3.mem == m.mem);
    } else {
        assert(holds(CondCode::UnsignedGreaterEq, a2.flags));
        assert(a3.trap == Some(Trap::INDEX_OUT_OF_BOUNDS));
    }
}

/// A method call on a null receiver raises `NIL` before the callee is
/// entered: the receiver is loaded to the first parameter register and
/// checked there.
pub proof fn lemma_null_receiver_traps(
    env: Env,
    s: GenState,
    id: NodeId,
    pos: Position,
    args: Seq<Arg>,
    temps: Seq<(BuiltinType, i32)>,
    first: i32,
    m: Machine,
)
    requires
        s.masm.wf(),
        s.masm.insns.len() + 4 <= usize::MAX,
        s.masm.labels.len() + 1 <= usize::MAX,
        0 < args.len() == temps.len(),
        marshal_args(env, s, id, pos, args, temps, 0, first) is Ok,
        at(m, s.masm.insns.len() as int),
        receiver_checked(env, id, args[0].ty()),
        m.mem[m.regs[REG_FP] + temps[0].1] == 0,
    ensures
        ({
            let f = marshal_args(env, s, id, pos, args, temps, 0, first).unwrap().masm;
            run(f, m, 3) matches Some(m1) && m1.trap == Some(Trap::NIL)
        }),
{
    let f = marshal_args(env, s, id, pos, args, temps, 0, first).unwrap().masm;
    let base = s.masm.insns.len() as int;
    let ty = args[0].ty();
    let offset = temps[0].1;
    let mode = mode_of(ty).unwrap();
    let reg = REG_PARAMS[0];
    let lbl = Label(s.masm.labels.len() as usize);
    let mv = s.masm.emit(Insn::LoadMem(mode, reg, Mem::Local(offset)));
    let m1v = mv.test_if_nil_bailout(pos, reg, Trap::NIL);
    lemma_marshal_extends(env, s.with(m1v), id, pos, args, temps, 1, first);
    assert(f.insns[base] == m1v.insns[base]);
    assert(f.insns[base + 1] == m1v.insns[base + 1]);
    assert(f.insns[base + 2] == m1v.insns[base + 2]);
    assert(f.insns[base] == Insn::LoadMem(mode, reg, Mem::Local(offset)));
    assert(f.insns[base + 1] == Insn::CmpZero(MachineMode::Ptr, reg));
    assert(f.insns[base + 2] == Insn::JumpIf(CondCode::Equal, lbl));
    assert(f.labels == m1v.labels);
    assert(f.bailouts == m1v.bailouts);
    let k = s.masm.bailouts.len() as int;
    assert(f.bailouts[k].label == lbl);
    assert forall|j: int| 0 <= j < k implies (#[trigger] f.bailouts[j]).label != lbl by {
        assert(s.masm.bailouts[j].label.0 < s.masm.labels.len());
    }
    lemma_trap_at_first(f, lbl, k, 0);
    reveal_with_fuel(run, 4);
    let a1 = step(f, m).unwrap();
    let a2 = step(f, a1).unwrap();
    let a3 = step(f, a2).unwrap();
    assert(a3.trap == Some(Trap::NIL));
}

/// The shape of the code of `a || b` and `a && b` in listing `w`: the code
/// of `a` ends at `p`, where its value is tested and a jump on `cond` goes
/// to `lbl_skip`; the code of `b` lies from `p + 2` to `q`, where its value
/// is tested; behind that `dest` is set to `1` at `lbl_true` and to `0` at
/// `lbl_false`, and the code ends at `lbl_end`. For `||` the jump is taken
/// on a true `a` and goes to `lbl_true`; for `&&` it is taken on a false
/// `a` and goes to `lbl_false`.
pub open spec fn short_circuits(
    w: MasmView,
    p: int,
    q: int,
    or: bool,
    lbl_true: Label,
    lbl_false: Label,
    lbl_end: Label,
    dest: Reg,
) -> bool {
    &&& 0 <= p
    &&& p + 2 <= q
    &&& q + 5 == w.insns.len()
    &&& w.insns[p] == Insn::CmpZero(MachineMode::Int32, REG_RESULT)
    &&& w.insns[p + 1] == if or {
        Insn::JumpIf(CondCode::NonZero, lbl_true)
    } else {
        Insn::JumpIf(CondCode::Zero, lbl_false)
    }
    &&& w.insns[q] == Insn::CmpZero(MachineMode::Int32, REG_RESULT)
    &&& w.insns[q + 1] == Insn::JumpIf(CondCode::Zero, lbl_false)
    &&& w.insns[q + 2] == Insn::LoadIntConst(MachineMode::Int32, dest, 1)
    &&& w.insns[q + 3] == Insn::Jump(lbl_end)
    &&& w.insns[q + 4] == Insn::LoadIntConst(MachineMode::Int32, dest, 0)
    &&& lbl_true.0 < w.labels.len()
    &&& lbl_false.0 < w.labels.len()
    &&& lbl_end.0 < w.labels.len()
    &&& w.labels[lbl_true.0 as int] == Some((q + 2) as usize)
    &&& w.labels[lbl_false.0 as int] == Some((q + 4) as usize)
    &&& w.labels[lbl_end.0 as int] == Some((q + 5) as usize)
}

/// What the code of `a || b` or `a && b` lowers to.
pub open spec fn short_circuit_code(
    env: Env,
    s: GenState,
    e: ExprBinType,
    or: bool,
    dest: Reg,
) -> GenResult {
    if or {
        emit_bin_or(env, s, e, dest)
    } else {
        emit_bin_and(env, s, e, dest)
    }
}

/// The code of each operand of `a || b` or `a && b` adds to the listing it
/// is emitted behind, and leaves what stands there at its place. The
/// generator emits every expression so.
pub open spec fn operands_extend(env: Env, s: GenState, e: ExprBinType, or: bool) -> bool {
    let (m1, lbl_true) = s.masm.create_label();
    let (m2, lbl_false) = m1.create_label();
    let (m3, lbl_end) = m2.create_label();
    match emit_expr(env, s.with(m3), *e.lhs, ExprStore::Reg(REG_RESULT)) {
        Ok(s1) => {
            let tested = if or {
                s1.masm.test_and_jump_if(CondCode::NonZero, REG_RESULT, lbl_true)
            } else {
                s1.masm.test_and_jump_if(CondCode::Zero, REG_RESULT, lbl_false)
            };
            &&& s1.masm.extends(m3)
            &&& match emit_expr(env, s1.with(tested), *e.rhs, ExprStore::Reg(REG_RESULT)) {
                Ok(s2) => s2.masm.extends(tested),
                Err(_) => true,
            }
        },
        Err(_) => true,
    }
}

/// The code that `a || b` and `a && b` lower to has the shape of a short
/// circuit: the code of `a`, the test that jumps over the code of `b`, the
/// code of `b`, and the outcome made up behind it. The three labels are
/// the next three of the listing.
#[verifier::rlimit(50)]
pub proof fn lemma_short_circuit_shape(
    env: Env,
    s: GenState,
    e: ExprBinType,
    or: bool,
    dest: Reg,
)
    requires
        short_circuit_code(env, s, e, or, dest) is Ok,
        operands_extend(env, s, e, or),
        s.masm.labels.len() + 3 <= usize::MAX,
        short_circuit_code(env, s, e, or, dest).unwrap().masm.insns.len() <= usize::MAX,
    ensures
        short_circuits(
            short_circuit_code(env, s, e, or, dest).unwrap().masm,
            left_end(env, s, e),
            right_end(env, s, e, or),
            or,
            Label(s.masm.labels.len() as usize),
            Label((s.masm.labels.len() + 1) as usize),
            Label((s.masm.labels.len() + 2) as usize),
            dest,
        ),
{
    let (m1, lbl_true) = s.masm.create_label();
    let (m2, lbl_false) = m1.create_label();
    let (m3, lbl_end) = m2.create_label();
    let s1 = emit_expr(env, s.with(m3), *e.lhs, ExprStore::Reg(REG_RESULT)).unwrap();
    let tested = if or {
        s1.masm.test_and_jump_if(CondCode::NonZero, REG_RESULT, lbl_true)
    } else {
        s1.masm.test_and_jump_if(CondCode::Zero, REG_RESULT, lbl_false)
    };
    let s2 = emit_expr(env, s1.with(tested), *e.rhs, ExprStore::Reg(REG_RESULT)).unwrap();
    let w = short_circuit_code(env, s, e, or, dest).unwrap().masm;
    let p = s1.masm.insns.len() as int;
    let q = s2.masm.insns.len() as int;
    assert(w == short_circuit_tail(s2.masm, lbl_true, lbl_false, lbl_end, dest));
    assert(tested.insns[p] == Insn::CmpZero(MachineMode::Int32, REG_RESULT));
    assert(s2.masm.insns[p] == tested.insns[p]);
    assert(s2.masm.insns[p + 1] == tested.insns[p + 1]);
    assert(w.insns.len() == q + 5);
    assert(m3.labels.len() == s.masm.labels.len() + 3);
    assert(tested.labels.len() >= m3.labels.len());
}

/// The position behind the code of the operand of a `try` with an
/// alternative: where the jump over the alternative stands.
pub open spec fn try_end(env: Env, s: GenState, e: crate::ast::ExprTryType, dest: ExprStore) -> int {
    match emit_expr(env, s.with(s.masm.create_label().0), *e.expr, dest) {
        Ok(s1) => s1.masm.insns.len() as int,
        Err(_) => 0,
    }
}

/// The code of the operand of a `try` and the code of its alternative each
/// add to the listing they are emitted behind, and leave what stands there
/// at its place. The generator emits every expression so.
pub open spec fn alternative_extends(
    env: Env,
    s: GenState,
    e: crate::ast::ExprTryType,
    dest: ExprStore,
) -> bool {
    let (m, lbl_after) = s.masm.create_label();
    match (e.mode, emit_expr(env, s.with(m), *e.expr, dest)) {
        (crate::ast::TryMode::Else(alt), Ok(s1)) => {
            let m1 = s1.masm.emit(Insn::Jump(lbl_after));
            &&& s1.masm.extends(m)
            &&& match emit_expr(env, s1.with(m1), *alt, dest) {
                Ok(s2) => s2.masm.extends(m1),
                Err(_) => true,
            }
        },
        _ => true,
    }
}

/// The shape of the code of a `try` with an alternative in listing `w`: the
/// last handler takes any exception raised from `start` up to `p`, where
/// the code of the operand ends, and resumes at `p + 1`, the first
/// instruction of the alternative; at `p` stands the jump behind the whole
/// code.
pub open spec fn try_guards(w: MasmView, start: int, p: int, lbl_after: Label) -> bool {
    &&& 0 <= p < w.insns.len()
    &&& w.insns[p] == Insn::Jump(lbl_after)
    &&& lbl_after.0 < w.labels.len()
    &&& w.labels[lbl_after.0 as int] == Some(w.insns.len() as usize)
    &&& w.handlers.len() > 0
    &&& w.handlers.last() == (crate::fct::ExHandler {
        try_start: start as usize,
        try_end: p as usize,
        catch: (p + 1) as usize,
        offset: None,
        catch_type: crate::fct::CatchType::Any,
    })
}

/// The code that a `try` with an alternative lowers to guards the code of
/// its operand: the handler that is recorded last takes any exception
/// raised in it, and resumes at the alternative.
#[verifier::rlimit(50)]
pub proof fn lemma_try_else_guards(env: Env, s: GenState, e: crate::ast::ExprTryType, dest: ExprStore)
    requires
        e.mode is Else,
        crate::lowering::emit_try(env, s, e, dest) is Ok,
        alternative_extends(env, s, e, dest),
        s.masm.labels.len() + 1 <= usize::MAX,
        crate::lowering::emit_try(env, s, e, dest).unwrap().masm.insns.len() <= usize::MAX,
    ensures
        try_guards(
            crate::lowering::emit_try(env, s, e, dest).unwrap().masm,
            s.masm.insns.len() as int,
            try_end(env, s, e, dest),
            Label(s.masm.labels.len() as usize),
        ),
{
    let (mv, lbl_after) = s.masm.create_label();
    let s1 = emit_expr(env, s.with(mv), *e.expr, dest).unwrap();
    let m1v = s1.masm.emit(Insn::Jump(lbl_after));
    let alt = e.mode->Else_0;
    let s2 = emit_expr(env, s1.with(m1v), *alt, dest).unwrap();
    let w = s2.masm.emit_exception_handler(
        (mv.pos(), s1.masm.pos()),
        m1v.pos(),
        None,
        crate::fct::CatchType::Any,
    ).bind_label(lbl_after);
    assert(crate::lowering::emit_try(env, s, e, dest).unwrap().masm == w);
    let p = s1.masm.insns.len() as int;
    assert(s2.masm.insns[p] == m1v.insns[p]);
    assert(mv.labels.len() == s.masm.labels.len() + 1);
    assert(mv.labels.len() <= s1.masm.labels.len());
    assert(m1v.labels.len() <= s2.masm.labels.len());
    assert(mv.insns.len() <= s1.masm.insns.len());
    assert(w.insns == s2.masm.insns);
}

/// Where no exception is raised, the alternative of a `try` does not run.
///
/// A machine that comes to the end of the operand's code jumps behind the
/// whole code: it runs no instruction of the alternative, and its
/// registers, the value of the operand among them, and its memory are as
/// they were.
pub proof fn lemma_try_else_skips(w: MasmView, start: int, p: int, lbl_after: Label, m: Machine)
    requires
        try_guards(w, start, p, lbl_after),
        w.insns.len() <= usize::MAX,
        at(m, p),
    ensures
        run(w, m, 1) matches Some(m1) && at(m1, w.insns.len() as int) && m1.regs == m.regs && m1.mem
            == m.mem,
{
    reveal_with_fuel(run, 2);
    let a1 = step(w, m).unwrap();
}

/// The machine is running, and not at a position from `from` up to `to`.
pub open spec fn outside(m: Option<Machine>, from: int, to: int) -> bool {
    match m {
        Some(m) => !(from <= m.pc < to),
        None => false,
    }
}

/// Number of instructions that run when the left operand decides.
pub open spec fn short_steps(or: bool) -> nat {
    if or {
        4
    } else {
        3
    }
}

/// Where the left operand of `||` or `&&` decides, the right operand does
/// not run.
///
/// The machine stands behind the code of `a` with the value of `a` in the
/// result register: a true one for `||`, a false one for `&&`. Then the
/// code runs to its end and leaves the value of `a` in `dest` as `1` or
/// `0`, and on its way the machine stands at no position of the code of
/// `b`.
pub proof fn lemma_short_circuit(
    w: MasmView,
    p: int,
    q: int,
    or: bool,
    lbl_true: Label,
    lbl_false: Label,
    lbl_end: Label,
    dest: Reg,
    m: Machine,
)
    requires
        short_circuits(w, p, q, or, lbl_true, lbl_false, lbl_end, dest),
        w.insns.len() <= usize::MAX,
        at(m, p),
        or == (m.regs[REG_RESULT] != 0),
    ensures
        run(w, m, short_steps(or)) matches Some(m1) && at(m1, w.insns.len() as int) && m1.regs[dest]
            == truth(or),
        forall|k: nat| k <= short_steps(or) ==> outside(#[trigger] run(w, m, k), p + 2, q),
{
    reveal_with_fuel(run, 5);
    let a1 = step(w, m).unwrap();
    let a2 = step(w, a1).unwrap();
    let a3 = step(w, a2).unwrap();
    assert(run(w, m, 0) == Some(m));
    assert(run(w, m, 1) == Some(a1));
    assert(run(w, m, 2) == Some(a2));
    assert(run(w, m, 3) == Some(a3));
    if or {
        assert(at(a2, q + 2));
        let a4 = step(w, a3).unwrap();
        assert(run(w, m, 4) == Some(a4));
        assert forall|k: nat| k <= 4 implies outside(#[trigger] run(w, m, k), p + 2, q) by {
            assert(k == 0 || k == 1 || k == 2 || k == 3 || k == 4);
        }
    } else {
        assert(at(a2, q + 4));
        assert forall|k: nat| k <= 3 implies outside(#[trigger] run(w, m, k), p + 2, q) by {
            assert(k == 0 || k == 1 || k == 2 || k == 3);
        }
    }
}

/// The code that brings the value of call argument `arg` into the result
/// register.
pub open spec fn arg_value(
    env: Env,
    s: GenState,
    node: Expr,
    arg: Arg,
    pos: Position,
    dest: ExprStore,
) -> GenResult {
    match arg {
        Arg::Expr(k, _, _) => if k < node.operands().len() {
            emit_expr(env, s, node.operands()[k as int], ExprStore::Reg(REG_RESULT))
        } else {
            Err(GenError::MissingInfo)
        },
        Arg::Selfie(_, _) => emit_self(env, s, REG_RESULT),
        Arg::SelfieNew(cls_id, _) => emit_alloc(env, s, cls_id, pos, dest),
    }
}

/// The code of the value of each call argument from `i` on leaves the live
/// reference temporaries as it found them. The generator emits every
/// expression so: what an expression takes it gives up.
pub open spec fn values_keep_temps(
    env: Env,
    s: GenState,
    node: Expr,
    args: Seq<Arg>,
    pos: Position,
    dest: ExprStore,
    i: int,
) -> bool
    decreases args.len() - i,
{
    if !(0 <= i < args.len()) {
        true
    } else {
        match arg_value(env, s, node, args[i], pos, dest) {
            Err(_) => true,
            Ok(s1) => s1.temps == s.temps && match reserve_temp_for_arg(
                env,
                s1,
                args[i],
            ) {
                Err(_) => true,
                Ok((s2, offset)) => match mode_of(args[i].ty()) {
                    Err(_) => true,
                    Ok(mode) => values_keep_temps(
                        env,
                        s2.emit(Insn::StoreMem(mode, Mem::Local(offset), REG_RESULT)),
                        node,
                        args,
                        pos,
                        dest,
                        i + 1,
                    ),
                },
            },
        }
    }
}

/// The slots of the call arguments from `i` on that hold a reference.
pub open spec fn arg_slots(env: Env, args: Seq<Arg>, i: int) -> Set<i32>
    decreases args.len() - i,
{
    if !(0 <= i < args.len()) {
        Set::empty()
    } else {
        let rest = arg_slots(env, args, i + 1);
        match temp_offset(env.src.localsize, args[i].offset()) {
            Ok(offset) => if args[i].ty().reference_type() {
                rest.insert(offset)
            } else {
                rest
            },
            Err(_) => rest,
        }
    }
}

/// Once the arguments of a call are evaluated and spilled, the slot of
/// every argument that is a reference is among the live reference
/// temporaries, beside those that were live before: so the safepoint of
/// the call, which lists the live temporaries, lists them all.
#[verifier::rlimit(50)]
pub proof fn lemma_args_live(
    env: Env,
    s: GenState,
    node: Expr,
    args: Seq<Arg>,
    pos: Position,
    dest: ExprStore,
    i: int,
    temps: Seq<(BuiltinType, i32)>,
)
    requires
        0 <= i <= args.len(),
        emit_args(env, s, node, args, pos, dest, i, temps) is Ok,
        values_keep_temps(env, s, node, args, pos, dest, i),
    ensures
        ({
            let (f, slots) = emit_args(env, s, node, args, pos, dest, i, temps).unwrap();
            &&& f.temps == s.temps.union(arg_slots(env, args, i))
            &&& slots.len() == temps.len() + args.len() - i
        }),
    decreases args.len() - i,
{
    if i < args.len() {
        let arg = args[i];
        let s1 = arg_value(env, s, node, arg, pos, dest).unwrap();
        let (s2, offset) = reserve_temp_for_arg(env, s1, arg).unwrap();
        let mode = mode_of(arg.ty()).unwrap();
        let s3 = s2.emit(Insn::StoreMem(mode, Mem::Local(offset), REG_RESULT));
        lemma_args_live(env, s3, node, args, pos, dest, i + 1, temps.push((arg.ty(), offset)));
        let (f, slots) = emit_args(env, s, node, args, pos, dest, i, temps).unwrap();
        assert(f.temps =~= s.temps.union(arg_slots(env, args, i)));
    } else {
        assert(s.temps.union(arg_slots(env, args, i)) =~= s.temps);
    }
}

/// The safepoint of a call lists exactly the slots that hold a live
/// reference at the call: those of the reference variables in scope and
/// those of the reference temporaries that are taken.
///
/// A call of the code at `ptr` is emitted as the load of the address and
/// the call instruction; the safepoint is recorded at the position behind
/// the call instruction, where the callee returns to.
pub proof fn lemma_direct_call_safepoint(
    env: Env,
    s: GenState,
    ptr: u64,
    pos: Position,
    ty: BuiltinType,
    dest: ExprStore,
)
    requires
        s.masm.insns.len() + 2 <= usize::MAX,
        emit_direct_call_insn(env, s, ptr, pos, ty, dest) is Ok,
    ensures
        ({
            let f = emit_direct_call_insn(env, s, ptr, pos, ty, dest).unwrap();
            let call = s.masm.insns.len() as int + 1;
            &&& f.masm.insns[call] == Insn::CallReg(REG_RESULT)
            &&& f.masm.gcpoints == s.masm.gcpoints.push(
                ((call + 1) as usize, env.scopes.union(s.temps)),
            )
            &&& f.temps == s.temps
        }),
{
}

/// The safepoint of a call through the dispatch table lists exactly the
/// slots that hold a live reference at the call.
pub proof fn lemma_indirect_call_safepoint(
    env: Env,
    s: GenState,
    index: u32,
    pos: Position,
    ty: BuiltinType,
    dest: ExprStore,
)
    requires
        s.masm.insns.len() + 3 <= usize::MAX,
        emit_indirect_call_insn(env, s, index, pos, ty, dest) is Ok,
    ensures
        ({
            let f = emit_indirect_call_insn(env, s, index, pos, ty, dest).unwrap();
            let call = s.masm.insns.len() as int + 2;
            &&& f.masm.insns[call] == Insn::CallReg(REG_RESULT)
            &&& f.masm.gcpoints == s.masm.gcpoints.push(
                ((call + 1) as usize, env.scopes.union(s.temps)),
            )
            &&& f.temps == s.temps
        }),
{
}

/// Moving the arguments to where the callee expects them takes and gives up
/// no temporary and records no safepoint.
pub proof fn lemma_marshal_keeps(
    env: Env,
    s: GenState,
    id: NodeId,
    pos: Position,
    args: Seq<Arg>,
    temps: Seq<(BuiltinType, i32)>,
    i: int,
    arg_offset: i32,
)
    requires
        marshal_args(env, s, id, pos, args, temps, i, arg_offset) is Ok,
        0 <= i,
    ensures
        ({
            let f = marshal_args(env, s, id, pos, args, temps, i, arg_offset).unwrap();
            &&& f.temps == s.temps
            &&& f.masm.gcpoints == s.masm.gcpoints
            &&& s.masm.insns.len() <= f.masm.insns.len()
        }),
    decreases args.len() - i,
{
    if i < args.len() && i < temps.len() {
        let ty = args[i].ty();
        let offset = temps[i].1;
        let mode = mode_of(ty).unwrap();
        if i < REG_PARAMS@.len() {
            let reg = REG_PARAMS[i];
            let m = s.masm.emit(Insn::LoadMem(mode, reg, Mem::Local(offset)));
            let m1 = if i == 0 && receiver_checked(env, id, ty) {
                m.test_if_nil_bailout(pos, reg, Trap::NIL)
            } else {
                m
            };
            lemma_marshal_keeps(env, s.with(m1), id, pos, args, temps, i + 1, arg_offset);
        } else {
            let m = s.masm.emit(Insn::LoadMem(mode, REG_TMP1, Mem::Local(offset))).emit(
                Insn::StoreMem(mode, Mem::Local(arg_offset), REG_TMP1),
            );
            lemma_marshal_keeps(
                env,
                s.with(m),
                id,
                pos,
                args,
                temps,
                i + 1,
                (arg_offset + 8) as i32,
            );
        }
    }
}

/// Giving up the argument slots changes nothing in the listing.
pub proof fn lemma_free_temps_listing(s: GenState, temps: Seq<(BuiltinType, i32)>, i: int)
    requires
        free_temps(s, temps, i) is Ok,
    ensures
        free_temps(s, temps, i).unwrap().masm == s.masm,
    decreases temps.len() - i,
{
    if 0 <= i < temps.len() {
        lemma_free_temps_listing(
            free_slot(s, temps[i].0, temps[i].1).unwrap(),
            temps,
            i + 1,
        );
    }
}

/// Whether the last safepoint of listing `w` is that of a call with the
/// live reference slots `refs`: it stands behind a call instruction, and
/// lists `refs`.
pub open spec fn call_safepoint(w: MasmView, refs: Set<i32>) -> bool {
    &&& w.gcpoints.len() > 0
    &&& w.gcpoints.last().1 == refs
    &&& 0 < w.gcpoints.last().0 <= w.insns.len()
    &&& w.insns[w.gcpoints.last().0 - 1] == Insn::CallReg(REG_RESULT)
}

/// Whatever the callee of a call site is, a function called at its address,
/// a method called through the dispatch table or a native function called
/// through its stub: the call records one safepoint, behind the call
/// instruction, which lists the slots of the reference variables in scope
/// and of the live reference temporaries.
pub proof fn lemma_dispatch_safepoint(
    env: Env,
    s: GenState,
    csite: CallSite,
    pos: Position,
    dest: ExprStore,
)
    requires
        dispatch(env, s, csite, pos, dest) is Ok,
        dispatch(env, s, csite, pos, dest).unwrap().masm.insns.len() <= usize::MAX,
    ensures
        ({
            let f = dispatch(env, s, csite, pos, dest).unwrap();
            &&& f.temps == s.temps
            &&& f.masm.gcpoints.len() == s.masm.gcpoints.len() + 1
            &&& f.masm.gcpoints.drop_last() == s.masm.gcpoints
            &&& call_safepoint(f.masm, env.scopes.union(s.temps))
        }),
{
    let f = dispatch(env, s, csite, pos, dest).unwrap();
    assert(f.masm.gcpoints.drop_last() =~= s.masm.gcpoints);
}

/// The allocation of a new instance is a call of the allocator, and a
/// safepoint as every call is: it records one safepoint, behind the call
/// instruction, which lists the slots of the reference variables in scope
/// and of the reference temporaries that are live at that moment. The
/// allocation takes and gives up no temporary.
#[verifier::rlimit(50)]
pub proof fn lemma_alloc_safepoint(
    env: Env,
    s: GenState,
    cls_id: crate::class::ClassId,
    pos: Position,
    dest: ExprStore,
)
    requires
        emit_alloc(env, s, cls_id, pos, dest) is Ok,
        emit_alloc(env, s, cls_id, pos, dest).unwrap().masm.insns.len() <= usize::MAX,
    ensures
        ({
            let f = emit_alloc(env, s, cls_id, pos, dest).unwrap();
            let call = s.masm.insns.len() as int + 2;
            &&& f.temps == s.temps
            &&& f.masm.insns[call] == Insn::CallReg(REG_RESULT)
            &&& f.masm.gcpoints == s.masm.gcpoints.push(
                ((call + 1) as usize, env.scopes.union(s.temps)),
            )
        }),
{
}

/// The safepoint of a call site lists the slots of the reference variables
/// in scope, of the reference temporaries that were live before the call,
/// and of every argument that is a reference: the arguments are still in
/// their slots when the callee runs, and are given up behind the call.
#[verifier::rlimit(50)]
pub proof fn lemma_call_safepoint(
    env: Env,
    s: GenState,
    node: Expr,
    id: NodeId,
    pos: Position,
    dest: ExprStore,
)
    requires
        emit_universal_call(env, s, node, id, pos, dest) is Ok,
        emit_universal_call(env, s, node, id, pos, dest).unwrap().masm.insns.len()
            <= usize::MAX,
        values_keep_temps(
            env,
            s,
            node,
            env.src.map_csites.spec_get(id).unwrap().args@,
            pos,
            dest,
            0,
        ),
    ensures
        ({
            let f = emit_universal_call(env, s, node, id, pos, dest).unwrap();
            let args = env.src.map_csites.spec_get(id).unwrap().args@;
            call_safepoint(f.masm, env.scopes.union(s.temps.union(arg_slots(env, args, 0))))
        }),
{
    let csite = env.src.map_csites.spec_get(id).unwrap();
    let args = csite.args@;
    let (s1, temps) = emit_args(env, s, node, args, pos, dest, 0, Seq::empty()).unwrap();
    lemma_args_live(env, s, node, args, pos, dest, 0, Seq::empty());
    let stacksize = env.src.spec_stacksize().unwrap();
    let s2 = marshal_args(env, s1, id, pos, args, temps, 0, (-stacksize) as i32).unwrap();
    lemma_marshal_keeps(env, s1, id, pos, args, temps, 0, (-stacksize) as i32);
    let s3 = dispatch(env, s2, csite, pos, dest).unwrap();
    let s4 = reload_new(s3, args, temps, dest).unwrap();
    lemma_free_temps_listing(s4, temps, 0);
    let f = emit_universal_call(env, s, node, id, pos, dest).unwrap();
    assert(f.masm == s4.masm);
    assert(s3.masm.insns.len() <= s4.masm.insns.len());
    lemma_dispatch_safepoint(env, s2, csite, pos, dest);
    assert(s4.masm.gcpoints == s3.masm.gcpoints);
    assert(s4.masm.insns[s3.masm.gcpoints.last().0 - 1] == s3.masm.insns[s3.masm.gcpoints.last().0
        - 1]);
}

/// A listing in which no call is left to cover has a safepoint at the
/// position behind every call.
pub proof fn lemma_calls_covered(v: MasmView, i: int)
    requires
        v.uncovered() == Set::<int>::empty(),
        0 <= i < v.insns.len(),
        v.insns[i].is_call(),
    ensures
        v.has_gcpoint(i + 1),
{
    assert(!v.uncovered().contains(i));
}

/// Number of instructions that `as` runs, for a deep class.
pub open spec fn deep_cast_steps(m: Machine, dest: Reg, s: VTable, t: VTable) -> nat {
    if m.regs[dest] == 0 {
        2
    } else if s.subtype_depth < t.subtype_depth {
        8
    } else if s.is_subtype_of(&t) {
        12
    } else {
        11
    }
}

/// `x as T` keeps the object exactly if it is null or of class `T` or a
/// descendant of `T`, and raises `CAST` otherwise, for a `T` of depth
/// `DISPLAY_SIZE` or more. What holds of machine and memory is as for a `T`
/// in the display.
#[verifier::rlimit(50)]
pub proof fn lemma_as_casts_deep_subtype(
    env: Env,
    s: GenState,
    id: NodeId,
    pos: Position,
    object_id: NodeId,
    dest: Reg,
    m: Machine,
    cls: VTable,
)
    requires
        s.masm.wf(),
        s.masm.insns.len() + 16 <= usize::MAX,
        s.masm.labels.len() + 4 <= usize::MAX,
        conv_check(env, s, id, false, pos, object_id, dest) is Ok,
        !env.src.map_convs.spec_get(id).unwrap().valid,
        target(env, id).subtype_depth >= DISPLAY_SIZE,
        at(m, s.masm.insns.len() as int),
        dest != REG_FP,
        m.regs[dest] != 0 ==> {
            let slot = m.regs[REG_FP] + spill_offset(env, s, dest, object_id);
            let mem = m.mem.insert(slot, m.regs[dest]);
            &&& mem[m.regs[dest]] == cls.ptr
            &&& cls.wf()
            &&& cls.laid_out(mem)
        },
    ensures
        ({
            let w = conv_check(env, s, id, false, pos, object_id, dest).unwrap().masm;
            run(w, m, deep_cast_steps(m, dest, cls, target(env, id))) matches Some(m1) && cast_done(
                m,
                m1,
                w.insns.len() as int,
                dest,
                cls,
                target(env, id),
            )
        }),
{
    let w = conv_check(env, s, id, false, pos, object_id, dest).unwrap().masm;
    let t = target(env, id);
    let base = s.masm.insns.len() as int;
    let lbl_nil = Label(s.masm.labels.len() as usize);
    let lbl_false = Label((s.masm.labels.len() + 1) as usize);
    let lbl_finished = Label((s.masm.labels.len() + 2) as usize);
    let depth = t.subtype_depth;
    let offset = spill_offset(env, s, dest, object_id);
    let (m0, l0) = s.masm.test_if_nil(dest);
    let s0 = s.with(m0);
    let (s1, off1) = reserve_temp_for_node(env, s0, object_id).unwrap();
    assert(s1.masm == m0);
    let m1v = m0.emit(Insn::StoreMem(MachineMode::Ptr, Mem::Local(offset), dest)).emit(
        Insn::LoadMem(MachineMode::Ptr, REG_TMP1, Mem::Base(dest, 0)),
    );
    assert(m1v.fits());
    let (m2v, disp) = m1v.add_addr(t.ptr);
    let m3v = m2v.emit(Insn::LoadConstPool(REG_TMP2, m2v.pool_disp(disp)));
    lemma_next_disp(m1v.dseg.size as int, 8);
    assert(m2v.pool_disp(disp) == disp + base + 4);
    let tested = overflow_test(m3v, depth, false, pos, offset, dest);
    assert(w == tested.bind_label(lbl_nil));
    assert(w.insns[base] == Insn::CmpZero(MachineMode::Ptr, dest));
    assert(w.insns[base + 1] == Insn::JumpIf(CondCode::Equal, lbl_nil));
    assert(w.insns[base + 2] == Insn::StoreMem(MachineMode::Ptr, Mem::Local(offset), dest));
    assert(w.insns[base + 3] == Insn::LoadMem(MachineMode::Ptr, REG_TMP1, Mem::Base(dest, 0)));
    assert(w.insns[base + 4] == Insn::LoadConstPool(REG_TMP2, (disp + base + 4) as i32));
    assert(w.insns[base + 5] == Insn::CmpMemImm(
        MachineMode::Int32,
        Mem::Base(REG_TMP1, offset_of_depth()),
        depth,
    ));
    assert(w.insns[base + 6] == Insn::JumpIf(CondCode::Less, lbl_false));
    assert(w.insns[base + 7] == Insn::LoadMem(
        MachineMode::Ptr,
        REG_TMP1,
        Mem::Base(REG_TMP1, offset_of_overflow()),
    ));
    assert(w.insns[base + 8] == Insn::CmpMem(
        MachineMode::Ptr,
        Mem::Base(REG_TMP1, offset_in_overflow(depth)),
        REG_TMP2,
    ));
    assert(w.insns[base + 9] == Insn::JumpIf(CondCode::NonZero, lbl_false));
    assert(w.insns[base + 10] == Insn::LoadMem(MachineMode::Ptr, dest, Mem::Local(offset)));
    assert(w.insns[base + 11] == Insn::Jump(lbl_finished));
    assert(w.insns[base + 12] == Insn::Trap(Trap::CAST));
    assert(w.insns.len() == base + 13);
    assert(w.labels[lbl_nil.0 as int] == Some((base + 13) as usize));
    assert(w.labels[lbl_false.0 as int] == Some((base + 12) as usize));
    assert(w.labels[lbl_finished.0 as int] == Some((base + 13) as usize));
    assert(w.dseg.entries.last().disp == disp);
    assert(pool_entry(w.dseg.entries, disp as int, w.dseg.entries.len() as int) == Some(
        crate::dseg::DSegValue::Ptr(t.ptr),
    ));
    reveal_with_fuel(run, 13);
    let a1 = step(w, m).unwrap();
    let a2 = step(w, a1).unwrap();
    if m.regs[dest] == 0 {
        assert(at(a2, w.insns.len() as int));
        assert(run(w, m, 2) == Some(a2));
    } else {
        let a3 = step(w, a2).unwrap();
        let slot = m.regs[REG_FP] + offset;
        assert(a3.mem == m.mem.insert(slot, m.regs[dest]));
        let a4 = step(w, a3).unwrap();
        assert(a4.regs[REG_TMP1] == cls.ptr);
        let a5 = step(w, a4).unwrap();
        assert(a5.regs[REG_TMP2] == t.ptr);
        let a6 = step(w, a5).unwrap();
        assert(a6.flags.lhs == cls.subtype_depth);
        let a7 = step(w, a6).unwrap();
        if cls.subtype_depth < depth {
            assert(at(a7, base + 12));
            let a8 = step(w, a7).unwrap();
            assert(a8.trap == Some(Trap::CAST));
            assert(run(w, m, 8) == Some(a8));
        } else {
            assert(at(a7, base + 7));
            let a8 = step(w, a7).unwrap();
            assert(a8.regs[REG_TMP1] == cls.subtype_overflow_ptr);
            let a9 = step(w, a8).unwrap();
            assert(a3.mem[cls.subtype_overflow_ptr + (depth - DISPLAY_SIZE) * PTR_WIDTH]
                == cls.subtype_overflow@[depth - DISPLAY_SIZE]);
            assert(a9.flags.lhs == cls.subtype_overflow@[depth - DISPLAY_SIZE]);
            assert(a9.flags.rhs == t.ptr);
            let a10 = step(w, a9).unwrap();
            if cls.is_subtype_of(&t) {
                assert(at(a10, base + 10));
                let a11 = step(w, a10).unwrap();
                assert(a11.regs[dest] == m.regs[dest]);
                let a12 = step(w, a11).unwrap();
                assert(at(a12, base + 13));
                assert(run(w, m, 12) == Some(a12));
            } else {
                assert(at(a10, base + 12));
                let a11 = step(w, a10).unwrap();
                assert(a11.trap == Some(Trap::CAST));
                assert(run(w, m, 11) == Some(a11));
            }
        }
    }
}

} // verus!
