use dora::codegen::CondCode;
use dora::cpu::{FReg, Mem, Reg};
use dora::dseg::{DSeg, DSegValue};
use dora::fct::{CatchType, Comment, ExHandler, GcPoint};
use dora::lexer::Position;
use dora::masm::{Bailout, Insn, IntOp, Label, MacroAssembler};
use dora::trap::Trap;
use dora::ty::{BuiltinType, MachineMode};

fn insns(masm: &MacroAssembler) -> Vec<Insn> {
    (0..masm.len()).map(|i| masm.insn(i)).collect()
}

#[test]
fn labels_are_numbered_and_bound_to_the_position() {
    let mut masm = MacroAssembler::new();
    assert_eq!(masm.pos(), 0);
    let a = masm.create_label();
    let b = masm.create_label();
    assert_eq!((a, b), (Label(0), Label(1)));
    assert_eq!(masm.labels_len(), 2);
    masm.jump(b);
    masm.bind_label(a);
    masm.jump_if(CondCode::Less, a);
    masm.load_true(Reg::RAX);
    masm.bind_label(b);
    assert_eq!(masm.label_pos(a), Some(1));
    assert_eq!(masm.label_pos(b), Some(3));
    assert_eq!(
        insns(&masm),
        vec![Insn::Jump(Label(1)), Insn::JumpIf(CondCode::Less, Label(0)), Insn::LoadIntConst(MachineMode::Int32, Reg::RAX, 1)]
    );
    assert_eq!(masm.pos(), 3);
}

#[test]
fn addresses_go_to_the_pool_word_by_word() {
    let mut masm = MacroAssembler::new();
    assert_eq!(masm.add_addr(0xdead), 8);
    assert_eq!(masm.add_addr(0xbeef), 16);
    assert_eq!(masm.dseg().size(), 16);
    assert_eq!(masm.dseg().len(), 2);
    assert_eq!(masm.dseg().entry(1).value, DSegValue::Ptr(0xbeef));
    assert_eq!(masm.dseg().entry(1).disp, 16);
    masm.load_nil(Reg::RAX);
    assert_eq!(masm.pool_disp(16), 17);
    masm.load_constpool(Reg::RCX, 17);
    assert_eq!(masm.insn(1), Insn::LoadConstPool(Reg::RCX, 17));
    assert!(masm.fits());
}

#[test]
fn pool_entries_are_aligned_to_their_width() {
    let mut dseg = DSeg::new();
    assert_eq!(dseg.add_float(7), 4);
    // a word behind four bytes starts at the next multiple of eight
    assert_eq!(dseg.add_addr(1), 16);
    assert_eq!(dseg.add_float(8), 20);
    assert_eq!(dseg.add_double(9), 32);
    assert_eq!(dseg.size(), 32);
    assert_eq!(dseg.entry(3).value, DSegValue::Double(9));

    let mut masm = MacroAssembler::new();
    masm.load_float_const(MachineMode::Float32, FReg::XMM0, 0x4000_0000);
    masm.load_float_const(MachineMode::Float64, FReg::XMM1, 0x4000_0000_0000_0000);
    assert_eq!(
        insns(&masm),
        vec![
            Insn::LoadFloatConst(MachineMode::Float32, FReg::XMM0, 4),
            Insn::LoadFloatConst(MachineMode::Float64, FReg::XMM1, 17),
        ]
    );
}

#[test]
fn tables_record_the_position() {
    let mut masm = MacroAssembler::new();
    masm.debug();
    masm.emit_lineno(12);
    masm.emit_comment(Comment::CheckAssert);
    masm.emit_gcpoint(GcPoint::from_offsets(vec![-8, -16]));
    masm.emit_exception_handler((0, 1), 1, Some(-24), CatchType::Any);
    masm.debug();
    masm.emit_gcpoint(GcPoint::new());
    assert_eq!(masm.lineno(0), (1, 12));
    assert_eq!(masm.linenos_len(), 1);
    assert_eq!(masm.comment(0), (1, Comment::CheckAssert));
    assert_eq!(masm.comments_len(), 1);
    assert_eq!(masm.gcpoint_pos(0), 1);
    assert_eq!(masm.gcpoint(0).offsets, vec![-8, -16]);
    assert_eq!(masm.gcpoint(0).duplicate().offsets, vec![-8, -16]);
    assert_eq!(masm.gcpoint_pos(1), 2);
    assert_eq!(masm.gcpoints_len(), 2);
    assert_eq!(
        masm.handler(0),
        ExHandler { try_start: 0, try_end: 1, catch: 1, offset: Some(-24), catch_type: CatchType::Any }
    );
}

#[test]
fn finish_places_the_trap_exits_in_order() {
    let mut masm = MacroAssembler::new();
    masm.test_if_nil_bailout(Position::new(3, 1), Reg::RDI, Trap::NIL);
    masm.int_mod(MachineMode::Int64, Reg::RAX, Reg::RAX, Reg::RCX);
    masm.emit_bailout_inplace(Trap::ASSERT, Position::new(9, 2));
    assert_eq!(
        insns(&masm),
        vec![
            Insn::CmpZero(MachineMode::Ptr, Reg::RDI),
            Insn::JumpIf(CondCode::Equal, Label(0)),
            Insn::CmpZero(MachineMode::Int64, Reg::RCX),
            Insn::JumpIf(CondCode::Zero, Label(1)),
            Insn::IntArith(IntOp::Mod, MachineMode::Int64, Reg::RAX, Reg::RAX, Reg::RCX),
            Insn::Trap(Trap::ASSERT),
        ]
    );
    assert_eq!(masm.lineno(0), (6, 9));
    assert_eq!(masm.bailout(0), Bailout { label: Label(0), trap: Trap::NIL, pos: Position::new(3, 1) });
    assert_eq!(masm.bailouts_len(), 2);
    masm.finish();
    assert_eq!(masm.bailouts_len(), 0);
    assert_eq!(masm.insn(6), Insn::Trap(Trap::NIL));
    assert_eq!(masm.insn(7), Insn::Trap(Trap::DIV0));
    assert_eq!(masm.label_pos(Label(0)), Some(6));
    assert_eq!(masm.label_pos(Label(1)), Some(7));
    assert_eq!(masm.lineno(1), (7, 3));
    assert_eq!(masm.lineno(2), (8, 1));
}

#[test]
fn jit_hands_the_finished_listing_over() {
    let mut masm = MacroAssembler::new();
    masm.prolog(32);
    let l = masm.test_if_nil(Reg::RAX);
    masm.emit_bailout(l, Trap::NIL, Position::new(1, 1));
    masm.epilog(32);
    let f = masm.jit(32, 0x4000);
    assert_eq!(f.fct_ptr(), 0x4000);
    assert_eq!(f.listing().len(), 5);
    // prolog 11, test 3, jump 6, epilog 5, trap 8
    assert_eq!(f.fct_len(), 33);
    assert_eq!(f.fct_end(), 0x4021);
    assert_eq!(f.framesize(), 32);
    assert_eq!(f.listing().insn(4), Insn::Trap(Trap::NIL));
    assert_eq!(f.listing().label_pos(Label(0)), Some(4));
}

#[test]
fn calls_go_through_a_register() {
    let mut masm = MacroAssembler::new();
    masm.direct_call(0x1234);
    masm.indirect_call(0);
    assert_eq!(
        insns(&masm),
        vec![
            Insn::LoadConstPool(Reg::RAX, 8),
            Insn::CallReg(Reg::RAX),
            Insn::LoadMem(MachineMode::Ptr, Reg::RAX, Mem::Base(Reg::RDI, 0)),
            Insn::LoadMem(MachineMode::Ptr, Reg::RAX, Mem::Base(Reg::RAX, 80)),
            Insn::CallReg(Reg::RAX),
        ]
    );
}

#[test]
fn array_elements_lie_behind_header_and_length() {
    let mut masm = MacroAssembler::new();
    masm.load_array_elem(MachineMode::Int8, Reg::RAX, Reg::RCX, Reg::RDX);
    masm.store_array_elem(MachineMode::Int64, Reg::RCX, Reg::RDX, Reg::RAX);
    masm.check_index_out_of_bounds(Position::new(2, 2), Reg::RCX, Reg::RDX, Reg::R11);
    assert_eq!(
        insns(&masm),
        vec![
            Insn::LoadMem(MachineMode::Int8, Reg::RAX, Mem::Index(Reg::RCX, Reg::RDX, 1, 16)),
            Insn::StoreMem(MachineMode::Int64, Mem::Index(Reg::RCX, Reg::RDX, 8, 16), Reg::RAX),
            Insn::LoadMem(MachineMode::Int32, Reg::R11, Mem::Base(Reg::RCX, 8)),
            Insn::CmpReg(MachineMode::Int32, Reg::RDX, Reg::R11),
            Insn::JumpIf(CondCode::UnsignedGreaterEq, Label(0)),
        ]
    );
    assert_eq!(masm.bailout(0).trap, Trap::INDEX_OUT_OF_BOUNDS);
}

#[test]
fn types_have_their_modes() {
    assert_eq!(BuiltinType::Bool.mode(), MachineMode::Int8);
    assert_eq!(BuiltinType::Byte.mode(), MachineMode::Int8);
    assert_eq!(BuiltinType::Int.mode(), MachineMode::Int32);
    assert_eq!(BuiltinType::Long.mode(), MachineMode::Int64);
    assert_eq!(BuiltinType::Float.mode(), MachineMode::Float32);
    assert_eq!(BuiltinType::Double.mode(), MachineMode::Float64);
    assert_eq!(BuiltinType::Str.mode(), MachineMode::Ptr);
    assert_eq!(BuiltinType::IntArray.mode(), MachineMode::Ptr);
    assert!(!BuiltinType::Unit.has_mode());
    assert!(!BuiltinType::This.has_mode());
    assert!(BuiltinType::Str.reference_type());
    assert!(BuiltinType::Nil.reference_type());
    assert!(!BuiltinType::Long.reference_type());
    assert!(MachineMode::Float32.is_float());
    assert!(!MachineMode::Ptr.is_float());
    assert_eq!(MachineMode::Int8.size(), 1);
    assert_eq!(MachineMode::Int32.size(), 4);
    assert_eq!(MachineMode::Ptr.size(), 8);
    assert_eq!(Trap::DIV0.code(), 0);
    assert_eq!(Trap::OOM.code(), 6);
    assert_eq!(Position::new(7, 3).lineno(), 7);
    assert_eq!(Position::new(u32::MAX, 3).lineno(), i32::MAX);
}
