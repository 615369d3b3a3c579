use dora::ast::{
    BinOp, CmpOp, Expr, ExprArrayType, ExprAssignType, ExprBinType, ExprCallType, ExprConvType,
    ExprFieldType, ExprIdentType, ExprLitBoolType, ExprLitFloatType, ExprLitIntType,
    ExprLitStrType, ExprLitStructType, ExprNilType, ExprSelfType, ExprTryType, ExprUnType,
    Function, Name, NodeId, Stmt, StmtBlockType, TryMode, Type, UnOp,
};
use dora::class::{Class, ClassId, Field, FieldId};
use dora::codegen::{CondCode, Scopes};
use dora::cpu::{
    FReg, Mem, Reg, FREG_RESULT, FREG_TMP1, REG_PARAMS, REG_RESULT, REG_TMP1, REG_TMP2,
};
use dora::ctxt::{
    Arg, Args, CallSite, CallType, Callee, Context, ConvInfo, Entries, Fct, FctId, FctKind,
    FctSrc, IdentType, Intrinsic, Store, Var, VarId,
};
use dora::dseg::DSegValue;
use dora::error::GenError;
use dora::expr::{ExprGen, ExprStore};
use dora::fct::{CatchType, Comment, ExHandler};
use dora::lexer::{FloatSuffix, IntSuffix, Position};
use dora::masm::{Bailout, Insn, IntOp, FloatOp, Label, MacroAssembler};
use dora::runtime::Runtime;
use dora::trap::Trap;
use dora::ty::{BuiltinType, MachineMode};
use dora::vtable::VTable;

const GC_ALLOC: u64 = 0x7000_1000;

fn pos(line: u32, column: u32) -> Position {
    Position::new(line, column)
}

fn context() -> Context {
    Context::new(
        Args { flag_omit_bounds_check: false },
        Entries {
            gc_alloc: GC_ALLOC,
            start_native_call: 0x7000_2000,
            finish_native_call: 0x7000_3000,
            str_len: 0x7000_4000,
            str_parse_int: 0x7000_5000,
        },
    )
}

fn runtime() -> Runtime {
    Runtime::new(0x10_0000, 0x20_0000, 0x30_0000, 0x40_0000)
}

fn fct(kind: FctKind) -> Fct {
    Fct {
        id: FctId(0),
        pos: pos(1, 1),
        name: Name(0),
        params_types: Vec::new(),
        return_type: BuiltinType::Int,
        owner_class: None,
        is_static: false,
        has_override: false,
        has_open: false,
        has_final: false,
        internal: false,
        overrides: None,
        throws: false,
        ctor: None,
        vtable_index: None,
        initialized: true,
        impl_for: None,
        kind,
    }
}

fn function() -> Function {
    Function {
        id: NodeId(1000),
        name: Name(0),
        pos: pos(1, 1),
        params: Vec::new(),
        return_type: Type::TypeUnit,
        block: Box::new(Stmt::StmtBlock(StmtBlockType { id: NodeId(1001), pos: pos(1, 1), stmts: Vec::new() })),
    }
}

fn lit_int(id: usize, value: u64) -> Box<Expr> {
    Box::new(Expr::ExprLitInt(ExprLitIntType { id: NodeId(id), pos: pos(1, 1), value, suffix: IntSuffix::Int }))
}

fn ident(id: usize) -> Box<Expr> {
    Box::new(Expr::ExprIdent(ExprIdentType { id: NodeId(id), pos: pos(1, 1), name: Name(0) }))
}

fn bin(id: usize, op: BinOp, lhs: Box<Expr>, rhs: Box<Expr>) -> Expr {
    Expr::ExprBin(ExprBinType { id: NodeId(id), pos: pos(1, 1), op, lhs, rhs })
}

fn var(id: usize, ty: BuiltinType, offset: i32) -> Var {
    Var { id: VarId(id), name: Name(0), ty, reassignable: true, node_id: NodeId(900 + id), offset }
}

/// The function under compilation is function 0; the functions that follow
/// are the intrinsics given.
fn with_intrinsics(ctxt: &mut Context, intrinsics: &[Intrinsic]) {
    ctxt.add_fct(fct(FctKind::Definition));
    for &i in intrinsics {
        ctxt.add_fct(fct(FctKind::Builtin(i)));
    }
}

struct Output {
    result: Result<(), GenError>,
    masm: MacroAssembler,
    rt: Runtime,
}

fn generate_with(ctxt: &Context, src: &FctSrc, scopes: &Scopes, e: &Expr, dest: ExprStore) -> Output {
    let f = fct(FctKind::Definition);
    let ast = function();
    let mut masm = MacroAssembler::new();
    let mut rt = runtime();
    let result = {
        let gen = ExprGen::new(ctxt, &f, src, &ast, &mut masm, scopes, &mut rt);
        gen.try_generate(e, dest)
    };
    Output { result, masm, rt }
}

fn generate(ctxt: &Context, src: &FctSrc, e: &Expr, dest: ExprStore) -> Output {
    generate_with(ctxt, src, &Scopes::new(), e, dest)
}

fn insns(masm: &MacroAssembler) -> Vec<Insn> {
    let code: Vec<Insn> = (0..masm.len()).map(|i| masm.insn(i)).collect();
    // every instruction that is generated here can be encoded
    for insn in &code {
        assert!(dora::encode::encodable(*insn), "{:?}", insn);
    }
    code
}

fn bailouts(masm: &MacroAssembler) -> Vec<Bailout> {
    (0..masm.bailouts_len()).map(|i| masm.bailout(i)).collect()
}

fn handlers(masm: &MacroAssembler) -> Vec<ExHandler> {
    (0..masm.handlers_len()).map(|i| masm.handler(i)).collect()
}

fn gcpoints(masm: &MacroAssembler) -> Vec<(usize, Vec<i32>)> {
    (0..masm.gcpoints_len())
        .map(|i| {
            let mut refs = masm.gcpoint(i).offsets.clone();
            refs.sort();
            (masm.gcpoint_pos(i), refs)
        })
        .collect()
}

fn rax() -> ExprStore {
    ExprStore::Reg(REG_RESULT)
}

#[test]
fn registers_have_their_roles() {
    assert_eq!(REG_RESULT, Reg::RAX);
    assert_eq!(REG_TMP1, Reg::R10);
    assert_eq!(REG_TMP2, Reg::R11);
    assert_eq!(REG_PARAMS, [Reg::RDI, Reg::RSI, Reg::RDX, Reg::RCX, Reg::R8, Reg::R9]);
    assert_eq!(ExprStore::from(Reg::RDX), ExprStore::Reg(Reg::RDX));
    assert_eq!(ExprStore::from(FReg::XMM3), ExprStore::FReg(FReg::XMM3));
    assert_eq!(ExprStore::Reg(Reg::RSI).reg(), Reg::RSI);
    assert_eq!(ExprStore::FReg(FReg::XMM1).freg(), FReg::XMM1);
}

#[test]
fn literals_load_their_value() {
    let ctxt = context();
    let src = FctSrc::new();

    let out = generate(&ctxt, &src, &lit_int(1, 42), ExprStore::Reg(Reg::RCX));
    assert_eq!(out.result, Ok(()));
    assert_eq!(insns(&out.masm), vec![Insn::LoadIntConst(MachineMode::Int32, Reg::RCX, 42)]);

    let long = Expr::ExprLitInt(ExprLitIntType { id: NodeId(1), pos: pos(1, 1), value: u64::MAX, suffix: IntSuffix::Long });
    let out = generate(&ctxt, &src, &long, rax());
    assert_eq!(insns(&out.masm), vec![Insn::LoadIntConst(MachineMode::Int64, Reg::RAX, -1)]);

    let byte = Expr::ExprLitInt(ExprLitIntType { id: NodeId(1), pos: pos(1, 1), value: 7, suffix: IntSuffix::Byte });
    let out = generate(&ctxt, &src, &byte, rax());
    assert_eq!(insns(&out.masm), vec![Insn::LoadIntConst(MachineMode::Int8, Reg::RAX, 7)]);

    let t = Expr::ExprLitBool(ExprLitBoolType { id: NodeId(1), pos: pos(1, 1), value: true });
    let out = generate(&ctxt, &src, &t, rax());
    assert_eq!(insns(&out.masm), vec![Insn::LoadIntConst(MachineMode::Int32, Reg::RAX, 1)]);

    let f = Expr::ExprLitBool(ExprLitBoolType { id: NodeId(1), pos: pos(1, 1), value: false });
    let out = generate(&ctxt, &src, &f, rax());
    assert_eq!(insns(&out.masm), vec![Insn::LoadIntConst(MachineMode::Int32, Reg::RAX, 0)]);

    let nil = Expr::ExprNil(ExprNilType { id: NodeId(1), pos: pos(1, 1) });
    let out = generate(&ctxt, &src, &nil, rax());
    assert_eq!(insns(&out.masm), vec![Insn::LoadIntConst(MachineMode::Ptr, Reg::RAX, 0)]);
}

#[test]
fn float_literal_goes_through_the_constant_pool() {
    let ctxt = context();
    let src = FctSrc::new();
    let bits = 1.5f64.to_bits();
    let lit = Expr::ExprLitFloat(ExprLitFloatType { id: NodeId(1), pos: pos(1, 1), bits, suffix: FloatSuffix::Double });
    let out = generate(&ctxt, &src, &lit, ExprStore::FReg(FREG_RESULT));
    assert_eq!(out.result, Ok(()));
    assert_eq!(out.masm.dseg().len(), 1);
    assert_eq!(out.masm.dseg().entry(0).value, DSegValue::Double(bits));
    assert_eq!(out.masm.dseg().entry(0).disp, 8);
    assert_eq!(insns(&out.masm), vec![Insn::LoadFloatConst(MachineMode::Float64, FReg::XMM0, 8)]);

    let single = 2.5f32.to_bits() as u64;
    let lit = Expr::ExprLitFloat(ExprLitFloatType { id: NodeId(1), pos: pos(1, 1), bits: single, suffix: FloatSuffix::Float });
    let out = generate(&ctxt, &src, &lit, ExprStore::FReg(FREG_TMP1));
    assert_eq!(out.masm.dseg().entry(0).value, DSegValue::Float(2.5f32.to_bits()));
    assert_eq!(out.masm.dseg().entry(0).disp, 4);
    assert_eq!(insns(&out.masm), vec![Insn::LoadFloatConst(MachineMode::Float32, FReg::XMM1, 4)]);

    // a single-precision pattern has to fit 32 bits
    let lit = Expr::ExprLitFloat(ExprLitFloatType { id: NodeId(1), pos: pos(1, 1), bits, suffix: FloatSuffix::Float });
    assert_eq!(generate(&ctxt, &src, &lit, ExprStore::FReg(FREG_RESULT)).result, Err(GenError::TooLarge));
}

#[test]
fn string_literal_is_interned_and_loaded_by_address() {
    let ctxt = context();
    let src = FctSrc::new();
    let lit = Expr::ExprLitStr(ExprLitStrType { id: NodeId(1), pos: pos(1, 1), value: "héllo".to_string() });
    let out = generate(&ctxt, &src, &lit, rax());
    assert_eq!(out.result, Ok(()));
    assert_eq!(out.rt.perm.strs.len(), 1);
    assert_eq!(out.rt.perm.strs[0].addr, 0x30_0000);
    assert_eq!(out.rt.perm.strs[0].bytes, "héllo".as_bytes().to_vec());
    // header and length take 16 bytes, the text 6, padded to 24
    assert_eq!(out.rt.perm.top, 0x30_0000 + 24);
    assert_eq!(out.masm.dseg().entry(0).value, DSegValue::Ptr(0x30_0000));
    assert_eq!(insns(&out.masm), vec![Insn::LoadConstPool(Reg::RAX, 8)]);
    assert_eq!(out.masm.comment(0), (0, Comment::LoadString(0x30_0000)));
}

#[test]
fn string_literal_needs_room_in_the_permanent_heap() {
    let ctxt = context();
    let src = FctSrc::new();
    let f = fct(FctKind::Definition);
    let ast = function();
    let scopes = Scopes::new();
    let mut masm = MacroAssembler::new();
    let mut rt = Runtime::new(0x10_0000, 0x20_0000, 0x30_0000, 0x30_0010);
    let lit = Expr::ExprLitStr(ExprLitStrType { id: NodeId(1), pos: pos(1, 1), value: "a".to_string() });
    let r = ExprGen::new(&ctxt, &f, &src, &ast, &mut masm, &scopes, &mut rt).try_generate(&lit, rax());
    assert_eq!(r, Err(GenError::OutOfMemory));
    assert_eq!(rt.perm.top, 0x30_0000);
}

/// `1 + 2`, where `+` on ints is function 1, an intrinsic.
fn one_plus_two() -> (Context, FctSrc, Expr) {
    let mut ctxt = context();
    with_intrinsics(&mut ctxt, &[Intrinsic::IntAdd]);
    let mut src = FctSrc::new();
    src.localsize = 16;
    src.tempsize = 8;
    src.map_calls.insert(NodeId(3), CallType { callee: FctId(1), method: true });
    src.map_tys.insert(NodeId(1), BuiltinType::Int);
    src.storage.insert(NodeId(1), Store::Temp(8, BuiltinType::Int));
    (ctxt, src, bin(3, BinOp::Add, lit_int(1, 1), lit_int(2, 2)))
}

#[test]
fn one_plus_two_adds_in_the_result_register() {
    let (ctxt, src, e) = one_plus_two();
    let out = generate(&ctxt, &src, &e, rax());
    assert_eq!(out.result, Ok(()));
    assert_eq!(
        insns(&out.masm),
        vec![
            Insn::LoadIntConst(MachineMode::Int32, Reg::RAX, 1),
            Insn::StoreMem(MachineMode::Int32, Mem::Local(-24), Reg::RAX),
            Insn::LoadIntConst(MachineMode::Int32, Reg::R10, 2),
            Insn::LoadMem(MachineMode::Int32, Reg::RAX, Mem::Local(-24)),
            Insn::IntArith(IntOp::Add, MachineMode::Int32, Reg::RAX, Reg::RAX, Reg::R10),
        ]
    );
    assert_eq!(out.masm.bailouts_len(), 0);
    assert_eq!(out.masm.gcpoints_len(), 0);
}

#[test]
fn intrinsic_delivers_in_the_register_asked_for() {
    let (ctxt, src, e) = one_plus_two();
    let out = generate(&ctxt, &src, &e, ExprStore::Reg(Reg::RDX));
    assert_eq!(out.result, Ok(()));
    assert_eq!(
        insns(&out.masm)[4],
        Insn::IntArith(IntOp::Add, MachineMode::Int32, Reg::RDX, Reg::RAX, Reg::R10)
    );
}

/// `x / y` for the int variables `x` and `y`.
fn x_div_y() -> (Context, FctSrc, Expr) {
    let mut ctxt = context();
    with_intrinsics(&mut ctxt, &[Intrinsic::IntDiv]);
    let mut src = FctSrc::new();
    src.localsize = 16;
    src.tempsize = 8;
    src.vars.push(var(0, BuiltinType::Int, -4));
    src.vars.push(var(1, BuiltinType::Int, -8));
    src.map_idents.insert(NodeId(1), IdentType::Var(VarId(0)));
    src.map_idents.insert(NodeId(2), IdentType::Var(VarId(1)));
    src.map_calls.insert(NodeId(3), CallType { callee: FctId(1), method: true });
    src.map_tys.insert(NodeId(1), BuiltinType::Int);
    src.storage.insert(NodeId(1), Store::Temp(4, BuiltinType::Int));
    (ctxt, src, bin(3, BinOp::Div, ident(1), ident(2)))
}

#[test]
fn division_checks_the_divisor() {
    let (ctxt, src, e) = x_div_y();
    let out = generate(&ctxt, &src, &e, rax());
    assert_eq!(out.result, Ok(()));
    assert_eq!(
        insns(&out.masm),
        vec![
            Insn::LoadMem(MachineMode::Int32, Reg::RAX, Mem::Local(-4)),
            Insn::StoreMem(MachineMode::Int32, Mem::Local(-20), Reg::RAX),
            Insn::LoadMem(MachineMode::Int32, Reg::R10, Mem::Local(-8)),
            Insn::LoadMem(MachineMode::Int32, Reg::RAX, Mem::Local(-20)),
            Insn::CmpZero(MachineMode::Int32, Reg::R10),
            Insn::JumpIf(CondCode::Zero, Label(0)),
            Insn::IntArith(IntOp::Div, MachineMode::Int32, Reg::RAX, Reg::RAX, Reg::R10),
        ]
    );
    // a zero divisor leaves for the trap exit, which raises DIV0
    assert_eq!(bailouts(&out.masm), vec![Bailout { label: Label(0), trap: Trap::DIV0, pos: pos(1, 1) }]);
    assert_eq!(out.masm.label_pos(Label(0)), None);

    let mut masm = out.masm;
    masm.finish();
    assert_eq!(masm.label_pos(Label(0)), Some(7));
    assert_eq!(masm.insn(7), Insn::Trap(Trap::DIV0));
    assert_eq!(masm.bailouts_len(), 0);
}

/// `a.get(0)` for the int array variable `a`.
fn array_get(omit_bounds_check: bool) -> (Context, FctSrc, Expr) {
    let mut ctxt = context();
    ctxt.args.flag_omit_bounds_check = omit_bounds_check;
    with_intrinsics(&mut ctxt, &[Intrinsic::IntArrayGet]);
    let mut src = FctSrc::new();
    src.localsize = 8;
    src.tempsize = 8;
    src.vars.push(var(0, BuiltinType::IntArray, -8));
    src.map_idents.insert(NodeId(1), IdentType::Var(VarId(0)));
    src.map_calls.insert(NodeId(3), CallType { callee: FctId(1), method: true });
    src.map_tys.insert(NodeId(1), BuiltinType::IntArray);
    src.storage.insert(NodeId(1), Store::Temp(8, BuiltinType::IntArray));
    let e = Expr::ExprArray(ExprArrayType { id: NodeId(3), pos: pos(4, 9), object: ident(1), index: lit_int(2, 0) });
    (ctxt, src, e)
}

#[test]
fn array_element_is_loaded_after_a_bounds_check() {
    let (ctxt, src, e) = array_get(false);
    let out = generate(&ctxt, &src, &e, rax());
    assert_eq!(out.result, Ok(()));
    assert_eq!(
        insns(&out.masm),
        vec![
            Insn::LoadMem(MachineMode::Ptr, Reg::RAX, Mem::Local(-8)),
            Insn::StoreMem(MachineMode::Ptr, Mem::Local(-16), Reg::RAX),
            Insn::LoadIntConst(MachineMode::Int32, Reg::R10, 0),
            Insn::LoadMem(MachineMode::Ptr, Reg::RAX, Mem::Local(-16)),
            // the length lies behind the header
            Insn::LoadMem(MachineMode::Int32, Reg::R11, Mem::Base(Reg::RAX, 8)),
            Insn::CmpReg(MachineMode::Int32, Reg::R10, Reg::R11),
            Insn::JumpIf(CondCode::UnsignedGreaterEq, Label(0)),
            // the elements lie behind the length, four bytes each
            Insn::LoadMem(MachineMode::Int32, Reg::RAX, Mem::Index(Reg::RAX, Reg::R10, 4, 16)),
        ]
    );
    assert_eq!(
        bailouts(&out.masm),
        vec![Bailout { label: Label(0), trap: Trap::INDEX_OUT_OF_BOUNDS, pos: pos(4, 9) }]
    );
}

#[test]
fn bounds_check_can_be_switched_off() {
    let (ctxt, src, e) = array_get(true);
    let out = generate(&ctxt, &src, &e, ExprStore::Reg(Reg::RBX));
    assert_eq!(out.result, Ok(()));
    assert_eq!(
        insns(&out.masm),
        vec![
            Insn::LoadMem(MachineMode::Ptr, Reg::RAX, Mem::Local(-8)),
            Insn::StoreMem(MachineMode::Ptr, Mem::Local(-16), Reg::RAX),
            Insn::LoadIntConst(MachineMode::Int32, Reg::R10, 0),
            Insn::LoadMem(MachineMode::Ptr, Reg::RAX, Mem::Local(-16)),
            Insn::LoadMem(MachineMode::Int32, Reg::RAX, Mem::Index(Reg::RAX, Reg::R10, 4, 16)),
            Insn::CopyReg(MachineMode::Int32, Reg::RBX, Reg::RAX),
        ]
    );
    assert_eq!(out.masm.bailouts_len(), 0);
}

fn class(id: usize, depth: i32, vtable_ptr: u64, fields: Vec<Field>) -> Class {
    Class {
        id: ClassId(id),
        name: Name(id),
        ty: BuiltinType::Class(ClassId(id)),
        parent_class: None,
        has_open: true,
        internal: false,
        ctors: Vec::new(),
        fields,
        methods: Vec::new(),
        size: 24,
        vtable: Some(VTable {
            ptr: vtable_ptr,
            subtype_depth: depth,
            subtype_display: Vec::new(),
            subtype_overflow_ptr: 0,
            subtype_overflow: Vec::new(),
            table: Vec::new(),
        }),
    }
}

/// `x is B` or `x as B` for variable `x` of class A, where B is class 1.
fn conv(is: bool, depth_of_b: i32, valid: bool) -> (Context, FctSrc, Expr) {
    let mut ctxt = context();
    ctxt.classes.push(class(0, 0, 0x5000, Vec::new()));
    ctxt.classes.push(class(1, depth_of_b, 0x5100, Vec::new()));
    let mut src = FctSrc::new();
    src.localsize = 8;
    src.tempsize = 8;
    src.vars.push(var(0, BuiltinType::Class(ClassId(0)), -8));
    src.map_idents.insert(NodeId(1), IdentType::Var(VarId(0)));
    src.map_tys.insert(NodeId(1), BuiltinType::Class(ClassId(0)));
    src.storage.insert(NodeId(1), Store::Temp(8, BuiltinType::Class(ClassId(0))));
    src.map_convs.insert(NodeId(2), ConvInfo { cls_id: ClassId(1), valid });
    let e = Expr::ExprConv(ExprConvType { id: NodeId(2), pos: pos(3, 5), object: ident(1), is, data_type: Type::TypeBasic(Name(1)) });
    (ctxt, src, e)
}

#[test]
fn is_looks_the_class_up_in_the_display() {
    let (ctxt, src, e) = conv(true, 1, false);
    let out = generate(&ctxt, &src, &e, rax());
    assert_eq!(out.result, Ok(()));
    assert_eq!(
        insns(&out.masm),
        vec![
            Insn::LoadMem(MachineMode::Ptr, Reg::RAX, Mem::Local(-8)),
            // null is no instance of anything: the zero stays as the answer
            Insn::CmpZero(MachineMode::Ptr, Reg::RAX),
            Insn::JumpIf(CondCode::Equal, Label(0)),
            Insn::LoadMem(MachineMode::Ptr, Reg::R10, Mem::Base(Reg::RAX, 0)),
            Insn::LoadConstPool(Reg::R11, 12),
            // depth 1: the second entry of the display
            Insn::CmpMem(MachineMode::Ptr, Mem::Base(Reg::R10, 24), Reg::R11),
            Insn::SetIf(Reg::RAX, CondCode::Equal),
        ]
    );
    assert_eq!(out.masm.label_pos(Label(0)), Some(7));
    assert_eq!(out.masm.dseg().entry(0).value, DSegValue::Ptr(0x5100));
    assert_eq!(out.masm.bailouts_len(), 0);
}

#[test]
fn is_of_a_deep_class_looks_in_the_overflow_list() {
    let (ctxt, src, e) = conv(true, 8, false);
    let out = generate(&ctxt, &src, &e, rax());
    assert_eq!(out.result, Ok(()));
    assert_eq!(
        insns(&out.masm),
        vec![
            Insn::LoadMem(MachineMode::Ptr, Reg::RAX, Mem::Local(-8)),
            Insn::CmpZero(MachineMode::Ptr, Reg::RAX),
            Insn::JumpIf(CondCode::Equal, Label(0)),
            Insn::LoadMem(MachineMode::Ptr, Reg::R10, Mem::Base(Reg::RAX, 0)),
            Insn::LoadConstPool(Reg::R11, 12),
            // an object of a class less deep than 8 is no instance
            Insn::CmpMemImm(MachineMode::Int32, Mem::Base(Reg::R10, 8), 8),
            Insn::JumpIf(CondCode::Less, Label(1)),
            Insn::LoadMem(MachineMode::Ptr, Reg::R10, Mem::Base(Reg::R10, 64)),
            // depth 8 is entry 2 of the overflow list
            Insn::CmpMem(MachineMode::Ptr, Mem::Base(Reg::R10, 16), Reg::R11),
            Insn::SetIf(Reg::RAX, CondCode::Equal),
            Insn::Jump(Label(2)),
            Insn::LoadIntConst(MachineMode::Int32, Reg::RAX, 0),
        ]
    );
    assert_eq!(out.masm.label_pos(Label(1)), Some(11));
    assert_eq!(out.masm.label_pos(Label(2)), Some(12));
    assert_eq!(out.masm.label_pos(Label(0)), Some(12));
}

#[test]
fn as_raises_cast_when_the_test_fails() {
    let (ctxt, src, e) = conv(false, 1, false);
    let out = generate(&ctxt, &src, &e, rax());
    assert_eq!(out.result, Ok(()));
    assert_eq!(
        insns(&out.masm),
        vec![
            Insn::LoadMem(MachineMode::Ptr, Reg::RAX, Mem::Local(-8)),
            Insn::CmpZero(MachineMode::Ptr, Reg::RAX),
            Insn::JumpIf(CondCode::Equal, Label(0)),
            Insn::StoreMem(MachineMode::Ptr, Mem::Local(-16), Reg::RAX),
            Insn::LoadMem(MachineMode::Ptr, Reg::R10, Mem::Base(Reg::RAX, 0)),
            Insn::LoadConstPool(Reg::R11, 13),
            Insn::CmpMem(MachineMode::Ptr, Mem::Base(Reg::R10, 24), Reg::R11),
            Insn::JumpIf(CondCode::NotEqual, Label(1)),
            Insn::LoadMem(MachineMode::Ptr, Reg::RAX, Mem::Local(-16)),
        ]
    );
    assert_eq!(bailouts(&out.masm), vec![Bailout { label: Label(1), trap: Trap::CAST, pos: pos(3, 5) }]);
}

#[test]
fn as_of_a_deep_class_raises_cast_in_place() {
    let (ctxt, src, e) = conv(false, 6, false);
    let out = generate(&ctxt, &src, &e, rax());
    assert_eq!(out.result, Ok(()));
    let code = insns(&out.masm);
    assert_eq!(code[6], Insn::CmpMemImm(MachineMode::Int32, Mem::Base(Reg::R10, 8), 6));
    assert_eq!(code[7], Insn::JumpIf(CondCode::Less, Label(1)));
    assert_eq!(code[9], Insn::CmpMem(MachineMode::Ptr, Mem::Base(Reg::R10, 0), Reg::R11));
    assert_eq!(code[10], Insn::JumpIf(CondCode::NonZero, Label(1)));
    assert_eq!(code[11], Insn::LoadMem(MachineMode::Ptr, Reg::RAX, Mem::Local(-16)));
    assert_eq!(code[12], Insn::Jump(Label(2)));
    assert_eq!(code[13], Insn::Trap(Trap::CAST));
    assert_eq!(code.len(), 14);
    assert_eq!(out.masm.label_pos(Label(1)), Some(13));
    assert_eq!(out.masm.lineno(0), (14, 3));
}

#[test]
fn conversion_known_to_hold_needs_no_test() {
    let (ctxt, src, e) = conv(true, 1, true);
    let out = generate(&ctxt, &src, &e, rax());
    assert_eq!(
        insns(&out.masm),
        vec![
            Insn::LoadMem(MachineMode::Ptr, Reg::RAX, Mem::Local(-8)),
            Insn::CmpZero(MachineMode::Ptr, Reg::RAX),
            Insn::JumpIf(CondCode::Equal, Label(0)),
            Insn::LoadIntConst(MachineMode::Int32, Reg::RAX, 1),
        ]
    );
    let (ctxt, src, e) = conv(false, 1, true);
    let out = generate(&ctxt, &src, &e, rax());
    assert_eq!(insns(&out.masm).len(), 3);
    assert_eq!(out.masm.label_pos(Label(0)), Some(3));
}

/// `a || b` or `a && b` for the bool variables `a` and `b`.
fn short_circuit(op: BinOp) -> (Context, FctSrc, Expr) {
    let ctxt = context();
    let mut src = FctSrc::new();
    src.vars.push(var(0, BuiltinType::Bool, -1));
    src.vars.push(var(1, BuiltinType::Bool, -2));
    src.map_idents.insert(NodeId(1), IdentType::Var(VarId(0)));
    src.map_idents.insert(NodeId(2), IdentType::Var(VarId(1)));
    (ctxt, src, bin(3, op, ident(1), ident(2)))
}

#[test]
fn or_jumps_over_the_right_operand_when_the_left_is_true() {
    let (ctxt, src, e) = short_circuit(BinOp::Or);
    let out = generate(&ctxt, &src, &e, ExprStore::Reg(Reg::RCX));
    assert_eq!(out.result, Ok(()));
    assert_eq!(
        insns(&out.masm),
        vec![
            Insn::LoadMem(MachineMode::Int8, Reg::RAX, Mem::Local(-1)),
            Insn::CmpZero(MachineMode::Int32, Reg::RAX),
            Insn::JumpIf(CondCode::NonZero, Label(0)),
            Insn::LoadMem(MachineMode::Int8, Reg::RAX, Mem::Local(-2)),
            Insn::CmpZero(MachineMode::Int32, Reg::RAX),
            Insn::JumpIf(CondCode::Zero, Label(1)),
            Insn::LoadIntConst(MachineMode::Int32, Reg::RCX, 1),
            Insn::Jump(Label(2)),
            Insn::LoadIntConst(MachineMode::Int32, Reg::RCX, 0),
        ]
    );
    // the code of `b` is at 3: behind the jump at 2, before its target at 6
    assert_eq!(out.masm.label_pos(Label(0)), Some(6));
    assert_eq!(out.masm.label_pos(Label(1)), Some(8));
    assert_eq!(out.masm.label_pos(Label(2)), Some(9));
}

#[test]
fn and_jumps_over_the_right_operand_when_the_left_is_false() {
    let (ctxt, src, e) = short_circuit(BinOp::And);
    let out = generate(&ctxt, &src, &e, rax());
    assert_eq!(out.result, Ok(()));
    let code = insns(&out.masm);
    assert_eq!(code[2], Insn::JumpIf(CondCode::Zero, Label(1)));
    assert_eq!(code[3], Insn::LoadMem(MachineMode::Int8, Reg::RAX, Mem::Local(-2)));
    assert_eq!(code[5], Insn::JumpIf(CondCode::Zero, Label(1)));
    assert_eq!(out.masm.label_pos(Label(0)), Some(6));
    assert_eq!(out.masm.label_pos(Label(1)), Some(8));
    assert_eq!(code[8], Insn::LoadIntConst(MachineMode::Int32, Reg::RAX, 0));
}

#[test]
fn identity_compares_the_references() {
    let ctxt = context();
    let mut src = FctSrc::new();
    src.localsize = 16;
    src.vars.push(var(0, BuiltinType::Str, -8));
    src.vars.push(var(1, BuiltinType::Str, -16));
    src.map_idents.insert(NodeId(1), IdentType::Var(VarId(0)));
    src.map_idents.insert(NodeId(2), IdentType::Var(VarId(1)));
    src.map_tys.insert(NodeId(1), BuiltinType::Str);
    src.storage.insert(NodeId(1), Store::Temp(8, BuiltinType::Str));
    let e = bin(3, BinOp::Cmp(CmpOp::IsNot), ident(1), ident(2));
    let out = generate(&ctxt, &src, &e, rax());
    assert_eq!(out.result, Ok(()));
    assert_eq!(
        insns(&out.masm),
        vec![
            Insn::LoadMem(MachineMode::Ptr, Reg::RAX, Mem::Local(-8)),
            Insn::StoreMem(MachineMode::Ptr, Mem::Local(-24), Reg::RAX),
            Insn::LoadMem(MachineMode::Ptr, Reg::R10, Mem::Local(-16)),
            Insn::LoadMem(MachineMode::Ptr, Reg::RAX, Mem::Local(-24)),
            Insn::CmpReg(MachineMode::Ptr, Reg::RAX, Reg::R10),
            Insn::SetIf(Reg::RAX, CondCode::NotEqual),
        ]
    );
}

/// A program with `class C { var v: Int; }` and a variable `c` of it.
fn field_program() -> (Context, FctSrc) {
    let mut ctxt = context();
    let v = Field { id: FieldId(0), name: Name(5), ty: BuiltinType::Int, offset: 8, reassignable: true };
    ctxt.classes.push(class(0, 0, 0x5000, vec![v]));
    let mut src = FctSrc::new();
    src.localsize = 8;
    src.tempsize = 8;
    src.vars.push(var(0, BuiltinType::Class(ClassId(0)), -8));
    src.map_idents.insert(NodeId(1), IdentType::Var(VarId(0)));
    src.map_idents.insert(NodeId(2), IdentType::Field(ClassId(0), FieldId(0)));
    src.map_tys.insert(NodeId(1), BuiltinType::Class(ClassId(0)));
    src.storage.insert(NodeId(1), Store::Temp(8, BuiltinType::Class(ClassId(0))));
    (ctxt, src)
}

#[test]
fn field_is_assigned_through_the_receiver() {
    // c.v = 7
    let (ctxt, src) = field_program();
    let lhs = Box::new(Expr::ExprField(ExprFieldType { id: NodeId(2), pos: pos(2, 3), object: ident(1), name: Name(5) }));
    let e = Expr::ExprAssign(ExprAssignType { id: NodeId(4), pos: pos(2, 5), lhs, rhs: lit_int(3, 7) });
    let out = generate(&ctxt, &src, &e, rax());
    assert_eq!(out.result, Ok(()));
    assert_eq!(
        insns(&out.masm),
        vec![
            Insn::LoadMem(MachineMode::Ptr, Reg::RAX, Mem::Local(-8)),
            Insn::StoreMem(MachineMode::Ptr, Mem::Local(-16), Reg::RAX),
            Insn::LoadIntConst(MachineMode::Int32, Reg::RAX, 7),
            Insn::LoadMem(MachineMode::Ptr, Reg::R10, Mem::Local(-16)),
            // a null receiver faults here, at the store
            Insn::StoreMem(MachineMode::Int32, Mem::Base(Reg::R10, 8), Reg::RAX),
        ]
    );
    assert_eq!(out.masm.comment(1), (4, Comment::StoreField(ClassId(0), FieldId(0))));
}

#[test]
fn field_is_loaded_from_the_object() {
    // c.v
    let (ctxt, src) = field_program();
    let e = Expr::ExprField(ExprFieldType { id: NodeId(2), pos: pos(2, 3), object: ident(1), name: Name(5) });
    let out = generate(&ctxt, &src, &e, ExprStore::Reg(Reg::RSI));
    assert_eq!(out.result, Ok(()));
    assert_eq!(
        insns(&out.masm),
        vec![
            Insn::LoadMem(MachineMode::Ptr, Reg::RAX, Mem::Local(-8)),
            Insn::LoadMem(MachineMode::Int32, Reg::RSI, Mem::Base(Reg::RAX, 8)),
        ]
    );
}

#[test]
fn variable_is_assigned_from_the_destination() {
    let ctxt = context();
    let mut src = FctSrc::new();
    src.vars.push(var(0, BuiltinType::Long, -8));
    src.map_idents.insert(NodeId(1), IdentType::Var(VarId(0)));
    let e = Expr::ExprAssign(ExprAssignType { id: NodeId(3), pos: pos(1, 1), lhs: ident(1), rhs: lit_int(2, 5) });
    let out = generate(&ctxt, &src, &e, ExprStore::Reg(Reg::RDX));
    assert_eq!(out.result, Ok(()));
    assert_eq!(
        insns(&out.masm),
        vec![
            Insn::LoadIntConst(MachineMode::Int32, Reg::RDX, 5),
            Insn::StoreMem(MachineMode::Int64, Mem::Local(-8), Reg::RDX),
        ]
    );
    assert_eq!(out.masm.comment(0), (1, Comment::StoreVar(VarId(0))));
}

#[test]
fn unary_intrinsics_work_in_place() {
    let mut ctxt = context();
    with_intrinsics(&mut ctxt, &[Intrinsic::IntNeg, Intrinsic::BoolNot, Intrinsic::LongNot, Intrinsic::IntPlus]);
    let cases = [
        (1, Some(Insn::IntNeg(MachineMode::Int32, Reg::RCX, Reg::RCX))),
        (2, Some(Insn::BoolNot(Reg::RCX, Reg::RCX))),
        (3, Some(Insn::IntNot(MachineMode::Int64, Reg::RCX, Reg::RCX))),
        (4, None),
    ];
    for (callee, insn) in cases {
        let mut src = FctSrc::new();
        src.map_calls.insert(NodeId(2), CallType { callee: FctId(callee), method: true });
        let e = Expr::ExprUn(ExprUnType { id: NodeId(2), pos: pos(1, 1), op: UnOp::Neg, opnd: lit_int(1, 9) });
        let out = generate(&ctxt, &src, &e, ExprStore::Reg(Reg::RCX));
        assert_eq!(out.result, Ok(()));
        let mut expected = vec![Insn::LoadIntConst(MachineMode::Int32, Reg::RCX, 9)];
        expected.extend(insn);
        assert_eq!(insns(&out.masm), expected);
    }
}

#[test]
fn comparison_intrinsic_takes_the_condition_of_the_operator() {
    let mut ctxt = context();
    with_intrinsics(&mut ctxt, &[Intrinsic::IntCmp, Intrinsic::LongEq]);
    let mut src = FctSrc::new();
    src.map_calls.insert(NodeId(3), CallType { callee: FctId(1), method: true });
    src.map_tys.insert(NodeId(1), BuiltinType::Int);
    src.storage.insert(NodeId(1), Store::Temp(4, BuiltinType::Int));
    let e = bin(3, BinOp::Cmp(CmpOp::Le), lit_int(1, 1), lit_int(2, 2));
    let out = generate(&ctxt, &src, &e, rax());
    let code = insns(&out.masm);
    assert_eq!(code[4], Insn::CmpReg(MachineMode::Int32, Reg::RAX, Reg::R10));
    assert_eq!(code[5], Insn::SetIf(Reg::RAX, CondCode::LessEq));

    let mut src = FctSrc::new();
    src.map_calls.insert(NodeId(3), CallType { callee: FctId(2), method: true });
    src.map_tys.insert(NodeId(1), BuiltinType::Long);
    src.storage.insert(NodeId(1), Store::Temp(8, BuiltinType::Long));
    let e = bin(3, BinOp::Cmp(CmpOp::Ne), lit_int(1, 1), lit_int(2, 2));
    let out = generate(&ctxt, &src, &e, rax());
    let code = insns(&out.masm);
    assert_eq!(code[1], Insn::StoreMem(MachineMode::Int64, Mem::Local(-8), Reg::RAX));
    assert_eq!(code[4], Insn::CmpReg(MachineMode::Int64, Reg::RAX, Reg::R10));
    assert_eq!(code[5], Insn::SetIf(Reg::RAX, CondCode::NotEqual));
}

#[test]
fn float_intrinsic_goes_through_the_float_registers() {
    let mut ctxt = context();
    with_intrinsics(&mut ctxt, &[Intrinsic::DoubleMul]);
    let mut src = FctSrc::new();
    src.vars.push(var(0, BuiltinType::Double, -8));
    src.map_calls.insert(NodeId(3), CallType { callee: FctId(1), method: true });
    src.map_tys.insert(NodeId(1), BuiltinType::Double);
    src.storage.insert(NodeId(1), Store::Temp(8, BuiltinType::Double));
    let lit = |id: usize| {
        Box::new(Expr::ExprLitFloat(ExprLitFloatType { id: NodeId(id), pos: pos(1, 1), bits: 2.0f64.to_bits(), suffix: FloatSuffix::Double }))
    };
    let e = bin(3, BinOp::Mul, lit(1), lit(2));
    let out = generate(&ctxt, &src, &e, ExprStore::FReg(FReg::XMM2));
    assert_eq!(out.result, Ok(()));
    assert_eq!(
        insns(&out.masm),
        vec![
            Insn::LoadFloatConst(MachineMode::Float64, FReg::XMM0, 8),
            Insn::StorefMem(MachineMode::Float64, Mem::Local(-8), FReg::XMM0),
            Insn::LoadFloatConst(MachineMode::Float64, FReg::XMM1, 18),
            Insn::LoadfMem(MachineMode::Float64, FReg::XMM0, Mem::Local(-8)),
            Insn::FloatArith(FloatOp::Mul, MachineMode::Float64, FReg::XMM2, FReg::XMM0, FReg::XMM1),
        ]
    );
}

/// `g(x)` for a reference variable `x`, where `g` is function 1.
fn call_program(callee: Fct, receiver: bool) -> (Context, FctSrc, Expr) {
    let mut ctxt = context();
    ctxt.add_fct(fct(FctKind::Definition));
    ctxt.add_fct(callee);
    let mut src = FctSrc::new();
    src.localsize = 16;
    src.tempsize = 16;
    src.vars.push(var(0, BuiltinType::Str, -8));
    src.map_idents.insert(NodeId(1), IdentType::Var(VarId(0)));
    src.map_calls.insert(NodeId(3), CallType { callee: FctId(1), method: receiver });
    src.map_csites.insert(
        NodeId(3),
        CallSite {
            callee: Callee::Fct(FctId(1)),
            args: vec![Arg::Expr(0, BuiltinType::Str, 8), Arg::Expr(1, BuiltinType::Int, 16)],
            super_call: false,
            return_type: BuiltinType::Int,
        },
    );
    let e = Expr::ExprCall(ExprCallType {
        id: NodeId(3),
        pos: pos(7, 3),
        name: Name(0),
        object: if receiver { Some(ident(1)) } else { None },
        args: if receiver { vec![lit_int(2, 5)] } else { vec![ident(1), lit_int(2, 5)] },
    });
    (ctxt, src, e)
}

#[test]
fn call_spills_then_marshals_then_records_a_safepoint() {
    let (ctxt, src, e) = call_program(fct(FctKind::Source(FctSrc::new())), false);
    let mut scopes = Scopes::new();
    scopes.push_scope();
    scopes.add_var(-8);
    let out = generate_with(&ctxt, &src, &scopes, &e, ExprStore::Reg(Reg::RBX));
    assert_eq!(out.result, Ok(()));
    assert_eq!(
        insns(&out.masm),
        vec![
            // the arguments, in order, each to its slot
            Insn::LoadMem(MachineMode::Ptr, Reg::RAX, Mem::Local(-8)),
            Insn::StoreMem(MachineMode::Ptr, Mem::Local(-24), Reg::RAX),
            Insn::LoadIntConst(MachineMode::Int32, Reg::RAX, 5),
            Insn::StoreMem(MachineMode::Int32, Mem::Local(-32), Reg::RAX),
            // the slots, in order, to the parameter registers
            Insn::LoadMem(MachineMode::Ptr, Reg::RDI, Mem::Local(-24)),
            Insn::LoadMem(MachineMode::Int32, Reg::RSI, Mem::Local(-32)),
            // the callee is not compiled: the lazy-compile stub is called
            Insn::LoadConstPool(Reg::RAX, 14),
            Insn::CallReg(Reg::RAX),
            Insn::CopyReg(MachineMode::Int32, Reg::RBX, Reg::RAX),
        ]
    );
    assert_eq!(out.masm.dseg().entry(0).value, DSegValue::Ptr(0x10_0000));
    assert_eq!(out.rt.stubs.len(), 1);
    assert_eq!((out.rt.stubs[0].0, out.rt.stubs[0].1.start), (FctId(1), 0x10_0000));
    assert_eq!(out.masm.lineno(0), (8, 7));
    // at the call the variable and the spilled reference argument are live
    assert_eq!(gcpoints(&out.masm), vec![(8, vec![-24, -8])]);
    assert_eq!(out.masm.comment(1), (6, Comment::CallDirect(FctId(1))));
}

#[test]
fn method_call_checks_the_receiver() {
    let (ctxt, src, e) = call_program(fct(FctKind::Source(FctSrc::new())), true);
    let out = generate(&ctxt, &src, &e, rax());
    assert_eq!(out.result, Ok(()));
    let code = insns(&out.masm);
    assert_eq!(code[4], Insn::LoadMem(MachineMode::Ptr, Reg::RDI, Mem::Local(-24)));
    assert_eq!(code[5], Insn::CmpZero(MachineMode::Ptr, Reg::RDI));
    assert_eq!(code[6], Insn::JumpIf(CondCode::Equal, Label(0)));
    assert_eq!(code[7], Insn::LoadMem(MachineMode::Int32, Reg::RSI, Mem::Local(-32)));
    assert_eq!(bailouts(&out.masm), vec![Bailout { label: Label(0), trap: Trap::NIL, pos: pos(7, 3) }]);
}

#[test]
fn virtual_call_goes_through_the_dispatch_table() {
    let mut callee = fct(FctKind::Source(FctSrc::new()));
    callee.has_open = true;
    callee.vtable_index = Some(3);
    let (ctxt, src, e) = call_program(callee, true);
    let out = generate(&ctxt, &src, &e, rax());
    assert_eq!(out.result, Ok(()));
    let code = insns(&out.masm);
    assert_eq!(
        code[8..].to_vec(),
        vec![
            Insn::LoadMem(MachineMode::Ptr, Reg::RAX, Mem::Base(Reg::RDI, 0)),
            // the method table starts at 80; entry 3 lies 24 bytes in
            Insn::LoadMem(MachineMode::Ptr, Reg::RAX, Mem::Base(Reg::RAX, 104)),
            Insn::CallReg(Reg::RAX),
        ]
    );
    assert_eq!(out.rt.stubs.len(), 0);
    assert_eq!(gcpoints(&out.masm), vec![(11, vec![-24])]);
}

#[test]
fn compiled_callee_is_called_at_its_entry() {
    let mut ctxt = context();
    let mut rt = runtime();
    let src0 = FctSrc::new();
    let ast = function();
    let f = fct(FctKind::Definition);
    let jit = dora::codegen::generate(&ctxt, &f, &src0, &ast, 0, &mut rt).unwrap();
    let entry = jit.fct_ptr();
    let mut callee_src = FctSrc::new();
    callee_src.jit_fct = Some(jit);
    let (c, src, e) = call_program(fct(FctKind::Source(callee_src)), false);
    ctxt = c;
    let mut masm = MacroAssembler::new();
    let scopes = Scopes::new();
    let r = ExprGen::new(&ctxt, &f, &src, &ast, &mut masm, &scopes, &mut rt).try_generate(&e, rax());
    assert_eq!(r, Ok(()));
    assert_eq!(masm.dseg().entry(0).value, DSegValue::Ptr(entry));
    assert_eq!(rt.stubs.len(), 0);
}

#[test]
fn native_callee_is_called_through_its_stub() {
    let mut callee = fct(FctKind::Native(0x9000));
    callee.params_types = vec![BuiltinType::Str, BuiltinType::Int];
    let (ctxt, src, e) = call_program(callee, false);
    let out = generate(&ctxt, &src, &e, rax());
    assert_eq!(out.result, Ok(()));
    assert_eq!(out.rt.native_fcts.len(), 1);
    // the stub is entered behind its pool of three addresses
    assert_eq!(out.rt.native_fcts.find_fct(0x9000), Some(0x10_0018));
    assert_eq!(out.masm.dseg().entry(0).value, DSegValue::Ptr(0x10_0018));
    assert_eq!(out.rt.code_map.get(0x10_0000), Some(dora::runtime::CodeData::NativeFct(FctId(1))));
    assert_eq!(out.rt.code_map.get(0x10_0018), Some(dora::runtime::CodeData::NativeFct(FctId(1))));
}

#[test]
fn more_arguments_than_registers_go_to_the_stack() {
    let mut ctxt = context();
    ctxt.add_fct(fct(FctKind::Definition));
    ctxt.add_fct(fct(FctKind::Source(FctSrc::new())));
    let mut src = FctSrc::new();
    src.localsize = 0;
    src.tempsize = 64;
    src.argsize = 16;
    let mut args = Vec::new();
    let mut exprs = Vec::new();
    for i in 0..8 {
        args.push(Arg::Expr(i, BuiltinType::Int, 8 * (i as i32 + 1)));
        exprs.push(lit_int(10 + i, i as u64));
    }
    src.map_csites.insert(
        NodeId(3),
        CallSite { callee: Callee::Fct(FctId(1)), args, super_call: false, return_type: BuiltinType::Unit },
    );
    let e = Expr::ExprCall(ExprCallType { id: NodeId(3), pos: pos(1, 1), name: Name(0), object: None, args: exprs });
    let out = generate(&ctxt, &src, &e, rax());
    assert_eq!(out.result, Ok(()));
    let code = insns(&out.masm);
    // 8 arguments evaluated and spilled, then 6 loaded to registers
    for i in 0..6 {
        assert_eq!(code[16 + i], Insn::LoadMem(MachineMode::Int32, REG_PARAMS[i], Mem::Local(-8 * (i as i32 + 1))));
    }
    // the frame is 80 bytes; arguments 7 and 8 go to its lowest words
    assert_eq!(src.stacksize(), Some(80));
    assert_eq!(
        code[22..26].to_vec(),
        vec![
            Insn::LoadMem(MachineMode::Int32, Reg::R10, Mem::Local(-56)),
            Insn::StoreMem(MachineMode::Int32, Mem::Local(-80), Reg::R10),
            Insn::LoadMem(MachineMode::Int32, Reg::R10, Mem::Local(-64)),
            Insn::StoreMem(MachineMode::Int32, Mem::Local(-72), Reg::R10),
        ]
    );
}

#[test]
fn constructor_call_allocates_and_returns_the_instance() {
    let mut ctxt = context();
    ctxt.add_fct(fct(FctKind::Definition));
    ctxt.add_fct(fct(FctKind::Source(FctSrc::new())));
    ctxt.classes.push(class(0, 0, 0x5000, Vec::new()));
    let mut src = FctSrc::new();
    src.localsize = 0;
    src.tempsize = 8;
    src.map_csites.insert(
        NodeId(3),
        CallSite {
            callee: Callee::Fct(FctId(1)),
            args: vec![Arg::SelfieNew(ClassId(0), 8)],
            super_call: false,
            return_type: BuiltinType::Unit,
        },
    );
    let e = Expr::ExprCall(ExprCallType { id: NodeId(3), pos: pos(2, 2), name: Name(0), object: None, args: Vec::new() });
    let out = generate(&ctxt, &src, &e, rax());
    assert_eq!(out.result, Ok(()));
    let code = insns(&out.masm);
    assert_eq!(
        code[..10].to_vec(),
        vec![
            Insn::LoadIntConst(MachineMode::Int32, Reg::RDI, 24),
            // the allocator, through its native stub
            Insn::LoadConstPool(Reg::RAX, 9),
            Insn::CallReg(Reg::RAX),
            Insn::CmpZero(MachineMode::Ptr, Reg::RAX),
            Insn::JumpIf(CondCode::Equal, Label(0)),
            // the dispatch table is stored before anything else happens
            Insn::LoadConstPool(Reg::R10, 21),
            Insn::StoreMem(MachineMode::Ptr, Mem::Base(Reg::RAX, 0), Reg::R10),
            Insn::StoreMem(MachineMode::Ptr, Mem::Local(-8), Reg::RAX),
            Insn::LoadMem(MachineMode::Ptr, Reg::RDI, Mem::Local(-8)),
            Insn::LoadConstPool(Reg::RAX, 33),
        ]
    );
    // behind the call the new instance is the value
    assert_eq!(code[code.len() - 1], Insn::LoadMem(MachineMode::Ptr, Reg::RAX, Mem::Local(-8)));
    assert_eq!(bailouts(&out.masm), vec![Bailout { label: Label(0), trap: Trap::OOM, pos: pos(2, 2) }]);
    assert_eq!(out.rt.native_fcts.find_fct(GC_ALLOC), Some(0x10_0018));
    assert_eq!(out.masm.dseg().entry(1).value, DSegValue::Ptr(0x5000));
    // the allocation is a safepoint, and so is the constructor call, at
    // which the new instance is live
    assert_eq!(gcpoints(&out.masm), vec![(3, vec![]), (11, vec![-8])]);
}

/// `try throwing() else fallback()`.
fn try_program(mode_else: bool) -> (Context, FctSrc, Expr) {
    let mut ctxt = context();
    ctxt.add_fct(fct(FctKind::Definition));
    ctxt.add_fct(fct(FctKind::Source(FctSrc::new())));
    ctxt.add_fct(fct(FctKind::Source(FctSrc::new())));
    let mut src = FctSrc::new();
    for (node, callee) in [(1, 1), (2, 2)] {
        src.map_csites.insert(
            NodeId(node),
            CallSite { callee: Callee::Fct(FctId(callee)), args: Vec::new(), super_call: false, return_type: BuiltinType::Int },
        );
    }
    let call = |id: usize| {
        Box::new(Expr::ExprCall(ExprCallType { id: NodeId(id), pos: pos(id as u32, 1), name: Name(0), object: None, args: Vec::new() }))
    };
    let mode = if mode_else { TryMode::Else(call(2)) } else { TryMode::Force };
    let e = Expr::ExprTry(ExprTryType { id: NodeId(3), pos: pos(9, 9), expr: call(1), mode });
    (ctxt, src, e)
}

#[test]
fn try_else_guards_the_call_and_handles_in_the_alternative() {
    let (ctxt, src, e) = try_program(true);
    let out = generate(&ctxt, &src, &e, rax());
    assert_eq!(out.result, Ok(()));
    assert_eq!(
        insns(&out.masm),
        vec![
            Insn::LoadConstPool(Reg::RAX, 8),
            Insn::CallReg(Reg::RAX),
            Insn::Jump(Label(0)),
            Insn::LoadConstPool(Reg::RAX, 19),
            Insn::CallReg(Reg::RAX),
        ]
    );
    // exactly one handler: it guards the call of `throwing`, positions 0
    // and 1, and continues at the call of `fallback`
    assert_eq!(
        handlers(&out.masm),
        vec![ExHandler { try_start: 0, try_end: 2, catch: 3, offset: None, catch_type: CatchType::Any }]
    );
    assert_eq!(out.masm.label_pos(Label(0)), Some(5));
}

#[test]
fn try_force_raises_unexpected_in_the_handler() {
    let (ctxt, src, e) = try_program(false);
    let out = generate(&ctxt, &src, &e, rax());
    assert_eq!(out.result, Ok(()));
    let code = insns(&out.masm);
    assert_eq!(code[2], Insn::Jump(Label(0)));
    assert_eq!(code[3], Insn::Trap(Trap::UNEXPECTED));
    assert_eq!(
        handlers(&out.masm),
        vec![ExHandler { try_start: 0, try_end: 2, catch: 3, offset: None, catch_type: CatchType::Any }]
    );
    assert_eq!(out.masm.label_pos(Label(0)), Some(4));
}

#[test]
fn try_without_handler_is_the_operand() {
    let ctxt = context();
    let src = FctSrc::new();
    let e = Expr::ExprTry(ExprTryType { id: NodeId(3), pos: pos(1, 1), expr: lit_int(1, 4), mode: TryMode::Normal });
    let out = generate(&ctxt, &src, &e, rax());
    assert_eq!(insns(&out.masm), vec![Insn::LoadIntConst(MachineMode::Int32, Reg::RAX, 4)]);
    assert_eq!(out.masm.handlers_len(), 0);
}

#[test]
fn assert_raises_assert_when_the_condition_is_false() {
    let mut ctxt = context();
    with_intrinsics(&mut ctxt, &[Intrinsic::Assert]);
    let mut src = FctSrc::new();
    src.map_calls.insert(NodeId(3), CallType { callee: FctId(1), method: false });
    let cond = Box::new(Expr::ExprLitBool(ExprLitBoolType { id: NodeId(1), pos: pos(1, 1), value: false }));
    let e = Expr::ExprCall(ExprCallType { id: NodeId(3), pos: pos(5, 2), name: Name(0), object: None, args: vec![cond] });
    let out = generate(&ctxt, &src, &e, rax());
    assert_eq!(out.result, Ok(()));
    assert_eq!(
        insns(&out.masm),
        vec![
            Insn::LoadIntConst(MachineMode::Int32, Reg::RAX, 0),
            Insn::CmpZero(MachineMode::Int32, Reg::RAX),
            Insn::JumpIf(CondCode::Zero, Label(0)),
        ]
    );
    assert_eq!(bailouts(&out.masm), vec![Bailout { label: Label(0), trap: Trap::ASSERT, pos: pos(5, 2) }]);
    assert_eq!(out.masm.comment(0), (1, Comment::CheckAssert));
}

#[test]
fn length_checks_the_receiver_for_null() {
    let mut ctxt = context();
    with_intrinsics(&mut ctxt, &[Intrinsic::StrLen, Intrinsic::IntToLong, Intrinsic::LongToByte, Intrinsic::LongToInt]);
    let mut src = FctSrc::new();
    src.vars.push(var(0, BuiltinType::Str, -8));
    src.map_idents.insert(NodeId(1), IdentType::Var(VarId(0)));
    src.map_calls.insert(NodeId(3), CallType { callee: FctId(1), method: true });
    let e = Expr::ExprCall(ExprCallType { id: NodeId(3), pos: pos(5, 2), name: Name(0), object: Some(ident(1)), args: Vec::new() });
    let out = generate(&ctxt, &src, &e, ExprStore::Reg(Reg::RCX));
    assert_eq!(
        insns(&out.masm),
        vec![
            Insn::LoadMem(MachineMode::Ptr, Reg::RAX, Mem::Local(-8)),
            Insn::CmpZero(MachineMode::Ptr, Reg::RAX),
            Insn::JumpIf(CondCode::Equal, Label(0)),
            Insn::LoadMem(MachineMode::Ptr, Reg::RCX, Mem::Base(Reg::RAX, 8)),
        ]
    );
    assert_eq!(bailouts(&out.masm), vec![Bailout { label: Label(0), trap: Trap::NIL, pos: pos(5, 2) }]);

    // conversions between the integer widths
    let conv = |callee: usize| {
        let mut src = FctSrc::new();
        src.map_calls.insert(NodeId(3), CallType { callee: FctId(callee), method: true });
        let e = Expr::ExprCall(ExprCallType { id: NodeId(3), pos: pos(1, 1), name: Name(0), object: Some(lit_int(1, 3)), args: Vec::new() });
        insns(&generate(&ctxt, &src, &e, ExprStore::Reg(Reg::RCX)).masm)
    };
    assert_eq!(
        conv(2),
        vec![Insn::LoadIntConst(MachineMode::Int32, Reg::RAX, 3), Insn::ExtendIntLong(Reg::RCX, Reg::RAX)]
    );
    assert_eq!(
        conv(3),
        vec![
            Insn::LoadIntConst(MachineMode::Int32, Reg::RCX, 3),
            Insn::ExtendByte(MachineMode::Int32, Reg::RCX, Reg::RCX)
        ]
    );
    assert_eq!(conv(4), vec![Insn::LoadIntConst(MachineMode::Int32, Reg::RCX, 3)]);
}

#[test]
fn operator_call_makes_the_outcome_of_the_comparison() {
    // a < b by a call of compareTo
    let mut callee = fct(FctKind::Source(FctSrc::new()));
    callee.return_type = BuiltinType::Int;
    let (ctxt, mut src, _) = call_program(callee, true);
    let e = bin(3, BinOp::Cmp(CmpOp::Lt), ident(1), lit_int(2, 5));
    src.map_calls = dora::ctxt::NodeMap::new();
    src.map_calls.insert(NodeId(3), CallType { callee: FctId(1), method: true });
    let out = generate(&ctxt, &src, &e, rax());
    assert_eq!(out.result, Ok(()));
    let code = insns(&out.masm);
    let n = code.len();
    assert_eq!(
        code[n - 3..].to_vec(),
        vec![
            Insn::LoadIntConst(MachineMode::Int32, Reg::R10, 0),
            Insn::CmpReg(MachineMode::Int32, Reg::RAX, Reg::R10),
            Insn::SetIf(Reg::RAX, CondCode::Less),
        ]
    );
}

#[test]
fn every_fault_has_its_error() {
    let ctxt = context();
    let src = FctSrc::new();

    // a struct literal is not lowered
    let e = Expr::ExprLitStruct(ExprLitStructType { id: NodeId(1), pos: pos(1, 1), path: Name(0) });
    assert_eq!(generate(&ctxt, &src, &e, rax()).result, Err(GenError::Unsupported));

    // an int literal cannot be delivered in a float register
    assert_eq!(generate(&ctxt, &src, &lit_int(1, 1), ExprStore::FReg(FREG_RESULT)).result, Err(GenError::WrongStore));

    // an identifier that semantic analysis did not resolve
    assert_eq!(generate(&ctxt, &src, &ident(1), rax()).result, Err(GenError::MissingInfo));

    // `self` without variables
    let e = Expr::ExprSelf(ExprSelfType { id: NodeId(1), pos: pos(1, 1) });
    assert_eq!(generate(&ctxt, &src, &e, rax()).result, Err(GenError::MissingInfo));

    // an array access that resolves to an intrinsic of another kind
    let (mut ctxt2, src2, e) = array_get(false);
    ctxt2.fcts[1].kind = FctKind::Builtin(Intrinsic::IntAdd);
    assert_eq!(generate(&ctxt2, &src2, &e, rax()).result, Err(GenError::UnexpectedIntrinsic));

    // a call of a function that is declared only
    let (ctxt3, src3, e) = call_program(fct(FctKind::Definition), false);
    assert_eq!(generate(&ctxt3, &src3, &e, rax()).result, Err(GenError::BadCallee));

    // two values that are live at once planned for one slot
    let (ctxt4, mut src4, e) = call_program(fct(FctKind::Source(FctSrc::new())), false);
    src4.map_csites.insert(
        NodeId(3),
        CallSite {
            callee: Callee::Fct(FctId(1)),
            args: vec![Arg::Expr(0, BuiltinType::Str, 8), Arg::Expr(0, BuiltinType::Str, 8)],
            super_call: false,
            return_type: BuiltinType::Int,
        },
    );
    assert_eq!(generate(&ctxt4, &src4, &e, rax()).result, Err(GenError::TempConflict));

    // an optional try is not lowered
    let e = Expr::ExprTry(ExprTryType { id: NodeId(3), pos: pos(1, 1), expr: lit_int(1, 4), mode: TryMode::Opt });
    assert_eq!(generate(&ctxt, &src, &e, rax()).result, Err(GenError::Unsupported));

    // a slot beyond the frame
    let (ctxt5, mut src5, e) = one_plus_two();
    src5.localsize = i32::MIN;
    src5.storage.insert(NodeId(1), Store::Temp(0, BuiltinType::Int));
    assert_eq!(generate(&ctxt5, &src5, &e, rax()).result, Err(GenError::TooLarge));

    // no room for the lazy-compile stub
    let (ctxt6, src6, e) = call_program(fct(FctKind::Source(FctSrc::new())), false);
    let f = fct(FctKind::Definition);
    let ast = function();
    let scopes = Scopes::new();
    let mut masm = MacroAssembler::new();
    let mut rt = Runtime::new(0x10_0000, 0x10_0000, 0x30_0000, 0x40_0000);
    let r = ExprGen::new(&ctxt6, &f, &src6, &ast, &mut masm, &scopes, &mut rt).try_generate(&e, rax());
    assert_eq!(r, Err(GenError::OutOfMemory));
}

#[test]
fn leaked_slot_is_reported() {
    // the shift intrinsic spills its first argument and never gives the
    // slot up: with a reference there, the slot is still taken at the end
    let mut ctxt = context();
    with_intrinsics(&mut ctxt, &[Intrinsic::Shl]);
    let mut src = FctSrc::new();
    src.vars.push(var(0, BuiltinType::Str, -8));
    src.map_idents.insert(NodeId(1), IdentType::Var(VarId(0)));
    src.map_calls.insert(NodeId(3), CallType { callee: FctId(1), method: false });
    src.map_tys.insert(NodeId(1), BuiltinType::Str);
    src.storage.insert(NodeId(1), Store::Temp(8, BuiltinType::Str));
    let e = Expr::ExprCall(ExprCallType { id: NodeId(3), pos: pos(1, 1), name: Name(0), object: None, args: vec![ident(1), lit_int(2, 1)] });
    assert_eq!(generate(&ctxt, &src, &e, rax()).result, Err(GenError::UnfreedTemps));

    // with an int there, nothing is leaked
    src.map_tys.insert(NodeId(1), BuiltinType::Int);
    let out = generate(&ctxt, &src, &e, rax());
    assert_eq!(out.result, Ok(()));
    assert_eq!(
        insns(&out.masm)[4],
        Insn::IntArith(IntOp::Shl, MachineMode::Int32, Reg::RAX, Reg::RAX, Reg::R10)
    );
}

#[test]
fn generate_emits_what_try_generate_emits() {
    let (ctxt, src, e) = one_plus_two();
    let expected = insns(&generate(&ctxt, &src, &e, rax()).masm);
    let f = fct(FctKind::Definition);
    let ast = function();
    let scopes = Scopes::new();
    let mut masm = MacroAssembler::new();
    let mut rt = runtime();
    ExprGen::new(&ctxt, &f, &src, &ast, &mut masm, &scopes, &mut rt).generate(&e, rax());
    assert_eq!(insns(&masm), expected);
}

/// The call `a.get(0)` for the int array variable `a`, where `get` is the
/// intrinsic of function 1.
fn array_get_call() -> (Context, FctSrc, Expr) {
    let (ctxt, src, _) = array_get(false);
    let e = Expr::ExprCall(ExprCallType {
        id: NodeId(3),
        pos: pos(4, 9),
        name: Name(0),
        object: Some(ident(1)),
        args: vec![lit_int(2, 0)],
    });
    (ctxt, src, e)
}

#[test]
fn array_get_call_is_lowered_as_the_element_access() {
    let (ctxt, src, e) = array_get_call();
    let out = generate(&ctxt, &src, &e, rax());
    assert_eq!(out.result, Ok(()));
    let code = insns(&out.masm);
    // the element is loaded from behind the header, by index and element size
    assert_eq!(
        code[code.len() - 1],
        Insn::LoadMem(MachineMode::Int32, Reg::RAX, Mem::Index(Reg::RAX, Reg::R10, 4, 16))
    );
    // the index is checked against the length
    assert_eq!(
        bailouts(&out.masm),
        vec![Bailout { label: Label(0), trap: Trap::INDEX_OUT_OF_BOUNDS, pos: pos(4, 9) }]
    );
    // the call gives what the element access gives
    let (ctxt, src, access) = array_get(false);
    let same = generate(&ctxt, &src, &access, rax());
    assert_eq!(same.result, Ok(()));
    assert_eq!(code, insns(&same.masm));
    // without receiver or index there is nothing to lower
    let bare = Expr::ExprCall(ExprCallType { id: NodeId(3), pos: pos(4, 9), name: Name(0), object: Some(ident(1)), args: vec![] });
    assert_eq!(generate(&ctxt, &src, &bare, rax()).result, Err(GenError::MissingInfo));
}

#[test]
fn byte_and_long_array_get_calls_load_in_their_mode() {
    for (intrinsic, mode, scale) in [
        (Intrinsic::ByteArrayGet, MachineMode::Int8, 1),
        (Intrinsic::LongArrayGet, MachineMode::Int64, 8),
        (Intrinsic::StrGet, MachineMode::Int8, 1),
    ] {
        let (_, src, e) = array_get_call();
        let mut ctxt = context();
        with_intrinsics(&mut ctxt, &[intrinsic]);
        let out = generate(&ctxt, &src, &e, rax());
        assert_eq!(out.result, Ok(()));
        let code = insns(&out.masm);
        assert_eq!(code[code.len() - 1], Insn::LoadMem(mode, Reg::RAX, Mem::Index(Reg::RAX, Reg::R10, scale, 16)));
    }
}

#[test]
fn array_set_call_stores_the_element() {
    for (intrinsic, mode, scale) in [
        (Intrinsic::IntArraySet, MachineMode::Int32, 4),
        (Intrinsic::ByteArraySet, MachineMode::Int8, 1),
        (Intrinsic::LongArraySet, MachineMode::Int64, 8),
    ] {
        let mut ctxt = context();
        with_intrinsics(&mut ctxt, &[intrinsic]);
        let mut src = FctSrc::new();
        src.localsize = 8;
        src.tempsize = 24;
        src.vars.push(var(0, BuiltinType::IntArray, -8));
        src.map_idents.insert(NodeId(1), IdentType::Var(VarId(0)));
        src.map_calls.insert(NodeId(4), CallType { callee: FctId(1), method: true });
        src.map_tys.insert(NodeId(1), BuiltinType::IntArray);
        src.map_tys.insert(NodeId(2), BuiltinType::Int);
        src.map_tys.insert(NodeId(3), BuiltinType::Int);
        src.storage.insert(NodeId(1), Store::Temp(8, BuiltinType::IntArray));
        src.storage.insert(NodeId(2), Store::Temp(16, BuiltinType::Int));
        src.storage.insert(NodeId(3), Store::Temp(24, BuiltinType::Int));
        // a.set(0, 7)
        let e = Expr::ExprCall(ExprCallType {
            id: NodeId(4),
            pos: pos(5, 3),
            name: Name(0),
            object: Some(ident(1)),
            args: vec![lit_int(2, 0), lit_int(3, 7)],
        });
        let out = generate(&ctxt, &src, &e, rax());
        assert_eq!(out.result, Ok(()));
        let code = insns(&out.masm);
        // array, index and value are evaluated in this order
        assert_eq!(code[0], Insn::LoadMem(MachineMode::Ptr, Reg::RAX, Mem::Local(-8)));
        assert!(code.contains(&Insn::LoadIntConst(MachineMode::Int32, Reg::RAX, 0)));
        assert!(code.contains(&Insn::LoadIntConst(MachineMode::Int32, Reg::RAX, 7)));
        // the value is stored behind the header, by index and element size
        assert!(code.contains(&Insn::StoreMem(mode, Mem::Index(Reg::R10, Reg::R11, scale, 16), Reg::RAX)));
        assert_eq!(
            bailouts(&out.masm),
            vec![Bailout { label: Label(0), trap: Trap::INDEX_OUT_OF_BOUNDS, pos: pos(5, 3) }]
        );
        // a value is needed
        let short = Expr::ExprCall(ExprCallType {
            id: NodeId(4),
            pos: pos(5, 3),
            name: Name(0),
            object: Some(ident(1)),
            args: vec![lit_int(2, 0)],
        });
        assert_eq!(generate(&ctxt, &src, &short, rax()).result, Err(GenError::MissingInfo));
    }
}

#[test]
fn unary_intrinsic_calls_work_on_the_receiver() {
    let cases = [
        (Intrinsic::IntNeg, Some(Insn::IntNeg(MachineMode::Int32, Reg::RCX, Reg::RCX))),
        (Intrinsic::LongNeg, Some(Insn::IntNeg(MachineMode::Int64, Reg::RCX, Reg::RCX))),
        (Intrinsic::IntNot, Some(Insn::IntNot(MachineMode::Int32, Reg::RCX, Reg::RCX))),
        (Intrinsic::LongNot, Some(Insn::IntNot(MachineMode::Int64, Reg::RCX, Reg::RCX))),
        (Intrinsic::ByteNot, Some(Insn::IntNot(MachineMode::Int8, Reg::RCX, Reg::RCX))),
        (Intrinsic::BoolNot, Some(Insn::BoolNot(Reg::RCX, Reg::RCX))),
        (Intrinsic::IntPlus, None),
        (Intrinsic::LongPlus, None),
    ];
    for (intrinsic, insn) in cases {
        let mut ctxt = context();
        with_intrinsics(&mut ctxt, &[intrinsic]);
        let mut src = FctSrc::new();
        src.map_calls.insert(NodeId(2), CallType { callee: FctId(1), method: true });
        let e = Expr::ExprCall(ExprCallType {
            id: NodeId(2),
            pos: pos(1, 1),
            name: Name(0),
            object: Some(lit_int(1, 9)),
            args: vec![],
        });
        let out = generate(&ctxt, &src, &e, ExprStore::Reg(Reg::RCX));
        assert_eq!(out.result, Ok(()), "{:?}", intrinsic);
        let mut expected = vec![Insn::LoadIntConst(MachineMode::Int32, Reg::RCX, 9)];
        expected.extend(insn);
        assert_eq!(insns(&out.masm), expected);
    }
}

#[test]
fn float_equality_call_compares_in_the_float_registers() {
    let mut ctxt = context();
    with_intrinsics(&mut ctxt, &[Intrinsic::DoubleEq, Intrinsic::FloatCmp]);
    let mut src = FctSrc::new();
    src.tempsize = 8;
    src.map_calls.insert(NodeId(3), CallType { callee: FctId(1), method: true });
    src.map_tys.insert(NodeId(1), BuiltinType::Double);
    src.storage.insert(NodeId(1), Store::Temp(8, BuiltinType::Double));
    let lit = |id: usize, v: f64| {
        Box::new(Expr::ExprLitFloat(ExprLitFloatType { id: NodeId(id), pos: pos(1, 1), bits: v.to_bits(), suffix: FloatSuffix::Double }))
    };
    let call = |id: usize| {
        Expr::ExprCall(ExprCallType { id: NodeId(id), pos: pos(1, 1), name: Name(0), object: Some(lit(1, 1.5)), args: vec![lit(2, 2.5)] })
    };
    let out = generate(&ctxt, &src, &call(3), rax());
    assert_eq!(out.result, Ok(()));
    let code = insns(&out.masm);
    assert_eq!(
        code[code.len() - 2..],
        [
            Insn::CmpFreg(MachineMode::Float64, FReg::XMM0, FReg::XMM1),
            Insn::SetIf(Reg::RAX, CondCode::Equal),
        ]
    );
    // without an operator the comparison is for equality too
    src.map_calls.insert(NodeId(4), CallType { callee: FctId(2), method: true });
    let out = generate(&ctxt, &src, &call(4), rax());
    assert_eq!(out.result, Ok(()));
    let code = insns(&out.masm);
    assert_eq!(
        code[code.len() - 2..],
        [
            Insn::CmpFreg(MachineMode::Float32, FReg::XMM0, FReg::XMM1),
            Insn::SetIf(Reg::RAX, CondCode::Equal),
        ]
    );
}
