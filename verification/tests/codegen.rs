use dora::ast::{
    BinOp, Expr, ExprBinType, ExprCallType, ExprIdentType, ExprLitBoolType, ExprLitIntType,
    Function, Name, NodeId, Stmt, StmtBlockType, StmtBreakType, StmtContinueType, StmtExprType,
    StmtIfType, StmtLetType, StmtLoopType, StmtReturnType, StmtWhileType, Type,
};
use dora::codegen::{create_gcpoint, generate, CondCode, Scopes, TempOffsets};
use dora::cpu::{Mem, Reg};
use dora::ctxt::{
    Arg, Args, CallSite, CallType, Callee, Context, Entries, Fct, FctId, FctKind, FctSrc,
    IdentType, Intrinsic, Store, Var, VarId,
};
use dora::emit::{debug, var_load, var_store};
use dora::error::GenError;
use dora::fct::JitFct;
use dora::lexer::{IntSuffix, Position};
use dora::masm::{Insn, IntOp, Label, MacroAssembler};
use dora::runtime::{CodeData, Runtime};
use dora::trap::Trap;
use dora::ty::{BuiltinType, MachineMode};

fn pos(line: u32, column: u32) -> Position {
    Position::new(line, column)
}

fn context() -> Context {
    Context::new(
        Args { flag_omit_bounds_check: false },
        Entries {
            gc_alloc: 0x7000_1000,
            start_native_call: 0x7000_2000,
            finish_native_call: 0x7000_3000,
            str_len: 0x7000_4000,
            str_parse_int: 0x7000_5000,
        },
    )
}

fn runtime() -> Runtime {
    Runtime::new(0x10_0000, 0x20_0000, 0x30_0000, 0x40_0000)
}

fn fct(kind: FctKind) -> Fct {
    Fct {
        id: FctId(0),
        pos: pos(1, 1),
        name: Name(0),
        params_types: Vec::new(),
        return_type: BuiltinType::Int,
        owner_class: None,
        is_static: false,
        has_override: false,
        has_open: false,
        has_final: false,
        internal: false,
        overrides: None,
        throws: false,
        ctor: None,
        vtable_index: None,
        initialized: true,
        impl_for: None,
        kind,
    }
}

fn block(stmts: Vec<Stmt>) -> Stmt {
    Stmt::StmtBlock(StmtBlockType { id: NodeId(800), pos: pos(1, 1), stmts: stmts.into_iter().map(Box::new).collect() })
}

fn function(body: Vec<Stmt>) -> Function {
    Function {
        id: NodeId(1000),
        name: Name(0),
        pos: pos(1, 1),
        params: Vec::new(),
        return_type: Type::TypeUnit,
        block: Box::new(block(body)),
    }
}

fn lit_int(id: usize, value: u64) -> Box<Expr> {
    Box::new(Expr::ExprLitInt(ExprLitIntType { id: NodeId(id), pos: pos(1, 1), value, suffix: IntSuffix::Int }))
}

fn lit_bool(id: usize, value: bool) -> Box<Expr> {
    Box::new(Expr::ExprLitBool(ExprLitBoolType { id: NodeId(id), pos: pos(1, 1), value }))
}

fn ident(id: usize) -> Box<Expr> {
    Box::new(Expr::ExprIdent(ExprIdentType { id: NodeId(id), pos: pos(1, 1), name: Name(0) }))
}

fn ret(e: Option<Box<Expr>>) -> Stmt {
    Stmt::StmtReturn(StmtReturnType { id: NodeId(700), pos: pos(1, 1), expr: e })
}

fn expr_stmt(e: Box<Expr>) -> Stmt {
    Stmt::StmtExpr(StmtExprType { id: NodeId(701), pos: pos(1, 1), expr: e })
}

fn var(id: usize, ty: BuiltinType, offset: i32) -> Var {
    Var { id: VarId(id), name: Name(0), ty, reassignable: true, node_id: NodeId(900 + id), offset }
}

fn insns(f: &JitFct) -> Vec<Insn> {
    // every function that is generated here can be encoded
    assert_eq!(f.image().map(|image| image.len()), Some(f.listing().dseg().size() as usize + f.fct_len()));
    (0..f.listing().len()).map(|i| f.listing().insn(i)).collect()
}

fn compile(ctxt: &Context, src: &FctSrc, ast: &Function, args: usize) -> (Result<JitFct, GenError>, Runtime) {
    let mut rt = runtime();
    let f = fct(FctKind::Definition);
    let r = generate(ctxt, &f, src, ast, args, &mut rt);
    (r, rt)
}

#[test]
fn function_returning_one_plus_two() {
    // fun f() -> Int { return 1 + 2; }
    let mut ctxt = context();
    ctxt.add_fct(fct(FctKind::Definition));
    ctxt.add_fct(fct(FctKind::Builtin(Intrinsic::IntAdd)));
    let mut src = FctSrc::new();
    src.tempsize = 8;
    src.map_calls.insert(NodeId(3), CallType { callee: FctId(1), method: true });
    src.map_tys.insert(NodeId(1), BuiltinType::Int);
    src.map_tys.insert(NodeId(3), BuiltinType::Int);
    src.storage.insert(NodeId(1), Store::Temp(8, BuiltinType::Int));
    let sum = Box::new(Expr::ExprBin(ExprBinType { id: NodeId(3), pos: pos(1, 1), op: BinOp::Add, lhs: lit_int(1, 1), rhs: lit_int(2, 2) }));
    let ast = function(vec![ret(Some(sum))]);
    let (r, rt) = compile(&ctxt, &src, &ast, 0);
    let f = r.unwrap();
    assert_eq!(
        insns(&f),
        vec![
            Insn::Prolog(16),
            Insn::LoadIntConst(MachineMode::Int32, Reg::RAX, 1),
            Insn::StoreMem(MachineMode::Int32, Mem::Local(-8), Reg::RAX),
            Insn::LoadIntConst(MachineMode::Int32, Reg::R10, 2),
            Insn::LoadMem(MachineMode::Int32, Reg::RAX, Mem::Local(-8)),
            // the sum is left in the result register
            Insn::IntArith(IntOp::Add, MachineMode::Int32, Reg::RAX, Reg::RAX, Reg::R10),
            Insn::Epilog(16),
            Insn::Epilog(16),
        ]
    );
    // the code takes 55 bytes, and no pool lies before it
    assert_eq!(f.fct_ptr(), 0x10_0000);
    assert_eq!(f.image_start(), 0x10_0000);
    assert_eq!(f.fct_len(), 55);
    assert_eq!(f.fct_end(), 0x10_0037);
    assert_eq!(f.framesize(), 16);
    assert_eq!(rt.space.top, 0x10_0037);
    assert_eq!(rt.code_map.get(0x10_0003), Some(CodeData::Fct(FctId(0))));
    assert_eq!(rt.code_map.get(0x10_0037), None);
    assert_eq!(
        f.image(),
        Some(vec![
            // push rbp; mov rbp, rsp; sub rsp, 16
            0x55, 0x48, 0x89, 0xe5, 0x48, 0x81, 0xec, 0x10, 0, 0, 0,
            // mov eax, 1
            0x40, 0xb8, 1, 0, 0, 0,
            // mov [rbp - 8], eax
            0x40, 0x89, 0x84, 0x25, 0xf8, 0xff, 0xff, 0xff,
            // mov r10d, 2
            0x41, 0xba, 2, 0, 0, 0,
            // mov eax, [rbp - 8]
            0x40, 0x8b, 0x84, 0x25, 0xf8, 0xff, 0xff, 0xff,
            // add eax, r10d; mov eax, eax
            0x44, 0x01, 0xd0, 0x40, 0x89, 0xc0,
            // mov rsp, rbp; pop rbp; ret
            0x48, 0x89, 0xec, 0x5d, 0xc3,
            0x48, 0x89, 0xec, 0x5d, 0xc3,
        ])
    );
}

#[test]
fn trap_exits_are_placed_behind_the_code() {
    // fun f(x: Int, y: Int) -> Int { return x / y; }
    let mut ctxt = context();
    ctxt.add_fct(fct(FctKind::Definition));
    ctxt.add_fct(fct(FctKind::Builtin(Intrinsic::IntDiv)));
    let mut src = FctSrc::new();
    src.localsize = 8;
    src.tempsize = 8;
    src.vars.push(var(0, BuiltinType::Int, -4));
    src.vars.push(var(1, BuiltinType::Int, -8));
    src.map_idents.insert(NodeId(1), IdentType::Var(VarId(0)));
    src.map_idents.insert(NodeId(2), IdentType::Var(VarId(1)));
    src.map_calls.insert(NodeId(3), CallType { callee: FctId(1), method: true });
    src.map_tys.insert(NodeId(1), BuiltinType::Int);
    src.storage.insert(NodeId(1), Store::Temp(8, BuiltinType::Int));
    let quot = Box::new(Expr::ExprBin(ExprBinType { id: NodeId(3), pos: pos(1, 1), op: BinOp::Div, lhs: ident(1), rhs: ident(2) }));
    let ast = function(vec![ret(Some(quot))]);
    let (r, _) = compile(&ctxt, &src, &ast, 2);
    let f = r.unwrap();
    let code = insns(&f);
    // the parameters arrive in registers and go to their variables
    assert_eq!(code[1], Insn::StoreMem(MachineMode::Int32, Mem::Local(-4), Reg::RDI));
    assert_eq!(code[2], Insn::StoreMem(MachineMode::Int32, Mem::Local(-8), Reg::RSI));
    assert_eq!(code[7], Insn::CmpZero(MachineMode::Int32, Reg::R10));
    assert_eq!(code[8], Insn::JumpIf(CondCode::Zero, Label(0)));
    assert_eq!(code[9], Insn::IntArith(IntOp::Div, MachineMode::Int32, Reg::RAX, Reg::RAX, Reg::R10));
    // with a zero divisor the jump leaves for the trap
    assert_eq!(code.len(), 13);
    assert_eq!(code[12], Insn::Trap(Trap::DIV0));
    assert_eq!(f.listing().label_pos(Label(0)), Some(12));
    assert_eq!(f.listing().bailouts_len(), 0);
}

#[test]
fn if_jumps_over_the_branch_not_taken() {
    let ctxt = context();
    let src = FctSrc::new();
    let stmt = Stmt::StmtIf(StmtIfType {
        id: NodeId(10),
        pos: pos(1, 1),
        cond: lit_bool(1, true),
        then_block: Box::new(expr_stmt(lit_int(2, 10))),
        else_block: Some(Box::new(expr_stmt(lit_int(3, 20)))),
    });
    let (r, _) = compile(&ctxt, &src, &function(vec![stmt]), 0);
    let f = r.unwrap();
    assert_eq!(
        insns(&f),
        vec![
            Insn::Prolog(0),
            Insn::LoadIntConst(MachineMode::Int32, Reg::RAX, 1),
            Insn::CmpZero(MachineMode::Int32, Reg::RAX),
            Insn::JumpIf(CondCode::Zero, Label(0)),
            Insn::LoadIntConst(MachineMode::Int32, Reg::RAX, 10),
            Insn::Jump(Label(1)),
            Insn::LoadIntConst(MachineMode::Int32, Reg::RAX, 20),
            Insn::Epilog(0),
        ]
    );
    assert_eq!(f.listing().label_pos(Label(0)), Some(6));
    assert_eq!(f.listing().label_pos(Label(1)), Some(7));
    // every jump of the finished code has its position to go to
    assert_eq!(f.jump_target(3), Some(6));
    assert_eq!(f.jump_target(5), Some(7));
    assert_eq!(f.jump_target(4), None);
}

#[test]
fn if_without_else_binds_both_labels_behind_the_branch() {
    let ctxt = context();
    let src = FctSrc::new();
    let stmt = Stmt::StmtIf(StmtIfType {
        id: NodeId(10),
        pos: pos(1, 1),
        cond: lit_bool(1, false),
        then_block: Box::new(expr_stmt(lit_int(2, 10))),
        else_block: None,
    });
    let (r, _) = compile(&ctxt, &src, &function(vec![stmt]), 0);
    let f = r.unwrap();
    assert_eq!(f.listing().len(), 7);
    assert_eq!(f.listing().label_pos(Label(0)), Some(6));
    assert_eq!(f.listing().label_pos(Label(1)), Some(6));
}

#[test]
fn while_tests_at_the_top_and_jumps_back() {
    // while true { break; continue; }
    let ctxt = context();
    let src = FctSrc::new();
    let body = block(vec![
        Stmt::StmtBreak(StmtBreakType { id: NodeId(2), pos: pos(1, 1) }),
        Stmt::StmtContinue(StmtContinueType { id: NodeId(3), pos: pos(1, 1) }),
    ]);
    let stmt = Stmt::StmtWhile(StmtWhileType { id: NodeId(10), pos: pos(1, 1), cond: lit_bool(1, true), block: Box::new(body) });
    let (r, _) = compile(&ctxt, &src, &function(vec![stmt]), 0);
    let f = r.unwrap();
    assert_eq!(
        insns(&f),
        vec![
            Insn::Prolog(0),
            Insn::LoadIntConst(MachineMode::Int32, Reg::RAX, 1),
            Insn::CmpZero(MachineMode::Int32, Reg::RAX),
            Insn::JumpIf(CondCode::Zero, Label(1)),
            // break leaves the loop, continue goes to its top
            Insn::Jump(Label(1)),
            Insn::Jump(Label(0)),
            Insn::Jump(Label(0)),
            Insn::Epilog(0),
        ]
    );
    assert_eq!(f.listing().label_pos(Label(0)), Some(1));
    assert_eq!(f.listing().label_pos(Label(1)), Some(7));
}

#[test]
fn break_belongs_to_the_innermost_loop() {
    // loop { loop { break; } break; }
    let ctxt = context();
    let src = FctSrc::new();
    let brk = |id: usize| Stmt::StmtBreak(StmtBreakType { id: NodeId(id), pos: pos(1, 1) });
    let inner = Stmt::StmtLoop(StmtLoopType { id: NodeId(11), pos: pos(1, 1), block: Box::new(block(vec![brk(1)])) });
    let outer = Stmt::StmtLoop(StmtLoopType { id: NodeId(10), pos: pos(1, 1), block: Box::new(block(vec![inner, brk(2)])) });
    let (r, _) = compile(&ctxt, &src, &function(vec![outer]), 0);
    let f = r.unwrap();
    assert_eq!(
        insns(&f),
        vec![
            Insn::Prolog(0),
            Insn::Jump(Label(3)),
            Insn::Jump(Label(2)),
            Insn::Jump(Label(1)),
            Insn::Jump(Label(0)),
            Insn::Epilog(0),
        ]
    );
    assert_eq!(f.listing().label_pos(Label(0)), Some(1));
    assert_eq!(f.listing().label_pos(Label(2)), Some(1));
    assert_eq!(f.listing().label_pos(Label(3)), Some(3));
    assert_eq!(f.listing().label_pos(Label(1)), Some(5));
}

#[test]
fn break_outside_a_loop_is_a_fault() {
    let ctxt = context();
    let src = FctSrc::new();
    let stmt = Stmt::StmtBreak(StmtBreakType { id: NodeId(2), pos: pos(1, 1) });
    let (r, _) = compile(&ctxt, &src, &function(vec![stmt]), 0);
    assert_eq!(r.err(), Some(GenError::MissingInfo));
    let stmt = Stmt::StmtContinue(StmtContinueType { id: NodeId(2), pos: pos(1, 1) });
    let (r, _) = compile(&ctxt, &src, &function(vec![stmt]), 0);
    assert_eq!(r.err(), Some(GenError::MissingInfo));
}

/// `{ let s: Str; g(); } g();` where `g` is function 1.
fn let_then_calls() -> (Context, FctSrc, Function) {
    let mut ctxt = context();
    ctxt.add_fct(fct(FctKind::Definition));
    ctxt.add_fct(fct(FctKind::Source(FctSrc::new())));
    let mut src = FctSrc::new();
    src.localsize = 16;
    src.vars.push(var(0, BuiltinType::Str, -8));
    src.vars.push(var(1, BuiltinType::Str, -16));
    src.map_vars.insert(NodeId(20), VarId(1));
    for node in [1, 2] {
        src.map_csites.insert(
            NodeId(node),
            CallSite { callee: Callee::Fct(FctId(1)), args: Vec::new(), super_call: false, return_type: BuiltinType::Int },
        );
    }
    let call = |id: usize| {
        expr_stmt(Box::new(Expr::ExprCall(ExprCallType { id: NodeId(id), pos: pos(id as u32, 1), name: Name(0), object: None, args: Vec::new() })))
    };
    let decl = Stmt::StmtLet(StmtLetType { id: NodeId(20), pos: pos(1, 1), name: Name(0), reassignable: true, data_type: None, expr: None });
    let ast = function(vec![block(vec![decl, call(1)]), call(2)]);
    (ctxt, src, ast)
}

#[test]
fn safepoint_lists_the_reference_variables_in_scope() {
    let (ctxt, src, ast) = let_then_calls();
    let (r, rt) = compile(&ctxt, &src, &ast, 1);
    let f = r.unwrap();
    let code = insns(&f);
    assert_eq!(
        code[..6].to_vec(),
        vec![
            Insn::Prolog(16),
            // the parameter, a reference, is in scope from the start
            Insn::StoreMem(MachineMode::Ptr, Mem::Local(-8), Reg::RDI),
            // a reference variable without a value holds null
            Insn::LoadIntConst(MachineMode::Ptr, Reg::RAX, 0),
            Insn::StoreMem(MachineMode::Ptr, Mem::Local(-16), Reg::RAX),
            Insn::LoadConstPool(Reg::RAX, 12),
            Insn::CallReg(Reg::RAX),
        ]
    );
    let m = f.listing();
    assert_eq!(m.gcpoints_len(), 2);
    // within the block `s` is in scope; behind it only the parameter is
    let mut first = m.gcpoint(0).offsets.clone();
    first.sort();
    assert_eq!((m.gcpoint_pos(0), first), (6, vec![-16, -8]));
    assert_eq!((m.gcpoint_pos(1), m.gcpoint(1).offsets.clone()), (8, vec![-8]));
    // both calls go to the lazy-compile stub of the callee
    assert_eq!(m.dseg().entry(0).value, m.dseg().entry(1).value);
    assert_eq!(rt.stubs.len(), 1);
    assert_eq!((rt.stubs[0].0, rt.stubs[0].1.start, rt.stubs[0].1.end), (FctId(1), 0x10_0000, 0x10_0008));
    // the function's image lies behind the stub, and its pool of two
    // addresses before its entry
    assert_eq!(f.image_start(), 0x10_0008);
    assert_eq!(f.fct_ptr(), 0x10_0018);
}

#[test]
fn let_stores_the_initial_value() {
    let ctxt = context();
    let mut src = FctSrc::new();
    src.localsize = 8;
    src.vars.push(var(0, BuiltinType::Int, -4));
    src.map_vars.insert(NodeId(20), VarId(0));
    let decl = Stmt::StmtLet(StmtLetType { id: NodeId(20), pos: pos(1, 1), name: Name(0), reassignable: false, data_type: None, expr: Some(lit_int(1, 9)) });
    let (r, _) = compile(&ctxt, &src, &function(vec![decl]), 0);
    let f = r.unwrap();
    assert_eq!(
        insns(&f),
        vec![
            Insn::Prolog(16),
            Insn::LoadIntConst(MachineMode::Int32, Reg::RAX, 9),
            Insn::StoreMem(MachineMode::Int32, Mem::Local(-4), Reg::RAX),
            Insn::Epilog(16),
        ]
    );
}

#[test]
fn let_without_its_variable_is_a_fault() {
    let ctxt = context();
    let src = FctSrc::new();
    let decl = Stmt::StmtLet(StmtLetType { id: NodeId(20), pos: pos(1, 1), name: Name(0), reassignable: false, data_type: None, expr: None });
    let (r, _) = compile(&ctxt, &src, &function(vec![decl]), 0);
    assert_eq!(r.err(), Some(GenError::MissingInfo));
}

#[test]
fn function_needs_room_in_the_code_space() {
    let ctxt = context();
    let src = FctSrc::new();
    let ast = function(vec![ret(None)]);
    let f = fct(FctKind::Definition);
    // the prolog takes 11 bytes and each of the two epilogs 5
    let mut rt = Runtime::new(0x10_0000, 0x10_0014, 0x30_0000, 0x40_0000);
    assert_eq!(generate(&ctxt, &f, &src, &ast, 0, &mut rt).err(), Some(GenError::OutOfMemory));
    assert_eq!(rt.space.top, 0x10_0000);
    let mut rt = Runtime::new(0x10_0000, 0x10_0015, 0x30_0000, 0x40_0000);
    assert!(generate(&ctxt, &f, &src, &ast, 0, &mut rt).is_ok());
    assert_eq!(rt.space.top, 0x10_0015);
}

#[test]
fn frame_too_large_is_a_fault() {
    let ctxt = context();
    let mut src = FctSrc::new();
    src.localsize = i32::MAX;
    let (r, _) = compile(&ctxt, &src, &function(vec![]), 0);
    assert_eq!(r.err(), Some(GenError::TooLarge));
    src.localsize = -8;
    let (r, _) = compile(&ctxt, &src, &function(vec![]), 0);
    assert_eq!(r.err(), Some(GenError::TooLarge));
}

#[test]
fn temporaries_are_a_set_of_slots() {
    let mut temps = TempOffsets::new();
    assert!(temps.is_empty());
    temps.insert(-8);
    temps.insert(-16);
    assert!(temps.contains(-8));
    assert!(!temps.contains(-24));
    assert!(!temps.is_empty());
    temps.remove(-8);
    assert!(!temps.contains(-8));
    assert!(temps.contains(-16));
    temps.remove(-16);
    assert!(temps.is_empty());
}

#[test]
fn safepoint_is_scopes_and_temporaries_together() {
    let mut scopes = Scopes::new();
    scopes.push_scope();
    scopes.add_var(-8);
    scopes.push_scope();
    scopes.add_var(-16);
    let mut temps = TempOffsets::new();
    temps.insert(-32);
    let mut refs = create_gcpoint(&scopes, &temps).offsets;
    refs.sort();
    assert_eq!(refs, vec![-32, -16, -8]);
    assert_eq!(scopes.depth(), 2);
    // closing the inner scope takes its variables out
    scopes.pop_scope();
    let mut refs = create_gcpoint(&scopes, &temps).offsets;
    refs.sort();
    assert_eq!(refs, vec![-32, -8]);
    scopes.pop_scope();
    assert_eq!(scopes.depth(), 0);
    assert_eq!(create_gcpoint(&scopes, &TempOffsets::new()).offsets, Vec::<i32>::new());
}

#[test]
fn variables_are_loaded_and_stored_in_their_mode() {
    let mut src = FctSrc::new();
    src.vars.push(var(0, BuiltinType::Bool, -1));
    src.vars.push(var(1, BuiltinType::Str, -16));
    let mut masm = MacroAssembler::new();
    debug(&mut masm);
    var_store(&mut masm, &src, Reg::RCX, VarId(0));
    var_load(&mut masm, &src, VarId(1), Reg::RDX);
    assert_eq!(masm.len(), 3);
    assert_eq!(masm.insn(0), Insn::Debug);
    assert_eq!(masm.insn(1), Insn::StoreMem(MachineMode::Int8, Mem::Local(-1), Reg::RCX));
    assert_eq!(masm.insn(2), Insn::LoadMem(MachineMode::Ptr, Reg::RDX, Mem::Local(-16)));
    // a variable without a value is neither stored nor loaded
    src.vars.push(var(2, BuiltinType::Unit, -24));
    var_store(&mut masm, &src, Reg::RCX, VarId(2));
    var_load(&mut masm, &src, VarId(2), Reg::RDX);
    assert_eq!(masm.len(), 3);
}

#[test]
fn unit_variable_is_declared_without_code() {
    // let u = x; where `x` and `u` hold no value
    let ctxt = context();
    let mut src = FctSrc::new();
    src.localsize = 8;
    src.vars.push(var(0, BuiltinType::Unit, -4));
    src.vars.push(var(1, BuiltinType::Unit, -8));
    src.map_vars.insert(NodeId(20), VarId(1));
    src.map_idents.insert(NodeId(1), IdentType::Var(VarId(0)));
    src.map_tys.insert(NodeId(1), BuiltinType::Unit);
    let decl = Stmt::StmtLet(StmtLetType {
        id: NodeId(20),
        pos: pos(1, 1),
        name: Name(0),
        reassignable: false,
        data_type: None,
        expr: Some(ident(1)),
    });
    let (r, _) = compile(&ctxt, &src, &function(vec![decl]), 0);
    let f = r.unwrap();
    assert_eq!(insns(&f), vec![Insn::Prolog(16), Insn::Epilog(16)]);
}

#[test]
fn function_returning_the_first_element() {
    // fun f(a: IntArray) -> Int { return a.get(0); }
    let mut ctxt = context();
    ctxt.add_fct(fct(FctKind::Definition));
    ctxt.add_fct(fct(FctKind::Builtin(Intrinsic::IntArrayGet)));
    let mut src = FctSrc::new();
    src.localsize = 8;
    src.tempsize = 8;
    src.vars.push(var(0, BuiltinType::IntArray, -8));
    src.map_idents.insert(NodeId(1), IdentType::Var(VarId(0)));
    src.map_calls.insert(NodeId(3), CallType { callee: FctId(1), method: true });
    src.map_tys.insert(NodeId(1), BuiltinType::IntArray);
    src.storage.insert(NodeId(1), Store::Temp(8, BuiltinType::IntArray));
    let get = Box::new(Expr::ExprCall(ExprCallType {
        id: NodeId(3),
        pos: pos(1, 37),
        name: Name(0),
        object: Some(ident(1)),
        args: vec![lit_int(2, 0)],
    }));
    let ast = function(vec![ret(Some(get))]);
    let (r, _) = compile(&ctxt, &src, &ast, 1);
    let f = r.unwrap();
    assert_eq!(
        insns(&f),
        vec![
            Insn::Prolog(16),
            // the parameter goes to its slot
            Insn::StoreMem(MachineMode::Ptr, Mem::Local(-8), Reg::RDI),
            // the array is evaluated and kept
            Insn::LoadMem(MachineMode::Ptr, Reg::RAX, Mem::Local(-8)),
            Insn::StoreMem(MachineMode::Ptr, Mem::Local(-16), Reg::RAX),
            // the index
            Insn::LoadIntConst(MachineMode::Int32, Reg::R10, 0),
            Insn::LoadMem(MachineMode::Ptr, Reg::RAX, Mem::Local(-16)),
            // the index is checked against the length
            Insn::LoadMem(MachineMode::Int32, Reg::R11, Mem::Base(Reg::RAX, 8)),
            Insn::CmpReg(MachineMode::Int32, Reg::R10, Reg::R11),
            Insn::JumpIf(CondCode::UnsignedGreaterEq, Label(0)),
            // the element is the value of the function
            Insn::LoadMem(MachineMode::Int32, Reg::RAX, Mem::Index(Reg::RAX, Reg::R10, 4, 16)),
            Insn::Epilog(16),
            Insn::Epilog(16),
            Insn::Trap(Trap::INDEX_OUT_OF_BOUNDS),
        ]
    );
    assert_eq!(f.listing().label_pos(Label(0)), Some(12));
    assert_eq!(f.listing().lineno(f.listing().linenos_len() - 1), (13, 1));
}
