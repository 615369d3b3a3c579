use dora::ast::{Ast, ClassDef, Elem, File, Function, Name, NodeId, Stmt, StmtBlockType, Type};
use dora::class::ClassId;
use dora::ctxt::{Args, Context, Entries, FctId, FctKind, FctSrc, Intrinsic, Sym};
use dora::interner::Interner;
use dora::ir::{Block, BlockId, Fct, Instr, Opnd, Var, VarId};
use dora::lexer::Position;
use dora::masm::Insn;
use dora::mem::{page_align, ProtType};
use dora::native::{ensure_native_stub, generate};
use dora::prelude::{add_ctor, first_function, init};
use dora::runtime::{CodeData, CodeMap, CodeSpace, NativeFcts, PermHeap, Runtime};
use dora::stub::{ensure_jit_or_stub_ptr, ensure_stub};
use dora::ty::{BuiltinType, MachineMode};
use dora::cpu::{Mem, Reg};
use dora::error::GenError;

fn entries() -> Entries {
    Entries {
        gc_alloc: 0x7000_1000,
        start_native_call: 0x7000_2000,
        finish_native_call: 0x7000_3000,
        str_len: 0x7000_4000,
        str_parse_int: 0x7000_5000,
    }
}

fn runtime() -> Runtime {
    Runtime::new(0x10_0000, 0x20_0000, 0x30_0000, 0x40_0000)
}

#[test]
fn lazy_compile_stub_is_made_once() {
    let mut rt = runtime();
    let first = ensure_stub(&mut rt, FctId(3));
    assert_eq!(first, Some(0x10_0000));
    assert_eq!(rt.code_map.get(0x10_0000), Some(CodeData::CompileStub));
    let top = rt.space.top;
    assert_eq!(ensure_stub(&mut rt, FctId(3)), first);
    assert_eq!(ensure_stub(&mut rt, FctId(3)), first);
    assert_eq!(rt.space.top, top);
    assert_eq!(rt.code_map.len(), 1);
    assert_eq!(rt.stubs.len(), 1);
    assert_eq!(rt.stubs[0].0, FctId(3));
    assert_eq!((rt.stubs[0].1.start, rt.stubs[0].1.end), (0x10_0000, 0x10_0008));
}

#[test]
fn uncompiled_function_is_called_at_the_stub_until_it_is_compiled() {
    let mut rt = runtime();
    let mut src = FctSrc::new();
    let a = ensure_jit_or_stub_ptr(&src, FctId(1), &mut rt);
    let top = rt.space.top;
    let b = ensure_jit_or_stub_ptr(&src, FctId(1), &mut rt);
    assert_eq!(a, Some(0x10_0000));
    assert_eq!(a, b);
    // the second call makes and registers nothing
    assert_eq!(rt.space.top, top);
    assert_eq!(rt.code_map.len(), 1);
    assert_eq!(rt.code_map.get(0x10_0000), Some(CodeData::CompileStub));
    // another function that is not compiled has a stub of its own
    let other = ensure_jit_or_stub_ptr(&FctSrc::new(), FctId(2), &mut rt);
    assert_eq!(other, Some(0x10_0008));
    assert_eq!(rt.code_map.len(), 2);
    assert_eq!(ensure_jit_or_stub_ptr(&src, FctId(1), &mut rt), a);
    assert_eq!(ensure_jit_or_stub_ptr(&FctSrc::new(), FctId(2), &mut rt), other);
    // once compiled, the function is called at its own entry
    let (masm, size) = generate(&entries(), 0x9000, BuiltinType::Unit, 0);
    src.jit_fct = Some(masm.jit(size, 0x5_0000));
    assert_eq!(ensure_jit_or_stub_ptr(&src, FctId(1), &mut rt), Some(0x5_0000));
    assert_eq!(ensure_jit_or_stub_ptr(&src, FctId(1), &mut rt), Some(0x5_0000));
}

#[test]
fn stub_needs_room() {
    let mut rt = Runtime::new(0x10_0000, 0x10_0000, 0, 0);
    assert_eq!(ensure_stub(&mut rt, FctId(0)), None);
    assert_eq!(rt.stubs.len(), 0);
    assert_eq!(rt.code_map.len(), 0);
}

#[test]
fn native_stub_saves_calls_and_restores() {
    let (masm, size) = generate(&entries(), 0x9000, BuiltinType::Int, 2);
    assert_eq!(size, 32);
    let code: Vec<Insn> = (0..masm.len()).map(|i| masm.insn(i)).collect();
    assert_eq!(
        code,
        vec![
            Insn::Prolog(32),
            Insn::StoreMem(MachineMode::Ptr, Mem::Base(Reg::RSP, 8), Reg::RDI),
            Insn::StoreMem(MachineMode::Ptr, Mem::Base(Reg::RSP, 16), Reg::RSI),
            Insn::LoadConstPool(Reg::RAX, 11),
            Insn::CallReg(Reg::RAX),
            Insn::LoadMem(MachineMode::Ptr, Reg::RDI, Mem::Base(Reg::RSP, 8)),
            Insn::LoadMem(MachineMode::Ptr, Reg::RSI, Mem::Base(Reg::RSP, 16)),
            Insn::LoadConstPool(Reg::RAX, 23),
            Insn::CallReg(Reg::RAX),
            Insn::StoreMem(MachineMode::Ptr, Mem::Base(Reg::RSP, 0), Reg::RAX),
            Insn::LoadConstPool(Reg::RAX, 34),
            Insn::CallReg(Reg::RAX),
            Insn::LoadMem(MachineMode::Ptr, Reg::RAX, Mem::Base(Reg::RSP, 0)),
            Insn::Epilog(32),
        ]
    );
    assert_eq!(masm.dseg().entry(1).value, dora::dseg::DSegValue::Ptr(0x9000));

    // without a result nothing is kept
    let (masm, size) = generate(&entries(), 0x9000, BuiltinType::Unit, 0);
    assert_eq!(size, 0);
    assert_eq!(masm.len(), 8);
}

#[test]
fn native_stub_is_made_once_for_each_address() {
    let mut rt = runtime();
    let a = ensure_native_stub(&mut rt, &entries(), FctId(4), 0x9000, BuiltinType::Int, 1);
    // the stub is entered behind its pool of three addresses; its twelve
    // instructions take 78 bytes
    assert_eq!(a, Ok(0x10_0018));
    let top = rt.space.top;
    assert_eq!(top, 0x10_0000 + 24 + 78);
    assert_eq!(ensure_native_stub(&mut rt, &entries(), FctId(4), 0x9000, BuiltinType::Int, 1), a);
    assert_eq!(rt.space.top, top);
    let b = ensure_native_stub(&mut rt, &entries(), FctId(5), 0x9100, BuiltinType::Unit, 0);
    assert_eq!(b, Ok(top + 24));
    assert_eq!(rt.space.top, top + 24 + 46);
    assert_eq!(rt.native_fcts.len(), 2);
    assert_eq!(rt.native_fcts.find_fct(0x9100), Some(top + 24));
    assert_eq!(rt.native_fcts.find_fct(0x9200), None);
    assert_eq!(rt.code_map.get(top + 1), Some(CodeData::NativeFct(FctId(5))));
    // more arguments than parameter registers, or fewer than none
    assert_eq!(
        ensure_native_stub(&mut rt, &entries(), FctId(6), 0x9300, BuiltinType::Unit, 7),
        Err(GenError::Unsupported)
    );
    assert_eq!(
        ensure_native_stub(&mut rt, &entries(), FctId(6), 0x9300, BuiltinType::Unit, -1),
        Err(GenError::Unsupported)
    );
    let mut full = Runtime::new(0, 3, 0, 0);
    assert_eq!(
        ensure_native_stub(&mut full, &entries(), FctId(6), 0x9300, BuiltinType::Unit, 0),
        Err(GenError::OutOfMemory)
    );
    assert_eq!(full.native_fcts.len(), 0);
}

#[test]
fn code_map_finds_the_range_of_an_address() {
    let mut map = CodeMap::new();
    map.insert(10, 20, CodeData::CompileStub);
    map.insert(20, 25, CodeData::Fct(FctId(3)));
    assert_eq!(map.get(9), None);
    assert_eq!(map.get(10), Some(CodeData::CompileStub));
    assert_eq!(map.get(19), Some(CodeData::CompileStub));
    assert_eq!(map.get(20), Some(CodeData::Fct(FctId(3))));
    assert_eq!(map.get(25), None);
    assert_eq!(map.len(), 2);
    assert_eq!(NativeFcts::new().len(), 0);
}

#[test]
fn code_space_hands_out_addresses_upwards() {
    let mut space = CodeSpace::new(100, 110);
    assert_eq!(space.take(4), Some(100));
    assert_eq!(space.take(6), Some(104));
    assert_eq!(space.take(1), None);
    assert_eq!(space.top, 110);
    assert_eq!(space.take(0), Some(110));
}

#[test]
fn permanent_heap_lays_strings_out_word_aligned() {
    let mut heap = PermHeap::new(0x1000, 0x1040);
    assert_eq!(heap.intern(b""), Some(0x1000));
    assert_eq!(heap.top, 0x1010);
    assert_eq!(heap.intern(b"abcdefgh"), Some(0x1010));
    assert_eq!(heap.top, 0x1028);
    assert_eq!(heap.intern(b"0123456789"), None);
    assert_eq!(heap.top, 0x1028);
    assert_eq!(heap.intern(b"01234567"), Some(0x1028));
    assert_eq!(heap.strs[1].bytes, b"abcdefgh".to_vec());
    assert_eq!(heap.strs.len(), 3);
}

#[test]
fn names_are_interned_once() {
    let mut names = Interner::new();
    let a = names.intern("foo");
    let b = names.intern("bar");
    assert_eq!((a, b), (Name(0), Name(1)));
    assert_eq!(names.intern("foo"), a);
    assert_eq!(names.len(), 2);
    assert_eq!(names.str(b), "bar");
}

fn function(name: usize) -> Function {
    Function {
        id: NodeId(name),
        name: Name(name),
        pos: Position::new(1, 1),
        params: Vec::new(),
        return_type: Type::TypeUnit,
        block: Box::new(Stmt::StmtBlock(StmtBlockType { id: NodeId(0), pos: Position::new(1, 1), stmts: Vec::new() })),
    }
}

fn class_def(methods: Vec<Function>, ctors: Vec<Function>) -> Elem {
    Elem::ElemClass(ClassDef { id: NodeId(0), name: Name(0), pos: Position::new(1, 1), ctors, methods })
}

#[test]
fn first_function_is_found_in_source_order() {
    let none = Ast { files: vec![File { elements: vec![class_def(vec![], vec![])] }, File { elements: vec![] }] };
    assert!(first_function(&none).is_none());
    let ast = Ast {
        files: vec![
            File { elements: vec![class_def(vec![], vec![])] },
            File { elements: vec![class_def(vec![], vec![function(7), function(8)]), Elem::ElemFunction(function(9))] },
        ],
    };
    assert_eq!(first_function(&ast).map(|f| f.name), Some(Name(7)));
    let ast = Ast { files: vec![File { elements: vec![class_def(vec![function(5)], vec![function(6)])] }] };
    assert_eq!(first_function(&ast).map(|f| f.name), Some(Name(5)));
}

#[test]
fn init_registers_the_builtin_classes() {
    let ast = Ast { files: vec![File { elements: vec![Elem::ElemFunction(function(1))] }] };
    let mut ctxt = Context::new(Args { flag_omit_bounds_check: false }, entries());
    assert!(init(&mut ctxt, &ast));
    assert_eq!(ctxt.classes.len(), 2);
    assert_eq!(ctxt.primitive_classes.str_class, ClassId(0));
    assert_eq!(ctxt.primitive_classes.int_array, ClassId(1));
    assert_eq!(ctxt.classes[0].ty, BuiltinType::Str);
    assert_eq!(ctxt.classes[1].ty, BuiltinType::IntArray);
    assert_eq!(ctxt.classes[0].methods, vec![FctId(0), FctId(1)]);
    assert_eq!(ctxt.classes[1].methods, vec![FctId(2), FctId(3), FctId(4)]);
    assert_eq!(ctxt.interner.str(ctxt.classes[0].name), "Str");
    assert_eq!(ctxt.interner.str(ctxt.classes[1].name), "IntArray");
    assert_eq!(ctxt.interner.str(ctxt.fcts[1].name), "parseInt");
    assert_eq!(ctxt.interner.str(ctxt.fcts[4].name), "set");
    // `len` is one name for both classes
    assert_eq!(ctxt.fcts[0].name, ctxt.fcts[2].name);
    assert!(matches!(ctxt.fcts[0].kind, FctKind::Native(0x7000_4000)));
    assert!(matches!(ctxt.fcts[1].kind, FctKind::Native(0x7000_5000)));
    assert!(matches!(ctxt.fcts[3].kind, FctKind::Builtin(Intrinsic::IntArrayGet)));
    assert_eq!(ctxt.fcts[4].params_types, vec![BuiltinType::Int, BuiltinType::Int]);
    assert_eq!(ctxt.fcts[4].return_type, BuiltinType::Unit);
    assert_eq!(ctxt.fcts[4].owner_class, Some(ClassId(1)));
    assert_eq!(ctxt.fcts[3].id, FctId(3));
    assert_eq!(ctxt.sym_get(ctxt.classes[1].name), Some(Sym::SymClass(ClassId(1))));
    assert_eq!(ctxt.sym_get(ctxt.fcts[4].name), None);

    let ctor = add_ctor(&mut ctxt, ClassId(1), Name(3), vec![BuiltinType::Int], 0x7000_9000);
    assert_eq!(ctor, FctId(5));
    assert_eq!(ctxt.fcts[5].ctor, Some(dora::ctxt::CtorType::Primary));
    assert_eq!(ctxt.fcts[5].return_type, BuiltinType::Class(ClassId(1)));
    assert!(matches!(ctxt.fcts[5].kind, FctKind::Native(0x7000_9000)));

    // a program that defines `Str` itself, or has no function
    let mut again = ctxt;
    assert!(!init(&mut again, &ast));
    let mut ctxt = Context::new(Args { flag_omit_bounds_check: false }, entries());
    assert!(!init(&mut ctxt, &Ast { files: vec![] }));
    assert_eq!(ctxt.classes.len(), 0);
}

#[test]
fn blocks_are_found_under_their_ids() {
    let mut f = Fct::new();
    assert_eq!(f.start_id, BlockId(0));
    let a = f.add_block();
    let b = f.add_block();
    assert_eq!((a, b), (BlockId(0), BlockId(1)));
    f.block_mut(a).add_successor(b);
    f.block_mut(b).add_predecessor(a);
    f.block_mut(b).add_instr(Instr::InstrRet(Some(Opnd::OpndInt(3))));
    f.block_mut(a).add_instr(Instr::InstrGoto(b));
    assert_eq!(f.block(a).successors, vec![b]);
    assert_eq!(f.block(b).predecessors, vec![a]);
    assert_eq!(f.block(b).id, b);
    assert_eq!(f.block(b).instructions.len(), 1);
    assert!(matches!(f.block(a).instructions[0], Instr::InstrGoto(BlockId(1))));
    assert_eq!(Block::new(BlockId(9)).id, BlockId(9));
    let v = Var { id: VarId(2), name: "x".to_string() };
    assert_eq!(v.id, VarId(2));
    assert_eq!(Opnd::OpndVar(VarId(2), 1), Opnd::OpndVar(VarId(2), 1));
    assert!(Opnd::OpndReg(1) != Opnd::OpndBool(true));
}

#[test]
fn memory_is_mapped_in_whole_pages() {
    assert_eq!(page_align(0, 4096), Some(0));
    assert_eq!(page_align(1, 4096), Some(4096));
    assert_eq!(page_align(4096, 4096), Some(4096));
    assert_eq!(page_align(4097, 4096), Some(8192));
    assert_eq!(page_align(5, 0), None);
    assert_eq!(page_align(usize::MAX, 4096), None);
    assert!(ProtType::Executable != ProtType::NonExecutable);
}
