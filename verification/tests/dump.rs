use dora::ast::{
    Ast, BinOp, ClassDef, CmpOp, Elem, Expr, ExprAssignType, ExprBinType, ExprCallType,
    ExprIdentType, ExprLitBoolType, ExprLitIntType, ExprLitStrType, ExprUnType, File, Function,
    Name, NodeId, Param, Stmt, StmtBlockType, StmtBreakType, StmtContinueType, StmtExprType,
    StmtIfType, StmtReturnType, Type, UnOp,
};
use dora::dump::{decimal, AstDumper};
use dora::interner::Interner;
use dora::lexer::{IntSuffix, Position};
use dora::vtable::VTable;

fn pos(line: u32, column: u32) -> Position {
    Position::new(line, column)
}

fn block(line: u32, stmts: Vec<Stmt>) -> Stmt {
    Stmt::StmtBlock(StmtBlockType { id: NodeId(0), pos: pos(line, 1), stmts: stmts.into_iter().map(Box::new).collect() })
}

fn lit_int(value: u64) -> Box<Expr> {
    Box::new(Expr::ExprLitInt(ExprLitIntType { id: NodeId(0), pos: pos(1, 1), value, suffix: IntSuffix::Int }))
}

fn ident(name: Name) -> Box<Expr> {
    Box::new(Expr::ExprIdent(ExprIdentType { id: NodeId(0), pos: pos(1, 1), name }))
}

fn listing(ast: &Ast, names: &Interner) -> Vec<String> {
    let mut dumper = AstDumper::new(ast, names);
    dumper.dump();
    dumper.lines
}

#[test]
fn numbers_are_written_in_decimal() {
    assert_eq!(decimal(0), "0");
    assert_eq!(decimal(7), "7");
    assert_eq!(decimal(10), "10");
    assert_eq!(decimal(4096), "4096");
    assert_eq!(decimal(u64::MAX), "18446744073709551615");
}

#[test]
fn function_is_listed_with_params_type_and_body() {
    let mut names = Interner::new();
    let f = names.intern("f");
    let a = names.intern("a");
    let int = names.intern("int");
    let sum = Expr::ExprBin(ExprBinType { id: NodeId(0), pos: pos(2, 10), op: BinOp::Add, lhs: ident(a), rhs: lit_int(2) });
    let ret = Stmt::StmtReturn(StmtReturnType { id: NodeId(0), pos: pos(2, 3), expr: Some(Box::new(sum)) });
    let fct = Function {
        id: NodeId(0),
        name: f,
        pos: pos(1, 1),
        params: vec![Param { id: NodeId(0), name: a, pos: pos(1, 7), data_type: Type::TypeBasic(int) }],
        return_type: Type::TypeBasic(int),
        block: Box::new(block(1, vec![ret])),
    };
    let ast = Ast { files: vec![File { elements: vec![Elem::ElemFunction(fct)] }] };
    assert_eq!(
        listing(&ast, &names),
        vec![
            "fct f @ 1:1",
            "  param a @ 1:7",
            "    type int",
            "fct f returns",
            "  type int",
            "fct f executes",
            "  block (1 statements) @ 1:1",
            "    return @ 2:3",
            // the right operand above the operator, the left one below
            "        lit int 2",
            "      binary Add",
            "        ident a",
            "  block end",
        ]
    );
}

#[test]
fn if_lists_each_branch_under_its_own_heading() {
    let mut names = Interner::new();
    let f = names.intern("f");
    let x = names.intern("x");
    let cond = Box::new(Expr::ExprLitBool(ExprLitBoolType { id: NodeId(0), pos: pos(1, 1), value: true }));
    let neg = Expr::ExprUn(ExprUnType { id: NodeId(0), pos: pos(1, 1), op: UnOp::Neg, opnd: lit_int(1) });
    let then_block = Stmt::StmtExpr(StmtExprType { id: NodeId(0), pos: pos(3, 5), expr: Box::new(neg) });
    let assign = Expr::ExprAssign(ExprAssignType { id: NodeId(0), pos: pos(1, 1), lhs: ident(x), rhs: lit_int(3) });
    let else_block = Stmt::StmtExpr(StmtExprType { id: NodeId(0), pos: pos(5, 5), expr: Box::new(assign) });
    let stmt = Stmt::StmtIf(StmtIfType {
        id: NodeId(0),
        pos: pos(2, 3),
        cond,
        then_block: Box::new(then_block),
        else_block: Some(Box::new(else_block)),
    });
    let brk = Stmt::StmtBreak(StmtBreakType { id: NodeId(0), pos: pos(6, 3) });
    let cont = Stmt::StmtContinue(StmtContinueType { id: NodeId(0), pos: pos(7, 3) });
    let fct = Function {
        id: NodeId(0),
        name: f,
        pos: pos(1, 1),
        params: Vec::new(),
        return_type: Type::TypeUnit,
        block: Box::new(block(1, vec![stmt, brk, cont, block(8, vec![])])),
    };
    let ast = Ast {
        files: vec![File {
            elements: vec![
                Elem::ElemClass(ClassDef { id: NodeId(0), name: x, pos: pos(1, 1), ctors: Vec::new(), methods: Vec::new() }),
                Elem::ElemFunction(fct),
            ],
        }],
    };
    assert_eq!(
        listing(&ast, &names),
        vec![
            "fct f @ 1:1",
            "  no params",
            "fct f returns",
            "  type () / void",
            "fct f executes",
            "  block (4 statements) @ 1:1",
            "    if @ 2:3",
            "        lit bool true",
            "      then",
            "        expr stmt @ 3:5",
            "          unary Neg",
            "            lit int 1",
            // the else branch lists the else block
            "      else",
            "        expr stmt @ 5:5",
            "            lit int 3",
            "          assign (=)",
            "            ident x",
            "    break @ 6:3",
            "    break @ 7:3",
            "    block (0 statements) @ 8:1",
            "      no statements",
            "    block end",
            "  block end",
        ]
    );
}

#[test]
fn string_literal_is_listed_quoted_and_escaped() {
    let mut names = Interner::new();
    let f = names.intern("f");
    let g = names.intern("g");
    let lit = Box::new(Expr::ExprLitStr(ExprLitStrType { id: NodeId(0), pos: pos(1, 1), value: "a\"b\n".to_string() }));
    let is_not = Box::new(Expr::ExprBin(ExprBinType { id: NodeId(0), pos: pos(1, 1), op: BinOp::Cmp(CmpOp::IsNot), lhs: lit_int(1), rhs: lit_int(2) }));
    let call = Expr::ExprCall(ExprCallType { id: NodeId(0), pos: pos(1, 1), name: g, object: Some(ident(f)), args: vec![lit, is_not] });
    let stmt = Stmt::StmtExpr(StmtExprType { id: NodeId(0), pos: pos(2, 1), expr: Box::new(call) });
    let fct = Function { id: NodeId(0), name: Name(9), pos: pos(1, 1), params: Vec::new(), return_type: Type::TypeUnit, block: Box::new(stmt) };
    let ast = Ast { files: vec![File { elements: vec![Elem::ElemFunction(fct)] }] };
    assert_eq!(
        listing(&ast, &names),
        vec![
            // a name that the table does not hold
            "fct <unknown> @ 1:1",
            "  no params",
            "fct <unknown> returns",
            "  type () / void",
            "fct <unknown> executes",
            "  expr stmt @ 2:1",
            "    call g",
            "      ident f",
            "      lit string \"a\\\"b\\n\"",
            "        lit int 2",
            "      binary Cmp(IsNot)",
            "        lit int 1",
        ]
    );
}

fn vtable(ptr: u64, ancestors: &[u64]) -> VTable {
    // `ancestors` are the tables of the proper ancestors, root first
    let mut chain = ancestors.to_vec();
    chain.push(ptr);
    let mut display = vec![0; 6];
    let mut overflow = Vec::new();
    for (depth, &t) in chain.iter().enumerate() {
        if depth < 6 {
            display[depth] = t;
        } else {
            overflow.push(t);
        }
    }
    VTable {
        ptr,
        subtype_depth: ancestors.len() as i32,
        subtype_display: display,
        subtype_overflow_ptr: ptr + 0x1000,
        subtype_overflow: overflow,
        table: Vec::new(),
    }
}

#[test]
fn display_tells_the_subtypes() {
    // class A; class B: A
    let a = vtable(0x100, &[]);
    let b = vtable(0x200, &[0x100]);
    let c = vtable(0x300, &[]);
    assert!(b.is_subtype_of(&b));
    assert!(b.is_subtype_of(&a));
    assert!(!a.is_subtype_of(&b));
    assert!(a.is_subtype_of(&a));
    assert!(!c.is_subtype_of(&a));
    assert!(!b.is_subtype_of(&c));
}

#[test]
fn overflow_list_tells_the_deep_subtypes() {
    let chain: Vec<u64> = (1..=9).map(|i| i * 0x100).collect();
    let deep = vtable(0xa00, &chain);
    assert_eq!(deep.subtype_depth, 9);
    assert_eq!(deep.subtype_overflow, vec![0x700, 0x800, 0x900, 0xa00]);
    let at7 = vtable(0x800, &chain[..7]);
    let at6 = vtable(0x700, &chain[..6]);
    let at2 = vtable(0x300, &chain[..2]);
    let other7 = vtable(0xf00, &chain[..7]);
    assert!(deep.is_subtype_of(&at7));
    assert!(deep.is_subtype_of(&at6));
    assert!(deep.is_subtype_of(&at2));
    assert!(deep.is_subtype_of(&deep));
    assert!(!deep.is_subtype_of(&other7));
    // a class less deep than the class tested for is no subtype of it
    assert!(!at6.is_subtype_of(&at7));
    assert!(!at2.is_subtype_of(&deep));
    assert!(at7.is_subtype_of(&at6));
}
