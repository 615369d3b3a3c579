//! The syntax tree of a function body, as the parser delivers it. Every node
//! carries an id under which semantic analysis files what it finds out.

use crate::lexer::{FloatSuffix, IntSuffix, Position};
use vstd::prelude::*;

verus! {

/// Identity of a node of the tree.
#[derive(Clone, Copy, PartialEq, Eq, Structural, Debug)]
pub struct NodeId(pub usize);

/// An interned identifier.
#[derive(Clone, Copy, PartialEq, Eq, Structural, Debug)]
pub struct Name(pub usize);

#[derive(Clone, Copy, PartialEq, Eq, Structural, Debug)]
pub enum UnOp {
    Plus,
    Neg,
    Not,
}

#[derive(Clone, Copy, PartialEq, Eq, Structural, Debug)]
pub enum CmpOp {
    Eq,
    Ne,
    Lt,
    Le,
    Gt,
    Ge,
    Is,
    IsNot,
}

#[derive(Clone, Copy, PartialEq, Eq, Structural, Debug)]
pub enum BinOp {
    Add,
    Sub,
    Mul,
    Div,
    Mod,
    Cmp(CmpOp),
    Or,
    And,
    BitOr,
    BitAnd,
    BitXor,
    ShiftL,
    ShiftR,
    UnShiftR,
}

/// A type as written in the source.
#[derive(Clone, Copy, PartialEq, Eq, Structural, Debug)]
pub enum Type {
    TypeBasic(Name),
    TypeUnit,
}

/// How a `try` expression treats an exception of its operand.
#[derive(Debug)]
pub enum TryMode {
    /// The exception is passed on to the caller.
    Normal,
    /// The value of the alternative is taken in its place.
    Else(Box<Expr>),
    /// The exception becomes an optional value.
    Opt,
    /// The exception is a fault.
    Force,
}

#[derive(Debug)]
pub struct ExprUnType {
    pub id: NodeId,
    pub pos: Position,
    pub op: UnOp,
    pub opnd: Box<Expr>,
}

#[derive(Debug)]
pub struct ExprBinType {
    pub id: NodeId,
    pub pos: Position,
    pub op: BinOp,
    pub lhs: Box<Expr>,
    pub rhs: Box<Expr>,
}

#[derive(Debug)]
pub struct ExprLitIntType {
    pub id: NodeId,
    pub pos: Position,
    pub value: u64,
    pub suffix: IntSuffix,
}

/// A floating-point literal. `bits` is the bit pattern of the value in the
/// width that the suffix names; a single-precision pattern fills the low
/// half.
#[derive(Debug)]
pub struct ExprLitFloatType {
    pub id: NodeId,
    pub pos: Position,
    pub bits: u64,
    pub suffix: FloatSuffix,
}

#[derive(Debug)]
pub struct ExprLitStrType {
    pub id: NodeId,
    pub pos: Position,
    pub value: String,
}

#[derive(Debug)]
pub struct ExprLitBoolType {
    pub id: NodeId,
    pub pos: Position,
    pub value: bool,
}

#[derive(Debug)]
pub struct ExprLitStructType {
    pub id: NodeId,
    pub pos: Position,
    pub path: Name,
}

#[derive(Debug)]
pub struct ExprIdentType {
    pub id: NodeId,
    pub pos: Position,
    pub name: Name,
}

#[derive(Debug)]
pub struct ExprAssignType {
    pub id: NodeId,
    pub pos: Position,
    pub lhs: Box<Expr>,
    pub rhs: Box<Expr>,
}

#[derive(Debug)]
pub struct ExprCallType {
    pub id: NodeId,
    pub pos: Position,
    pub name: Name,
    pub object: Option<Box<Expr>>,
    pub args: Vec<Box<Expr>>,
}

#[derive(Debug)]
pub struct ExprDelegationType {
    pub id: NodeId,
    pub pos: Position,
    pub args: Vec<Box<Expr>>,
}

#[derive(Debug)]
pub struct ExprFieldType {
    pub id: NodeId,
    pub pos: Position,
    pub object: Box<Expr>,
    pub name: Name,
}

#[derive(Debug)]
pub struct ExprSelfType {
    pub id: NodeId,
    pub pos: Position,
}

#[derive(Debug)]
pub struct ExprSuperType {
    pub id: NodeId,
    pub pos: Position,
}

#[derive(Debug)]
pub struct ExprNilType {
    pub id: NodeId,
    pub pos: Position,
}

#[derive(Debug)]
pub struct ExprArrayType {
    pub id: NodeId,
    pub pos: Position,
    pub object: Box<Expr>,
    pub index: Box<Expr>,
}

/// A type test (`is`) or a checked cast (`as`).
#[derive(Debug)]
pub struct ExprConvType {
    pub id: NodeId,
    pub pos: Position,
    pub object: Box<Expr>,
    pub is: bool,
    pub data_type: Type,
}

#[derive(Debug)]
pub struct ExprTryType {
    pub id: NodeId,
    pub pos: Position,
    pub expr: Box<Expr>,
    pub mode: TryMode,
}

/// An expression.
#[derive(Debug)]
pub enum Expr {
    ExprUn(ExprUnType),
    ExprBin(ExprBinType),
    ExprLitInt(ExprLitIntType),
    ExprLitFloat(ExprLitFloatType),
    ExprLitStr(ExprLitStrType),
    ExprLitBool(ExprLitBoolType),
    ExprLitStruct(ExprLitStructType),
    ExprIdent(ExprIdentType),
    ExprCall(ExprCallType),
    ExprDelegation(ExprDelegationType),
    ExprAssign(ExprAssignType),
    ExprField(ExprFieldType),
    ExprSelf(ExprSelfType),
    ExprSuper(ExprSuperType),
    ExprNil(ExprNilType),
    ExprArray(ExprArrayType),
    ExprConv(ExprConvType),
    ExprTry(ExprTryType),
}

impl Expr {
    /// The node's id.
    pub open spec fn spec_id(&self) -> NodeId {
        match self {
            Expr::ExprUn(e) => e.id,
            Expr::ExprBin(e) => e.id,
            Expr::ExprLitInt(e) => e.id,
            Expr::ExprLitFloat(e) => e.id,
            Expr::ExprLitStr(e) => e.id,
            Expr::ExprLitBool(e) => e.id,
            Expr::ExprLitStruct(e) => e.id,
            Expr::ExprIdent(e) => e.id,
            Expr::ExprCall(e) => e.id,
            Expr::ExprDelegation(e) => e.id,
            Expr::ExprAssign(e) => e.id,
            Expr::ExprField(e) => e.id,
            Expr::ExprSelf(e) => e.id,
            Expr::ExprSuper(e) => e.id,
            Expr::ExprNil(e) => e.id,
            Expr::ExprArray(e) => e.id,
            Expr::ExprConv(e) => e.id,
            Expr::ExprTry(e) => e.id,
        }
    }

    #[verifier::when_used_as_spec(spec_id)]
    pub fn id(&self) -> (r: NodeId)
        ensures
            r == self.spec_id(),
    {
        match self {
            Expr::ExprUn(e) => e.id,
            Expr::ExprBin(e) => e.id,
            Expr::ExprLitInt(e) => e.id,
            Expr::ExprLitFloat(e) => e.id,
            Expr::ExprLitStr(e) => e.id,
            Expr::ExprLitBool(e) => e.id,
            Expr::ExprLitStruct(e) => e.id,
            Expr::ExprIdent(e) => e.id,
            Expr::ExprCall(e) => e.id,
            Expr::ExprDelegation(e) => e.id,
            Expr::ExprAssign(e) => e.id,
            Expr::ExprField(e) => e.id,
            Expr::ExprSelf(e) => e.id,
            Expr::ExprSuper(e) => e.id,
            Expr::ExprNil(e) => e.id,
            Expr::ExprArray(e) => e.id,
            Expr::ExprConv(e) => e.id,
            Expr::ExprTry(e) => e.id,
        }
    }

    /// Where the node stands in the source.
    pub open spec fn spec_pos(&self) -> Position {
        match self {
            Expr::ExprUn(e) => e.pos,
            Expr::ExprBin(e) => e.pos,
            Expr::ExprLitInt(e) => e.pos,
            Expr::ExprLitFloat(e) => e.pos,
            Expr::ExprLitStr(e) => e.pos,
            Expr::ExprLitBool(e) => e.pos,
            Expr::ExprLitStruct(e) => e.pos,
            Expr::ExprIdent(e) => e.pos,
            Expr::ExprCall(e) => e.pos,
            Expr::ExprDelegation(e) => e.pos,
            Expr::ExprAssign(e) => e.pos,
            Expr::ExprField(e) => e.pos,
            Expr::ExprSelf(e) => e.pos,
            Expr::ExprSuper(e) => e.pos,
            Expr::ExprNil(e) => e.pos,
            Expr::ExprArray(e) => e.pos,
            Expr::ExprConv(e) => e.pos,
            Expr::ExprTry(e) => e.pos,
        }
    }

    #[verifier::when_used_as_spec(spec_pos)]
    pub fn pos(&self) -> (r: Position)
        ensures
            r == self.spec_pos(),
    {
        match self {
            Expr::ExprUn(e) => e.pos,
            Expr::ExprBin(e) => e.pos,
            Expr::ExprLitInt(e) => e.pos,
            Expr::ExprLitFloat(e) => e.pos,
            Expr::ExprLitStr(e) => e.pos,
            Expr::ExprLitBool(e) => e.pos,
            Expr::ExprLitStruct(e) => e.pos,
            Expr::ExprIdent(e) => e.pos,
            Expr::ExprCall(e) => e.pos,
            Expr::ExprDelegation(e) => e.pos,
            Expr::ExprAssign(e) => e.pos,
            Expr::ExprField(e) => e.pos,
            Expr::ExprSelf(e) => e.pos,
            Expr::ExprSuper(e) => e.pos,
            Expr::ExprNil(e) => e.pos,
            Expr::ExprArray(e) => e.pos,
            Expr::ExprConv(e) => e.pos,
            Expr::ExprTry(e) => e.pos,
        }
    }

    /// Whether the node is an array element access.
    pub open spec fn spec_is_array(&self) -> bool {
        self is ExprArray
    }

    #[verifier::when_used_as_spec(spec_is_array)]
    pub fn is_array(&self) -> (r: bool)
        ensures
            r == self.spec_is_array(),
    {
        match self {
            Expr::ExprArray(_) => true,
            _ => false,
        }
    }

    /// The node as an array element access.
    pub fn to_array(&self) -> (r: Option<&ExprArrayType>)
        ensures
            match r {
                Some(a) => *self == Expr::ExprArray(*a),
                None => !(self is ExprArray),
            },
    {
        match self {
            Expr::ExprArray(a) => Some(a),
            _ => None,
        }
    }

    /// The node as a field access.
    pub fn to_field(&self) -> (r: Option<&ExprFieldType>)
        ensures
            match r {
                Some(f) => *self == Expr::ExprField(*f),
                None => !(self is ExprField),
            },
    {
        match self {
            Expr::ExprField(f) => Some(f),
            _ => None,
        }
    }
}

#[derive(Debug)]
pub struct StmtLetType {
    pub id: NodeId,
    pub pos: Position,
    pub name: Name,
    pub reassignable: bool,
    pub data_type: Option<Type>,
    pub expr: Option<Box<Expr>>,
}

#[derive(Debug)]
pub struct StmtWhileType {
    pub id: NodeId,
    pub pos: Position,
    pub cond: Box<Expr>,
    pub block: Box<Stmt>,
}

#[derive(Debug)]
pub struct StmtLoopType {
    pub id: NodeId,
    pub pos: Position,
    pub block: Box<Stmt>,
}

#[derive(Debug)]
pub struct StmtIfType {
    pub id: NodeId,
    pub pos: Position,
    pub cond: Box<Expr>,
    pub then_block: Box<Stmt>,
    pub else_block: Option<Box<Stmt>>,
}

#[derive(Debug)]
pub struct StmtExprType {
    pub id: NodeId,
    pub pos: Position,
    pub expr: Box<Expr>,
}

#[derive(Debug)]
pub struct StmtBlockType {
    pub id: NodeId,
    pub pos: Position,
    pub stmts: Vec<Box<Stmt>>,
}

#[derive(Debug)]
pub struct StmtBreakType {
    pub id: NodeId,
    pub pos: Position,
}

#[derive(Debug)]
pub struct StmtContinueType {
    pub id: NodeId,
    pub pos: Position,
}

#[derive(Debug)]
pub struct StmtReturnType {
    pub id: NodeId,
    pub pos: Position,
    pub expr: Option<Box<Expr>>,
}

/// A statement.
#[derive(Debug)]
pub enum Stmt {
    StmtLet(StmtLetType),
    StmtWhile(StmtWhileType),
    StmtLoop(StmtLoopType),
    StmtIf(StmtIfType),
    StmtExpr(StmtExprType),
    StmtBlock(StmtBlockType),
    StmtBreak(StmtBreakType),
    StmtContinue(StmtContinueType),
    StmtReturn(StmtReturnType),
}

/// A parameter of a function.
#[derive(Debug)]
pub struct Param {
    pub id: NodeId,
    pub name: Name,
    pub pos: Position,
    pub data_type: Type,
}

/// A function as written in the source.
#[derive(Debug)]
pub struct Function {
    pub id: NodeId,
    pub name: Name,
    pub pos: Position,
    pub params: Vec<Param>,
    pub return_type: Type,
    pub block: Box<Stmt>,
}

/// A class as written in the source.
#[derive(Debug)]
pub struct ClassDef {
    pub id: NodeId,
    pub name: Name,
    pub pos: Position,
    pub ctors: Vec<Function>,
    pub methods: Vec<Function>,
}

/// A top-level element of a source file.
#[derive(Debug)]
pub enum Elem {
    ElemFunction(Function),
    ElemClass(ClassDef),
}

/// A source file.
#[derive(Debug)]
pub struct File {
    pub elements: Vec<Elem>,
}

/// A program.
#[derive(Debug)]
pub struct Ast {
    pub files: Vec<File>,
}

/// The operands of a call, receiver first.
pub open spec fn call_operands(object: Option<Box<Expr>>, args: Seq<Box<Expr>>) -> Seq<Expr> {
    let rest = args.map_values(|a: Box<Expr>| *a);
    match object {
        Some(o) => seq![*o] + rest,
        None => rest,
    }
}

impl Expr {
    /// The sub-expressions that a call standing for this node takes as
    /// arguments, in argument order: the operands of an operator, receiver
    /// and arguments of a call, and array, index and value of an assignment
    /// to an array element.
    pub open spec fn operands(&self) -> Seq<Expr> {
        match self {
            Expr::ExprUn(e) => seq![*e.opnd],
            Expr::ExprBin(e) => seq![*e.lhs, *e.rhs],
            Expr::ExprCall(e) => call_operands(e.object, e.args@),
            Expr::ExprDelegation(e) => e.args@.map_values(|a: Box<Expr>| *a),
            Expr::ExprArray(e) => seq![*e.object, *e.index],
            Expr::ExprAssign(e) => match *e.lhs {
                Expr::ExprArray(a) => seq![*a.object, *a.index, *e.rhs],
                _ => seq![*e.lhs, *e.rhs],
            },
            _ => Seq::empty(),
        }
    }

    /// Operand `i` of this node.
    pub fn operand(&self, i: usize) -> (r: Option<&Expr>)
        ensures
            match r {
                Some(x) => i < self.operands().len() && *x == self.operands()[i as int]
                    && decreases_to!(*self => *x),
                None => i >= self.operands().len(),
            },
    {
        match self {
            Expr::ExprUn(e) => if i == 0 {
                Some(&e.opnd)
            } else {
                None
            },
            Expr::ExprBin(e) => if i == 0 {
                Some(&e.lhs)
            } else if i == 1 {
                Some(&e.rhs)
            } else {
                None
            },
            Expr::ExprCall(e) => {
                match &e.object {
                    Some(o) => if i == 0 {
                        Some(o)
                    } else if i - 1 < e.args.len() {
                        assert(decreases_to!(e.args => e.args[i - 1]));
                        Some(&e.args[i - 1])
                    } else {
                        None
                    },
                    None => if i < e.args.len() {
                        assert(decreases_to!(e.args => e.args[i as int]));
                        Some(&e.args[i])
                    } else {
                        None
                    },
                }
            },
            Expr::ExprDelegation(e) => if i < e.args.len() {
                assert(decreases_to!(e.args => e.args[i as int]));
                Some(&e.args[i])
            } else {
                None
            },
            Expr::ExprArray(e) => if i == 0 {
                Some(&e.object)
            } else if i == 1 {
                Some(&e.index)
            } else {
                None
            },
            Expr::ExprAssign(e) => match &*e.lhs {
                Expr::ExprArray(a) => if i == 0 {
                    Some(&a.object)
                } else if i == 1 {
                    Some(&a.index)
                } else if i == 2 {
                    Some(&e.rhs)
                } else {
                    None
                },
                _ => if i == 0 {
                    Some(&e.lhs)
                } else if i == 1 {
                    Some(&e.rhs)
                } else {
                    None
                },
            },
            _ => None,
        }
    }
}

/// Every operand of a node is a proper part of it.
pub proof fn lemma_operand_decreases(e: Expr, k: int)
    requires
        0 <= k < e.operands().len(),
    ensures
        decreases_to!(e => e.operands()[k]),
{
    match e {
        Expr::ExprUn(u) => {
            assert(decreases_to!(e => u.opnd));
        },
        Expr::ExprBin(b) => {
            assert(decreases_to!(e => b.lhs));
            assert(decreases_to!(e => b.rhs));
        },
        Expr::ExprCall(c) => {
            match c.object {
                Some(o) => {
                    assert(decreases_to!(e => o));
                    if k > 0 {
                        assert(decreases_to!(c.args => c.args[k - 1]));
                        assert(decreases_to!(e => c.args[k - 1]));
                    }
                },
                None => {
                    assert(decreases_to!(c.args => c.args[k]));
                    assert(decreases_to!(e => c.args[k]));
                },
            }
        },
        Expr::ExprDelegation(d) => {
            assert(decreases_to!(d.args => d.args[k]));
            assert(decreases_to!(e => d.args[k]));
        },
        Expr::ExprArray(a) => {
            assert(decreases_to!(e => a.object));
            assert(decreases_to!(e => a.index));
        },
        Expr::ExprAssign(a) => {
            assert(decreases_to!(e => a.lhs));
            assert(decreases_to!(e => a.rhs));
            match *a.lhs {
                Expr::ExprArray(x) => {
                    assert(decreases_to!(a.lhs => x.object));
                    assert(decreases_to!(a.lhs => x.index));
                },
                _ => {},
            }
        },
        _ => {},
    }
}

} // verus!
