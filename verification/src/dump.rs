//! A listing of a syntax tree, one node to a line, children indented under
//! their parent.

use crate::ast::{
    Ast, BinOp, CmpOp, Elem, Expr, Function, Name, Stmt, StmtBlockType, Type, UnOp,
};
use crate::implck::name_text;
use crate::interner::Interner;
use crate::lexer::Position;
use vstd::prelude::*;
use vstd::string::StringExecFns;

verus! {

/// The text of a decimal digit.
pub open spec fn spec_digit(d: int) -> Seq<char> {
    if d == 0 {
        "0"@
    } else if d == 1 {
        "1"@
    } else if d == 2 {
        "2"@
    } else if d == 3 {
        "3"@
    } else if d == 4 {
        "4"@
    } else if d == 5 {
        "5"@
    } else if d == 6 {
        "6"@
    } else if d == 7 {
        "7"@
    } else if d == 8 {
        "8"@
    } else {
        "9"@
    }
}

/// The decimal numeral of `n`.
pub open spec fn spec_decimal(n: nat) -> Seq<char>
    decreases n,
{
    if n < 10 {
        spec_digit(n as int)
    } else {
        spec_decimal(n / 10) + spec_digit((n % 10) as int)
    }
}

fn digit(d: u64) -> (r: &'static str)
    requires
        d < 10,
    ensures
        r@ == spec_digit(d as int),
{
    if d == 0 {
        "0"
    } else if d == 1 {
        "1"
    } else if d == 2 {
        "2"
    } else if d == 3 {
        "3"
    } else if d == 4 {
        "4"
    } else if d == 5 {
        "5"
    } else if d == 6 {
        "6"
    } else if d == 7 {
        "7"
    } else if d == 8 {
        "8"
    } else {
        "9"
    }
}

/// The decimal numeral of `n`.
pub fn decimal(n: u64) -> (r: String)
    ensures
        r@ == spec_decimal(n as nat),
    decreases n,
{
    if n < 10 {
        digit(n).to_owned()
    } else {
        let mut s = decimal(n / 10);
        s.append(digit(n % 10));
        s
    }
}

/// A string literal as the source would spell it: in quotes, with what
/// cannot stand in a literal escaped.
pub uninterp spec fn spec_quoted(s: Seq<char>) -> Seq<char>;

/// `s` in quotes, escaped, as the standard library's `Debug` for `str`
/// writes it. The contract only names the result.
#[verifier::external_body]
fn quoted(s: &str) -> (r: String)
    ensures
        r@ == spec_quoted(s@),
{
    format!("{:?}", s)
}

/// A position as `line:column`.
pub open spec fn spec_pos_text(pos: Position) -> Seq<char> {
    spec_decimal(pos.line as nat) + ":"@ + spec_decimal(pos.column as nat)
}

fn pos_text(pos: Position) -> (r: String)
    ensures
        r@ == spec_pos_text(pos),
{
    let mut s = decimal(pos.line as u64);
    s.append(":");
    s.append(decimal(pos.column as u64).as_str());
    s
}

/// The name of a unary operator.
pub open spec fn spec_un_op(op: UnOp) -> Seq<char> {
    match op {
        UnOp::Plus => "Plus"@,
        UnOp::Neg => "Neg"@,
        UnOp::Not => "Not"@,
    }
}

fn un_op(op: UnOp) -> (r: &'static str)
    ensures
        r@ == spec_un_op(op),
{
    match op {
        UnOp::Plus => "Plus",
        UnOp::Neg => "Neg",
        UnOp::Not => "Not",
    }
}

/// The name of a binary operator.
pub open spec fn spec_bin_op(op: BinOp) -> Seq<char> {
    match op {
        BinOp::Add => "Add"@,
        BinOp::Sub => "Sub"@,
        BinOp::Mul => "Mul"@,
        BinOp::Div => "Div"@,
        BinOp::Mod => "Mod"@,
        BinOp::Cmp(CmpOp::Eq) => "Cmp(Eq)"@,
        BinOp::Cmp(CmpOp::Ne) => "Cmp(Ne)"@,
        BinOp::Cmp(CmpOp::Lt) => "Cmp(Lt)"@,
        BinOp::Cmp(CmpOp::Le) => "Cmp(Le)"@,
        BinOp::Cmp(CmpOp::Gt) => "Cmp(Gt)"@,
        BinOp::Cmp(CmpOp::Ge) => "Cmp(Ge)"@,
        BinOp::Cmp(CmpOp::Is) => "Cmp(Is)"@,
        BinOp::Cmp(CmpOp::IsNot) => "Cmp(IsNot)"@,
        BinOp::Or => "Or"@,
        BinOp::And => "And"@,
        BinOp::BitOr => "BitOr"@,
        BinOp::BitAnd => "BitAnd"@,
        BinOp::BitXor => "BitXor"@,
        BinOp::ShiftL => "ShiftL"@,
        BinOp::ShiftR => "ShiftR"@,
        BinOp::UnShiftR => "UnShiftR"@,
    }
}

fn bin_op(op: BinOp) -> (r: &'static str)
    ensures
        r@ == spec_bin_op(op),
{
    match op {
        BinOp::Add => "Add",
        BinOp::Sub => "Sub",
        BinOp::Mul => "Mul",
        BinOp::Div => "Div",
        BinOp::Mod => "Mod",
        BinOp::Cmp(CmpOp::Eq) => "Cmp(Eq)",
        BinOp::Cmp(CmpOp::Ne) => "Cmp(Ne)",
        BinOp::Cmp(CmpOp::Lt) => "Cmp(Lt)",
        BinOp::Cmp(CmpOp::Le) => "Cmp(Le)",
        BinOp::Cmp(CmpOp::Gt) => "Cmp(Gt)",
        BinOp::Cmp(CmpOp::Ge) => "Cmp(Ge)",
        BinOp::Cmp(CmpOp::Is) => "Cmp(Is)",
        BinOp::Cmp(CmpOp::IsNot) => "Cmp(IsNot)",
        BinOp::Or => "Or",
        BinOp::And => "And",
        BinOp::BitOr => "BitOr",
        BinOp::BitAnd => "BitAnd",
        BinOp::BitXor => "BitXor",
        BinOp::ShiftL => "ShiftL",
        BinOp::ShiftR => "ShiftR",
        BinOp::UnShiftR => "UnShiftR",
    }
}

/// `indent` levels of indentation, two blanks each.
pub open spec fn spec_margin(indent: nat) -> Seq<char>
    decreases indent,
{
    if indent == 0 {
        Seq::empty()
    } else {
        spec_margin((indent - 1) as nat) + "  "@
    }
}

/// A line: `text` behind `indent` levels of indentation.
pub open spec fn line(indent: nat, text: Seq<char>) -> Seq<char> {
    spec_margin(indent) + text
}

/// What is listed for a node, by its kind: the line of an expression that
/// has no operands.
pub open spec fn leaf_text(names: Seq<Seq<char>>, e: Expr) -> Seq<char> {
    match e {
        Expr::ExprLitInt(lit) => "lit int "@ + spec_decimal(lit.value as nat),
        Expr::ExprLitFloat(lit) => "lit float bits "@ + spec_decimal(lit.bits as nat),
        Expr::ExprLitStr(lit) => "lit string "@ + spec_quoted(lit.value@),
        Expr::ExprLitBool(lit) => if lit.value {
            "lit bool true"@
        } else {
            "lit bool false"@
        },
        Expr::ExprLitStruct(lit) => "lit struct "@ + name_text(names, lit.path),
        Expr::ExprIdent(ident) => "ident "@ + name_text(names, ident.name),
        Expr::ExprSelf(_) => "self"@,
        Expr::ExprSuper(_) => "super"@,
        Expr::ExprNil(_) => "nil"@,
        _ => Seq::empty(),
    }
}

/// The indentation one level below `indent`. The deepest indentation that
/// is listed is `MAX_INDENT`; what lies deeper is listed there.
pub open spec fn deeper(indent: nat) -> nat {
    if indent < MAX_INDENT {
        indent + 1
    } else {
        indent
    }
}

/// The listing of expression `e` at indentation `indent`. Operators list
/// their right operand above and their left operand below themselves.
pub open spec fn dump_expr(names: Seq<Seq<char>>, e: Expr, indent: nat) -> Seq<Seq<char>>
    decreases e, 1int, 0int,
{
    match e {
        Expr::ExprUn(un) => seq![line(indent, "unary "@ + spec_un_op(un.op))] + dump_expr(
            names,
            *un.opnd,
            deeper(indent),
        ),
        Expr::ExprBin(bin) => dump_expr(names, *bin.rhs, deeper(indent)) + seq![
            line(indent, "binary "@ + spec_bin_op(bin.op)),
        ] + dump_expr(names, *bin.lhs, deeper(indent)),
        Expr::ExprAssign(assign) => dump_expr(names, *assign.rhs, deeper(indent)) + seq![
            line(indent, "assign (=)"@),
        ] + dump_expr(names, *assign.lhs, deeper(indent)),
        Expr::ExprCall(call) => seq![line(indent, "call "@ + name_text(names, call.name))] + (
        match call.object {
            Some(object) => dump_expr(names, *object, deeper(indent)),
            None => Seq::empty(),
        }) + dump_exprs(names, call.args@, 0, deeper(indent)),
        Expr::ExprDelegation(d) => seq![line(indent, "delegation"@)] + dump_exprs(
            names,
            d.args@,
            0,
            deeper(indent),
        ),
        Expr::ExprField(f) => seq![line(indent, "field "@ + name_text(names, f.name))]
            + dump_expr(names, *f.object, deeper(indent)),
        Expr::ExprArray(a) => seq![line(indent, "array"@)] + dump_expr(names, *a.object, deeper(indent))
            + dump_expr(names, *a.index, deeper(indent)),
        Expr::ExprConv(c) => seq![
            line(
                indent,
                if c.is {
                    "is"@
                } else {
                    "as"@
                },
            ),
        ] + dump_expr(names, *c.object, deeper(indent)) + seq![dump_type(names, c.data_type, deeper(indent))],
        Expr::ExprTry(t) => seq![line(indent, "try"@)] + dump_expr(names, *t.expr, deeper(indent)) + (
        match t.mode {
            crate::ast::TryMode::Else(alt) => seq![line(indent, "else"@)] + dump_expr(
                names,
                *alt,
                deeper(indent),
            ),
            _ => Seq::empty(),
        }),
        _ => seq![line(indent, leaf_text(names, e))],
    }
}

/// The listings of the expressions `es` from expression `i` on.
pub open spec fn dump_exprs(names: Seq<Seq<char>>, es: Seq<Box<Expr>>, i: int, indent: nat) -> Seq<
    Seq<char>,
>
    decreases es, 0int, es.len() - i,
{
    if !(0 <= i < es.len()) {
        Seq::empty()
    } else {
        dump_expr(names, *es[i], indent) + dump_exprs(names, es, i + 1, indent)
    }
}

/// The line of a type.
pub open spec fn dump_type(names: Seq<Seq<char>>, ty: Type, indent: nat) -> Seq<char> {
    match ty {
        Type::TypeBasic(name) => line(indent, "type "@ + name_text(names, name)),
        Type::TypeUnit => line(indent, "type () / void"@),
    }
}

/// The listing of statement `stmt` at indentation `indent`.
pub open spec fn dump_stmt(names: Seq<Seq<char>>, stmt: Stmt, indent: nat) -> Seq<Seq<char>>
    decreases stmt, 1int, 0int,
{
    match stmt {
        Stmt::StmtBlock(block) => seq![
            line(
                indent,
                "block ("@ + spec_decimal(block.stmts@.len()) + " statements) @ "@ + spec_pos_text(
                    block.pos,
                ),
            ),
        ] + (if block.stmts@.len() == 0 {
            seq![line(deeper(indent), "no statements"@)]
        } else {
            dump_stmts(names, block, 0, deeper(indent))
        }) + seq![line(indent, "block end"@)],
        Stmt::StmtReturn(ret) => match ret.expr {
            Some(expr) => seq![line(indent, "return @ "@ + spec_pos_text(ret.pos))] + dump_expr(
                names,
                *expr,
                deeper(indent),
            ),
            None => seq![line(indent, "return void @ "@ + spec_pos_text(ret.pos))],
        },
        Stmt::StmtBreak(s) => seq![line(indent, "break @ "@ + spec_pos_text(s.pos))],
        // a `continue` is listed under the heading of `break`
        Stmt::StmtContinue(s) => seq![line(indent, "break @ "@ + spec_pos_text(s.pos))],
        Stmt::StmtExpr(s) => seq![line(indent, "expr stmt @ "@ + spec_pos_text(s.pos))]
            + dump_expr(names, *s.expr, deeper(indent)),
        Stmt::StmtIf(s) => seq![line(indent, "if @ "@ + spec_pos_text(s.pos))] + dump_expr(
            names,
            *s.cond,
            deeper(deeper(indent)),
        ) + seq![line(deeper(indent), "then"@)] + dump_stmt(names, *s.then_block, deeper(deeper(indent))) + (
        match s.else_block {
            Some(else_block) => seq![line(deeper(indent), "else"@)] + dump_stmt(
                names,
                *else_block,
                deeper(deeper(indent)),
            ),
            None => Seq::empty(),
        }),
        Stmt::StmtLet(s) => seq![
            line(indent, "let "@ + name_text(names, s.name) + " @ "@ + spec_pos_text(s.pos)),
        ] + (match s.expr {
            Some(expr) => dump_expr(names, *expr, deeper(indent)),
            None => Seq::empty(),
        }),
        Stmt::StmtWhile(s) => seq![line(indent, "while @ "@ + spec_pos_text(s.pos))] + dump_expr(
            names,
            *s.cond,
            deeper(deeper(indent)),
        ) + dump_stmt(names, *s.block, deeper(indent)),
        Stmt::StmtLoop(s) => seq![line(indent, "loop @ "@ + spec_pos_text(s.pos))] + dump_stmt(
            names,
            *s.block,
            deeper(indent),
        ),
    }
}

/// The listings of the statements of `block` from statement `i` on.
pub open spec fn dump_stmts(names: Seq<Seq<char>>, block: StmtBlockType, i: int, indent: nat) -> Seq<
    Seq<char>,
>
    decreases block, 0int, block.stmts@.len() - i,
{
    if !(0 <= i < block.stmts@.len()) {
        Seq::empty()
    } else {
        dump_stmt(names, *block.stmts@[i], indent) + dump_stmts(names, block, i + 1, indent)
    }
}

/// The listings of the parameters of `fct` from parameter `i` on.
pub open spec fn dump_params(names: Seq<Seq<char>>, fct: Function, i: int, indent: nat) -> Seq<
    Seq<char>,
>
    decreases fct.params@.len() - i,
{
    if !(0 <= i < fct.params@.len()) {
        Seq::empty()
    } else {
        let param = fct.params@[i];
        seq![
            line(
                indent,
                "param "@ + name_text(names, param.name) + " @ "@ + spec_pos_text(param.pos),
            ),
            dump_type(names, param.data_type, deeper(indent)),
        ] + dump_params(names, fct, i + 1, indent)
    }
}

/// The listing of function `fct`: its parameters, its return type and its
/// body.
pub open spec fn dump_fct(names: Seq<Seq<char>>, fct: Function, indent: nat) -> Seq<Seq<char>> {
    seq![line(indent, "fct "@ + name_text(names, fct.name) + " @ "@ + spec_pos_text(fct.pos))] + (
    if fct.params@.len() == 0 {
        seq![line(deeper(indent), "no params"@)]
    } else {
        dump_params(names, fct, 0, deeper(indent))
    }) + seq![
        line(indent, "fct "@ + name_text(names, fct.name) + " returns"@),
        dump_type(names, fct.return_type, deeper(indent)),
        line(indent, "fct "@ + name_text(names, fct.name) + " executes"@),
    ] + dump_stmt(names, *fct.block, deeper(indent))
}

/// The listings of the functions among `elems` from element `i` on.
pub open spec fn dump_elems(names: Seq<Seq<char>>, elems: Seq<Elem>, i: int, indent: nat) -> Seq<
    Seq<char>,
>
    decreases elems.len() - i,
{
    if !(0 <= i < elems.len()) {
        Seq::empty()
    } else {
        (match elems[i] {
            Elem::ElemFunction(fct) => dump_fct(names, fct, indent),
            Elem::ElemClass(_) => Seq::empty(),
        }) + dump_elems(names, elems, i + 1, indent)
    }
}

/// The listing of the program from file `i` on: every function, in the
/// order of the source.
pub open spec fn dump_files(names: Seq<Seq<char>>, ast: Ast, i: int, indent: nat) -> Seq<Seq<char>>
    decreases ast.files@.len() - i,
{
    if !(0 <= i < ast.files@.len()) {
        Seq::empty()
    } else {
        dump_elems(names, ast.files@[i].elements@, 0, indent) + dump_files(names, ast, i + 1, indent)
    }
}

/// The texts of lines.
pub open spec fn texts(lines: Seq<String>) -> Seq<Seq<char>> {
    lines.map_values(|s: String| s@)
}

/// The maker of listings of a program.
pub struct AstDumper<'a> {
    pub ast: &'a Ast,
    pub interner: &'a Interner,
    pub indent: u32,
    pub lines: Vec<String>,
}

/// Deepest indentation that is listed.
pub const MAX_INDENT: u32 = 0x7fff_ffff;

impl<'a> AstDumper<'a> {
    /// A maker of listings of `ast`, whose names are in `interner`.
    pub fn new(ast: &'a Ast, interner: &'a Interner) -> (d: AstDumper<'a>)
        ensures
            d.ast == ast,
            d.interner == interner,
            d.indent == 0,
            d.lines@.len() == 0,
    {
        AstDumper { ast: ast, interner: interner, indent: 0, lines: Vec::new() }
    }

    fn margin(&self) -> (r: String)
        ensures
            r@ == spec_margin(self.indent as nat),
    {
        let mut s = String::new();
        let mut i: u32 = 0;
        while i < self.indent
            invariant
                i <= self.indent,
                s@ == spec_margin(i as nat),
            decreases self.indent - i,
        {
            s.append("  ");
            i += 1;
        }
        s
    }

    /// Adds the line `text` at the current indentation.
    fn put(&mut self, text: String)
        ensures
            final(self).ast == old(self).ast,
            final(self).interner == old(self).interner,
            final(self).indent == old(self).indent,
            texts(final(self).lines@) == texts(old(self).lines@).push(
                line(old(self).indent as nat, text@),
            ),
    {
        let mut s = self.margin();
        s.append(text.as_str());
        let ghost t = s@;
        self.lines.push(s);
        assert(texts(self.lines@) =~= texts(old(self).lines@).push(t));
    }

    /// The text of `name`.
    fn str(&self, name: Name) -> (r: String)
        ensures
            r@ == name_text(self.interner@, name),
    {
        if name.0 < self.interner.len() {
            self.interner.str(name).to_owned()
        } else {
            "<unknown>".to_owned()
        }
    }
}

impl<'a> AstDumper<'a> {
    /// The dumper has listed `lines` at the indentation it stood at.
    pub open spec fn listed(&self, old: &AstDumper<'a>, lines: Seq<Seq<char>>) -> bool {
        &&& self.ast == old.ast
        &&& self.interner == old.interner
        &&& self.indent == old.indent
        &&& texts(self.lines@) == texts(old.lines@) + lines
    }

    /// Goes one level deeper; returns the indentation to come back to.
    fn enter(&mut self) -> (back: u32)
        ensures
            back == old(self).indent,
            final(self).ast == old(self).ast,
            final(self).interner == old(self).interner,
            final(self).lines == old(self).lines,
            final(self).indent == deeper(old(self).indent as nat),
    {
        let back = self.indent;
        if self.indent < MAX_INDENT {
            self.indent = self.indent + 1;
        }
        back
    }

    fn dump_type(&mut self, ty: &Type)
        ensures
            final(self).listed(
                old(self),
                seq![dump_type(old(self).interner@, *ty, old(self).indent as nat)],
            ),
    {
        match ty {
            Type::TypeBasic(name) => {
                let text = "type ".to_owned().concat(self.str(*name).as_str());
                self.put(text);
            },
            Type::TypeUnit => self.put("type () / void".to_owned()),
        }
        assert(texts(self.lines@) =~= texts(old(self).lines@) + seq![
            dump_type(old(self).interner@, *ty, old(self).indent as nat),
        ]);
    }

    /// Lists an expression that has no operands.
    fn dump_leaf(&mut self, expr: &Expr)
        requires
            !(*expr is ExprUn),
            !(*expr is ExprBin),
            !(*expr is ExprAssign),
            !(*expr is ExprCall),
            !(*expr is ExprDelegation),
            !(*expr is ExprField),
            !(*expr is ExprArray),
            !(*expr is ExprConv),
            !(*expr is ExprTry),
        ensures
            final(self).listed(
                old(self),
                seq![line(old(self).indent as nat, leaf_text(old(self).interner@, *expr))],
            ),
    {
        let text = match expr {
            Expr::ExprLitInt(lit) => "lit int ".to_owned().concat(decimal(lit.value).as_str()),
            Expr::ExprLitFloat(lit) => "lit float bits ".to_owned().concat(
                decimal(lit.bits).as_str(),
            ),
            Expr::ExprLitStr(lit) => "lit string ".to_owned().concat(
                quoted(lit.value.as_str()).as_str(),
            ),
            Expr::ExprLitBool(lit) => if lit.value {
                "lit bool true".to_owned()
            } else {
                "lit bool false".to_owned()
            },
            Expr::ExprLitStruct(lit) => "lit struct ".to_owned().concat(self.str(lit.path).as_str()),
            Expr::ExprIdent(ident) => "ident ".to_owned().concat(self.str(ident.name).as_str()),
            Expr::ExprSelf(_) => "self".to_owned(),
            Expr::ExprSuper(_) => "super".to_owned(),
            _ => "nil".to_owned(),
        };
        self.put(text);
        assert(texts(self.lines@) =~= texts(old(self).lines@) + seq![
            line(old(self).indent as nat, leaf_text(old(self).interner@, *expr)),
        ]);
    }

    /// Lists expression `expr`.
    fn dump_expr(&mut self, expr: &Expr)
        ensures
            final(self).listed(
                old(self),
                dump_expr(old(self).interner@, *expr, old(self).indent as nat),
            ),
        decreases expr, 1int, 0int,
    {
        let ghost before = texts(self.lines@);
        let ghost names = self.interner@;
        let ghost indent = self.indent as nat;
        match expr {
            Expr::ExprUn(un) => self.dump_expr_un(un),
            Expr::ExprBin(bin) => self.dump_expr_bin(bin),
            Expr::ExprAssign(assign) => self.dump_expr_assign(assign),
            Expr::ExprCall(call) => {
                let text = "call ".to_owned().concat(self.str(call.name).as_str());
                self.put(text);
                let back = self.enter();
                if let Some(object) = &call.object {
                    self.dump_expr(object);
                }
                self.dump_exprs(&call.args);
                self.indent = back;
                assert(texts(self.lines@) =~= before + dump_expr(names, *expr, indent));
            },
            Expr::ExprDelegation(d) => {
                self.put("delegation".to_owned());
                let back = self.enter();
                self.dump_exprs(&d.args);
                self.indent = back;
                assert(texts(self.lines@) =~= before + dump_expr(names, *expr, indent));
            },
            Expr::ExprField(f) => {
                let text = "field ".to_owned().concat(self.str(f.name).as_str());
                self.put(text);
                let back = self.enter();
                self.dump_expr(&f.object);
                self.indent = back;
                assert(texts(self.lines@) =~= before + dump_expr(names, *expr, indent));
            },
            Expr::ExprArray(a) => {
                self.put("array".to_owned());
                let back = self.enter();
                self.dump_expr(&a.object);
                self.dump_expr(&a.index);
                self.indent = back;
                assert(texts(self.lines@) =~= before + dump_expr(names, *expr, indent));
            },
            Expr::ExprConv(c) => {
                if c.is {
                    self.put("is".to_owned());
                } else {
                    self.put("as".to_owned());
                }
                let back = self.enter();
                self.dump_expr(&c.object);
                self.dump_type(&c.data_type);
                self.indent = back;
                assert(texts(self.lines@) =~= before + dump_expr(names, *expr, indent));
            },
            Expr::ExprTry(t) => {
                self.put("try".to_owned());
                let back = self.enter();
                self.dump_expr(&t.expr);
                self.indent = back;
                if let crate::ast::TryMode::Else(alt) = &t.mode {
                    self.put("else".to_owned());
                    let back = self.enter();
                    self.dump_expr(alt);
                    self.indent = back;
                }
                assert(texts(self.lines@) =~= before + dump_expr(names, *expr, indent));
            },
            _ => self.dump_leaf(expr),
        }
    }

    /// Lists the expressions `es`.
    fn dump_exprs(&mut self, es: &Vec<Box<Expr>>)
        ensures
            final(self).listed(
                old(self),
                dump_exprs(old(self).interner@, es@, 0, old(self).indent as nat),
            ),
        decreases es, 1int, 0int,
    {
        let mut i: usize = 0;
        while i < es.len()
            invariant
                i <= es.len(),
                self.ast == old(self).ast,
                self.interner == old(self).interner,
                self.indent == old(self).indent,
                texts(self.lines@) + dump_exprs(self.interner@, es@, i as int, self.indent as nat)
                    == texts(old(self).lines@) + dump_exprs(
                    old(self).interner@,
                    es@,
                    0,
                    old(self).indent as nat,
                ),
            decreases es.len() - i,
        {
            let ghost before = texts(self.lines@);
            assert(decreases_to!(es => es[i as int]));
            self.dump_expr(&es[i]);
            assert(before + dump_exprs(self.interner@, es@, i as int, self.indent as nat) =~= texts(
                self.lines@,
            ) + dump_exprs(self.interner@, es@, i + 1, self.indent as nat));
            i += 1;
        }
        assert(texts(self.lines@) + dump_exprs(
            self.interner@,
            es@,
            es@.len() as int,
            self.indent as nat,
        ) =~= texts(self.lines@));
    }

    fn dump_expr_un(&mut self, expr: &crate::ast::ExprUnType)
        ensures
            final(self).listed(
                old(self),
                dump_expr(old(self).interner@, Expr::ExprUn(*expr), old(self).indent as nat),
            ),
        decreases expr, 0int, 0int,
    {
        let ghost before = texts(self.lines@);
        self.put("unary ".to_owned().concat(un_op(expr.op)));
        let back = self.enter();
        self.dump_expr(&expr.opnd);
        self.indent = back;
        assert(texts(self.lines@) =~= before + dump_expr(
            self.interner@,
            Expr::ExprUn(*expr),
            self.indent as nat,
        ));
    }

    fn dump_expr_bin(&mut self, expr: &crate::ast::ExprBinType)
        ensures
            final(self).listed(
                old(self),
                dump_expr(old(self).interner@, Expr::ExprBin(*expr), old(self).indent as nat),
            ),
        decreases expr, 0int, 0int,
    {
        let ghost before = texts(self.lines@);
        let back = self.enter();
        self.dump_expr(&expr.rhs);
        self.indent = back;
        self.put("binary ".to_owned().concat(bin_op(expr.op)));
        let back = self.enter();
        self.dump_expr(&expr.lhs);
        self.indent = back;
        assert(texts(self.lines@) =~= before + dump_expr(
            self.interner@,
            Expr::ExprBin(*expr),
            self.indent as nat,
        ));
    }

    fn dump_expr_assign(&mut self, expr: &crate::ast::ExprAssignType)
        ensures
            final(self).listed(
                old(self),
                dump_expr(old(self).interner@, Expr::ExprAssign(*expr), old(self).indent as nat),
            ),
        decreases expr, 0int, 0int,
    {
        let ghost before = texts(self.lines@);
        let back = self.enter();
        self.dump_expr(&expr.rhs);
        self.indent = back;
        self.put("assign (=)".to_owned());
        let back = self.enter();
        self.dump_expr(&expr.lhs);
        self.indent = back;
        assert(texts(self.lines@) =~= before + dump_expr(
            self.interner@,
            Expr::ExprAssign(*expr),
            self.indent as nat,
        ));
    }
}

impl<'a> AstDumper<'a> {
    /// Lists statement `stmt`.
    fn dump_stmt(&mut self, stmt: &Stmt)
        ensures
            final(self).listed(
                old(self),
                dump_stmt(old(self).interner@, *stmt, old(self).indent as nat),
            ),
        decreases stmt, 1int, 0int,
    {
        let ghost before = texts(self.lines@);
        let ghost names = self.interner@;
        let ghost indent = self.indent as nat;
        match stmt {
            Stmt::StmtBlock(block) => self.dump_stmt_block(block),
            Stmt::StmtReturn(ret) => self.dump_stmt_return(ret),
            Stmt::StmtBreak(stmt) => self.dump_stmt_break(stmt),
            Stmt::StmtContinue(stmt) => self.dump_stmt_continue(stmt),
            Stmt::StmtExpr(expr) => self.dump_stmt_expr(expr),
            Stmt::StmtIf(stmt) => self.dump_stmt_if(stmt),
            Stmt::StmtLet(s) => {
                let text = "let ".to_owned().concat(self.str(s.name).as_str()).concat(" @ ").concat(
                    pos_text(s.pos).as_str(),
                );
                self.put(text);
                if let Some(expr) = &s.expr {
                    let back = self.enter();
                    self.dump_expr(expr);
                    self.indent = back;
                }
                assert(texts(self.lines@) =~= before + dump_stmt(names, *stmt, indent));
            },
            Stmt::StmtWhile(s) => {
                self.put("while @ ".to_owned().concat(pos_text(s.pos).as_str()));
                let back = self.enter();
                let inner = self.enter();
                self.dump_expr(&s.cond);
                self.indent = inner;
                self.dump_stmt(&s.block);
                self.indent = back;
                assert(texts(self.lines@) =~= before + dump_stmt(names, *stmt, indent));
            },
            Stmt::StmtLoop(s) => {
                self.put("loop @ ".to_owned().concat(pos_text(s.pos).as_str()));
                let back = self.enter();
                self.dump_stmt(&s.block);
                self.indent = back;
                assert(texts(self.lines@) =~= before + dump_stmt(names, *stmt, indent));
            },
        }
    }

    fn dump_stmt_if(&mut self, stmt: &crate::ast::StmtIfType)
        ensures
            final(self).listed(
                old(self),
                dump_stmt(old(self).interner@, Stmt::StmtIf(*stmt), old(self).indent as nat),
            ),
        decreases stmt, 0int, 0int,
    {
        let ghost before = texts(self.lines@);
        self.put("if @ ".to_owned().concat(pos_text(stmt.pos).as_str()));
        let back = self.enter();
        let inner = self.enter();
        self.dump_expr(&stmt.cond);
        self.indent = inner;
        self.put("then".to_owned());
        let inner = self.enter();
        self.dump_stmt(&stmt.then_block);
        self.indent = inner;
        if let Some(else_block) = &stmt.else_block {
            self.put("else".to_owned());
            let inner = self.enter();
            self.dump_stmt(else_block);
            self.indent = inner;
        }
        self.indent = back;
        assert(texts(self.lines@) =~= before + dump_stmt(
            self.interner@,
            Stmt::StmtIf(*stmt),
            self.indent as nat,
        ));
    }

    fn dump_stmt_expr(&mut self, stmt: &crate::ast::StmtExprType)
        ensures
            final(self).listed(
                old(self),
                dump_stmt(old(self).interner@, Stmt::StmtExpr(*stmt), old(self).indent as nat),
            ),
        decreases stmt, 0int, 0int,
    {
        let ghost before = texts(self.lines@);
        self.put("expr stmt @ ".to_owned().concat(pos_text(stmt.pos).as_str()));
        let back = self.enter();
        self.dump_expr(&stmt.expr);
        self.indent = back;
        assert(texts(self.lines@) =~= before + dump_stmt(
            self.interner@,
            Stmt::StmtExpr(*stmt),
            self.indent as nat,
        ));
    }

    fn dump_stmt_block(&mut self, block: &StmtBlockType)
        ensures
            final(self).listed(
                old(self),
                dump_stmt(old(self).interner@, Stmt::StmtBlock(*block), old(self).indent as nat),
            ),
        decreases block, 1int, 0int,
    {
        let ghost before = texts(self.lines@);
        let ghost names = self.interner@;
        let text = "block (".to_owned().concat(decimal(block.stmts.len() as u64).as_str()).concat(
            " statements) @ ",
        ).concat(pos_text(block.pos).as_str());
        self.put(text);
        let back = self.enter();
        if block.stmts.len() == 0 {
            self.put("no statements".to_owned());
        } else {
            let ghost inner = texts(self.lines@);
            let mut i: usize = 0;
            while i < block.stmts.len()
                invariant
                    i <= block.stmts.len(),
                    self.ast == old(self).ast,
                    self.interner == old(self).interner,
                    self.indent == deeper(old(self).indent as nat),
                    names == self.interner@,
                    texts(self.lines@) + dump_stmts(names, *block, i as int, self.indent as nat)
                        == inner + dump_stmts(names, *block, 0, self.indent as nat),
                decreases block.stmts.len() - i,
            {
                let ghost lines = texts(self.lines@);
                assert(decreases_to!(block.stmts => block.stmts[i as int]));
                self.dump_stmt(&block.stmts[i]);
                assert(lines + dump_stmts(names, *block, i as int, self.indent as nat) =~= texts(
                    self.lines@,
                ) + dump_stmts(names, *block, i + 1, self.indent as nat));
                i += 1;
            }
            assert(texts(self.lines@) + dump_stmts(
                names,
                *block,
                block.stmts@.len() as int,
                self.indent as nat,
            ) =~= texts(self.lines@));
        }
        self.indent = back;
        self.put("block end".to_owned());
        assert(texts(self.lines@) =~= before + dump_stmt(
            names,
            Stmt::StmtBlock(*block),
            self.indent as nat,
        ));
    }

    fn dump_stmt_return(&mut self, ret: &crate::ast::StmtReturnType)
        ensures
            final(self).listed(
                old(self),
                dump_stmt(old(self).interner@, Stmt::StmtReturn(*ret), old(self).indent as nat),
            ),
        decreases ret, 0int, 0int,
    {
        let ghost before = texts(self.lines@);
        if let Some(expr) = &ret.expr {
            self.put("return @ ".to_owned().concat(pos_text(ret.pos).as_str()));
            let back = self.enter();
            self.dump_expr(expr);
            self.indent = back;
        } else {
            self.put("return void @ ".to_owned().concat(pos_text(ret.pos).as_str()));
        }
        assert(texts(self.lines@) =~= before + dump_stmt(
            self.interner@,
            Stmt::StmtReturn(*ret),
            self.indent as nat,
        ));
    }

    fn dump_stmt_break(&mut self, stmt: &crate::ast::StmtBreakType)
        ensures
            final(self).listed(
                old(self),
                dump_stmt(old(self).interner@, Stmt::StmtBreak(*stmt), old(self).indent as nat),
            ),
    {
        self.put("break @ ".to_owned().concat(pos_text(stmt.pos).as_str()));
        assert(texts(self.lines@) =~= texts(old(self).lines@) + dump_stmt(
            self.interner@,
            Stmt::StmtBreak(*stmt),
            self.indent as nat,
        ));
    }

    fn dump_stmt_continue(&mut self, stmt: &crate::ast::StmtContinueType)
        ensures
            final(self).listed(
                old(self),
                dump_stmt(old(self).interner@, Stmt::StmtContinue(*stmt), old(self).indent as nat),
            ),
    {
        self.put("break @ ".to_owned().concat(pos_text(stmt.pos).as_str()));
        assert(texts(self.lines@) =~= texts(old(self).lines@) + dump_stmt(
            self.interner@,
            Stmt::StmtContinue(*stmt),
            self.indent as nat,
        ));
    }

    fn dump_fct(&mut self, fct: &Function)
        ensures
            final(self).listed(
                old(self),
                dump_fct(old(self).interner@, *fct, old(self).indent as nat),
            ),
    {
        let ghost before = texts(self.lines@);
        let ghost names = self.interner@;
        let name = self.str(fct.name);
        self.put("fct ".to_owned().concat(name.as_str()).concat(" @ ").concat(pos_text(fct.pos).as_str()));
        let back = self.enter();
        if fct.params.len() == 0 {
            self.put("no params".to_owned());
        } else {
            let ghost inner = texts(self.lines@);
            let mut i: usize = 0;
            while i < fct.params.len()
                invariant
                    i <= fct.params.len(),
                    self.ast == old(self).ast,
                    self.interner == old(self).interner,
                    self.indent == deeper(old(self).indent as nat),
                    names == self.interner@,
                    texts(self.lines@) + dump_params(names, *fct, i as int, self.indent as nat)
                        == inner + dump_params(names, *fct, 0, self.indent as nat),
                decreases fct.params.len() - i,
            {
                let ghost lines = texts(self.lines@);
                let param = &fct.params[i];
                let text = "param ".to_owned().concat(self.str(param.name).as_str()).concat(
                    " @ ",
                ).concat(pos_text(param.pos).as_str());
                self.put(text);
                let inner_back = self.enter();
                self.dump_type(&param.data_type);
                self.indent = inner_back;
                assert(lines + dump_params(names, *fct, i as int, self.indent as nat) =~= texts(
                    self.lines@,
                ) + dump_params(names, *fct, i + 1, self.indent as nat));
                i += 1;
            }
            assert(texts(self.lines@) + dump_params(
                names,
                *fct,
                fct.params@.len() as int,
                self.indent as nat,
            ) =~= texts(self.lines@));
        }
        self.indent = back;
        self.put("fct ".to_owned().concat(name.as_str()).concat(" returns"));
        let back = self.enter();
        self.dump_type(&fct.return_type);
        self.indent = back;
        self.put("fct ".to_owned().concat(name.as_str()).concat(" executes"));
        let back = self.enter();
        self.dump_stmt(&fct.block);
        self.indent = back;
        assert(texts(self.lines@) =~= before + dump_fct(names, *fct, self.indent as nat));
    }

    /// Lists every function of the program, in the order of the source; the
    /// lines are added to `lines`.
    pub fn dump(&mut self)
        ensures
            final(self).listed(
                old(self),
                dump_files(old(self).interner@, *old(self).ast, 0, old(self).indent as nat),
            ),
    {
        let ghost names = self.interner@;
        let mut i: usize = 0;
        while i < self.ast.files.len()
            invariant
                i <= self.ast.files.len(),
                self.ast == old(self).ast,
                self.interner == old(self).interner,
                self.indent == old(self).indent,
                names == self.interner@,
                texts(self.lines@) + dump_files(names, *self.ast, i as int, self.indent as nat)
                    == texts(old(self).lines@) + dump_files(names, *self.ast, 0, self.indent as nat),
            decreases self.ast.files.len() - i,
        {
            let ghost start = texts(self.lines@);
            let file = &self.ast.files[i];
            let mut j: usize = 0;
            while j < file.elements.len()
                invariant
                    j <= file.elements.len(),
                    i < self.ast.files.len(),
                    *file == self.ast.files@[i as int],
                    self.ast == old(self).ast,
                    self.interner == old(self).interner,
                    self.indent == old(self).indent,
                    names == self.interner@,
                    texts(self.lines@) + dump_elems(names, file.elements@, j as int, self.indent as nat)
                        == start + dump_elems(names, file.elements@, 0, self.indent as nat),
                decreases file.elements.len() - j,
            {
                let ghost lines = texts(self.lines@);
                match &file.elements[j] {
                    Elem::ElemFunction(fct) => self.dump_fct(fct),
                    Elem::ElemClass(_) => {},
                }
                assert(lines + dump_elems(names, file.elements@, j as int, self.indent as nat)
                    =~= texts(self.lines@) + dump_elems(
                    names,
                    file.elements@,
                    j + 1,
                    self.indent as nat,
                ));
                j += 1;
            }
            assert(texts(self.lines@) + dump_elems(
                names,
                file.elements@,
                file.elements@.len() as int,
                self.indent as nat,
            ) =~= texts(self.lines@));
            assert(start + dump_files(names, *self.ast, i as int, self.indent as nat) =~= texts(
                self.lines@,
            ) + dump_files(names, *self.ast, i + 1, self.indent as nat));
            i += 1;
        }
        assert(texts(self.lines@) + dump_files(
            names,
            *self.ast,
            self.ast.files@.len() as int,
            self.indent as nat,
        ) =~= texts(self.lines@));
    }
}

} // verus!
