//! Frame bookkeeping shared by the statement and expression generators.

use crate::ast::{
    Expr, Function, Stmt, StmtBlockType, StmtIfType, StmtLetType, StmtLoopType, StmtWhileType,
};
use crate::cpu::{Mem, FREG_RESULT, REG_PARAMS, REG_RESULT};
use crate::ctxt::{Context, Fct, FctId, FctSrc, Var, VarId};
use crate::emit::var_store;
use crate::error::GenError;
use crate::expr::{ExprGen, ExprStore};
use crate::fct::{GcPoint, JitFct};
use crate::flow;
use crate::image::place;
use crate::flow::{FctEnv, StmtResult, StmtState};
use crate::lowering::GenState;
use crate::masm::{lemma_finish_keeps_covered, lemma_resolved_closed, Label, MacroAssembler};
use crate::runtime::{CodeData, Runtime};
use crate::ty::{BuiltinType, MachineMode};
use vstd::prelude::*;

verus! {

/// Condition on which a branch is taken or a flag is materialised.
#[derive(Clone, Copy, PartialEq, Eq, Structural, Debug)]
pub enum CondCode {
    Zero,
    NonZero,
    Equal,
    NotEqual,
    Greater,
    GreaterEq,
    Less,
    LessEq,
    UnsignedGreater,
    UnsignedGreaterEq,
    UnsignedLess,
    UnsignedLessEq,
}

/// The frame slots that hold a temporary of reference type right now.
#[derive(Debug)]
pub struct TempOffsets {
    offsets: Vec<i32>,
}

impl View for TempOffsets {
    type V = Set<i32>;

    closed spec fn view(&self) -> Set<i32> {
        self.offsets@.to_set()
    }
}

impl TempOffsets {
    /// The invariant: no slot is listed twice.
    pub closed spec fn wf(&self) -> bool {
        self.offsets@.no_duplicates()
    }

    /// No slot.
    pub fn new() -> (t: TempOffsets)
        ensures
            t@ == Set::<i32>::empty(),
            t.wf(),
    {
        let t = TempOffsets { offsets: Vec::new() };
        assert(t.offsets@.to_set() =~= Set::<i32>::empty());
        t
    }

    /// Whether no slot holds a reference.
    pub fn is_empty(&self) -> (r: bool)
        ensures
            r == (self@ == Set::<i32>::empty()),
    {
        proof {
            if self.offsets@.len() > 0 {
                assert(self.offsets@.to_set().contains(self.offsets@[0]));
            } else {
                assert(self.offsets@.to_set() =~= Set::<i32>::empty());
            }
        }
        self.offsets.len() == 0
    }

    /// Whether the slot at `offset` holds a reference.
    pub fn contains(&self, offset: i32) -> (r: bool)
        ensures
            r == self@.contains(offset),
    {
        let mut i: usize = 0;
        while i < self.offsets.len()
            invariant
                i <= self.offsets.len(),
                forall|k: int| 0 <= k < i ==> self.offsets@[k] != offset,
            decreases self.offsets.len() - i,
        {
            if self.offsets[i] == offset {
                return true;
            }
            i += 1;
        }
        false
    }

    /// The slot at `offset`, free so far, now holds a reference.
    pub fn insert(&mut self, offset: i32)
        requires
            old(self).wf(),
            !old(self)@.contains(offset),
        ensures
            final(self).wf(),
            final(self)@ == old(self)@.insert(offset),
    {
        self.offsets.push(offset);
        proof {
            old(self).offsets@.lemma_push_to_set_commute(offset);
            assert forall|i: int, j: int|
                0 <= i < self.offsets@.len() && 0 <= j < self.offsets@.len() && i
                    != j implies self.offsets@[i] != self.offsets@[j] by {
                if i == old(self).offsets@.len() {
                    assert(old(self).offsets@.to_set().contains(old(self).offsets@[j]));
                } else if j == old(self).offsets@.len() {
                    assert(old(self).offsets@.to_set().contains(old(self).offsets@[i]));
                }
            }
        }
    }

    /// The slot at `offset`, which held a reference, is free again.
    pub fn remove(&mut self, offset: i32)
        requires
            old(self).wf(),
            old(self)@.contains(offset),
        ensures
            final(self).wf(),
            final(self)@ == old(self)@.remove(offset),
    {
        let mut i: usize = 0;
        while i < self.offsets.len()
            invariant
                i <= self.offsets.len(),
                old(self).wf(),
                self.offsets@ == old(self).offsets@,
                forall|k: int| 0 <= k < i ==> self.offsets@[k] != offset,
            decreases self.offsets.len() - i,
        {
            if self.offsets[i] == offset {
                self.offsets.remove(i);
                proof {
                    let before = old(self).offsets@;
                    let after = self.offsets@;
                    assert forall|a: int, b: int|
                        0 <= a < after.len() && 0 <= b < after.len() && a != b implies after[a]
                        != after[b] by {
                        let a2 = if a < i { a } else { a + 1 };
                        let b2 = if b < i { b } else { b + 1 };
                        assert(after[a] == before[a2] && after[b] == before[b2]);
                    }
                    assert forall|x: i32| after.to_set().contains(x) == before.to_set().remove(
                        offset,
                    ).contains(x) by {
                        if after.to_set().contains(x) {
                            let a = choose|a: int| 0 <= a < after.len() && after[a] == x;
                            let a2 = if a < i { a } else { a + 1 };
                            assert(before[a2] == x);
                            assert(a2 != i);
                        }
                        if before.to_set().remove(offset).contains(x) {
                            let b = choose|b: int| 0 <= b < before.len() && before[b] == x;
                            let b2 = if b < i { b } else { b - 1 };
                            assert(after[b2] == x);
                        }
                    }
                    assert(after.to_set() =~= before.to_set().remove(offset));
                }
                return ;
            }
            i += 1;
        }
        proof {
            let k = choose|k: int| 0 <= k < self.offsets@.len() && self.offsets@[k] == offset;
            assert(self.offsets@[k] != offset);
        }
    }
}

/// A stack of scopes as a value: the slots listed, scope by scope,
/// outermost first, and where each open scope starts in the list.
pub struct ScopesView {
    pub vars: Seq<i32>,
    pub marks: Seq<usize>,
}

impl ScopesView {
    /// No scope is open.
    pub open spec fn empty() -> ScopesView {
        ScopesView { vars: Seq::empty(), marks: Seq::empty() }
    }

    /// The invariant: every scope starts within the list of slots, and no
    /// scope starts before the one around it.
    pub open spec fn wf(self) -> bool {
        &&& self.vars.len() <= usize::MAX
        &&& forall|i: int| 0 <= i < self.marks.len() ==> #[trigger] self.marks[i] <= self.vars.len()
        &&& forall|i: int, j: int|
            0 <= i <= j < self.marks.len() ==> #[trigger] self.marks[i] <= #[trigger] self.marks[j]
    }

    /// The slots of all variables in scope.
    pub open spec fn all(self) -> Set<i32> {
        self.vars.to_set()
    }

    /// The stack after a scope is opened.
    pub open spec fn push_scope(self) -> ScopesView {
        ScopesView { marks: self.marks.push(self.vars.len() as usize), ..self }
    }

    /// The stack after the innermost scope is closed.
    pub open spec fn pop_scope(self) -> ScopesView {
        ScopesView { vars: self.vars.take(self.marks.last() as int), marks: self.marks.drop_last() }
    }

    /// The stack after a variable at `offset` comes into scope.
    pub open spec fn add_var(self, offset: i32) -> ScopesView {
        ScopesView { vars: self.vars.push(offset), ..self }
    }
}

/// The frame slots of the reference variables that are in scope, kept as a
/// stack of lexical scopes.
#[derive(Debug)]
pub struct Scopes {
    vars: Vec<i32>,
    marks: Vec<usize>,
}

impl View for Scopes {
    type V = ScopesView;

    closed spec fn view(&self) -> ScopesView {
        ScopesView { vars: self.vars@, marks: self.marks@ }
    }
}

impl Scopes {
    /// The invariant: that of the stack's value.
    pub open spec fn wf(&self) -> bool {
        self@.wf()
    }

    /// The slots of all variables in scope.
    pub open spec fn all(&self) -> Set<i32> {
        self@.all()
    }

    /// No scope is open.
    pub fn new() -> (s: Scopes)
        ensures
            s.wf(),
            s@ == ScopesView::empty(),
    {
        Scopes { vars: Vec::new(), marks: Vec::new() }
    }

    /// Opens a scope.
    pub fn push_scope(&mut self)
        requires
            old(self).wf(),
        ensures
            final(self).wf(),
            final(self)@ == old(self)@.push_scope(),
    {
        self.marks.push(self.vars.len());
    }

    /// Closes the innermost scope: its variables are no longer in scope.
    pub fn pop_scope(&mut self)
        requires
            old(self).wf(),
            old(self)@.marks.len() > 0,
        ensures
            final(self).wf(),
            final(self)@ == old(self)@.pop_scope(),
    {
        let mark = self.marks.pop().unwrap();
        assert(mark == old(self).marks@[old(self).marks@.len() - 1]);
        self.vars.truncate(mark);
        proof {
            assert(self.vars@ =~= old(self).vars@.take(mark as int));
            assert(self.marks@ =~= old(self).marks@.drop_last());
            assert forall|i: int| 0 <= i < self.marks@.len() implies #[trigger] self.marks@[i]
                <= self.vars@.len() by {
                assert(old(self).marks@[i] <= old(self).marks@[old(self).marks@.len() - 1]);
            }
        }
    }

    /// The variable at `offset` is of reference type and in scope from now
    /// on.
    pub fn add_var(&mut self, offset: i32)
        requires
            old(self).wf(),
        ensures
            final(self).wf(),
            final(self)@ == old(self)@.add_var(offset),
            final(self).all() == old(self).all().insert(offset),
    {
        self.vars.push(offset);
        proof {
            old(self).vars@.lemma_push_to_set_commute(offset);
            assert(self.vars.len() == old(self).vars@.len() + 1);
            assert(self@.marks == old(self)@.marks);
            assert forall|i: int| 0 <= i < self@.marks.len() implies #[trigger] self@.marks[i]
                <= self@.vars.len() by {
                assert(old(self)@.marks[i] <= old(self)@.vars.len());
            }
            assert forall|i: int, j: int| 0 <= i <= j < self@.marks.len() implies #[trigger] self@.marks[i]
                <= #[trigger] self@.marks[j] by {
                assert(old(self)@.marks[i] <= old(self)@.marks[j]);
            }
        }
    }

    /// Number of open scopes.
    pub fn depth(&self) -> (r: usize)
        ensures
            r == self@.marks.len(),
    {
        self.marks.len()
    }
}

/// The safepoint for the current position: the slots of the reference
/// variables in scope and of the live reference temporaries.
pub fn create_gcpoint(vars: &Scopes, temps: &TempOffsets) -> (g: GcPoint)
    ensures
        g@ == vars.all().union(temps@),
{
    let mut offsets: Vec<i32> = Vec::new();
    let mut i: usize = 0;
    while i < vars.vars.len()
        invariant
            i <= vars.vars.len(),
            offsets@ == vars.vars@.take(i as int),
        decreases vars.vars.len() - i,
    {
        offsets.push(vars.vars[i]);
        assert(vars.vars@.take(i + 1) =~= vars.vars@.take(i as int).push(vars.vars@[i as int]));
        i += 1;
    }
    assert(vars.vars@.take(i as int) =~= vars.vars@);
    let mut j: usize = 0;
    while j < temps.offsets.len()
        invariant
            j <= temps.offsets.len(),
            offsets@ == vars.vars@ + temps.offsets@.take(j as int),
        decreases temps.offsets.len() - j,
    {
        offsets.push(temps.offsets[j]);
        assert(temps.offsets@.take(j + 1) =~= temps.offsets@.take(j as int).push(
            temps.offsets@[j as int],
        ));
        assert(offsets@ =~= vars.vars@ + temps.offsets@.take(j + 1));
        j += 1;
    }
    assert(temps.offsets@.take(j as int) =~= temps.offsets@);
    proof {
        let a = vars.vars@;
        let b = temps.offsets@;
        assert forall|x: i32| (a + b).to_set().contains(x) == a.to_set().union(b.to_set()).contains(
            x,
        ) by {
            if (a + b).to_set().contains(x) {
                let k = choose|k: int| 0 <= k < (a + b).len() && (a + b)[k] == x;
                if k < a.len() {
                    assert(a[k] == x);
                } else {
                    assert(b[k - a.len()] == x);
                }
            }
            if a.to_set().contains(x) {
                let k = choose|k: int| 0 <= k < a.len() && a[k] == x;
                assert((a + b)[k] == x);
            }
            if b.to_set().contains(x) {
                let k = choose|k: int| 0 <= k < b.len() && b[k] == x;
                assert((a + b)[k + a.len()] == x);
            }
        }
        assert((a + b).to_set() =~= a.to_set().union(b.to_set()));
    }
    GcPoint::from_offsets(offsets)
}

/// The statement generator of one function.
pub struct CodeGen<'a> {
    pub ctxt: &'a Context,
    pub fct: &'a Fct,
    pub src: &'a FctSrc,
    pub ast: &'a Function,
    pub masm: MacroAssembler,
    pub scopes: Scopes,
    pub rt: &'a mut Runtime,
    /// Where `break` continues.
    pub lbl_break: Option<Label>,
    /// Where `continue` continues.
    pub lbl_continue: Option<Label>,
}

/// The general-purpose register of `dest`.
fn dest_reg(dest: ExprStore) -> (r: Result<crate::cpu::Reg, GenError>)
    ensures
        r == crate::lowering::dest_reg(dest),
{
    match dest {
        ExprStore::Reg(reg) => Ok(reg),
        ExprStore::FReg(_) => Err(GenError::WrongStore),
    }
}

/// The machine mode of `ty`, if it has one.
fn mode_of(ty: BuiltinType) -> (r: Result<MachineMode, GenError>)
    ensures
        r == crate::lowering::mode_of(ty),
{
    if ty.has_mode() {
        Ok(ty.mode())
    } else {
        Err(GenError::MissingInfo)
    }
}

/// The register in which the value of `e` is delivered.
fn result_store(src: &FctSrc, e: &Expr) -> (r: ExprStore)
    ensures
        r == flow::result_store(*src, *e),
{
    let ty = match src.ty(e.id()) {
        Some(ty) => ty,
        None => BuiltinType::Int,
    };
    if ty.has_mode() && ty.mode().is_float() {
        ExprStore::FReg(FREG_RESULT)
    } else {
        ExprStore::Reg(REG_RESULT)
    }
}

impl<'a> CodeGen<'a> {
    /// What the generator reads.
    pub open spec fn env(&self) -> FctEnv {
        FctEnv { ctxt: *self.ctxt, fct_id: self.fct.id, src: *self.src }
    }

    /// What the generator has made so far.
    pub open spec fn state(&self) -> StmtState {
        StmtState {
            gen: GenState { masm: self.masm@, temps: Set::empty(), rt: self.rt@ },
            scopes: self.scopes@,
            lbl_break: self.lbl_break,
            lbl_continue: self.lbl_continue,
        }
    }

    /// The invariant: those of the listing, of the scopes and of the shared
    /// state.
    pub open spec fn wf(&self) -> bool {
        &&& self.masm.wf()
        &&& self.scopes.wf()
        &&& self.rt.wf()
    }

    /// The labels of the innermost loop exist.
    pub open spec fn labels_ok(&self) -> bool {
        &&& self.lbl_break matches Some(l) ==> l.0 < self.masm@.labels.len()
        &&& self.lbl_continue matches Some(l) ==> l.0 < self.masm@.labels.len()
    }

    /// The generator reads what `old` read.
    pub open spec fn same_env(&self, old: &CodeGen<'a>) -> bool {
        &&& self.ctxt == old.ctxt
        &&& self.fct == old.fct
        &&& self.src == old.src
        &&& self.ast == old.ast
    }

    /// The generator has done what `expected` says, starting from
    /// `before`: on success its state is the expected one, every label it
    /// created is bound or has a trap exit waiting, every call it emitted
    /// has its safepoint, and what the listing held is still there; on
    /// failure the error is the expected one.
    pub open spec fn stepped(&self, before: StmtState, r: Result<(), GenError>, expected: StmtResult) -> bool {
        match expected {
            Ok(s) => {
                &&& r is Ok
                &&& self.state() == s
                &&& self.labels_ok()
                &&& self.masm@.unresolved() == before.gen.masm.unresolved()
                &&& self.masm@.uncovered() == before.gen.masm.uncovered()
                &&& self.masm@.extends(before.gen.masm)
            },
            Err(e) => r == Err::<(), GenError>(e),
        }
    }

    /// Emits the code that delivers the value of `e` in `dest`.
    fn emit_value(&mut self, e: &Expr, dest: ExprStore) -> (r: Result<(), GenError>)
        requires
            old(self).wf(),
            old(self).labels_ok(),
        ensures
            final(self).wf(),
            final(self).same_env(old(self)),
            *final(final(self).rt) == *final(old(self).rt),
            final(self).stepped(
                old(self).state(),
                r,
                flow::emit_value(old(self).env(), old(self).state(), *e, dest),
            ),
    {
        let gen = ExprGen::new(
            self.ctxt,
            self.fct,
            self.src,
            self.ast,
            &mut self.masm,
            &self.scopes,
            self.rt,
        );
        gen.try_generate(e, dest)
    }

    /// Emits the function exit.
    fn emit_epilog(&mut self) -> (r: Result<(), GenError>)
        requires
            old(self).wf(),
            old(self).labels_ok(),
        ensures
            final(self).wf(),
            final(self).same_env(old(self)),
            *final(final(self).rt) == *final(old(self).rt),
            final(self).stepped(
                old(self).state(),
                r,
                flow::emit_epilog(old(self).env(), old(self).state()),
            ),
    {
        let stacksize = match self.src.stacksize() {
            Some(stacksize) => stacksize,
            None => return Err(GenError::TooLarge),
        };
        self.masm.epilog(stacksize);
        Ok(())
    }

    /// Declares the variable of a `let`.
    fn declare(&mut self, var: Var, initialized: bool) -> (r: Result<(), GenError>)
        requires
            old(self).wf(),
            old(self).labels_ok(),
        ensures
            final(self).wf(),
            final(self).same_env(old(self)),
            *final(final(self).rt) == *final(old(self).rt),
            final(self).stepped(
                old(self).state(),
                r,
                flow::declare(old(self).env(), old(self).state(), var, initialized),
            ),
    {
        if var.ty.reference_type() {
            self.scopes.add_var(var.offset);
            // uninitialized variables which reference objects need to be initialized to null
            if !initialized {
                self.masm.load_nil(REG_RESULT);
                if self.src.var(var.id).is_none() {
                    return Err(GenError::MissingInfo);
                }
                var_store(&mut self.masm, self.src, REG_RESULT, var.id);
            }
        }
        Ok(())
    }

    fn emit_stmt_let(&mut self, s: &StmtLetType) -> (r: Result<(), GenError>)
        requires
            old(self).wf(),
            old(self).labels_ok(),
        ensures
            final(self).wf(),
            final(self).same_env(old(self)),
            *final(final(self).rt) == *final(old(self).rt),
            final(self).stepped(
                old(self).state(),
                r,
                flow::emit_stmt_let(old(self).env(), old(self).state(), *s),
            ),
    {
        let varid = match self.src.map_vars.get(s.id) {
            Some(varid) => *varid,
            None => return Err(GenError::MissingInfo),
        };
        let var = match self.src.var(varid) {
            Some(var) => var,
            None => return Err(GenError::MissingInfo),
        };
        let mut initialized = false;
        if let Some(expr) = &s.expr {
            let dest = result_store(self.src, expr);
            match self.emit_value(expr, dest) {
                Ok(v) => v,
                Err(e) => return Err(e),
            };
            initialized = true;
            let d = match dest_reg(dest) {
                Ok(v) => v,
                Err(e) => return Err(e),
            };
            var_store(&mut self.masm, self.src, d, varid);
        }
        self.declare(var, initialized)
    }

    /// Emits the code of `stmt`.
    fn emit_stmt(&mut self, stmt: &Stmt) -> (r: Result<(), GenError>)
        requires
            old(self).wf(),
            old(self).labels_ok(),
        ensures
            final(self).wf(),
            final(self).same_env(old(self)),
            *final(final(self).rt) == *final(old(self).rt),
            final(self).stepped(
                old(self).state(),
                r,
                flow::emit_stmt(old(self).env(), old(self).state(), *stmt),
            ),
        decreases stmt, 2int, 0int,
    {
        match stmt {
            Stmt::StmtLet(s) => self.emit_stmt_let(s),
            Stmt::StmtWhile(s) => self.emit_stmt_while(s),
            Stmt::StmtLoop(s) => self.emit_stmt_loop(s),
            Stmt::StmtIf(s) => self.emit_stmt_if(s),
            Stmt::StmtExpr(s) => {
                let dest = result_store(self.src, &s.expr);
                self.emit_value(&s.expr, dest)
            },
            Stmt::StmtBlock(s) => self.emit_stmt_block(s),
            Stmt::StmtBreak(_) => match self.lbl_break {
                Some(lbl) => {
                    self.masm.jump(lbl);
                    Ok(())
                },
                None => Err(GenError::MissingInfo),
            },
            Stmt::StmtContinue(_) => match self.lbl_continue {
                Some(lbl) => {
                    self.masm.jump(lbl);
                    Ok(())
                },
                None => Err(GenError::MissingInfo),
            },
            Stmt::StmtReturn(s) => {
                if let Some(expr) = &s.expr {
                    let dest = result_store(self.src, expr);
                    match self.emit_value(expr, dest) {
                        Ok(v) => v,
                        Err(e) => return Err(e),
                    };
                }
                self.emit_epilog()
            },
        }
    }

    fn emit_stmt_if(&mut self, s: &StmtIfType) -> (r: Result<(), GenError>)
        requires
            old(self).wf(),
            old(self).labels_ok(),
        ensures
            final(self).wf(),
            final(self).same_env(old(self)),
            *final(final(self).rt) == *final(old(self).rt),
            final(self).stepped(
                old(self).state(),
                r,
                flow::emit_stmt_if(old(self).env(), old(self).state(), *s),
            ),
        decreases s, 0int, 0int,
    {
        let lbl_else = self.masm.create_label();
        let lbl_end = self.masm.create_label();
        match self.emit_value(&s.cond, ExprStore::Reg(REG_RESULT)) {
            Ok(v) => v,
            Err(e) => return Err(e),
        };
        assert(self.masm@.unresolved().contains(lbl_else));
        self.masm.test_and_jump_if(CondCode::Zero, REG_RESULT, lbl_else);
        match self.emit_stmt(&s.then_block) {
            Ok(v) => v,
            Err(e) => return Err(e),
        };
        assert(self.masm@.unresolved().contains(lbl_end));
        self.masm.jump(lbl_end);
        assert(self.masm@.unresolved().contains(lbl_else));
        self.masm.bind_label(lbl_else);
        if let Some(else_block) = &s.else_block {
            match self.emit_stmt(else_block) {
                Ok(v) => v,
                Err(e) => return Err(e),
            };
        }
        assert(self.masm@.unresolved().contains(lbl_end));
        self.masm.bind_label(lbl_end);
        assert(self.masm@.unresolved() =~= old(self).masm@.unresolved());
        Ok(())
    }

    /// Emits the body of a loop between `lbl_top`, which is bound, and
    /// `lbl_exit`, which is bound behind the body.
    #[verifier::rlimit(40)]
    fn emit_loop_body(
        &mut self,
        outer: (Option<Label>, Option<Label>),
        body: &Stmt,
        lbl_top: Label,
        lbl_exit: Label,
    ) -> (r: Result<(), GenError>)
        requires
            old(self).wf(),
            old(self).labels_ok(),
            lbl_top.0 < old(self).masm@.labels.len(),
            old(self).masm@.open_label(lbl_exit),
            outer.0 matches Some(l) ==> l.0 < old(self).masm@.labels.len(),
            outer.1 matches Some(l) ==> l.0 < old(self).masm@.labels.len(),
        ensures
            final(self).wf(),
            final(self).same_env(old(self)),
            *final(final(self).rt) == *final(old(self).rt),
            match flow::emit_loop_body(
                old(self).env(),
                old(self).state(),
                outer,
                *body,
                lbl_top,
                lbl_exit,
            ) {
                Ok(s) => {
                    &&& r is Ok
                    &&& final(self).state() == s
                    &&& final(self).labels_ok()
                    &&& final(self).masm@.unresolved() == old(self).masm@.unresolved().remove(
                        lbl_exit,
                    )
                    &&& final(self).masm@.uncovered() == old(self).masm@.uncovered()
                    &&& old(self).masm@.insns.len() <= final(self).masm@.insns.len()
                    &&& forall|i: int|
                        0 <= i < old(self).masm@.insns.len() ==> #[trigger] final(self).masm@.insns[i]
                            == old(self).masm@.insns[i]
                    &&& old(self).masm@.labels.len() <= final(self).masm@.labels.len()
                    &&& forall|l: int|
                        0 <= l < old(self).masm@.labels.len() && l != lbl_exit.0
                            ==> #[trigger] final(self).masm@.labels[l] == old(self).masm@.labels[l]
                },
                Err(e) => r == Err::<(), GenError>(e),
            },
        decreases body, 3int, 0int,
    {
        self.lbl_break = Some(lbl_exit);
        self.lbl_continue = Some(lbl_top);
        match self.emit_stmt(body) {
            Ok(v) => v,
            Err(e) => return Err(e),
        };
        self.masm.jump(lbl_top);
        assert(self.masm@.unresolved().contains(lbl_exit));
        self.masm.bind_label(lbl_exit);
        self.lbl_break = outer.0;
        self.lbl_continue = outer.1;
        assert(self.masm@.unresolved() =~= old(self).masm@.unresolved().remove(lbl_exit));
        Ok(())
    }

    fn emit_stmt_loop(&mut self, s: &StmtLoopType) -> (r: Result<(), GenError>)
        requires
            old(self).wf(),
            old(self).labels_ok(),
        ensures
            final(self).wf(),
            final(self).same_env(old(self)),
            *final(final(self).rt) == *final(old(self).rt),
            final(self).stepped(
                old(self).state(),
                r,
                flow::emit_stmt_loop(old(self).env(), old(self).state(), *s),
            ),
        decreases s, 0int, 0int,
    {
        let outer = (self.lbl_break, self.lbl_continue);
        let lbl_top = self.masm.create_label();
        let lbl_exit = self.masm.create_label();
        assert(self.masm@.unresolved().contains(lbl_top));
        self.masm.bind_label(lbl_top);
        match self.emit_loop_body(outer, &s.block, lbl_top, lbl_exit) {
            Ok(v) => v,
            Err(e) => return Err(e),
        };
        assert(self.masm@.unresolved() =~= old(self).masm@.unresolved());
        Ok(())
    }

    fn emit_stmt_while(&mut self, s: &StmtWhileType) -> (r: Result<(), GenError>)
        requires
            old(self).wf(),
            old(self).labels_ok(),
        ensures
            final(self).wf(),
            final(self).same_env(old(self)),
            *final(final(self).rt) == *final(old(self).rt),
            final(self).stepped(
                old(self).state(),
                r,
                flow::emit_stmt_while(old(self).env(), old(self).state(), *s),
            ),
        decreases s, 0int, 0int,
    {
        let outer = (self.lbl_break, self.lbl_continue);
        let lbl_top = self.masm.create_label();
        let lbl_exit = self.masm.create_label();
        assert(self.masm@.unresolved().contains(lbl_top));
        self.masm.bind_label(lbl_top);
        match self.emit_value(&s.cond, ExprStore::Reg(REG_RESULT)) {
            Ok(v) => v,
            Err(e) => return Err(e),
        };
        assert(self.masm@.unresolved().contains(lbl_exit));
        self.masm.test_and_jump_if(CondCode::Zero, REG_RESULT, lbl_exit);
        match self.emit_loop_body(outer, &s.block, lbl_top, lbl_exit) {
            Ok(v) => v,
            Err(e) => return Err(e),
        };
        assert(self.masm@.unresolved() =~= old(self).masm@.unresolved());
        Ok(())
    }

    fn emit_stmt_block(&mut self, s: &StmtBlockType) -> (r: Result<(), GenError>)
        requires
            old(self).wf(),
            old(self).labels_ok(),
        ensures
            final(self).wf(),
            final(self).same_env(old(self)),
            *final(final(self).rt) == *final(old(self).rt),
            final(self).stepped(
                old(self).state(),
                r,
                flow::emit_stmt_block(old(self).env(), old(self).state(), *s),
            ),
        decreases s, 1int, 0int,
    {
        self.scopes.push_scope();
        let mut i: usize = 0;
        while i < s.stmts.len()
            invariant
                self.wf(),
                self.labels_ok(),
                self.same_env(old(self)),
                *final(self.rt) == *final(old(self).rt),
                self.masm@.unresolved() == old(self).masm@.unresolved(),
                self.masm@.uncovered() == old(self).masm@.uncovered(),
                self.masm@.extends(old(self).masm@),
                flow::emit_stmts(self.env(), self.state(), *s, i as int) == flow::emit_stmts(
                    old(self).env(),
                    (StmtState { scopes: old(self).scopes@.push_scope(), ..old(self).state() }),
                    *s,
                    0,
                ),
            decreases s.stmts.len() - i,
        {
            assert(decreases_to!(s.stmts => s.stmts[i as int]));
            match self.emit_stmt(&s.stmts[i]) {
                Ok(v) => v,
                Err(e) => return Err(e),
            };
            i += 1;
        }
        if self.scopes.depth() == 0 {
            return Err(GenError::MissingInfo);
        }
        self.scopes.pop_scope();
        Ok(())
    }

    /// Takes over the first `n` parameters.
    fn take_params(&mut self, n: usize) -> (r: Result<(), GenError>)
        requires
            old(self).wf(),
            old(self).labels_ok(),
        ensures
            final(self).wf(),
            final(self).same_env(old(self)),
            *final(final(self).rt) == *final(old(self).rt),
            final(self).stepped(
                old(self).state(),
                r,
                flow::take_params(old(self).env(), old(self).state(), n as int, 0),
            ),
    {
        let mut i: usize = 0;
        while i < n
            invariant
                self.wf(),
                self.labels_ok(),
                self.same_env(old(self)),
                *final(self.rt) == *final(old(self).rt),
                self.masm@.unresolved() == old(self).masm@.unresolved(),
                self.masm@.uncovered() == old(self).masm@.uncovered(),
                self.masm@.extends(old(self).masm@),
                flow::take_params(self.env(), self.state(), n as int, i as int) == flow::take_params(
                    old(self).env(),
                    old(self).state(),
                    n as int,
                    0,
                ),
            decreases n - i,
        {
            let var = match self.src.var(VarId(i)) {
                Some(var) => var,
                None => return Err(GenError::MissingInfo),
            };
            if i < REG_PARAMS.len() {
                let mode = match mode_of(var.ty) {
                    Ok(v) => v,
                    Err(e) => return Err(e),
                };
                self.masm.store_mem(mode, Mem::Local(var.offset), REG_PARAMS[i]);
            }
            if var.ty.reference_type() {
                self.scopes.add_var(var.offset);
            }
            i += 1;
        }
        Ok(())
    }
}

impl<'a> CodeGen<'a> {
    /// Emits what follows the function entry.
    fn emit_body(&mut self, args: usize) -> (r: Result<(), GenError>)
        requires
            old(self).wf(),
            old(self).labels_ok(),
        ensures
            final(self).wf(),
            final(self).same_env(old(self)),
            *final(final(self).rt) == *final(old(self).rt),
            final(self).stepped(
                old(self).state(),
                r,
                flow::emit_body(old(self).env(), old(self).state(), *old(self).ast, args as int),
            ),
    {
        match self.take_params(args) {
            Ok(()) => {},
            Err(e) => return Err(e),
        }
        match self.emit_stmt(&self.ast.block) {
            Ok(()) => {},
            Err(e) => return Err(e),
        }
        self.emit_epilog()
    }
}

/// Finishes the listing of a function and installs it in the code space.
fn install(masm: MacroAssembler, rt: &mut Runtime, fct_id: FctId, stacksize: i32) -> (r: Result<
    JitFct,
    GenError,
>)
    requires
        masm.wf(),
        masm@.insns.len() > 0,
        masm@.unresolved() == Set::<Label>::empty(),
        old(rt).wf(),
    ensures
        final(rt).wf(),
        match flow::install(masm@, old(rt)@, fct_id, stacksize) {
            Ok((jit, view)) => {
                &&& r matches Ok(f)
                &&& f@ == jit
                &&& f.wf()
                &&& f@.listing.uncovered() == masm@.uncovered()
                &&& final(rt)@ == view
            },
            Err(e) => r matches Err(x) && x == e,
        },
{
    proof {
        lemma_resolved_closed(masm@);
        lemma_finish_keeps_covered(masm@);
    }
    let mut listing = masm;
    listing.finish();
    match place(rt, &listing, CodeData::Fct(fct_id)) {
        Ok(entry) => Ok(JitFct::new(entry, stacksize, listing)),
        Err(e) => Err(e),
    }
}

/// Generates the code of function `fct`, whose body is `ast` and which
/// takes `args` arguments, the receiver included, and installs it in the
/// code space.
///
/// In the code every jump is bound to a position of the listing, and every
/// call is followed by a safepoint that lists the slots of the reference
/// variables in scope and of the live reference temporaries.
pub fn generate(
    ctxt: &Context,
    fct: &Fct,
    src: &FctSrc,
    ast: &Function,
    args: usize,
    rt: &mut Runtime,
) -> (r: Result<JitFct, GenError>)
    requires
        old(rt).wf(),
    ensures
        final(rt).wf(),
        match flow::compile(
            (FctEnv { ctxt: *ctxt, fct_id: fct.id, src: *src }),
            old(rt)@,
            *ast,
            args as int,
        ) {
            Ok((jit, view)) => {
                &&& r matches Ok(f)
                &&& f@ == jit
                &&& f.wf()
                &&& f@.listing.uncovered() == Set::<int>::empty()
                &&& final(rt)@ == view
            },
            Err(e) => r matches Err(x) && x == e,
        },
{
    let stacksize = match src.stacksize() {
        Some(stacksize) => stacksize,
        None => return Err(GenError::TooLarge),
    };
    let mut masm = MacroAssembler::new();
    masm.prolog(stacksize);
    let mut scopes = Scopes::new();
    scopes.push_scope();
    let mut gen = CodeGen {
        ctxt,
        fct,
        src,
        ast,
        masm,
        scopes,
        rt,
        lbl_break: None,
        lbl_continue: None,
    };
    match gen.emit_body(args) {
        Ok(()) => {},
        Err(e) => return Err(e),
    }
    let CodeGen { masm, rt, .. } = gen;
    install(masm, rt, fct.id, stacksize)
}

} // verus!
