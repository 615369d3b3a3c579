//! What the statement generator emits, as a function from the state before
//! a statement to the state after it, and what becomes of a whole function.

use crate::ast::{Expr, Function, Stmt, StmtBlockType, StmtIfType, StmtLetType, StmtLoopType, StmtWhileType};
use crate::codegen::{CondCode, ScopesView};
use crate::cpu::{Mem, FREG_RESULT, REG_PARAMS, REG_RESULT};
use crate::ctxt::{Context, FctId, FctSrc};
use crate::error::GenError;
use crate::expr::ExprStore;
use crate::fct::JitFctView;
use crate::image::spec_place;
use crate::lowering;
use crate::lowering::{dest_reg, mode_of, var_store, Env, GenState};
use crate::masm::{Insn, Label, MasmView};
use crate::runtime::{CodeData, RuntimeView};
use crate::ty::{BuiltinType, MachineMode};
use vstd::prelude::*;

verus! {

/// What the statement generator changes as it goes: what the expression
/// generator changes, the reference variables in scope, and the labels of
/// the innermost loop.
pub struct StmtState {
    pub gen: GenState,
    pub scopes: ScopesView,
    /// Where `break` continues: behind the innermost loop.
    pub lbl_break: Option<Label>,
    /// Where `continue` continues: at the top of the innermost loop.
    pub lbl_continue: Option<Label>,
}

/// What the statement generator reads.
pub struct FctEnv {
    pub ctxt: Context,
    pub fct_id: FctId,
    pub src: FctSrc,
}

/// The state after a statement is emitted, or why it cannot be.
pub type StmtResult = Result<StmtState, GenError>;

impl FctEnv {
    /// What the expression generator reads while these variables are in
    /// scope.
    pub open spec fn at(self, scopes: ScopesView) -> Env {
        Env { ctxt: self.ctxt, fct_id: self.fct_id, src: self.src, scopes: scopes.all() }
    }
}

impl StmtState {
    /// The state with `masm` as the listing.
    pub open spec fn with(self, masm: MasmView) -> StmtState {
        StmtState { gen: self.gen.with(masm), ..self }
    }
}

/// The register in which the value of `e` is delivered: the
/// floating-point result register for a floating-point value, the result
/// register for any other.
pub open spec fn result_store(src: FctSrc, e: Expr) -> ExprStore {
    let ty = match src.spec_ty(e.id()) {
        Some(ty) => ty,
        None => BuiltinType::Int,
    };
    if ty.has_mode() && ty.mode().is_float() {
        ExprStore::FReg(FREG_RESULT)
    } else {
        ExprStore::Reg(REG_RESULT)
    }
}

/// The state after the value of `e` is delivered in `dest`.
pub open spec fn emit_value(env: FctEnv, st: StmtState, e: Expr, dest: ExprStore) -> StmtResult {
    match lowering::generate(env.at(st.scopes), st.gen, e, dest) {
        Err(x) => Err(x),
        Ok(gen) => Ok(StmtState { gen, ..st }),
    }
}

/// The function exit: the frame is torn down and control returns.
pub open spec fn emit_epilog(env: FctEnv, st: StmtState) -> StmtResult {
    match env.src.spec_stacksize() {
        None => Err(GenError::TooLarge),
        Some(stacksize) => Ok(st.with(st.gen.masm.emit(Insn::Epilog(stacksize)))),
    }
}

/// After a `let`: a variable of reference type is in scope from now on, and
/// holds null unless the statement gave it a value.
pub open spec fn declare(env: FctEnv, st: StmtState, var: crate::ctxt::Var, initialized: bool) -> StmtResult {
    if var.ty.reference_type() {
        let st1 = StmtState { scopes: st.scopes.add_var(var.offset), ..st };
        if initialized {
            Ok(st1)
        } else {
            match var_store(
                env.src,
                st1.gen.masm.emit(Insn::LoadIntConst(MachineMode::Ptr, REG_RESULT, 0)),
                REG_RESULT,
                var.id,
            ) {
                Err(x) => Err(x),
                Ok(m) => Ok(st1.with(m)),
            }
        }
    } else {
        Ok(st)
    }
}

/// A `let`: the initial value, if there is one, is evaluated and stored to
/// the variable, and the variable is declared.
pub open spec fn emit_stmt_let(env: FctEnv, st: StmtState, s: StmtLetType) -> StmtResult {
    match env.src.map_vars.spec_get(s.id) {
        None => Err(GenError::MissingInfo),
        Some(varid) => match env.src.spec_var(varid) {
            None => Err(GenError::MissingInfo),
            Some(var) => match s.expr {
                Some(expr) => match emit_value(env, st, *expr, result_store(env.src, *expr)) {
                    Err(x) => Err(x),
                    Ok(st1) => match dest_reg(result_store(env.src, *expr)) {
                        Err(x) => Err(x),
                        Ok(d) => match var_store(env.src, st1.gen.masm, d, varid) {
                            Err(x) => Err(x),
                            Ok(m) => declare(env, st1.with(m), var, true),
                        },
                    },
                },
                None => declare(env, st, var, false),
            },
        },
    }
}

/// What `stmt` lowers to.
pub open spec fn emit_stmt(env: FctEnv, st: StmtState, stmt: Stmt) -> StmtResult
    decreases stmt, 2int, 0int,
{
    match stmt {
        Stmt::StmtLet(s) => emit_stmt_let(env, st, s),
        Stmt::StmtWhile(s) => emit_stmt_while(env, st, s),
        Stmt::StmtLoop(s) => emit_stmt_loop(env, st, s),
        Stmt::StmtIf(s) => emit_stmt_if(env, st, s),
        Stmt::StmtExpr(s) => emit_value(env, st, *s.expr, result_store(env.src, *s.expr)),
        Stmt::StmtBlock(s) => emit_stmt_block(env, st, s),
        Stmt::StmtBreak(_) => match st.lbl_break {
            Some(l) => Ok(st.with(st.gen.masm.emit(Insn::Jump(l)))),
            None => Err(GenError::MissingInfo),
        },
        Stmt::StmtContinue(_) => match st.lbl_continue {
            Some(l) => Ok(st.with(st.gen.masm.emit(Insn::Jump(l)))),
            None => Err(GenError::MissingInfo),
        },
        Stmt::StmtReturn(s) => match s.expr {
            Some(expr) => match emit_value(env, st, *expr, result_store(env.src, *expr)) {
                Err(x) => Err(x),
                Ok(st1) => emit_epilog(env, st1),
            },
            None => emit_epilog(env, st),
        },
    }
}

/// An `if`: the condition is evaluated into the result register and
/// tested; if it is false the code of the first branch is jumped over. The
/// first branch ends with a jump over the second.
pub open spec fn emit_stmt_if(env: FctEnv, st: StmtState, s: StmtIfType) -> StmtResult
    decreases s, 0int, 0int,
{
    let (m1, lbl_else) = st.gen.masm.create_label();
    let (m2, lbl_end) = m1.create_label();
    match emit_value(env, st.with(m2), *s.cond, ExprStore::Reg(REG_RESULT)) {
        Err(x) => Err(x),
        Ok(st1) => match emit_stmt(
            env,
            st1.with(st1.gen.masm.test_and_jump_if(CondCode::Zero, REG_RESULT, lbl_else)),
            *s.then_block,
        ) {
            Err(x) => Err(x),
            Ok(st2) => {
                let st3 = st2.with(st2.gen.masm.emit(Insn::Jump(lbl_end)).bind_label(lbl_else));
                match s.else_block {
                    Some(else_block) => match emit_stmt(env, st3, *else_block) {
                        Err(x) => Err(x),
                        Ok(st4) => Ok(st4.with(st4.gen.masm.bind_label(lbl_end))),
                    },
                    None => Ok(st3.with(st3.gen.masm.bind_label(lbl_end))),
                }
            },
        }
    }
}

/// The body of a loop between the labels `lbl_top` and `lbl_exit`:
/// `continue` goes to the first and `break` to the second while the body
/// is emitted; then the body is closed by a jump to the top, the exit is
/// bound, and `break` and `continue` mean what they meant before.
pub open spec fn emit_loop_body(
    env: FctEnv,
    st: StmtState,
    outer: (Option<Label>, Option<Label>),
    body: Stmt,
    lbl_top: Label,
    lbl_exit: Label,
) -> StmtResult
    decreases body, 3int, 0int,
{
    match emit_stmt(
        env,
        StmtState { lbl_break: Some(lbl_exit), lbl_continue: Some(lbl_top), ..st },
        body,
    ) {
        Err(x) => Err(x),
        Ok(st1) => Ok(
            StmtState {
                lbl_break: outer.0,
                lbl_continue: outer.1,
                ..st1.with(st1.gen.masm.emit(Insn::Jump(lbl_top)).bind_label(lbl_exit))
            },
        ),
    }
}

/// An endless loop: it is left by `break` or `return` only.
pub open spec fn emit_stmt_loop(env: FctEnv, st: StmtState, s: StmtLoopType) -> StmtResult
    decreases s, 0int, 0int,
{
    let (m1, lbl_top) = st.gen.masm.create_label();
    let (m2, lbl_exit) = m1.create_label();
    emit_loop_body(
        env,
        st.with(m2.bind_label(lbl_top)),
        (st.lbl_break, st.lbl_continue),
        *s.block,
        lbl_top,
        lbl_exit,
    )
}

/// A `while`: the condition is evaluated at the top of the loop, and the
/// loop left if it is false.
pub open spec fn emit_stmt_while(env: FctEnv, st: StmtState, s: StmtWhileType) -> StmtResult
    decreases s, 0int, 0int,
{
    let (m1, lbl_top) = st.gen.masm.create_label();
    let (m2, lbl_exit) = m1.create_label();
    match emit_value(env, st.with(m2.bind_label(lbl_top)), *s.cond, ExprStore::Reg(REG_RESULT)) {
        Err(x) => Err(x),
        Ok(st1) => emit_loop_body(
            env,
            st1.with(st1.gen.masm.test_and_jump_if(CondCode::Zero, REG_RESULT, lbl_exit)),
            (st.lbl_break, st.lbl_continue),
            *s.block,
            lbl_top,
            lbl_exit,
        ),
    }
}

/// The statements of a block from statement `i` on, in order.
pub open spec fn emit_stmts(env: FctEnv, st: StmtState, s: StmtBlockType, i: int) -> StmtResult
    decreases s, 0int, s.stmts@.len() - i,
{
    if !(0 <= i < s.stmts@.len()) {
        Ok(st)
    } else {
        match emit_stmt(env, st, *s.stmts@[i]) {
            Err(x) => Err(x),
            Ok(st1) => emit_stmts(env, st1, s, i + 1),
        }
    }
}

/// A block: its statements in order, in a scope of their own.
pub open spec fn emit_stmt_block(env: FctEnv, st: StmtState, s: StmtBlockType) -> StmtResult
    decreases s, 1int, 0int,
{
    match emit_stmts(env, StmtState { scopes: st.scopes.push_scope(), ..st }, s, 0) {
        Err(x) => Err(x),
        Ok(st1) => if st1.scopes.marks.len() > 0 {
            Ok(StmtState { scopes: st1.scopes.pop_scope(), ..st1 })
        } else {
            Err(GenError::MissingInfo)
        },
    }
}

/// The state after the first `n` parameters, from parameter `i` on, are
/// taken over: a parameter that arrives in a register is stored to its
/// variable, and a parameter of reference type is in scope.
pub open spec fn take_params(env: FctEnv, st: StmtState, n: int, i: int) -> StmtResult
    decreases n - i,
{
    if !(0 <= i < n) {
        Ok(st)
    } else {
        match env.src.spec_var(crate::ctxt::VarId(i as usize)) {
            None => Err(GenError::MissingInfo),
            Some(var) => {
                let stored = if i < REG_PARAMS@.len() {
                    match mode_of(var.ty) {
                        Err(x) => Err(x),
                        Ok(mode) => Ok(
                            st.with(
                                st.gen.masm.emit(
                                    Insn::StoreMem(mode, Mem::Local(var.offset), REG_PARAMS[i]),
                                ),
                            ),
                        ),
                    }
                } else {
                    Ok(st)
                };
                match stored {
                    Err(x) => Err(x),
                    Ok(st1) => take_params(
                        env,
                        if var.ty.reference_type() {
                            StmtState { scopes: st1.scopes.add_var(var.offset), ..st1 }
                        } else {
                            st1
                        },
                        n,
                        i + 1,
                    ),
                }
            },
        }
    }
}

/// The listing of function `ast`, and the shared state after it is made:
/// the frame is set up, the parameters are taken over, the body is emitted
/// in the scope of the parameters, and the frame is torn down.
pub open spec fn emit_fct(env: FctEnv, rt: RuntimeView, ast: Function, args: int) -> Result<
    GenState,
    GenError,
> {
    match env.src.spec_stacksize() {
        None => Err(GenError::TooLarge),
        Some(stacksize) => {
            let st = StmtState {
                gen: GenState {
                    masm: MasmView::empty().emit(Insn::Prolog(stacksize)),
                    temps: Set::empty(),
                    rt,
                },
                scopes: ScopesView::empty().push_scope(),
                lbl_break: None,
                lbl_continue: None,
            };
            match emit_body(env, st, ast, args) {
                Err(x) => Err(x),
                Ok(st1) => Ok(st1.gen),
            }
        },
    }
}

/// What follows the function entry: the parameters are taken over, the
/// body is emitted, and the frame is torn down.
pub open spec fn emit_body(env: FctEnv, st: StmtState, ast: Function, args: int) -> StmtResult {
    match take_params(env, st, args, 0) {
        Err(x) => Err(x),
        Ok(st1) => match emit_stmt(env, st1, *ast.block) {
            Err(x) => Err(x),
            Ok(st2) => emit_epilog(env, st2),
        },
    }
}

/// The code of a function, installed, and the shared state after it: the
/// listing `masm` is finished, its image takes the next free addresses of
/// the code space, and is registered in the code map under the function's
/// id.
pub open spec fn install(masm: MasmView, rt: RuntimeView, fct_id: FctId, stacksize: i32) -> Result<
    (JitFctView, RuntimeView),
    GenError,
> {
    match spec_place(rt, masm.finish(), CodeData::Fct(fct_id)) {
        Err(e) => Err(e),
        Ok((rt1, entry)) => Ok(
            (JitFctView { fct_start: entry, framesize: stacksize, listing: masm.finish() }, rt1),
        ),
    }
}

/// The code of function `ast`, installed, and the shared state after it.
pub open spec fn compile(env: FctEnv, rt: RuntimeView, ast: Function, args: int) -> Result<
    (JitFctView, RuntimeView),
    GenError,
> {
    match emit_fct(env, rt, ast, args) {
        Err(x) => Err(x),
        Ok(gen) => match env.src.spec_stacksize() {
            None => Err(GenError::TooLarge),
            Some(stacksize) => install(gen.masm, gen.rt, env.fct_id, stacksize),
        },
    }
}

} // verus!
