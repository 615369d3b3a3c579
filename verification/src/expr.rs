//! The expression generator: it walks a typed expression and emits the
//! instructions that leave the expression's value in the register asked
//! for.

use crate::ast::{
    BinOp, CmpOp, Expr, ExprArrayType, ExprAssignType, ExprBinType, ExprCallType, ExprConvType,
    ExprDelegationType, ExprFieldType, ExprTryType, ExprUnType, Function, NodeId, TryMode,
};
use crate::class::{ClassId, FieldId};
use crate::codegen::{create_gcpoint, CondCode, Scopes, TempOffsets};
use crate::cpu::{
    FReg, Mem, Reg, FREG_RESULT, FREG_TMP1, REG_PARAMS, REG_RESULT, REG_TMP1, REG_TMP2,
};
use crate::ctxt::{
    Arg, CallSite, Callee, Context, Fct, FctId, FctKind, FctSrc, IdentType, Intrinsic, Store,
    VarId,
};
use crate::emit::{var_load, var_store};
use crate::error::GenError;
use crate::fct::{CatchType, Comment};
use crate::lexer::{FloatSuffix, IntSuffix, Position};
use crate::laws::short_circuits;
use crate::lowering;
use crate::lowering::{Env, GenResult, GenState};
use crate::masm::{Label, MacroAssembler};
use crate::native::ensure_native_stub;
use crate::object::Header;
use crate::runtime::Runtime;
use crate::stub::ensure_jit_or_stub_ptr;
use crate::trap::Trap;
use crate::ty::{BuiltinType, MachineMode};
use crate::vtable::{
    in_display, offset_in_overflow, offset_of_depth, offset_of_display_entry,
    offset_of_overflow, DEPTH_LIMIT, METHOD_INDEX_LIMIT,
};
use vstd::prelude::*;

verus! {

/// The register in which an expression's value is wanted.
#[derive(Clone, Copy, PartialEq, Eq, Structural, Debug)]
pub enum ExprStore {
    Reg(Reg),
    FReg(FReg),
}

impl ExprStore {
    /// The general-purpose register.
    pub fn reg(&self) -> (r: Reg)
        requires
            self is Reg,
        ensures
            *self == ExprStore::Reg(r),
    {
        match self {
            ExprStore::Reg(reg) => *reg,
            _ => vstd::pervasive::unreached(),
        }
    }

    /// The floating-point register.
    pub fn freg(&self) -> (r: FReg)
        requires
            self is FReg,
        ensures
            *self == ExprStore::FReg(r),
    {
        match self {
            ExprStore::FReg(reg) => *reg,
            _ => vstd::pervasive::unreached(),
        }
    }
}

impl vstd::std_specs::convert::FromSpecImpl<Reg> for ExprStore {
    open spec fn obeys_from_spec() -> bool {
        true
    }

    open spec fn from_spec(reg: Reg) -> ExprStore {
        ExprStore::Reg(reg)
    }
}

impl From<Reg> for ExprStore {
    fn from(reg: Reg) -> (r: ExprStore) {
        ExprStore::Reg(reg)
    }
}

impl vstd::std_specs::convert::FromSpecImpl<FReg> for ExprStore {
    open spec fn obeys_from_spec() -> bool {
        true
    }

    open spec fn from_spec(reg: FReg) -> ExprStore {
        ExprStore::FReg(reg)
    }
}

impl From<FReg> for ExprStore {
    fn from(reg: FReg) -> (r: ExprStore) {
        ExprStore::FReg(reg)
    }
}

/// The general-purpose register of `dest`.
fn dest_reg(dest: ExprStore) -> (r: Result<Reg, GenError>)
    ensures
        r == lowering::dest_reg(dest),
{
    match dest {
        ExprStore::Reg(reg) => Ok(reg),
        ExprStore::FReg(_) => Err(GenError::WrongStore),
    }
}

/// The floating-point register of `dest`.
fn dest_freg(dest: ExprStore) -> (r: Result<FReg, GenError>)
    ensures
        r == lowering::dest_freg(dest),
{
    match dest {
        ExprStore::FReg(reg) => Ok(reg),
        ExprStore::Reg(_) => Err(GenError::WrongStore),
    }
}

/// The machine mode of `ty`, if it has one.
fn mode_of(ty: BuiltinType) -> (r: Result<MachineMode, GenError>)
    ensures
        r == lowering::mode_of(ty),
{
    if ty.has_mode() {
        Ok(ty.mode())
    } else {
        Err(GenError::MissingInfo)
    }
}

/// The frame offset of temporary slot `slot`.
fn temp_offset(localsize: i32, slot: i32) -> (r: Result<i32, GenError>)
    ensures
        r == lowering::temp_offset(localsize, slot),
{
    let sum = localsize as i64 + slot as i64;
    if sum > -0x8000_0000 && sum <= 0x7fff_ffff {
        Ok((-sum) as i32)
    } else {
        Err(GenError::TooLarge)
    }
}

/// The expression generator of one function.
pub struct ExprGen<'a> {
    pub ctxt: &'a Context,
    pub fct: &'a Fct,
    pub src: &'a FctSrc,
    pub ast: &'a Function,
    pub masm: &'a mut MacroAssembler,
    pub scopes: &'a Scopes,
    pub rt: &'a mut Runtime,
    pub temps: TempOffsets,
}

impl<'a> ExprGen<'a> {
    /// What the generator reads.
    pub open spec fn env(&self) -> Env {
        Env { ctxt: *self.ctxt, fct_id: self.fct.id, src: *self.src, scopes: self.scopes.all() }
    }

    /// What the generator has made so far.
    pub open spec fn state(&self) -> GenState {
        GenState { masm: self.masm@, temps: self.temps@, rt: self.rt@ }
    }

    /// The invariant: those of the listing, of the set of live reference
    /// slots and of the shared state.
    pub open spec fn wf(&self) -> bool {
        self.masm.wf() && self.temps.wf() && self.rt.wf()
    }

    /// The generator reads what `old` read.
    pub open spec fn same_env(&self, old: &ExprGen<'a>) -> bool {
        &&& self.ctxt == old.ctxt
        &&& self.fct == old.fct
        &&& self.src == old.src
        &&& self.ast == old.ast
        &&& self.scopes == old.scopes
    }

    /// The generator has done what `expected` says, starting from
    /// `before`: on success its state is the expected one, every label it
    /// created is bound or has a trap exit waiting, and every call it
    /// emitted has its safepoint; on failure the error is the expected one.
    pub open spec fn stepped(&self, before: GenState, r: Result<(), GenError>, expected: GenResult) -> bool {
        match expected {
            Ok(s) => {
                &&& r is Ok
                &&& self.state() == s
                &&& self.masm@.unresolved() == before.masm.unresolved()
                &&& self.masm@.uncovered() == before.masm.uncovered()
                &&& self.masm@.extends(before.masm)
            },
            Err(e) => r == Err::<(), GenError>(e),
        }
    }

    /// A generator for expressions of function `fct`, which emits to `masm`.
    pub fn new(
        ctxt: &'a Context,
        fct: &'a Fct,
        src: &'a FctSrc,
        ast: &'a Function,
        masm: &'a mut MacroAssembler,
        scopes: &'a Scopes,
        rt: &'a mut Runtime,
    ) -> (g: ExprGen<'a>)
        requires
            old(masm).wf(),
            old(rt).wf(),
        ensures
            g.wf(),
            g.ctxt == ctxt,
            g.fct == fct,
            g.src == src,
            g.ast == ast,
            g.scopes == scopes,
            g.state() == (GenState { masm: old(masm)@, temps: Set::<i32>::empty(), rt: old(rt)@ }),
            *final(masm) == *final(g.masm),
            *final(rt) == *final(g.rt),
    {
        ExprGen { ctxt, fct, src, ast, masm, scopes, rt, temps: TempOffsets::new() }
    }

    fn reserve_slot(&mut self, ty: BuiltinType, offset: i32) -> (r: Result<(), GenError>)
        requires
            old(self).wf(),
        ensures
            final(self).wf(),
            final(self).same_env(old(self)),
            *final(final(self).masm) == *final(old(self).masm),
            *final(final(self).rt) == *final(old(self).rt),
            final(self).masm@ == old(self).masm@,
            match lowering::reserve_slot(old(self).state(), ty, offset) {
                Ok(s) => r is Ok && final(self).state() == s,
                Err(e) => r == Err::<(), GenError>(e),
            },
    {
        if ty.reference_type() {
            if self.temps.contains(offset) {
                return Err(GenError::TempConflict);
            }
            self.temps.insert(offset);
        }
        Ok(())
    }

    fn free_temp_with_type(&mut self, ty: BuiltinType, offset: i32) -> (r: Result<(), GenError>)
        requires
            old(self).wf(),
        ensures
            final(self).wf(),
            final(self).same_env(old(self)),
            *final(final(self).masm) == *final(old(self).masm),
            *final(final(self).rt) == *final(old(self).rt),
            final(self).masm@ == old(self).masm@,
            match lowering::free_slot(old(self).state(), ty, offset) {
                Ok(s) => r is Ok && final(self).state() == s,
                Err(e) => r == Err::<(), GenError>(e),
            },
    {
        if ty.reference_type() {
            if !self.temps.contains(offset) {
                return Err(GenError::TempConflict);
            }
            self.temps.remove(offset);
        }
        Ok(())
    }

    fn reserve_temp_for_node(&mut self, expr: &Expr) -> (r: Result<i32, GenError>)
        requires
            old(self).wf(),
        ensures
            final(self).wf(),
            final(self).same_env(old(self)),
            *final(final(self).masm) == *final(old(self).masm),
            *final(final(self).rt) == *final(old(self).rt),
            final(self).masm@ == old(self).masm@,
            match lowering::reserve_temp_for_node(old(self).env(), old(self).state(), expr.id()) {
                Ok((s, offset)) => r == Ok::<i32, GenError>(offset) && final(self).state() == s,
                Err(e) => r == Err::<i32, GenError>(e),
            },
    {
        let id = expr.id();
        let ty = match self.src.ty(id) {
            Some(ty) => ty,
            None => return Err(GenError::MissingInfo),
        };
        let slot = match self.src.get_store(id) {
            Store::Temp(slot, _) => slot,
            Store::Reg => return Err(GenError::MissingInfo),
        };
        let offset = match temp_offset(self.src.localsize, slot) {
            Ok(offset) => offset,
            Err(e) => return Err(e),
        };
        match self.reserve_slot(ty, offset) {
            Ok(()) => Ok(offset),
            Err(e) => Err(e),
        }
    }

    fn reserve_temp_for_arg(&mut self, arg: &Arg) -> (r: Result<i32, GenError>)
        requires
            old(self).wf(),
        ensures
            final(self).wf(),
            final(self).same_env(old(self)),
            *final(final(self).masm) == *final(old(self).masm),
            *final(final(self).rt) == *final(old(self).rt),
            final(self).masm@ == old(self).masm@,
            match lowering::reserve_temp_for_arg(old(self).env(), old(self).state(), *arg) {
                Ok((s, offset)) => r == Ok::<i32, GenError>(offset) && final(self).state() == s,
                Err(e) => r == Err::<i32, GenError>(e),
            },
    {
        let offset = match temp_offset(self.src.localsize, arg.offset()) {
            Ok(offset) => offset,
            Err(e) => return Err(e),
        };
        match self.reserve_slot(arg.ty(), offset) {
            Ok(()) => Ok(offset),
            Err(e) => Err(e),
        }
    }

    fn free_temp_for_node(&mut self, expr: &Expr, offset: i32) -> (r: Result<(), GenError>)
        requires
            old(self).wf(),
        ensures
            final(self).wf(),
            final(self).same_env(old(self)),
            *final(final(self).masm) == *final(old(self).masm),
            *final(final(self).rt) == *final(old(self).rt),
            final(self).masm@ == old(self).masm@,
            match lowering::free_temp_for_node(
                old(self).env(),
                old(self).state(),
                expr.id(),
                offset,
            ) {
                Ok(s) => r is Ok && final(self).state() == s,
                Err(e) => r == Err::<(), GenError>(e),
            },
    {
        let ty = match self.src.ty(expr.id()) {
            Some(ty) => ty,
            None => return Err(GenError::MissingInfo),
        };
        self.free_temp_with_type(ty, offset)
    }

    /// The intrinsic that node `id` resolves to, if it resolves to one.
    fn intrinsic(&self, id: NodeId) -> (r: Result<Option<Intrinsic>, GenError>)
        ensures
            r == lowering::intrinsic(self.env(), id),
    {
        let call = match self.src.map_calls.get(id) {
            Some(call) => *call,
            None => return Ok(None),
        };
        let fid = call.fct_id();
        // the function we compile right now is never an intrinsic
        if self.fct.id == fid {
            return Ok(None);
        }
        let fct = match self.ctxt.fct(fid) {
            Some(fct) => fct,
            None => return Err(GenError::MissingInfo),
        };
        match fct.kind {
            FctKind::Builtin(intrinsic) => Ok(Some(intrinsic)),
            _ => Ok(None),
        }
    }

    fn emit_self(&mut self, dest: Reg) -> (r: Result<(), GenError>)
        requires
            old(self).wf(),
        ensures
            final(self).wf(),
            final(self).same_env(old(self)),
            *final(final(self).masm) == *final(old(self).masm),
            *final(final(self).rt) == *final(old(self).rt),
            final(self).stepped(
                old(self).state(),
                r,
                lowering::emit_self(old(self).env(), old(self).state(), dest),
            ),
    {
        let var = match self.src.var_self() {
            Some(var) => var,
            None => return Err(GenError::MissingInfo),
        };
        let mode = match mode_of(var.ty) {
            Ok(mode) => mode,
            Err(e) => return Err(e),
        };
        self.masm.emit_comment(Comment::LoadSelf(var.id));
        self.masm.load_mem(mode, dest, Mem::Local(var.offset));
        Ok(())
    }

    fn emit_nil(&mut self, dest: Reg) -> (r: Result<(), GenError>)
        requires
            old(self).wf(),
        ensures
            final(self).wf(),
            final(self).same_env(old(self)),
            *final(final(self).masm) == *final(old(self).masm),
            *final(final(self).rt) == *final(old(self).rt),
            final(self).stepped(
                old(self).state(),
                r,
                Ok(old(self).state().emit(crate::masm::Insn::LoadIntConst(MachineMode::Ptr, dest, 0))),
            ),
    {
        self.masm.load_nil(dest);
        Ok(())
    }

    fn emit_field_access(&mut self, clsid: ClassId, fieldid: FieldId, src: Reg, dest: ExprStore) -> (r:
        Result<(), GenError>)
        requires
            old(self).wf(),
        ensures
            final(self).wf(),
            final(self).same_env(old(self)),
            *final(final(self).masm) == *final(old(self).masm),
            *final(final(self).rt) == *final(old(self).rt),
            final(self).stepped(
                old(self).state(),
                r,
                lowering::emit_field_access(
                    old(self).env(),
                    old(self).state(),
                    clsid,
                    fieldid,
                    src,
                    dest,
                ),
            ),
    {
        let cls = match self.ctxt.class(clsid) {
            Some(cls) => cls,
            None => return Err(GenError::MissingInfo),
        };
        if fieldid.0 >= cls.fields.len() {
            return Err(GenError::MissingInfo);
        }
        let field = cls.fields[fieldid.0];
        let d = match dest_reg(dest) {
            Ok(d) => d,
            Err(e) => return Err(e),
        };
        let mode = match mode_of(field.ty) {
            Ok(mode) => mode,
            Err(e) => return Err(e),
        };
        self.masm.emit_comment(Comment::LoadField(clsid, fieldid));
        self.masm.load_mem(mode, d, Mem::Base(src, field.offset));
        Ok(())
    }

    fn emit_lit_int(&mut self, value: u64, suffix: IntSuffix, dest: Reg) -> (r: Result<(), GenError>)
        requires
            old(self).wf(),
        ensures
            final(self).wf(),
            final(self).same_env(old(self)),
            *final(final(self).masm) == *final(old(self).masm),
            *final(final(self).rt) == *final(old(self).rt),
            final(self).stepped(
                old(self).state(),
                r,
                lowering::emit_lit_int(old(self).state(), value, suffix, dest),
            ),
    {
        let ty = match suffix {
            IntSuffix::Byte => MachineMode::Int8,
            IntSuffix::Int => MachineMode::Int32,
            IntSuffix::Long => MachineMode::Int64,
        };
        self.masm.load_int_const(ty, dest, #[verifier::truncate] (value as i64));
        Ok(())
    }

    fn emit_lit_float(&mut self, bits: u64, suffix: FloatSuffix, dest: FReg) -> (r: Result<
        (),
        GenError,
    >)
        requires
            old(self).wf(),
        ensures
            final(self).wf(),
            final(self).same_env(old(self)),
            *final(final(self).masm) == *final(old(self).masm),
            *final(final(self).rt) == *final(old(self).rt),
            final(self).stepped(
                old(self).state(),
                r,
                lowering::emit_lit_float(old(self).state(), bits, suffix, dest),
            ),
    {
        let ty = match suffix {
            FloatSuffix::Float => MachineMode::Float32,
            FloatSuffix::Double => MachineMode::Float64,
        };
        if !self.masm.fits() {
            return Err(GenError::TooLarge);
        }
        if let FloatSuffix::Float = suffix {
            if bits > 0xffff_ffff {
                return Err(GenError::TooLarge);
            }
        }
        self.masm.load_float_const(ty, dest, bits);
        Ok(())
    }

    fn emit_lit_bool(&mut self, value: bool, dest: Reg) -> (r: Result<(), GenError>)
        requires
            old(self).wf(),
        ensures
            final(self).wf(),
            final(self).same_env(old(self)),
            *final(final(self).masm) == *final(old(self).masm),
            *final(final(self).rt) == *final(old(self).rt),
            final(self).stepped(
                old(self).state(),
                r,
                lowering::emit_lit_bool(old(self).state(), value, dest),
            ),
    {
        if value {
            self.masm.load_true(dest);
        } else {
            self.masm.load_false(dest);
        }
        Ok(())
    }

    fn emit_lit_str(&mut self, value: &String, dest: Reg) -> (r: Result<(), GenError>)
        requires
            old(self).wf(),
        ensures
            final(self).wf(),
            final(self).same_env(old(self)),
            *final(final(self).masm) == *final(old(self).masm),
            *final(final(self).rt) == *final(old(self).rt),
            final(self).stepped(
                old(self).state(),
                r,
                lowering::emit_lit_str(old(self).state(), value@, dest),
            ),
    {
        let handle = match self.rt.intern(value.as_str().as_bytes()) {
            Some(handle) => handle,
            None => return Err(GenError::OutOfMemory),
        };
        if !self.masm.fits() {
            return Err(GenError::TooLarge);
        }
        let disp = self.masm.add_addr(handle);
        let at = self.masm.pool_disp(disp);
        self.masm.emit_comment(Comment::LoadString(handle));
        self.masm.load_constpool(dest, at);
        Ok(())
    }

    fn emit_ident(&mut self, id: NodeId, dest: ExprStore) -> (r: Result<(), GenError>)
        requires
            old(self).wf(),
        ensures
            final(self).wf(),
            final(self).same_env(old(self)),
            *final(final(self).masm) == *final(old(self).masm),
            *final(final(self).rt) == *final(old(self).rt),
            final(self).stepped(
                old(self).state(),
                r,
                lowering::emit_ident(old(self).env(), old(self).state(), id, dest),
            ),
    {
        let ident = match self.src.map_idents.get(id) {
            Some(ident) => *ident,
            None => return Err(GenError::MissingInfo),
        };
        match ident {
            IdentType::Var(varid) => {
                let d = match dest_reg(dest) {
                    Ok(d) => d,
                    Err(e) => return Err(e),
                };
                self.masm.emit_comment(Comment::LoadVar(varid));
                if self.src.var(varid).is_none() {
                    return Err(GenError::MissingInfo);
                }
                var_load(self.masm, self.src, varid, d);
                Ok(())
            },
            IdentType::Field(cls, field) => {
                match self.emit_self(REG_RESULT) {
                    Ok(()) => {},
                    Err(e) => return Err(e),
                }
                self.emit_field_access(cls, field, REG_RESULT, dest)
            },
            IdentType::Struct(_) => Err(GenError::Unsupported),
        }
    }
}

/// The condition under which comparison `cmp` holds, once its operands are
/// compared.
fn to_cond_code(cmp: CmpOp) -> (r: CondCode)
    ensures
        r == lowering::to_cond_code(cmp),
{
    match cmp {
        CmpOp::Eq => CondCode::Equal,
        CmpOp::Ne => CondCode::NotEqual,
        CmpOp::Gt => CondCode::Greater,
        CmpOp::Ge => CondCode::GreaterEq,
        CmpOp::Lt => CondCode::Less,
        CmpOp::Le => CondCode::LessEq,
        CmpOp::Is => CondCode::Equal,
        CmpOp::IsNot => CondCode::NotEqual,
    }
}

/// Whether a receiver of type `ty` can be null.
fn check_for_nil(ty: BuiltinType) -> (r: bool)
    ensures
        r == lowering::check_for_nil(ty),
{
    match ty {
        BuiltinType::Unit => false,
        BuiltinType::Str => true,
        BuiltinType::Byte
        | BuiltinType::Int
        | BuiltinType::Long
        | BuiltinType::Float
        | BuiltinType::Double
        | BuiltinType::Bool => false,
        BuiltinType::Nil
        | BuiltinType::Ptr
        | BuiltinType::ByteArray
        | BuiltinType::IntArray
        | BuiltinType::LongArray => true,
        BuiltinType::Class(_) => true,
        BuiltinType::Struct(_) => false,
        BuiltinType::This => false,
    }
}

/// The condition of a comparison intrinsic that stands for operator `op`.
fn eq_cond(op: Option<BinOp>) -> (r: CondCode)
    ensures
        r == lowering::eq_cond(op),
{
    match op {
        Some(BinOp::Cmp(c)) => to_cond_code(c),
        _ => CondCode::Equal,
    }
}

impl<'a> ExprGen<'a> {
    fn emit_after_call_insns(&mut self, pos: Position, ty: BuiltinType, dest: ExprStore) -> (r: Result<
        (),
        GenError,
    >)
        requires
            old(self).wf(),
        ensures
            final(self).wf(),
            final(self).same_env(old(self)),
            *final(final(self).masm) == *final(old(self).masm),
            *final(final(self).rt) == *final(old(self).rt),
            match lowering::emit_after_call_insns(
                old(self).env(),
                old(self).state(),
                pos,
                ty,
                dest,
            ) {
                Ok(s) => {
                    &&& r is Ok
                    &&& final(self).state() == s
                    &&& final(self).masm@.unresolved() == old(self).masm@.unresolved()
                    &&& final(self).masm@.uncovered() == old(self).masm@.uncovered().remove(
                        old(self).masm@.insns.len() - 1,
                    )
                },
                Err(e) => r == Err::<(), GenError>(e),
            },
    {
        self.masm.emit_lineno(pos.lineno());
        let gcpoint = create_gcpoint(self.scopes, &self.temps);
        self.masm.emit_gcpoint(gcpoint);
        let d = match dest_reg(dest) {
            Ok(d) => d,
            Err(e) => return Err(e),
        };
        if REG_RESULT != d {
            let mode = match mode_of(ty) {
                Ok(mode) => mode,
                Err(e) => return Err(e),
            };
            self.masm.copy_reg(mode, d, REG_RESULT);
        }
        Ok(())
    }

    fn emit_direct_call_insn(&mut self, ptr: u64, pos: Position, ty: BuiltinType, dest: ExprStore) -> (r:
        Result<(), GenError>)
        requires
            old(self).wf(),
        ensures
            final(self).wf(),
            final(self).same_env(old(self)),
            *final(final(self).masm) == *final(old(self).masm),
            *final(final(self).rt) == *final(old(self).rt),
            final(self).stepped(
                old(self).state(),
                r,
                lowering::emit_direct_call_insn(
                    old(self).env(),
                    old(self).state(),
                    ptr,
                    pos,
                    ty,
                    dest,
                ),
            ),
    {
        if !self.masm.fits() {
            return Err(GenError::TooLarge);
        }
        self.masm.direct_call(ptr);
        let r = self.emit_after_call_insns(pos, ty, dest);
        proof {
            if r is Ok {
                assert(self.masm@.uncovered() =~= old(self).masm@.uncovered());
            }
        }
        r
    }

    fn emit_indirect_call_insn(&mut self, index: u32, pos: Position, ty: BuiltinType, dest: ExprStore) -> (r:
        Result<(), GenError>)
        requires
            old(self).wf(),
        ensures
            final(self).wf(),
            final(self).same_env(old(self)),
            *final(final(self).masm) == *final(old(self).masm),
            *final(final(self).rt) == *final(old(self).rt),
            final(self).stepped(
                old(self).state(),
                r,
                lowering::emit_indirect_call_insn(
                    old(self).env(),
                    old(self).state(),
                    index,
                    pos,
                    ty,
                    dest,
                ),
            ),
    {
        if index > METHOD_INDEX_LIMIT {
            return Err(GenError::TooLarge);
        }
        self.masm.indirect_call(index);
        let r = self.emit_after_call_insns(pos, ty, dest);
        proof {
            if r is Ok {
                assert(self.masm@.uncovered() =~= old(self).masm@.uncovered());
            }
        }
        r
    }

    fn emit_native_call_insn(
        &mut self,
        ptr: u64,
        pos: Position,
        ty: BuiltinType,
        args: i32,
        dest: ExprStore,
    ) -> (r: Result<(), GenError>)
        requires
            old(self).wf(),
        ensures
            final(self).wf(),
            final(self).same_env(old(self)),
            *final(final(self).masm) == *final(old(self).masm),
            *final(final(self).rt) == *final(old(self).rt),
            final(self).stepped(
                old(self).state(),
                r,
                lowering::emit_native_call_insn(
                    old(self).env(),
                    old(self).state(),
                    ptr,
                    pos,
                    ty,
                    args,
                    dest,
                ),
            ),
    {
        let stub = match ensure_native_stub(self.rt, &self.ctxt.entries, FctId(0), ptr, ty, args) {
            Ok(stub) => stub,
            Err(e) => return Err(e),
        };
        self.emit_direct_call_insn(stub, pos, ty, dest)
    }

    /// The address at which function `fid` is called.
    fn ptr_for_fct_id(&mut self, fid: FctId) -> (r: Result<u64, GenError>)
        requires
            old(self).wf(),
        ensures
            final(self).wf(),
            final(self).same_env(old(self)),
            *final(final(self).masm) == *final(old(self).masm),
            *final(final(self).rt) == *final(old(self).rt),
            final(self).masm@ == old(self).masm@,
            final(self).temps@ == old(self).temps@,
            match lowering::ptr_for_fct_id(old(self).env(), old(self).rt@, fid) {
                Ok((rt, ptr)) => r == Ok::<u64, GenError>(ptr) && final(self).rt@ == rt,
                Err(e) => r == Err::<u64, GenError>(e),
            },
    {
        if self.fct.id == fid {
            // we want to recursively invoke the function we are compiling right now
            match ensure_jit_or_stub_ptr(self.src, fid, self.rt) {
                Some(ptr) => Ok(ptr),
                None => Err(GenError::OutOfMemory),
            }
        } else {
            let fct = match self.ctxt.fct(fid) {
                Some(fct) => fct,
                None => return Err(GenError::MissingInfo),
            };
            match &fct.kind {
                FctKind::Source(src) => match ensure_jit_or_stub_ptr(src, fid, self.rt) {
                    Some(ptr) => Ok(ptr),
                    None => Err(GenError::OutOfMemory),
                },
                FctKind::Native(ptr) => {
                    let args = match fct.real_args() {
                        Some(args) => args,
                        None => return Err(GenError::TooLarge),
                    };
                    ensure_native_stub(self.rt, &self.ctxt.entries, fid, *ptr, fct.return_type, args)
                },
                FctKind::Definition => Err(GenError::BadCallee),
                FctKind::Builtin(_) => Err(GenError::BadCallee),
            }
        }
    }

    fn emit_intrinsic_int(
        &mut self,
        dest: Reg,
        lhs: Reg,
        rhs: Reg,
        intr: Intrinsic,
        op: Option<BinOp>,
    ) -> (r: Result<(), GenError>)
        requires
            old(self).wf(),
        ensures
            final(self).wf(),
            final(self).same_env(old(self)),
            *final(final(self).masm) == *final(old(self).masm),
            *final(final(self).rt) == *final(old(self).rt),
            final(self).stepped(
                old(self).state(),
                r,
                lowering::emit_intrinsic_int(old(self).state(), dest, lhs, rhs, intr, op),
            ),
    {
        match intr {
            Intrinsic::ByteEq | Intrinsic::BoolEq | Intrinsic::IntEq | Intrinsic::LongEq => {
                let mode = match intr {
                    Intrinsic::LongEq => MachineMode::Int64,
                    _ => MachineMode::Int32,
                };
                let cond_code = eq_cond(op);
                self.masm.cmp_reg(mode, lhs, rhs);
                self.masm.set(dest, cond_code);
            },
            Intrinsic::ByteCmp | Intrinsic::IntCmp | Intrinsic::LongCmp => {
                let mode = match intr {
                    Intrinsic::LongCmp => MachineMode::Int64,
                    _ => MachineMode::Int32,
                };
                if let Some(BinOp::Cmp(op)) = op {
                    let cond_code = to_cond_code(op);
                    self.masm.cmp_reg(mode, lhs, rhs);
                    self.masm.set(dest, cond_code);
                } else {
                    self.masm.int_sub(mode, dest, lhs, rhs);
                }
            },
            Intrinsic::IntAdd => self.masm.int_add(MachineMode::Int32, dest, lhs, rhs),
            Intrinsic::IntSub => self.masm.int_sub(MachineMode::Int32, dest, lhs, rhs),
            Intrinsic::IntMul => self.masm.int_mul(MachineMode::Int32, dest, lhs, rhs),
            Intrinsic::IntDiv => self.masm.int_div(MachineMode::Int32, dest, lhs, rhs),
            Intrinsic::IntMod => self.masm.int_mod(MachineMode::Int32, dest, lhs, rhs),
            Intrinsic::IntOr => self.masm.int_or(MachineMode::Int32, dest, lhs, rhs),
            Intrinsic::IntAnd => self.masm.int_and(MachineMode::Int32, dest, lhs, rhs),
            Intrinsic::IntXor => self.masm.int_xor(MachineMode::Int32, dest, lhs, rhs),
            Intrinsic::IntShl => self.masm.int_shl(MachineMode::Int32, dest, lhs, rhs),
            Intrinsic::IntSar => self.masm.int_sar(MachineMode::Int32, dest, lhs, rhs),
            Intrinsic::IntShr => self.masm.int_shr(MachineMode::Int32, dest, lhs, rhs),
            Intrinsic::LongAdd => self.masm.int_add(MachineMode::Int64, dest, lhs, rhs),
            Intrinsic::LongSub => self.masm.int_sub(MachineMode::Int64, dest, lhs, rhs),
            Intrinsic::LongMul => self.masm.int_mul(MachineMode::Int64, dest, lhs, rhs),
            Intrinsic::LongDiv => self.masm.int_div(MachineMode::Int64, dest, lhs, rhs),
            Intrinsic::LongMod => self.masm.int_mod(MachineMode::Int64, dest, lhs, rhs),
            Intrinsic::LongOr => self.masm.int_or(MachineMode::Int64, dest, lhs, rhs),
            Intrinsic::LongAnd => self.masm.int_and(MachineMode::Int64, dest, lhs, rhs),
            Intrinsic::LongXor => self.masm.int_xor(MachineMode::Int64, dest, lhs, rhs),
            Intrinsic::LongShl => self.masm.int_shl(MachineMode::Int64, dest, lhs, rhs),
            Intrinsic::LongSar => self.masm.int_sar(MachineMode::Int64, dest, lhs, rhs),
            Intrinsic::LongShr => self.masm.int_shr(MachineMode::Int64, dest, lhs, rhs),
            _ => return Err(GenError::UnexpectedIntrinsic),
        }
        Ok(())
    }

    fn emit_intrinsic_float(
        &mut self,
        dest: ExprStore,
        lhs: FReg,
        rhs: FReg,
        intr: Intrinsic,
        op: Option<BinOp>,
    ) -> (r: Result<(), GenError>)
        requires
            old(self).wf(),
        ensures
            final(self).wf(),
            final(self).same_env(old(self)),
            *final(final(self).masm) == *final(old(self).masm),
            *final(final(self).rt) == *final(old(self).rt),
            final(self).stepped(
                old(self).state(),
                r,
                lowering::emit_intrinsic_float(old(self).state(), dest, lhs, rhs, intr, op),
            ),
    {
        match intr {
            Intrinsic::FloatEq | Intrinsic::DoubleEq => {
                let mode = match intr {
                    Intrinsic::DoubleEq => MachineMode::Float64,
                    _ => MachineMode::Float32,
                };
                let cond_code = eq_cond(op);
                let d = match dest_reg(dest) {
                    Ok(d) => d,
                    Err(e) => return Err(e),
                };
                self.masm.cmp_freg(mode, lhs, rhs);
                self.masm.set(d, cond_code);
                Ok(())
            },
            Intrinsic::FloatCmp | Intrinsic::DoubleCmp => {
                let mode = match intr {
                    Intrinsic::DoubleCmp => MachineMode::Float64,
                    _ => MachineMode::Float32,
                };
                let cond_code = eq_cond(op);
                let d = match dest_reg(dest) {
                    Ok(d) => d,
                    Err(e) => return Err(e),
                };
                self.masm.cmp_freg(mode, lhs, rhs);
                self.masm.set(d, cond_code);
                Ok(())
            },
            Intrinsic::FloatAdd
            | Intrinsic::FloatSub
            | Intrinsic::FloatMul
            | Intrinsic::FloatDiv
            | Intrinsic::DoubleAdd
            | Intrinsic::DoubleSub
            | Intrinsic::DoubleMul
            | Intrinsic::DoubleDiv => {
                let d = match dest_freg(dest) {
                    Ok(d) => d,
                    Err(e) => return Err(e),
                };
                match intr {
                    Intrinsic::FloatAdd => self.masm.float_add(MachineMode::Float32, d, lhs, rhs),
                    Intrinsic::FloatSub => self.masm.float_sub(MachineMode::Float32, d, lhs, rhs),
                    Intrinsic::FloatMul => self.masm.float_mul(MachineMode::Float32, d, lhs, rhs),
                    Intrinsic::FloatDiv => self.masm.float_div(MachineMode::Float32, d, lhs, rhs),
                    Intrinsic::DoubleAdd => self.masm.float_add(MachineMode::Float64, d, lhs, rhs),
                    Intrinsic::DoubleSub => self.masm.float_sub(MachineMode::Float64, d, lhs, rhs),
                    Intrinsic::DoubleMul => self.masm.float_mul(MachineMode::Float64, d, lhs, rhs),
                    _ => self.masm.float_div(MachineMode::Float64, d, lhs, rhs),
                }
                Ok(())
            },
            _ => Err(GenError::UnexpectedIntrinsic),
        }
    }

    /// Emits the inline allocation of an instance of class `cls_id`.
    fn emit_alloc(&mut self, cls_id: ClassId, pos: Position, dest: ExprStore) -> (r: Result<
        (),
        GenError,
    >)
        requires
            old(self).wf(),
        ensures
            final(self).wf(),
            final(self).same_env(old(self)),
            *final(final(self).masm) == *final(old(self).masm),
            *final(final(self).rt) == *final(old(self).rt),
            final(self).stepped(
                old(self).state(),
                r,
                lowering::emit_alloc(old(self).env(), old(self).state(), cls_id, pos, dest),
            ),
    {
        let cls = match self.ctxt.class(cls_id) {
            Some(cls) => cls,
            None => return Err(GenError::MissingInfo),
        };
        let vtable = match &cls.vtable {
            Some(vtable) => vtable,
            None => return Err(GenError::MissingInfo),
        };
        // allocate storage for object
        self.masm.emit_comment(Comment::Alloc(cls_id));
        self.masm.load_int_const(MachineMode::Int32, REG_PARAMS[0], cls.size as i64);
        let mptr = self.ctxt.entries.gc_alloc;
        match self.emit_native_call_insn(mptr, pos, BuiltinType::Ptr, 1, dest) {
            Ok(()) => {},
            Err(e) => return Err(e),
        }
        let d = match dest_reg(dest) {
            Ok(d) => d,
            Err(e) => return Err(e),
        };
        self.masm.test_if_nil_bailout(pos, d, Trap::OOM);
        if !self.masm.fits() {
            return Err(GenError::TooLarge);
        }
        // store classptr in object
        let disp = self.masm.add_addr(vtable.ptr);
        let at = self.masm.pool_disp(disp);
        self.masm.emit_comment(Comment::StoreVTable(cls_id));
        self.masm.load_constpool(REG_TMP1, at);
        self.masm.store_mem(MachineMode::Ptr, Mem::Base(REG_RESULT, 0), REG_TMP1);
        Ok(())
    }
}

impl<'a> ExprGen<'a> {
    /// Moves the arguments of a call from their slots to where the callee
    /// expects them.
    fn marshal_args(
        &mut self,
        id: NodeId,
        pos: Position,
        csite: &CallSite,
        temps: &Vec<(BuiltinType, i32)>,
        stacksize: i32,
    ) -> (r: Result<(), GenError>)
        requires
            old(self).wf(),
            0 <= stacksize,
        ensures
            final(self).wf(),
            final(self).same_env(old(self)),
            *final(final(self).masm) == *final(old(self).masm),
            *final(final(self).rt) == *final(old(self).rt),
            final(self).stepped(
                old(self).state(),
                r,
                lowering::marshal_args(
                    old(self).env(),
                    old(self).state(),
                    id,
                    pos,
                    csite.args@,
                    temps@,
                    0,
                    (-stacksize) as i32,
                ),
            ),
    {
        let mut arg_offset: i32 = -stacksize;
        let mut ind: usize = 0;
        while ind < csite.args.len() && ind < temps.len()
            invariant
                self.wf(),
                self.same_env(old(self)),
                *final(self.masm) == *final(old(self).masm),
                *final(self.rt) == *final(old(self).rt),
                self.masm@.unresolved() == old(self).masm@.unresolved(),
                self.masm@.uncovered() == old(self).masm@.uncovered(),
                self.masm@.extends(old(self).masm@),
                lowering::marshal_args(
                    self.env(),
                    self.state(),
                    id,
                    pos,
                    csite.args@,
                    temps@,
                    ind as int,
                    arg_offset,
                ) == lowering::marshal_args(
                    old(self).env(),
                    old(self).state(),
                    id,
                    pos,
                    csite.args@,
                    temps@,
                    0,
                    (-stacksize) as i32,
                ),
            decreases csite.args.len() - ind,
        {
            let ty = csite.args[ind].ty();
            let offset = temps[ind].1;
            let mode = match mode_of(ty) {
                Ok(mode) => mode,
                Err(e) => return Err(e),
            };
            if ind < REG_PARAMS.len() {
                let reg = REG_PARAMS[ind];
                self.masm.load_mem(mode, reg, Mem::Local(offset));
                if ind == 0 {
                    let checked = match self.src.map_calls.get(id) {
                        Some(call_type) => call_type.is_method() && check_for_nil(ty),
                        None => false,
                    };
                    if checked {
                        self.masm.test_if_nil_bailout(pos, reg, Trap::NIL);
                    }
                }
            } else {
                if arg_offset > 0x7fff_ffff - 8 {
                    return Err(GenError::TooLarge);
                }
                self.masm.load_mem(mode, REG_TMP1, Mem::Local(offset));
                self.masm.store_mem(mode, Mem::Local(arg_offset), REG_TMP1);
                arg_offset += 8;
            }
            ind += 1;
        }
        Ok(())
    }

    /// Emits the call instruction of a call site, with what follows it.
    fn dispatch(&mut self, csite: &CallSite, pos: Position, dest: ExprStore) -> (r: Result<
        (),
        GenError,
    >)
        requires
            old(self).wf(),
        ensures
            final(self).wf(),
            final(self).same_env(old(self)),
            *final(final(self).masm) == *final(old(self).masm),
            *final(final(self).rt) == *final(old(self).rt),
            final(self).stepped(
                old(self).state(),
                r,
                lowering::dispatch(old(self).env(), old(self).state(), *csite, pos, dest),
            ),
    {
        match csite.callee {
            Callee::Fct(fid) => {
                let fct = match self.ctxt.fct(fid) {
                    Some(fct) => fct,
                    None => return Err(GenError::MissingInfo),
                };
                if csite.super_call {
                    let ptr = match self.ptr_for_fct_id(fid) {
                        Ok(ptr) => ptr,
                        Err(e) => return Err(e),
                    };
                    self.masm.emit_comment(Comment::CallSuper(fid));
                    self.emit_direct_call_insn(ptr, pos, csite.return_type, dest)
                } else if fct.is_virtual() {
                    let vtable_index = match fct.vtable_index {
                        Some(index) => index,
                        None => return Err(GenError::MissingInfo),
                    };
                    self.masm.emit_comment(Comment::CallVirtual(fid));
                    self.emit_indirect_call_insn(vtable_index, pos, csite.return_type, dest)
                } else {
                    let ptr = match self.ptr_for_fct_id(fid) {
                        Ok(ptr) => ptr,
                        Err(e) => return Err(e),
                    };
                    self.masm.emit_comment(Comment::CallDirect(fid));
                    self.emit_direct_call_insn(ptr, pos, csite.return_type, dest)
                }
            },
            Callee::Ptr(ptr) => {
                if csite.args.len() > 0x7fff_ffff {
                    return Err(GenError::TooLarge);
                }
                self.emit_native_call_insn(
                    ptr,
                    pos,
                    csite.return_type,
                    csite.args.len() as i32,
                    dest,
                )
            },
        }
    }

    /// Gives up the slots of a call's arguments.
    fn free_temps(&mut self, temps: &Vec<(BuiltinType, i32)>) -> (r: Result<(), GenError>)
        requires
            old(self).wf(),
        ensures
            final(self).wf(),
            final(self).same_env(old(self)),
            *final(final(self).masm) == *final(old(self).masm),
            *final(final(self).rt) == *final(old(self).rt),
            final(self).stepped(
                old(self).state(),
                r,
                lowering::free_temps(old(self).state(), temps@, 0),
            ),
    {
        let mut i: usize = 0;
        while i < temps.len()
            invariant
                self.wf(),
                self.same_env(old(self)),
                *final(self.masm) == *final(old(self).masm),
                *final(self.rt) == *final(old(self).rt),
                self.masm@ == old(self).masm@,
                lowering::free_temps(self.state(), temps@, i as int) == lowering::free_temps(
                    old(self).state(),
                    temps@,
                    0,
                ),
            decreases temps.len() - i,
        {
            let temp = temps[i];
            match self.free_temp_with_type(temp.0, temp.1) {
                Ok(()) => {},
                Err(e) => return Err(e),
            }
            i += 1;
        }
        Ok(())
    }

    /// The end of a call, once the arguments are in their slots.
    fn call_tail(
        &mut self,
        csite: &CallSite,
        id: NodeId,
        pos: Position,
        dest: ExprStore,
        temps: &Vec<(BuiltinType, i32)>,
    ) -> (r: Result<(), GenError>)
        requires
            old(self).wf(),
        ensures
            final(self).wf(),
            final(self).same_env(old(self)),
            *final(final(self).masm) == *final(old(self).masm),
            *final(final(self).rt) == *final(old(self).rt),
            final(self).stepped(
                old(self).state(),
                r,
                lowering::call_tail(
                    old(self).env(),
                    old(self).state(),
                    *csite,
                    id,
                    pos,
                    dest,
                    temps@,
                ),
            ),
    {
        let stacksize = match self.src.stacksize() {
            Some(stacksize) => stacksize,
            None => return Err(GenError::TooLarge),
        };
        match self.marshal_args(id, pos, csite, temps, stacksize) {
            Ok(()) => {},
            Err(e) => return Err(e),
        }
        match self.dispatch(csite, pos, dest) {
            Ok(()) => {},
            Err(e) => return Err(e),
        }
        if csite.args.len() > 0 && temps.len() > 0 {
            if let Arg::SelfieNew(_, _) = csite.args[0] {
                let (ty, offset) = temps[0];
                let mode = match mode_of(ty) {
                    Ok(mode) => mode,
                    Err(e) => return Err(e),
                };
                let d = match dest_reg(dest) {
                    Ok(d) => d,
                    Err(e) => return Err(e),
                };
                self.masm.load_mem(mode, d, Mem::Local(offset));
            }
        }
        self.free_temps(temps)
    }

    /// Spills `src`, the value of `expr`, to the slot planned for `expr`.
    fn spill(&mut self, expr: &Expr, mode: MachineMode, src: Reg) -> (r: Result<i32, GenError>)
        requires
            old(self).wf(),
        ensures
            final(self).wf(),
            final(self).same_env(old(self)),
            *final(final(self).masm) == *final(old(self).masm),
            *final(final(self).rt) == *final(old(self).rt),
            match lowering::spill(old(self).env(), old(self).state(), expr.id(), mode, src) {
                Ok((s, offset)) => {
                    &&& r == Ok::<i32, GenError>(offset)
                    &&& final(self).state() == s
                    &&& final(self).masm@.unresolved() == old(self).masm@.unresolved()
                    &&& final(self).masm@.uncovered() == old(self).masm@.uncovered()
                },
                Err(e) => r == Err::<i32, GenError>(e),
            },
    {
        let offset = match self.reserve_temp_for_node(expr) {
            Ok(offset) => offset,
            Err(e) => return Err(e),
        };
        self.masm.store_mem(mode, Mem::Local(offset), src);
        Ok(offset)
    }
}

impl<'a> ExprGen<'a> {
    fn un_intrinsic(&mut self, intrinsic: Intrinsic, dest: ExprStore) -> (r: Result<(), GenError>)
        requires
            old(self).wf(),
        ensures
            final(self).wf(),
            final(self).same_env(old(self)),
            *final(final(self).masm) == *final(old(self).masm),
            *final(final(self).rt) == *final(old(self).rt),
            final(self).stepped(
                old(self).state(),
                r,
                lowering::un_intrinsic(old(self).state(), intrinsic, dest),
            ),
    {
        match intrinsic {
            Intrinsic::IntPlus | Intrinsic::LongPlus => {},
            Intrinsic::IntNeg | Intrinsic::LongNeg => {
                let dest = match dest_reg(dest) {
            Ok(v) => v,
            Err(e) => return Err(e),
        };
                let mode = match intrinsic {
                    Intrinsic::IntNeg => MachineMode::Int32,
                    _ => MachineMode::Int64,
                };
                self.masm.int_neg(mode, dest, dest);
            },
            Intrinsic::ByteNot => {
                let dest = match dest_reg(dest) {
            Ok(v) => v,
            Err(e) => return Err(e),
        };
                self.masm.int_not(MachineMode::Int8, dest, dest)
            },
            Intrinsic::IntNot | Intrinsic::LongNot => {
                let dest = match dest_reg(dest) {
            Ok(v) => v,
            Err(e) => return Err(e),
        };
                let mode = match intrinsic {
                    Intrinsic::IntNot => MachineMode::Int32,
                    _ => MachineMode::Int64,
                };
                self.masm.int_not(mode, dest, dest);
            },
            Intrinsic::BoolNot => {
                let dest = match dest_reg(dest) {
            Ok(v) => v,
            Err(e) => return Err(e),
        };
                self.masm.bool_not(dest, dest)
            },
            _ => return Err(GenError::UnexpectedIntrinsic),
        }
        Ok(())
    }

    /// Emits the subtype test against a class whose ancestors are listed in
    /// the display at its depth.
    fn display_test(&mut self, depth: i32, is_test: bool, pos: Position, offset: i32, dest: Reg)
        requires
            old(self).wf(),
            0 <= depth,
            in_display(depth),
        ensures
            final(self).wf(),
            final(self).same_env(old(self)),
            *final(final(self).masm) == *final(old(self).masm),
            *final(final(self).rt) == *final(old(self).rt),
            final(self).state() == old(self).state().with(
                lowering::display_test(old(self).masm@, depth, is_test, pos, offset, dest),
            ),
            final(self).masm@.unresolved() == old(self).masm@.unresolved(),
            final(self).masm@.uncovered() == old(self).masm@.uncovered(),
    {
        let display_entry = offset_of_display_entry(depth);
        // tmp1 = vtable of object
        // tmp2 = vtable of T
        // cmp [tmp1 + offset], tmp2
        self.masm.cmp_mem(MachineMode::Ptr, Mem::Base(REG_TMP1, display_entry), REG_TMP2);
        if is_test {
            self.masm.set(dest, CondCode::Equal);
        } else {
            let lbl_bailout = self.masm.create_label();
            self.masm.jump_if(CondCode::NotEqual, lbl_bailout);
            self.masm.emit_bailout(lbl_bailout, Trap::CAST, pos);
            self.masm.load_mem(MachineMode::Ptr, dest, Mem::Local(offset));
            assert(self.masm@.unresolved() =~= old(self).masm@.unresolved());
        }
    }

    /// Emits the subtype test against a class that is listed in the
    /// overflow list of its descendants.
    fn overflow_test(&mut self, depth: i32, is_test: bool, pos: Position, offset: i32, dest: Reg)
        requires
            old(self).wf(),
            !in_display(depth),
            depth <= DEPTH_LIMIT,
        ensures
            final(self).wf(),
            final(self).same_env(old(self)),
            *final(final(self).masm) == *final(old(self).masm),
            *final(final(self).rt) == *final(old(self).rt),
            final(self).state() == old(self).state().with(
                lowering::overflow_test(old(self).masm@, depth, is_test, pos, offset, dest),
            ),
            final(self).masm@.unresolved() == old(self).masm@.unresolved(),
            final(self).masm@.uncovered() == old(self).masm@.uncovered(),
    {
        // cmp [tmp1 + offset T.vtable.subtype_depth], tmp3
        self.masm.cmp_mem_imm(MachineMode::Int32, Mem::Base(REG_TMP1, offset_of_depth()), depth);
        // jnz lbl_false
        let lbl_false = self.masm.create_label();
        self.masm.jump_if(CondCode::Less, lbl_false);
        // tmp1 = tmp1.subtype_overflow
        self.masm.load_mem(MachineMode::Ptr, REG_TMP1, Mem::Base(REG_TMP1, offset_of_overflow()));
        let overflow_offset = offset_in_overflow(depth);
        // cmp [tmp1 + 8*(vtable.subtype_depth - DISPLAY_SIZE) ], tmp2
        self.masm.cmp_mem(MachineMode::Ptr, Mem::Base(REG_TMP1, overflow_offset), REG_TMP2);
        if is_test {
            // dest = if zero then true else false
            self.masm.set(dest, CondCode::Equal);
        } else {
            // jump to lbl_false if cmp did not succeed
            self.masm.jump_if(CondCode::NonZero, lbl_false);
            // otherwise load temp variable again
            self.masm.load_mem(MachineMode::Ptr, dest, Mem::Local(offset));
        }
        // jmp lbl_finished
        let lbl_finished = self.masm.create_label();
        self.masm.jump(lbl_finished);
        // lbl_false:
        assert(self.masm@.unresolved().contains(lbl_false));
        self.masm.bind_label(lbl_false);
        if is_test {
            // dest = false
            self.masm.load_false(dest);
        } else {
            // bailout
            self.masm.emit_bailout_inplace(Trap::CAST, pos);
        }
        // lbl_finished:
        assert(self.masm@.unresolved().contains(lbl_finished));
        self.masm.bind_label(lbl_finished);
        assert(self.masm@.unresolved() =~= old(self).masm@.unresolved());
    }

    /// Emits the subtype test of the object in `dest` against the class
    /// whose dispatch table lies at `vtable_ptr` and has depth `depth`.
    fn subtype_test(
        &mut self,
        vtable_ptr: u64,
        depth: i32,
        is_test: bool,
        pos: Position,
        object: &Expr,
        dest: Reg,
    ) -> (r: Result<(), GenError>)
        requires
            old(self).wf(),
        ensures
            final(self).wf(),
            final(self).same_env(old(self)),
            *final(final(self).masm) == *final(old(self).masm),
            *final(final(self).rt) == *final(old(self).rt),
            final(self).stepped(
                old(self).state(),
                r,
                lowering::subtype_test(
                    old(self).env(),
                    old(self).state(),
                    vtable_ptr,
                    depth,
                    is_test,
                    pos,
                    object.id(),
                    dest,
                ),
            ),
    {
        let offset = if is_test {
            0
        } else {
            // reserve temp variable for object
            match self.spill(object, MachineMode::Ptr, dest) {
            Ok(v) => v,
            Err(e) => return Err(e),
        }
        };
        // object instanceof T
        // tmp1 = <vtable of object>
        self.masm.load_mem(MachineMode::Ptr, REG_TMP1, Mem::Base(dest, 0));
        if !self.masm.fits() {
            return Err(GenError::TooLarge);
        }
        if depth < 0 {
            return Err(GenError::MissingInfo);
        }
        if depth > DEPTH_LIMIT {
            return Err(GenError::TooLarge);
        }
        let disp = self.masm.add_addr(vtable_ptr);
        let at = self.masm.pool_disp(disp);
        // tmp2 = <vtable of T>
        self.masm.load_constpool(REG_TMP2, at);
        if !in_display(depth) {
            self.overflow_test(depth, is_test, pos, offset, dest);
        } else {
            self.display_test(depth, is_test, pos, offset, dest);
        }
        if !is_test {
            match self.free_temp_for_node(object, offset) {
            Ok(v) => v,
            Err(e) => return Err(e),
        };
        }
        Ok(())
    }

    /// Emits the test or cast of the object in `dest`, the value of
    /// `object`, to the type of node `id`.
    fn conv_check(&mut self, id: NodeId, is_test: bool, pos: Position, object: &Expr, dest: Reg) -> (r:
        Result<(), GenError>)
        requires
            old(self).wf(),
        ensures
            final(self).wf(),
            final(self).same_env(old(self)),
            *final(final(self).masm) == *final(old(self).masm),
            *final(final(self).rt) == *final(old(self).rt),
            final(self).stepped(
                old(self).state(),
                r,
                lowering::conv_check(
                    old(self).env(),
                    old(self).state(),
                    id,
                    is_test,
                    pos,
                    object.id(),
                    dest,
                ),
            ),
    {
        // return false if object is nil
        let lbl_nil = self.masm.test_if_nil(dest);
        let conv = match self.src.map_convs.get(id) {
            Some(conv) => *conv,
            None => return Err(GenError::MissingInfo),
        };
        if conv.valid {
            if is_test {
                // return true for object is T
                self.masm.load_true(dest);
            } else {
                // do nothing for object as T
            }
        } else {
            let cls = match self.ctxt.class(conv.cls_id) {
                Some(cls) => cls,
                None => return Err(GenError::MissingInfo),
            };
            let vtable = match &cls.vtable {
                Some(vtable) => vtable,
                None => return Err(GenError::MissingInfo),
            };
            match self.subtype_test(vtable.ptr, vtable.subtype_depth, is_test, pos, object, dest) {
            Ok(v) => v,
            Err(e) => return Err(e),
        };
        }
        // lbl_nil:
        assert(self.masm@.unresolved().contains(lbl_nil));
        self.masm.bind_label(lbl_nil);
        assert(self.masm@.unresolved() =~= old(self).masm@.unresolved());
        // for is we are finished: dest is null which is boolean false
        // also for as we are finished: dest is null and stays null
        Ok(())
    }

    fn array_get_tail(
        &mut self,
        pos: Position,
        mode: MachineMode,
        object: &Expr,
        offset: i32,
        dest: Reg,
    ) -> (r: Result<(), GenError>)
        requires
            old(self).wf(),
        ensures
            final(self).wf(),
            final(self).same_env(old(self)),
            *final(final(self).masm) == *final(old(self).masm),
            *final(final(self).rt) == *final(old(self).rt),
            final(self).stepped(
                old(self).state(),
                r,
                lowering::array_get_tail(
                    old(self).env(),
                    old(self).state(),
                    pos,
                    mode,
                    object.id(),
                    offset,
                    dest,
                ),
            ),
    {
        self.masm.load_mem(MachineMode::Ptr, REG_RESULT, Mem::Local(offset));
        if !self.ctxt.args.flag_omit_bounds_check {
            self.masm.check_index_out_of_bounds(pos, REG_RESULT, REG_TMP1, REG_TMP2);
        }
        self.masm.load_array_elem(mode, REG_RESULT, REG_RESULT, REG_TMP1);
        match self.free_temp_for_node(object, offset) {
            Ok(v) => v,
            Err(e) => return Err(e),
        };
        if dest != REG_RESULT {
            self.masm.copy_reg(mode, dest, REG_RESULT);
        }
        Ok(())
    }

    fn array_set_tail(
        &mut self,
        pos: Position,
        mode: MachineMode,
        object: &Expr,
        index: &Expr,
        rhs: &Expr,
        offsets: (i32, i32, i32),
        dest: Reg,
    ) -> (r: Result<(), GenError>)
        requires
            old(self).wf(),
        ensures
            final(self).wf(),
            final(self).same_env(old(self)),
            *final(final(self).masm) == *final(old(self).masm),
            *final(final(self).rt) == *final(old(self).rt),
            final(self).stepped(
                old(self).state(),
                r,
                lowering::array_set_tail(
                    old(self).env(),
                    old(self).state(),
                    pos,
                    mode,
                    (object.id(), index.id(), rhs.id()),
                    offsets,
                    dest,
                ),
            ),
    {
        self.masm.load_mem(MachineMode::Ptr, REG_TMP1, Mem::Local(offsets.0));
        self.masm.load_mem(MachineMode::Int32, REG_TMP2, Mem::Local(offsets.1));
        if !self.ctxt.args.flag_omit_bounds_check {
            self.masm.check_index_out_of_bounds(pos, REG_TMP1, REG_TMP2, REG_RESULT);
        }
        self.masm.load_mem(mode, REG_RESULT, Mem::Local(offsets.2));
        self.masm.store_array_elem(mode, REG_TMP1, REG_TMP2, REG_RESULT);
        match self.free_temp_for_node(object, offsets.0) {
            Ok(v) => v,
            Err(e) => return Err(e),
        };
        match self.free_temp_for_node(index, offsets.1) {
            Ok(v) => v,
            Err(e) => return Err(e),
        };
        match self.free_temp_for_node(rhs, offsets.2) {
            Ok(v) => v,
            Err(e) => return Err(e),
        };
        if dest != REG_RESULT {
            self.masm.copy_reg(mode, dest, REG_RESULT);
        }
        Ok(())
    }

    fn field_store_tail(
        &mut self,
        clsid: ClassId,
        fieldid: FieldId,
        mode: MachineMode,
        field_offset: i32,
        temp: &Expr,
        temp_offset: i32,
        dest: ExprStore,
    ) -> (r: Result<(), GenError>)
        requires
            old(self).wf(),
        ensures
            final(self).wf(),
            final(self).same_env(old(self)),
            *final(final(self).masm) == *final(old(self).masm),
            *final(final(self).rt) == *final(old(self).rt),
            final(self).stepped(
                old(self).state(),
                r,
                lowering::field_store_tail(
                    old(self).env(),
                    old(self).state(),
                    clsid,
                    fieldid,
                    mode,
                    field_offset,
                    temp.id(),
                    temp_offset,
                    dest,
                ),
            ),
    {
        self.masm.load_mem(MachineMode::Ptr, REG_TMP1, Mem::Local(temp_offset));
        self.masm.emit_comment(Comment::StoreField(clsid, fieldid));
        self.masm.store_mem(mode, Mem::Base(REG_TMP1, field_offset), REG_RESULT);
        match self.free_temp_for_node(temp, temp_offset) {
            Ok(v) => v,
            Err(e) => return Err(e),
        };
        let d = match dest_reg(dest) {
            Ok(v) => v,
            Err(e) => return Err(e),
        };
        if REG_RESULT != d {
            self.masm.copy_reg(mode, d, REG_RESULT);
        }
        Ok(())
    }

    fn identity_tail(&mut self, op: BinOp, lhs: &Expr, offset: i32, dest: ExprStore) -> (r: Result<
        (),
        GenError,
    >)
        requires
            old(self).wf(),
        ensures
            final(self).wf(),
            final(self).same_env(old(self)),
            *final(final(self).masm) == *final(old(self).masm),
            *final(final(self).rt) == *final(old(self).rt),
            final(self).stepped(
                old(self).state(),
                r,
                lowering::identity_tail(
                    old(self).env(),
                    old(self).state(),
                    op,
                    lhs.id(),
                    offset,
                    dest,
                ),
            ),
    {
        self.masm.load_mem(MachineMode::Ptr, REG_RESULT, Mem::Local(offset));
        self.masm.cmp_reg(MachineMode::Ptr, REG_RESULT, REG_TMP1);
        let op = match op {
            BinOp::Cmp(CmpOp::Is) => CondCode::Equal,
            _ => CondCode::NotEqual,
        };
        let d = match dest_reg(dest) {
            Ok(v) => v,
            Err(e) => return Err(e),
        };
        self.masm.set(d, op);
        self.free_temp_for_node(lhs, offset)
    }

    fn after_operator_call(&mut self, op: BinOp, dest: ExprStore) -> (r: Result<(), GenError>)
        requires
            old(self).wf(),
        ensures
            final(self).wf(),
            final(self).same_env(old(self)),
            *final(final(self).masm) == *final(old(self).masm),
            *final(final(self).rt) == *final(old(self).rt),
            final(self).stepped(
                old(self).state(),
                r,
                lowering::after_operator_call(old(self).state(), op, dest),
            ),
    {
        match op {
            BinOp::Cmp(CmpOp::Eq) => {},
            BinOp::Cmp(CmpOp::Ne) => {
                let dest = match dest_reg(dest) {
            Ok(v) => v,
            Err(e) => return Err(e),
        };
                self.masm.bool_not(dest, dest);
            },
            BinOp::Cmp(op) => {
                let dest = match dest_reg(dest) {
            Ok(v) => v,
            Err(e) => return Err(e),
        };
                let temp = if dest == REG_RESULT {
                    REG_TMP1
                } else {
                    REG_RESULT
                };
                self.masm.load_int_const(MachineMode::Int32, temp, 0);
                self.masm.cmp_reg(MachineMode::Int32, dest, temp);
                self.masm.set(dest, to_cond_code(op));
            },
            _ => {},
        }
        Ok(())
    }

    fn short_circuit_tail(&mut self, lbl_true: Label, lbl_false: Label, lbl_end: Label, dest: Reg)
        requires
            old(self).wf(),
            lbl_true != lbl_false,
            lbl_true != lbl_end,
            lbl_false != lbl_end,
            old(self).masm@.open_label(lbl_true),
            old(self).masm@.open_label(lbl_false),
            old(self).masm@.open_label(lbl_end),
        ensures
            final(self).wf(),
            final(self).same_env(old(self)),
            *final(final(self).masm) == *final(old(self).masm),
            *final(final(self).rt) == *final(old(self).rt),
            final(self).state() == old(self).state().with(
                lowering::short_circuit_tail(old(self).masm@, lbl_true, lbl_false, lbl_end, dest),
            ),
            final(self).masm@.unresolved() == old(self).masm@.unresolved().remove(lbl_true).remove(
                lbl_false,
            ).remove(lbl_end),
            final(self).masm@.uncovered() == old(self).masm@.uncovered(),
    {
        self.masm.test_and_jump_if(CondCode::Zero, REG_RESULT, lbl_false);
        assert(self.masm@.unresolved().contains(lbl_true));
        self.masm.bind_label(lbl_true);
        self.masm.load_true(dest);
        assert(self.masm@.unresolved().contains(lbl_end));
        self.masm.jump(lbl_end);
        assert(self.masm@.unresolved().contains(lbl_false));
        self.masm.bind_label(lbl_false);
        self.masm.load_false(dest);
        assert(self.masm@.unresolved().contains(lbl_end));
        self.masm.bind_label(lbl_end);
    }
}

impl<'a> ExprGen<'a> {
    /// Emits the code that leaves the value of `e` in `dest`.
    fn emit_expr(&mut self, e: &Expr, dest: ExprStore) -> (r: Result<(), GenError>)
        requires
            old(self).wf(),
        ensures
            final(self).wf(),
            final(self).same_env(old(self)),
            *final(final(self).masm) == *final(old(self).masm),
            *final(final(self).rt) == *final(old(self).rt),
            final(self).stepped(
                old(self).state(),
                r,
                lowering::emit_expr(old(self).env(), old(self).state(), *e, dest),
            ),
        decreases e, 4int, 0int,
    {
        match e {
            Expr::ExprLitInt(expr) => {
                let d = match dest_reg(dest) {
                    Ok(v) => v,
                    Err(e) => return Err(e),
                };
                self.emit_lit_int(expr.value, expr.suffix, d)
            },
            Expr::ExprLitFloat(expr) => {
                let d = match dest_freg(dest) {
                    Ok(v) => v,
                    Err(e) => return Err(e),
                };
                self.emit_lit_float(expr.bits, expr.suffix, d)
            },
            Expr::ExprLitBool(expr) => {
                let d = match dest_reg(dest) {
                    Ok(v) => v,
                    Err(e) => return Err(e),
                };
                self.emit_lit_bool(expr.value, d)
            },
            Expr::ExprLitStr(expr) => {
                let d = match dest_reg(dest) {
                    Ok(v) => v,
                    Err(e) => return Err(e),
                };
                self.emit_lit_str(&expr.value, d)
            },
            Expr::ExprLitStruct(_) => Err(GenError::Unsupported),
            Expr::ExprUn(expr) => self.emit_un(e, expr, dest),
            Expr::ExprIdent(expr) => self.emit_ident(expr.id, dest),
            Expr::ExprAssign(expr) => self.emit_assign(e, expr, dest),
            Expr::ExprBin(expr) => self.emit_bin(e, expr, dest),
            Expr::ExprCall(expr) => self.emit_call(e, expr, dest),
            Expr::ExprDelegation(expr) => self.emit_delegation(e, expr, dest),
            Expr::ExprField(expr) => self.emit_field(expr, dest),
            Expr::ExprSelf(_) => {
                let d = match dest_reg(dest) {
                    Ok(v) => v,
                    Err(e) => return Err(e),
                };
                self.emit_self(d)
            },
            Expr::ExprSuper(_) => {
                let d = match dest_reg(dest) {
                    Ok(v) => v,
                    Err(e) => return Err(e),
                };
                self.emit_self(d)
            },
            Expr::ExprNil(_) => {
                let d = match dest_reg(dest) {
                    Ok(v) => v,
                    Err(e) => return Err(e),
                };
                self.emit_nil(d)
            },
            Expr::ExprArray(expr) => self.emit_array(e, expr, dest),
            Expr::ExprConv(expr) => {
                let d = match dest_reg(dest) {
                    Ok(v) => v,
                    Err(e) => return Err(e),
                };
                self.emit_conv(expr, d)
            },
            Expr::ExprTry(expr) => self.emit_try(expr, dest),
        }
    }

    fn emit_try(&mut self, e: &ExprTryType, dest: ExprStore) -> (r: Result<(), GenError>)
        requires
            old(self).wf(),
        ensures
            final(self).wf(),
            final(self).same_env(old(self)),
            *final(final(self).masm) == *final(old(self).masm),
            *final(final(self).rt) == *final(old(self).rt),
            final(self).stepped(
                old(self).state(),
                r,
                lowering::emit_try(old(self).env(), old(self).state(), *e, dest),
            ),
        decreases e, 0int, 0int,
    {
        match &e.mode {
            TryMode::Normal => self.emit_expr(&e.expr, dest),
            TryMode::Else(alt_expr) => {
                let lbl_after = self.masm.create_label();
                let start = self.masm.pos();
                match self.emit_expr(&e.expr, dest) {
                    Ok(v) => v,
                    Err(e) => return Err(e),
                };
                let end = self.masm.pos();
                assert(self.masm@.unresolved().contains(lbl_after));
                self.masm.jump(lbl_after);
                let catch = self.masm.pos();
                match self.emit_expr(alt_expr, dest) {
                    Ok(v) => v,
                    Err(e) => return Err(e),
                };
                self.masm.emit_exception_handler((start, end), catch, None, CatchType::Any);
                assert(self.masm@.unresolved().contains(lbl_after));
                self.masm.bind_label(lbl_after);
                assert(self.masm@.unresolved() =~= old(self).masm@.unresolved());
                Ok(())
            },
            TryMode::Force => {
                let lbl_after = self.masm.create_label();
                let start = self.masm.pos();
                match self.emit_expr(&e.expr, dest) {
                    Ok(v) => v,
                    Err(e) => return Err(e),
                };
                let end = self.masm.pos();
                assert(self.masm@.unresolved().contains(lbl_after));
                self.masm.jump(lbl_after);
                let catch = self.masm.pos();
                self.masm.emit_bailout_inplace(Trap::UNEXPECTED, e.pos);
                self.masm.emit_exception_handler((start, end), catch, None, CatchType::Any);
                assert(self.masm@.unresolved().contains(lbl_after));
                self.masm.bind_label(lbl_after);
                assert(self.masm@.unresolved() =~= old(self).masm@.unresolved());
                Ok(())
            },
            TryMode::Opt => Err(GenError::Unsupported),
        }
    }

    fn emit_conv(&mut self, e: &ExprConvType, dest: Reg) -> (r: Result<(), GenError>)
        requires
            old(self).wf(),
        ensures
            final(self).wf(),
            final(self).same_env(old(self)),
            *final(final(self).masm) == *final(old(self).masm),
            *final(final(self).rt) == *final(old(self).rt),
            final(self).stepped(
                old(self).state(),
                r,
                lowering::emit_conv(old(self).env(), old(self).state(), *e, dest),
            ),
        decreases e, 0int, 0int,
    {
        match self.emit_expr(&e.object, ExprStore::Reg(dest)) {
            Ok(v) => v,
            Err(e) => return Err(e),
        };
        self.conv_check(e.id, e.is, e.pos, &e.object, dest)
    }

    fn emit_field(&mut self, expr: &ExprFieldType, dest: ExprStore) -> (r: Result<(), GenError>)
        requires
            old(self).wf(),
        ensures
            final(self).wf(),
            final(self).same_env(old(self)),
            *final(final(self).masm) == *final(old(self).masm),
            *final(final(self).rt) == *final(old(self).rt),
            final(self).stepped(
                old(self).state(),
                r,
                lowering::emit_field(old(self).env(), old(self).state(), *expr, dest),
            ),
        decreases expr, 0int, 0int,
    {
        let (cls, field) = match self.src.map_idents.get(expr.id) {
            Some(IdentType::Field(cls, field)) => (*cls, *field),
            _ => return Err(GenError::MissingInfo),
        };
        match self.emit_expr(&expr.object, ExprStore::Reg(REG_RESULT)) {
            Ok(v) => v,
            Err(e) => return Err(e),
        };
        self.emit_field_access(cls, field, REG_RESULT, dest)
    }

    fn emit_array(&mut self, node: &Expr, e: &ExprArrayType, dest: ExprStore) -> (r: Result<
        (),
        GenError,
    >)
        requires
            old(self).wf(),
            *node == Expr::ExprArray(*e),
        ensures
            final(self).wf(),
            final(self).same_env(old(self)),
            *final(final(self).masm) == *final(old(self).masm),
            *final(final(self).rt) == *final(old(self).rt),
            final(self).stepped(
                old(self).state(),
                r,
                lowering::emit_array(old(self).env(), old(self).state(), *node, dest),
            ),
        decreases node, 3int, 0int,
    {
        match match self.intrinsic(e.id) {
            Ok(v) => v,
            Err(e) => return Err(e),
        } {
            Some(intrinsic) => {
                let mode = match intrinsic {
                    Intrinsic::LongArrayGet => MachineMode::Int64,
                    Intrinsic::IntArrayGet => MachineMode::Int32,
                    Intrinsic::ByteArrayGet | Intrinsic::StrGet => MachineMode::Int8,
                    _ => return Err(GenError::UnexpectedIntrinsic),
                };
                let d = match dest_reg(dest) {
                    Ok(v) => v,
                    Err(e) => return Err(e),
                };
                self.emit_array_get(node, e.pos, mode, d)
            },
            None => self.emit_universal_call(node, e.id, e.pos, dest),
        }
    }

    /// Emits the load of an array element. Array and index are the first two
    /// operands of `node`.
    fn emit_array_get(&mut self, node: &Expr, pos: Position, mode: MachineMode, dest: Reg) -> (r:
        Result<(), GenError>)
        requires
            old(self).wf(),
        ensures
            final(self).wf(),
            final(self).same_env(old(self)),
            *final(final(self).masm) == *final(old(self).masm),
            *final(final(self).rt) == *final(old(self).rt),
            final(self).stepped(
                old(self).state(),
                r,
                lowering::emit_array_get(old(self).env(), old(self).state(), *node, pos, mode, dest),
            ),
        decreases node, 1int, 0int,
    {
        let (object, index) = match (node.operand(0), node.operand(1)) {
            (Some(object), Some(index)) => (object, index),
            _ => return Err(GenError::MissingInfo),
        };
        match self.emit_expr(object, ExprStore::Reg(REG_RESULT)) {
            Ok(v) => v,
            Err(e) => return Err(e),
        };
        let offset = match self.spill(object, MachineMode::Ptr, REG_RESULT) {
            Ok(v) => v,
            Err(e) => return Err(e),
        };
        match self.emit_expr(index, ExprStore::Reg(REG_TMP1)) {
            Ok(v) => v,
            Err(e) => return Err(e),
        };
        self.array_get_tail(pos, mode, object, offset, dest)
    }

    /// Emits the store of an array element. Array, index and value are the
    /// first three operands of `node`.
    fn emit_array_set(&mut self, node: &Expr, pos: Position, mode: MachineMode, dest: Reg) -> (r:
        Result<(), GenError>)
        requires
            old(self).wf(),
        ensures
            final(self).wf(),
            final(self).same_env(old(self)),
            *final(final(self).masm) == *final(old(self).masm),
            *final(final(self).rt) == *final(old(self).rt),
            final(self).stepped(
                old(self).state(),
                r,
                lowering::emit_array_set(old(self).env(), old(self).state(), *node, pos, mode, dest),
            ),
        decreases node, 1int, 0int,
    {
        let (object, index, rhs) = match (node.operand(0), node.operand(1), node.operand(2)) {
            (Some(object), Some(index), Some(rhs)) => (object, index, rhs),
            _ => return Err(GenError::MissingInfo),
        };
        match self.emit_expr(object, ExprStore::Reg(REG_RESULT)) {
            Ok(v) => v,
            Err(e) => return Err(e),
        };
        let offset_object = match self.spill(object, MachineMode::Ptr, REG_RESULT) {
            Ok(v) => v,
            Err(e) => return Err(e),
        };
        match self.emit_expr(index, ExprStore::Reg(REG_RESULT)) {
            Ok(v) => v,
            Err(e) => return Err(e),
        };
        let offset_index = match self.spill(index, MachineMode::Int32, REG_RESULT) {
            Ok(v) => v,
            Err(e) => return Err(e),
        };
        match self.emit_expr(rhs, ExprStore::Reg(REG_RESULT)) {
            Ok(v) => v,
            Err(e) => return Err(e),
        };
        let offset_value = match self.spill(rhs, mode, REG_RESULT) {
            Ok(v) => v,
            Err(e) => return Err(e),
        };
        self.array_set_tail(
            pos,
            mode,
            object,
            index,
            rhs,
            (offset_object, offset_index, offset_value),
            dest,
        )
    }

    fn emit_un(&mut self, node: &Expr, e: &ExprUnType, dest: ExprStore) -> (r: Result<(), GenError>)
        requires
            old(self).wf(),
            *node == Expr::ExprUn(*e),
        ensures
            final(self).wf(),
            final(self).same_env(old(self)),
            *final(final(self).masm) == *final(old(self).masm),
            *final(final(self).rt) == *final(old(self).rt),
            final(self).stepped(
                old(self).state(),
                r,
                lowering::emit_un(old(self).env(), old(self).state(), *node, dest),
            ),
        decreases node, 3int, 0int,
    {
        match self.emit_expr(&e.opnd, dest) {
            Ok(v) => v,
            Err(e) => return Err(e),
        };
        match match self.intrinsic(e.id) {
            Ok(v) => v,
            Err(e) => return Err(e),
        } {
            Some(intrinsic) => self.un_intrinsic(intrinsic, dest),
            None => self.emit_universal_call(node, e.id, e.pos, dest),
        }
    }

    #[verifier::rlimit(50)]
    fn emit_assign(&mut self, node: &Expr, e: &ExprAssignType, dest: ExprStore) -> (r: Result<
        (),
        GenError,
    >)
        requires
            old(self).wf(),
            *node == Expr::ExprAssign(*e),
        ensures
            final(self).wf(),
            final(self).same_env(old(self)),
            *final(final(self).masm) == *final(old(self).masm),
            *final(final(self).rt) == *final(old(self).rt),
            final(self).stepped(
                old(self).state(),
                r,
                lowering::emit_assign(old(self).env(), old(self).state(), *node, dest),
            ),
        decreases node, 3int, 0int,
    {
        if e.lhs.is_array() {
            return match match self.intrinsic(e.id) {
                Ok(v) => v,
                Err(e) => return Err(e),
            } {
                Some(intrinsic) => {
                    let mode = match intrinsic {
                        Intrinsic::ByteArraySet | Intrinsic::StrSet => MachineMode::Int8,
                        Intrinsic::IntArraySet => MachineMode::Int32,
                        Intrinsic::LongArraySet => MachineMode::Int64,
                        _ => return Err(GenError::UnexpectedIntrinsic),
                    };
                    let d = match dest_reg(dest) {
                        Ok(v) => v,
                        Err(e) => return Err(e),
                    };
                    self.emit_array_set(node, e.pos, mode, d)
                },
                None => self.emit_universal_call(node, e.id, e.pos, dest),
            };
        }
        let ident_type = match self.src.map_idents.get(e.lhs.id()) {
            Some(ident_type) => *ident_type,
            None => return Err(GenError::MissingInfo),
        };
        match ident_type {
            IdentType::Var(varid) => {
                match self.emit_expr(&e.rhs, dest) {
                    Ok(v) => v,
                    Err(e) => return Err(e),
                };
                let d = match dest_reg(dest) {
                    Ok(v) => v,
                    Err(e) => return Err(e),
                };
                self.masm.emit_comment(Comment::StoreVar(varid));
                if self.src.var(varid).is_none() {
                    return Err(GenError::MissingInfo);
                }
                var_store(self.masm, self.src, d, varid);
                Ok(())
            },
            IdentType::Field(clsid, fieldid) => {
                let cls = match self.ctxt.class(clsid) {
                    Some(cls) => cls,
                    None => return Err(GenError::MissingInfo),
                };
                if fieldid.0 >= cls.fields.len() {
                    return Err(GenError::MissingInfo);
                }
                let field = cls.fields[fieldid.0];
                let temp: &Expr = if let Some(expr_field) = e.lhs.to_field() {
                    match self.emit_expr(&expr_field.object, ExprStore::Reg(REG_RESULT)) {
                        Ok(v) => v,
                        Err(e) => return Err(e),
                    };
                    &expr_field.object
                } else {
                    match self.emit_self(REG_RESULT) {
                        Ok(v) => v,
                        Err(e) => return Err(e),
                    };
                    &e.lhs
                };
                let temp_offset = match self.spill(temp, MachineMode::Ptr, REG_RESULT) {
                    Ok(v) => v,
                    Err(e) => return Err(e),
                };
                match self.emit_expr(&e.rhs, ExprStore::Reg(REG_RESULT)) {
                    Ok(v) => v,
                    Err(e) => return Err(e),
                };
                let mode = match mode_of(field.ty) {
                    Ok(v) => v,
                    Err(e) => return Err(e),
                };
                self.field_store_tail(clsid, fieldid, mode, field.offset, temp, temp_offset, dest)
            },
            IdentType::Struct(_) => Err(GenError::Unsupported),
        }
    }

    fn emit_bin(&mut self, node: &Expr, e: &ExprBinType, dest: ExprStore) -> (r: Result<(), GenError>)
        requires
            old(self).wf(),
            *node == Expr::ExprBin(*e),
        ensures
            final(self).wf(),
            final(self).same_env(old(self)),
            *final(final(self).masm) == *final(old(self).masm),
            *final(final(self).rt) == *final(old(self).rt),
            final(self).stepped(
                old(self).state(),
                r,
                lowering::emit_bin(old(self).env(), old(self).state(), *node, dest),
            ),
        decreases node, 3int, 0int,
    {
        if let Some(intrinsic) = match self.intrinsic(e.id) {
            Ok(v) => v,
            Err(e) => return Err(e),
        } {
            self.emit_intrinsic_bin(node, dest, intrinsic, Some(e.op))
        } else if e.op == BinOp::Cmp(CmpOp::Is) || e.op == BinOp::Cmp(CmpOp::IsNot) {
            match self.emit_expr(&e.lhs, ExprStore::Reg(REG_RESULT)) {
                Ok(v) => v,
                Err(e) => return Err(e),
            };
            let offset = match self.spill(&e.lhs, MachineMode::Ptr, REG_RESULT) {
                Ok(v) => v,
                Err(e) => return Err(e),
            };
            match self.emit_expr(&e.rhs, ExprStore::Reg(REG_TMP1)) {
                Ok(v) => v,
                Err(e) => return Err(e),
            };
            self.identity_tail(e.op, &e.lhs, offset, dest)
        } else if e.op == BinOp::Or {
            let d = match dest_reg(dest) {
                Ok(v) => v,
                Err(e) => return Err(e),
            };
            self.emit_bin_or(e, d)
        } else if e.op == BinOp::And {
            let d = match dest_reg(dest) {
                Ok(v) => v,
                Err(e) => return Err(e),
            };
            self.emit_bin_and(e, d)
        } else {
            match self.emit_universal_call(node, e.id, e.pos, dest) {
                Ok(v) => v,
                Err(e) => return Err(e),
            };
            self.after_operator_call(e.op, dest)
        }
    }

    fn emit_bin_or(&mut self, e: &ExprBinType, dest: Reg) -> (r: Result<(), GenError>)
        requires
            old(self).wf(),
        ensures
            final(self).wf(),
            final(self).same_env(old(self)),
            *final(final(self).masm) == *final(old(self).masm),
            *final(final(self).rt) == *final(old(self).rt),
            final(self).stepped(
                old(self).state(),
                r,
                lowering::emit_bin_or(old(self).env(), old(self).state(), *e, dest),
            ),
            r is Ok ==> short_circuits(
                final(self).masm@,
                lowering::left_end(old(self).env(), old(self).state(), *e),
                lowering::right_end(old(self).env(), old(self).state(), *e, true),
                true,
                Label(old(self).masm@.labels.len() as usize),
                Label((old(self).masm@.labels.len() + 1) as usize),
                Label((old(self).masm@.labels.len() + 2) as usize),
                dest,
            ),
        decreases e, 0int, 0int,
    {
        let lbl_true = self.masm.create_label();
        let lbl_false = self.masm.create_label();
        let lbl_end = self.masm.create_label();
        match self.emit_expr(&e.lhs, ExprStore::Reg(REG_RESULT)) {
            Ok(v) => v,
            Err(e) => return Err(e),
        };
        assert(self.masm@.unresolved().contains(lbl_true));
        let ghost p = self.masm@.insns.len() as int;
        self.masm.test_and_jump_if(CondCode::NonZero, REG_RESULT, lbl_true);
        let ghost tested = self.masm@;
        match self.emit_expr(&e.rhs, ExprStore::Reg(REG_RESULT)) {
            Ok(v) => v,
            Err(e) => return Err(e),
        };
        let ghost q = self.masm@.insns.len() as int;
        assert(self.masm@.insns[p] == tested.insns[p]);
        assert(self.masm@.insns[p + 1] == tested.insns[p + 1]);
        assert(self.masm@.unresolved().contains(lbl_true));
        assert(self.masm@.unresolved().contains(lbl_false));
        assert(self.masm@.unresolved().contains(lbl_end));
        self.short_circuit_tail(lbl_true, lbl_false, lbl_end, dest);
        assert(self.masm@.unresolved() =~= old(self).masm@.unresolved());
        Ok(())
    }

    fn emit_bin_and(&mut self, e: &ExprBinType, dest: Reg) -> (r: Result<(), GenError>)
        requires
            old(self).wf(),
        ensures
            final(self).wf(),
            final(self).same_env(old(self)),
            *final(final(self).masm) == *final(old(self).masm),
            *final(final(self).rt) == *final(old(self).rt),
            final(self).stepped(
                old(self).state(),
                r,
                lowering::emit_bin_and(old(self).env(), old(self).state(), *e, dest),
            ),
            r is Ok ==> short_circuits(
                final(self).masm@,
                lowering::left_end(old(self).env(), old(self).state(), *e),
                lowering::right_end(old(self).env(), old(self).state(), *e, false),
                false,
                Label(old(self).masm@.labels.len() as usize),
                Label((old(self).masm@.labels.len() + 1) as usize),
                Label((old(self).masm@.labels.len() + 2) as usize),
                dest,
            ),
        decreases e, 0int, 0int,
    {
        let lbl_true = self.masm.create_label();
        let lbl_false = self.masm.create_label();
        let lbl_end = self.masm.create_label();
        match self.emit_expr(&e.lhs, ExprStore::Reg(REG_RESULT)) {
            Ok(v) => v,
            Err(e) => return Err(e),
        };
        assert(self.masm@.unresolved().contains(lbl_false));
        let ghost p = self.masm@.insns.len() as int;
        self.masm.test_and_jump_if(CondCode::Zero, REG_RESULT, lbl_false);
        let ghost tested = self.masm@;
        match self.emit_expr(&e.rhs, ExprStore::Reg(REG_RESULT)) {
            Ok(v) => v,
            Err(e) => return Err(e),
        };
        let ghost q = self.masm@.insns.len() as int;
        assert(self.masm@.insns[p] == tested.insns[p]);
        assert(self.masm@.insns[p + 1] == tested.insns[p + 1]);
        assert(self.masm@.unresolved().contains(lbl_true));
        assert(self.masm@.unresolved().contains(lbl_false));
        assert(self.masm@.unresolved().contains(lbl_end));
        self.short_circuit_tail(lbl_true, lbl_false, lbl_end, dest);
        assert(self.masm@.unresolved() =~= old(self).masm@.unresolved());
        Ok(())
    }

    fn emit_call(&mut self, node: &Expr, e: &ExprCallType, dest: ExprStore) -> (r: Result<(), GenError>)
        requires
            old(self).wf(),
            *node == Expr::ExprCall(*e),
        ensures
            final(self).wf(),
            final(self).same_env(old(self)),
            *final(final(self).masm) == *final(old(self).masm),
            *final(final(self).rt) == *final(old(self).rt),
            final(self).stepped(
                old(self).state(),
                r,
                lowering::emit_call(old(self).env(), old(self).state(), *node, dest),
            ),
        decreases node, 3int, 0int,
    {
        if let Some(intrinsic) = match self.intrinsic(e.id) {
            Ok(v) => v,
            Err(e) => return Err(e),
        } {
            self.emit_call_intrinsic(node, e, intrinsic, dest)
        } else {
            self.emit_universal_call(node, e.id, e.pos, dest)
        }
    }

    /// Emits a call that resolves to `intrinsic`.
    fn emit_call_intrinsic(
        &mut self,
        node: &Expr,
        e: &ExprCallType,
        intrinsic: Intrinsic,
        dest: ExprStore,
    ) -> (r: Result<(), GenError>)
        requires
            old(self).wf(),
            *node == Expr::ExprCall(*e),
        ensures
            final(self).wf(),
            final(self).same_env(old(self)),
            *final(final(self).masm) == *final(old(self).masm),
            *final(final(self).rt) == *final(old(self).rt),
            final(self).stepped(
                old(self).state(),
                r,
                lowering::emit_call_intrinsic(old(self).env(), old(self).state(), *node, intrinsic, dest),
            ),
        decreases node, 2int, 1int,
    {
        match intrinsic {
            Intrinsic::ByteArrayLen | Intrinsic::IntArrayLen | Intrinsic::LongArrayLen => {
                let d = match dest_reg(dest) {
                    Ok(v) => v,
                    Err(e) => return Err(e),
                };
                self.emit_intrinsic_len(e, d)
            },
            Intrinsic::Assert => {
                let d = match dest_reg(dest) {
                    Ok(v) => v,
                    Err(e) => return Err(e),
                };
                self.emit_intrinsic_assert(e, d)
            },
            Intrinsic::Shl => {
                let d = match dest_reg(dest) {
                    Ok(v) => v,
                    Err(e) => return Err(e),
                };
                self.emit_intrinsic_shl(e, d)
            },
            Intrinsic::SetUint8 => {
                let d = match dest_reg(dest) {
                    Ok(v) => v,
                    Err(e) => return Err(e),
                };
                self.emit_set_uint8(e, d)
            },
            Intrinsic::StrLen => {
                let d = match dest_reg(dest) {
                    Ok(v) => v,
                    Err(e) => return Err(e),
                };
                self.emit_intrinsic_len(e, d)
            },
            Intrinsic::StrGet
            | Intrinsic::ByteArrayGet
            | Intrinsic::IntArrayGet
            | Intrinsic::LongArrayGet
            | Intrinsic::ByteArraySet
            | Intrinsic::IntArraySet
            | Intrinsic::LongArraySet => self.emit_array_call(node, e, intrinsic, dest),
            Intrinsic::BoolToInt | Intrinsic::ByteToInt => {
                let d = match dest_reg(dest) {
                    Ok(v) => v,
                    Err(e) => return Err(e),
                };
                self.emit_intrinsic_byte_to_int(e, d)
            },
            Intrinsic::BoolToLong | Intrinsic::ByteToLong => {
                let d = match dest_reg(dest) {
                    Ok(v) => v,
                    Err(e) => return Err(e),
                };
                self.emit_intrinsic_byte_to_long(e, d)
            },
            Intrinsic::LongToByte => {
                let d = match dest_reg(dest) {
                    Ok(v) => v,
                    Err(e) => return Err(e),
                };
                self.emit_intrinsic_long_to_byte(e, d)
            },
            Intrinsic::LongToInt => {
                let d = match dest_reg(dest) {
                    Ok(v) => v,
                    Err(e) => return Err(e),
                };
                self.emit_intrinsic_long_to_int(e, d)
            },
            Intrinsic::IntToByte => {
                let d = match dest_reg(dest) {
                    Ok(v) => v,
                    Err(e) => return Err(e),
                };
                self.emit_intrinsic_int_to_byte(e, d)
            },
            Intrinsic::IntToLong => {
                let d = match dest_reg(dest) {
                    Ok(v) => v,
                    Err(e) => return Err(e),
                };
                self.emit_intrinsic_int_to_long(e, d)
            },
            _ => if bin_call(intrinsic) {
                self.emit_intrinsic_bin_call(node, e, dest, intrinsic)
            } else if un_call(intrinsic) {
                self.emit_intrinsic_un_call(e, dest, intrinsic)
            } else {
                Err(GenError::UnexpectedIntrinsic)
            },
        }
    }

    /// Emits a call that resolves to an array intrinsic.
    fn emit_array_call(&mut self, node: &Expr, e: &ExprCallType, intrinsic: Intrinsic, dest: ExprStore) -> (r:
        Result<(), GenError>)
        requires
            old(self).wf(),
            *node == Expr::ExprCall(*e),
        ensures
            final(self).wf(),
            final(self).same_env(old(self)),
            *final(final(self).masm) == *final(old(self).masm),
            *final(final(self).rt) == *final(old(self).rt),
            final(self).stepped(
                old(self).state(),
                r,
                lowering::emit_array_call(old(self).env(), old(self).state(), *node, intrinsic, dest),
            ),
        decreases node, 2int, 0int,
    {
        let (mode, store) = match intrinsic {
            Intrinsic::LongArrayGet => (MachineMode::Int64, false),
            Intrinsic::IntArrayGet => (MachineMode::Int32, false),
            Intrinsic::ByteArrayGet | Intrinsic::StrGet => (MachineMode::Int8, false),
            Intrinsic::ByteArraySet | Intrinsic::StrSet => (MachineMode::Int8, true),
            Intrinsic::IntArraySet => (MachineMode::Int32, true),
            Intrinsic::LongArraySet => (MachineMode::Int64, true),
            _ => return Err(GenError::UnexpectedIntrinsic),
        };
        let least: usize = if store { 2 } else { 1 };
        if e.object.is_none() || e.args.len() < least {
            return Err(GenError::MissingInfo);
        }
        let d = match dest_reg(dest) {
            Ok(v) => v,
            Err(e) => return Err(e),
        };
        if store {
            self.emit_array_set(node, e.pos, mode, d)
        } else {
            self.emit_array_get(node, e.pos, mode, d)
        }
    }

    fn emit_set_uint8(&mut self, e: &ExprCallType, _dest: Reg) -> (r: Result<(), GenError>)
        requires
            old(self).wf(),
        ensures
            final(self).wf(),
            final(self).same_env(old(self)),
            *final(final(self).masm) == *final(old(self).masm),
            *final(final(self).rt) == *final(old(self).rt),
            final(self).stepped(
                old(self).state(),
                r,
                lowering::emit_set_uint8(old(self).env(), old(self).state(), *e),
            ),
        decreases e, 1int, 0int,
    {
        match self.emit_two_args(e, MachineMode::Int64) {
            Ok(v) => v,
            Err(e) => return Err(e),
        };
        self.masm.store_mem(MachineMode::Int8, Mem::Base(REG_RESULT, 0), REG_TMP1);
        Ok(())
    }

    /// Emits a call that is an operation on the receiver alone.
    fn emit_intrinsic_un_call(&mut self, e: &ExprCallType, dest: ExprStore, intr: Intrinsic) -> (r:
        Result<(), GenError>)
        requires
            old(self).wf(),
        ensures
            final(self).wf(),
            final(self).same_env(old(self)),
            *final(final(self).masm) == *final(old(self).masm),
            *final(final(self).rt) == *final(old(self).rt),
            final(self).stepped(
                old(self).state(),
                r,
                lowering::emit_intrinsic_un_call(old(self).env(), old(self).state(), *e, dest, intr),
            ),
        decreases e, 0int, 0int,
    {
        let object = match &e.object {
            Some(object) => object,
            None => return Err(GenError::MissingInfo),
        };
        match self.emit_expr(object, dest) {
            Ok(v) => v,
            Err(e) => return Err(e),
        };
        self.un_intrinsic(intr, dest)
    }

    fn emit_intrinsic_len(&mut self, e: &ExprCallType, dest: Reg) -> (r: Result<(), GenError>)
        requires
            old(self).wf(),
        ensures
            final(self).wf(),
            final(self).same_env(old(self)),
            *final(final(self).masm) == *final(old(self).masm),
            *final(final(self).rt) == *final(old(self).rt),
            final(self).stepped(
                old(self).state(),
                r,
                lowering::emit_intrinsic_len(old(self).env(), old(self).state(), *e, dest),
            ),
        decreases e, 0int, 0int,
    {
        let object = match &e.object {
            Some(object) => object,
            None => return Err(GenError::MissingInfo),
        };
        match self.emit_expr(object, ExprStore::Reg(REG_RESULT)) {
            Ok(v) => v,
            Err(e) => return Err(e),
        };
        self.masm.test_if_nil_bailout(e.pos, REG_RESULT, Trap::NIL);
        self.masm.load_mem(MachineMode::Ptr, dest, Mem::Base(REG_RESULT, Header::size()));
        Ok(())
    }

    fn emit_intrinsic_assert(&mut self, e: &ExprCallType, _dest: Reg) -> (r: Result<(), GenError>)
        requires
            old(self).wf(),
        ensures
            final(self).wf(),
            final(self).same_env(old(self)),
            *final(final(self).masm) == *final(old(self).masm),
            *final(final(self).rt) == *final(old(self).rt),
            final(self).stepped(
                old(self).state(),
                r,
                lowering::emit_intrinsic_assert(old(self).env(), old(self).state(), *e),
            ),
        decreases e, 0int, 0int,
    {
        let lbl_div = self.masm.create_label();
        if e.args.len() == 0 {
            return Err(GenError::MissingInfo);
        }
        assert(decreases_to!(e.args => e.args[0]));
        match self.emit_expr(&e.args[0], ExprStore::Reg(REG_RESULT)) {
            Ok(v) => v,
            Err(e) => return Err(e),
        };
        self.masm.emit_comment(Comment::CheckAssert);
        assert(self.masm@.unresolved().contains(lbl_div));
        self.masm.test_and_jump_if(CondCode::Zero, REG_RESULT, lbl_div);
        assert(self.masm@.unresolved().contains(lbl_div));
        self.masm.emit_bailout(lbl_div, Trap::ASSERT, e.pos);
        assert(self.masm@.unresolved() =~= old(self).masm@.unresolved());
        Ok(())
    }

    /// Emits the evaluation of the first two arguments of a call for an
    /// operation on both: the first ends up in the result register, the
    /// second in `REG_TMP1`.
    fn emit_two_args(&mut self, e: &ExprCallType, mode: MachineMode) -> (r: Result<(), GenError>)
        requires
            old(self).wf(),
        ensures
            final(self).wf(),
            final(self).same_env(old(self)),
            *final(final(self).masm) == *final(old(self).masm),
            *final(final(self).rt) == *final(old(self).rt),
            final(self).stepped(
                old(self).state(),
                r,
                lowering::emit_two_args(old(self).env(), old(self).state(), *e, mode),
            ),
        decreases e, 0int, 0int,
    {
        if e.args.len() == 0 {
            return Err(GenError::MissingInfo);
        }
        assert(decreases_to!(e.args => e.args[0]));
        match self.emit_expr(&e.args[0], ExprStore::Reg(REG_RESULT)) {
            Ok(v) => v,
            Err(e) => return Err(e),
        };
        let offset = match self.spill(&e.args[0], mode, REG_RESULT) {
            Ok(v) => v,
            Err(e) => return Err(e),
        };
        if e.args.len() < 2 {
            return Err(GenError::MissingInfo);
        }
        assert(decreases_to!(e.args => e.args[1]));
        match self.emit_expr(&e.args[1], ExprStore::Reg(REG_TMP1)) {
            Ok(v) => v,
            Err(e) => return Err(e),
        };
        self.masm.load_mem(mode, REG_RESULT, Mem::Local(offset));
        Ok(())
    }

    fn emit_intrinsic_shl(&mut self, e: &ExprCallType, dest: Reg) -> (r: Result<(), GenError>)
        requires
            old(self).wf(),
        ensures
            final(self).wf(),
            final(self).same_env(old(self)),
            *final(final(self).masm) == *final(old(self).masm),
            *final(final(self).rt) == *final(old(self).rt),
            final(self).stepped(
                old(self).state(),
                r,
                lowering::emit_intrinsic_shl(old(self).env(), old(self).state(), *e, dest),
            ),
        decreases e, 1int, 0int,
    {
        match self.emit_two_args(e, MachineMode::Int32) {
            Ok(v) => v,
            Err(e) => return Err(e),
        };
        self.masm.int_shl(MachineMode::Int32, dest, REG_RESULT, REG_TMP1);
        Ok(())
    }

    /// Emits the evaluation of the receiver of `e` into `dest`.
    fn emit_receiver(&mut self, e: &ExprCallType, dest: Reg) -> (r: Result<(), GenError>)
        requires
            old(self).wf(),
        ensures
            final(self).wf(),
            final(self).same_env(old(self)),
            *final(final(self).masm) == *final(old(self).masm),
            *final(final(self).rt) == *final(old(self).rt),
            final(self).stepped(
                old(self).state(),
                r,
                lowering::emit_intrinsic_long_to_int(old(self).env(), old(self).state(), *e, dest),
            ),
        decreases e, 0int, 0int,
    {
        let object = match &e.object {
            Some(object) => object,
            None => return Err(GenError::MissingInfo),
        };
        self.emit_expr(object, ExprStore::Reg(dest))
    }

    fn emit_intrinsic_long_to_int(&mut self, e: &ExprCallType, dest: Reg) -> (r: Result<
        (),
        GenError,
    >)
        requires
            old(self).wf(),
        ensures
            final(self).wf(),
            final(self).same_env(old(self)),
            *final(final(self).masm) == *final(old(self).masm),
            *final(final(self).rt) == *final(old(self).rt),
            final(self).stepped(
                old(self).state(),
                r,
                lowering::emit_intrinsic_long_to_int(old(self).env(), old(self).state(), *e, dest),
            ),
        decreases e, 1int, 0int,
    {
        self.emit_receiver(e, dest)
    }

    fn emit_intrinsic_long_to_byte(&mut self, e: &ExprCallType, dest: Reg) -> (r: Result<
        (),
        GenError,
    >)
        requires
            old(self).wf(),
        ensures
            final(self).wf(),
            final(self).same_env(old(self)),
            *final(final(self).masm) == *final(old(self).masm),
            *final(final(self).rt) == *final(old(self).rt),
            final(self).stepped(
                old(self).state(),
                r,
                lowering::emit_intrinsic_extend_byte(old(self).env(), old(self).state(), *e, MachineMode::Int32, dest),
            ),
        decreases e, 1int, 0int,
    {
        match self.emit_receiver(e, dest) {
            Ok(v) => v,
            Err(e) => return Err(e),
        };
        self.masm.extend_byte(MachineMode::Int32, dest, dest);
        Ok(())
    }

    fn emit_intrinsic_int_to_byte(&mut self, e: &ExprCallType, dest: Reg) -> (r: Result<
        (),
        GenError,
    >)
        requires
            old(self).wf(),
        ensures
            final(self).wf(),
            final(self).same_env(old(self)),
            *final(final(self).masm) == *final(old(self).masm),
            *final(final(self).rt) == *final(old(self).rt),
            final(self).stepped(
                old(self).state(),
                r,
                lowering::emit_intrinsic_extend_byte(old(self).env(), old(self).state(), *e, MachineMode::Int32, dest),
            ),
        decreases e, 1int, 0int,
    {
        match self.emit_receiver(e, dest) {
            Ok(v) => v,
            Err(e) => return Err(e),
        };
        self.masm.extend_byte(MachineMode::Int32, dest, dest);
        Ok(())
    }

    fn emit_intrinsic_int_to_long(&mut self, e: &ExprCallType, dest: Reg) -> (r: Result<
        (),
        GenError,
    >)
        requires
            old(self).wf(),
        ensures
            final(self).wf(),
            final(self).same_env(old(self)),
            *final(final(self).masm) == *final(old(self).masm),
            *final(final(self).rt) == *final(old(self).rt),
            final(self).stepped(
                old(self).state(),
                r,
                lowering::emit_intrinsic_int_to_long(old(self).env(), old(self).state(), *e, dest),
            ),
        decreases e, 1int, 0int,
    {
        match self.emit_receiver(e, REG_RESULT) {
            Ok(v) => v,
            Err(e) => return Err(e),
        };
        self.masm.extend_int_long(dest, REG_RESULT);
        Ok(())
    }

    fn emit_intrinsic_byte_to_int(&mut self, e: &ExprCallType, dest: Reg) -> (r: Result<
        (),
        GenError,
    >)
        requires
            old(self).wf(),
        ensures
            final(self).wf(),
            final(self).same_env(old(self)),
            *final(final(self).masm) == *final(old(self).masm),
            *final(final(self).rt) == *final(old(self).rt),
            final(self).stepped(
                old(self).state(),
                r,
                lowering::emit_intrinsic_extend_byte(old(self).env(), old(self).state(), *e, MachineMode::Int32, dest),
            ),
        decreases e, 1int, 0int,
    {
        match self.emit_receiver(e, dest) {
            Ok(v) => v,
            Err(e) => return Err(e),
        };
        self.masm.extend_byte(MachineMode::Int32, dest, dest);
        Ok(())
    }

    fn emit_intrinsic_byte_to_long(&mut self, e: &ExprCallType, dest: Reg) -> (r: Result<
        (),
        GenError,
    >)
        requires
            old(self).wf(),
        ensures
            final(self).wf(),
            final(self).same_env(old(self)),
            *final(final(self).masm) == *final(old(self).masm),
            *final(final(self).rt) == *final(old(self).rt),
            final(self).stepped(
                old(self).state(),
                r,
                lowering::emit_intrinsic_extend_byte(old(self).env(), old(self).state(), *e, MachineMode::Int64, dest),
            ),
        decreases e, 1int, 0int,
    {
        match self.emit_receiver(e, dest) {
            Ok(v) => v,
            Err(e) => return Err(e),
        };
        self.masm.extend_byte(MachineMode::Int64, dest, dest);
        Ok(())
    }

    fn emit_intrinsic_bin_call(
        &mut self,
        node: &Expr,
        e: &ExprCallType,
        dest: ExprStore,
        intr: Intrinsic,
    ) -> (r: Result<(), GenError>)
        requires
            old(self).wf(),
            *node == Expr::ExprCall(*e),
        ensures
            final(self).wf(),
            final(self).same_env(old(self)),
            *final(final(self).masm) == *final(old(self).masm),
            *final(final(self).rt) == *final(old(self).rt),
            final(self).stepped(
                old(self).state(),
                r,
                lowering::emit_intrinsic_bin_call(old(self).env(), old(self).state(), *node, dest, intr),
            ),
        decreases node, 2int, 0int,
    {
        if e.object.is_none() || e.args.len() == 0 {
            return Err(GenError::MissingInfo);
        }
        self.emit_intrinsic_bin(node, dest, intr, None)
    }

    /// Emits an intrinsic of two operands, the first two operands of `node`.
    fn emit_intrinsic_bin(
        &mut self,
        node: &Expr,
        dest: ExprStore,
        intr: Intrinsic,
        op: Option<BinOp>,
    ) -> (r: Result<(), GenError>)
        requires
            old(self).wf(),
        ensures
            final(self).wf(),
            final(self).same_env(old(self)),
            *final(final(self).masm) == *final(old(self).masm),
            *final(final(self).rt) == *final(old(self).rt),
            final(self).stepped(
                old(self).state(),
                r,
                lowering::emit_intrinsic_bin(old(self).env(), old(self).state(), *node, dest, intr, op),
            ),
        decreases node, 1int, 0int,
    {
        let (lhs, rhs) = match (node.operand(0), node.operand(1)) {
            (Some(lhs), Some(rhs)) => (lhs, rhs),
            _ => return Err(GenError::MissingInfo),
        };
        let ty = match self.src.ty(lhs.id()) {
            Some(ty) => ty,
            None => return Err(GenError::MissingInfo),
        };
        let mode = match mode_of(ty) {
            Ok(v) => v,
            Err(e) => return Err(e),
        };
        if mode.is_float() {
            match self.emit_expr(lhs, ExprStore::FReg(FREG_RESULT)) {
                Ok(v) => v,
                Err(e) => return Err(e),
            };
            let offset = match self.reserve_temp_for_node(lhs) {
                Ok(v) => v,
                Err(e) => return Err(e),
            };
            self.masm.storef_mem(mode, Mem::Local(offset), FREG_RESULT);
            match self.emit_expr(rhs, ExprStore::FReg(FREG_TMP1)) {
                Ok(v) => v,
                Err(e) => return Err(e),
            };
            self.masm.loadf_mem(mode, FREG_RESULT, Mem::Local(offset));
            self.emit_intrinsic_float(dest, FREG_RESULT, FREG_TMP1, intr, op)
        } else {
            match self.emit_expr(lhs, ExprStore::Reg(REG_RESULT)) {
                Ok(v) => v,
                Err(e) => return Err(e),
            };
            let offset = match self.spill(lhs, mode, REG_RESULT) {
                Ok(v) => v,
                Err(e) => return Err(e),
            };
            match self.emit_expr(rhs, ExprStore::Reg(REG_TMP1)) {
                Ok(v) => v,
                Err(e) => return Err(e),
            };
            let d = match dest_reg(dest) {
                Ok(v) => v,
                Err(e) => return Err(e),
            };
            self.masm.load_mem(mode, REG_RESULT, Mem::Local(offset));
            self.emit_intrinsic_int(d, REG_RESULT, REG_TMP1, intr, op)
        }
    }

    fn emit_delegation(&mut self, node: &Expr, e: &ExprDelegationType, dest: ExprStore) -> (r: Result<
        (),
        GenError,
    >)
        requires
            old(self).wf(),
            *node == Expr::ExprDelegation(*e),
        ensures
            final(self).wf(),
            final(self).same_env(old(self)),
            *final(final(self).masm) == *final(old(self).masm),
            *final(final(self).rt) == *final(old(self).rt),
            final(self).stepped(
                old(self).state(),
                r,
                lowering::emit_universal_call(old(self).env(), old(self).state(), *node, e.id, e.pos, dest),
            ),
        decreases node, 3int, 0int,
    {
        self.emit_universal_call(node, e.id, e.pos, dest)
    }

    /// Emits a call as semantic analysis resolved it for node `id`, which is
    /// `node` or stands for it.
    fn emit_universal_call(&mut self, node: &Expr, id: NodeId, pos: Position, dest: ExprStore) -> (r:
        Result<(), GenError>)
        requires
            old(self).wf(),
        ensures
            final(self).wf(),
            final(self).same_env(old(self)),
            *final(final(self).masm) == *final(old(self).masm),
            *final(final(self).rt) == *final(old(self).rt),
            final(self).stepped(
                old(self).state(),
                r,
                lowering::emit_universal_call(old(self).env(), old(self).state(), *node, id, pos, dest),
            ),
        decreases node, 1int, 0int,
    {
        let csite = match self.src.map_csites.get(id) {
            Some(csite) => csite,
            None => return Err(GenError::MissingInfo),
        };
        let mut temps: Vec<(BuiltinType, i32)> = Vec::new();
        let mut i: usize = 0;
        while i < csite.args.len()
            invariant
                self.wf(),
                self.same_env(old(self)),
                *final(self.masm) == *final(old(self).masm),
                *final(self.rt) == *final(old(self).rt),
                self.masm@.unresolved() == old(self).masm@.unresolved(),
                self.masm@.uncovered() == old(self).masm@.uncovered(),
                self.masm@.extends(old(self).masm@),
                old(self).src.map_csites.spec_get(id) == Some(*csite),
                lowering::emit_args(
                    self.env(),
                    self.state(),
                    *node,
                    csite.args@,
                    pos,
                    dest,
                    i as int,
                    temps@,
                ) == lowering::emit_args(
                    old(self).env(),
                    old(self).state(),
                    *node,
                    csite.args@,
                    pos,
                    dest,
                    0,
                    Seq::empty(),
                ),
            decreases csite.args.len() - i,
        {
            let arg = csite.args[i];
            match arg {
                Arg::Expr(k, _, _) => {
                    let ast = match node.operand(k) {
                        Some(ast) => ast,
                        None => return Err(GenError::MissingInfo),
                    };
                    match self.emit_expr(ast, ExprStore::Reg(REG_RESULT)) {
                        Ok(v) => v,
                        Err(e) => return Err(e),
                    };
                },
                Arg::Selfie(_, _) => {
                    match self.emit_self(REG_RESULT) {
                        Ok(v) => v,
                        Err(e) => return Err(e),
                    };
                },
                Arg::SelfieNew(cls_id, _) => {
                    match self.emit_alloc(cls_id, pos, dest) {
                        Ok(v) => v,
                        Err(e) => return Err(e),
                    };
                },
            }
            let offset = match self.reserve_temp_for_arg(&arg) {
                Ok(v) => v,
                Err(e) => return Err(e),
            };
            let mode = match mode_of(arg.ty()) {
                Ok(v) => v,
                Err(e) => return Err(e),
            };
            self.masm.store_mem(mode, Mem::Local(offset), REG_RESULT);
            temps.push((arg.ty(), offset));
            i += 1;
        }
        self.call_tail(csite, id, pos, dest, &temps)
    }
}

impl<'a> ExprGen<'a> {
    /// Emits the code that leaves the value of `e` in `dest`, or reports
    /// why that cannot be done. When the code is emitted every temporary
    /// slot is free again, every label the code jumps to is bound or has a
    /// trap exit waiting, and every call is followed by its safepoint.
    ///
    /// On an error the listing holds what was emitted up to the fault and is
    /// of no further use.
    pub fn try_generate(self, e: &Expr, dest: ExprStore) -> (r: Result<(), GenError>)
        requires
            self.wf(),
        ensures
            final(self.masm).wf(),
            final(self.rt).wf(),
            match lowering::generate(self.env(), self.state(), *e, dest) {
                Ok(s) => {
                    &&& r is Ok
                    &&& final(self.masm)@ == s.masm
                    &&& final(self.rt)@ == s.rt
                    &&& s.temps == Set::<i32>::empty()
                    &&& final(self.masm)@.unresolved() == self.state().masm.unresolved()
                    &&& final(self.masm)@.uncovered() == self.state().masm.uncovered()
                    &&& final(self.masm)@.extends(self.state().masm)
                },
                Err(err) => r == Err::<(), GenError>(err),
            },
    {
        let mut gen = self;
        match gen.emit_expr(e, dest) {
            Ok(()) => {},
            Err(err) => return Err(err),
        }
        if !gen.temps.is_empty() {
            return Err(GenError::UnfreedTemps);
        }
        Ok(())
    }

    /// Emits the code that leaves the value of `e` in `dest`.
    ///
    /// The expression has to be one that lowers: `try_generate` tells.
    pub fn generate(self, e: &Expr, dest: ExprStore)
        requires
            self.wf(),
            lowering::generate(self.env(), self.state(), *e, dest) is Ok,
        ensures
            final(self.masm).wf(),
            final(self.rt).wf(),
            final(self.masm)@ == lowering::generate(self.env(), self.state(), *e, dest).unwrap().masm,
            final(self.rt)@ == lowering::generate(self.env(), self.state(), *e, dest).unwrap().rt,
            lowering::generate(self.env(), self.state(), *e, dest).unwrap().temps == Set::<
                i32,
            >::empty(),
            final(self.masm)@.unresolved() == self.state().masm.unresolved(),
            final(self.masm)@.uncovered() == self.state().masm.uncovered(),
            final(self.masm)@.extends(self.state().masm),
    {
        let r = self.try_generate(e, dest);
        assert(r is Ok);
    }
}

/// Whether a call that resolves to this intrinsic is lowered as an
/// operation of receiver and first argument.
fn bin_call(intr: Intrinsic) -> (r: bool)
    ensures
        r == lowering::is_bin_call(intr),
{
    match intr {
        Intrinsic::ByteEq
        | Intrinsic::ByteCmp
        | Intrinsic::BoolEq
        | Intrinsic::IntEq
        | Intrinsic::IntCmp
        | Intrinsic::IntAdd
        | Intrinsic::IntSub
        | Intrinsic::IntMul
        | Intrinsic::IntDiv
        | Intrinsic::IntMod
        | Intrinsic::IntOr
        | Intrinsic::IntAnd
        | Intrinsic::IntXor
        | Intrinsic::IntShl
        | Intrinsic::IntSar
        | Intrinsic::IntShr
        | Intrinsic::LongEq
        | Intrinsic::LongCmp
        | Intrinsic::LongAdd
        | Intrinsic::LongSub
        | Intrinsic::LongMul
        | Intrinsic::LongDiv
        | Intrinsic::LongMod
        | Intrinsic::LongOr
        | Intrinsic::LongAnd
        | Intrinsic::LongXor
        | Intrinsic::LongShl
        | Intrinsic::LongSar
        | Intrinsic::LongShr
        | Intrinsic::FloatAdd
        | Intrinsic::FloatSub
        | Intrinsic::FloatMul
        | Intrinsic::FloatDiv
        | Intrinsic::FloatEq
        | Intrinsic::FloatCmp
        | Intrinsic::DoubleAdd
        | Intrinsic::DoubleSub
        | Intrinsic::DoubleMul
        | Intrinsic::DoubleDiv
        | Intrinsic::DoubleEq
        | Intrinsic::DoubleCmp => true,
        _ => false,
    }
}

/// Whether a call that resolves to this intrinsic is lowered as an
/// operation on the receiver alone.
fn un_call(intr: Intrinsic) -> (r: bool)
    ensures
        r == lowering::is_un_call(intr),
{
    match intr {
        Intrinsic::BoolNot
        | Intrinsic::ByteNot
        | Intrinsic::IntNot
        | Intrinsic::IntNeg
        | Intrinsic::IntPlus
        | Intrinsic::LongNot
        | Intrinsic::LongNeg
        | Intrinsic::LongPlus => true,
        _ => false,
    }
}

} // verus!
