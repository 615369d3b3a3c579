//! What the expression generator emits, as a function from the state before
//! an expression to the state after it. The generator is held to this
//! function instruction by instruction.

use crate::ast::{lemma_operand_decreases, BinOp, CmpOp, Expr, NodeId, TryMode};
use crate::class::{ClassId, FieldId};
use crate::codegen::CondCode;
use crate::cpu::{FReg, Mem, Reg, FREG_RESULT, FREG_TMP1, REG_PARAMS, REG_RESULT, REG_TMP1, REG_TMP2};
use crate::ctxt::{
    Arg, CallSite, Callee, Context, FctId, FctKind, FctSrc, IdentType, Intrinsic, Store, VarId,
};
use crate::error::GenError;
use crate::expr::ExprStore;
use crate::fct::{CatchType, Comment};
use crate::lexer::{FloatSuffix, IntSuffix, Position};
use crate::masm::{Insn, IntOp, FloatOp, MasmView};
use crate::native::spec_ensure_native_stub;
use crate::object::Header;
use crate::runtime::RuntimeView;
use crate::stub::spec_ensure_jit_or_stub_ptr;
use crate::trap::Trap;
use crate::ty::{BuiltinType, MachineMode};
use crate::vtable::{
    offset_of_depth, offset_of_display_entry, offset_of_overflow, offset_in_overflow,
    DEPTH_LIMIT, DISPLAY_SIZE, METHOD_INDEX_LIMIT,
};
use vstd::prelude::*;
use vstd::utf8::encode_utf8;

verus! {

/// What the generator changes as it goes: the listing, the temporary slots
/// that hold a reference, and the state shared between functions.
pub struct GenState {
    pub masm: MasmView,
    pub temps: Set<i32>,
    pub rt: RuntimeView,
}

/// What the generator reads: the registries, the function being compiled
/// and what semantic analysis recorded about it, and the frame slots of the
/// reference variables in scope.
pub struct Env {
    pub ctxt: Context,
    pub fct_id: FctId,
    pub src: FctSrc,
    pub scopes: Set<i32>,
}

/// The state after a piece of code is emitted, or why it cannot be.
pub type GenResult = Result<GenState, GenError>;

impl GenState {
    /// The state after `insn` is emitted.
    pub open spec fn emit(self, insn: Insn) -> GenState {
        GenState { masm: self.masm.emit(insn), ..self }
    }

    /// The state with `masm` as the listing.
    pub open spec fn with(self, masm: MasmView) -> GenState {
        GenState { masm, ..self }
    }
}

/// The general-purpose register of a destination.
pub open spec fn dest_reg(dest: ExprStore) -> Result<Reg, GenError> {
    match dest {
        ExprStore::Reg(r) => Ok(r),
        ExprStore::FReg(_) => Err(GenError::WrongStore),
    }
}

/// The floating-point register of a destination.
pub open spec fn dest_freg(dest: ExprStore) -> Result<FReg, GenError> {
    match dest {
        ExprStore::FReg(r) => Ok(r),
        ExprStore::Reg(_) => Err(GenError::WrongStore),
    }
}

/// The condition under which a comparison holds, once its operands are
/// compared.
pub open spec fn to_cond_code(op: CmpOp) -> CondCode {
    match op {
        CmpOp::Eq => CondCode::Equal,
        CmpOp::Ne => CondCode::NotEqual,
        CmpOp::Gt => CondCode::Greater,
        CmpOp::Ge => CondCode::GreaterEq,
        CmpOp::Lt => CondCode::Less,
        CmpOp::Le => CondCode::LessEq,
        CmpOp::Is => CondCode::Equal,
        CmpOp::IsNot => CondCode::NotEqual,
    }
}

/// Whether a receiver of this type can be null, so that a method call on
/// it is preceded by a null check.
pub open spec fn check_for_nil(ty: BuiltinType) -> bool {
    match ty {
        BuiltinType::Str
        | BuiltinType::Nil
        | BuiltinType::Ptr
        | BuiltinType::ByteArray
        | BuiltinType::IntArray
        | BuiltinType::LongArray
        | BuiltinType::Class(_) => true,
        _ => false,
    }
}

/// The machine mode of a type that has one.
pub open spec fn mode_of(ty: BuiltinType) -> Result<MachineMode, GenError> {
    if ty.has_mode() {
        Ok(ty.mode())
    } else {
        Err(GenError::MissingInfo)
    }
}

/// The intrinsic that node `id` resolves to, if it resolves to one. A node
/// that resolves to the function being compiled never does.
pub open spec fn intrinsic(env: Env, id: NodeId) -> Result<Option<Intrinsic>, GenError> {
    match env.src.map_calls.spec_get(id) {
        None => Ok(None),
        Some(call) => if env.fct_id == call.fct_id() {
            Ok(None)
        } else {
            match env.ctxt.spec_fct(call.fct_id()) {
                None => Err(GenError::MissingInfo),
                Some(fct) => match fct.kind {
                    FctKind::Builtin(intr) => Ok(Some(intr)),
                    _ => Ok(None),
                },
            }
        },
    }
}

/// The frame offset of the temporary slot `slot`: the temporaries lie
/// below the locals.
pub open spec fn temp_offset(localsize: i32, slot: i32) -> Result<i32, GenError> {
    if i32::MIN < localsize + slot <= i32::MAX {
        Ok((-(localsize + slot)) as i32)
    } else {
        Err(GenError::TooLarge)
    }
}

/// The state after the slot at `offset` is taken for a value of type `ty`:
/// a reference is entered into the set of live reference slots.
pub open spec fn reserve_slot(s: GenState, ty: BuiltinType, offset: i32) -> GenResult {
    if ty.reference_type() {
        if s.temps.contains(offset) {
            Err(GenError::TempConflict)
        } else {
            Ok(GenState { temps: s.temps.insert(offset), ..s })
        }
    } else {
        Ok(s)
    }
}

/// The state after the slot at `offset`, which held a value of type `ty`,
/// is given up.
pub open spec fn free_slot(s: GenState, ty: BuiltinType, offset: i32) -> GenResult {
    if ty.reference_type() {
        if s.temps.contains(offset) {
            Ok(GenState { temps: s.temps.remove(offset), ..s })
        } else {
            Err(GenError::TempConflict)
        }
    } else {
        Ok(s)
    }
}

/// The offset of the slot planned for node `id`, and the state after the
/// slot is taken.
pub open spec fn reserve_temp_for_node(env: Env, s: GenState, id: NodeId) -> Result<
    (GenState, i32),
    GenError,
> {
    match env.src.spec_ty(id) {
        None => Err(GenError::MissingInfo),
        Some(ty) => match env.src.get_store(id) {
            Store::Reg => Err(GenError::MissingInfo),
            Store::Temp(slot, _) => match temp_offset(env.src.localsize, slot) {
                Err(e) => Err(e),
                Ok(offset) => match reserve_slot(s, ty, offset) {
                    Err(e) => Err(e),
                    Ok(s1) => Ok((s1, offset)),
                },
            },
        },
    }
}

/// The offset of the slot planned for a call argument, and the state after
/// the slot is taken.
pub open spec fn reserve_temp_for_arg(env: Env, s: GenState, arg: Arg) -> Result<
    (GenState, i32),
    GenError,
> {
    match temp_offset(env.src.localsize, arg.offset()) {
        Err(e) => Err(e),
        Ok(offset) => match reserve_slot(s, arg.ty(), offset) {
            Err(e) => Err(e),
            Ok(s1) => Ok((s1, offset)),
        },
    }
}

/// The state after the slot of node `id` at `offset` is given up.
pub open spec fn free_temp_for_node(env: Env, s: GenState, id: NodeId, offset: i32) -> GenResult {
    match env.src.spec_ty(id) {
        None => Err(GenError::MissingInfo),
        Some(ty) => free_slot(s, ty, offset),
    }
}

/// The load of variable `var` into `dest`. A variable of a type without a
/// machine mode, such as `Unit`, has no value to load: nothing is emitted.
pub open spec fn var_load(src: FctSrc, masm: MasmView, var: VarId, dest: Reg) -> Result<
    MasmView,
    GenError,
> {
    match src.spec_var(var) {
        None => Err(GenError::MissingInfo),
        Some(v) => if v.ty.has_mode() {
            Ok(masm.emit(Insn::LoadMem(v.ty.mode(), dest, Mem::Local(v.offset))))
        } else {
            Ok(masm)
        },
    }
}

/// The store of `src_reg` to variable `var`. A variable of a type without a
/// machine mode, such as `Unit`, has no value to store: nothing is emitted.
pub open spec fn var_store(src: FctSrc, masm: MasmView, src_reg: Reg, var: VarId) -> Result<
    MasmView,
    GenError,
> {
    match src.spec_var(var) {
        None => Err(GenError::MissingInfo),
        Some(v) => if v.ty.has_mode() {
            Ok(masm.emit(Insn::StoreMem(v.ty.mode(), Mem::Local(v.offset), src_reg)))
        } else {
            Ok(masm)
        },
    }
}

/// The load of the receiver into `dest`.
pub open spec fn emit_self(env: Env, s: GenState, dest: Reg) -> GenResult {
    match env.src.spec_var_self() {
        None => Err(GenError::MissingInfo),
        Some(var) => match mode_of(var.ty) {
            Err(e) => Err(e),
            Ok(mode) => Ok(
                s.with(
                    s.masm.emit_comment(Comment::LoadSelf(var.id)).emit(
                        Insn::LoadMem(mode, dest, Mem::Local(var.offset)),
                    ),
                ),
            ),
        },
    }
}

/// The load of a field of the object in `src` into `dest`.
pub open spec fn emit_field_access(
    env: Env,
    s: GenState,
    clsid: ClassId,
    fieldid: FieldId,
    src: Reg,
    dest: ExprStore,
) -> GenResult {
    match env.ctxt.spec_class(clsid) {
        None => Err(GenError::MissingInfo),
        Some(cls) => if fieldid.0 >= cls.fields@.len() {
            Err(GenError::MissingInfo)
        } else {
            let field = cls.fields@[fieldid.0 as int];
            match (dest_reg(dest), mode_of(field.ty)) {
                (Err(e), _) => Err(e),
                (_, Err(e)) => Err(e),
                (Ok(d), Ok(mode)) => Ok(
                    s.with(
                        s.masm.emit_comment(Comment::LoadField(clsid, fieldid)).emit(
                            Insn::LoadMem(mode, d, Mem::Base(src, field.offset)),
                        ),
                    ),
                ),
            }
        },
    }
}

/// The machine mode of an integer literal with this suffix.
pub open spec fn int_mode(suffix: IntSuffix) -> MachineMode {
    match suffix {
        IntSuffix::Byte => MachineMode::Int8,
        IntSuffix::Int => MachineMode::Int32,
        IntSuffix::Long => MachineMode::Int64,
    }
}

/// The machine mode of a floating-point literal with this suffix.
pub open spec fn float_mode(suffix: FloatSuffix) -> MachineMode {
    match suffix {
        FloatSuffix::Float => MachineMode::Float32,
        FloatSuffix::Double => MachineMode::Float64,
    }
}

/// An integer literal: the value is loaded in the width of its suffix.
pub open spec fn emit_lit_int(s: GenState, value: u64, suffix: IntSuffix, dest: Reg) -> GenResult {
    Ok(s.emit(Insn::LoadIntConst(int_mode(suffix), dest, value as i64)))
}

/// A floating-point literal: the value goes to the constant pool and is
/// loaded from there.
pub open spec fn emit_lit_float(s: GenState, bits: u64, suffix: FloatSuffix, dest: FReg) -> GenResult {
    if !s.masm.fits() || (suffix == FloatSuffix::Float && bits > u32::MAX) {
        Err(GenError::TooLarge)
    } else {
        Ok(s.with(s.masm.load_float_const(float_mode(suffix), dest, bits)))
    }
}

/// A boolean literal: `1` or `0`.
pub open spec fn emit_lit_bool(s: GenState, value: bool, dest: Reg) -> GenResult {
    Ok(s.emit(Insn::LoadIntConst(MachineMode::Int32, dest, if value { 1 } else { 0 })))
}

/// A string literal: the text is interned in the permanent heap, the
/// string's address goes to the constant pool and is loaded from there.
pub open spec fn emit_lit_str(s: GenState, value: Seq<char>, dest: Reg) -> GenResult {
    match s.rt.intern(encode_utf8(value)) {
        None => Err(GenError::OutOfMemory),
        Some((rt, handle)) => if !s.masm.fits() {
            Err(GenError::TooLarge)
        } else {
            let (m, disp) = s.masm.add_addr(handle);
            Ok(
                GenState {
                    masm: m.emit_comment(Comment::LoadString(handle)).emit(
                        Insn::LoadConstPool(dest, m.pool_disp(disp)),
                    ),
                    rt,
                    ..s
                },
            )
        },
    }
}

/// An identifier: a variable is loaded from its slot, a field from the
/// receiver.
pub open spec fn emit_ident(env: Env, s: GenState, id: NodeId, dest: ExprStore) -> GenResult {
    match env.src.map_idents.spec_get(id) {
        None => Err(GenError::MissingInfo),
        Some(IdentType::Var(varid)) => match dest_reg(dest) {
            Err(e) => Err(e),
            Ok(d) => match var_load(env.src, s.masm.emit_comment(Comment::LoadVar(varid)), varid, d) {
                Err(e) => Err(e),
                Ok(m) => Ok(s.with(m)),
            },
        },
        Some(IdentType::Field(cls, field)) => match emit_self(env, s, REG_RESULT) {
            Err(e) => Err(e),
            Ok(s1) => emit_field_access(env, s1, cls, field, REG_RESULT, dest),
        },
        Some(IdentType::Struct(_)) => Err(GenError::Unsupported),
    }
}

/// What follows every call: the line-number entry, the safepoint with the
/// slots of the reference variables in scope and of the live reference
/// temporaries, and the copy of the result to `dest`.
pub open spec fn emit_after_call_insns(
    env: Env,
    s: GenState,
    pos: Position,
    ty: BuiltinType,
    dest: ExprStore,
) -> GenResult {
    let m = s.masm.emit_lineno(pos.lineno()).emit_gcpoint(env.scopes.union(s.temps));
    match dest_reg(dest) {
        Err(e) => Err(e),
        Ok(d) => if REG_RESULT != d {
            match mode_of(ty) {
                Err(e) => Err(e),
                Ok(mode) => Ok(s.with(m.emit(Insn::CopyReg(mode, d, REG_RESULT)))),
            }
        } else {
            Ok(s.with(m))
        },
    }
}

/// A call of the code at `ptr`.
pub open spec fn emit_direct_call_insn(
    env: Env,
    s: GenState,
    ptr: u64,
    pos: Position,
    ty: BuiltinType,
    dest: ExprStore,
) -> GenResult {
    if !s.masm.fits() {
        Err(GenError::TooLarge)
    } else {
        emit_after_call_insns(env, s.with(s.masm.direct_call(ptr)), pos, ty, dest)
    }
}

/// A call of method `index` through the receiver's dispatch table.
pub open spec fn emit_indirect_call_insn(
    env: Env,
    s: GenState,
    index: u32,
    pos: Position,
    ty: BuiltinType,
    dest: ExprStore,
) -> GenResult {
    if index > METHOD_INDEX_LIMIT {
        Err(GenError::TooLarge)
    } else {
        emit_after_call_insns(env, s.with(s.masm.indirect_call(index)), pos, ty, dest)
    }
}

/// A call of the native function at `ptr`, through its stub.
pub open spec fn emit_native_call_insn(
    env: Env,
    s: GenState,
    ptr: u64,
    pos: Position,
    ty: BuiltinType,
    args: i32,
    dest: ExprStore,
) -> GenResult {
    match spec_ensure_native_stub(s.rt, env.ctxt.entries, FctId(0), ptr, ty, args) {
        Err(e) => Err(e),
        Ok((rt, stub)) => emit_direct_call_insn(env, GenState { rt, ..s }, stub, pos, ty, dest),
    }
}

/// The address at which function `fid` is called, and the shared state
/// after it is made sure of: the function's code or its lazy-compile stub
/// for a function with source, the native stub for a native function.
pub open spec fn ptr_for_fct_id(env: Env, rt: RuntimeView, fid: FctId) -> Result<
    (RuntimeView, u64),
    GenError,
> {
    if env.fct_id == fid {
        match spec_ensure_jit_or_stub_ptr(env.src, fid, rt) {
            None => Err(GenError::OutOfMemory),
            Some(r) => Ok(r),
        }
    } else {
        match env.ctxt.spec_fct(fid) {
            None => Err(GenError::MissingInfo),
            Some(fct) => match fct.kind {
                FctKind::Source(src) => match spec_ensure_jit_or_stub_ptr(src, fid, rt) {
                    None => Err(GenError::OutOfMemory),
                    Some(r) => Ok(r),
                },
                FctKind::Native(ptr) => if fct.spec_real_args() > i32::MAX {
                    Err(GenError::TooLarge)
                } else {
                    spec_ensure_native_stub(
                        rt,
                        env.ctxt.entries,
                        fid,
                        ptr,
                        fct.return_type,
                        fct.spec_real_args() as i32,
                    )
                },
                FctKind::Definition => Err(GenError::BadCallee),
                FctKind::Builtin(_) => Err(GenError::BadCallee),
            },
        }
    }
}

/// The integer operation of an arithmetic intrinsic, with its width.
pub open spec fn int_arith(intr: Intrinsic) -> Option<(IntOp, MachineMode)> {
    match intr {
        Intrinsic::IntAdd => Some((IntOp::Add, MachineMode::Int32)),
        Intrinsic::IntSub => Some((IntOp::Sub, MachineMode::Int32)),
        Intrinsic::IntMul => Some((IntOp::Mul, MachineMode::Int32)),
        Intrinsic::IntOr => Some((IntOp::Or, MachineMode::Int32)),
        Intrinsic::IntAnd => Some((IntOp::And, MachineMode::Int32)),
        Intrinsic::IntXor => Some((IntOp::Xor, MachineMode::Int32)),
        Intrinsic::IntShl => Some((IntOp::Shl, MachineMode::Int32)),
        Intrinsic::IntSar => Some((IntOp::Sar, MachineMode::Int32)),
        Intrinsic::IntShr => Some((IntOp::Shr, MachineMode::Int32)),
        Intrinsic::LongAdd => Some((IntOp::Add, MachineMode::Int64)),
        Intrinsic::LongSub => Some((IntOp::Sub, MachineMode::Int64)),
        Intrinsic::LongMul => Some((IntOp::Mul, MachineMode::Int64)),
        Intrinsic::LongOr => Some((IntOp::Or, MachineMode::Int64)),
        Intrinsic::LongAnd => Some((IntOp::And, MachineMode::Int64)),
        Intrinsic::LongXor => Some((IntOp::Xor, MachineMode::Int64)),
        Intrinsic::LongShl => Some((IntOp::Shl, MachineMode::Int64)),
        Intrinsic::LongSar => Some((IntOp::Sar, MachineMode::Int64)),
        Intrinsic::LongShr => Some((IntOp::Shr, MachineMode::Int64)),
        _ => None,
    }
}

/// The condition of a comparison intrinsic: that of the operator it stands
/// for, or equality if it stands for a method call.
pub open spec fn eq_cond(op: Option<BinOp>) -> CondCode {
    match op {
        Some(BinOp::Cmp(c)) => to_cond_code(c),
        _ => CondCode::Equal,
    }
}

/// An integer intrinsic of two operands, which are in `lhs` and `rhs`.
pub open spec fn emit_intrinsic_int(
    s: GenState,
    dest: Reg,
    lhs: Reg,
    rhs: Reg,
    intr: Intrinsic,
    op: Option<BinOp>,
) -> GenResult {
    match intr {
        Intrinsic::ByteEq | Intrinsic::BoolEq | Intrinsic::IntEq | Intrinsic::LongEq => {
            let mode = if intr == Intrinsic::LongEq {
                MachineMode::Int64
            } else {
                MachineMode::Int32
            };
            Ok(s.emit(Insn::CmpReg(mode, lhs, rhs)).emit(Insn::SetIf(dest, eq_cond(op))))
        },
        Intrinsic::ByteCmp | Intrinsic::IntCmp | Intrinsic::LongCmp => {
            let mode = if intr == Intrinsic::LongCmp {
                MachineMode::Int64
            } else {
                MachineMode::Int32
            };
            match op {
                Some(BinOp::Cmp(c)) => Ok(
                    s.emit(Insn::CmpReg(mode, lhs, rhs)).emit(Insn::SetIf(dest, to_cond_code(c))),
                ),
                _ => Ok(s.emit(Insn::IntArith(IntOp::Sub, mode, dest, lhs, rhs))),
            }
        },
        Intrinsic::IntDiv => Ok(
            s.with(s.masm.checked_div(IntOp::Div, MachineMode::Int32, dest, lhs, rhs)),
        ),
        Intrinsic::IntMod => Ok(
            s.with(s.masm.checked_div(IntOp::Mod, MachineMode::Int32, dest, lhs, rhs)),
        ),
        Intrinsic::LongDiv => Ok(
            s.with(s.masm.checked_div(IntOp::Div, MachineMode::Int64, dest, lhs, rhs)),
        ),
        Intrinsic::LongMod => Ok(
            s.with(s.masm.checked_div(IntOp::Mod, MachineMode::Int64, dest, lhs, rhs)),
        ),
        _ => match int_arith(intr) {
            Some((o, mode)) => Ok(s.emit(Insn::IntArith(o, mode, dest, lhs, rhs))),
            None => Err(GenError::UnexpectedIntrinsic),
        },
    }
}

/// The floating-point operation of an arithmetic intrinsic, with its width.
pub open spec fn float_arith(intr: Intrinsic) -> Option<(FloatOp, MachineMode)> {
    match intr {
        Intrinsic::FloatAdd => Some((FloatOp::Add, MachineMode::Float32)),
        Intrinsic::FloatSub => Some((FloatOp::Sub, MachineMode::Float32)),
        Intrinsic::FloatMul => Some((FloatOp::Mul, MachineMode::Float32)),
        Intrinsic::FloatDiv => Some((FloatOp::Div, MachineMode::Float32)),
        Intrinsic::DoubleAdd => Some((FloatOp::Add, MachineMode::Float64)),
        Intrinsic::DoubleSub => Some((FloatOp::Sub, MachineMode::Float64)),
        Intrinsic::DoubleMul => Some((FloatOp::Mul, MachineMode::Float64)),
        Intrinsic::DoubleDiv => Some((FloatOp::Div, MachineMode::Float64)),
        _ => None,
    }
}

/// A floating-point intrinsic of two operands, which are in `lhs` and
/// `rhs`.
pub open spec fn emit_intrinsic_float(
    s: GenState,
    dest: ExprStore,
    lhs: FReg,
    rhs: FReg,
    intr: Intrinsic,
    op: Option<BinOp>,
) -> GenResult {
    match intr {
        Intrinsic::FloatEq | Intrinsic::DoubleEq => {
            let mode = if intr == Intrinsic::DoubleEq {
                MachineMode::Float64
            } else {
                MachineMode::Float32
            };
            match dest_reg(dest) {
                Err(e) => Err(e),
                Ok(d) => Ok(s.emit(Insn::CmpFreg(mode, lhs, rhs)).emit(Insn::SetIf(d, eq_cond(op)))),
            }
        },
        Intrinsic::FloatCmp | Intrinsic::DoubleCmp => {
            let mode = if intr == Intrinsic::DoubleCmp {
                MachineMode::Float64
            } else {
                MachineMode::Float32
            };
            match dest_reg(dest) {
                Err(e) => Err(e),
                Ok(d) => Ok(s.emit(Insn::CmpFreg(mode, lhs, rhs)).emit(Insn::SetIf(d, eq_cond(op)))),
            }
        },
        _ => match float_arith(intr) {
            Some((o, mode)) => match dest_freg(dest) {
                Err(e) => Err(e),
                Ok(d) => Ok(s.emit(Insn::FloatArith(o, mode, d, lhs, rhs))),
            },
            None => Err(GenError::UnexpectedIntrinsic),
        },
    }
}

/// The inline allocation of an instance of class `cls_id`: the allocator
/// is called with the instance size, a null result raises `OOM`, and the
/// address of the class's dispatch table is stored in the object's header
/// before anything else is done with the object.
pub open spec fn emit_alloc(
    env: Env,
    s: GenState,
    cls_id: ClassId,
    pos: Position,
    dest: ExprStore,
) -> GenResult {
    match env.ctxt.spec_class(cls_id) {
        None => Err(GenError::MissingInfo),
        Some(cls) => match cls.vtable {
            None => Err(GenError::MissingInfo),
            Some(vtable) => {
                let s1 = s.with(
                    s.masm.emit_comment(Comment::Alloc(cls_id)).emit(
                        Insn::LoadIntConst(MachineMode::Int32, REG_PARAMS[0], cls.size as i64),
                    ),
                );
                match emit_native_call_insn(
                    env,
                    s1,
                    env.ctxt.entries.gc_alloc,
                    pos,
                    BuiltinType::Ptr,
                    1,
                    dest,
                ) {
                    Err(e) => Err(e),
                    Ok(s2) => match dest_reg(dest) {
                        Err(e) => Err(e),
                        Ok(d) => {
                            let m = s2.masm.test_if_nil_bailout(pos, d, Trap::OOM);
                            if !m.fits() {
                                Err(GenError::TooLarge)
                            } else {
                                let (m1, disp) = m.add_addr(vtable.ptr);
                                Ok(
                                    s2.with(
                                        m1.emit_comment(Comment::StoreVTable(cls_id)).emit(
                                            Insn::LoadConstPool(REG_TMP1, m1.pool_disp(disp)),
                                        ).emit(
                                            Insn::StoreMem(
                                                MachineMode::Ptr,
                                                Mem::Base(REG_RESULT, 0),
                                                REG_TMP1,
                                            ),
                                        ),
                                    ),
                                )
                            }
                        },
                    },
                }
            },
        },
    }
}

/// The state after the arguments of a call, from argument `i` on, are
/// moved from their slots to where the callee expects them: the first
/// arguments to the parameter registers in order, the others to the stack,
/// one word each, from `arg_offset` upwards. A receiver that can be null is
/// checked, which raises `NIL`.
pub open spec fn marshal_args(
    env: Env,
    s: GenState,
    id: NodeId,
    pos: Position,
    args: Seq<Arg>,
    temps: Seq<(BuiltinType, i32)>,
    i: int,
    arg_offset: i32,
) -> GenResult
    decreases args.len() - i,
{
    if !(0 <= i < args.len()) || i >= temps.len() {
        Ok(s)
    } else {
        let ty = args[i].ty();
        let offset = temps[i].1;
        match mode_of(ty) {
            Err(e) => Err(e),
            Ok(mode) => if i < REG_PARAMS@.len() {
                let reg = REG_PARAMS[i];
                let m = s.masm.emit(Insn::LoadMem(mode, reg, Mem::Local(offset)));
                let m1 = if i == 0 && receiver_checked(env, id, ty) {
                    m.test_if_nil_bailout(pos, reg, Trap::NIL)
                } else {
                    m
                };
                marshal_args(env, s.with(m1), id, pos, args, temps, i + 1, arg_offset)
            } else if arg_offset > i32::MAX - 8 {
                Err(GenError::TooLarge)
            } else {
                let m = s.masm.emit(Insn::LoadMem(mode, REG_TMP1, Mem::Local(offset))).emit(
                    Insn::StoreMem(mode, Mem::Local(arg_offset), REG_TMP1),
                );
                marshal_args(env, s.with(m), id, pos, args, temps, i + 1, (arg_offset + 8) as i32)
            },
        }
    }
}

/// Whether the first argument of the call at node `id` is a receiver that
/// has to be checked for null.
pub open spec fn receiver_checked(env: Env, id: NodeId, ty: BuiltinType) -> bool {
    match env.src.map_calls.spec_get(id) {
        Some(call) => call.is_method() && check_for_nil(ty),
        None => false,
    }
}

/// The call instruction of a call site, with what follows it.
pub open spec fn dispatch(env: Env, s: GenState, csite: CallSite, pos: Position, dest: ExprStore) -> GenResult {
    match csite.callee {
        Callee::Fct(fid) => match env.ctxt.spec_fct(fid) {
            None => Err(GenError::MissingInfo),
            Some(fct) => if csite.super_call {
                match ptr_for_fct_id(env, s.rt, fid) {
                    Err(e) => Err(e),
                    Ok((rt, ptr)) => emit_direct_call_insn(
                        env,
                        GenState { masm: s.masm.emit_comment(Comment::CallSuper(fid)), rt, ..s },
                        ptr,
                        pos,
                        csite.return_type,
                        dest,
                    ),
                }
            } else if fct.is_virtual() {
                match fct.vtable_index {
                    None => Err(GenError::MissingInfo),
                    Some(index) => emit_indirect_call_insn(
                        env,
                        s.with(s.masm.emit_comment(Comment::CallVirtual(fid))),
                        index,
                        pos,
                        csite.return_type,
                        dest,
                    ),
                }
            } else {
                match ptr_for_fct_id(env, s.rt, fid) {
                    Err(e) => Err(e),
                    Ok((rt, ptr)) => emit_direct_call_insn(
                        env,
                        GenState { masm: s.masm.emit_comment(Comment::CallDirect(fid)), rt, ..s },
                        ptr,
                        pos,
                        csite.return_type,
                        dest,
                    ),
                }
            },
        },
        Callee::Ptr(ptr) => if csite.args@.len() > i32::MAX {
            Err(GenError::TooLarge)
        } else {
            emit_native_call_insn(
                env,
                s,
                ptr,
                pos,
                csite.return_type,
                csite.args@.len() as i32,
                dest,
            )
        },
    }
}

/// After a constructor call the new instance is the call's value: it is
/// loaded from the slot of the first argument.
pub open spec fn reload_new(
    s: GenState,
    args: Seq<Arg>,
    temps: Seq<(BuiltinType, i32)>,
    dest: ExprStore,
) -> GenResult {
    if args.len() > 0 && temps.len() > 0 && args[0] is SelfieNew {
        match (mode_of(temps[0].0), dest_reg(dest)) {
            (Err(e), _) => Err(e),
            (_, Err(e)) => Err(e),
            (Ok(mode), Ok(d)) => Ok(s.emit(Insn::LoadMem(mode, d, Mem::Local(temps[0].1)))),
        }
    } else {
        Ok(s)
    }
}

/// The state after the slots of a call's arguments, from argument `i` on,
/// are given up.
pub open spec fn free_temps(s: GenState, temps: Seq<(BuiltinType, i32)>, i: int) -> GenResult
    decreases temps.len() - i,
{
    if !(0 <= i < temps.len()) {
        Ok(s)
    } else {
        match free_slot(s, temps[i].0, temps[i].1) {
            Err(e) => Err(e),
            Ok(s1) => free_temps(s1, temps, i + 1),
        }
    }
}

/// A unary intrinsic, applied to the value in `dest`.
pub open spec fn un_intrinsic(s: GenState, intr: Intrinsic, dest: ExprStore) -> GenResult {
    match intr {
        Intrinsic::IntPlus | Intrinsic::LongPlus => Ok(s),
        Intrinsic::IntNeg | Intrinsic::LongNeg => match dest_reg(dest) {
            Err(e) => Err(e),
            Ok(d) => Ok(
                s.emit(
                    Insn::IntNeg(
                        if intr == Intrinsic::IntNeg {
                            MachineMode::Int32
                        } else {
                            MachineMode::Int64
                        },
                        d,
                        d,
                    ),
                ),
            ),
        },
        Intrinsic::ByteNot => match dest_reg(dest) {
            Err(e) => Err(e),
            Ok(d) => Ok(s.emit(Insn::IntNot(MachineMode::Int8, d, d))),
        },
        Intrinsic::IntNot | Intrinsic::LongNot => match dest_reg(dest) {
            Err(e) => Err(e),
            Ok(d) => Ok(
                s.emit(
                    Insn::IntNot(
                        if intr == Intrinsic::IntNot {
                            MachineMode::Int32
                        } else {
                            MachineMode::Int64
                        },
                        d,
                        d,
                    ),
                ),
            ),
        },
        Intrinsic::BoolNot => match dest_reg(dest) {
            Err(e) => Err(e),
            Ok(d) => Ok(s.emit(Insn::BoolNot(d, d))),
        },
        _ => Err(GenError::UnexpectedIntrinsic),
    }
}

/// The subtype test against a class of a depth below `DISPLAY_SIZE`: the
/// object's display, at the class's depth, holds the class's dispatch table
/// if and only if the object is of the class. `REG_TMP1` holds the object's
/// dispatch table, `REG_TMP2` the class's.
pub open spec fn display_test(
    m: MasmView,
    depth: i32,
    is: bool,
    pos: Position,
    offset: i32,
    dest: Reg,
) -> MasmView {
    let m1 = m.emit(
        Insn::CmpMem(
            MachineMode::Ptr,
            Mem::Base(REG_TMP1, offset_of_display_entry(depth)),
            REG_TMP2,
        ),
    );
    if is {
        m1.emit(Insn::SetIf(dest, CondCode::Equal))
    } else {
        let (m2, lbl_bailout) = m1.create_label();
        m2.emit(Insn::JumpIf(CondCode::NotEqual, lbl_bailout)).emit_bailout(
            lbl_bailout,
            Trap::CAST,
            pos,
        ).emit(Insn::LoadMem(MachineMode::Ptr, dest, Mem::Local(offset)))
    }
}

/// The subtype test against a class of depth `DISPLAY_SIZE` or more: the
/// object is of the class if and only if its own class is at least as deep
/// and its overflow list, at the class's depth less `DISPLAY_SIZE`, holds
/// the class's dispatch table. `REG_TMP1` holds the object's dispatch
/// table, `REG_TMP2` the class's.
pub open spec fn overflow_test(
    m: MasmView,
    depth: i32,
    is: bool,
    pos: Position,
    offset: i32,
    dest: Reg,
) -> MasmView {
    let (m1, lbl_false) = m.emit(
        Insn::CmpMemImm(MachineMode::Int32, Mem::Base(REG_TMP1, offset_of_depth()), depth),
    ).create_label();
    let m2 = m1.emit(Insn::JumpIf(CondCode::Less, lbl_false)).emit(
        Insn::LoadMem(MachineMode::Ptr, REG_TMP1, Mem::Base(REG_TMP1, offset_of_overflow())),
    ).emit(
        Insn::CmpMem(MachineMode::Ptr, Mem::Base(REG_TMP1, offset_in_overflow(depth)), REG_TMP2),
    );
    let m3 = if is {
        m2.emit(Insn::SetIf(dest, CondCode::Equal))
    } else {
        m2.emit(Insn::JumpIf(CondCode::NonZero, lbl_false)).emit(
            Insn::LoadMem(MachineMode::Ptr, dest, Mem::Local(offset)),
        )
    };
    let (m4, lbl_finished) = m3.create_label();
    let m5 = m4.emit(Insn::Jump(lbl_finished)).bind_label(lbl_false);
    let m6 = if is {
        m5.emit(Insn::LoadIntConst(MachineMode::Int32, dest, 0))
    } else {
        m5.emit_bailout_inplace(Trap::CAST, pos)
    };
    m6.bind_label(lbl_finished)
}

/// The subtype test of the object in `dest`, whose dispatch table is taken
/// to `REG_TMP1`, against the class whose dispatch table lies at
/// `vtable_ptr` and has depth `depth`.
///
/// A class of a depth below `DISPLAY_SIZE` is looked for in the object's
/// display at its depth. A deeper class is looked for in the object's
/// overflow list, if the object's class is at least as deep.
///
/// For `is` the outcome goes to `dest` as a boolean. For `as` the object
/// stays in `dest` and a failed test raises `CAST`.
pub open spec fn subtype_test(
    env: Env,
    s: GenState,
    vtable_ptr: u64,
    depth: i32,
    is: bool,
    pos: Position,
    object_id: NodeId,
    dest: Reg,
) -> GenResult {
    let spilled = if is {
        Ok((s, 0i32))
    } else {
        match reserve_temp_for_node(env, s, object_id) {
            Err(e) => Err(e),
            Ok((s1, offset)) => Ok(
                (s1.emit(Insn::StoreMem(MachineMode::Ptr, Mem::Local(offset), dest)), offset),
            ),
        }
    };
    match spilled {
        Err(e) => Err(e),
        Ok((s1, offset)) => {
            let m1 = s1.masm.emit(Insn::LoadMem(MachineMode::Ptr, REG_TMP1, Mem::Base(dest, 0)));
            if !m1.fits() {
                Err(GenError::TooLarge)
            } else if depth < 0 {
                Err(GenError::MissingInfo)
            } else if depth > DEPTH_LIMIT {
                Err(GenError::TooLarge)
            } else {
                let (m2, disp) = m1.add_addr(vtable_ptr);
                let m3 = m2.emit(Insn::LoadConstPool(REG_TMP2, m2.pool_disp(disp)));
                let tested = if depth >= DISPLAY_SIZE {
                    overflow_test(m3, depth, is, pos, offset, dest)
                } else {
                    display_test(m3, depth, is, pos, offset, dest)
                };
                if is {
                    Ok(s1.with(tested))
                } else {
                    free_temp_for_node(env, s1.with(tested), object_id, offset)
                }
            }
        },
    }
}

/// The test or cast of the object in `dest` to the type of node `id`. A
/// null object is left as it is: it is `false` for `is` and null for `as`.
/// Where the object is known to be of the type, `is` is `true` and `as`
/// does nothing. Otherwise the object's class is tested.
pub open spec fn conv_check(
    env: Env,
    s: GenState,
    id: NodeId,
    is: bool,
    pos: Position,
    object_id: NodeId,
    dest: Reg,
) -> GenResult {
    let (m, lbl_nil) = s.masm.test_if_nil(dest);
    match env.src.map_convs.spec_get(id) {
        None => Err(GenError::MissingInfo),
        Some(conv) => if conv.valid {
            let m1 = if is {
                m.emit(Insn::LoadIntConst(MachineMode::Int32, dest, 1))
            } else {
                m
            };
            Ok(s.with(m1.bind_label(lbl_nil)))
        } else {
            match env.ctxt.spec_class(conv.cls_id) {
                None => Err(GenError::MissingInfo),
                Some(cls) => match cls.vtable {
                    None => Err(GenError::MissingInfo),
                    Some(vtable) => match subtype_test(
                        env,
                        s.with(m),
                        vtable.ptr,
                        vtable.subtype_depth,
                        is,
                        pos,
                        object_id,
                        dest,
                    ) {
                        Err(e) => Err(e),
                        Ok(s1) => Ok(s1.with(s1.masm.bind_label(lbl_nil))),
                    },
                },
            }
        },
    }
}

/// The end of an array element load: array in its slot at `offset`, index in
/// `REG_TMP1`.
pub open spec fn array_get_tail(
    env: Env,
    s: GenState,
    pos: Position,
    mode: MachineMode,
    object_id: NodeId,
    offset: i32,
    dest: Reg,
) -> GenResult {
    let m = s.masm.emit(Insn::LoadMem(MachineMode::Ptr, REG_RESULT, Mem::Local(offset)));
    let m1 = if !env.ctxt.args.flag_omit_bounds_check {
        m.check_index_out_of_bounds(pos, REG_RESULT, REG_TMP1, REG_TMP2)
    } else {
        m
    };
    let m2 = m1.load_array_elem(mode, REG_RESULT, REG_RESULT, REG_TMP1);
    match free_temp_for_node(env, s.with(m2), object_id, offset) {
        Err(e) => Err(e),
        Ok(s1) => if dest != REG_RESULT {
            Ok(s1.emit(Insn::CopyReg(mode, dest, REG_RESULT)))
        } else {
            Ok(s1)
        },
    }
}

/// The end of an array element store: array, index and value in their
/// slots.
pub open spec fn array_set_tail(
    env: Env,
    s: GenState,
    pos: Position,
    mode: MachineMode,
    ids: (NodeId, NodeId, NodeId),
    offsets: (i32, i32, i32),
    dest: Reg,
) -> GenResult {
    let m = s.masm.emit(Insn::LoadMem(MachineMode::Ptr, REG_TMP1, Mem::Local(offsets.0))).emit(
        Insn::LoadMem(MachineMode::Int32, REG_TMP2, Mem::Local(offsets.1)),
    );
    let m1 = if !env.ctxt.args.flag_omit_bounds_check {
        m.check_index_out_of_bounds(pos, REG_TMP1, REG_TMP2, REG_RESULT)
    } else {
        m
    };
    let m2 = m1.emit(Insn::LoadMem(mode, REG_RESULT, Mem::Local(offsets.2))).store_array_elem(
        mode,
        REG_TMP1,
        REG_TMP2,
        REG_RESULT,
    );
    match free_temp_for_node(env, s.with(m2), ids.0, offsets.0) {
        Err(e) => Err(e),
        Ok(s1) => match free_temp_for_node(env, s1, ids.1, offsets.1) {
            Err(e) => Err(e),
            Ok(s2) => match free_temp_for_node(env, s2, ids.2, offsets.2) {
                Err(e) => Err(e),
                Ok(s3) => if dest != REG_RESULT {
                    Ok(s3.emit(Insn::CopyReg(mode, dest, REG_RESULT)))
                } else {
                    Ok(s3)
                },
            },
        },
    }
}

/// The value of `node` is spilled: the state after the slot planned for the
/// node is taken and `src` is stored there in `mode`, and the slot's offset.
pub open spec fn spill(env: Env, s: GenState, id: NodeId, mode: MachineMode, src: Reg) -> Result<
    (GenState, i32),
    GenError,
> {
    match reserve_temp_for_node(env, s, id) {
        Err(e) => Err(e),
        Ok((s1, offset)) => Ok((s1.emit(Insn::StoreMem(mode, Mem::Local(offset), src)), offset)),
    }
}

/// After a call that stands for a comparison operator: the callee has
/// returned what `equals` or `compareTo` says, and the operator's outcome
/// is made of it.
pub open spec fn after_operator_call(s: GenState, op: BinOp, dest: ExprStore) -> GenResult {
    match op {
        BinOp::Cmp(CmpOp::Eq) => Ok(s),
        BinOp::Cmp(CmpOp::Ne) => match dest_reg(dest) {
            Err(e) => Err(e),
            Ok(d) => Ok(s.emit(Insn::BoolNot(d, d))),
        },
        BinOp::Cmp(c) => match dest_reg(dest) {
            Err(e) => Err(e),
            Ok(d) => {
                let temp = if d == REG_RESULT {
                    REG_TMP1
                } else {
                    REG_RESULT
                };
                Ok(
                    s.emit(Insn::LoadIntConst(MachineMode::Int32, temp, 0)).emit(
                        Insn::CmpReg(MachineMode::Int32, d, temp),
                    ).emit(Insn::SetIf(d, to_cond_code(c))),
                )
            },
        },
        _ => Ok(s),
    }
}

/// The machine mode of the elements that an array intrinsic reads.
pub open spec fn array_get_mode(intr: Intrinsic) -> Result<MachineMode, GenError> {
    match intr {
        Intrinsic::LongArrayGet => Ok(MachineMode::Int64),
        Intrinsic::IntArrayGet => Ok(MachineMode::Int32),
        Intrinsic::ByteArrayGet | Intrinsic::StrGet => Ok(MachineMode::Int8),
        _ => Err(GenError::UnexpectedIntrinsic),
    }
}

/// The machine mode of the elements that an array intrinsic writes.
pub open spec fn array_set_mode(intr: Intrinsic) -> Result<MachineMode, GenError> {
    match intr {
        Intrinsic::ByteArraySet | Intrinsic::StrSet => Ok(MachineMode::Int8),
        Intrinsic::IntArraySet => Ok(MachineMode::Int32),
        Intrinsic::LongArraySet => Ok(MachineMode::Int64),
        _ => Err(GenError::UnexpectedIntrinsic),
    }
}

/// Whether a call that resolves to this intrinsic is lowered as an
/// operation of receiver and first argument.
pub open spec fn is_bin_call(intr: Intrinsic) -> bool {
    match intr {
        Intrinsic::ByteEq
        | Intrinsic::ByteCmp
        | Intrinsic::BoolEq
        | Intrinsic::IntEq
        | Intrinsic::IntCmp
        | Intrinsic::IntAdd
        | Intrinsic::IntSub
        | Intrinsic::IntMul
        | Intrinsic::IntDiv
        | Intrinsic::IntMod
        | Intrinsic::IntOr
        | Intrinsic::IntAnd
        | Intrinsic::IntXor
        | Intrinsic::IntShl
        | Intrinsic::IntSar
        | Intrinsic::IntShr
        | Intrinsic::LongEq
        | Intrinsic::LongCmp
        | Intrinsic::LongAdd
        | Intrinsic::LongSub
        | Intrinsic::LongMul
        | Intrinsic::LongDiv
        | Intrinsic::LongMod
        | Intrinsic::LongOr
        | Intrinsic::LongAnd
        | Intrinsic::LongXor
        | Intrinsic::LongShl
        | Intrinsic::LongSar
        | Intrinsic::LongShr
        | Intrinsic::FloatAdd
        | Intrinsic::FloatSub
        | Intrinsic::FloatMul
        | Intrinsic::FloatDiv
        | Intrinsic::FloatEq
        | Intrinsic::FloatCmp
        | Intrinsic::DoubleAdd
        | Intrinsic::DoubleSub
        | Intrinsic::DoubleMul
        | Intrinsic::DoubleDiv
        | Intrinsic::DoubleEq
        | Intrinsic::DoubleCmp => true,
        _ => false,
    }
}

/// Whether a call that resolves to this intrinsic is lowered as an
/// operation on the receiver alone.
pub open spec fn is_un_call(intr: Intrinsic) -> bool {
    match intr {
        Intrinsic::BoolNot
        | Intrinsic::ByteNot
        | Intrinsic::IntNot
        | Intrinsic::IntNeg
        | Intrinsic::IntPlus
        | Intrinsic::LongNot
        | Intrinsic::LongNeg
        | Intrinsic::LongPlus => true,
        _ => false,
    }
}

/// What `e` lowers to: the state after the code that leaves the value of
/// `e` in `dest` is emitted.
pub open spec fn emit_expr(env: Env, s: GenState, e: Expr, dest: ExprStore) -> GenResult
    decreases e, 4int, 0int,
{
    match e {
        Expr::ExprLitInt(lit) => match dest_reg(dest) {
            Err(x) => Err(x),
            Ok(d) => emit_lit_int(s, lit.value, lit.suffix, d),
        },
        Expr::ExprLitFloat(lit) => match dest_freg(dest) {
            Err(x) => Err(x),
            Ok(d) => emit_lit_float(s, lit.bits, lit.suffix, d),
        },
        Expr::ExprLitBool(lit) => match dest_reg(dest) {
            Err(x) => Err(x),
            Ok(d) => emit_lit_bool(s, lit.value, d),
        },
        Expr::ExprLitStr(lit) => match dest_reg(dest) {
            Err(x) => Err(x),
            Ok(d) => emit_lit_str(s, lit.value@, d),
        },
        Expr::ExprLitStruct(_) => Err(GenError::Unsupported),
        Expr::ExprUn(_) => emit_un(env, s, e, dest),
        Expr::ExprIdent(ident) => emit_ident(env, s, ident.id, dest),
        Expr::ExprAssign(_) => emit_assign(env, s, e, dest),
        Expr::ExprBin(_) => emit_bin(env, s, e, dest),
        Expr::ExprCall(_) => emit_call(env, s, e, dest),
        Expr::ExprDelegation(d) => emit_universal_call(env, s, e, d.id, d.pos, dest),
        Expr::ExprField(f) => emit_field(env, s, f, dest),
        Expr::ExprSelf(_) => match dest_reg(dest) {
            Err(x) => Err(x),
            Ok(d) => emit_self(env, s, d),
        },
        Expr::ExprSuper(_) => match dest_reg(dest) {
            Err(x) => Err(x),
            Ok(d) => emit_self(env, s, d),
        },
        Expr::ExprNil(_) => match dest_reg(dest) {
            Err(x) => Err(x),
            Ok(d) => Ok(s.emit(Insn::LoadIntConst(MachineMode::Ptr, d, 0))),
        },
        Expr::ExprArray(_) => emit_array(env, s, e, dest),
        Expr::ExprConv(c) => match dest_reg(dest) {
            Err(x) => Err(x),
            Ok(d) => emit_conv(env, s, c, d),
        },
        Expr::ExprTry(t) => emit_try(env, s, t, dest),
    }
}

/// A `try` expression. Without a handler of its own the operand is lowered
/// as it is. With one, the operand's code is the guarded span; it is
/// followed by a jump over the handler, and the handler, which evaluates
/// the alternative or raises `UNEXPECTED`, is entered for any exception
/// raised in the span.
pub open spec fn emit_try(env: Env, s: GenState, e: crate::ast::ExprTryType, dest: ExprStore) -> GenResult
    decreases e, 0int, 0int,
{
    match e.mode {
        TryMode::Normal => emit_expr(env, s, *e.expr, dest),
        TryMode::Else(alt) => {
            let (m, lbl_after) = s.masm.create_label();
            let start = m.pos();
            match emit_expr(env, s.with(m), *e.expr, dest) {
                Err(x) => Err(x),
                Ok(s1) => {
                    let end = s1.masm.pos();
                    let m1 = s1.masm.emit(Insn::Jump(lbl_after));
                    let catch = m1.pos();
                    match emit_expr(env, s1.with(m1), *alt, dest) {
                        Err(x) => Err(x),
                        Ok(s2) => Ok(
                            s2.with(
                                s2.masm.emit_exception_handler(
                                    (start, end),
                                    catch,
                                    None,
                                    CatchType::Any,
                                ).bind_label(lbl_after),
                            ),
                        ),
                    }
                },
            }
        },
        TryMode::Force => {
            let (m, lbl_after) = s.masm.create_label();
            let start = m.pos();
            match emit_expr(env, s.with(m), *e.expr, dest) {
                Err(x) => Err(x),
                Ok(s1) => {
                    let end = s1.masm.pos();
                    let m1 = s1.masm.emit(Insn::Jump(lbl_after));
                    let catch = m1.pos();
                    Ok(
                        s1.with(
                            m1.emit_bailout_inplace(Trap::UNEXPECTED, e.pos).emit_exception_handler(
                                (start, end),
                                catch,
                                None,
                                CatchType::Any,
                            ).bind_label(lbl_after),
                        ),
                    )
                },
            }
        },
        TryMode::Opt => Err(GenError::Unsupported),
    }
}

/// A type test or checked cast: the object is evaluated into `dest` and
/// tested there.
pub open spec fn emit_conv(env: Env, s: GenState, e: crate::ast::ExprConvType, dest: Reg) -> GenResult
    decreases e, 0int, 0int,
{
    match emit_expr(env, s, *e.object, ExprStore::Reg(dest)) {
        Err(x) => Err(x),
        Ok(s1) => conv_check(env, s1, e.id, e.is, e.pos, e.object.id(), dest),
    }
}

/// A field access: the object is evaluated into the result register and
/// the field loaded from it.
pub open spec fn emit_field(env: Env, s: GenState, e: crate::ast::ExprFieldType, dest: ExprStore) -> GenResult
    decreases e, 0int, 0int,
{
    match env.src.map_idents.spec_get(e.id) {
        Some(IdentType::Field(cls, field)) => match emit_expr(
            env,
            s,
            *e.object,
            ExprStore::Reg(REG_RESULT),
        ) {
            Err(x) => Err(x),
            Ok(s1) => emit_field_access(env, s1, cls, field, REG_RESULT, dest),
        },
        _ => Err(GenError::MissingInfo),
    }
}

/// An array element access: by the intrinsic it resolves to, or by a call.
pub open spec fn emit_array(env: Env, s: GenState, node: Expr, dest: ExprStore) -> GenResult
    decreases node, 3int, 0int,
{
    match node {
        Expr::ExprArray(e) => match intrinsic(env, e.id) {
            Err(x) => Err(x),
            Ok(Some(intr)) => match (array_get_mode(intr), dest_reg(dest)) {
                (Err(x), _) => Err(x),
                (_, Err(x)) => Err(x),
                (Ok(mode), Ok(d)) => emit_array_get(env, s, node, e.pos, mode, d),
            },
            Ok(None) => emit_universal_call(env, s, node, e.id, e.pos, dest),
        },
        _ => Err(GenError::MissingInfo),
    }
}

/// An array element load. Array and index are the first two operands of
/// `node`: the array is evaluated and spilled, the index evaluated into
/// `REG_TMP1`, the array taken back, the index checked against the length
/// unless checks are switched off, and the element loaded.
pub open spec fn emit_array_get(
    env: Env,
    s: GenState,
    node: Expr,
    pos: Position,
    mode: MachineMode,
    dest: Reg,
) -> GenResult
    decreases node, 1int, 0int,
{
    if node.operands().len() < 2 {
        Err(GenError::MissingInfo)
    } else {
        let object = node.operands()[0];
        let index = node.operands()[1];
        proof {
            lemma_operand_decreases(node, 0);
            lemma_operand_decreases(node, 1);
        }
        match emit_expr(env, s, object, ExprStore::Reg(REG_RESULT)) {
            Err(x) => Err(x),
            Ok(s1) => match spill(env, s1, object.id(), MachineMode::Ptr, REG_RESULT) {
                Err(x) => Err(x),
                Ok((s2, offset)) => match emit_expr(env, s2, index, ExprStore::Reg(REG_TMP1)) {
                    Err(x) => Err(x),
                    Ok(s3) => array_get_tail(env, s3, pos, mode, object.id(), offset, dest),
                },
            },
        }
    }
}

/// An array element store. Array, index and value are the first three
/// operands of `node`: each is evaluated in turn and spilled to its own
/// slot; then the index is checked against the length unless checks are
/// switched off, and the value stored.
pub open spec fn emit_array_set(
    env: Env,
    s: GenState,
    node: Expr,
    pos: Position,
    mode: MachineMode,
    dest: Reg,
) -> GenResult
    decreases node, 1int, 0int,
{
    if node.operands().len() < 3 {
        Err(GenError::MissingInfo)
    } else {
        let object = node.operands()[0];
        let index = node.operands()[1];
        let rhs = node.operands()[2];
        proof {
            lemma_operand_decreases(node, 0);
            lemma_operand_decreases(node, 1);
            lemma_operand_decreases(node, 2);
        }
        match emit_expr(env, s, object, ExprStore::Reg(REG_RESULT)) {
            Err(x) => Err(x),
            Ok(s1) => match spill(env, s1, object.id(), MachineMode::Ptr, REG_RESULT) {
                Err(x) => Err(x),
                Ok((s2, o1)) => match emit_expr(env, s2, index, ExprStore::Reg(REG_RESULT)) {
                    Err(x) => Err(x),
                    Ok(s3) => match spill(env, s3, index.id(), MachineMode::Int32, REG_RESULT) {
                        Err(x) => Err(x),
                        Ok((s4, o2)) => match emit_expr(env, s4, rhs, ExprStore::Reg(REG_RESULT)) {
                            Err(x) => Err(x),
                            Ok(s5) => match spill(env, s5, rhs.id(), mode, REG_RESULT) {
                                Err(x) => Err(x),
                                Ok((s6, o3)) => array_set_tail(
                                    env,
                                    s6,
                                    pos,
                                    mode,
                                    (object.id(), index.id(), rhs.id()),
                                    (o1, o2, o3),
                                    dest,
                                ),
                            },
                        },
                    },
                },
            },
        }
    }
}

/// A unary operator: the operand is evaluated into `dest`, and the
/// operator applied there if it is an intrinsic; otherwise it is a call.
pub open spec fn emit_un(env: Env, s: GenState, node: Expr, dest: ExprStore) -> GenResult
    decreases node, 3int, 0int,
{
    match node {
        Expr::ExprUn(e) => match emit_expr(env, s, *e.opnd, dest) {
            Err(x) => Err(x),
            Ok(s1) => match intrinsic(env, e.id) {
                Err(x) => Err(x),
                Ok(Some(intr)) => un_intrinsic(s1, intr, dest),
                Ok(None) => emit_universal_call(env, s1, node, e.id, e.pos, dest),
            },
        },
        _ => Err(GenError::MissingInfo),
    }
}

/// The end of an assignment to a field: the receiver is in its slot, the
/// value in the result register.
pub open spec fn field_store_tail(
    env: Env,
    s: GenState,
    clsid: ClassId,
    fieldid: FieldId,
    mode: MachineMode,
    field_offset: i32,
    temp_id: NodeId,
    temp_offset: i32,
    dest: ExprStore,
) -> GenResult {
    let m = s.masm.emit(Insn::LoadMem(MachineMode::Ptr, REG_TMP1, Mem::Local(temp_offset))).emit_comment(
        Comment::StoreField(clsid, fieldid),
    ).emit(Insn::StoreMem(mode, Mem::Base(REG_TMP1, field_offset), REG_RESULT));
    match free_temp_for_node(env, s.with(m), temp_id, temp_offset) {
        Err(x) => Err(x),
        Ok(s1) => match dest_reg(dest) {
            Err(x) => Err(x),
            Ok(d) => if REG_RESULT != d {
                Ok(s1.emit(Insn::CopyReg(mode, d, REG_RESULT)))
            } else {
                Ok(s1)
            },
        },
    }
}

/// An assignment. To an array element it is the array-set intrinsic or a
/// call. To a variable, the value is evaluated into `dest` and stored. To a
/// field, the receiver is evaluated and spilled, the value evaluated, the
/// receiver taken back and the value stored through it.
pub open spec fn emit_assign(env: Env, s: GenState, node: Expr, dest: ExprStore) -> GenResult
    decreases node, 3int, 0int,
{
    match node {
        Expr::ExprAssign(e) => if e.lhs.is_array() {
            match intrinsic(env, e.id) {
                Err(x) => Err(x),
                Ok(Some(intr)) => match (array_set_mode(intr), dest_reg(dest)) {
                    (Err(x), _) => Err(x),
                    (_, Err(x)) => Err(x),
                    (Ok(mode), Ok(d)) => emit_array_set(env, s, node, e.pos, mode, d),
                },
                Ok(None) => emit_universal_call(env, s, node, e.id, e.pos, dest),
            }
        } else {
            match env.src.map_idents.spec_get(e.lhs.id()) {
                None => Err(GenError::MissingInfo),
                Some(IdentType::Var(varid)) => match emit_expr(env, s, *e.rhs, dest) {
                    Err(x) => Err(x),
                    Ok(s1) => match dest_reg(dest) {
                        Err(x) => Err(x),
                        Ok(d) => match var_store(
                            env.src,
                            s1.masm.emit_comment(Comment::StoreVar(varid)),
                            d,
                            varid,
                        ) {
                            Err(x) => Err(x),
                            Ok(m) => Ok(s1.with(m)),
                        },
                    },
                },
                Some(IdentType::Field(clsid, fieldid)) => match env.ctxt.spec_class(clsid) {
                    None => Err(GenError::MissingInfo),
                    Some(cls) => if fieldid.0 >= cls.fields@.len() {
                        Err(GenError::MissingInfo)
                    } else {
                        let field = cls.fields@[fieldid.0 as int];
                        let receiver = match *e.lhs {
                            Expr::ExprField(f) => match emit_expr(
                                env,
                                s,
                                *f.object,
                                ExprStore::Reg(REG_RESULT),
                            ) {
                                Err(x) => Err(x),
                                Ok(s1) => Ok((s1, f.object.id())),
                            },
                            _ => match emit_self(env, s, REG_RESULT) {
                                Err(x) => Err(x),
                                Ok(s1) => Ok((s1, e.lhs.id())),
                            },
                        };
                        match receiver {
                            Err(x) => Err(x),
                            Ok((s1, temp_id)) => match spill(
                                env,
                                s1,
                                temp_id,
                                MachineMode::Ptr,
                                REG_RESULT,
                            ) {
                                Err(x) => Err(x),
                                Ok((s2, temp_offset)) => match emit_expr(
                                    env,
                                    s2,
                                    *e.rhs,
                                    ExprStore::Reg(REG_RESULT),
                                ) {
                                    Err(x) => Err(x),
                                    Ok(s3) => match mode_of(field.ty) {
                                        Err(x) => Err(x),
                                        Ok(mode) => field_store_tail(
                                            env,
                                            s3,
                                            clsid,
                                            fieldid,
                                            mode,
                                            field.offset,
                                            temp_id,
                                            temp_offset,
                                            dest,
                                        ),
                                    },
                                },
                            },
                        }
                    },
                },
                Some(IdentType::Struct(_)) => Err(GenError::Unsupported),
            }
        },
        _ => Err(GenError::MissingInfo),
    }
}

/// The end of an identity comparison: left operand in its slot, right
/// operand in `REG_TMP1`.
pub open spec fn identity_tail(
    env: Env,
    s: GenState,
    op: BinOp,
    lhs_id: NodeId,
    offset: i32,
    dest: ExprStore,
) -> GenResult {
    let m = s.masm.emit(Insn::LoadMem(MachineMode::Ptr, REG_RESULT, Mem::Local(offset))).emit(
        Insn::CmpReg(MachineMode::Ptr, REG_RESULT, REG_TMP1),
    );
    let cond = match op {
        BinOp::Cmp(CmpOp::Is) => CondCode::Equal,
        _ => CondCode::NotEqual,
    };
    match dest_reg(dest) {
        Err(x) => Err(x),
        Ok(d) => free_temp_for_node(env, s.with(m.emit(Insn::SetIf(d, cond))), lhs_id, offset),
    }
}

/// A binary operator: an intrinsic, an identity comparison, a
/// short-circuit `||` or `&&`, or else a call.
pub open spec fn emit_bin(env: Env, s: GenState, node: Expr, dest: ExprStore) -> GenResult
    decreases node, 3int, 0int,
{
    match node {
        Expr::ExprBin(e) => match intrinsic(env, e.id) {
            Err(x) => Err(x),
            Ok(Some(intr)) => emit_intrinsic_bin(env, s, node, dest, intr, Some(e.op)),
            Ok(None) => if e.op == BinOp::Cmp(CmpOp::Is) || e.op == BinOp::Cmp(CmpOp::IsNot) {
                match emit_expr(env, s, *e.lhs, ExprStore::Reg(REG_RESULT)) {
                    Err(x) => Err(x),
                    Ok(s1) => match spill(env, s1, e.lhs.id(), MachineMode::Ptr, REG_RESULT) {
                        Err(x) => Err(x),
                        Ok((s2, offset)) => match emit_expr(
                            env,
                            s2,
                            *e.rhs,
                            ExprStore::Reg(REG_TMP1),
                        ) {
                            Err(x) => Err(x),
                            Ok(s3) => identity_tail(env, s3, e.op, e.lhs.id(), offset, dest),
                        },
                    },
                }
            } else if e.op == BinOp::Or {
                match dest_reg(dest) {
                    Err(x) => Err(x),
                    Ok(d) => emit_bin_or(env, s, e, d),
                }
            } else if e.op == BinOp::And {
                match dest_reg(dest) {
                    Err(x) => Err(x),
                    Ok(d) => emit_bin_and(env, s, e, d),
                }
            } else {
                match emit_universal_call(env, s, node, e.id, e.pos, dest) {
                    Err(x) => Err(x),
                    Ok(s1) => after_operator_call(s1, e.op, dest),
                }
            },
        },
        _ => Err(GenError::MissingInfo),
    }
}

/// `lhs || rhs`: the left operand is evaluated and tested; if it is true the
/// code of the right operand is jumped over. The outcome is made up in
/// `dest` as `1` or `0`.
pub open spec fn emit_bin_or(env: Env, s: GenState, e: crate::ast::ExprBinType, dest: Reg) -> GenResult
    decreases e, 0int, 0int,
{
    let (m1, lbl_true) = s.masm.create_label();
    let (m2, lbl_false) = m1.create_label();
    let (m3, lbl_end) = m2.create_label();
    match emit_expr(env, s.with(m3), *e.lhs, ExprStore::Reg(REG_RESULT)) {
        Err(x) => Err(x),
        Ok(s1) => match emit_expr(
            env,
            s1.with(s1.masm.test_and_jump_if(CondCode::NonZero, REG_RESULT, lbl_true)),
            *e.rhs,
            ExprStore::Reg(REG_RESULT),
        ) {
            Err(x) => Err(x),
            Ok(s2) => Ok(s2.with(short_circuit_tail(s2.masm, lbl_true, lbl_false, lbl_end, dest))),
        },
    }
}

/// `lhs && rhs`: the left operand is evaluated and tested; if it is false
/// the code of the right operand is jumped over. The outcome is made up in
/// `dest` as `1` or `0`.
pub open spec fn emit_bin_and(env: Env, s: GenState, e: crate::ast::ExprBinType, dest: Reg) -> GenResult
    decreases e, 0int, 0int,
{
    let (m1, lbl_true) = s.masm.create_label();
    let (m2, lbl_false) = m1.create_label();
    let (m3, lbl_end) = m2.create_label();
    match emit_expr(env, s.with(m3), *e.lhs, ExprStore::Reg(REG_RESULT)) {
        Err(x) => Err(x),
        Ok(s1) => match emit_expr(
            env,
            s1.with(s1.masm.test_and_jump_if(CondCode::Zero, REG_RESULT, lbl_false)),
            *e.rhs,
            ExprStore::Reg(REG_RESULT),
        ) {
            Err(x) => Err(x),
            Ok(s2) => Ok(s2.with(short_circuit_tail(s2.masm, lbl_true, lbl_false, lbl_end, dest))),
        },
    }
}

/// The position behind the code of the left operand of `||` or `&&`.
pub open spec fn left_end(env: Env, s: GenState, e: crate::ast::ExprBinType) -> int {
    let m3 = s.masm.create_label().0.create_label().0.create_label().0;
    match emit_expr(env, s.with(m3), *e.lhs, ExprStore::Reg(REG_RESULT)) {
        Ok(s1) => s1.masm.insns.len() as int,
        Err(_) => 0,
    }
}

/// The position behind the code of the right operand of `||`, or of `&&`.
pub open spec fn right_end(env: Env, s: GenState, e: crate::ast::ExprBinType, or: bool) -> int {
    let (m1, lbl_true) = s.masm.create_label();
    let (m2, lbl_false) = m1.create_label();
    let (m3, lbl_end) = m2.create_label();
    match emit_expr(env, s.with(m3), *e.lhs, ExprStore::Reg(REG_RESULT)) {
        Ok(s1) => {
            let tested = if or {
                s1.masm.test_and_jump_if(CondCode::NonZero, REG_RESULT, lbl_true)
            } else {
                s1.masm.test_and_jump_if(CondCode::Zero, REG_RESULT, lbl_false)
            };
            match emit_expr(env, s1.with(tested), *e.rhs, ExprStore::Reg(REG_RESULT)) {
                Ok(s2) => s2.masm.insns.len() as int,
                Err(_) => 0,
            }
        },
        Err(_) => 0,
    }
}

/// The end of a short-circuit operator, once the right operand is in the
/// result register: it is tested, and `dest` is set to `1` at `lbl_true`
/// and to `0` at `lbl_false`.
pub open spec fn short_circuit_tail(
    m: MasmView,
    lbl_true: crate::masm::Label,
    lbl_false: crate::masm::Label,
    lbl_end: crate::masm::Label,
    dest: Reg,
) -> MasmView {
    m.test_and_jump_if(CondCode::Zero, REG_RESULT, lbl_false).bind_label(lbl_true).emit(
        Insn::LoadIntConst(MachineMode::Int32, dest, 1),
    ).emit(Insn::Jump(lbl_end)).bind_label(lbl_false).emit(
        Insn::LoadIntConst(MachineMode::Int32, dest, 0),
    ).bind_label(lbl_end)
}

/// A call: an intrinsic is lowered in place, anything else is called.
pub open spec fn emit_call(env: Env, s: GenState, node: Expr, dest: ExprStore) -> GenResult
    decreases node, 3int, 0int,
{
    match node {
        Expr::ExprCall(e) => match intrinsic(env, e.id) {
            Err(x) => Err(x),
            Ok(Some(intr)) => emit_call_intrinsic(env, s, node, intr, dest),
            Ok(None) => emit_universal_call(env, s, node, e.id, e.pos, dest),
        },
        _ => Err(GenError::MissingInfo),
    }
}

/// A call that resolves to intrinsic `intr`.
pub open spec fn emit_call_intrinsic(
    env: Env,
    s: GenState,
    node: Expr,
    intr: Intrinsic,
    dest: ExprStore,
) -> GenResult
    decreases node, 2int, 1int,
{
    match node {
        Expr::ExprCall(e) => match intr {
            Intrinsic::ByteArrayLen
            | Intrinsic::IntArrayLen
            | Intrinsic::LongArrayLen
            | Intrinsic::StrLen => match dest_reg(dest) {
                Err(x) => Err(x),
                Ok(d) => emit_intrinsic_len(env, s, e, d),
            },
            Intrinsic::Assert => match dest_reg(dest) {
                Err(x) => Err(x),
                Ok(_) => emit_intrinsic_assert(env, s, e),
            },
            Intrinsic::Shl => match dest_reg(dest) {
                Err(x) => Err(x),
                Ok(d) => emit_intrinsic_shl(env, s, e, d),
            },
            Intrinsic::SetUint8 => match dest_reg(dest) {
                Err(x) => Err(x),
                Ok(_) => emit_set_uint8(env, s, e),
            },
            Intrinsic::StrGet
            | Intrinsic::ByteArrayGet
            | Intrinsic::IntArrayGet
            | Intrinsic::LongArrayGet
            | Intrinsic::ByteArraySet
            | Intrinsic::IntArraySet
            | Intrinsic::LongArraySet => emit_array_call(env, s, node, intr, dest),
            Intrinsic::BoolToInt
            | Intrinsic::ByteToInt
            | Intrinsic::LongToByte
            | Intrinsic::IntToByte => match dest_reg(dest) {
                Err(x) => Err(x),
                Ok(d) => emit_intrinsic_extend_byte(env, s, e, MachineMode::Int32, d),
            },
            Intrinsic::BoolToLong | Intrinsic::ByteToLong => match dest_reg(dest) {
                Err(x) => Err(x),
                Ok(d) => emit_intrinsic_extend_byte(env, s, e, MachineMode::Int64, d),
            },
            Intrinsic::LongToInt => match dest_reg(dest) {
                Err(x) => Err(x),
                Ok(d) => emit_intrinsic_long_to_int(env, s, e, d),
            },
            Intrinsic::IntToLong => match dest_reg(dest) {
                Err(x) => Err(x),
                Ok(d) => emit_intrinsic_int_to_long(env, s, e, d),
            },
            _ => if is_bin_call(intr) {
                emit_intrinsic_bin_call(env, s, node, dest, intr)
            } else if is_un_call(intr) {
                emit_intrinsic_un_call(env, s, e, dest, intr)
            } else {
                Err(GenError::UnexpectedIntrinsic)
            },
        },
        _ => Err(GenError::MissingInfo),
    }
}

/// A call that resolves to an array intrinsic. A load takes the receiver
/// as the array and the first argument as the index, and is lowered as the
/// element access is; a store takes the second argument as the value, and
/// is lowered as the assignment to an element is.
pub open spec fn emit_array_call(
    env: Env,
    s: GenState,
    node: Expr,
    intr: Intrinsic,
    dest: ExprStore,
) -> GenResult
    decreases node, 2int, 0int,
{
    match node {
        Expr::ExprCall(e) => match (array_get_mode(intr), array_set_mode(intr)) {
            (Ok(mode), _) => if e.object is None || e.args@.len() == 0 {
                Err(GenError::MissingInfo)
            } else {
                match dest_reg(dest) {
                    Err(x) => Err(x),
                    Ok(d) => emit_array_get(env, s, node, e.pos, mode, d),
                }
            },
            (_, Ok(mode)) => if e.object is None || e.args@.len() < 2 {
                Err(GenError::MissingInfo)
            } else {
                match dest_reg(dest) {
                    Err(x) => Err(x),
                    Ok(d) => emit_array_set(env, s, node, e.pos, mode, d),
                }
            },
            (_, Err(x)) => Err(x),
        },
        _ => Err(GenError::MissingInfo),
    }
}

/// A call that is lowered as an operation on the receiver alone: the
/// receiver is evaluated into `dest`, and the operation applied there.
pub open spec fn emit_intrinsic_un_call(
    env: Env,
    s: GenState,
    e: crate::ast::ExprCallType,
    dest: ExprStore,
    intr: Intrinsic,
) -> GenResult
    decreases e, 0int, 0int,
{
    match e.object {
        None => Err(GenError::MissingInfo),
        Some(object) => match emit_expr(env, s, *object, dest) {
            Err(x) => Err(x),
            Ok(s1) => un_intrinsic(s1, intr, dest),
        },
    }
}

/// The length of an array or string: the receiver is evaluated and checked
/// for null, which raises `NIL`, and the length loaded from behind the
/// header.
pub open spec fn emit_intrinsic_len(env: Env, s: GenState, e: crate::ast::ExprCallType, dest: Reg) -> GenResult
    decreases e, 0int, 0int,
{
    match e.object {
        None => Err(GenError::MissingInfo),
        Some(object) => match emit_expr(env, s, *object, ExprStore::Reg(REG_RESULT)) {
            Err(x) => Err(x),
            Ok(s1) => Ok(
                s1.with(
                    s1.masm.test_if_nil_bailout(e.pos, REG_RESULT, Trap::NIL).emit(
                        Insn::LoadMem(MachineMode::Ptr, dest, Mem::Base(REG_RESULT, Header::size())),
                    ),
                ),
            ),
        },
    }
}

/// An assertion: the condition is evaluated, and `ASSERT` raised if it is
/// false.
pub open spec fn emit_intrinsic_assert(env: Env, s: GenState, e: crate::ast::ExprCallType) -> GenResult
    decreases e, 0int, 0int,
{
    let (m, lbl_div) = s.masm.create_label();
    if e.args@.len() == 0 {
        Err(GenError::MissingInfo)
    } else {
        match emit_expr(env, s.with(m), *e.args@[0], ExprStore::Reg(REG_RESULT)) {
            Err(x) => Err(x),
            Ok(s1) => Ok(
                s1.with(
                    s1.masm.emit_comment(Comment::CheckAssert).test_and_jump_if(
                        CondCode::Zero,
                        REG_RESULT,
                        lbl_div,
                    ).emit_bailout(lbl_div, Trap::ASSERT, e.pos),
                ),
            ),
        }
    }
}

/// The first two arguments of a call, for an operation on both: the first
/// is evaluated and spilled in `mode`, the second evaluated into
/// `REG_TMP1`, and the first taken back to the result register.
pub open spec fn emit_two_args(env: Env, s: GenState, e: crate::ast::ExprCallType, mode: MachineMode) -> GenResult
    decreases e, 0int, 0int,
{
    if e.args@.len() == 0 {
        Err(GenError::MissingInfo)
    } else {
        match emit_expr(env, s, *e.args@[0], ExprStore::Reg(REG_RESULT)) {
            Err(x) => Err(x),
            Ok(s1) => match spill(env, s1, e.args@[0].id(), mode, REG_RESULT) {
                Err(x) => Err(x),
                Ok((s2, offset)) => if e.args@.len() < 2 {
                    Err(GenError::MissingInfo)
                } else {
                    match emit_expr(env, s2, *e.args@[1], ExprStore::Reg(REG_TMP1)) {
                        Err(x) => Err(x),
                        Ok(s3) => Ok(
                            s3.emit(Insn::LoadMem(mode, REG_RESULT, Mem::Local(offset))),
                        ),
                    }
                },
            },
        }
    }
}

/// A shift to the left of the first argument by the second.
pub open spec fn emit_intrinsic_shl(env: Env, s: GenState, e: crate::ast::ExprCallType, dest: Reg) -> GenResult
    decreases e, 1int, 0int,
{
    match emit_two_args(env, s, e, MachineMode::Int32) {
        Err(x) => Err(x),
        Ok(s1) => Ok(
            s1.emit(Insn::IntArith(IntOp::Shl, MachineMode::Int32, dest, REG_RESULT, REG_TMP1)),
        ),
    }
}

/// The store of the low byte of the second argument to the address that
/// the first argument gives.
pub open spec fn emit_set_uint8(env: Env, s: GenState, e: crate::ast::ExprCallType) -> GenResult
    decreases e, 1int, 0int,
{
    match emit_two_args(env, s, e, MachineMode::Int64) {
        Err(x) => Err(x),
        Ok(s1) => Ok(
            s1.emit(Insn::StoreMem(MachineMode::Int8, Mem::Base(REG_RESULT, 0), REG_TMP1)),
        ),
    }
}

/// A conversion that keeps the low byte: the receiver is evaluated into
/// `dest` and its low byte sign-extended to `mode` there.
pub open spec fn emit_intrinsic_extend_byte(
    env: Env,
    s: GenState,
    e: crate::ast::ExprCallType,
    mode: MachineMode,
    dest: Reg,
) -> GenResult
    decreases e, 0int, 0int,
{
    match e.object {
        None => Err(GenError::MissingInfo),
        Some(object) => match emit_expr(env, s, *object, ExprStore::Reg(dest)) {
            Err(x) => Err(x),
            Ok(s1) => Ok(s1.emit(Insn::ExtendByte(mode, dest, dest))),
        },
    }
}

/// The conversion of a long to an int: the receiver is evaluated into
/// `dest`, of which the low half is the result.
pub open spec fn emit_intrinsic_long_to_int(
    env: Env,
    s: GenState,
    e: crate::ast::ExprCallType,
    dest: Reg,
) -> GenResult
    decreases e, 0int, 0int,
{
    match e.object {
        None => Err(GenError::MissingInfo),
        Some(object) => emit_expr(env, s, *object, ExprStore::Reg(dest)),
    }
}

/// The conversion of an int to a long: the receiver is evaluated into the
/// result register and sign-extended into `dest`.
pub open spec fn emit_intrinsic_int_to_long(
    env: Env,
    s: GenState,
    e: crate::ast::ExprCallType,
    dest: Reg,
) -> GenResult
    decreases e, 0int, 0int,
{
    match e.object {
        None => Err(GenError::MissingInfo),
        Some(object) => match emit_expr(env, s, *object, ExprStore::Reg(REG_RESULT)) {
            Err(x) => Err(x),
            Ok(s1) => Ok(s1.emit(Insn::ExtendIntLong(dest, REG_RESULT))),
        },
    }
}

/// A call that is lowered as an operation of receiver and first argument.
pub open spec fn emit_intrinsic_bin_call(
    env: Env,
    s: GenState,
    node: Expr,
    dest: ExprStore,
    intr: Intrinsic,
) -> GenResult
    decreases node, 2int, 0int,
{
    match node {
        Expr::ExprCall(e) => if e.object is None || e.args@.len() == 0 {
            Err(GenError::MissingInfo)
        } else {
            emit_intrinsic_bin(env, s, node, dest, intr, None)
        },
        _ => Err(GenError::MissingInfo),
    }
}

/// An intrinsic of two operands, the first two operands of `node`: the
/// left one is evaluated into the result register and spilled, the right
/// one evaluated into the scratch register, the left one taken back, and
/// the operation applied. Floating-point operands go through the
/// floating-point registers.
pub open spec fn emit_intrinsic_bin(
    env: Env,
    s: GenState,
    node: Expr,
    dest: ExprStore,
    intr: Intrinsic,
    op: Option<BinOp>,
) -> GenResult
    decreases node, 1int, 0int,
{
    if node.operands().len() < 2 {
        Err(GenError::MissingInfo)
    } else {
        let lhs = node.operands()[0];
        let rhs = node.operands()[1];
        proof {
            lemma_operand_decreases(node, 0);
            lemma_operand_decreases(node, 1);
        }
        match env.src.spec_ty(lhs.id()) {
            None => Err(GenError::MissingInfo),
            Some(ty) => match mode_of(ty) {
                Err(x) => Err(x),
                Ok(mode) => if mode.is_float() {
                    match emit_expr(env, s, lhs, ExprStore::FReg(FREG_RESULT)) {
                        Err(x) => Err(x),
                        Ok(s1) => match reserve_temp_for_node(env, s1, lhs.id()) {
                            Err(x) => Err(x),
                            Ok((s2, offset)) => match emit_expr(
                                env,
                                s2.emit(Insn::StorefMem(mode, Mem::Local(offset), FREG_RESULT)),
                                rhs,
                                ExprStore::FReg(FREG_TMP1),
                            ) {
                                Err(x) => Err(x),
                                Ok(s3) => emit_intrinsic_float(
                                    s3.emit(Insn::LoadfMem(mode, FREG_RESULT, Mem::Local(offset))),
                                    dest,
                                    FREG_RESULT,
                                    FREG_TMP1,
                                    intr,
                                    op,
                                ),
                            },
                        },
                    }
                } else {
                    match emit_expr(env, s, lhs, ExprStore::Reg(REG_RESULT)) {
                        Err(x) => Err(x),
                        Ok(s1) => match spill(env, s1, lhs.id(), mode, REG_RESULT) {
                            Err(x) => Err(x),
                            Ok((s2, offset)) => match emit_expr(
                                env,
                                s2,
                                rhs,
                                ExprStore::Reg(REG_TMP1),
                            ) {
                                Err(x) => Err(x),
                                Ok(s3) => match dest_reg(dest) {
                                    Err(x) => Err(x),
                                    Ok(d) => emit_intrinsic_int(
                                        s3.emit(Insn::LoadMem(mode, REG_RESULT, Mem::Local(offset))),
                                        d,
                                        REG_RESULT,
                                        REG_TMP1,
                                        intr,
                                        op,
                                    ),
                                },
                            },
                        },
                    }
                },
            },
        }
    }
}

/// The state after the arguments of a call, from argument `i` on, are
/// evaluated in order and each is spilled to the slot planned for it, and
/// type and slot of every argument.
pub open spec fn emit_args(
    env: Env,
    s: GenState,
    node: Expr,
    args: Seq<Arg>,
    pos: Position,
    dest: ExprStore,
    i: int,
    temps: Seq<(BuiltinType, i32)>,
) -> Result<(GenState, Seq<(BuiltinType, i32)>), GenError>
    decreases node, 0int, args.len() - i,
{
    if !(0 <= i < args.len()) {
        Ok((s, temps))
    } else {
        let arg = args[i];
        let value = match arg {
            Arg::Expr(k, _, _) => if k < node.operands().len() {
                proof {
                    lemma_operand_decreases(node, k as int);
                }
                emit_expr(env, s, node.operands()[k as int], ExprStore::Reg(REG_RESULT))
            } else {
                Err(GenError::MissingInfo)
            },
            Arg::Selfie(_, _) => emit_self(env, s, REG_RESULT),
            Arg::SelfieNew(cls_id, _) => emit_alloc(env, s, cls_id, pos, dest),
        };
        match value {
            Err(x) => Err(x),
            Ok(s1) => match reserve_temp_for_arg(env, s1, arg) {
                Err(x) => Err(x),
                Ok((s2, offset)) => match mode_of(arg.ty()) {
                    Err(x) => Err(x),
                    Ok(mode) => emit_args(
                        env,
                        s2.emit(Insn::StoreMem(mode, Mem::Local(offset), REG_RESULT)),
                        node,
                        args,
                        pos,
                        dest,
                        i + 1,
                        temps.push((arg.ty(), offset)),
                    ),
                },
            },
        }
    }
}

/// A call as semantic analysis resolved it for node `id`, which is `node`
/// or stands for it. The arguments are evaluated in order and spilled;
/// then they are moved to where the callee expects them, the callee is
/// called, the result copied to `dest`, and the argument slots given up.
pub open spec fn emit_universal_call(
    env: Env,
    s: GenState,
    node: Expr,
    id: NodeId,
    pos: Position,
    dest: ExprStore,
) -> GenResult
    decreases node, 1int, 0int,
{
    match env.src.map_csites.spec_get(id) {
        None => Err(GenError::MissingInfo),
        Some(csite) => match emit_args(env, s, node, csite.args@, pos, dest, 0, Seq::empty()) {
            Err(x) => Err(x),
            Ok((s1, temps)) => call_tail(env, s1, csite, id, pos, dest, temps),
        },
    }
}

/// The end of a call, once the arguments are in their slots.
pub open spec fn call_tail(
    env: Env,
    s: GenState,
    csite: CallSite,
    id: NodeId,
    pos: Position,
    dest: ExprStore,
    temps: Seq<(BuiltinType, i32)>,
) -> GenResult {
    match env.src.spec_stacksize() {
        None => Err(GenError::TooLarge),
        Some(stacksize) => match marshal_args(
            env,
            s,
            id,
            pos,
            csite.args@,
            temps,
            0,
            (-stacksize) as i32,
        ) {
            Err(x) => Err(x),
            Ok(s1) => match dispatch(env, s1, csite, pos, dest) {
                Err(x) => Err(x),
                Ok(s2) => match reload_new(s2, csite.args@, temps, dest) {
                    Err(x) => Err(x),
                    Ok(s3) => free_temps(s3, temps, 0),
                },
            },
        },
    }
}

/// What `generate` produces for `e`: the code of the expression, with
/// every temporary slot given up again.
pub open spec fn generate(env: Env, s: GenState, e: Expr, dest: ExprStore) -> GenResult {
    match emit_expr(env, s, e, dest) {
        Err(x) => Err(x),
        Ok(s1) => if s1.temps == Set::<i32>::empty() {
            Ok(s1)
        } else {
            Err(GenError::UnfreedTemps)
        },
    }
}

} // verus!
