//! Loads and stores of local variables, and the breakpoint.

use crate::cpu::{Mem, Reg};
use crate::ctxt::{FctSrc, VarId};
use crate::lowering;
use crate::masm::{Insn, MacroAssembler};
use vstd::prelude::*;

verus! {

/// Emits a breakpoint.
pub fn debug(masm: &mut MacroAssembler)
    requires
        old(masm).wf(),
    ensures
        final(masm)@.emitted(old(masm)@, Insn::Debug),
{
    masm.debug();
}

/// Emits the store of `src` to the slot of variable `var`, in the machine
/// mode of the variable's type. For a variable of a type without a machine
/// mode, such as `Unit`, nothing is emitted.
pub fn var_store(masm: &mut MacroAssembler, fct: &FctSrc, src: Reg, var: VarId)
    requires
        old(masm).wf(),
        fct.spec_var(var) is Some,
    ensures
        final(masm).wf(),
        Ok::<crate::masm::MasmView, crate::error::GenError>(final(masm)@) == lowering::var_store(
            *fct,
            old(masm)@,
            src,
            var,
        ),
        fct.spec_var(var).unwrap().ty.has_mode() ==> final(masm)@.emitted(
            old(masm)@,
            Insn::StoreMem(
                fct.spec_var(var).unwrap().ty.mode(),
                Mem::Local(fct.spec_var(var).unwrap().offset),
                src,
            ),
        ),
        !fct.spec_var(var).unwrap().ty.has_mode() ==> final(masm)@ == old(masm)@,
{
    let v = fct.var(var).unwrap();
    if v.ty.has_mode() {
        masm.store_mem(v.ty.mode(), Mem::Local(v.offset), src);
    }
}

/// Emits the load of variable `var` from its slot into `dest`, in the
/// machine mode of the variable's type. For a variable of a type without a
/// machine mode, such as `Unit`, nothing is emitted.
pub fn var_load(masm: &mut MacroAssembler, fct: &FctSrc, var: VarId, dest: Reg)
    requires
        old(masm).wf(),
        fct.spec_var(var) is Some,
    ensures
        final(masm).wf(),
        Ok::<crate::masm::MasmView, crate::error::GenError>(final(masm)@) == lowering::var_load(
            *fct,
            old(masm)@,
            var,
            dest,
        ),
        fct.spec_var(var).unwrap().ty.has_mode() ==> final(masm)@.emitted(
            old(masm)@,
            Insn::LoadMem(
                fct.spec_var(var).unwrap().ty.mode(),
                dest,
                Mem::Local(fct.spec_var(var).unwrap().offset),
            ),
        ),
        !fct.spec_var(var).unwrap().ty.has_mode() ==> final(masm)@ == old(masm)@,
{
    let v = fct.var(var).unwrap();
    if v.ty.has_mode() {
        masm.load_mem(v.ty.mode(), dest, Mem::Local(v.offset));
    }
}

} // verus!
