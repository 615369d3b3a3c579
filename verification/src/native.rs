//! Stubs for native functions: a native function is called through a stub
//! that takes the arguments as compiled code passes them, tells the runtime
//! that native code runs, and calls the function.

use crate::cpu::{Mem, REG_PARAMS, REG_RESULT, REG_SP};
use crate::ctxt::{Entries, FctId};
use crate::error::GenError;
use crate::fct::{JitFct, JitFctView};
use crate::image::{place, spec_place};
use crate::masm::{lemma_resolved_closed, Insn, Label, MacroAssembler, MasmView};
use crate::runtime::{native_find, CodeData, Runtime, RuntimeView};
use crate::ty::{BuiltinType, MachineMode};
use vstd::prelude::*;

verus! {

/// Whether a stub keeps the native function's result while it tells the
/// runtime that native code is done.
pub open spec fn saves_return(return_type: BuiltinType) -> bool {
    return_type != BuiltinType::Unit
}

/// Offset of the first saved argument from the stack pointer: the saved
/// result, if there is one, comes first.
pub open spec fn offset_args(return_type: BuiltinType) -> i32 {
    if saves_return(return_type) {
        8
    } else {
        0
    }
}

/// Size of a stub's frame: a word for the result, if there is one, and a
/// word for each argument, padded to a multiple of 16.
pub open spec fn framesize(return_type: BuiltinType, args: i32) -> i32 {
    (((offset_args(return_type) + args * 8 + 15) / 16) * 16) as i32
}

/// The listing after the first `n` arguments are saved to the frame.
pub open spec fn save_params(v: MasmView, base: i32, n: nat) -> MasmView
    decreases n,
{
    if n == 0 {
        v
    } else {
        save_params(v, base, (n - 1) as nat).emit(
            Insn::StoreMem(
                MachineMode::Ptr,
                Mem::Base(REG_SP, (base + (n - 1) * 8) as i32),
                REG_PARAMS[n - 1],
            ),
        )
    }
}

/// The listing after the first `n` arguments are loaded from the frame.
pub open spec fn load_params(v: MasmView, base: i32, n: nat) -> MasmView
    decreases n,
{
    if n == 0 {
        v
    } else {
        load_params(v, base, (n - 1) as nat).emit(
            Insn::LoadMem(
                MachineMode::Ptr,
                REG_PARAMS[n - 1],
                Mem::Base(REG_SP, (base + (n - 1) * 8) as i32),
            ),
        )
    }
}

/// The stub of the native function at `ptr`, which takes `args` arguments.
/// It sets up a frame and saves the arguments there, tells the runtime that
/// native code starts, loads the arguments again and calls the function,
/// keeps the result while it tells the runtime that native code is done,
/// and returns the result.
pub open spec fn listing(entries: Entries, ptr: u64, return_type: BuiltinType, args: i32) -> MasmView {
    let base = offset_args(return_type);
    let size = framesize(return_type, args);
    let v1 = save_params(MasmView::empty().emit(Insn::Prolog(size)), base, args as nat);
    let v2 = load_params(v1.direct_call(entries.start_native_call), base, args as nat).direct_call(
        ptr,
    );
    let v3 = if saves_return(return_type) {
        v2.emit(Insn::StoreMem(MachineMode::Ptr, Mem::Base(REG_SP, 0), REG_RESULT))
    } else {
        v2
    };
    let v4 = v3.direct_call(entries.finish_native_call);
    let v5 = if saves_return(return_type) {
        v4.emit(Insn::LoadMem(MachineMode::Ptr, REG_RESULT, Mem::Base(REG_SP, 0)))
    } else {
        v4
    };
    v5.emit(Insn::Epilog(size))
}

/// Most arguments a native function can take through a stub. A stub hands
/// the arguments on in the parameter registers, which it saves to its frame
/// and takes back around the transition; it copies no argument that lies
/// on the stack. So a native function with more arguments than there are
/// parameter registers gets no stub, rather than one that would call it
/// with arguments in the wrong place.
pub const MAX_NATIVE_ARGS: i32 = 6;

fn save_or_load_params(masm: &mut MacroAssembler, base: i32, args: i32, save: bool)
    requires
        old(masm).wf(),
        0 <= args <= MAX_NATIVE_ARGS,
        base == 0 || base == 8,
    ensures
        final(masm).wf(),
        final(masm)@ == if save {
            save_params(old(masm)@, base, args as nat)
        } else {
            load_params(old(masm)@, base, args as nat)
        },
        final(masm)@.unresolved() == old(masm)@.unresolved(),
        final(masm)@.insns.len() == old(masm)@.insns.len() + args,
        final(masm)@.dseg == old(masm)@.dseg,
        final(masm)@.bailouts == old(masm)@.bailouts,
{
    let mut i: i32 = 0;
    while i < args
        invariant
            0 <= i <= args <= MAX_NATIVE_ARGS,
            base == 0 || base == 8,
            masm.wf(),
            masm@ == if save {
                save_params(old(masm)@, base, i as nat)
            } else {
                load_params(old(masm)@, base, i as nat)
            },
            masm@.unresolved() == old(masm)@.unresolved(),
            masm@.insns.len() == old(masm)@.insns.len() + i,
            masm@.dseg == old(masm)@.dseg,
            masm@.bailouts == old(masm)@.bailouts,
        decreases args - i,
    {
        let reg = REG_PARAMS[i as usize];
        let mem = Mem::Base(REG_SP, base + i * 8);
        if save {
            masm.store_mem(MachineMode::Ptr, mem, reg);
        } else {
            masm.load_mem(MachineMode::Ptr, reg, mem);
        }
        i += 1;
    }
}

/// Generates the stub of the native function at `ptr`. Returns the listing
/// and the size of the stub's frame.
pub fn generate(entries: &Entries, ptr: u64, return_type: BuiltinType, args: i32) -> (r: (
    MacroAssembler,
    i32,
))
    requires
        0 <= args <= MAX_NATIVE_ARGS,
    ensures
        r.0@ == listing(*entries, ptr, return_type, args),
        r.1 == framesize(return_type, args),
        r.0.wf(),
        r.0@.closed(),
        r.0@.bailouts.len() == 0,
        0 < r.0@.insns.len() <= 32,
{
    let save_return = match return_type {
        BuiltinType::Unit => false,
        _ => true,
    };
    let base: i32 = if save_return { 8 } else { 0 };
    let size = ((base + args * 8 + 15) / 16) * 16;
    let mut masm = MacroAssembler::new();
    masm.prolog(size);
    save_or_load_params(&mut masm, base, args, true);
    masm.direct_call(entries.start_native_call);
    save_or_load_params(&mut masm, base, args, false);
    masm.direct_call(ptr);
    if save_return {
        masm.store_mem(MachineMode::Ptr, Mem::Base(REG_SP, 0), REG_RESULT);
    }
    masm.direct_call(entries.finish_native_call);
    if save_return {
        masm.load_mem(MachineMode::Ptr, REG_RESULT, Mem::Base(REG_SP, 0));
    }
    masm.epilog(size);
    proof {
        lemma_resolved_closed(masm@);
    }
    (masm, size)
}

/// The entry of the stub for the native function at `ptr`, and the shared
/// state after the stub is made sure of: the stub that exists for `ptr`, or
/// else a new one, installed in the code space and kept under `ptr`.
pub open spec fn spec_ensure_native_stub(
    rt: RuntimeView,
    entries: Entries,
    fct_id: FctId,
    ptr: u64,
    ty: BuiltinType,
    args: i32,
) -> Result<(RuntimeView, u64), GenError> {
    match native_find(rt.native_fcts, ptr) {
        Some(entry) => Ok((rt, entry)),
        None => if !(0 <= args <= MAX_NATIVE_ARGS) {
            Err(GenError::Unsupported)
        } else {
            let code = listing(entries, ptr, ty, args).finish();
            match spec_place(rt, code, CodeData::NativeFct(fct_id)) {
                Ok((rt1, entry)) => Ok(
                    (
                        RuntimeView {
                            native_fcts: rt1.native_fcts.push(
                                (
                                    ptr,
                                    JitFctView {
                                        fct_start: entry,
                                        framesize: framesize(ty, args),
                                        listing: code,
                                    },
                                ),
                            ),
                            ..rt1
                        },
                        entry,
                    ),
                ),
                Err(e) => Err(e),
            }
        },
    }
}

/// Makes sure that a stub exists for the native function at `ptr` and
/// returns the stub's entry. A stub is made once for each address. A
/// function of more than `MAX_NATIVE_ARGS` arguments, or of fewer than
/// none, gets no stub: `Unsupported`.
pub fn ensure_native_stub(
    rt: &mut Runtime,
    entries: &Entries,
    fct_id: FctId,
    ptr: u64,
    ty: BuiltinType,
    args: i32,
) -> (r: Result<u64, GenError>)
    requires
        old(rt).wf(),
    ensures
        final(rt).wf(),
        match spec_ensure_native_stub(old(rt)@, *entries, fct_id, ptr, ty, args) {
            Ok((view, entry)) => r == Ok::<u64, GenError>(entry) && final(rt)@ == view,
            Err(e) => r == Err::<u64, GenError>(e) && final(rt)@ == old(rt)@,
        },
{
    if let Some(entry) = rt.native_fcts.find_fct(ptr) {
        return Ok(entry);
    }
    if args < 0 || args > MAX_NATIVE_ARGS {
        return Err(GenError::Unsupported);
    }
    let (masm, size) = generate(entries, ptr, ty, args);
    let mut code = masm;
    code.finish();
    match place(rt, &code, CodeData::NativeFct(fct_id)) {
        Ok(entry) => {
            let jit_fct = JitFct::new(entry, size, code);
            rt.native_fcts.insert_fct(ptr, jit_fct);
            Ok(entry)
        },
        Err(e) => Err(e),
    }
}

} // verus!
