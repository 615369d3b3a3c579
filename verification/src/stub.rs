//! The lazy-compile stubs, which stand in for the functions that are not
//! compiled yet: each such function has its own.

use crate::ctxt::{FctId, FctSrc};
use crate::runtime::{lemma_stub_find_prefix, lemma_stub_find_push, stub_find, CodeData, Runtime,
    RuntimeView, Stub, STUB_LEN};
use vstd::prelude::*;

verus! {

/// Makes sure that the lazy-compile stub of function `id` exists and
/// returns its entry. The stub is made once, registered in the code map and
/// kept for the function. Returns `None`, with nothing changed, if the code
/// space has no room for it.
pub fn ensure_stub(rt: &mut Runtime, id: FctId) -> (r: Option<u64>)
    requires
        old(rt).wf(),
    ensures
        final(rt).wf(),
        match old(rt)@.ensure_stub(id) {
            Some((view, ptr)) => r == Some(ptr) && final(rt)@ == view,
            None => r is None && final(rt)@ == old(rt)@,
        },
{
    let mut i: usize = 0;
    while i < rt.stubs.len()
        invariant
            i <= rt.stubs@.len(),
            *rt == *old(rt),
            rt.wf(),
            forall|k: int| 0 <= k < i ==> (#[trigger] rt.stubs@[k]).0 != id,
        decreases rt.stubs.len() - i,
    {
        if rt.stubs[i].0.0 == id.0 {
            proof {
                lemma_stub_find_prefix(rt.stubs@, id, i as int);
            }
            return Some(rt.stubs[i].1.ptr_start());
        }
        i += 1;
    }
    proof {
        lemma_stub_find_prefix(rt.stubs@, id, i as int);
    }
    match rt.install(STUB_LEN, CodeData::CompileStub) {
        Some(start) => {
            let stub = Stub { start, end: rt.space.top };
            rt.stubs.push((id, stub));
            Some(start)
        },
        None => None,
    }
}

/// The address at which function `id` is called, and the shared state after
/// it is made sure of: the entry of the function's code if it is compiled,
/// the function's lazy-compile stub if not. `None` if the stub is needed
/// and cannot be made.
pub open spec fn spec_ensure_jit_or_stub_ptr(src: FctSrc, id: FctId, rt: RuntimeView) -> Option<
    (RuntimeView, u64),
> {
    match src.jit_fct {
        Some(jit) => Some((rt, jit@.fct_ptr())),
        None => rt.ensure_stub(id),
    }
}

/// The address at which function `id`, whose source is `src`, is to be
/// called: its code if it is compiled, its lazy-compile stub if not. The
/// stub is kept for the function in the shared state.
pub fn ensure_jit_or_stub_ptr(src: &FctSrc, id: FctId, rt: &mut Runtime) -> (r: Option<u64>)
    requires
        old(rt).wf(),
    ensures
        final(rt).wf(),
        match spec_ensure_jit_or_stub_ptr(*src, id, old(rt)@) {
            Some((view, ptr)) => r == Some(ptr) && final(rt)@ == view,
            None => r is None && final(rt)@ == old(rt)@,
        },
{
    if let Some(jit) = &src.jit_fct {
        return Some(jit.fct_ptr());
    }
    ensure_stub(rt, id)
}

/// Asking again for the address of a function gives the same address and
/// changes nothing, for as long as the function's code stays as it is.
pub proof fn lemma_stub_ptr_idempotent(src: FctSrc, id: FctId, rt: RuntimeView)
    requires
        spec_ensure_jit_or_stub_ptr(src, id, rt) is Some,
    ensures
        ({
            let (rt1, ptr1) = spec_ensure_jit_or_stub_ptr(src, id, rt).unwrap();
            spec_ensure_jit_or_stub_ptr(src, id, rt1) == Some((rt1, ptr1))
        }),
{
    if src.jit_fct is None && stub_find(rt.stubs, id) is None {
        let (rt0, start) = rt.install(STUB_LEN as int, CodeData::CompileStub).unwrap();
        lemma_stub_find_push(rt0.stubs, (id, Stub { start, end: rt0.space_top }), id);
    }
}

/// The stub of a function that is not compiled is an entry of the code
/// map, and is the stub that is found for the function from then on.
pub proof fn lemma_stub_registered(src: FctSrc, id: FctId, rt: RuntimeView)
    requires
        src.jit_fct is None,
        stub_find(rt.stubs, id) is None,
        spec_ensure_jit_or_stub_ptr(src, id, rt) is Some,
    ensures
        ({
            let (rt1, ptr1) = spec_ensure_jit_or_stub_ptr(src, id, rt).unwrap();
            &&& ptr1 == rt.space_top
            &&& rt1.code_map == rt.code_map.push(
                (crate::runtime::CodeEntry {
                    start: ptr1,
                    end: (ptr1 + STUB_LEN) as u64,
                    data: CodeData::CompileStub,
                }),
            )
            &&& stub_find(rt1.stubs, id) == Some(Stub { start: ptr1, end: (ptr1 + STUB_LEN) as u64 })
        }),
{
    let (rt0, start) = rt.install(STUB_LEN as int, CodeData::CompileStub).unwrap();
    lemma_stub_find_push(rt0.stubs, (id, Stub { start, end: rt0.space_top }), id);
}

/// Each function has its own stub: the stub made for one function is not
/// the one made for another, and making it leaves the other's in place.
pub proof fn lemma_stub_ptr_own(a: FctSrc, b: FctSrc, ia: FctId, ib: FctId, rt: RuntimeView)
    requires
        ia != ib,
        a.jit_fct is None,
        b.jit_fct is None,
        stub_find(rt.stubs, ia) is None,
        stub_find(rt.stubs, ib) is None,
        spec_ensure_jit_or_stub_ptr(a, ia, rt) is Some,
        spec_ensure_jit_or_stub_ptr(b, ib, spec_ensure_jit_or_stub_ptr(a, ia, rt).unwrap().0) is Some,
    ensures
        ({
            let (rt1, ptr1) = spec_ensure_jit_or_stub_ptr(a, ia, rt).unwrap();
            let (rt2, ptr2) = spec_ensure_jit_or_stub_ptr(b, ib, rt1).unwrap();
            &&& ptr1 != ptr2
            &&& spec_ensure_jit_or_stub_ptr(a, ia, rt2) == Some((rt2, ptr1))
        }),
{
    let (rt0, start) = rt.install(STUB_LEN as int, CodeData::CompileStub).unwrap();
    let ea = (ia, Stub { start, end: rt0.space_top });
    lemma_stub_find_push(rt0.stubs, ea, ia);
    lemma_stub_find_push(rt0.stubs, ea, ib);
    let (rt1, ptr1) = spec_ensure_jit_or_stub_ptr(a, ia, rt).unwrap();
    let (rt3, start2) = rt1.install(STUB_LEN as int, CodeData::CompileStub).unwrap();
    let eb = (ib, Stub { start: start2, end: rt3.space_top });
    lemma_stub_find_push(rt3.stubs, eb, ia);
}

} // verus!
