//! What code generation shares between functions and changes as it goes:
//! the space that code is installed in, the map from code addresses to what
//! lives there, the native stubs made so far, the lazy-compile stub, and the
//! permanent heap of string literals.
//!
//! Addresses are plain numbers. The embedder reserves the address ranges and
//! copies what is installed here to the memory behind them.

use crate::ctxt::FctId;
use crate::fct::{JitFct, JitFctView};
use vstd::prelude::*;
use vstd::slice::slice_to_vec;

verus! {

/// What lives at a range of code addresses.
#[derive(Clone, Copy, PartialEq, Eq, Structural, Debug)]
pub enum CodeData {
    CompileStub,
    Fct(FctId),
    NativeFct(FctId),
}

/// A range of code addresses, `start..end`, and what lives there.
#[derive(Clone, Copy, PartialEq, Eq, Structural, Debug)]
pub struct CodeEntry {
    pub start: u64,
    pub end: u64,
    pub data: CodeData,
}

impl CodeEntry {
    pub open spec fn contains(self, ptr: u64) -> bool {
        self.start <= ptr < self.end
    }

    pub open spec fn disjoint(self, start: u64, end: u64) -> bool {
        end <= self.start || self.end <= start
    }
}

/// The ranges are not empty and no two of them overlap.
pub open spec fn code_map_wf(entries: Seq<CodeEntry>) -> bool {
    &&& forall|i: int| 0 <= i < entries.len() ==> (#[trigger] entries[i]).start < entries[i].end
    &&& forall|i: int, j: int|
        0 <= i < j < entries.len() ==> (#[trigger] entries[i]).disjoint(
            (#[trigger] entries[j]).start,
            entries[j].end,
        )
}

/// What lives at `ptr`, if anything does.
pub open spec fn code_map_get(entries: Seq<CodeEntry>, ptr: u64) -> Option<CodeData> {
    if exists|i: int| 0 <= i < entries.len() && (#[trigger] entries[i]).contains(ptr) {
        let i = choose|i: int| 0 <= i < entries.len() && (#[trigger] entries[i]).contains(ptr);
        Some(entries[i].data)
    } else {
        None
    }
}

/// The map from code addresses to what lives there.
#[derive(Debug)]
pub struct CodeMap {
    entries: Vec<CodeEntry>,
}

impl View for CodeMap {
    type V = Seq<CodeEntry>;

    closed spec fn view(&self) -> Seq<CodeEntry> {
        self.entries@
    }
}

impl CodeMap {
    pub open spec fn wf(&self) -> bool {
        code_map_wf(self@)
    }

    /// A map that knows no code yet.
    pub fn new() -> (m: CodeMap)
        ensures
            m@ == Seq::<CodeEntry>::empty(),
            m.wf(),
    {
        CodeMap { entries: Vec::new() }
    }

    /// Registers `data` as what lives at `start..end`.
    pub fn insert(&mut self, start: u64, end: u64, data: CodeData)
        requires
            old(self).wf(),
            start < end,
            forall|i: int| 0 <= i < old(self)@.len() ==> (#[trigger] old(self)@[i]).disjoint(start, end),
        ensures
            final(self)@ == old(self)@.push(CodeEntry { start, end, data }),
            final(self).wf(),
    {
        self.entries.push(CodeEntry { start, end, data });
    }

    /// What lives at `ptr`.
    pub fn get(&self, ptr: u64) -> (r: Option<CodeData>)
        requires
            self.wf(),
        ensures
            r == code_map_get(self@, ptr),
    {
        let mut i: usize = 0;
        while i < self.entries.len()
            invariant
                i <= self.entries.len(),
                self.wf(),
                forall|k: int| 0 <= k < i ==> !(#[trigger] self@[k]).contains(ptr),
            decreases self.entries.len() - i,
        {
            let e = self.entries[i];
            if e.start <= ptr && ptr < e.end {
                proof {
                    let k = choose|k: int| 0 <= k < self@.len() && (#[trigger] self@[k]).contains(ptr);
                    if k < i {
                        assert(!self@[k].contains(ptr));
                    } else if k > i {
                        assert(self@[i as int].disjoint(self@[k].start, self@[k].end));
                    }
                }
                return Some(e.data);
            }
            i += 1;
        }
        None
    }

    /// Number of ranges registered.
    pub fn len(&self) -> (n: usize)
        ensures
            n == self@.len(),
    {
        self.entries.len()
    }
}

/// The part of the address space that code is installed in. Addresses are
/// handed out from `top` upwards and never taken back.
#[derive(Debug)]
pub struct CodeSpace {
    pub top: u64,
    pub limit: u64,
}

impl CodeSpace {
    /// The space `start..limit`, all of it free.
    pub fn new(start: u64, limit: u64) -> (s: CodeSpace)
        ensures
            s.top == start,
            s.limit == limit,
    {
        CodeSpace { top: start, limit }
    }

    /// Whether `len` more addresses are free.
    pub open spec fn has_room(&self, len: int) -> bool {
        self.top + len <= self.limit
    }

    /// Takes the next `len` addresses. Returns the first of them, or `None`,
    /// with nothing taken, if fewer are free.
    pub fn take(&mut self, len: usize) -> (r: Option<u64>)
        ensures
            final(self).limit == old(self).limit,
            match r {
                Some(start) => {
                    &&& old(self).has_room(len as int)
                    &&& start == old(self).top
                    &&& final(self).top == old(self).top + len
                },
                None => !old(self).has_room(len as int) && final(self).top == old(self).top,
            },
    {
        if self.top <= self.limit && len as u64 <= self.limit - self.top {
            let start = self.top;
            self.top = self.top + len as u64;
            Some(start)
        } else {
            None
        }
    }
}

/// A lazy-compile stub: a call that arrives in `start..end` has the callee
/// compiled, the call site patched and the call carried on in the callee.
#[derive(Clone, Copy, PartialEq, Eq, Structural, Debug)]
pub struct Stub {
    pub start: u64,
    pub end: u64,
}

/// Number of bytes the lazy-compile stub takes.
pub const STUB_LEN: usize = 8;

impl Stub {
    /// Address at which the stub is entered.
    pub open spec fn spec_ptr_start(self) -> u64 {
        self.start
    }

    #[verifier::when_used_as_spec(spec_ptr_start)]
    pub fn ptr_start(self) -> (r: u64)
        ensures
            r == self.spec_ptr_start(),
    {
        self.start
    }

    /// Address behind the stub.
    pub open spec fn spec_ptr_end(self) -> u64 {
        self.end
    }

    #[verifier::when_used_as_spec(spec_ptr_end)]
    pub fn ptr_end(self) -> (r: u64)
        ensures
            r == self.spec_ptr_end(),
    {
        self.end
    }
}

/// The lazy-compile stub made for function `id`, if one was made.
pub open spec fn stub_find(stubs: Seq<(FctId, Stub)>, id: FctId) -> Option<Stub>
    decreases stubs.len(),
{
    if stubs.len() == 0 {
        None
    } else if stubs[0].0 == id {
        Some(stubs[0].1)
    } else {
        stub_find(stubs.drop_first(), id)
    }
}

/// A function that has no stub among the first `i` has the stub that the
/// rest holds for it.
pub proof fn lemma_stub_find_prefix(stubs: Seq<(FctId, Stub)>, id: FctId, i: int)
    requires
        0 <= i <= stubs.len(),
        forall|k: int| 0 <= k < i ==> (#[trigger] stubs[k]).0 != id,
    ensures
        stub_find(stubs, id) == stub_find(stubs.skip(i), id),
    decreases i,
{
    if i > 0 {
        assert(stubs[0].0 != id);
        let rest = stubs.drop_first();
        assert forall|k: int| 0 <= k < i - 1 implies (#[trigger] rest[k]).0 != id by {
            assert(rest[k] == stubs[k + 1]);
        }
        lemma_stub_find_prefix(rest, id, i - 1);
        assert(rest.skip(i - 1) =~= stubs.skip(i));
    } else {
        assert(stubs.skip(0) =~= stubs);
    }
}

/// A stub that is added is found for its function, unless the function has
/// one already; the stubs of the other functions stay.
pub proof fn lemma_stub_find_push(stubs: Seq<(FctId, Stub)>, e: (FctId, Stub), id: FctId)
    ensures
        stub_find(stubs.push(e), id) == match stub_find(stubs, id) {
            Some(s) => Some(s),
            None => if e.0 == id {
                Some(e.1)
            } else {
                None
            },
        },
    decreases stubs.len(),
{
    if stubs.len() == 0 {
        assert(stubs.push(e).drop_first() =~= stubs);
    } else {
        assert(stubs.push(e).drop_first() =~= stubs.drop_first().push(e));
        if stubs[0].0 != id {
            lemma_stub_find_push(stubs.drop_first(), e, id);
        }
    }
}

/// The entry of the stub made for native function `ptr`, if one was made.
pub open spec fn native_find(map: Seq<(u64, JitFctView)>, ptr: u64) -> Option<u64>
    decreases map.len(),
{
    if map.len() == 0 {
        None
    } else if map[0].0 == ptr {
        Some(map[0].1.fct_ptr())
    } else {
        native_find(map.drop_first(), ptr)
    }
}

/// The stubs made for native functions, by the address of the function.
#[derive(Debug)]
pub struct NativeFcts {
    map: Vec<(u64, JitFct)>,
}

impl View for NativeFcts {
    type V = Seq<(u64, JitFctView)>;

    closed spec fn view(&self) -> Seq<(u64, JitFctView)> {
        self.map@.map_values(|e: (u64, JitFct)| (e.0, e.1@))
    }
}

proof fn lemma_native_find_prefix(map: Seq<(u64, JitFctView)>, ptr: u64, i: int)
    requires
        0 <= i <= map.len(),
        forall|k: int| 0 <= k < i ==> (#[trigger] map[k]).0 != ptr,
    ensures
        native_find(map, ptr) == native_find(map.skip(i), ptr),
    decreases i,
{
    if i > 0 {
        assert(map[0].0 != ptr);
        let rest = map.drop_first();
        assert forall|k: int| 0 <= k < i - 1 implies (#[trigger] rest[k]).0 != ptr by {
            assert(rest[k] == map[k + 1]);
        }
        lemma_native_find_prefix(rest, ptr, i - 1);
        assert(rest.skip(i - 1) =~= map.skip(i));
    } else {
        assert(map.skip(0) =~= map);
    }
}

proof fn lemma_native_find_push(map: Seq<(u64, JitFctView)>, e: (u64, JitFctView), ptr: u64)
    ensures
        native_find(map.push(e), ptr) == match native_find(map, ptr) {
            Some(p) => Some(p),
            None => if e.0 == ptr {
                Some(e.1.fct_ptr())
            } else {
                None
            },
        },
    decreases map.len(),
{
    if map.len() == 0 {
        assert(map.push(e).drop_first() =~= map);
    } else {
        assert(map.push(e).drop_first() =~= map.drop_first().push(e));
        if map[0].0 != ptr {
            lemma_native_find_push(map.drop_first(), e, ptr);
        }
    }
}

impl NativeFcts {
    /// No stubs.
    pub fn new() -> (n: NativeFcts)
        ensures
            n@ == Seq::<(u64, JitFctView)>::empty(),
    {
        let n = NativeFcts { map: Vec::new() };
        assert(n@ =~= Seq::<(u64, JitFctView)>::empty());
        n
    }

    /// The entry of the stub made for native function `ptr`.
    pub fn find_fct(&self, ptr: u64) -> (r: Option<u64>)
        ensures
            r == native_find(self@, ptr),
    {
        let mut i: usize = 0;
        while i < self.map.len()
            invariant
                i <= self.map.len(),
                self@.len() == self.map.len(),
                forall|k: int| 0 <= k < i ==> (#[trigger] self@[k]).0 != ptr,
            decreases self.map.len() - i,
        {
            if self.map[i].0 == ptr {
                proof {
                    lemma_native_find_prefix(self@, ptr, i as int);
                    assert(self@.skip(i as int)[0] == self@[i as int]);
                }
                return Some(self.map[i].1.fct_ptr());
            }
            i += 1;
        }
        proof {
            lemma_native_find_prefix(self@, ptr, i as int);
        }
        None
    }

    /// Keeps `fct` as the stub of native function `ptr`, which has none
    /// yet, and returns its entry.
    pub fn insert_fct(&mut self, ptr: u64, fct: JitFct) -> (r: u64)
        requires
            native_find(old(self)@, ptr) is None,
        ensures
            final(self)@ == old(self)@.push((ptr, fct@)),
            r == fct@.fct_ptr(),
            native_find(final(self)@, ptr) == Some(r),
            forall|other: u64|
                other != ptr ==> native_find(final(self)@, other) == native_find(old(self)@, other),
    {
        let r = fct.fct_ptr();
        let ghost view = fct@;
        self.map.push((ptr, fct));
        proof {
            assert(self@ =~= old(self)@.push((ptr, view)));
            lemma_native_find_push(old(self)@, (ptr, view), ptr);
            assert forall|other: u64| other != ptr implies native_find(self@, other) == native_find(
                old(self)@,
                other,
            ) by {
                lemma_native_find_push(old(self)@, (ptr, view), other);
            }
        }
        r
    }

    /// Number of stubs.
    pub fn len(&self) -> (n: usize)
        ensures
            n == self@.len(),
    {
        self.map.len()
    }
}

/// A string object in the permanent heap.
#[derive(Debug)]
pub struct PermStr {
    pub addr: u64,
    pub bytes: Vec<u8>,
}

/// Size of the string object for `len` bytes of text: header, length and
/// text, padded to whole words.
pub open spec fn spec_str_size(len: int) -> int {
    ((16 + len + 7) / 8) * 8
}

/// The heap of objects that are never collected. String literals of
/// compiled code live here.
#[derive(Debug)]
pub struct PermHeap {
    pub top: u64,
    pub limit: u64,
    pub strs: Vec<PermStr>,
}

impl PermHeap {
    /// The heap `start..limit`, empty.
    pub fn new(start: u64, limit: u64) -> (h: PermHeap)
        ensures
            h.top == start,
            h.limit == limit,
            h.strs@.len() == 0,
    {
        PermHeap { top: start, limit, strs: Vec::new() }
    }

    /// The strings of the heap, each with its address.
    pub open spec fn spec_strs(&self) -> Seq<(u64, Seq<u8>)> {
        self.strs@.map_values(|s: PermStr| (s.addr, s.bytes@))
    }

    /// Whether a string of `len` bytes still fits.
    pub open spec fn has_room(&self, len: int) -> bool {
        self.top + spec_str_size(len) <= self.limit
    }

    /// Makes a string object that holds `bytes` and returns its address, or
    /// `None`, with the heap as it was, if it does not fit.
    pub fn intern(&mut self, bytes: &[u8]) -> (r: Option<u64>)
        ensures
            final(self).limit == old(self).limit,
            match r {
                Some(addr) => {
                    &&& old(self).has_room(bytes@.len() as int)
                    &&& addr == old(self).top
                    &&& final(self).top == old(self).top + spec_str_size(bytes@.len() as int)
                    &&& final(self).spec_strs() == old(self).spec_strs().push((addr, bytes@))
                },
                None => {
                    &&& !old(self).has_room(bytes@.len() as int)
                    &&& final(self).top == old(self).top
                    &&& final(self).spec_strs() == old(self).spec_strs()
                },
            },
    {
        let len = bytes.len();
        let size: u128 = ((16 + len as u128 + 7) / 8) * 8;
        if self.top as u128 + size > self.limit as u128 {
            return None;
        }
        let addr = self.top;
        self.top = self.top + size as u64;
        self.strs.push(PermStr { addr, bytes: slice_to_vec(bytes) });
        assert(self.spec_strs() =~= old(self).spec_strs().push((addr, bytes@)));
        Some(addr)
    }
}

/// The shared state as a value.
pub struct RuntimeView {
    pub space_top: u64,
    pub space_limit: u64,
    pub code_map: Seq<CodeEntry>,
    pub native_fcts: Seq<(u64, JitFctView)>,
    /// The lazy-compile stubs, each with the function it was made for.
    pub stubs: Seq<(FctId, Stub)>,
    pub perm_top: u64,
    pub perm_limit: u64,
    pub perm_strs: Seq<(u64, Seq<u8>)>,
}

impl RuntimeView {
    /// The invariant: the code map is well formed and knows no code beyond
    /// what the code space has handed out.
    pub open spec fn wf(self) -> bool {
        &&& code_map_wf(self.code_map)
        &&& forall|i: int| 0 <= i < self.code_map.len() ==> (#[trigger] self.code_map[i]).end <= self.space_top
    }

    /// The state after a string that holds `bytes` is interned, and the
    /// string's address; `None` if the permanent heap is full.
    pub open spec fn intern(self, bytes: Seq<u8>) -> Option<(RuntimeView, u64)> {
        if self.perm_top + spec_str_size(bytes.len() as int) <= self.perm_limit {
            Some(
                (
                    RuntimeView {
                        perm_top: (self.perm_top + spec_str_size(bytes.len() as int)) as u64,
                        perm_strs: self.perm_strs.push((self.perm_top, bytes)),
                        ..self
                    },
                    self.perm_top,
                ),
            )
        } else {
            None
        }
    }

    /// The state after `len` code addresses are taken and registered as
    /// `data`, and the first of the addresses; `None` if fewer are free.
    pub open spec fn install(self, len: int, data: CodeData) -> Option<(RuntimeView, u64)> {
        if self.space_top + len <= self.space_limit {
            let end = (self.space_top + len) as u64;
            Some(
                (
                    RuntimeView {
                        space_top: end,
                        code_map: self.code_map.push(CodeEntry { start: self.space_top, end, data }),
                        ..self
                    },
                    self.space_top,
                ),
            )
        } else {
            None
        }
    }

    /// The state after the lazy-compile stub of function `id` is made sure
    /// of, and the stub's entry: the stub that was made for the function,
    /// or else a new one, registered in the code map and kept for the
    /// function. `None` if the code space is full.
    pub open spec fn ensure_stub(self, id: FctId) -> Option<(RuntimeView, u64)> {
        match stub_find(self.stubs, id) {
            Some(stub) => Some((self, stub.ptr_start())),
            None => match self.install(STUB_LEN as int, CodeData::CompileStub) {
                Some((rt, start)) => Some(
                    (
                        RuntimeView {
                            stubs: rt.stubs.push((id, Stub { start, end: rt.space_top })),
                            ..rt
                        },
                        start,
                    ),
                ),
                None => None,
            },
        }
    }
}

/// The shared state.
#[derive(Debug)]
pub struct Runtime {
    pub space: CodeSpace,
    pub code_map: CodeMap,
    pub native_fcts: NativeFcts,
    /// The lazy-compile stubs, each with the function it was made for.
    pub stubs: Vec<(FctId, Stub)>,
    pub perm: PermHeap,
}

impl View for Runtime {
    type V = RuntimeView;

    open spec fn view(&self) -> RuntimeView {
        RuntimeView {
            space_top: self.space.top,
            space_limit: self.space.limit,
            code_map: self.code_map@,
            native_fcts: self.native_fcts@,
            stubs: self.stubs@,
            perm_top: self.perm.top,
            perm_limit: self.perm.limit,
            perm_strs: self.perm.spec_strs(),
        }
    }
}

impl Runtime {
    pub open spec fn wf(&self) -> bool {
        self@.wf()
    }

    /// The state in which nothing is installed: code goes to
    /// `code_start..code_limit`, string literals to `perm_start..perm_limit`.
    pub fn new(code_start: u64, code_limit: u64, perm_start: u64, perm_limit: u64) -> (rt: Runtime)
        ensures
            rt.wf(),
            rt@.space_top == code_start,
            rt@.space_limit == code_limit,
            rt@.code_map.len() == 0,
            rt@.native_fcts.len() == 0,
            rt@.stubs.len() == 0,
            rt@.perm_top == perm_start,
            rt@.perm_limit == perm_limit,
            rt@.perm_strs.len() == 0,
    {
        Runtime {
            space: CodeSpace::new(code_start, code_limit),
            code_map: CodeMap::new(),
            native_fcts: NativeFcts::new(),
            stubs: Vec::new(),
            perm: PermHeap::new(perm_start, perm_limit),
        }
    }

    /// Interns a string literal in the permanent heap.
    pub fn intern(&mut self, bytes: &[u8]) -> (r: Option<u64>)
        ensures
            match old(self)@.intern(bytes@) {
                Some((rt, addr)) => r == Some(addr) && final(self)@ == rt,
                None => r is None && final(self)@ == old(self)@,
            },
    {
        self.perm.intern(bytes)
    }

    /// Takes `len` code addresses and registers them as `data`.
    pub fn install(&mut self, len: usize, data: CodeData) -> (r: Option<u64>)
        requires
            old(self).wf(),
            len > 0,
        ensures
            final(self).wf(),
            match old(self)@.install(len as int, data) {
                Some((rt, start)) => r == Some(start) && final(self)@ == rt,
                None => r is None && final(self)@ == old(self)@,
            },
    {
        match self.space.take(len) {
            Some(start) => {
                let end = self.space.top;
                assert forall|i: int| 0 <= i < self.code_map@.len() implies (
                #[trigger] self.code_map@[i]).disjoint(start, end) by {
                    assert(old(self)@.code_map[i].end <= old(self)@.space_top);
                }
                self.code_map.insert(start, end, data);
                Some(start)
            },
            None => None,
        }
    }
}

} // verus!
