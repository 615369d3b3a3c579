//! The tables that accompany the instructions of a compiled function.

use crate::class::{ClassId, FieldId};
use crate::ctxt::{FctId, VarId};
use crate::image::{assemble, code_size, spec_code_size, spec_image, IMAGE_LIMIT};
use crate::masm::{Insn, MacroAssembler, MasmView};
use vstd::prelude::*;

verus! {

/// Which exceptions a handler takes.
#[derive(Clone, Copy, PartialEq, Eq, Structural, Debug)]
pub enum CatchType {
    Any,
    Class(ClassId),
}

/// A guarded region: an exception raised at a position in
/// `try_start..try_end` resumes at `catch`.
#[derive(Clone, Copy, PartialEq, Eq, Structural, Debug)]
pub struct ExHandler {
    pub try_start: usize,
    pub try_end: usize,
    pub catch: usize,
    pub offset: Option<i32>,
    pub catch_type: CatchType,
}

/// A note for the disassembly listing.
#[derive(Clone, Copy, PartialEq, Eq, Structural, Debug)]
pub enum Comment {
    CheckAssert,
    LoadString(u64),
    Alloc(ClassId),
    StoreVTable(ClassId),
    CallSuper(FctId),
    CallVirtual(FctId),
    CallDirect(FctId),
    StoreField(ClassId, FieldId),
    LoadField(ClassId, FieldId),
    StoreVar(VarId),
    LoadVar(VarId),
    LoadSelf(VarId),
}

/// The frame slots that hold a live reference at one safepoint.
#[derive(Debug)]
pub struct GcPoint {
    pub offsets: Vec<i32>,
}

impl View for GcPoint {
    type V = Set<i32>;

    open spec fn view(&self) -> Set<i32> {
        self.offsets@.to_set()
    }
}

impl GcPoint {
    /// A safepoint without live references.
    pub fn new() -> (g: GcPoint)
        ensures
            g@ == Set::<i32>::empty(),
    {
        let g = GcPoint { offsets: Vec::new() };
        assert(g.offsets@.to_set() =~= Set::<i32>::empty());
        g
    }

    /// The safepoint whose live slots are the members of `offsets`.
    pub fn from_offsets(offsets: Vec<i32>) -> (g: GcPoint)
        ensures
            g@ == offsets@.to_set(),
    {
        GcPoint { offsets }
    }

    /// A copy of this safepoint.
    pub fn duplicate(&self) -> (g: GcPoint)
        ensures
            g@ == self@,
            g.offsets@ == self.offsets@,
    {
        let mut offsets: Vec<i32> = Vec::new();
        let mut i: usize = 0;
        while i < self.offsets.len()
            invariant
                i <= self.offsets.len(),
                offsets@ == self.offsets@.take(i as int),
            decreases self.offsets.len() - i,
        {
            offsets.push(self.offsets[i]);
            assert(self.offsets@.take(i + 1) =~= self.offsets@.take(i as int).push(
                self.offsets@[i as int],
            ));
            i += 1;
        }
        assert(self.offsets@.take(i as int) =~= self.offsets@);
        GcPoint { offsets }
    }
}

/// A compiled function as a value: where it is installed, the size of its
/// frame, and its finished listing.
pub struct JitFctView {
    pub fct_start: u64,
    pub framesize: i32,
    pub listing: MasmView,
}

/// A compiled function: its code and the tables the runtime reads. It owns
/// both for as long as the code may run.
#[derive(Debug)]
pub struct JitFct {
    fct_start: u64,
    framesize: i32,
    listing: MacroAssembler,
}

impl View for JitFct {
    type V = JitFctView;

    closed spec fn view(&self) -> JitFctView {
        JitFctView { fct_start: self.fct_start, framesize: self.framesize, listing: self.listing@ }
    }
}

impl JitFctView {
    /// The invariant of a compiled function: no trap exit waits, every jump
    /// is bound to a position of the listing, the pool lies before the
    /// entry, and the code's address range is within the limit and does not
    /// wrap.
    pub open spec fn wf(self) -> bool {
        &&& self.listing.bailouts.len() == 0
        &&& self.listing.all_bound()
        &&& 0 <= self.listing.dseg.size <= self.fct_start
        &&& spec_code_size(self.listing.insns) <= IMAGE_LIMIT
        &&& self.fct_start + spec_code_size(self.listing.insns) <= u64::MAX
    }

    /// Address of the first byte of the pool: where the function's image
    /// lies.
    pub open spec fn image_start(self) -> u64 {
        (self.fct_start - self.listing.dseg.size) as u64
    }

    /// Address of the first instruction.
    pub open spec fn fct_ptr(self) -> u64 {
        self.fct_start
    }

    /// Address behind the last instruction.
    pub open spec fn fct_end(self) -> u64 {
        (self.fct_start + spec_code_size(self.listing.insns)) as u64
    }
}

impl JitFct {
    pub open spec fn wf(&self) -> bool {
        self@.wf()
    }

    /// Takes a finished listing as the code of the function that is
    /// entered at `start`.
    pub fn new(start: u64, framesize: i32, listing: MacroAssembler) -> (r: JitFct)
        requires
            listing@.bailouts.len() == 0,
            listing@.all_bound(),
            0 <= listing@.dseg.size <= start,
            spec_code_size(listing@.insns) <= IMAGE_LIMIT,
            start + spec_code_size(listing@.insns) <= u64::MAX,
        ensures
            r@ == (JitFctView { fct_start: start, framesize, listing: listing@ }),
            r.wf(),
    {
        JitFct { fct_start: start, framesize, listing }
    }

    /// Address of the first instruction, at which the function is entered.
    pub fn fct_ptr(&self) -> (r: u64)
        ensures
            r == self@.fct_ptr(),
    {
        self.fct_start
    }

    /// Address behind the last instruction.
    pub fn fct_end(&self) -> (r: u64)
        requires
            self.wf(),
        ensures
            r == self@.fct_end(),
    {
        self.fct_start + self.fct_len() as u64
    }

    /// Number of bytes of the code.
    pub fn fct_len(&self) -> (r: usize)
        requires
            self.wf(),
        ensures
            r == spec_code_size(self@.listing.insns),
    {
        match code_size(&self.listing) {
            Some(n) => n,
            None => 0,
        }
    }

    /// Address of the first byte of the pool: where the function's image
    /// lies.
    pub fn image_start(&self) -> (r: u64)
        requires
            self.wf(),
        ensures
            r == self@.image_start(),
    {
        self.fct_start - self.listing.dseg().size() as u64
    }

    /// The bytes to be written at `image_start`: the pool, then the
    /// instructions. `None` if an instruction cannot be encoded where it
    /// stands.
    pub fn image(&self) -> (r: Option<Vec<u8>>)
        requires
            self.wf(),
        ensures
            match spec_image(self@.listing) {
                Some(image) => r matches Some(bytes) && bytes@ == image,
                None => r is None,
            },
    {
        assemble(&self.listing)
    }

    /// Size of the function's frame in bytes.
    pub fn framesize(&self) -> (r: i32)
        ensures
            r == self@.framesize,
    {
        self.framesize
    }

    /// Where the jump at position `i` goes: the position that its label is
    /// bound to, which lies within the code or directly behind it. `None`
    /// if the instruction at `i` is no jump.
    pub fn jump_target(&self, i: usize) -> (r: Option<usize>)
        requires
            self.wf(),
            i < self@.listing.insns.len(),
        ensures
            match self@.listing.insns[i as int].target() {
                Some(l) => {
                    &&& r == self@.listing.labels[l.0 as int]
                    &&& r matches Some(p)
                    &&& p <= self@.listing.insns.len()
                },
                None => r is None,
            },
    {
        let label = match self.listing.insn(i) {
            Insn::Jump(l) => l,
            Insn::JumpIf(_, l) => l,
            _ => return None,
        };
        self.listing.label_pos(label)
    }

    /// The code and its tables.
    pub fn listing(&self) -> (r: &MacroAssembler)
        ensures
            r@ == self@.listing,
    {
        &self.listing
    }
}

} // verus!
