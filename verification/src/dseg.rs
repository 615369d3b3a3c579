//! The constant pool of one function: addresses and literals that emitted
//! code loads relative to its own position.

use vstd::prelude::*;

verus! {

/// What a pool entry holds. Floating-point literals are kept as their bit
/// patterns.
#[derive(Clone, Copy, PartialEq, Eq, Structural, Debug)]
pub enum DSegValue {
    Ptr(u64),
    Float(u32),
    Double(u64),
}

/// A pool entry and its displacement from the pool's end.
#[derive(Clone, Copy, PartialEq, Eq, Structural, Debug)]
pub struct DSegEntry {
    pub disp: i32,
    pub value: DSegValue,
}

/// Largest pool size at which another entry can still be added.
pub const DSEG_LIMIT: i32 = 0x3fff_fff0;

/// `value` rounded up to a multiple of `align`.
pub open spec fn spec_align(value: int, align: int) -> int {
    ((value + align - 1) / align) * align
}

/// The displacement that the next entry of `width` bytes gets in a pool of
/// `size` bytes: the entry is appended and the pool padded to its width.
pub open spec fn next_disp(size: int, width: int) -> int {
    spec_align(size + width, width)
}

pub proof fn lemma_next_disp(size: int, width: int)
    requires
        0 <= size,
        width == 4 || width == 8,
    ensures
        size + width <= next_disp(size, width) < size + 2 * width,
        next_disp(size, width) % width == 0,
{
    if width == 4 {
        assert(size + 4 <= ((size + 4 + 4 - 1) / 4) * 4 < size + 8);
        assert((((size + 4 + 4 - 1) / 4) * 4) % 4 == 0);
    } else {
        assert(size + 8 <= ((size + 8 + 8 - 1) / 8) * 8 < size + 16);
        assert((((size + 8 + 8 - 1) / 8) * 8) % 8 == 0);
    }
}

/// The pool.
#[derive(Debug)]
pub struct DSeg {
    entries: Vec<DSegEntry>,
    size: i32,
}

/// A pool as a value: its entries in the order they were added, and its
/// size in bytes.
pub struct DSegView {
    pub entries: Seq<DSegEntry>,
    pub size: i32,
}

impl DSegView {
    /// Whether another entry can be added.
    pub open spec fn has_room(self) -> bool {
        0 <= self.size <= DSEG_LIMIT
    }

    /// The pool after adding `value`, which takes `width` bytes.
    pub open spec fn add(self, value: DSegValue, width: int) -> DSegView {
        let disp = next_disp(self.size as int, width) as i32;
        DSegView { entries: self.entries.push(DSegEntry { disp, value }), size: disp }
    }

    pub open spec fn add_addr(self, ptr: u64) -> DSegView {
        self.add(DSegValue::Ptr(ptr), 8)
    }

    pub open spec fn add_float(self, bits: u32) -> DSegView {
        self.add(DSegValue::Float(bits), 4)
    }

    pub open spec fn add_double(self, bits: u64) -> DSegView {
        self.add(DSegValue::Double(bits), 8)
    }
}

impl View for DSeg {
    type V = DSegView;

    closed spec fn view(&self) -> DSegView {
        DSegView { entries: self.entries@, size: self.size }
    }
}

impl DSeg {
    /// An empty pool.
    pub fn new() -> (d: DSeg)
        ensures
            d@.entries == Seq::<DSegEntry>::empty(),
            d@.size == 0,
    {
        DSeg { entries: Vec::new(), size: 0 }
    }

    /// Size of the pool in bytes.
    pub fn size(&self) -> (r: i32)
        ensures
            r == self@.size,
    {
        self.size
    }

    /// Number of entries.
    pub fn len(&self) -> (r: usize)
        ensures
            r == self@.entries.len(),
    {
        self.entries.len()
    }

    /// Entry `i`, in the order of addition.
    pub fn entry(&self, i: usize) -> (e: DSegEntry)
        requires
            i < self@.entries.len(),
        ensures
            e == self@.entries[i as int],
    {
        self.entries[i]
    }

    fn add(&mut self, value: DSegValue, width: i32) -> (disp: i32)
        requires
            old(self)@.has_room(),
            width == 4 || width == 8,
        ensures
            final(self)@ == old(self)@.add(value, width as int),
            disp == final(self)@.size,
            old(self)@.size + width <= disp < old(self)@.size + 2 * width,
    {
        proof {
            lemma_next_disp(self.size as int, width as int);
        }
        let disp = ((self.size + width + width - 1) / width) * width;
        self.entries.push(DSegEntry { disp, value });
        self.size = disp;
        disp
    }

    /// Appends an address and returns its displacement.
    pub fn add_addr(&mut self, ptr: u64) -> (disp: i32)
        requires
            old(self)@.has_room(),
        ensures
            final(self)@ == old(self)@.add_addr(ptr),
            disp == final(self)@.size,
            old(self)@.size + 8 <= disp < old(self)@.size + 16,
    {
        self.add(DSegValue::Ptr(ptr), 8)
    }

    /// Appends a single-precision literal, given by its bits.
    pub fn add_float(&mut self, bits: u32) -> (disp: i32)
        requires
            old(self)@.has_room(),
        ensures
            final(self)@ == old(self)@.add_float(bits),
            disp == final(self)@.size,
            old(self)@.size + 4 <= disp < old(self)@.size + 8,
    {
        self.add(DSegValue::Float(bits), 4)
    }

    /// Appends a double-precision literal, given by its bits.
    pub fn add_double(&mut self, bits: u64) -> (disp: i32)
        requires
            old(self)@.has_room(),
        ensures
            final(self)@ == old(self)@.add_double(bits),
            disp == final(self)@.size,
            old(self)@.size + 8 <= disp < old(self)@.size + 16,
    {
        self.add(DSegValue::Double(bits), 8)
    }
}

} // verus!
