//! The dispatch table of a class: its place in the class hierarchy, kept
//! for a subtype test in constant time, and its methods.

use crate::cpu::PTR_WIDTH;
use vstd::prelude::*;

verus! {

/// Number of ancestors that a dispatch table lists in place, by depth.
pub const DISPLAY_SIZE: usize = 6;

/// Offset of the subtype depth; the class pointer at offset 0 precedes it.
pub open spec fn spec_offset_of_depth() -> i32 {
    8
}

#[verifier::when_used_as_spec(spec_offset_of_depth)]
pub fn offset_of_depth() -> (r: i32)
    ensures
        r == spec_offset_of_depth(),
{
    8
}

/// Offset of the display, the in-place list of ancestors.
pub open spec fn spec_offset_of_display() -> i32 {
    16
}

#[verifier::when_used_as_spec(spec_offset_of_display)]
pub fn offset_of_display() -> (r: i32)
    ensures
        r == spec_offset_of_display(),
{
    16
}

/// Offset of the pointer to the overflow list, which follows the display.
pub open spec fn spec_offset_of_overflow() -> i32 {
    64
}

#[verifier::when_used_as_spec(spec_offset_of_overflow)]
pub fn offset_of_overflow() -> (r: i32)
    ensures
        r == spec_offset_of_overflow(),
        r == offset_of_display() + DISPLAY_SIZE * PTR_WIDTH,
{
    64
}

/// Offset of the method table, which follows the overflow pointer and the
/// table's length.
pub open spec fn spec_offset_of_method_table() -> i32 {
    80
}

#[verifier::when_used_as_spec(spec_offset_of_method_table)]
pub fn offset_of_method_table() -> (r: i32)
    ensures
        r == spec_offset_of_method_table(),
{
    80
}

/// Largest method index whose table entry is still addressable.
pub const METHOD_INDEX_LIMIT: u32 = 0x0fff_fff0;

/// Offset of the display entry for an ancestor of depth `depth`, which is
/// below `DISPLAY_SIZE`.
pub open spec fn spec_offset_of_display_entry(depth: i32) -> i32
    recommends
        0 <= depth < DISPLAY_SIZE,
{
    (offset_of_display() + depth * PTR_WIDTH) as i32
}

#[verifier::when_used_as_spec(spec_offset_of_display_entry)]
pub fn offset_of_display_entry(depth: i32) -> (r: i32)
    requires
        0 <= depth < DISPLAY_SIZE,
    ensures
        r == spec_offset_of_display_entry(depth),
        r == 16 + depth * 8,
{
    offset_of_display() + depth * PTR_WIDTH
}

/// Whether an ancestor of depth `depth` is listed in the display, not in
/// the overflow list.
pub open spec fn spec_in_display(depth: i32) -> bool {
    depth < DISPLAY_SIZE
}

#[verifier::when_used_as_spec(spec_in_display)]
pub fn in_display(depth: i32) -> (r: bool)
    ensures
        r == spec_in_display(depth),
{
    depth < DISPLAY_SIZE as i32
}

/// Largest depth whose entry in the overflow list is still addressable.
pub const DEPTH_LIMIT: i32 = 0x0fff_ffff;

/// Offset, within the overflow list, of the entry for an ancestor of depth
/// `depth`, which is `DISPLAY_SIZE` or more.
pub open spec fn spec_offset_in_overflow(depth: i32) -> i32
    recommends
        DISPLAY_SIZE <= depth <= DEPTH_LIMIT,
{
    (PTR_WIDTH * (depth - DISPLAY_SIZE)) as i32
}

#[verifier::when_used_as_spec(spec_offset_in_overflow)]
pub fn offset_in_overflow(depth: i32) -> (r: i32)
    requires
        DISPLAY_SIZE <= depth <= DEPTH_LIMIT,
    ensures
        r == spec_offset_in_overflow(depth),
        r == 8 * (depth - 6),
{
    PTR_WIDTH * (depth - DISPLAY_SIZE as i32)
}

/// The dispatch table of a class.
#[derive(Debug)]
pub struct VTable {
    /// Address of the table. Objects hold it in their header, and tables
    /// are told apart by it.
    pub ptr: u64,
    /// Number of proper ancestors of the class.
    pub subtype_depth: i32,
    /// Addresses of the tables of the class and its ancestors that have a
    /// depth below `DISPLAY_SIZE`, by depth.
    pub subtype_display: Vec<u64>,
    /// Address of the overflow list.
    pub subtype_overflow_ptr: u64,
    /// The overflow list: addresses of the tables of the class and its
    /// ancestors that have a depth of `DISPLAY_SIZE` or more, by depth less
    /// `DISPLAY_SIZE`.
    pub subtype_overflow: Vec<u64>,
    /// Entry addresses of the methods, by method index.
    pub table: Vec<u64>,
}

impl VTable {
    /// The invariant of a dispatch table: the display has its full size,
    /// and the overflow list reaches as far as the depth of the class.
    pub open spec fn wf(&self) -> bool {
        &&& 0 <= self.subtype_depth
        &&& self.subtype_display@.len() == DISPLAY_SIZE
        &&& self.subtype_depth >= DISPLAY_SIZE ==> self.subtype_overflow@.len() > self.subtype_depth
            - DISPLAY_SIZE
    }

    /// Whether the class of this table is the class of table `t` or one of
    /// its descendants: the table of `t` stands at the depth of `t` in the
    /// display of this table, or, for a `t` of depth `DISPLAY_SIZE` or more,
    /// this class is at least as deep and the table of `t` stands at the
    /// depth of `t` in its overflow list.
    pub open spec fn spec_is_subtype_of(&self, t: &VTable) -> bool {
        if t.subtype_depth < DISPLAY_SIZE {
            0 <= t.subtype_depth && self.subtype_display@[t.subtype_depth as int] == t.ptr
        } else {
            self.subtype_depth >= t.subtype_depth && self.subtype_overflow@[t.subtype_depth
                - DISPLAY_SIZE] == t.ptr
        }
    }

    /// Whether the class of this table is the class of table `t` or one of
    /// its descendants.
    #[verifier::when_used_as_spec(spec_is_subtype_of)]
    pub fn is_subtype_of(&self, t: &VTable) -> (r: bool)
        requires
            self.wf(),
        ensures
            r == self.spec_is_subtype_of(t),
    {
        if in_display(t.subtype_depth) {
            0 <= t.subtype_depth && self.subtype_display[index_of_depth(t.subtype_depth)] == t.ptr
        } else {
            self.subtype_depth >= t.subtype_depth && self.subtype_overflow[index_of_depth(
                t.subtype_depth,
            ) - DISPLAY_SIZE] == t.ptr
        }
    }

    /// Whether memory holds this table as emitted code expects it: the
    /// depth behind the class pointer, then the display, then the address
    /// of the overflow list; and the overflow list where that address
    /// says.
    pub open spec fn laid_out(&self, mem: Map<int, int>) -> bool {
        &&& mem[self.ptr + offset_of_depth()] == self.subtype_depth
        &&& forall|i: int|
            0 <= i < DISPLAY_SIZE ==> #[trigger] mem[self.ptr + offset_of_display() + i * PTR_WIDTH]
                == self.subtype_display@[i]
        &&& mem[self.ptr + offset_of_overflow()] == self.subtype_overflow_ptr
        &&& forall|j: int|
            0 <= j < self.subtype_overflow@.len() ==> #[trigger] mem[self.subtype_overflow_ptr + j
                * PTR_WIDTH] == self.subtype_overflow@[j]
    }
}

/// A depth as an index.
fn index_of_depth(depth: i32) -> (r: usize)
    requires
        0 <= depth,
    ensures
        r == depth,
{
    depth as usize
}

} // verus!
