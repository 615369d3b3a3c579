//! Layout of objects in the managed heap, as emitted code relies on it.

use crate::cpu::PTR_WIDTH;
use vstd::prelude::*;

verus! {

/// The prefix of every object: the pointer to its class's dispatch table, at
/// offset 0.
pub struct Header {}

impl Header {
    /// Size of the header in bytes.
    pub open spec fn spec_size() -> i32 {
        PTR_WIDTH
    }

    #[verifier::when_used_as_spec(spec_size)]
    pub fn size() -> (r: i32)
        ensures
            r == Header::spec_size(),
    {
        PTR_WIDTH
    }
}

/// Offset of an array's length: it follows the header.
pub open spec fn spec_offset_of_array_length() -> i32 {
    8
}

#[verifier::when_used_as_spec(spec_offset_of_array_length)]
pub fn offset_of_array_length() -> (r: i32)
    ensures
        r == spec_offset_of_array_length(),
        r == Header::size(),
{
    Header::size()
}

/// Offset of an array's first element: the elements follow the length.
pub open spec fn spec_offset_of_array_data() -> i32 {
    16
}

#[verifier::when_used_as_spec(spec_offset_of_array_data)]
pub fn offset_of_array_data() -> (r: i32)
    ensures
        r == spec_offset_of_array_data(),
        r == Header::size() + PTR_WIDTH,
{
    Header::size() + PTR_WIDTH
}

} // verus!
