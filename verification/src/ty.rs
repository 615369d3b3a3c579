//! Source-level types and the machine modes they are held in.

use crate::class::ClassId;
use vstd::prelude::*;

verus! {

/// Index of a struct definition.
#[derive(Clone, Copy, PartialEq, Eq, Structural, Debug)]
pub struct StructId(pub usize);

/// Width and register class of a value held in a register or memory cell.
#[derive(Clone, Copy, PartialEq, Eq, Structural, Debug)]
pub enum MachineMode {
    Int8,
    Int32,
    Int64,
    Float32,
    Float64,
    Ptr,
}

impl MachineMode {
    /// Number of bytes a value of this mode occupies.
    pub open spec fn spec_size(self) -> i32 {
        match self {
            MachineMode::Int8 => 1,
            MachineMode::Int32 => 4,
            MachineMode::Int64 => 8,
            MachineMode::Float32 => 4,
            MachineMode::Float64 => 8,
            MachineMode::Ptr => 8,
        }
    }

    #[verifier::when_used_as_spec(spec_size)]
    pub fn size(self) -> (r: i32)
        ensures
            r == self.spec_size(),
    {
        match self {
            MachineMode::Int8 => 1,
            MachineMode::Int32 => 4,
            MachineMode::Int64 => 8,
            MachineMode::Float32 => 4,
            MachineMode::Float64 => 8,
            MachineMode::Ptr => 8,
        }
    }

    /// Whether values of this mode live in floating-point registers.
    pub open spec fn spec_is_float(self) -> bool {
        self == MachineMode::Float32 || self == MachineMode::Float64
    }

    #[verifier::when_used_as_spec(spec_is_float)]
    pub fn is_float(self) -> (r: bool)
        ensures
            r == self.spec_is_float(),
    {
        match self {
            MachineMode::Float32 | MachineMode::Float64 => true,
            _ => false,
        }
    }
}

/// Static type of an expression or a variable.
#[derive(Clone, Copy, PartialEq, Eq, Structural, Debug)]
pub enum BuiltinType {
    Unit,
    Byte,
    Int,
    Long,
    Float,
    Double,
    Bool,
    Str,
    Nil,
    Ptr,
    ByteArray,
    IntArray,
    LongArray,
    Class(ClassId),
    Struct(StructId),
    /// The type that a trait's method signature stands in for: the class
    /// that implements the trait.
    This,
}

impl BuiltinType {
    /// Whether a value of this type is a pointer into the managed heap, and
    /// so has to be reported to the collector while it is live.
    pub open spec fn spec_reference_type(self) -> bool {
        match self {
            BuiltinType::Str
            | BuiltinType::Nil
            | BuiltinType::Ptr
            | BuiltinType::ByteArray
            | BuiltinType::IntArray
            | BuiltinType::LongArray
            | BuiltinType::Class(_) => true,
            _ => false,
        }
    }

    #[verifier::when_used_as_spec(spec_reference_type)]
    pub fn reference_type(self) -> (r: bool)
        ensures
            r == self.spec_reference_type(),
    {
        match self {
            BuiltinType::Str
            | BuiltinType::Nil
            | BuiltinType::Ptr
            | BuiltinType::ByteArray
            | BuiltinType::IntArray
            | BuiltinType::LongArray
            | BuiltinType::Class(_) => true,
            _ => false,
        }
    }

    /// Whether values of this type can be held in a register at all: `Unit`
    /// has no value, structs are not lowered, and `This` is no type of a
    /// value.
    pub open spec fn spec_has_mode(self) -> bool {
        !(self is Unit) && !(self is Struct) && !(self is This)
    }

    #[verifier::when_used_as_spec(spec_has_mode)]
    pub fn has_mode(self) -> (r: bool)
        ensures
            r == self.spec_has_mode(),
    {
        match self {
            BuiltinType::Unit | BuiltinType::Struct(_) | BuiltinType::This => false,
            _ => true,
        }
    }

    /// The machine mode that holds a value of this type.
    pub open spec fn spec_mode(self) -> MachineMode {
        match self {
            BuiltinType::Bool | BuiltinType::Byte => MachineMode::Int8,
            BuiltinType::Int => MachineMode::Int32,
            BuiltinType::Long => MachineMode::Int64,
            BuiltinType::Float => MachineMode::Float32,
            BuiltinType::Double => MachineMode::Float64,
            _ => MachineMode::Ptr,
        }
    }

    #[verifier::when_used_as_spec(spec_mode)]
    pub fn mode(self) -> (r: MachineMode)
        requires
            self.has_mode(),
        ensures
            r == self.spec_mode(),
    {
        match self {
            BuiltinType::Bool | BuiltinType::Byte => MachineMode::Int8,
            BuiltinType::Int => MachineMode::Int32,
            BuiltinType::Long => MachineMode::Int64,
            BuiltinType::Float => MachineMode::Float32,
            BuiltinType::Double => MachineMode::Float64,
            _ => MachineMode::Ptr,
        }
    }
}

} // verus!
