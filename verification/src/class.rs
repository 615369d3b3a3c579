//! Classes as the code generator sees them: identity, instance size, field
//! layout and dispatch table.

use crate::ast::Name;
use crate::ctxt::FctId;
use crate::ty::BuiltinType;
use crate::vtable::VTable;
use vstd::prelude::*;

verus! {

/// Index of a class in the class registry.
#[derive(Clone, Copy, PartialEq, Eq, Structural, Debug)]
pub struct ClassId(pub usize);

/// Index of a field within its class.
#[derive(Clone, Copy, PartialEq, Eq, Structural, Debug)]
pub struct FieldId(pub usize);

/// A field of a class.
#[derive(Clone, Copy, PartialEq, Eq, Structural, Debug)]
pub struct Field {
    pub id: FieldId,
    pub name: Name,
    pub ty: BuiltinType,
    /// Offset of the field from the start of the object.
    pub offset: i32,
    pub reassignable: bool,
}

/// A class.
#[derive(Debug)]
pub struct Class {
    pub id: ClassId,
    pub name: Name,
    pub ty: BuiltinType,
    pub parent_class: Option<ClassId>,
    pub has_open: bool,
    pub internal: bool,
    pub ctors: Vec<FctId>,
    pub fields: Vec<Field>,
    pub methods: Vec<FctId>,
    /// Size of an instance in bytes, header included.
    pub size: i32,
    pub vtable: Option<VTable>,
}

} // verus!
