//! The compilation context: the registries of classes and functions, and
//! what semantic analysis recorded about the function being compiled.

use crate::ast::{Name, NodeId};
use crate::class::{Class, ClassId, FieldId};
use crate::fct::JitFct;
use crate::interner::Interner;
use crate::msg::Diagnostic;
use crate::lexer::Position;
use crate::ty::{BuiltinType, StructId};
use vstd::prelude::*;

verus! {

/// Index of a function in the function registry.
#[derive(Clone, Copy, PartialEq, Eq, Structural, Debug)]
pub struct FctId(pub usize);

/// Index of a local variable of the function being compiled.
#[derive(Clone, Copy, PartialEq, Eq, Structural, Debug)]
pub struct VarId(pub usize);

/// A function or operator that is lowered to instructions in place of a
/// call.
#[derive(Clone, Copy, PartialEq, Eq, Structural, Debug)]
pub enum Intrinsic {
    Assert,
    Shl,
    SetUint8,
    IntArrayLen,
    IntArrayGet,
    IntArraySet,
    ByteArrayLen,
    ByteArrayGet,
    ByteArraySet,
    LongArrayLen,
    LongArrayGet,
    LongArraySet,
    StrLen,
    StrGet,
    StrSet,
    BoolEq,
    BoolNot,
    BoolToInt,
    BoolToLong,
    ByteEq,
    ByteCmp,
    ByteNot,
    ByteToInt,
    ByteToLong,
    IntToByte,
    IntToLong,
    IntEq,
    IntCmp,
    IntAdd,
    IntSub,
    IntMul,
    IntDiv,
    IntMod,
    IntOr,
    IntAnd,
    IntXor,
    IntShl,
    IntSar,
    IntShr,
    IntNot,
    IntNeg,
    IntPlus,
    LongToInt,
    LongToByte,
    LongEq,
    LongCmp,
    LongAdd,
    LongSub,
    LongMul,
    LongDiv,
    LongMod,
    LongOr,
    LongAnd,
    LongXor,
    LongShl,
    LongSar,
    LongShr,
    LongNot,
    LongNeg,
    LongPlus,
    FloatAdd,
    FloatSub,
    FloatMul,
    FloatDiv,
    FloatEq,
    FloatCmp,
    DoubleAdd,
    DoubleSub,
    DoubleMul,
    DoubleDiv,
    DoubleEq,
    DoubleCmp,
}

/// What an identifier stands for.
#[derive(Clone, Copy, PartialEq, Eq, Structural, Debug)]
pub enum IdentType {
    Var(VarId),
    Field(ClassId, FieldId),
    Struct(StructId),
}

/// The function that a call or an operator resolves to.
#[derive(Clone, Copy, PartialEq, Eq, Structural, Debug)]
pub struct CallType {
    pub callee: FctId,
    pub method: bool,
}

impl CallType {
    pub open spec fn spec_fct_id(self) -> FctId {
        self.callee
    }

    #[verifier::when_used_as_spec(spec_fct_id)]
    pub fn fct_id(self) -> (r: FctId)
        ensures
            r == self.spec_fct_id(),
    {
        self.callee
    }

    pub open spec fn spec_is_method(self) -> bool {
        self.method
    }

    #[verifier::when_used_as_spec(spec_is_method)]
    pub fn is_method(self) -> (r: bool)
        ensures
            r == self.spec_is_method(),
    {
        self.method
    }
}

/// What a call site calls.
#[derive(Clone, Copy, PartialEq, Eq, Structural, Debug)]
pub enum Callee {
    Fct(FctId),
    /// A native function at this address.
    Ptr(u64),
}

/// One argument of a call site, with the frame slot planned for it.
#[derive(Clone, Copy, PartialEq, Eq, Structural, Debug)]
pub enum Arg {
    /// The operand of this number of the node that the call site belongs
    /// to, of this type.
    Expr(usize, BuiltinType, i32),
    /// The receiver of the function being compiled.
    Selfie(BuiltinType, i32),
    /// A new instance of this class, allocated at the call site.
    SelfieNew(ClassId, i32),
}

impl Arg {
    /// The slot planned for the argument.
    pub open spec fn spec_offset(self) -> i32 {
        match self {
            Arg::Expr(_, _, offset) => offset,
            Arg::Selfie(_, offset) => offset,
            Arg::SelfieNew(_, offset) => offset,
        }
    }

    #[verifier::when_used_as_spec(spec_offset)]
    pub fn offset(self) -> (r: i32)
        ensures
            r == self.spec_offset(),
    {
        match self {
            Arg::Expr(_, _, offset) => offset,
            Arg::Selfie(_, offset) => offset,
            Arg::SelfieNew(_, offset) => offset,
        }
    }

    /// The argument's type.
    pub open spec fn spec_ty(self) -> BuiltinType {
        match self {
            Arg::Expr(_, ty, _) => ty,
            Arg::Selfie(ty, _) => ty,
            Arg::SelfieNew(cid, _) => BuiltinType::Class(cid),
        }
    }

    #[verifier::when_used_as_spec(spec_ty)]
    pub fn ty(self) -> (r: BuiltinType)
        ensures
            r == self.spec_ty(),
    {
        match self {
            Arg::Expr(_, ty, _) => ty,
            Arg::Selfie(ty, _) => ty,
            Arg::SelfieNew(cid, _) => BuiltinType::Class(cid),
        }
    }
}

/// A call as semantic analysis resolved it.
#[derive(Debug)]
pub struct CallSite {
    pub callee: Callee,
    pub args: Vec<Arg>,
    pub super_call: bool,
    pub return_type: BuiltinType,
}

/// What is known of an `is` or `as` at compile time.
#[derive(Clone, Copy, PartialEq, Eq, Structural, Debug)]
pub struct ConvInfo {
    /// The class of the target type.
    pub cls_id: ClassId,
    /// Whether the object is known to be of the target type.
    pub valid: bool,
}

/// Where the value of a node is kept while its siblings are evaluated.
#[derive(Clone, Copy, PartialEq, Eq, Structural, Debug)]
pub enum Store {
    Reg,
    /// In the temporary slot at this offset within the temporaries.
    Temp(i32, BuiltinType),
}

/// A local variable.
#[derive(Clone, Copy, PartialEq, Eq, Structural, Debug)]
pub struct Var {
    pub id: VarId,
    pub name: Name,
    pub ty: BuiltinType,
    pub reassignable: bool,
    pub node_id: NodeId,
    /// Offset of the variable's slot from the frame pointer.
    pub offset: i32,
}

/// A table keyed by node id.
#[derive(Debug)]
pub struct NodeMap<V> {
    pub entries: Vec<Option<V>>,
}

impl<V> NodeMap<V> {
    /// The empty table.
    pub fn new() -> (m: NodeMap<V>)
        ensures
            forall|id: NodeId| m.spec_get(id) is None,
    {
        NodeMap { entries: Vec::new() }
    }

    /// What is filed under `id`.
    pub open spec fn spec_get(&self, id: NodeId) -> Option<V> {
        if id.0 < self.entries@.len() {
            self.entries@[id.0 as int]
        } else {
            None
        }
    }

    /// What is filed under `id`.
    pub fn get(&self, id: NodeId) -> (r: Option<&V>)
        ensures
            match r {
                Some(v) => self.spec_get(id) == Some(*v),
                None => self.spec_get(id) is None,
            },
    {
        if id.0 < self.entries.len() {
            self.entries[id.0].as_ref()
        } else {
            None
        }
    }

    /// Files `value` under `id`, in place of what was filed there.
    pub fn insert(&mut self, id: NodeId, value: V)
        requires
            id.0 < usize::MAX,
        ensures
            final(self).spec_get(id) == Some(value),
            forall|other: NodeId| other != id ==> final(self).spec_get(other) == old(self).spec_get(other),
    {
        while self.entries.len() <= id.0
            invariant
                forall|other: NodeId| self.spec_get(other) == old(self).spec_get(other),
            decreases id.0 + 1 - self.entries.len(),
        {
            self.entries.push(None);
        }
        self.entries.set(id.0, Some(value));
    }
}

/// What semantic analysis recorded about one function, and the function's
/// code once it is compiled.
#[derive(Debug)]
pub struct FctSrc {
    pub map_calls: NodeMap<CallType>,
    pub map_idents: NodeMap<IdentType>,
    pub map_tys: NodeMap<BuiltinType>,
    pub map_convs: NodeMap<ConvInfo>,
    pub map_csites: NodeMap<CallSite>,
    /// The variable that a `let` statement declares.
    pub map_vars: NodeMap<VarId>,
    pub storage: NodeMap<Store>,
    /// The local variables: the receiver, if there is one, then the
    /// parameters, then the others.
    pub vars: Vec<Var>,
    /// Bytes of the frame that the local variables take.
    pub localsize: i32,
    /// Bytes of the frame that the temporaries take, below the locals.
    pub tempsize: i32,
    /// Bytes of the frame that outgoing stack arguments take.
    pub argsize: i32,
    pub jit_fct: Option<JitFct>,
}

/// Largest frame size.
pub const FRAME_LIMIT: i32 = 0x3fff_fff0;

impl FctSrc {
    /// Nothing recorded, no frame, not compiled.
    pub fn new() -> (src: FctSrc)
        ensures
            src.vars@.len() == 0,
            src.localsize == 0,
            src.tempsize == 0,
            src.argsize == 0,
            src.jit_fct is None,
            forall|id: NodeId| src.map_calls.spec_get(id) is None,
            forall|id: NodeId| src.map_idents.spec_get(id) is None,
            forall|id: NodeId| src.map_tys.spec_get(id) is None,
            forall|id: NodeId| src.map_convs.spec_get(id) is None,
            forall|id: NodeId| src.map_csites.spec_get(id) is None,
            forall|id: NodeId| src.map_vars.spec_get(id) is None,
            forall|id: NodeId| src.storage.spec_get(id) is None,
    {
        FctSrc {
            map_calls: NodeMap::new(),
            map_idents: NodeMap::new(),
            map_tys: NodeMap::new(),
            map_convs: NodeMap::new(),
            map_csites: NodeMap::new(),
            map_vars: NodeMap::new(),
            storage: NodeMap::new(),
            vars: Vec::new(),
            localsize: 0,
            tempsize: 0,
            argsize: 0,
            jit_fct: None,
        }
    }

    /// The type of node `id`.
    pub open spec fn spec_ty(&self, id: NodeId) -> Option<BuiltinType> {
        self.map_tys.spec_get(id)
    }

    /// The type of node `id`, if one is recorded.
    pub fn ty(&self, id: NodeId) -> (r: Option<BuiltinType>)
        ensures
            r == self.spec_ty(id),
    {
        match self.map_tys.get(id) {
            Some(ty) => Some(*ty),
            None => None,
        }
    }

    /// Where the value of node `id` is kept: in a register unless a slot
    /// is planned for it.
    pub open spec fn spec_get_store(&self, id: NodeId) -> Store {
        match self.storage.spec_get(id) {
            Some(store) => store,
            None => Store::Reg,
        }
    }

    #[verifier::when_used_as_spec(spec_get_store)]
    pub fn get_store(&self, id: NodeId) -> (r: Store)
        ensures
            r == self.spec_get_store(id),
    {
        match self.storage.get(id) {
            Some(store) => *store,
            None => Store::Reg,
        }
    }

    /// The receiver: the first variable.
    pub open spec fn spec_var_self(&self) -> Option<Var> {
        if self.vars@.len() > 0 {
            Some(self.vars@[0])
        } else {
            None
        }
    }

    /// The receiver, if the function has variables at all.
    pub fn var_self(&self) -> (r: Option<Var>)
        ensures
            r == self.spec_var_self(),
    {
        if self.vars.len() > 0 {
            Some(self.vars[0])
        } else {
            None
        }
    }

    /// Variable `id`.
    pub open spec fn spec_var(&self, id: VarId) -> Option<Var> {
        if id.0 < self.vars@.len() {
            Some(self.vars@[id.0 as int])
        } else {
            None
        }
    }

    /// Variable `id`, if there is one.
    pub fn var(&self, id: VarId) -> (r: Option<Var>)
        ensures
            r == self.spec_var(id),
    {
        if id.0 < self.vars.len() {
            Some(self.vars[id.0])
        } else {
            None
        }
    }

    /// Size of the frame below the frame pointer: locals, temporaries and
    /// outgoing arguments, padded to a multiple of 16. `None` if a part is
    /// negative or the sum is beyond `FRAME_LIMIT`.
    pub open spec fn spec_stacksize(&self) -> Option<i32> {
        if 0 <= self.localsize && 0 <= self.tempsize && 0 <= self.argsize && self.localsize
            + self.tempsize + self.argsize <= FRAME_LIMIT {
            Some((((self.localsize + self.tempsize + self.argsize + 15) / 16) * 16) as i32)
        } else {
            None
        }
    }

    /// Size of the frame below the frame pointer.
    pub fn stacksize(&self) -> (r: Option<i32>)
        ensures
            r == self.spec_stacksize(),
    {
        if 0 <= self.localsize && 0 <= self.tempsize && 0 <= self.argsize && self.localsize as i64
            + self.tempsize as i64 + self.argsize as i64 <= FRAME_LIMIT as i64 {
            let sum = self.localsize + self.tempsize + self.argsize;
            Some(((sum + 15) / 16) * 16)
        } else {
            None
        }
    }
}

/// How a function is implemented.
#[derive(Debug)]
pub enum FctKind {
    /// By source code, which is compiled when the function is first called.
    Source(FctSrc),
    /// Declared only, as the method of a trait.
    Definition,
    /// By a native function at this address.
    Native(u64),
    /// By instructions emitted in place of the call.
    Builtin(Intrinsic),
}

/// How a constructor was declared.
#[derive(Clone, Copy, PartialEq, Eq, Structural, Debug)]
pub enum CtorType {
    Primary,
    Secondary,
}

/// A function.
#[derive(Debug)]
pub struct Fct {
    pub id: FctId,
    pub pos: Position,
    pub name: Name,
    pub params_types: Vec<BuiltinType>,
    pub return_type: BuiltinType,
    pub owner_class: Option<ClassId>,
    pub is_static: bool,
    pub has_override: bool,
    pub has_open: bool,
    pub has_final: bool,
    pub internal: bool,
    pub overrides: Option<FctId>,
    pub throws: bool,
    pub ctor: Option<CtorType>,
    pub vtable_index: Option<u32>,
    pub initialized: bool,
    /// The trait method that this method implements.
    pub impl_for: Option<FctId>,
    pub kind: FctKind,
}

impl Fct {
    /// Whether calls of the function are dispatched through the receiver's
    /// dispatch table.
    pub open spec fn spec_is_virtual(&self) -> bool {
        (self.has_open || self.has_override) && !self.has_final
    }

    #[verifier::when_used_as_spec(spec_is_virtual)]
    pub fn is_virtual(&self) -> (r: bool)
        ensures
            r == self.spec_is_virtual(),
    {
        (self.has_open || self.has_override) && !self.has_final
    }

    /// Whether the function takes a receiver.
    pub open spec fn spec_has_self(&self) -> bool {
        self.owner_class is Some && !self.is_static
    }

    #[verifier::when_used_as_spec(spec_has_self)]
    pub fn has_self(&self) -> (r: bool)
        ensures
            r == self.spec_has_self(),
    {
        self.owner_class.is_some() && !self.is_static
    }

    /// Number of arguments the function is called with, receiver included.
    pub open spec fn spec_real_args(&self) -> int {
        self.params_types@.len() + if self.has_self() {
            1int
        } else {
            0int
        }
    }

    /// Number of arguments the function is called with, receiver included;
    /// `None` if the number is beyond `i32`.
    pub fn real_args(&self) -> (r: Option<i32>)
        ensures
            match r {
                Some(n) => n == self.spec_real_args(),
                None => self.spec_real_args() > i32::MAX,
            },
    {
        let n = self.params_types.len();
        if self.has_self() {
            if n >= 0x7fff_ffff {
                None
            } else {
                Some(n as i32 + 1)
            }
        } else if n > 0x7fff_ffff {
            None
        } else {
            Some(n as i32)
        }
    }
}

/// Switches of the compiler.
#[derive(Clone, Copy, PartialEq, Eq, Structural, Debug)]
pub struct Args {
    /// Emit array accesses without bounds checks.
    pub flag_omit_bounds_check: bool,
}

/// Addresses of the runtime's entry points that emitted code calls.
#[derive(Clone, Copy, PartialEq, Eq, Structural, Debug)]
pub struct Entries {
    /// The allocator: takes a size and returns a zeroed object or null.
    pub gc_alloc: u64,
    /// Called by a native stub before it calls the native function.
    pub start_native_call: u64,
    /// Called by a native stub after the native function has returned.
    pub finish_native_call: u64,
    /// The length of a string.
    pub str_len: u64,
    /// The number that a string spells.
    pub str_parse_int: u64,
}

/// Index of a trait in the trait registry.
#[derive(Clone, Copy, PartialEq, Eq, Structural, Debug)]
pub struct TraitId(pub usize);

/// Index of an impl in the impl registry.
#[derive(Clone, Copy, PartialEq, Eq, Structural, Debug)]
pub struct ImplId(pub usize);

/// A trait: a named list of method signatures.
#[derive(Debug)]
pub struct TraitData {
    pub id: TraitId,
    pub pos: Position,
    pub name: Name,
    pub methods: Vec<FctId>,
}

/// An impl: the methods by which a class implements a trait.
#[derive(Debug)]
pub struct ImplData {
    pub id: ImplId,
    pub pos: Position,
    pub trait_id: TraitId,
    pub class_id: ClassId,
    pub methods: Vec<FctId>,
}

/// The primitive classes that every program has.
#[derive(Clone, Copy, PartialEq, Eq, Structural, Debug)]
pub struct PrimitiveClasses {
    pub str_class: ClassId,
    pub int_array: ClassId,
}

/// What a name of the global scope stands for.
#[derive(Clone, Copy, PartialEq, Eq, Structural, Debug)]
pub enum Sym {
    SymClass(ClassId),
    SymFct(FctId),
}

/// What `name` stands for among the first `n` entries of a scope: the
/// latest entry for it.
pub open spec fn sym_lookup(sym: Seq<(Name, Sym)>, name: Name, n: int) -> Option<Sym>
    decreases n,
{
    if n <= 0 || n > sym.len() {
        None
    } else if sym[n - 1].0 == name {
        Some(sym[n - 1].1)
    } else {
        sym_lookup(sym, name, n - 1)
    }
}

/// The compilation context.
#[derive(Debug)]
pub struct Context {
    pub args: Args,
    pub entries: Entries,
    pub interner: Interner,
    pub primitive_classes: PrimitiveClasses,
    pub classes: Vec<Class>,
    pub fcts: Vec<Fct>,
    pub traits: Vec<TraitData>,
    pub impls: Vec<ImplData>,
    /// The global scope: names and what they stand for.
    pub sym: Vec<(Name, Sym)>,
    pub diag: Diagnostic,
}

impl Context {
    /// A context without classes, functions, traits and impls.
    pub fn new(args: Args, entries: Entries) -> (ctxt: Context)
        ensures
            ctxt.args == args,
            ctxt.entries == entries,
            ctxt.interner@.len() == 0,
            ctxt.classes@.len() == 0,
            ctxt.fcts@.len() == 0,
            ctxt.traits@.len() == 0,
            ctxt.impls@.len() == 0,
            ctxt.sym@.len() == 0,
            ctxt.diag@.len() == 0,
    {
        Context {
            args,
            entries,
            interner: Interner::new(),
            primitive_classes: PrimitiveClasses { str_class: ClassId(0), int_array: ClassId(0) },
            classes: Vec::new(),
            fcts: Vec::new(),
            traits: Vec::new(),
            impls: Vec::new(),
            sym: Vec::new(),
            diag: Diagnostic::new(),
        }
    }

    /// Adds `fct` to the registry and returns the id it is found under
    /// from now on, which is also written to the function.
    pub fn add_fct(&mut self, fct: Fct) -> (id: FctId)
        ensures
            id.0 == old(self).fcts@.len(),
            final(self).fcts@.len() == old(self).fcts@.len() + 1,
            forall|i: int| 0 <= i < old(self).fcts@.len() ==> final(self).fcts@[i] == old(self).fcts@[i],
            final(self).fcts@[id.0 as int] == (Fct { id, ..fct }),
            final(self).args == old(self).args,
            final(self).entries == old(self).entries,
            final(self).interner == old(self).interner,
            final(self).primitive_classes == old(self).primitive_classes,
            final(self).classes == old(self).classes,
            final(self).traits == old(self).traits,
            final(self).impls == old(self).impls,
            final(self).sym == old(self).sym,
            final(self).diag == old(self).diag,
    {
        let id = FctId(self.fcts.len());
        let mut fct = fct;
        fct.id = id;
        self.fcts.push(fct);
        id
    }

    /// What `name` stands for in the global scope: the latest entry for it.
    pub open spec fn spec_sym_get(&self, name: Name) -> Option<Sym> {
        sym_lookup(self.sym@, name, self.sym@.len() as int)
    }

    /// What `name` stands for in the global scope.
    pub fn sym_get(&self, name: Name) -> (r: Option<Sym>)
        ensures
            r == self.spec_sym_get(name),
    {
        let mut i: usize = self.sym.len();
        while i > 0
            invariant
                i <= self.sym.len(),
                sym_lookup(self.sym@, name, i as int) == sym_lookup(
                    self.sym@,
                    name,
                    self.sym@.len() as int,
                ),
            decreases i,
        {
            i -= 1;
            if self.sym[i].0 == name {
                return Some(self.sym[i].1);
            }
        }
        None
    }

    /// Class `id`.
    pub open spec fn spec_class(&self, id: ClassId) -> Option<Class> {
        if id.0 < self.classes@.len() {
            Some(self.classes@[id.0 as int])
        } else {
            None
        }
    }

    /// Class `id`, if there is one.
    pub fn class(&self, id: ClassId) -> (r: Option<&Class>)
        ensures
            match r {
                Some(c) => self.spec_class(id) == Some(*c),
                None => self.spec_class(id) is None,
            },
    {
        if id.0 < self.classes.len() {
            Some(&self.classes[id.0])
        } else {
            None
        }
    }

    /// Function `id`.
    pub open spec fn spec_fct(&self, id: FctId) -> Option<Fct> {
        if id.0 < self.fcts@.len() {
            Some(self.fcts@[id.0 as int])
        } else {
            None
        }
    }

    /// Function `id`, if there is one.
    pub fn fct(&self, id: FctId) -> (r: Option<&Fct>)
        ensures
            match r {
                Some(f) => self.spec_fct(id) == Some(*f),
                None => self.spec_fct(id) is None,
            },
    {
        if id.0 < self.fcts.len() {
            Some(&self.fcts[id.0])
        } else {
            None
        }
    }
}

} // verus!
