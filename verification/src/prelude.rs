//! The classes that every program has without declaring them: strings and
//! arrays of integers, with their methods.

use crate::ast::{Ast, Elem, Function, Name};
use crate::class::{Class, ClassId};
use crate::ctxt::{
    sym_lookup, Context, CtorType, Fct, FctId, FctKind, Intrinsic, PrimitiveClasses, Sym,
};
use crate::interner::position_of;
use crate::lexer::Position;
use crate::ty::BuiltinType;
use vstd::prelude::*;

verus! {

/// The first function of a source element: the function itself, or else
/// the class's first method, or else its first constructor.
pub open spec fn first_in_elem(elem: Elem) -> Option<Function> {
    match elem {
        Elem::ElemFunction(f) => Some(f),
        Elem::ElemClass(cls) => if cls.methods@.len() > 0 {
            Some(cls.methods@[0])
        } else if cls.ctors@.len() > 0 {
            Some(cls.ctors@[0])
        } else {
            None
        },
    }
}

/// The first function among the elements from element `j` on.
pub open spec fn first_in_elems(elems: Seq<Elem>, j: int) -> Option<Function>
    decreases elems.len() - j,
{
    if j < 0 || j >= elems.len() {
        None
    } else {
        match first_in_elem(elems[j]) {
            Some(f) => Some(f),
            None => first_in_elems(elems, j + 1),
        }
    }
}

/// The first function of the program from file `i` on.
pub open spec fn first_function_from(ast: Ast, i: int) -> Option<Function>
    decreases ast.files@.len() - i,
{
    if i < 0 || i >= ast.files@.len() {
        None
    } else {
        match first_in_elems(ast.files@[i].elements@, 0) {
            Some(f) => Some(f),
            None => first_function_from(ast, i + 1),
        }
    }
}

/// The first function of the program, in the order of the source.
pub fn first_function(ast: &Ast) -> (r: Option<&Function>)
    ensures
        match r {
            Some(f) => first_function_from(*ast, 0) == Some(*f),
            None => first_function_from(*ast, 0) is None,
        },
{
    let mut i: usize = 0;
    while i < ast.files.len()
        invariant
            i <= ast.files.len(),
            first_function_from(*ast, i as int) == first_function_from(*ast, 0),
        decreases ast.files.len() - i,
    {
        let file = &ast.files[i];
        let mut j: usize = 0;
        while j < file.elements.len()
            invariant
                j <= file.elements.len(),
                i < ast.files.len(),
                *file == ast.files@[i as int],
                first_function_from(*ast, i as int) == first_function_from(*ast, 0),
                first_in_elems(file.elements@, j as int) == first_in_elems(file.elements@, 0),
            decreases file.elements.len() - j,
        {
            match &file.elements[j] {
                Elem::ElemFunction(f) => {
                    assert(first_in_elem(file.elements@[j as int]) == Some(*f));
                    assert(first_in_elems(ast.files@[i as int].elements@, 0) == Some(*f));
                    return Some(f);
                },
                Elem::ElemClass(cls) => {
                    if cls.methods.len() > 0 {
                        assert(first_in_elem(file.elements@[j as int]) == Some(cls.methods@[0]));
                        assert(first_in_elems(ast.files@[i as int].elements@, 0) == Some(
                            cls.methods@[0],
                        ));
                        return Some(&cls.methods[0]);
                    }
                    if cls.ctors.len() > 0 {
                        assert(first_in_elem(file.elements@[j as int]) == Some(cls.ctors@[0]));
                        assert(first_in_elems(ast.files@[i as int].elements@, 0) == Some(
                            cls.ctors@[0],
                        ));
                        return Some(&cls.ctors[0]);
                    }
                },
            }
            j += 1;
        }
        i += 1;
    }
    None
}

/// Whether `f` is the method of a built-in class that `add_method`
/// registers under id `id`.
pub open spec fn is_builtin_method(
    f: Fct,
    id: FctId,
    cls_id: ClassId,
    name: Name,
    args: Seq<BuiltinType>,
    return_type: BuiltinType,
    kind: FctKind,
) -> bool {
    &&& f.id == id
    &&& f.pos == (Position { line: 1, column: 1 })
    &&& f.name == name
    &&& f.params_types@ == args
    &&& f.return_type == return_type
    &&& f.owner_class == Some(cls_id)
    &&& !f.is_static
    &&& !f.has_override
    &&& !f.has_open
    &&& !f.has_final
    &&& !f.internal
    &&& f.overrides is None
    &&& !f.throws
    &&& f.ctor is None
    &&& f.vtable_index is None
    &&& f.initialized
    &&& f.impl_for is None
    &&& f.kind == kind
}

/// Whether `c` is the built-in class with these methods that is registered
/// under id `id`: it has no parent, no fields and no constructors, and no
/// instance layout of its own.
pub open spec fn is_builtin_class(
    c: Class,
    id: ClassId,
    name: Name,
    ty: BuiltinType,
    methods: Seq<FctId>,
) -> bool {
    &&& c.id == id
    &&& c.name == name
    &&& c.ty == ty
    &&& c.parent_class is None
    &&& !c.has_open
    &&& !c.internal
    &&& c.ctors@.len() == 0
    &&& c.fields@.len() == 0
    &&& c.methods@ == methods
    &&& c.size == 0
    &&& c.vtable is None
}

/// The name that `intern` gives to text `s` in a table of `names`.
pub open spec fn interned(names: Seq<Seq<char>>, s: Seq<char>) -> Name {
    match position_of(names, s, 0) {
        Some(i) => Name(i as usize),
        None => Name(names.len() as usize),
    }
}

/// The table of names after text `s` is interned.
pub open spec fn names_with(names: Seq<Seq<char>>, s: Seq<char>) -> Seq<Seq<char>> {
    match position_of(names, s, 0) {
        Some(_) => names,
        None => names.push(s),
    }
}

/// What registering built-in classes leaves alone.
pub open spec fn added_to(new: &Context, old: &Context) -> bool {
    &&& new.args == old.args
    &&& new.entries == old.entries
    &&& new.traits == old.traits
    &&& new.impls == old.impls
    &&& new.diag == old.diag
}

/// `new` holds what `old` holds, and `n` more.
pub open spec fn grown<T>(new: Seq<T>, old: Seq<T>, n: int) -> bool {
    &&& new.len() == old.len() + n
    &&& forall|i: int| 0 <= i < old.len() ==> new[i] == old[i]
}

/// Registers method `name` of built-in class `cls_id` and returns its id.
fn add_method(
    ctxt: &mut Context,
    cls_id: ClassId,
    name: &'static str,
    args: Vec<BuiltinType>,
    return_type: BuiltinType,
    kind: FctKind,
) -> (id: FctId)
    ensures
        added_to(final(ctxt), old(ctxt)),
        final(ctxt).classes == old(ctxt).classes,
        final(ctxt).sym == old(ctxt).sym,
        final(ctxt).primitive_classes == old(ctxt).primitive_classes,
        final(ctxt).interner@ == names_with(old(ctxt).interner@, name@),
        id.0 == old(ctxt).fcts@.len(),
        grown(final(ctxt).fcts@, old(ctxt).fcts@, 1),
        is_builtin_method(
            final(ctxt).fcts@[id.0 as int],
            id,
            cls_id,
            interned(old(ctxt).interner@, name@),
            args@,
            return_type,
            kind,
        ),
{
    let name = ctxt.interner.intern(name);
    let fct = Fct {
        id: FctId(0),
        pos: Position::new(1, 1),
        name: name,
        params_types: args,
        return_type: return_type,
        owner_class: Some(cls_id),
        is_static: false,
        has_override: false,
        has_open: false,
        has_final: false,
        internal: false,
        overrides: None,
        throws: false,
        ctor: None,
        vtable_index: None,
        initialized: true,
        impl_for: None,
        kind: kind,
    };
    ctxt.add_fct(fct)
}

/// Registers the constructor of built-in class `cls_id`, a native function
/// at `fct`, and returns its id.
pub fn add_ctor(ctxt: &mut Context, cls_id: ClassId, name: Name, args: Vec<BuiltinType>, fct: u64) -> (id:
    FctId)
    ensures
        added_to(final(ctxt), old(ctxt)),
        final(ctxt).classes == old(ctxt).classes,
        final(ctxt).sym == old(ctxt).sym,
        final(ctxt).primitive_classes == old(ctxt).primitive_classes,
        final(ctxt).interner == old(ctxt).interner,
        id.0 == old(ctxt).fcts@.len(),
        grown(final(ctxt).fcts@, old(ctxt).fcts@, 1),
        final(ctxt).fcts@[id.0 as int].ctor == Some(CtorType::Primary),
        is_builtin_method(
            (Fct { ctor: None, ..final(ctxt).fcts@[id.0 as int] }),
            id,
            cls_id,
            name,
            args@,
            BuiltinType::Class(cls_id),
            FctKind::Native(fct),
        ),
{
    let fct = Fct {
        id: FctId(0),
        pos: Position::new(1, 1),
        name: name,
        params_types: args,
        return_type: BuiltinType::Class(cls_id),
        owner_class: Some(cls_id),
        is_static: false,
        has_override: false,
        has_open: false,
        has_final: false,
        internal: false,
        overrides: None,
        throws: false,
        ctor: Some(CtorType::Primary),
        vtable_index: None,
        initialized: true,
        impl_for: None,
        kind: FctKind::Native(fct),
    };
    ctxt.add_fct(fct)
}

/// Registers a built-in class with these methods under `name`.
fn add_class(ctxt: &mut Context, name: Name, ty: BuiltinType, methods: Vec<FctId>) -> (id: ClassId)
    ensures
        added_to(final(ctxt), old(ctxt)),
        final(ctxt).interner == old(ctxt).interner,
        final(ctxt).fcts == old(ctxt).fcts,
        final(ctxt).primitive_classes == old(ctxt).primitive_classes,
        id.0 == old(ctxt).classes@.len(),
        grown(final(ctxt).classes@, old(ctxt).classes@, 1),
        is_builtin_class(final(ctxt).classes@[id.0 as int], id, name, ty, methods@),
        final(ctxt).sym@ == old(ctxt).sym@.push((name, Sym::SymClass(id))),
{
    let id = ClassId(ctxt.classes.len());
    let cls = Class {
        id: id,
        name: name,
        ty: ty,
        parent_class: None,
        has_open: false,
        internal: false,
        ctors: Vec::new(),
        fields: Vec::new(),
        methods: methods,
        size: 0,
        vtable: None,
    };
    ctxt.classes.push(cls);
    ctxt.sym.push((name, Sym::SymClass(id)));
    id
}

/// Whether the global scope of `ctxt` has no entry yet for the name that
/// text `s` is interned as.
pub open spec fn name_free(ctxt: &Context, s: Seq<char>) -> bool {
    ctxt.spec_sym_get(interned(ctxt.interner@, s)) is None
}

/// Registers the class of strings, with its methods `len` and `parseInt`,
/// which are native functions. Returns `None` if the global scope holds
/// `Str` already; then only the name may have been added.
fn add_class_str(ctxt: &mut Context) -> (r: Option<ClassId>)
    ensures
        added_to(final(ctxt), old(ctxt)),
        r is Some == name_free(old(ctxt), "Str"@),
        r is None ==> {
            &&& final(ctxt).interner@ == names_with(old(ctxt).interner@, "Str"@)
            &&& final(ctxt).classes == old(ctxt).classes
            &&& final(ctxt).fcts == old(ctxt).fcts
            &&& final(ctxt).sym == old(ctxt).sym
            &&& final(ctxt).primitive_classes == old(ctxt).primitive_classes
        },
        r matches Some(id) ==> {
            &&& id.0 == old(ctxt).classes@.len()
            &&& final(ctxt).primitive_classes == (PrimitiveClasses {
                str_class: id,
                ..old(ctxt).primitive_classes
            })
            &&& grown(final(ctxt).classes@, old(ctxt).classes@, 1)
            &&& is_builtin_class(
                final(ctxt).classes@[id.0 as int],
                id,
                interned(old(ctxt).interner@, "Str"@),
                BuiltinType::Str,
                seq![
                    FctId(old(ctxt).fcts@.len() as usize),
                    FctId((old(ctxt).fcts@.len() + 1) as usize),
                ],
            )
            &&& grown(final(ctxt).fcts@, old(ctxt).fcts@, 2)
            &&& is_builtin_method(
                final(ctxt).fcts@[old(ctxt).fcts@.len() as int],
                FctId(old(ctxt).fcts@.len() as usize),
                id,
                interned(names_with(old(ctxt).interner@, "Str"@), "len"@),
                Seq::empty(),
                BuiltinType::Int,
                FctKind::Native(old(ctxt).entries.str_len),
            )
            &&& is_builtin_method(
                final(ctxt).fcts@[old(ctxt).fcts@.len() as int + 1],
                FctId((old(ctxt).fcts@.len() + 1) as usize),
                id,
                interned(names_with(names_with(old(ctxt).interner@, "Str"@), "len"@), "parseInt"@),
                Seq::empty(),
                BuiltinType::Int,
                FctKind::Native(old(ctxt).entries.str_parse_int),
            )
            &&& final(ctxt).sym@ == old(ctxt).sym@.push(
                (interned(old(ctxt).interner@, "Str"@), Sym::SymClass(id)),
            )
            &&& final(ctxt).interner@ == names_with(
                names_with(names_with(old(ctxt).interner@, "Str"@), "len"@),
                "parseInt"@,
            )
        },
{
    let cls_id = ClassId(ctxt.classes.len());
    let cls_name = ctxt.interner.intern("Str");
    if ctxt.sym_get(cls_name).is_some() {
        return None;
    }
    let str_len = ctxt.entries.str_len;
    let str_parse_int = ctxt.entries.str_parse_int;
    let mtd_len = add_method(
        ctxt,
        cls_id,
        "len",
        Vec::new(),
        BuiltinType::Int,
        FctKind::Native(str_len),
    );
    let mtd_parse = add_method(
        ctxt,
        cls_id,
        "parseInt",
        Vec::new(),
        BuiltinType::Int,
        FctKind::Native(str_parse_int),
    );
    let mut methods: Vec<FctId> = Vec::new();
    methods.push(mtd_len);
    methods.push(mtd_parse);
    assert(methods@ =~= seq![mtd_len, mtd_parse]);
    let id = add_class(ctxt, cls_name, BuiltinType::Str, methods);
    ctxt.primitive_classes.str_class = id;
    Some(id)
}

/// Registers the class of integer arrays, with its methods `len`, `get`
/// and `set`, which are lowered in place. Returns `None` if the global
/// scope holds `IntArray` already; then only the name may have been added.
fn add_class_int_array(ctxt: &mut Context) -> (r: Option<ClassId>)
    ensures
        added_to(final(ctxt), old(ctxt)),
        r is Some == name_free(old(ctxt), "IntArray"@),
        r is None ==> {
            &&& final(ctxt).interner@ == names_with(old(ctxt).interner@, "IntArray"@)
            &&& final(ctxt).classes == old(ctxt).classes
            &&& final(ctxt).fcts == old(ctxt).fcts
            &&& final(ctxt).sym == old(ctxt).sym
            &&& final(ctxt).primitive_classes == old(ctxt).primitive_classes
        },
        r matches Some(id) ==> {
            &&& id.0 == old(ctxt).classes@.len()
            &&& final(ctxt).primitive_classes == (PrimitiveClasses {
                int_array: id,
                ..old(ctxt).primitive_classes
            })
            &&& grown(final(ctxt).classes@, old(ctxt).classes@, 1)
            &&& is_builtin_class(
                final(ctxt).classes@[id.0 as int],
                id,
                interned(old(ctxt).interner@, "IntArray"@),
                BuiltinType::IntArray,
                seq![
                    FctId(old(ctxt).fcts@.len() as usize),
                    FctId((old(ctxt).fcts@.len() + 1) as usize),
                    FctId((old(ctxt).fcts@.len() + 2) as usize),
                ],
            )
            &&& grown(final(ctxt).fcts@, old(ctxt).fcts@, 3)
            &&& is_builtin_method(
                final(ctxt).fcts@[old(ctxt).fcts@.len() as int],
                FctId(old(ctxt).fcts@.len() as usize),
                id,
                interned(names_with(old(ctxt).interner@, "IntArray"@), "len"@),
                Seq::empty(),
                BuiltinType::Int,
                FctKind::Builtin(Intrinsic::IntArrayLen),
            )
            &&& is_builtin_method(
                final(ctxt).fcts@[old(ctxt).fcts@.len() as int + 1],
                FctId((old(ctxt).fcts@.len() + 1) as usize),
                id,
                interned(names_with(names_with(old(ctxt).interner@, "IntArray"@), "len"@), "get"@),
                seq![BuiltinType::Int],
                BuiltinType::Int,
                FctKind::Builtin(Intrinsic::IntArrayGet),
            )
            &&& is_builtin_method(
                final(ctxt).fcts@[old(ctxt).fcts@.len() as int + 2],
                FctId((old(ctxt).fcts@.len() + 2) as usize),
                id,
                interned(
                    names_with(
                        names_with(names_with(old(ctxt).interner@, "IntArray"@), "len"@),
                        "get"@,
                    ),
                    "set"@,
                ),
                seq![BuiltinType::Int, BuiltinType::Int],
                BuiltinType::Unit,
                FctKind::Builtin(Intrinsic::IntArraySet),
            )
            &&& final(ctxt).sym@ == old(ctxt).sym@.push(
                (interned(old(ctxt).interner@, "IntArray"@), Sym::SymClass(id)),
            )
            &&& final(ctxt).interner@ == int_array_names(old(ctxt).interner@)
        },
{
    let cls_id = ClassId(ctxt.classes.len());
    let cls_name = ctxt.interner.intern("IntArray");
    if ctxt.sym_get(cls_name).is_some() {
        return None;
    }
    let mtd_len = add_method(
        ctxt,
        cls_id,
        "len",
        Vec::new(),
        BuiltinType::Int,
        FctKind::Builtin(Intrinsic::IntArrayLen),
    );
    let mut get_args: Vec<BuiltinType> = Vec::new();
    get_args.push(BuiltinType::Int);
    assert(get_args@ =~= seq![BuiltinType::Int]);
    let mtd_get = add_method(
        ctxt,
        cls_id,
        "get",
        get_args,
        BuiltinType::Int,
        FctKind::Builtin(Intrinsic::IntArrayGet),
    );
    let mut set_args: Vec<BuiltinType> = Vec::new();
    set_args.push(BuiltinType::Int);
    set_args.push(BuiltinType::Int);
    assert(set_args@ =~= seq![BuiltinType::Int, BuiltinType::Int]);
    let mtd_set = add_method(
        ctxt,
        cls_id,
        "set",
        set_args,
        BuiltinType::Unit,
        FctKind::Builtin(Intrinsic::IntArraySet),
    );
    let mut methods: Vec<FctId> = Vec::new();
    methods.push(mtd_len);
    methods.push(mtd_get);
    methods.push(mtd_set);
    assert(methods@ =~= seq![mtd_len, mtd_get, mtd_set]);
    let id = add_class(ctxt, cls_name, BuiltinType::IntArray, methods);
    ctxt.primitive_classes.int_array = id;
    Some(id)
}

/// The table of names after the class of strings is registered.
pub open spec fn str_names(names: Seq<Seq<char>>) -> Seq<Seq<char>> {
    names_with(names_with(names_with(names, "Str"@), "len"@), "parseInt"@)
}

/// The table of names after the class of integer arrays is registered.
pub open spec fn int_array_names(names: Seq<Seq<char>>) -> Seq<Seq<char>> {
    names_with(names_with(names_with(names_with(names, "IntArray"@), "len"@), "get"@), "set"@)
}

/// Whether the global scope of `ctxt` has room for the built-in classes: it
/// holds no `Str`, and, once `Str` is registered, no `IntArray`.
pub open spec fn builtins_free(ctxt: &Context) -> bool {
    &&& name_free(ctxt, "Str"@)
    &&& sym_lookup(
        ctxt.sym@.push(
            (
                interned(ctxt.interner@, "Str"@),
                Sym::SymClass(ClassId(ctxt.classes@.len() as usize)),
            ),
        ),
        interned(str_names(ctxt.interner@), "IntArray"@),
        ctxt.sym@.len() as int + 1,
    ) is None
}

/// Whether `new` is `old` with the built-in classes registered: `Str` with
/// the native methods `len` and `parseInt`, then `IntArray` with the
/// methods `len`, `get` and `set`, which are lowered in place; both are
/// entered in the global scope under their names.
pub open spec fn with_builtins(new: &Context, old: &Context) -> bool {
    let c = old.classes@.len() as int;
    let f = old.fcts@.len() as int;
    let n0 = old.interner@;
    let n1 = str_names(n0);
    &&& new.interner@ == int_array_names(n1)
    &&& new.primitive_classes == (PrimitiveClasses {
        str_class: ClassId(c as usize),
        int_array: ClassId((c + 1) as usize),
    })
    &&& grown(new.classes@, old.classes@, 2)
    &&& grown(new.fcts@, old.fcts@, 5)
    &&& is_builtin_class(
        new.classes@[c],
        ClassId(c as usize),
        interned(n0, "Str"@),
        BuiltinType::Str,
        seq![FctId(f as usize), FctId((f + 1) as usize)],
    )
    &&& is_builtin_class(
        new.classes@[c + 1],
        ClassId((c + 1) as usize),
        interned(n1, "IntArray"@),
        BuiltinType::IntArray,
        seq![FctId((f + 2) as usize), FctId((f + 3) as usize), FctId((f + 4) as usize)],
    )
    &&& is_builtin_method(
        new.fcts@[f],
        FctId(f as usize),
        ClassId(c as usize),
        interned(names_with(n0, "Str"@), "len"@),
        Seq::empty(),
        BuiltinType::Int,
        FctKind::Native(old.entries.str_len),
    )
    &&& is_builtin_method(
        new.fcts@[f + 1],
        FctId((f + 1) as usize),
        ClassId(c as usize),
        interned(names_with(names_with(n0, "Str"@), "len"@), "parseInt"@),
        Seq::empty(),
        BuiltinType::Int,
        FctKind::Native(old.entries.str_parse_int),
    )
    &&& is_builtin_method(
        new.fcts@[f + 2],
        FctId((f + 2) as usize),
        ClassId((c + 1) as usize),
        interned(names_with(n1, "IntArray"@), "len"@),
        Seq::empty(),
        BuiltinType::Int,
        FctKind::Builtin(Intrinsic::IntArrayLen),
    )
    &&& is_builtin_method(
        new.fcts@[f + 3],
        FctId((f + 3) as usize),
        ClassId((c + 1) as usize),
        interned(names_with(names_with(n1, "IntArray"@), "len"@), "get"@),
        seq![BuiltinType::Int],
        BuiltinType::Int,
        FctKind::Builtin(Intrinsic::IntArrayGet),
    )
    &&& is_builtin_method(
        new.fcts@[f + 4],
        FctId((f + 4) as usize),
        ClassId((c + 1) as usize),
        interned(names_with(names_with(names_with(n1, "IntArray"@), "len"@), "get"@), "set"@),
        seq![BuiltinType::Int, BuiltinType::Int],
        BuiltinType::Unit,
        FctKind::Builtin(Intrinsic::IntArraySet),
    )
    &&& new.sym@ == old.sym@.push(
        (interned(n0, "Str"@), Sym::SymClass(ClassId(c as usize))),
    ).push((interned(n1, "IntArray"@), Sym::SymClass(ClassId((c + 1) as usize))))
}

/// Registers the built-in classes, `Str` first, then `IntArray`. Returns
/// `None` when it comes upon a class whose name the global scope holds
/// already.
fn add_builtin_classes(ctxt: &mut Context) -> (r: Option<(ClassId, ClassId)>)
    ensures
        added_to(final(ctxt), old(ctxt)),
        r is Some == builtins_free(old(ctxt)),
        r matches Some(ids) ==> {
            &&& ids.0.0 == old(ctxt).classes@.len()
            &&& ids.1.0 == old(ctxt).classes@.len() + 1
            &&& with_builtins(final(ctxt), old(ctxt))
        },
{
    let a = match add_class_str(ctxt) {
        Some(a) => a,
        None => return None,
    };
    let ghost mid = *ctxt;
    assert(mid.sym@ == old(ctxt).sym@.push(
        (interned(old(ctxt).interner@, "Str"@), Sym::SymClass(a)),
    ));
    assert(mid.interner@ == str_names(old(ctxt).interner@));
    let b = match add_class_int_array(ctxt) {
        Some(b) => b,
        None => return None,
    };
    proof {
        let c = old(ctxt).classes@.len() as int;
        let f = old(ctxt).fcts@.len() as int;
        assert(ctxt.classes@[c] == mid.classes@[c]);
        assert(ctxt.fcts@[f] == mid.fcts@[f]);
        assert(ctxt.fcts@[f + 1] == mid.fcts@[f + 1]);
        assert(mid.entries == old(ctxt).entries);
    }
    Some((a, b))
}

/// Prepares the context for semantic analysis: registers the built-in
/// classes `Str` and `IntArray` with their methods. The program has to
/// have a function, and the global scope room for the two classes;
/// otherwise `false` is returned, and the context is of no further use.
pub fn init(ctxt: &mut Context, ast: &Ast) -> (r: bool)
    ensures
        added_to(final(ctxt), old(ctxt)),
        r == (first_function_from(*ast, 0) is Some && builtins_free(old(ctxt))),
        first_function_from(*ast, 0) is None ==> *final(ctxt) == *old(ctxt),
        r ==> with_builtins(final(ctxt), old(ctxt)),
{
    if first_function(ast).is_none() {
        return false;
    }
    add_builtin_classes(ctxt).is_some()
}

} // verus!
