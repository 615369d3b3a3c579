//! The check of impls against the traits they implement: every method of
//! an impl has to be a method of the trait, and every method of the trait
//! has to be implemented.

use crate::ast::Name;
use crate::class::Class;
use crate::ctxt::{Context, Fct, FctId, ImplData, TraitData, TraitId};
use crate::lexer::Position;
use crate::msg::{Msg, MsgView};
use crate::ty::BuiltinType;
use vstd::prelude::*;

verus! {

/// What the check reads, as a value: the names, classes, traits and impls
/// of the program.
pub struct SemView {
    pub names: Seq<Seq<char>>,
    pub classes: Seq<Class>,
    pub traits: Seq<TraitData>,
    pub impls: Seq<ImplData>,
}

impl Context {
    /// The part of the context that the check of impls is about.
    pub open spec fn sem(&self) -> SemView {
        SemView {
            names: self.interner@,
            classes: self.classes@,
            traits: self.traits@,
            impls: self.impls@,
        }
    }
}

/// The text of `name`.
pub open spec fn name_text(names: Seq<Seq<char>>, name: Name) -> Seq<char> {
    if name.0 < names.len() {
        names[name.0 as int]
    } else {
        "<unknown>"@
    }
}

/// The name of type `ty` as findings print it.
pub open spec fn name_of_type(names: Seq<Seq<char>>, classes: Seq<Class>, ty: BuiltinType) -> Seq<char> {
    match ty {
        BuiltinType::Unit => "()"@,
        BuiltinType::Byte => "byte"@,
        BuiltinType::Int => "int"@,
        BuiltinType::Long => "long"@,
        BuiltinType::Float => "float"@,
        BuiltinType::Double => "double"@,
        BuiltinType::Bool => "bool"@,
        BuiltinType::Nil => "nil"@,
        BuiltinType::Ptr => "ptr"@,
        BuiltinType::Str => "Str"@,
        BuiltinType::ByteArray => "ByteArray"@,
        BuiltinType::IntArray => "IntArray"@,
        BuiltinType::LongArray => "LongArray"@,
        BuiltinType::This => "Self"@,
        BuiltinType::Struct(_) => "<struct>"@,
        BuiltinType::Class(cid) => if cid.0 < classes.len() {
            name_text(names, classes[cid.0 as int].name)
        } else {
            "<unknown>"@
        },
    }
}

/// The names of the types `params`.
pub open spec fn names_of_types(
    names: Seq<Seq<char>>,
    classes: Seq<Class>,
    params: Seq<BuiltinType>,
) -> Seq<Seq<char>> {
    Seq::new(params.len(), |i: int| name_of_type(names, classes, params[i]))
}

/// A parameter type of a trait method, with the type of the implementing
/// class in place of `Self`.
pub open spec fn replaced(replace: Option<BuiltinType>, ty: BuiltinType) -> BuiltinType {
    match (ty, replace) {
        (BuiltinType::This, Some(cls)) => cls,
        _ => ty,
    }
}

/// Whether the parameter types `args` are those of a trait method with the
/// parameter types `trait_args`.
pub open spec fn params_match(
    replace: Option<BuiltinType>,
    trait_args: Seq<BuiltinType>,
    args: Seq<BuiltinType>,
) -> bool {
    &&& trait_args.len() == args.len()
    &&& forall|i: int| 0 <= i < args.len() ==> replaced(replace, #[trigger] trait_args[i]) == args[i]
}

/// Whether function `m` is the trait method looked for.
pub open spec fn method_matches(
    m: Fct,
    is_static: bool,
    name: Name,
    replace: Option<BuiltinType>,
    args: Seq<BuiltinType>,
) -> bool {
    m.name == name && m.is_static == is_static && params_match(replace, m.params_types@, args)
}

/// The first of `methods`, from position `i` on, that is a method of this
/// name and kind with these parameter types.
pub open spec fn find_method_from(
    fcts: Seq<Fct>,
    methods: Seq<FctId>,
    i: int,
    is_static: bool,
    name: Name,
    replace: Option<BuiltinType>,
    args: Seq<BuiltinType>,
) -> Option<FctId>
    decreases methods.len() - i,
{
    if i < 0 || i >= methods.len() {
        None
    } else if methods[i].0 < fcts.len() && method_matches(
        fcts[methods[i].0 as int],
        is_static,
        name,
        replace,
        args,
    ) {
        Some(methods[i])
    } else {
        find_method_from(fcts, methods, i + 1, is_static, name, replace, args)
    }
}

/// Whether every impl names a trait and a class that exist, and impls and
/// traits list functions that exist.
pub open spec fn ids_valid(v: SemView, fcts: nat) -> bool {
    &&& forall|i: int|
        0 <= i < v.impls.len() ==> {
            &&& (#[trigger] v.impls[i]).trait_id.0 < v.traits.len()
            &&& v.impls[i].class_id.0 < v.classes.len()
            &&& forall|j: int|
                0 <= j < v.impls[i].methods@.len() ==> (#[trigger] v.impls[i].methods@[j]).0 < fcts
        }
    &&& forall|t: int, k: int|
        0 <= t < v.traits.len() && 0 <= k < v.traits[t].methods@.len() ==> (
        #[trigger] v.traits[t].methods@[k]).0 < fcts
}

/// The finding that method `m` of an impl is no method of trait `tr`.
pub open spec fn not_in_trait(v: SemView, tr: TraitData, m: Fct) -> MsgView {
    if m.is_static {
        MsgView::StaticMethodNotInTrait(
            name_text(v.names, tr.name),
            name_text(v.names, m.name),
            names_of_types(v.names, v.classes, m.params_types@),
        )
    } else {
        MsgView::MethodNotInTrait(
            name_text(v.names, tr.name),
            name_text(v.names, m.name),
            names_of_types(v.names, v.classes, m.params_types@),
        )
    }
}

/// The finding that method `m` of trait `tr` is not implemented.
pub open spec fn missing_from_impl(v: SemView, tr: TraitData, m: Fct) -> MsgView {
    if m.is_static {
        MsgView::StaticMethodMissingFromTrait(
            name_text(v.names, tr.name),
            name_text(v.names, m.name),
            names_of_types(v.names, v.classes, m.params_types@),
        )
    } else {
        MsgView::MethodMissingFromTrait(
            name_text(v.names, tr.name),
            name_text(v.names, m.name),
            names_of_types(v.names, v.classes, m.params_types@),
        )
    }
}

/// The functions and findings, as the check changes them.
pub struct CheckState {
    pub fcts: Seq<Fct>,
    pub diag: Seq<(Position, MsgView)>,
}

/// The state after the methods of impl `i`, from method `j` on, are looked
/// up in the trait, and the trait methods that were found. A method that is
/// found is marked as the implementation of the trait method; one that is
/// not is reported at its own position.
pub open spec fn check_methods(v: SemView, s: CheckState, i: int, j: int, defined: Seq<FctId>) -> (
    CheckState,
    Seq<FctId>,
)
    decreases v.impls[i].methods@.len() - j,
{
    let ximpl = v.impls[i];
    if j < 0 || j >= ximpl.methods@.len() {
        (s, defined)
    } else {
        let tr = v.traits[ximpl.trait_id.0 as int];
        let cls = v.classes[ximpl.class_id.0 as int].ty;
        let id = ximpl.methods@[j];
        let m = s.fcts[id.0 as int];
        match find_method_from(s.fcts, tr.methods@, 0, m.is_static, m.name, Some(cls), m.params_types@) {
            Some(fid) => check_methods(
                v,
                CheckState { fcts: s.fcts.update(id.0 as int, Fct { impl_for: Some(fid), ..m }), ..s },
                i,
                j + 1,
                defined.push(fid),
            ),
            None => check_methods(
                v,
                CheckState { diag: s.diag.push((m.pos, not_in_trait(v, tr, m))), ..s },
                i,
                j + 1,
                defined,
            ),
        }
    }
}

/// The state after the methods of the trait of impl `i`, from method `k`
/// on, are looked for among the trait methods that the impl implements.
/// One that is not among them is reported, once, at the position of the
/// impl.
pub open spec fn check_missing(v: SemView, s: CheckState, i: int, k: int, defined: Seq<FctId>) -> CheckState
    decreases v.traits[v.impls[i].trait_id.0 as int].methods@.len() - k,
{
    let ximpl = v.impls[i];
    let tr = v.traits[ximpl.trait_id.0 as int];
    if k < 0 || k >= tr.methods@.len() {
        s
    } else {
        let id = tr.methods@[k];
        if defined.contains(id) || tr.methods@.take(k).contains(id) {
            check_missing(v, s, i, k + 1, defined)
        } else {
            check_missing(
                v,
                CheckState {
                    diag: s.diag.push((ximpl.pos, missing_from_impl(v, tr, s.fcts[id.0 as int]))),
                    ..s
                },
                i,
                k + 1,
                defined,
            )
        }
    }
}

/// The state after the impls from impl `i` on are checked, in order.
pub open spec fn check_impls(v: SemView, s: CheckState, i: int) -> CheckState
    decreases v.impls.len() - i,
{
    if i < 0 || i >= v.impls.len() {
        s
    } else {
        let (s1, defined) = check_methods(v, s, i, 0, Seq::empty());
        check_impls(v, check_missing(v, s1, i, 0, defined), i + 1)
    }
}

/// What `check` leaves: the functions, with the impl methods marked that
/// implement a trait method, and the findings.
pub open spec fn checked(v: SemView, s: CheckState) -> CheckState {
    check_impls(v, s, 0)
}

/// The name of type `ty` as findings print it.
fn ty_name(ctxt: &Context, ty: BuiltinType) -> (r: String)
    ensures
        r@ == name_of_type(ctxt.interner@, ctxt.classes@, ty),
{
    match ty {
        BuiltinType::Unit => "()".to_owned(),
        BuiltinType::Byte => "byte".to_owned(),
        BuiltinType::Int => "int".to_owned(),
        BuiltinType::Long => "long".to_owned(),
        BuiltinType::Float => "float".to_owned(),
        BuiltinType::Double => "double".to_owned(),
        BuiltinType::Bool => "bool".to_owned(),
        BuiltinType::Nil => "nil".to_owned(),
        BuiltinType::Ptr => "ptr".to_owned(),
        BuiltinType::Str => "Str".to_owned(),
        BuiltinType::ByteArray => "ByteArray".to_owned(),
        BuiltinType::IntArray => "IntArray".to_owned(),
        BuiltinType::LongArray => "LongArray".to_owned(),
        BuiltinType::This => "Self".to_owned(),
        BuiltinType::Struct(_) => "<struct>".to_owned(),
        BuiltinType::Class(cid) => if cid.0 < ctxt.classes.len() {
            text_of(ctxt, ctxt.classes[cid.0].name)
        } else {
            "<unknown>".to_owned()
        },
    }
}

/// The text of `name`.
fn text_of(ctxt: &Context, name: Name) -> (r: String)
    ensures
        r@ == name_text(ctxt.interner@, name),
{
    if name.0 < ctxt.interner.len() {
        ctxt.interner.str(name).to_owned()
    } else {
        "<unknown>".to_owned()
    }
}

/// The names of the types `params`.
fn ty_names(ctxt: &Context, params: &Vec<BuiltinType>) -> (r: Vec<String>)
    ensures
        crate::msg::texts(r@) == names_of_types(ctxt.interner@, ctxt.classes@, params@),
{
    let mut names: Vec<String> = Vec::new();
    let mut i: usize = 0;
    while i < params.len()
        invariant
            i <= params.len(),
            names@.len() == i,
            forall|k: int|
                0 <= k < i ==> (#[trigger] names@[k])@ == name_of_type(
                    ctxt.interner@,
                    ctxt.classes@,
                    params@[k],
                ),
        decreases params.len() - i,
    {
        names.push(ty_name(ctxt, params[i]));
        i += 1;
    }
    proof {
        assert(crate::msg::texts(names@) =~= names_of_types(
                ctxt.interner@,
                ctxt.classes@,
                params@,
            ));
    }
    names
}

/// Whether the parameter types `args` are those of a trait method with the
/// parameter types `trait_args`, where `replace` stands in for `Self`.
fn params_match_exec(replace: Option<BuiltinType>, trait_args: &Vec<BuiltinType>, args: &Vec<BuiltinType>) -> (r:
    bool)
    ensures
        r == params_match(replace, trait_args@, args@),
{
    if trait_args.len() != args.len() {
        return false;
    }
    let mut ind: usize = 0;
    while ind < trait_args.len()
        invariant
            ind <= trait_args.len(),
            trait_args.len() == args.len(),
            forall|i: int| 0 <= i < ind ==> replaced(replace, #[trigger] trait_args@[i]) == args@[i],
        decreases trait_args.len() - ind,
    {
        let ty = trait_args[ind];
        let ty = match (ty, replace) {
            (BuiltinType::This, Some(cls)) => cls,
            _ => ty,
        };
        if ty != args[ind] {
            return false;
        }
        ind += 1;
    }
    true
}

/// The method of trait `trait_id` that has this name and kind and these
/// parameter types, where `replace` stands in for `Self`: the first in the
/// trait's list, if there are several.
pub fn find_method(
    ctxt: &Context,
    trait_id: TraitId,
    is_static: bool,
    name: Name,
    replace: Option<BuiltinType>,
    args: &Vec<BuiltinType>,
) -> (r: Option<FctId>)
    requires
        trait_id.0 < ctxt.traits@.len(),
        forall|k: int|
            0 <= k < ctxt.traits@[trait_id.0 as int].methods@.len() ==> (
            #[trigger] ctxt.traits@[trait_id.0 as int].methods@[k]).0 < ctxt.fcts@.len(),
    ensures
        r == find_method_from(
            ctxt.fcts@,
            ctxt.traits@[trait_id.0 as int].methods@,
            0,
            is_static,
            name,
            replace,
            args@,
        ),
{
    let xtrait = &ctxt.traits[trait_id.0];
    let mut k: usize = 0;
    while k < xtrait.methods.len()
        invariant
            k <= xtrait.methods.len(),
            *xtrait == ctxt.traits@[trait_id.0 as int],
            forall|k: int| 0 <= k < xtrait.methods@.len() ==> (#[trigger] xtrait.methods@[k]).0 < ctxt.fcts@.len(),
            find_method_from(ctxt.fcts@, xtrait.methods@, k as int, is_static, name, replace, args@)
                == find_method_from(ctxt.fcts@, xtrait.methods@, 0, is_static, name, replace, args@),
        decreases xtrait.methods.len() - k,
    {
        let method_id = xtrait.methods[k];
        let method = &ctxt.fcts[method_id.0];
        if method.name == name && method.is_static == is_static && params_match_exec(
            replace,
            &method.params_types,
            args,
        ) {
            return Some(method_id);
        }
        k += 1;
    }
    None
}

/// Whether `list` holds `id`.
fn holds(list: &Vec<FctId>, id: FctId, upto: usize) -> (r: bool)
    requires
        upto <= list@.len(),
    ensures
        r == list@.take(upto as int).contains(id),
{
    let mut i: usize = 0;
    while i < upto
        invariant
            i <= upto <= list@.len(),
            forall|k: int| 0 <= k < i ==> list@[k] != id,
        decreases upto - i,
    {
        if list[i] == id {
            assert(list@.take(upto as int)[i as int] == id);
            return true;
        }
        i += 1;
    }
    false
}

/// Whether the ids in impls and traits name what exists, so that `check`
/// can run.
pub fn ids_valid_exec(ctxt: &Context) -> (r: bool)
    ensures
        r == ids_valid(ctxt.sem(), ctxt.fcts@.len()),
{
    let mut i: usize = 0;
    while i < ctxt.impls.len()
        invariant
            i <= ctxt.impls.len(),
            forall|a: int|
                0 <= a < i ==> {
                    &&& (#[trigger] ctxt.impls@[a]).trait_id.0 < ctxt.traits@.len()
                    &&& ctxt.impls@[a].class_id.0 < ctxt.classes@.len()
                    &&& forall|j: int|
                        0 <= j < ctxt.impls@[a].methods@.len() ==> (
                        #[trigger] ctxt.impls@[a].methods@[j]).0 < ctxt.fcts@.len()
                },
        decreases ctxt.impls.len() - i,
    {
        let ximpl = &ctxt.impls[i];
        if ximpl.trait_id.0 >= ctxt.traits.len() || ximpl.class_id.0 >= ctxt.classes.len() {
            proof {
                let v = ctxt.sem();
                assert(v.impls[i as int].trait_id.0 >= v.traits.len() || v.impls[i as int].class_id.0
                    >= v.classes.len());
            }
            return false;
        }
        let mut j: usize = 0;
        while j < ximpl.methods.len()
            invariant
                j <= ximpl.methods.len(),
                i < ctxt.impls.len(),
                *ximpl == ctxt.impls@[i as int],
                forall|b: int| 0 <= b < j ==> (#[trigger] ximpl.methods@[b]).0 < ctxt.fcts@.len(),
            decreases ximpl.methods.len() - j,
        {
            if ximpl.methods[j].0 >= ctxt.fcts.len() {
                proof {
                    let v = ctxt.sem();
                    assert(v.impls[i as int].methods@[j as int].0 >= ctxt.fcts@.len());
                }
                return false;
            }
            j += 1;
        }
        i += 1;
    }
    let mut t: usize = 0;
    while t < ctxt.traits.len()
        invariant
            t <= ctxt.traits.len(),
            forall|a: int, k: int|
                0 <= a < t && 0 <= k < ctxt.traits@[a].methods@.len() ==> (
                #[trigger] ctxt.traits@[a].methods@[k]).0 < ctxt.fcts@.len(),
            forall|a: int|
                0 <= a < ctxt.impls@.len() ==> {
                    &&& (#[trigger] ctxt.impls@[a]).trait_id.0 < ctxt.traits@.len()
                    &&& ctxt.impls@[a].class_id.0 < ctxt.classes@.len()
                    &&& forall|j: int|
                        0 <= j < ctxt.impls@[a].methods@.len() ==> (
                        #[trigger] ctxt.impls@[a].methods@[j]).0 < ctxt.fcts@.len()
                },
        decreases ctxt.traits.len() - t,
    {
        let xtrait = &ctxt.traits[t];
        let mut k: usize = 0;
        while k < xtrait.methods.len()
            invariant
                k <= xtrait.methods.len(),
                t < ctxt.traits.len(),
                *xtrait == ctxt.traits@[t as int],
                forall|b: int| 0 <= b < k ==> (#[trigger] xtrait.methods@[b]).0 < ctxt.fcts@.len(),
            decreases xtrait.methods.len() - k,
        {
            if xtrait.methods[k].0 >= ctxt.fcts.len() {
                proof {
                    let v = ctxt.sem();
                    assert(v.traits[t as int].methods@[k as int].0 >= ctxt.fcts@.len());
                }
                return false;
            }
            k += 1;
        }
        t += 1;
    }
    true
}

/// The finding that method `method_id` of an impl is no method of trait
/// `trait_id`.
fn not_in_trait_msg(ctxt: &Context, trait_id: TraitId, method_id: FctId) -> (msg: Msg)
    requires
        trait_id.0 < ctxt.traits@.len(),
        method_id.0 < ctxt.fcts@.len(),
    ensures
        msg@ == not_in_trait(
            ctxt.sem(),
            ctxt.traits@[trait_id.0 as int],
            ctxt.fcts@[method_id.0 as int],
        ),
{
    let method = &ctxt.fcts[method_id.0];
    let args = ty_names(ctxt, &method.params_types);
    let mtd_name = text_of(ctxt, method.name);
    let trait_name = text_of(ctxt, ctxt.traits[trait_id.0].name);
    if method.is_static {
        Msg::StaticMethodNotInTrait(trait_name, mtd_name, args)
    } else {
        Msg::MethodNotInTrait(trait_name, mtd_name, args)
    }
}

/// The finding that method `method_id` of trait `trait_id` is not
/// implemented.
fn missing_msg(ctxt: &Context, trait_id: TraitId, method_id: FctId) -> (msg: Msg)
    requires
        trait_id.0 < ctxt.traits@.len(),
        method_id.0 < ctxt.fcts@.len(),
    ensures
        msg@ == missing_from_impl(
            ctxt.sem(),
            ctxt.traits@[trait_id.0 as int],
            ctxt.fcts@[method_id.0 as int],
        ),
{
    let method = &ctxt.fcts[method_id.0];
    let args = ty_names(ctxt, &method.params_types);
    let mtd_name = text_of(ctxt, method.name);
    let trait_name = text_of(ctxt, ctxt.traits[trait_id.0].name);
    if method.is_static {
        Msg::StaticMethodMissingFromTrait(trait_name, mtd_name, args)
    } else {
        Msg::MethodMissingFromTrait(trait_name, mtd_name, args)
    }
}

impl Context {
    /// The functions and findings of the context.
    pub open spec fn check_state(&self) -> CheckState {
        CheckState { fcts: self.fcts@, diag: self.diag@ }
    }

    /// The context is `old` but for functions and findings, and has as many
    /// functions.
    pub open spec fn same_program(&self, old: &Context) -> bool {
        &&& self.args == old.args
        &&& self.entries == old.entries
        &&& self.interner == old.interner
        &&& self.primitive_classes == old.primitive_classes
        &&& self.classes == old.classes
        &&& self.traits == old.traits
        &&& self.impls == old.impls
        &&& self.sym == old.sym
        &&& self.fcts@.len() == old.fcts@.len()
    }
}

/// Looks up the methods of impl `i` in its trait. Returns the trait methods
/// that the impl implements, as a list in the order of the impl's methods;
/// only membership is asked of it, so a trait method that two methods of
/// the impl implement counts once.
fn check_impl_methods(ctxt: &mut Context, i: usize) -> (defined: Vec<FctId>)
    requires
        ids_valid(old(ctxt).sem(), old(ctxt).fcts@.len()),
        i < old(ctxt).impls@.len(),
    ensures
        final(ctxt).same_program(old(ctxt)),
        (final(ctxt).check_state(), defined@) == check_methods(
            old(ctxt).sem(),
            old(ctxt).check_state(),
            i as int,
            0,
            Seq::empty(),
        ),
{
    let ghost v = ctxt.sem();
    let trait_id = ctxt.impls[i].trait_id;
    let cls = ctxt.classes[ctxt.impls[i].class_id.0].ty;
    let mut defined: Vec<FctId> = Vec::new();
    let mut j: usize = 0;
    while j < ctxt.impls[i].methods.len()
        invariant
            ids_valid(v, ctxt.fcts@.len()),
            v == ctxt.sem(),
            i < ctxt.impls@.len(),
            ctxt.same_program(old(ctxt)),
            trait_id == v.impls[i as int].trait_id,
            cls == v.classes[v.impls[i as int].class_id.0 as int].ty,
            check_methods(v, ctxt.check_state(), i as int, j as int, defined@) == check_methods(
                v,
                old(ctxt).check_state(),
                i as int,
                0,
                Seq::empty(),
            ),
        decreases ctxt.impls[i as int].methods.len() - j,
    {
        let method_id = ctxt.impls[i].methods[j];
        assert(v.impls[i as int].methods@[j as int].0 < ctxt.fcts@.len());
        let found = {
            let method = &ctxt.fcts[method_id.0];
            assert forall|k: int| 0 <= k < ctxt.traits@[trait_id.0 as int].methods@.len() implies (
            #[trigger] ctxt.traits@[trait_id.0 as int].methods@[k]).0 < ctxt.fcts@.len() by {
                assert(v.traits[trait_id.0 as int].methods@[k].0 < ctxt.fcts@.len());
            }
            find_method(
                ctxt,
                trait_id,
                method.is_static,
                method.name,
                Some(cls),
                &method.params_types,
            )
        };
        match found {
            Some(fid) => {
                ctxt.fcts[method_id.0].impl_for = Some(fid);
                defined.push(fid);
            },
            None => {
                let pos = ctxt.fcts[method_id.0].pos;
                let msg = not_in_trait_msg(ctxt, trait_id, method_id);
                ctxt.diag.report_without_path(pos, msg);
            },
        }
        j += 1;
    }
    defined
}

/// Looks for the methods of the trait of impl `i` among the trait methods
/// that the impl implements.
fn check_impl_missing(ctxt: &mut Context, i: usize, defined: &Vec<FctId>)
    requires
        ids_valid(old(ctxt).sem(), old(ctxt).fcts@.len()),
        i < old(ctxt).impls@.len(),
    ensures
        final(ctxt).same_program(old(ctxt)),
        final(ctxt).check_state() == check_missing(
            old(ctxt).sem(),
            old(ctxt).check_state(),
            i as int,
            0,
            defined@,
        ),
{
    let ghost v = ctxt.sem();
    let trait_id = ctxt.impls[i].trait_id;
    let pos = ctxt.impls[i].pos;
    let mut k: usize = 0;
    while k < ctxt.traits[trait_id.0].methods.len()
        invariant
            ids_valid(v, ctxt.fcts@.len()),
            v == ctxt.sem(),
            i < ctxt.impls@.len(),
            ctxt.same_program(old(ctxt)),
            ctxt.fcts@ == old(ctxt).fcts@,
            trait_id == v.impls[i as int].trait_id,
            pos == v.impls[i as int].pos,
            check_missing(v, ctxt.check_state(), i as int, k as int, defined@) == check_missing(
                v,
                old(ctxt).check_state(),
                i as int,
                0,
                defined@,
            ),
        decreases ctxt.traits[trait_id.0 as int].methods.len() - k,
    {
        let method_id = ctxt.traits[trait_id.0].methods[k];
        assert(v.traits[trait_id.0 as int].methods@[k as int].0 < ctxt.fcts@.len());
        let known = holds(defined, method_id, defined.len()) || holds(
            &ctxt.traits[trait_id.0].methods,
            method_id,
            k,
        );
        proof {
            assert(defined@.take(defined@.len() as int) =~= defined@);
        }
        if !known {
            let msg = missing_msg(ctxt, trait_id, method_id);
            ctxt.diag.report_without_path(pos, msg);
        }
        k += 1;
    }
}

/// Checks every impl against its trait. An impl method that is a method of
/// the trait, by name, kind and parameter types with the class in place
/// of `Self`, is marked as the implementation of that method. An impl
/// method that is none is reported at its position, and a trait method
/// that no impl method implements is reported at the position of the impl.
pub fn check(ctxt: &mut Context)
    requires
        ids_valid(old(ctxt).sem(), old(ctxt).fcts@.len()),
    ensures
        final(ctxt).same_program(old(ctxt)),
        final(ctxt).check_state() == checked(old(ctxt).sem(), old(ctxt).check_state()),
{
    let ghost v = ctxt.sem();
    let mut i: usize = 0;
    while i < ctxt.impls.len()
        invariant
            v == ctxt.sem(),
            ids_valid(v, ctxt.fcts@.len()),
            ctxt.same_program(old(ctxt)),
            check_impls(v, ctxt.check_state(), i as int) == checked(v, old(ctxt).check_state()),
        decreases ctxt.impls.len() - i,
    {
        let defined = check_impl_methods(ctxt, i);
        check_impl_missing(ctxt, i, &defined);
        i += 1;
    }
}

} // verus!
