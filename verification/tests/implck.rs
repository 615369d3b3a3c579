use dora::ast::Name;
use dora::class::{Class, ClassId};
use dora::ctxt::{
    Args, Context, Entries, Fct, FctId, FctKind, FctSrc, ImplData, ImplId, TraitData, TraitId,
};
use dora::implck::{check, find_method, ids_valid_exec};
use dora::lexer::Position;
use dora::msg::Msg;
use dora::ty::BuiltinType;

fn pos(line: u32, column: u32) -> Position {
    Position::new(line, column)
}

fn empty_context() -> Context {
    Context::new(
        Args { flag_omit_bounds_check: false },
        Entries {
            gc_alloc: 0x1000,
            start_native_call: 0x2000,
            finish_native_call: 0x3000,
            str_len: 0x4000,
            str_parse_int: 0x5000,
        },
    )
}

fn method(name: Name, pos: Position, is_static: bool, params: Vec<BuiltinType>, ret: BuiltinType, owner: Option<ClassId>, kind: FctKind) -> Fct {
    Fct {
        id: FctId(0),
        pos,
        name,
        params_types: params,
        return_type: ret,
        owner_class: owner,
        is_static,
        has_override: false,
        has_open: false,
        has_final: false,
        internal: false,
        overrides: None,
        throws: false,
        ctor: None,
        vtable_index: None,
        initialized: true,
        impl_for: None,
        kind,
    }
}

/// `trait Foo { <trait methods> } class A impl Foo for A { <impl methods> }`,
/// with the trait at line 2 and the impl at `impl_pos`.
fn program(trait_methods: Vec<Fct>, impl_methods: Vec<Fct>, impl_pos: Position) -> Context {
    let mut ctxt = empty_context();
    let foo = ctxt.interner.intern("Foo");
    let a = ctxt.interner.intern("A");
    ctxt.classes.push(Class {
        id: ClassId(0),
        name: a,
        ty: BuiltinType::Class(ClassId(0)),
        parent_class: None,
        has_open: false,
        internal: false,
        ctors: Vec::new(),
        fields: Vec::new(),
        methods: Vec::new(),
        size: 8,
        vtable: None,
    });
    let mut in_trait = Vec::new();
    for m in trait_methods {
        in_trait.push(ctxt.add_fct(m));
    }
    let mut in_impl = Vec::new();
    for m in impl_methods {
        in_impl.push(ctxt.add_fct(m));
    }
    ctxt.traits.push(TraitData { id: TraitId(0), pos: pos(2, 13), name: foo, methods: in_trait });
    ctxt.impls.push(ImplData {
        id: ImplId(0),
        pos: impl_pos,
        trait_id: TraitId(0),
        class_id: ClassId(0),
        methods: in_impl,
    });
    ctxt
}

fn ok(mut ctxt: Context) -> Context {
    assert!(ids_valid_exec(&ctxt));
    check(&mut ctxt);
    assert!(!ctxt.diag.has_errors());
    ctxt
}

fn err(mut ctxt: Context, at: Position, msg: Msg) {
    assert!(ids_valid_exec(&ctxt));
    check(&mut ctxt);
    assert_eq!(ctxt.diag.len(), 1);
    let (p, m) = ctxt.diag.error(0);
    assert_eq!(p, at);
    assert_eq!(*m, msg);
}

#[test]
fn method_not_in_trait() {
    // trait Foo {}
    // class A
    // impl Foo for A {
    //     fun bar() {}
    // }
    let mut names = empty_context();
    names.interner.intern("Foo");
    names.interner.intern("A");
    let bar = names.interner.intern("bar");
    let mut ctxt = program(
        vec![],
        vec![method(bar, pos(5, 17), false, vec![], BuiltinType::Unit, Some(ClassId(0)), FctKind::Source(FctSrc::new()))],
        pos(4, 13),
    );
    assert_eq!(ctxt.interner.intern("bar"), bar);
    err(ctxt, pos(5, 17), Msg::MethodNotInTrait("Foo".into(), "bar".into(), vec![]));
}

#[test]
fn method_missing_in_impl() {
    // trait Foo {
    //     fun bar();
    // }
    // class A
    // impl Foo for A {}
    let mut names = empty_context();
    names.interner.intern("Foo");
    names.interner.intern("A");
    let bar = names.interner.intern("bar");
    let mut ctxt = program(
        vec![method(bar, pos(3, 17), false, vec![], BuiltinType::Unit, None, FctKind::Definition)],
        vec![],
        pos(6, 13),
    );
    assert_eq!(ctxt.interner.intern("bar"), bar);
    err(ctxt, pos(6, 13), Msg::MethodMissingFromTrait("Foo".into(), "bar".into(), vec![]));
}

#[test]
fn method_returning_self() {
    // trait Foo {
    //     fun foo() -> Self;
    // }
    // class A
    // impl Foo for A {
    //     fun foo() -> A { return A(); }
    // }
    let mut names = empty_context();
    names.interner.intern("Foo");
    names.interner.intern("A");
    let foo = names.interner.intern("foo");
    let mut ctxt = program(
        vec![method(foo, pos(2, 17), false, vec![], BuiltinType::This, None, FctKind::Definition)],
        vec![method(
            foo,
            pos(8, 17),
            false,
            vec![],
            BuiltinType::Class(ClassId(0)),
            Some(ClassId(0)),
            FctKind::Source(FctSrc::new()),
        )],
        pos(7, 13),
    );
    assert_eq!(ctxt.interner.intern("foo"), foo);
    let ctxt = ok(ctxt);
    assert_eq!(ctxt.fcts[1].impl_for, Some(FctId(0)));
    assert_eq!(ctxt.fcts[0].impl_for, None);
}

#[test]
fn static_method_not_in_trait() {
    // trait Foo {}
    // class A
    // impl Foo for A {
    //     static fun bar() {}
    // }
    let mut names = empty_context();
    names.interner.intern("Foo");
    names.interner.intern("A");
    let bar = names.interner.intern("bar");
    let mut ctxt = program(
        vec![],
        vec![method(bar, pos(5, 24), true, vec![], BuiltinType::Unit, Some(ClassId(0)), FctKind::Source(FctSrc::new()))],
        pos(4, 13),
    );
    assert_eq!(ctxt.interner.intern("bar"), bar);
    err(ctxt, pos(5, 24), Msg::StaticMethodNotInTrait("Foo".into(), "bar".into(), vec![]));
}

#[test]
fn static_method_missing_in_impl() {
    // trait Foo {
    //     static fun bar();
    // }
    // class A
    // impl Foo for A {}
    let mut names = empty_context();
    names.interner.intern("Foo");
    names.interner.intern("A");
    let bar = names.interner.intern("bar");
    let mut ctxt = program(
        vec![method(bar, pos(3, 24), true, vec![], BuiltinType::Unit, None, FctKind::Definition)],
        vec![],
        pos(6, 13),
    );
    assert_eq!(ctxt.interner.intern("bar"), bar);
    err(ctxt, pos(6, 13), Msg::StaticMethodMissingFromTrait("Foo".into(), "bar".into(), vec![]));
}

#[test]
fn self_in_trait_parameter_stands_for_the_class() {
    let mut names = empty_context();
    names.interner.intern("Foo");
    names.interner.intern("A");
    let eq = names.interner.intern("equals");
    let mut ctxt = program(
        vec![method(eq, pos(2, 17), false, vec![BuiltinType::This, BuiltinType::Int], BuiltinType::Bool, None, FctKind::Definition)],
        vec![method(
            eq,
            pos(6, 17),
            false,
            vec![BuiltinType::Class(ClassId(0)), BuiltinType::Int],
            BuiltinType::Bool,
            Some(ClassId(0)),
            FctKind::Source(FctSrc::new()),
        )],
        pos(5, 13),
    );
    assert_eq!(ctxt.interner.intern("equals"), eq);
    let args = vec![BuiltinType::Class(ClassId(0)), BuiltinType::Int];
    assert_eq!(
        find_method(&ctxt, TraitId(0), false, eq, Some(BuiltinType::Class(ClassId(0))), &args),
        Some(FctId(0))
    );
    assert_eq!(find_method(&ctxt, TraitId(0), true, eq, Some(BuiltinType::Class(ClassId(0))), &args), None);
    assert_eq!(find_method(&ctxt, TraitId(0), false, eq, Some(BuiltinType::Int), &args), None);
    let ctxt = ok(ctxt);
    assert_eq!(ctxt.fcts[1].impl_for, Some(FctId(0)));
}

#[test]
fn findings_name_the_parameter_types() {
    let mut names = empty_context();
    names.interner.intern("Foo");
    names.interner.intern("A");
    let bar = names.interner.intern("bar");
    let mut ctxt = program(
        vec![method(bar, pos(3, 17), false, vec![BuiltinType::Int], BuiltinType::Unit, None, FctKind::Definition)],
        vec![method(
            bar,
            pos(7, 17),
            false,
            vec![BuiltinType::Class(ClassId(0)), BuiltinType::Bool],
            BuiltinType::Unit,
            Some(ClassId(0)),
            FctKind::Source(FctSrc::new()),
        )],
        pos(6, 13),
    );
    assert_eq!(ctxt.interner.intern("bar"), bar);
    assert!(ids_valid_exec(&ctxt));
    check(&mut ctxt);
    assert_eq!(ctxt.diag.len(), 2);
    let (p0, m0) = ctxt.diag.error(0);
    assert_eq!(p0, pos(7, 17));
    assert_eq!(*m0, Msg::MethodNotInTrait("Foo".into(), "bar".into(), vec!["A".into(), "bool".into()]));
    let (p1, m1) = ctxt.diag.error(1);
    assert_eq!(p1, pos(6, 13));
    assert_eq!(*m1, Msg::MethodMissingFromTrait("Foo".into(), "bar".into(), vec!["int".into()]));
}

#[test]
fn invalid_ids_are_told() {
    let mut ctxt = program(vec![], vec![], pos(4, 13));
    ctxt.impls[0].methods.push(FctId(7));
    assert!(!ids_valid_exec(&ctxt));
}
