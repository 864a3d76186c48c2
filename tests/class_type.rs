use std::cell::{Cell, RefCell};
use std::collections::HashMap;
use std::sync::Arc;

use typing_decl_provider::{
    resolve_member, ClassElt, ClassType, FetchError, FoldedClass, FoldedDeclProvider, FoldedElt,
    MemberError, MemberKind, MissingMemberType, Visibility,
};

const C: u64 = 1;
const BASE: u64 = 2;
const X: u64 = 10;
const Y: u64 = 11;
const M: u64 = 12;
const FOO: u64 = 13;
const ABSENT: u64 = 99;

/// Answers from a table keyed by (kind, origin, name), counting each call.
/// A queued error for a key is handed out once before the table is used.
struct Stub {
    types: HashMap<(MemberKind, u64, u64), Option<String>>,
    failures: RefCell<HashMap<(MemberKind, u64, u64), String>>,
    calls: Cell<usize>,
}

impl Stub {
    fn new() -> Stub {
        Stub { types: HashMap::new(), failures: RefCell::new(HashMap::new()), calls: Cell::new(0) }
    }

    fn with(mut self, kind: MemberKind, origin: u64, name: u64, ty: Option<&str>) -> Stub {
        self.types.insert((kind, origin, name), ty.map(|t| t.to_string()));
        self
    }

    fn fail_once(self, kind: MemberKind, origin: u64, name: u64, msg: &str) -> Stub {
        self.failures.borrow_mut().insert((kind, origin, name), msg.to_string());
        self
    }

    fn answer(&self, kind: MemberKind, origin: u64, name: u64) -> Result<Option<String>, FetchError> {
        self.calls.set(self.calls.get() + 1);
        if let Some(msg) = self.failures.borrow_mut().remove(&(kind, origin, name)) {
            return Err(FetchError { class: origin, message: msg });
        }
        Ok(self.types.get(&(kind, origin, name)).cloned().flatten())
    }
}

impl FoldedDeclProvider<String> for Stub {
    fn member_type(&self, kind: MemberKind, origin: u64, name: u64) -> Option<String> {
        self.types.get(&(kind, origin, name)).cloned().flatten()
    }

    fn constructor_type(&self, origin: u64) -> Option<String> {
        self.types.get(&(MemberKind::Constructor, origin, 0)).cloned().flatten()
    }

    fn get_shallow_property_type(&self, origin: u64, name: u64) -> Result<Option<String>, FetchError> {
        self.answer(MemberKind::Property, origin, name)
    }

    fn get_shallow_static_property_type(&self, origin: u64, name: u64) -> Result<Option<String>, FetchError> {
        self.answer(MemberKind::StaticProperty, origin, name)
    }

    fn get_shallow_method_type(&self, origin: u64, name: u64) -> Result<Option<String>, FetchError> {
        self.answer(MemberKind::Method, origin, name)
    }

    fn get_shallow_static_method_type(&self, origin: u64, name: u64) -> Result<Option<String>, FetchError> {
        self.answer(MemberKind::StaticMethod, origin, name)
    }

    fn get_shallow_constructor_type(&self, origin: u64) -> Result<Option<String>, FetchError> {
        self.answer(MemberKind::Constructor, origin, 0)
    }
}

fn elt(origin: u64) -> FoldedElt {
    FoldedElt { origin, visibility: Visibility::Public, flags: 0 }
}

fn empty_class(name: u64) -> FoldedClass {
    FoldedClass {
        name,
        props: vec![],
        static_props: vec![],
        methods: vec![],
        static_methods: vec![],
        constructor: None,
    }
}

fn view(class: FoldedClass, stub: Stub) -> (ClassType<String, Stub>, Arc<Stub>) {
    assert!(class.is_well_formed());
    let stub = Arc::new(stub);
    (ClassType::new(Arc::clone(&stub), Arc::new(class)), stub)
}

fn member(r: Result<Option<Arc<ClassElt<String>>>, MemberError>) -> Arc<ClassElt<String>> {
    match r {
        Ok(Some(e)) => e,
        other => panic!("expected a member, got {:?}", other),
    }
}

#[test]
fn idempotent_caching_resolves_once() {
    let mut c = empty_class(C);
    c.props.push((X, elt(BASE)));
    let (v, stub) = view(c, Stub::new().with(MemberKind::Property, BASE, X, Some("int")));
    let first = member(v.get_prop(X));
    let second = member(v.get_prop(X));
    assert!(Arc::ptr_eq(&first, &second));
    assert_eq!(first.ty, "int");
    assert_eq!(first.decl, elt(BASE));
    assert_eq!(stub.calls.get(), 1);
}

#[test]
fn absence_is_stable_without_resolver() {
    let mut c = empty_class(C);
    c.props.push((X, elt(C)));
    let (v, stub) = view(c, Stub::new().with(MemberKind::Property, C, X, Some("int")));
    for _ in 0..3 {
        assert!(matches!(v.get_prop(ABSENT), Ok(None)));
        assert!(matches!(v.get_static_prop(ABSENT), Ok(None)));
        assert!(matches!(v.get_method(ABSENT), Ok(None)));
        assert!(matches!(v.get_static_method(ABSENT), Ok(None)));
    }
    assert_eq!(stub.calls.get(), 0);
}

#[test]
fn kind_isolation_property_first() {
    let mut c = empty_class(C);
    c.props.push((FOO, elt(C)));
    let (v, _) = view(c, Stub::new().with(MemberKind::Property, C, FOO, Some("string")));
    assert_eq!(member(v.get_prop(FOO)).ty, "string");
    assert!(matches!(v.get_method(FOO), Ok(None)));
}

#[test]
fn kind_isolation_method_first() {
    let mut c = empty_class(C);
    c.props.push((FOO, elt(C)));
    let (v, _) = view(c, Stub::new().with(MemberKind::Property, C, FOO, Some("string")));
    assert!(matches!(v.get_method(FOO), Ok(None)));
    assert_eq!(member(v.get_prop(FOO)).ty, "string");
    assert!(matches!(v.get_static_prop(FOO), Ok(None)));
    assert!(matches!(v.get_static_method(FOO), Ok(None)));
}

#[test]
fn each_kind_asks_its_own_resolver() {
    let mut c = empty_class(C);
    c.props.push((FOO, elt(C)));
    c.static_props.push((FOO, elt(C)));
    c.methods.push((FOO, elt(C)));
    c.static_methods.push((FOO, elt(C)));
    let stub = Stub::new()
        .with(MemberKind::Property, C, FOO, Some("p"))
        .with(MemberKind::StaticProperty, C, FOO, Some("sp"))
        .with(MemberKind::Method, C, FOO, Some("m"))
        .with(MemberKind::StaticMethod, C, FOO, Some("sm"));
    let (v, stub) = view(c, stub);
    assert_eq!(member(v.get_prop(FOO)).ty, "p");
    assert_eq!(member(v.get_static_prop(FOO)).ty, "sp");
    assert_eq!(member(v.get_method(FOO)).ty, "m");
    assert_eq!(member(v.get_static_method(FOO)).ty, "sm");
    assert_eq!(stub.calls.get(), 4);
}

#[test]
fn constructor_is_resolved_once() {
    let mut c = empty_class(C);
    c.constructor = Some(elt(BASE));
    let (v, stub) = view(c, Stub::new().with(MemberKind::Constructor, BASE, 0, Some("(int) -> void")));
    let first = member(v.get_constructor());
    let second = member(v.get_constructor());
    assert!(Arc::ptr_eq(&first, &second));
    assert_eq!(first.ty, "(int) -> void");
    assert_eq!(first.decl, elt(BASE));
    assert_eq!(stub.calls.get(), 1);
}

#[test]
fn no_constructor_is_none_every_time() {
    let (v, stub) = view(empty_class(C), Stub::new());
    assert!(matches!(v.get_constructor(), Ok(None)));
    assert!(matches!(v.get_constructor(), Ok(None)));
    assert_eq!(stub.calls.get(), 0);
}

// A provider that knows no type for a member of the class breaks the rule
// `ClassType::new` asks for; the view then reports the defect instead of
// returning a member.
#[test]
fn missing_property_type_is_reported() {
    let mut c = empty_class(C);
    c.props.push((X, elt(BASE)));
    let (v, _) = view(c, Stub::new().with(MemberKind::Property, BASE, X, None));
    let expected = MissingMemberType {
        kind: MemberKind::Property,
        origin: BASE,
        name: Some(X),
        class: C,
    };
    assert_eq!(v.get_prop(X).unwrap_err(), MemberError::TypeMissing(expected));
}

#[test]
fn missing_constructor_type_is_reported() {
    let mut c = empty_class(C);
    c.constructor = Some(elt(BASE));
    let (v, _) = view(c, Stub::new());
    let expected = MissingMemberType {
        kind: MemberKind::Constructor,
        origin: BASE,
        name: None,
        class: C,
    };
    assert_eq!(v.get_constructor().unwrap_err(), MemberError::TypeMissing(expected));
}

#[test]
fn fetch_error_is_not_cached() {
    let mut c = empty_class(C);
    c.props.push((Y, elt(C)));
    let stub = Stub::new()
        .with(MemberKind::Property, C, Y, Some("bool"))
        .fail_once(MemberKind::Property, C, Y, "decl parse failure");
    let (v, stub) = view(c, stub);
    assert_eq!(
        v.get_prop(Y).unwrap_err(),
        MemberError::Fetch(FetchError { class: C, message: "decl parse failure".to_string() })
    );
    let second = member(v.get_prop(Y));
    assert_eq!(second.ty, "bool");
    let third = member(v.get_prop(Y));
    assert!(Arc::ptr_eq(&second, &third));
    assert_eq!(stub.calls.get(), 2);
}

#[test]
fn constructor_fetch_error_is_not_cached() {
    let mut c = empty_class(C);
    c.constructor = Some(elt(C));
    let stub = Stub::new()
        .with(MemberKind::Constructor, C, 0, Some("() -> void"))
        .fail_once(MemberKind::Constructor, C, 0, "unreadable");
    let (v, stub) = view(c, stub);
    assert!(matches!(v.get_constructor(), Err(MemberError::Fetch(_))));
    let second = member(v.get_constructor());
    let third = member(v.get_constructor());
    assert!(Arc::ptr_eq(&second, &third));
    assert_eq!(stub.calls.get(), 2);
}

#[test]
fn end_to_end_method() {
    let mut c = empty_class(C);
    c.methods.push((M, elt(C)));
    let (v, stub) = view(c, Stub::new().with(MemberKind::Method, C, M, Some("int -> void")));
    let first = member(v.get_method(M));
    assert_eq!(first.ty, "int -> void");
    assert_eq!(stub.calls.get(), 1);
    let second = member(v.get_method(M));
    assert!(Arc::ptr_eq(&first, &second));
    assert_eq!(stub.calls.get(), 1);
}

#[test]
fn fetch_all_members_resolves_everything_in_order() {
    let mut c = empty_class(C);
    c.props.push((Y, elt(C)));
    c.props.push((X, elt(BASE)));
    c.static_methods.push((M, elt(C)));
    c.constructor = Some(elt(C));
    let stub = Stub::new()
        .with(MemberKind::Property, C, Y, Some("bool"))
        .with(MemberKind::Property, BASE, X, Some("int"))
        .with(MemberKind::StaticMethod, C, M, Some("() -> this"))
        .with(MemberKind::Constructor, C, 0, Some("() -> void"));
    let (v, stub) = view(c, stub);
    let all = v.fetch_all_members().unwrap();
    let names: Vec<u64> = all.props.iter().map(|p| p.0).collect();
    assert_eq!(names, vec![Y, X]);
    assert_eq!(all.props[1].1.ty, "int");
    assert!(all.static_props.is_empty());
    assert!(all.methods.is_empty());
    assert_eq!(all.static_methods[0].1.ty, "() -> this");
    assert_eq!(all.constructor.as_ref().unwrap().ty, "() -> void");
    assert_eq!(stub.calls.get(), 4);
    // Everything is cached now.
    let x = member(v.get_prop(X));
    assert!(Arc::ptr_eq(&x, &all.props[1].1));
    assert_eq!(stub.calls.get(), 4);
}

#[test]
fn fetch_all_members_reports_missing_type() {
    let mut c = empty_class(C);
    c.methods.push((M, elt(BASE)));
    let (v, _) = view(c, Stub::new());
    let expected = MissingMemberType { kind: MemberKind::Method, origin: BASE, name: Some(M), class: C };
    assert_eq!(v.fetch_all_members().unwrap_err(), MemberError::TypeMissing(expected));
}

#[test]
fn duplicate_names_are_not_well_formed() {
    let mut c = empty_class(C);
    c.methods.push((M, elt(C)));
    c.methods.push((X, elt(C)));
    assert!(c.is_well_formed());
    c.methods.push((M, elt(BASE)));
    assert!(!c.is_well_formed());
    let mut d = empty_class(C);
    d.props.push((X, elt(C)));
    d.static_props.push((X, elt(C)));
    assert!(d.is_well_formed());
}

#[test]
fn resolve_member_builds_typed_member() {
    let d = FoldedElt { origin: BASE, visibility: Visibility::Protected, flags: 3 };
    let r = resolve_member(MemberKind::Method, C, Some(M), &d, Ok(Some("int".to_string()))).unwrap();
    assert_eq!(r.decl, d);
    assert_eq!(r.ty, "int");
}

#[test]
fn resolve_member_reports_unknown_type() {
    let d = elt(BASE);
    let r = resolve_member::<String>(MemberKind::StaticProperty, C, Some(X), &d, Ok(None));
    let expected = MissingMemberType { kind: MemberKind::StaticProperty, origin: BASE, name: Some(X), class: C };
    assert_eq!(r.unwrap_err(), MemberError::TypeMissing(expected));
}

#[test]
fn resolve_member_passes_fetch_error() {
    let d = elt(BASE);
    let e = FetchError { class: BASE, message: "gone".to_string() };
    let r = resolve_member::<String>(MemberKind::Property, C, Some(X), &d, Err(e.clone()));
    assert_eq!(r.unwrap_err(), MemberError::Fetch(e));
}

#[test]
fn fetch_all_members_of_empty_class_succeeds() {
    let (v, stub) = view(empty_class(C), Stub::new());
    let all = v.fetch_all_members().unwrap();
    assert!(all.props.is_empty() && all.static_props.is_empty());
    assert!(all.methods.is_empty() && all.static_methods.is_empty());
    assert!(all.constructor.is_none());
    assert_eq!(stub.calls.get(), 0);
}

#[test]
fn fetch_all_members_hands_on_fetch_error() {
    let mut c = empty_class(C);
    c.static_props.push((Y, elt(BASE)));
    let stub = Stub::new()
        .with(MemberKind::StaticProperty, BASE, Y, Some("int"))
        .fail_once(MemberKind::StaticProperty, BASE, Y, "io");
    let (v, _) = view(c, stub);
    assert_eq!(
        v.fetch_all_members().unwrap_err(),
        MemberError::Fetch(FetchError { class: BASE, message: "io".to_string() })
    );
    assert_eq!(v.fetch_all_members().unwrap().static_props[0].1.ty, "int");
}
