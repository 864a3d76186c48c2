use vstd::prelude::*;
use std::sync::Arc;
use crate::decl::{ClassElt, FoldedClass, FoldedElt, MemberKind};

verus! {

/// The declaration source could not be fetched or parsed.
#[derive(Clone, Debug, PartialEq, Eq)]
pub struct FetchError {
    /// The class whose declarations were being fetched.
    pub class: u64,
    pub message: String,
}

/// The resolver said it knows no type for a member that the folded class
/// holds: the folded and the shallow declarations have gone out of sync.
#[derive(Clone, Copy, Debug, PartialEq, Eq, Structural)]
pub struct MissingMemberType {
    pub kind: MemberKind,
    /// The class that defines the member.
    pub origin: u64,
    /// The member's name; `None` for the constructor.
    pub name: Option<u64>,
    /// The class being viewed.
    pub class: u64,
}

/// Why a member lookup did not complete. `Fetch` is recoverable and a later
/// lookup may succeed; `TypeMissing` is a defect of the surrounding pipeline
/// and must not be recovered from.
#[derive(Clone, Debug, PartialEq, Eq)]
pub enum MemberError {
    Fetch(FetchError),
    TypeMissing(MissingMemberType),
}

/// The resolver: gives the type of a member at the class that defines it.
/// What it knows is fixed: `member_type` and `constructor_type` name it. For
/// every member of a folded class that its companion produced it knows a
/// type, so `Ok(None)` comes only for members that no folded class holds.
pub trait FoldedDeclProvider<T> {
    /// The type of the member `name` of `kind` defined at `origin`, if known.
    spec fn member_type(&self, kind: MemberKind, origin: u64, name: u64) -> Option<T>;

    /// The type of the constructor defined at `origin`, if known.
    spec fn constructor_type(&self, origin: u64) -> Option<T>;

    fn get_shallow_property_type(&self, origin: u64, name: u64) -> (r: Result<
        Option<T>,
        FetchError,
    >)
        ensures
            r matches Ok(o) ==> o == self.member_type(MemberKind::Property, origin, name),
    ;

    fn get_shallow_static_property_type(&self, origin: u64, name: u64) -> (r: Result<
        Option<T>,
        FetchError,
    >)
        ensures
            r matches Ok(o) ==> o == self.member_type(MemberKind::StaticProperty, origin, name),
    ;

    fn get_shallow_method_type(&self, origin: u64, name: u64) -> (r: Result<
        Option<T>,
        FetchError,
    >)
        ensures
            r matches Ok(o) ==> o == self.member_type(MemberKind::Method, origin, name),
    ;

    fn get_shallow_static_method_type(&self, origin: u64, name: u64) -> (r: Result<
        Option<T>,
        FetchError,
    >)
        ensures
            r matches Ok(o) ==> o == self.member_type(MemberKind::StaticMethod, origin, name),
    ;

    fn get_shallow_constructor_type(&self, origin: u64) -> (r: Result<Option<T>, FetchError>)
        ensures
            r matches Ok(o) ==> o == self.constructor_type(origin),
    ;
}

/// The rule between folded and shallow declarations: `p` knows a type for
/// every member of `c`, at the member's origin, and for its constructor.
pub open spec fn knows_member_types<T, P: FoldedDeclProvider<T>>(p: P, c: FoldedClass) -> bool {
    &&& forall|kind: MemberKind, name: u64|
        kind != MemberKind::Constructor && #[trigger] c.members(kind).contains_key(name)
            ==> p.member_type(kind, c.members(kind)[name].origin, name) is Some
    &&& c.constructor matches Some(d) ==> p.constructor_type(d.origin) is Some
}

/// The typed member for `name` of `kind`: its record in `c` with the type
/// that `p` knows at its origin.
pub open spec fn typed_member<T, P: FoldedDeclProvider<T>>(
    p: P,
    c: FoldedClass,
    kind: MemberKind,
    name: u64,
) -> ClassElt<T> {
    let d = c.members(kind)[name];
    ClassElt { decl: d, ty: p.member_type(kind, d.origin, name)->0 }
}

/// The typed members of one keyed kind, by name.
pub open spec fn typed_members<T, P: FoldedDeclProvider<T>>(
    p: P,
    c: FoldedClass,
    kind: MemberKind,
) -> Map<u64, ClassElt<T>> {
    Map::new(|k: u64| c.members(kind).contains_key(k), |k: u64| typed_member(p, c, kind, k))
}

/// The typed constructor, if `c` declares one.
pub open spec fn typed_constructor<T, P: FoldedDeclProvider<T>>(p: P, c: FoldedClass) -> Option<
    ClassElt<T>,
> {
    match c.constructor {
        None => None,
        Some(d) => Some(ClassElt { decl: d, ty: p.constructor_type(d.origin)->0 }),
    }
}

/// The result of one member lookup, as it must be for the folded class `c`
/// and the resolver `p`: no member exactly when the name is absent from the
/// bucket of `kind`; otherwise the typed member, or a fetch error of the
/// resolver. A missing type never comes back.
pub open spec fn lookup_fits<T, P: FoldedDeclProvider<T>>(
    c: FoldedClass,
    p: P,
    kind: MemberKind,
    name: u64,
    r: Result<Option<Arc<ClassElt<T>>>, MemberError>,
) -> bool {
    let members = c.members(kind);
    match r {
        Ok(None) => !members.contains_key(name),
        Ok(Some(e)) => members.contains_key(name) && *e == typed_member(p, c, kind, name),
        Err(MemberError::Fetch(_)) => members.contains_key(name),
        Err(MemberError::TypeMissing(_)) => false,
    }
}

/// The result of a constructor lookup, as it must be for `c` and `p`: no
/// member exactly when `c` declares no constructor; otherwise the typed
/// constructor, or a fetch error of the resolver.
pub open spec fn constructor_fits<T, P: FoldedDeclProvider<T>>(
    c: FoldedClass,
    p: P,
    r: Result<Option<Arc<ClassElt<T>>>, MemberError>,
) -> bool {
    match r {
        Ok(None) => c.constructor is None,
        Ok(Some(e)) => typed_constructor(p, c) == Some(*e),
        Err(MemberError::Fetch(_)) => c.constructor is Some,
        Err(MemberError::TypeMissing(_)) => false,
    }
}

/// Builds the typed member from its record and what the resolver returned.
pub fn resolve_member<T>(
    kind: MemberKind,
    class: u64,
    name: Option<u64>,
    decl: &FoldedElt,
    fetched: Result<Option<T>, FetchError>,
) -> (r: Result<ClassElt<T>, MemberError>)
    ensures
        match fetched {
            Ok(Some(ty)) => r == Ok::<ClassElt<T>, MemberError>(ClassElt { decl: *decl, ty }),
            Ok(None) => r == Err::<ClassElt<T>, MemberError>(
                MemberError::TypeMissing(
                    MissingMemberType { kind, origin: decl.origin, name, class },
                ),
            ),
            Err(e) => r == Err::<ClassElt<T>, MemberError>(MemberError::Fetch(e)),
        },
{
    match fetched {
        Ok(Some(ty)) => Ok(ClassElt { decl: *decl, ty }),
        Ok(None) => Err(
            MemberError::TypeMissing(MissingMemberType { kind, origin: decl.origin, name, class }),
        ),
        Err(e) => Err(MemberError::Fetch(e)),
    }
}

} // verus!
