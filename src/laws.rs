use vstd::prelude::*;
use std::sync::Arc;
use crate::decl::{ClassElt, FoldedClass, MemberKind};
use crate::provider::{
    constructor_fits, lookup_fits, typed_constructor, typed_member, FoldedDeclProvider,
    MemberError,
};

verus! {

/// A name absent from a bucket of the folded class is absent on every
/// lookup of that kind: any two lookups both give `Ok(None)`, never an error
/// and never a member.
pub proof fn lemma_absence_is_stable<T, P: FoldedDeclProvider<T>>(
    c: FoldedClass,
    p: P,
    kind: MemberKind,
    name: u64,
    first: Result<Option<Arc<ClassElt<T>>>, MemberError>,
    second: Result<Option<Arc<ClassElt<T>>>, MemberError>,
)
    requires
        kind != MemberKind::Constructor,
        !c.members(kind).contains_key(name),
        lookup_fits(c, p, kind, name, first),
        lookup_fits(c, p, kind, name, second),
    ensures
        first == Ok::<Option<Arc<ClassElt<T>>>, MemberError>(None),
        second == Ok::<Option<Arc<ClassElt<T>>>, MemberError>(None),
{
}

/// A name held as a property and not as a method: a property lookup that
/// does not fail gives the property with the type the resolver knows, and a
/// method lookup always gives nothing, in whatever order the two are made.
pub proof fn lemma_kind_isolation<T, P: FoldedDeclProvider<T>>(
    c: FoldedClass,
    p: P,
    name: u64,
    prop: Result<Option<Arc<ClassElt<T>>>, MemberError>,
    method: Result<Option<Arc<ClassElt<T>>>, MemberError>,
)
    requires
        c.members(MemberKind::Property).contains_key(name),
        !c.members(MemberKind::Method).contains_key(name),
        lookup_fits(c, p, MemberKind::Property, name, prop),
        lookup_fits(c, p, MemberKind::Method, name, method),
    ensures
        prop matches Ok(o) ==> o matches Some(e) && e.decl == c.members(MemberKind::Property)[name]
            && e.ty == p.member_type(
            MemberKind::Property,
            c.members(MemberKind::Property)[name].origin,
            name,
        )->0,
        method == Ok::<Option<Arc<ClassElt<T>>>, MemberError>(None),
{
}

/// Two successful lookups of one name of one kind give equal members: the
/// record the folded class holds with the type the resolver knows.
pub proof fn lemma_lookups_agree<T, P: FoldedDeclProvider<T>>(
    c: FoldedClass,
    p: P,
    kind: MemberKind,
    name: u64,
    first: Arc<ClassElt<T>>,
    second: Arc<ClassElt<T>>,
)
    requires
        kind != MemberKind::Constructor,
        lookup_fits(c, p, kind, name, Ok::<Option<Arc<ClassElt<T>>>, MemberError>(Some(first))),
        lookup_fits(c, p, kind, name, Ok::<Option<Arc<ClassElt<T>>>, MemberError>(Some(second))),
    ensures
        *first == *second,
        *first == typed_member(p, c, kind, name),
{
}

/// A fetch error decides nothing for later lookups: it comes only for a
/// member the class holds, and a later lookup that does not fail gives that
/// member with its type, not "no such member".
pub proof fn lemma_fetch_error_is_not_kept<T, P: FoldedDeclProvider<T>>(
    c: FoldedClass,
    p: P,
    kind: MemberKind,
    name: u64,
    failed: Result<Option<Arc<ClassElt<T>>>, MemberError>,
    later: Result<Option<Arc<ClassElt<T>>>, MemberError>,
)
    requires
        kind != MemberKind::Constructor,
        failed is Err,
        lookup_fits(c, p, kind, name, failed),
        lookup_fits(c, p, kind, name, later),
        later is Ok,
    ensures
        failed matches Err(e) && e is Fetch,
        later matches Ok(o) && o matches Some(e) && *e == typed_member(p, c, kind, name),
{
}

/// Any two successful constructor lookups agree: both give no member when
/// the class declares no constructor, and otherwise equal members, the
/// constructor's record with the type the resolver knows.
pub proof fn lemma_constructor_lookups_agree<T, P: FoldedDeclProvider<T>>(
    c: FoldedClass,
    p: P,
    first: Option<Arc<ClassElt<T>>>,
    second: Option<Arc<ClassElt<T>>>,
)
    requires
        constructor_fits(c, p, Ok::<Option<Arc<ClassElt<T>>>, MemberError>(first)),
        constructor_fits(c, p, Ok::<Option<Arc<ClassElt<T>>>, MemberError>(second)),
    ensures
        first is None <==> second is None,
        first is None <==> c.constructor is None,
        first matches Some(e1) ==> second matches Some(e2) && *e1 == *e2 && typed_constructor(p, c)
            == Some(*e1),
{
}

} // verus!
