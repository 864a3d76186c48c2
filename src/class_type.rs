use vstd::prelude::*;
use std::sync::Arc;
use crate::cache::{ConstructorSlot, MemberMap};
use crate::decl::{find_member, lemma_bucket_entry, ClassElt, FoldedClass, MemberKind};
use crate::provider::{
    constructor_fits, knows_member_types, lookup_fits, resolve_member, typed_constructor,
    typed_member, typed_members, FetchError, FoldedDeclProvider, MemberError,
};

verus! {

/// Every member of a class view with its type, each bucket in its order.
#[derive(Debug)]
pub struct AllMembers<T> {
    pub props: Vec<(u64, Arc<ClassElt<T>>)>,
    pub static_props: Vec<(u64, Arc<ClassElt<T>>)>,
    pub methods: Vec<(u64, Arc<ClassElt<T>>)>,
    pub static_methods: Vec<(u64, Arc<ClassElt<T>>)>,
    pub constructor: Option<Arc<ClassElt<T>>>,
}

/// `out` holds, position by position, the names of the bucket of `kind` in
/// `c` with their typed members.
pub open spec fn resolves_bucket<T, P: FoldedDeclProvider<T>>(
    c: FoldedClass,
    p: P,
    kind: MemberKind,
    out: Seq<(u64, Arc<ClassElt<T>>)>,
) -> bool {
    &&& out.len() == c.bucket(kind).len()
    &&& forall|i: int|
        0 <= i < out.len() ==> (#[trigger] out[i]).0 == c.bucket(kind)[i].0 && *out[i].1
            == typed_member(p, c, kind, c.bucket(kind)[i].0)
}

/// `a` holds every member of `c`, typed as `p` knows them.
pub open spec fn resolves_class<T, P: FoldedDeclProvider<T>>(
    c: FoldedClass,
    p: P,
    a: AllMembers<T>,
) -> bool {
    &&& resolves_bucket(c, p, MemberKind::Property, a.props@)
    &&& resolves_bucket(c, p, MemberKind::StaticProperty, a.static_props@)
    &&& resolves_bucket(c, p, MemberKind::Method, a.methods@)
    &&& resolves_bucket(c, p, MemberKind::StaticMethod, a.static_methods@)
    &&& constructor_fits(c, p, Ok::<Option<Arc<ClassElt<T>>>, MemberError>(a.constructor))
}

/// `c` has no member of any kind and no constructor.
pub open spec fn has_no_members(c: FoldedClass) -> bool {
    &&& c.props@.len() == 0
    &&& c.static_props@.len() == 0
    &&& c.methods@.len() == 0
    &&& c.static_methods@.len() == 0
    &&& c.constructor is None
}

#[verifier::reject_recursive_types(T)]
struct EagerMembers<T> {
    props: MemberMap<T>,
    static_props: MemberMap<T>,
    methods: MemberMap<T>,
    static_methods: MemberMap<T>,
    constructor: ConstructorSlot<T>,
}

impl<T> EagerMembers<T> {
    /// An empty cache for the members of `class`, typed as `provider` knows them.
    fn new<P: FoldedDeclProvider<T>>(class: &FoldedClass, provider: &P) -> (r: Self)
        ensures
            r.props.expected() == typed_members(*provider, *class, MemberKind::Property),
            r.static_props.expected() == typed_members(
                *provider,
                *class,
                MemberKind::StaticProperty,
            ),
            r.methods.expected() == typed_members(*provider, *class, MemberKind::Method),
            r.static_methods.expected() == typed_members(
                *provider,
                *class,
                MemberKind::StaticMethod,
            ),
            r.constructor.expected() == typed_constructor(*provider, *class),
    {
        EagerMembers {
            props: MemberMap::new(Ghost(typed_members(*provider, *class, MemberKind::Property))),
            static_props: MemberMap::new(
                Ghost(typed_members(*provider, *class, MemberKind::StaticProperty)),
            ),
            methods: MemberMap::new(Ghost(typed_members(*provider, *class, MemberKind::Method))),
            static_methods: MemberMap::new(
                Ghost(typed_members(*provider, *class, MemberKind::StaticMethod)),
            ),
            constructor: ConstructorSlot::new(Ghost(typed_constructor(*provider, *class))),
        }
    }
}

/// A typing view of one class: its folded declaration and a cache of its
/// members with their types. The folded declaration does not hold member
/// types; on the first lookup of a member the view asks the provider for the
/// type at the member's origin and caches the typed member. Members inherited
/// from a generic base keep the type declared there: no substitution is made.
#[verifier::reject_recursive_types(T)]
pub struct ClassType<T, P: FoldedDeclProvider<T>> {
    provider: Arc<P>,
    class: Arc<FoldedClass>,
    members: EagerMembers<T>,
}

impl<T, P: FoldedDeclProvider<T>> ClassType<T, P> {
    /// The folded class being viewed.
    pub closed spec fn folded(&self) -> FoldedClass {
        *self.class
    }

    /// The resolver the view asks for member types.
    pub closed spec fn resolver(&self) -> P {
        *self.provider
    }

    #[verifier::type_invariant]
    closed spec fn cache_matches_class(&self) -> bool {
        let c = *self.class;
        let p = *self.provider;
        &&& c.wf()
        &&& knows_member_types(p, c)
        &&& self.members.props.expected() == typed_members(p, c, MemberKind::Property)
        &&& self.members.static_props.expected() == typed_members(
            p,
            c,
            MemberKind::StaticProperty,
        )
        &&& self.members.methods.expected() == typed_members(p, c, MemberKind::Method)
        &&& self.members.static_methods.expected() == typed_members(
            p,
            c,
            MemberKind::StaticMethod,
        )
        &&& self.members.constructor.expected() == typed_constructor(p, c)
    }

    pub fn new(provider: Arc<P>, class: Arc<FoldedClass>) -> (r: Self)
        requires
            class.wf(),
            knows_member_types(*provider, *class),
        ensures
            r.folded() == *class,
            r.resolver() == *provider,
    {
        let members = EagerMembers::new(&*class, &*provider);
        ClassType { provider, class, members }
    }

    /// The folded class being viewed.
    pub fn class(&self) -> (r: &FoldedClass)
        ensures
            *r == self.folded(),
    {
        &self.class
    }

    fn cache_of(&self, kind: MemberKind) -> (r: &MemberMap<T>)
        requires
            kind != MemberKind::Constructor,
        ensures
            r.expected() == typed_members(self.resolver(), self.folded(), kind),
    {
        proof {
            use_type_invariant(self);
        }
        match kind {
            MemberKind::Property => &self.members.props,
            MemberKind::StaticProperty => &self.members.static_props,
            MemberKind::Method => &self.members.methods,
            _ => &self.members.static_methods,
        }
    }

    fn fetch_type(&self, kind: MemberKind, origin: u64, name: u64) -> (r: Result<
        Option<T>,
        FetchError,
    >)
        requires
            kind != MemberKind::Constructor,
        ensures
            r matches Ok(o) ==> o == self.resolver().member_type(kind, origin, name),
    {
        match kind {
            MemberKind::Property => self.provider.get_shallow_property_type(origin, name),
            MemberKind::StaticProperty => self.provider.get_shallow_static_property_type(origin, name),
            MemberKind::Method => self.provider.get_shallow_method_type(origin, name),
            _ => self.provider.get_shallow_static_method_type(origin, name),
        }
    }

    /// The lookup shared by the four keyed kinds: the cached member, else the
    /// member built from the folded record and the provider's type, cached
    /// unless another thread cached one first, in which case that one is kept.
    /// A fetch error is handed on and nothing is cached.
    fn get_member(&self, kind: MemberKind, name: u64) -> (r: Result<
        Option<Arc<ClassElt<T>>>,
        MemberError,
    >)
        requires
            kind != MemberKind::Constructor,
        ensures
            lookup_fits(self.folded(), self.resolver(), kind, name, r),
    {
        proof {
            use_type_invariant(self);
        }
        let cache = self.cache_of(kind);
        if let Some(e) = cache.get(name) {
            return Ok(Some(e));
        }
        let decl = match find_member(self.class.bucket_of(kind), name) {
            Some(d) => d,
            None => return Ok(None),
        };
        let fetched = self.fetch_type(kind, decl.origin, name);
        match resolve_member(kind, self.class.name, Some(name), &decl, fetched) {
            Ok(elt) => Ok(Some(cache.insert_if_absent(name, Arc::new(elt)))),
            Err(e) => Err(e),
        }
    }

    pub fn get_prop(&self, name: u64) -> (r: Result<Option<Arc<ClassElt<T>>>, MemberError>)
        ensures
            lookup_fits(self.folded(), self.resolver(), MemberKind::Property, name, r),
    {
        self.get_member(MemberKind::Property, name)
    }

    pub fn get_static_prop(&self, name: u64) -> (r: Result<Option<Arc<ClassElt<T>>>, MemberError>)
        ensures
            lookup_fits(self.folded(), self.resolver(), MemberKind::StaticProperty, name, r),
    {
        self.get_member(MemberKind::StaticProperty, name)
    }

    pub fn get_method(&self, name: u64) -> (r: Result<Option<Arc<ClassElt<T>>>, MemberError>)
        ensures
            lookup_fits(self.folded(), self.resolver(), MemberKind::Method, name, r),
    {
        self.get_member(MemberKind::Method, name)
    }

    pub fn get_static_method(&self, name: u64) -> (r: Result<Option<Arc<ClassElt<T>>>, MemberError>)
        ensures
            lookup_fits(self.folded(), self.resolver(), MemberKind::StaticMethod, name, r),
    {
        self.get_member(MemberKind::StaticMethod, name)
    }

    /// Looks up every member of one keyed kind, in bucket order.
    fn resolve_bucket(&self, kind: MemberKind) -> (r: Result<Vec<(u64, Arc<ClassElt<T>>)>, MemberError>)
        requires
            kind != MemberKind::Constructor,
        ensures
            r matches Ok(out) ==> resolves_bucket(self.folded(), self.resolver(), kind, out@),
            r matches Err(e) ==> e is Fetch,
            self.folded().bucket(kind).len() == 0 ==> r is Ok,
    {
        proof {
            use_type_invariant(self);
        }
        let b = self.class.bucket_of(kind);
        let mut out: Vec<(u64, Arc<ClassElt<T>>)> = Vec::new();
        let mut i: usize = 0;
        while i < b.len()
            invariant
                kind != MemberKind::Constructor,
                b@ == self.folded().bucket(kind),
                self.folded().wf(),
                0 <= i <= b.len(),
                out.len() == i,
                forall|j: int|
                    0 <= j < i ==> (#[trigger] out@[j]).0 == b@[j].0 && *out@[j].1 == typed_member(
                        self.resolver(),
                        self.folded(),
                        kind,
                        b@[j].0,
                    ),
            decreases b.len() - i,
        {
            let name = b[i].0;
            proof {
                lemma_bucket_entry(b@, i as int);
            }
            match self.get_member(kind, name) {
                Ok(Some(e)) => out.push((name, e)),
                Ok(None) => {
                    proof {
                        assert(false);
                    }
                    return Ok(out);
                },
                Err(e) => return Err(e),
            }
            i = i + 1;
        }
        Ok(out)
    }

    /// Resolves every member of the class: the four buckets in their order,
    /// then the constructor. The first fetch error comes back as it is.
    pub fn fetch_all_members(&self) -> (r: Result<AllMembers<T>, MemberError>)
        ensures
            r matches Ok(a) ==> resolves_class(self.folded(), self.resolver(), a),
            r matches Err(e) ==> e is Fetch,
            has_no_members(self.folded()) ==> r is Ok,
    {
        let props = match self.resolve_bucket(MemberKind::Property) {
            Ok(v) => v,
            Err(e) => return Err(e),
        };
        let static_props = match self.resolve_bucket(MemberKind::StaticProperty) {
            Ok(v) => v,
            Err(e) => return Err(e),
        };
        let methods = match self.resolve_bucket(MemberKind::Method) {
            Ok(v) => v,
            Err(e) => return Err(e),
        };
        let static_methods = match self.resolve_bucket(MemberKind::StaticMethod) {
            Ok(v) => v,
            Err(e) => return Err(e),
        };
        let constructor = match self.get_constructor() {
            Ok(c) => c,
            Err(e) => return Err(e),
        };
        Ok(AllMembers { props, static_props, methods, static_methods, constructor })
    }

    /// Builds the constructor's typed member from the folded record and the
    /// provider's type.
    fn build_constructor(&self) -> (r: Result<Option<Arc<ClassElt<T>>>, MemberError>)
        ensures
            constructor_fits(self.folded(), self.resolver(), r),
    {
        proof {
            use_type_invariant(self);
        }
        let decl = match self.class.constructor {
            Some(d) => d,
            None => return Ok(None),
        };
        let fetched = self.provider.get_shallow_constructor_type(decl.origin);
        match resolve_member(MemberKind::Constructor, self.class.name, None, &decl, fetched) {
            Ok(elt) => Ok(Some(Arc::new(elt))),
            Err(e) => Err(e),
        }
    }

    /// The constructor: the one in the slot, else the one built now and put
    /// in the slot, unless another thread filled it first, in which case that
    /// one is kept. A fetch error is handed on and the slot stays empty.
    pub fn get_constructor(&self) -> (r: Result<Option<Arc<ClassElt<T>>>, MemberError>)
        ensures
            constructor_fits(self.folded(), self.resolver(), r),
    {
        proof {
            use_type_invariant(self);
        }
        if let Some(o) = self.members.constructor.get() {
            return Ok(o);
        }
        match self.build_constructor() {
            Ok(o) => Ok(self.members.constructor.insert_if_empty(o)),
            Err(e) => Err(e),
        }
    }
}

} // verus!
