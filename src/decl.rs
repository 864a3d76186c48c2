use vstd::prelude::*;

verus! {

/// Who may see a class member.
#[derive(Clone, Copy, Debug, PartialEq, Eq, Structural)]
pub enum Visibility {
    Public,
    Protected,
    Private,
    Internal,
}

/// The four keyed kinds of members, and the constructor.
#[derive(Clone, Copy, Debug, PartialEq, Eq, Hash, Structural)]
pub enum MemberKind {
    Property,
    StaticProperty,
    Method,
    StaticMethod,
    Constructor,
}

/// A member of a folded class: where it is defined and its declaration-time
/// metadata, but not its type. Names are interned symbols.
#[derive(Clone, Copy, Debug, PartialEq, Eq, Structural)]
pub struct FoldedElt {
    /// The class that defines the member.
    pub origin: u64,
    pub visibility: Visibility,
    /// Modifier bits (abstract, final, ...), opaque to this crate.
    pub flags: u16,
}

/// A class with all its inherited members flattened in: one bucket of
/// `(name, member)` pairs per kind, and at most one constructor.
#[derive(Clone, Debug)]
pub struct FoldedClass {
    pub name: u64,
    pub props: Vec<(u64, FoldedElt)>,
    pub static_props: Vec<(u64, FoldedElt)>,
    pub methods: Vec<(u64, FoldedElt)>,
    pub static_methods: Vec<(u64, FoldedElt)>,
    pub constructor: Option<FoldedElt>,
}

/// A member with its resolved type.
#[derive(Clone, Debug)]
pub struct ClassElt<T> {
    pub decl: FoldedElt,
    pub ty: T,
}

/// No name occurs twice in the bucket.
pub open spec fn names_unique(b: Seq<(u64, FoldedElt)>) -> bool {
    forall|i: int, j: int| #![trigger b[i], b[j]] 0 <= i < j < b.len() ==> b[i].0 != b[j].0
}

/// The bucket as a map from name to member.
pub open spec fn bucket_map(b: Seq<(u64, FoldedElt)>) -> Map<u64, FoldedElt> {
    Map::new(
        |k: u64| exists|i: int| 0 <= i < b.len() && b[i].0 == k,
        |k: u64| b[choose|i: int| 0 <= i < b.len() && b[i].0 == k].1,
    )
}

impl FoldedClass {
    pub open spec fn bucket(&self, kind: MemberKind) -> Seq<(u64, FoldedElt)> {
        match kind {
            MemberKind::Property => self.props@,
            MemberKind::StaticProperty => self.static_props@,
            MemberKind::Method => self.methods@,
            MemberKind::StaticMethod => self.static_methods@,
            MemberKind::Constructor => Seq::empty(),
        }
    }

    /// The members of one keyed kind, by name.
    pub open spec fn members(&self, kind: MemberKind) -> Map<u64, FoldedElt> {
        bucket_map(self.bucket(kind))
    }

    /// Names are unique within each bucket.
    pub open spec fn wf(&self) -> bool {
        &&& names_unique(self.props@)
        &&& names_unique(self.static_props@)
        &&& names_unique(self.methods@)
        &&& names_unique(self.static_methods@)
    }

    /// Whether the class is well formed: names are unique in each bucket.
    pub fn is_well_formed(&self) -> (r: bool)
        ensures
            r == self.wf(),
    {
        has_unique_names(&self.props) && has_unique_names(&self.static_props)
            && has_unique_names(&self.methods) && has_unique_names(&self.static_methods)
    }

    pub fn bucket_of(&self, kind: MemberKind) -> (r: &Vec<(u64, FoldedElt)>)
        requires
            kind != MemberKind::Constructor,
        ensures
            r@ == self.bucket(kind),
    {
        match kind {
            MemberKind::Property => &self.props,
            MemberKind::StaticProperty => &self.static_props,
            MemberKind::Method => &self.methods,
            _ => &self.static_methods,
        }
    }
}

/// In a bucket with unique names, the member at position `i` is the one its
/// name maps to.
pub proof fn lemma_bucket_entry(b: Seq<(u64, FoldedElt)>, i: int)
    requires
        names_unique(b),
        0 <= i < b.len(),
    ensures
        bucket_map(b).contains_key(b[i].0),
        bucket_map(b)[b[i].0] == b[i].1,
{
    assert(b[i].0 == b[i].0);
    let c = choose|j: int| 0 <= j < b.len() && b[j].0 == b[i].0;
    if c < i {
        assert(b[c].0 != b[i].0);
    } else if c > i {
        assert(b[i].0 != b[c].0);
    }
}

/// Whether no name occurs twice in the bucket.
pub fn has_unique_names(b: &Vec<(u64, FoldedElt)>) -> (r: bool)
    ensures
        r == names_unique(b@),
{
    let mut i: usize = 0;
    while i < b.len()
        invariant
            0 <= i <= b.len(),
            forall|j: int, k: int| #![trigger b@[j], b@[k]] 0 <= j < k < b.len() && j < i ==> b@[j].0 != b@[k].0,
        decreases b.len() - i,
    {
        let mut k: usize = i + 1;
        while k < b.len()
            invariant
                i < b.len(),
                i + 1 <= k <= b.len(),
                forall|j: int, m: int| #![trigger b@[j], b@[m]] 0 <= j < m < b.len() && j < i ==> b@[j].0 != b@[m].0,
                forall|m: int| i < m < k ==> b@[i as int].0 != #[trigger] b@[m].0,
            decreases b.len() - k,
        {
            if b[i].0 == b[k].0 {
                assert(!names_unique(b@)) by {
                    assert(b@[i as int].0 == b@[k as int].0);
                }
                return false;
            }
            k = k + 1;
        }
        i = i + 1;
    }
    true
}

/// Looks `name` up in a bucket whose names are unique.
pub fn find_member(b: &Vec<(u64, FoldedElt)>, name: u64) -> (r: Option<FoldedElt>)
    requires
        names_unique(b@),
    ensures
        r is None <==> !bucket_map(b@).contains_key(name),
        r matches Some(e) ==> bucket_map(b@).contains_key(name) && e == bucket_map(b@)[name],
{
    let mut i: usize = 0;
    while i < b.len()
        invariant
            0 <= i <= b.len(),
            names_unique(b@),
            forall|j: int| 0 <= j < i ==> b@[j].0 != name,
        decreases b.len() - i,
    {
        if b[i].0 == name {
            proof {
                assert(b@[i as int].0 == name);
                assert(bucket_map(b@).contains_key(name));
                let c = choose|j: int| 0 <= j < b@.len() && b@[j].0 == name;
                if c < i as int {
                    assert(b@[c].0 != b@[i as int].0);
                } else if c > i as int {
                    assert(b@[i as int].0 != b@[c].0);
                }
            }
            return Some(b[i].1);
        }
        i = i + 1;
    }
    None
}

} // verus!
