use vstd::prelude::*;
use std::sync::Arc;
use dashmap::DashMap;
use once_cell::sync::OnceCell;
use crate::decl::ClassElt;

verus! {

#[verifier::external_type_specification]
#[verifier::external_body]
#[verifier::reject_recursive_types(K)]
#[verifier::reject_recursive_types(V)]
#[verifier::reject_recursive_types(S)]
pub struct ExDashMap<K, V, S>(DashMap<K, V, S>);

#[verifier::external_type_specification]
#[verifier::external_body]
#[verifier::reject_recursive_types(T)]
pub struct ExOnceCell<T>(OnceCell<T>);

/// Relies on DashMap::new: a map with no entries.
#[verifier::external_body]
fn empty_map<T>() -> DashMap<u64, Arc<ClassElt<T>>> {
    DashMap::new()
}

/// Relies on OnceCell::new: a cell that holds no value yet.
#[verifier::external_body]
fn empty_cell<T>() -> OnceCell<Option<Arc<ClassElt<T>>>> {
    OnceCell::new()
}

/// The typed members of one kind, by name, safe to fill from many threads.
/// The map starts empty and only `insert_if_absent` stores into it, so every
/// value stored under a name is the one `expected` gives for it, and
/// `expected` is fixed when the map is made.
#[verifier::reject_recursive_types(T)]
pub struct MemberMap<T> {
    map: DashMap<u64, Arc<ClassElt<T>>>,
    expected: Ghost<Map<u64, ClassElt<T>>>,
}

/// The constructor slot, filled at most once. It starts empty and only
/// `insert_if_empty` fills it, so what it holds is `expected`.
#[verifier::reject_recursive_types(T)]
pub struct ConstructorSlot<T> {
    cell: OnceCell<Option<Arc<ClassElt<T>>>>,
    expected: Ghost<Option<ClassElt<T>>>,
}

impl<T> MemberMap<T> {
    /// The typed member that may be cached under each name.
    pub closed spec fn expected(&self) -> Map<u64, ClassElt<T>> {
        self.expected@
    }

    /// `e` may be cached under `name`.
    pub open spec fn fits(&self, name: u64, e: ClassElt<T>) -> bool {
        self.expected().contains_key(name) && e == self.expected()[name]
    }

    pub fn new(Ghost(expected): Ghost<Map<u64, ClassElt<T>>>) -> (r: Self)
        ensures
            r.expected() == expected,
    {
        MemberMap { map: empty_map(), expected: Ghost(expected) }
    }

    /// Relies on DashMap::get: a clone of the value stored under `name`, if
    /// there is one.
    #[verifier::external_body]
    pub fn get(&self, name: u64) -> (r: Option<Arc<ClassElt<T>>>)
        ensures
            r matches Some(e) ==> self.fits(name, *e),
    {
        self.map.get(&name).map(|e| Arc::clone(e.value()))
    }

    /// Relies on DashMap::entry with Entry::or_insert: the value already
    /// stored under `name` stays, else `v` is stored; the stored one comes back.
    #[verifier::external_body]
    pub fn insert_if_absent(&self, name: u64, v: Arc<ClassElt<T>>) -> (r: Arc<ClassElt<T>>)
        requires
            self.fits(name, *v),
        ensures
            self.fits(name, *r),
    {
        Arc::clone(self.map.entry(name).or_insert(v).value())
    }
}

impl<T> ConstructorSlot<T> {
    /// The typed constructor of the class, if it has one.
    pub closed spec fn expected(&self) -> Option<ClassElt<T>> {
        self.expected@
    }

    /// `o` may stand in the slot.
    pub open spec fn fits(&self, o: Option<Arc<ClassElt<T>>>) -> bool {
        match o {
            None => self.expected() is None,
            Some(e) => self.expected() == Some(*e),
        }
    }

    pub fn new(Ghost(expected): Ghost<Option<ClassElt<T>>>) -> (r: Self)
        ensures
            r.expected() == expected,
    {
        ConstructorSlot { cell: empty_cell(), expected: Ghost(expected) }
    }

    /// Relies on OnceCell::get: a clone of the value in the cell, if it has
    /// been filled; it never blocks.
    #[verifier::external_body]
    pub fn get(&self) -> (r: Option<Option<Arc<ClassElt<T>>>>)
        ensures
            r matches Some(o) ==> self.fits(o),
    {
        self.cell.get().map(|o| o.clone())
    }

    /// Relies on OnceCell::try_insert: fills an empty cell with `o`; a full
    /// cell keeps its value. Either way the value in the cell comes back.
    #[verifier::external_body]
    pub fn insert_if_empty(&self, o: Option<Arc<ClassElt<T>>>) -> (r: Option<Arc<ClassElt<T>>>)
        requires
            self.fits(o),
        ensures
            self.fits(r),
    {
        match self.cell.try_insert(o) {
            Ok(stored) => stored.clone(),
            Err((stored, _)) => stored.clone(),
        }
    }
}

} // verus!
