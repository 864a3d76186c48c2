//! Per-class typed member cache: a class view resolves the type of each
//! member of a folded class on first access and serves it from a concurrent
//! cache afterwards.

mod cache;
mod class_type;
mod decl;
mod laws;
mod provider;

pub use class_type::{has_no_members, resolves_bucket, resolves_class, AllMembers, ClassType};
pub use decl::{
    bucket_map, find_member, has_unique_names, lemma_bucket_entry, names_unique, ClassElt,
    FoldedClass, FoldedElt, MemberKind, Visibility,
};
pub use laws::{
    lemma_absence_is_stable, lemma_constructor_lookups_agree, lemma_fetch_error_is_not_kept,
    lemma_kind_isolation, lemma_lookups_agree,
};
pub use provider::{
    constructor_fits, knows_member_types, lookup_fits, resolve_member, typed_constructor,
    typed_member, typed_members, FetchError, FoldedDeclProvider, MemberError, MissingMemberType,
};
