//! What the accessor needs to know of an entity type.

use vstd::prelude::*;
use crate::utils::plain_route;

verus! {

/// An entity type: rows of one table, cached under one route.
pub trait Entity: Sized {
    /// What a caller supplies to create an entity.
    type Fields;

    /// The route under which entities of this type are cached.
    spec fn spec_route() -> Seq<char>;

    fn route() -> (route: &'static str)
        ensures
            route@ == Self::spec_route(),
    ;

    /// Routes hold no key separator, so keys of different types never collide.
    proof fn lemma_route_plain()
        ensures
            plain_route(Self::spec_route()),
    ;

    /// The number of symbols in a fresh identifier.
    spec fn spec_id_length() -> usize;

    fn id_length() -> (length: usize)
        ensures
            length == Self::spec_id_length(),
            0 < length,
            8 * length <= usize::MAX,
    ;

    /// The entity's identifier.
    spec fn spec_id(&self) -> String;

    fn id(&self) -> (id: &String)
        ensures
            *id == self.spec_id(),
    ;

    /// The parent that `fields` name, if entities of this type have one.
    spec fn spec_parent(fields: &Self::Fields) -> Option<String>;

    /// Whether `fields` can become an entity.
    spec fn spec_accepts(fields: &Self::Fields) -> bool;

    fn accepts(fields: &Self::Fields) -> (ok: bool)
        ensures
            ok == Self::spec_accepts(fields),
    ;

    /// The row that the store keeps for `fields` inserted under `id` at `created_at`.
    spec fn spec_row(id: String, fields: Self::Fields, created_at: i64) -> Self;

    /// A row carries the identifier it was inserted under.
    proof fn lemma_row_id(id: String, fields: Self::Fields, created_at: i64)
        ensures
            Self::spec_row(id, fields, created_at).spec_id() == id,
    ;
}

/// An entity type whose rows can be changed after creation.
pub trait Updatable: Entity {
    /// What a caller supplies to change an entity.
    type Changes;

    /// Whether `changes` can be applied.
    spec fn spec_admits(changes: &Self::Changes) -> bool;

    fn admits(changes: &Self::Changes) -> (ok: bool)
        ensures
            ok == Self::spec_admits(changes),
    ;

    /// The entity with `changes` applied.
    spec fn spec_apply(self, changes: Self::Changes) -> Self;

    fn apply(self, changes: Self::Changes) -> (changed: Self)
        ensures
            changed == self.spec_apply(changes),
    ;

    /// Changes never touch the identifier.
    proof fn lemma_apply_keeps_id(self, changes: Self::Changes)
        ensures
            self.spec_apply(changes).spec_id() == self.spec_id(),
    ;
}

} // verus!
