//! Creating an entity: insert into the store, then populate the cache.

use vstd::prelude::*;
use crate::accessor::machine::Machine;
use crate::accessor::request::{Reply, Request};
use crate::entity::Entity;
use crate::error::{insert_error, spec_insert_error, AccessError};
use crate::ident::{random_id, well_formed_id};
use crate::utils::{get_redis_set_options, SetOptions, CACHE_TTL_SECONDS};

verus! {

/// The creation of one entity.
pub enum Create<E: Entity> {
    /// The row has to be inserted.
    Insert { id: String, fields: E::Fields },
    /// The store holds the row; the cache has to be populated.
    Populate { entity: E },
    /// Over.
    Done(Result<E, AccessError>),
}

impl<E: Entity> Create<E> {
    /// The creation of an entity from `fields` under the identifier `id`,
    /// once it is known whether the fields are acceptable: the row has to be
    /// inserted if they are, and the creation is over if they are not.
    pub open spec fn spec_begin(accepted: bool, fields: E::Fields, id: String) -> Self {
        if accepted {
            Create::Insert { id, fields }
        } else {
            Create::Done(Err(AccessError::ValidationError))
        }
    }

    /// The creation of an entity from `fields` under the identifier `id`:
    /// rejected at once if the fields are not acceptable.
    pub open spec fn spec_start_with_id(fields: E::Fields, id: String) -> Self {
        Self::spec_begin(E::spec_accepts(&fields), fields, id)
    }

    /// Begins the creation of an entity from fields that were found
    /// acceptable, or not.
    pub fn begin(accepted: bool, fields: E::Fields, id: String) -> (create: Self)
        ensures
            create == Self::spec_begin(accepted, fields, id),
    {
        if accepted {
            Create::Insert { id, fields }
        } else {
            Create::Done(Err(AccessError::ValidationError))
        }
    }

    /// Starts the creation of an entity from `fields` under the identifier `id`.
    pub fn start_with_id(fields: E::Fields, id: String) -> (create: Self)
        ensures
            create == Self::spec_start_with_id(fields, id),
    {
        let accepted = E::accepts(&fields);
        Self::begin(accepted, fields, id)
    }

    /// Starts the creation of an entity from `fields` under a fresh identifier.
    ///
    /// Unacceptable fields are rejected without drawing an identifier.
    /// Otherwise the row is to be inserted under some well-formed identifier
    /// of the entity type's length.
    pub fn start(fields: E::Fields) -> (create: Self)
        ensures
            !E::spec_accepts(&fields) ==> create == Create::<E>::Done(
                Err(AccessError::ValidationError),
            ),
            E::spec_accepts(&fields) ==> exists|id: String|
                well_formed_id(id@, E::spec_id_length() as nat) && create
                    == #[trigger] Self::spec_start_with_id(fields, id),
    {
        if E::accepts(&fields) {
            let id = random_id(E::id_length());
            let create = Self::begin(true, fields, id);
            assert(create == Self::spec_start_with_id(fields, id));
            create
        } else {
            Create::Done(Err(AccessError::ValidationError))
        }
    }
}

impl<E: Entity> Machine<E> for Create<E> {
    type Output = Result<E, AccessError>;

    open spec fn spec_request(&self) -> Option<Request<'_, E>> {
        match self {
            Create::Insert { id, fields } => Some(Request::StoreInsert { id, fields }),
            Create::Populate { entity } => Some(
                Request::CacheSet {
                    id: &entity.spec_id(),
                    value: entity,
                    options: SetOptions { expire_after_seconds: CACHE_TTL_SECONDS },
                },
            ),
            Create::Done(_) => None,
        }
    }

    open spec fn spec_step(self, reply: Reply<E>) -> Self {
        match (self, reply) {
            (Create::Insert { .. }, Reply::Inserted(Ok(entity))) => Create::Populate { entity },
            (Create::Insert { .. }, Reply::Inserted(Err(failure))) => Create::Done(
                Err(spec_insert_error(failure)),
            ),
            (Create::Populate { entity }, Reply::CacheDone(_)) => Create::Done(Ok(entity)),
            (create, _) => create,
        }
    }

    open spec fn spec_output(self) -> Option<Result<E, AccessError>> {
        match self {
            Create::Done(outcome) => Some(outcome),
            _ => None,
        }
    }

    open spec fn spec_remaining(&self) -> nat {
        match self {
            Create::Insert { .. } => 2,
            Create::Populate { .. } => 1,
            Create::Done(_) => 0,
        }
    }

    fn request(&self) -> (request: Option<Request<'_, E>>) {
        match self {
            Create::Insert { id, fields } => Some(Request::StoreInsert { id, fields }),
            Create::Populate { entity } => Some(
                Request::CacheSet { id: entity.id(), value: entity, options: get_redis_set_options() },
            ),
            Create::Done(_) => None,
        }
    }

    fn step(self, reply: Reply<E>) -> (next: Self) {
        match self {
            Create::Insert { id, fields } => match reply {
                Reply::Inserted(Ok(entity)) => Create::Populate { entity },
                Reply::Inserted(Err(failure)) => Create::Done(Err(insert_error(failure))),
                _ => Create::Insert { id, fields },
            },
            Create::Populate { entity } => match reply {
                Reply::CacheDone(_) => Create::Done(Ok(entity)),
                _ => Create::Populate { entity },
            },
            Create::Done(outcome) => Create::Done(outcome),
        }
    }

    fn finish(self) -> (output: Option<Result<E, AccessError>>) {
        match self {
            Create::Done(outcome) => Some(outcome),
            _ => None,
        }
    }

    proof fn lemma_over(self) {
    }

    proof fn lemma_step_remaining(self, reply: Reply<E>) {
    }
}

} // verus!
