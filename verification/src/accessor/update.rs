//! Changing an entity: read the row from the store, apply the changes, write
//! the row back, then overwrite the cached copy.

use vstd::prelude::*;
use crate::accessor::machine::Machine;
use crate::accessor::request::{Reply, Request};
use crate::entity::{Entity, Updatable};
use crate::error::AccessError;
use crate::utils::{get_redis_set_options, SetOptions, CACHE_TTL_SECONDS};

verus! {

/// The change of one entity.
pub enum Update<E: Updatable> {
    /// The row has to be read; the cache is not trusted here.
    Find { id: String, changes: E::Changes },
    /// The changed row has to be written to the store.
    Persist { entity: E },
    /// The store holds the changed row; the cached copy has to be overwritten.
    Populate { entity: E },
    /// Over.
    Done(Result<E, AccessError>),
}

impl<E: Updatable> Update<E> {
    /// The change of the entity `id` by `changes`, once it is known whether
    /// the changes are admissible: the row has to be read if they are, and the
    /// change is over if they are not.
    pub open spec fn spec_begin(admitted: bool, id: String, changes: E::Changes) -> Self {
        if admitted {
            Update::Find { id, changes }
        } else {
            Update::Done(Err(AccessError::ValidationError))
        }
    }

    /// The change of the entity `id` by `changes`: rejected at once if the
    /// changes cannot be applied.
    pub open spec fn spec_start(id: String, changes: E::Changes) -> Self {
        Self::spec_begin(E::spec_admits(&changes), id, changes)
    }

    /// Begins the change of an entity by changes that were found admissible,
    /// or not.
    pub fn begin(admitted: bool, id: String, changes: E::Changes) -> (update: Self)
        ensures
            update == Self::spec_begin(admitted, id, changes),
    {
        if admitted {
            Update::Find { id, changes }
        } else {
            Update::Done(Err(AccessError::ValidationError))
        }
    }

    /// Starts the change of the entity `id` by `changes`.
    pub fn start(id: String, changes: E::Changes) -> (update: Self)
        ensures
            update == Self::spec_start(id, changes),
    {
        let admitted = E::admits(&changes);
        Self::begin(admitted, id, changes)
    }
}

impl<E: Updatable> Machine<E> for Update<E> {
    type Output = Result<E, AccessError>;

    open spec fn spec_request(&self) -> Option<Request<'_, E>> {
        match self {
            Update::Find { id, .. } => Some(Request::StoreFindById { id }),
            Update::Persist { entity } => Some(Request::StoreUpdate { entity }),
            Update::Populate { entity } => Some(
                Request::CacheSet {
                    id: &entity.spec_id(),
                    value: entity,
                    options: SetOptions { expire_after_seconds: CACHE_TTL_SECONDS },
                },
            ),
            Update::Done(_) => None,
        }
    }

    open spec fn spec_step(self, reply: Reply<E>) -> Self {
        match (self, reply) {
            (Update::Find { changes, .. }, Reply::Found(Ok(Some(entity)))) => Update::Persist {
                entity: entity.spec_apply(changes),
            },
            (Update::Find { .. }, Reply::Found(Ok(None))) => Update::Done(
                Err(AccessError::NotFound),
            ),
            (Update::Find { .. }, Reply::Found(Err(_))) => Update::Done(
                Err(AccessError::StoreError),
            ),
            (Update::Persist { .. }, Reply::Updated(Ok(entity))) => Update::Populate { entity },
            (Update::Persist { .. }, Reply::Updated(Err(_))) => Update::Done(
                Err(AccessError::StoreError),
            ),
            (Update::Populate { entity }, Reply::CacheDone(_)) => Update::Done(Ok(entity)),
            (update, _) => update,
        }
    }

    open spec fn spec_output(self) -> Option<Result<E, AccessError>> {
        match self {
            Update::Done(outcome) => Some(outcome),
            _ => None,
        }
    }

    open spec fn spec_remaining(&self) -> nat {
        match self {
            Update::Find { .. } => 3,
            Update::Persist { .. } => 2,
            Update::Populate { .. } => 1,
            Update::Done(_) => 0,
        }
    }

    fn request(&self) -> (request: Option<Request<'_, E>>) {
        match self {
            Update::Find { id, .. } => Some(Request::StoreFindById { id }),
            Update::Persist { entity } => Some(Request::StoreUpdate { entity }),
            Update::Populate { entity } => Some(
                Request::CacheSet { id: entity.id(), value: entity, options: get_redis_set_options() },
            ),
            Update::Done(_) => None,
        }
    }

    fn step(self, reply: Reply<E>) -> (next: Self) {
        match self {
            Update::Find { id, changes } => match reply {
                Reply::Found(Ok(Some(entity))) => Update::Persist { entity: entity.apply(changes) },
                Reply::Found(Ok(None)) => Update::Done(Err(AccessError::NotFound)),
                Reply::Found(Err(_)) => Update::Done(Err(AccessError::StoreError)),
                _ => Update::Find { id, changes },
            },
            Update::Persist { entity } => match reply {
                Reply::Updated(Ok(stored)) => Update::Populate { entity: stored },
                Reply::Updated(Err(_)) => Update::Done(Err(AccessError::StoreError)),
                _ => Update::Persist { entity },
            },
            Update::Populate { entity } => match reply {
                Reply::CacheDone(_) => Update::Done(Ok(entity)),
                _ => Update::Populate { entity },
            },
            Update::Done(outcome) => Update::Done(outcome),
        }
    }

    fn finish(self) -> (output: Option<Result<E, AccessError>>) {
        match self {
            Update::Done(outcome) => Some(outcome),
            _ => None,
        }
    }

    proof fn lemma_over(self) {
    }

    proof fn lemma_step_remaining(self, reply: Reply<E>) {
    }
}

} // verus!
