//! Reading an entity: from the cache if it is there, else from the store,
//! leaving a copy in the cache.

use vstd::prelude::*;
use crate::accessor::machine::Machine;
use crate::accessor::request::{CacheRead, Reply, Request};
use crate::entity::Entity;
use crate::error::AccessError;
use crate::utils::{get_redis_set_options, SetOptions, CACHE_TTL_SECONDS};

verus! {

/// The reading of one entity.
pub enum Get<E: Entity> {
    /// The cache has to be asked.
    Lookup { id: String },
    /// The cache had no usable copy; the store has to be asked.
    Fetch { id: String },
    /// The store had the row; the cache has to be populated.
    Populate { id: String, entity: E },
    /// Over.
    Done(Result<E, AccessError>),
}

impl<E: Entity> Get<E> {
    /// The reading of the entity `id`, before anything has been asked.
    pub open spec fn spec_start(id: String) -> Self {
        Get::Lookup { id }
    }

    /// Starts the reading of the entity `id`.
    pub fn start(id: String) -> (get: Self)
        ensures
            get == Self::spec_start(id),
    {
        Get::Lookup { id }
    }
}

impl<E: Entity> Machine<E> for Get<E> {
    type Output = Result<E, AccessError>;

    open spec fn spec_request(&self) -> Option<Request<'_, E>> {
        match self {
            Get::Lookup { id } => Some(Request::CacheGet { id }),
            Get::Fetch { id } => Some(Request::StoreFindById { id }),
            Get::Populate { id, entity } => Some(
                Request::CacheSet {
                    id,
                    value: entity,
                    options: SetOptions { expire_after_seconds: CACHE_TTL_SECONDS },
                },
            ),
            Get::Done(_) => None,
        }
    }

    open spec fn spec_step(self, reply: Reply<E>) -> Self {
        match (self, reply) {
            (Get::Lookup { .. }, Reply::Cached(CacheRead::Hit(entity))) => Get::Done(Ok(entity)),
            (Get::Lookup { id }, Reply::Cached(_)) => Get::Fetch { id },
            (Get::Fetch { id }, Reply::Found(Ok(Some(entity)))) => Get::Populate { id, entity },
            (Get::Fetch { .. }, Reply::Found(Ok(None))) => Get::Done(Err(AccessError::NotFound)),
            (Get::Fetch { .. }, Reply::Found(Err(_))) => Get::Done(Err(AccessError::StoreError)),
            (Get::Populate { entity, .. }, Reply::CacheDone(_)) => Get::Done(Ok(entity)),
            (get, _) => get,
        }
    }

    open spec fn spec_output(self) -> Option<Result<E, AccessError>> {
        match self {
            Get::Done(outcome) => Some(outcome),
            _ => None,
        }
    }

    open spec fn spec_remaining(&self) -> nat {
        match self {
            Get::Lookup { .. } => 3,
            Get::Fetch { .. } => 2,
            Get::Populate { .. } => 1,
            Get::Done(_) => 0,
        }
    }

    fn request(&self) -> (request: Option<Request<'_, E>>) {
        match self {
            Get::Lookup { id } => Some(Request::CacheGet { id }),
            Get::Fetch { id } => Some(Request::StoreFindById { id }),
            Get::Populate { id, entity } => Some(
                Request::CacheSet { id, value: entity, options: get_redis_set_options() },
            ),
            Get::Done(_) => None,
        }
    }

    fn step(self, reply: Reply<E>) -> (next: Self) {
        match self {
            Get::Lookup { id } => match reply {
                Reply::Cached(CacheRead::Hit(entity)) => Get::Done(Ok(entity)),
                Reply::Cached(_) => Get::Fetch { id },
                _ => Get::Lookup { id },
            },
            Get::Fetch { id } => match reply {
                Reply::Found(Ok(Some(entity))) => Get::Populate { id, entity },
                Reply::Found(Ok(None)) => Get::Done(Err(AccessError::NotFound)),
                Reply::Found(Err(_)) => Get::Done(Err(AccessError::StoreError)),
                _ => Get::Fetch { id },
            },
            Get::Populate { id, entity } => match reply {
                Reply::CacheDone(_) => Get::Done(Ok(entity)),
                _ => Get::Populate { id, entity },
            },
            Get::Done(outcome) => Get::Done(outcome),
        }
    }

    fn finish(self) -> (output: Option<Result<E, AccessError>>) {
        match self {
            Get::Done(outcome) => Some(outcome),
            _ => None,
        }
    }

    proof fn lemma_over(self) {
    }

    proof fn lemma_step_remaining(self, reply: Reply<E>) {
    }
}

} // verus!
