//! The conversation between an operation and whoever drives it: requests to
//! the store and the cache, and their replies.

use vstd::prelude::*;
use crate::entity::Entity;
use crate::error::StoreFailure;
use crate::utils::{get_redis_id, redis_id, SetOptions};

verus! {

/// What the cache held under a key.
pub enum CacheRead<E> {
    /// A copy of the entity.
    Hit(E),
    /// Nothing, or nothing that has not expired.
    Miss,
    /// Something that does not decode to an entity.
    Corrupt,
}

/// What an operation asks its driver to do next.
pub enum Request<'a, E: Entity> {
    /// Read the cache entry of `id`.
    CacheGet { id: &'a String },
    /// Write `value` as the cache entry of `id`.
    CacheSet { id: &'a String, value: &'a E, options: SetOptions },
    /// Drop the cache entry of `id`.
    CacheDelete { id: &'a String },
    /// Insert a row made of `fields` under `id`.
    StoreInsert { id: &'a String, fields: &'a E::Fields },
    /// Read the row `id`.
    StoreFindById { id: &'a String },
    /// Overwrite the row that has the identifier of `entity`.
    StoreUpdate { entity: &'a E },
    /// Delete the row `id`.
    StoreDeleteById { id: &'a String },
}

/// What came of a request.
pub enum Reply<E> {
    /// To `CacheGet`.
    Cached(CacheRead<E>),
    /// To `CacheSet` and `CacheDelete`: whether the cache carried it out.
    CacheDone(bool),
    /// To `StoreInsert`: the row as stored.
    Inserted(Result<E, StoreFailure>),
    /// To `StoreFindById`: the row, if there is one.
    Found(Result<Option<E>, StoreFailure>),
    /// To `StoreUpdate`: the row as stored.
    Updated(Result<E, StoreFailure>),
    /// To `StoreDeleteById`.
    Deleted(Result<(), StoreFailure>),
}

impl<'a, E: Entity> Request<'a, E> {
    /// Whether the request goes to the store.
    pub open spec fn spec_is_store(&self) -> bool {
        self is StoreInsert || self is StoreFindById || self is StoreUpdate
            || self is StoreDeleteById
    }

    /// The cache key that the request addresses, if it goes to the cache.
    pub open spec fn spec_key(&self) -> Option<Seq<char>> {
        match self {
            Request::CacheGet { id } => Some(redis_id(E::spec_route(), id@)),
            Request::CacheSet { id, .. } => Some(redis_id(E::spec_route(), id@)),
            Request::CacheDelete { id } => Some(redis_id(E::spec_route(), id@)),
            _ => None,
        }
    }

    pub fn is_store(&self) -> (yes: bool)
        ensures
            yes == self.spec_is_store(),
    {
        match self {
            Request::StoreInsert { .. } => true,
            Request::StoreFindById { .. } => true,
            Request::StoreUpdate { .. } => true,
            Request::StoreDeleteById { .. } => true,
            _ => false,
        }
    }

    /// The cache key that the request addresses: the entity type's route and
    /// the identifier, joined as a cache key.  `None` for a store request.
    pub fn key(&self) -> (key: Option<String>)
        ensures
            key is Some == self.spec_key() is Some,
            key matches Some(k) ==> Some(k@) == self.spec_key(),
    {
        match self {
            Request::CacheGet { id } => Some(get_redis_id(E::route(), id)),
            Request::CacheSet { id, .. } => Some(get_redis_id(E::route(), id)),
            Request::CacheDelete { id } => Some(get_redis_id(E::route(), id)),
            _ => None,
        }
    }
}

} // verus!
