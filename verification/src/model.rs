//! A reference model of the store and the cache, and what an operation comes
//! to when it is driven against them.
//!
//! The model is ghost: it states what the collaborators are expected to do, so
//! that the laws of cache-aside access can be stated and proved.

use vstd::prelude::*;
use crate::accessor::machine::Machine;
use crate::accessor::request::{CacheRead, Reply, Request};
use crate::entity::Entity;
use crate::error::StoreFailure;
use crate::utils::{redis_id, CACHE_TTL_SECONDS};

verus! {

/// What the cache holds under one key.
pub struct CacheEntry<E> {
    /// The entity that the entry decodes to, if it decodes.
    pub content: Option<E>,
    /// The second from which on the entry counts as absent.
    pub expires_at: nat,
}

/// A store, a cache and a clock.
pub struct World<E> {
    /// The rows of the entity type's table, by identifier.
    pub rows: Map<Seq<char>, E>,
    /// The identifiers of the rows that may serve as parents.
    pub parents: Set<Seq<char>>,
    /// Whether the store answers at all.
    pub store_up: bool,
    /// The cache entries, by key.
    pub cache: Map<Seq<char>, CacheEntry<E>>,
    /// Whether the cache answers at all.
    pub cache_up: bool,
    /// The time, in seconds.
    pub now: nat,
}

/// How many requests of each sort were made.
pub struct Tally {
    pub store_reads: nat,
    pub store_writes: nat,
    pub cache_reads: nat,
    pub cache_writes: nat,
}

/// Where an operation and the world end up.
pub struct Run<M, E> {
    pub machine: M,
    pub world: World<E>,
    pub tally: Tally,
}

impl Tally {
    pub open spec fn none() -> Tally {
        Tally { store_reads: 0, store_writes: 0, cache_reads: 0, cache_writes: 0 }
    }

    /// The tally with `request` counted in.
    pub open spec fn with<E: Entity>(self, request: Request<'_, E>) -> Tally {
        match request {
            Request::CacheGet { .. } => Tally { cache_reads: self.cache_reads + 1, ..self },
            Request::CacheSet { .. } => Tally { cache_writes: self.cache_writes + 1, ..self },
            Request::CacheDelete { .. } => Tally { cache_writes: self.cache_writes + 1, ..self },
            Request::StoreInsert { .. } => Tally { store_writes: self.store_writes + 1, ..self },
            Request::StoreFindById { .. } => Tally { store_reads: self.store_reads + 1, ..self },
            Request::StoreUpdate { .. } => Tally { store_writes: self.store_writes + 1, ..self },
            Request::StoreDeleteById { .. } => Tally {
                store_writes: self.store_writes + 1,
                ..self
            },
        }
    }

    /// The number of requests that went to the store.
    pub open spec fn store(self) -> nat {
        self.store_reads + self.store_writes
    }
}

impl<E: Entity> World<E> {
    /// The cache key of the entity `id`.
    pub open spec fn key(id: String) -> Seq<char> {
        redis_id(E::spec_route(), id@)
    }

    /// Every row is filed under its own identifier.
    pub open spec fn well_formed(self) -> bool {
        forall|id: Seq<char>| #[trigger]
            self.rows.contains_key(id) ==> self.rows[id].spec_id()@ == id
    }

    /// No cache entry outlives the time to live, counted from now.
    pub open spec fn bounded(self) -> bool {
        forall|key: Seq<char>| #[trigger]
            self.cache.contains_key(key) ==> self.cache[key].expires_at <= self.now
                + CACHE_TTL_SECONDS
    }

    /// The creation time that the store gives to a row inserted now.
    pub open spec fn stamp(self) -> i64 {
        (self.now * 1_000_000) as i64
    }

    /// The same world, `seconds` later.
    pub open spec fn later(self, seconds: nat) -> Self {
        World { now: self.now + seconds, ..self }
    }

    /// The same world with an empty cache.
    pub open spec fn flushed(self) -> Self {
        World { cache: Map::empty(), ..self }
    }

    /// The same world with the cache out of reach.
    pub open spec fn cache_down(self) -> Self {
        World { cache_up: false, ..self }
    }

    /// What a read of `key` finds: an entry that has not expired, decoded.
    pub open spec fn cache_read(self, key: Seq<char>) -> CacheRead<E> {
        if self.cache_up && self.cache.contains_key(key) && self.now < self.cache[key].expires_at {
            match self.cache[key].content {
                Some(entity) => CacheRead::Hit(entity),
                None => CacheRead::Corrupt,
            }
        } else {
            CacheRead::Miss
        }
    }

    /// What the store has under `id`.
    pub open spec fn row(self, id: Seq<char>) -> Option<E> {
        if self.rows.contains_key(id) {
            Some(self.rows[id])
        } else {
            None
        }
    }

    /// Whether an insert of `fields` finds its parent.
    pub open spec fn parent_present(self, fields: E::Fields) -> bool {
        match E::spec_parent(&fields) {
            Some(parent) => self.parents.contains(parent@),
            None => true,
        }
    }

    /// The reply to `request`, and the world after it.
    ///
    /// A cache that is down misses every read and carries out no write.  A
    /// store that is down fails every request.  Otherwise the cache keeps what
    /// is written for as long as the options say, and the store inserts a row
    /// if its parent is there and its identifier is free, overwrites a row if
    /// it is there, and deletes whether or not there is anything to delete.
    pub open spec fn answer(self, request: Request<'_, E>) -> (Reply<E>, Self) {
        match request {
            Request::CacheGet { id } => (Reply::Cached(self.cache_read(Self::key(*id))), self),
            Request::CacheSet { id, value, options } => if self.cache_up {
                let entry = CacheEntry {
                    content: Some(*value),
                    expires_at: self.now + options.expire_after_seconds as nat,
                };
                (
                    Reply::CacheDone(true),
                    World { cache: self.cache.insert(Self::key(*id), entry), ..self },
                )
            } else {
                (Reply::CacheDone(false), self)
            },
            Request::CacheDelete { id } => if self.cache_up {
                (
                    Reply::CacheDone(true),
                    World { cache: self.cache.remove(Self::key(*id)), ..self },
                )
            } else {
                (Reply::CacheDone(false), self)
            },
            Request::StoreInsert { id, fields } => if !self.store_up {
                (Reply::Inserted(Err(StoreFailure::Other)), self)
            } else if !self.parent_present(*fields) {
                (Reply::Inserted(Err(StoreFailure::BrokenReference)), self)
            } else if self.rows.contains_key(id@) {
                (Reply::Inserted(Err(StoreFailure::Other)), self)
            } else {
                let row = E::spec_row(*id, *fields, self.stamp());
                (Reply::Inserted(Ok(row)), World { rows: self.rows.insert(id@, row), ..self })
            },
            Request::StoreFindById { id } => if self.store_up {
                (Reply::Found(Ok(self.row(id@))), self)
            } else {
                (Reply::Found(Err(StoreFailure::Other)), self)
            },
            Request::StoreUpdate { entity } => if self.store_up && self.rows.contains_key(
                entity.spec_id()@,
            ) {
                (
                    Reply::Updated(Ok(*entity)),
                    World { rows: self.rows.insert(entity.spec_id()@, *entity), ..self },
                )
            } else {
                (Reply::Updated(Err(StoreFailure::Other)), self)
            },
            Request::StoreDeleteById { id } => if self.store_up {
                (Reply::Deleted(Ok(())), World { rows: self.rows.remove(id@), ..self })
            } else {
                (Reply::Deleted(Err(StoreFailure::Other)), self)
            },
        }
    }
}

/// Drives `machine` against `world` until no request is pending: each request
/// is answered by the world, and the reply moves the machine on.
pub open spec fn run<E: Entity, M: Machine<E>>(machine: M, world: World<E>) -> Run<M, E>
    decreases machine.spec_remaining(),
{
    match machine.spec_request() {
        None => Run { machine, world, tally: Tally::none() },
        Some(request) => {
            let (reply, after) = world.answer(request);
            let next = machine.spec_step(reply);
            if next.spec_remaining() < machine.spec_remaining() {
                let rest = run(next, after);
                Run { machine: rest.machine, world: rest.world, tally: rest.tally.with(request) }
            } else {
                Run { machine, world, tally: Tally::none() }
            }
        },
    }
}

} // verus!
