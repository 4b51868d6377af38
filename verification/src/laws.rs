//! The laws of cache-aside access, proved over the reference model.

use vstd::prelude::*;
use crate::accessor::create::Create;
use crate::accessor::delete::Delete;
use crate::accessor::get::Get;
use crate::accessor::machine::Machine;
use crate::accessor::request::CacheRead;
use crate::accessor::update::Update;
use crate::entity::{Entity, Updatable};
use crate::error::AccessError;
use crate::model::{run, World};
use crate::utils::{lemma_redis_id_injective, CACHE_TTL_SECONDS};

verus! {

/// Cache keys never collide: two entities share a key only if their types
/// share a route and their identifiers are the same.
pub proof fn lemma_keys_do_not_collide<A: Entity, B: Entity>(id_a: String, id_b: String)
    requires
        World::<A>::key(id_a) == World::<B>::key(id_b),
    ensures
        A::spec_route() == B::spec_route(),
        id_a@ == id_b@,
{
    A::lemma_route_plain();
    B::lemma_route_plain();
    lemma_redis_id_injective(A::spec_route(), id_a@, B::spec_route(), id_b@);
}

/// Every operation comes to an end: driven against any world from its start,
/// it leaves no request pending and has an outcome.
pub proof fn lemma_operations_end<E: Updatable>(
    world: World<E>,
    id: String,
    fields: E::Fields,
    changes: E::Changes,
)
    ensures
        run(Create::<E>::spec_start_with_id(fields, id), world).machine.spec_output() is Some,
        run(Get::<E>::spec_start(id), world).machine.spec_output() is Some,
        run(Update::<E>::spec_start(id, changes), world).machine.spec_output() is Some,
        run::<E, Delete>(Delete::spec_start(id), world).machine.spec_outcome() is Some,
{
    reveal_with_fuel(run, 4);
}

/// When a creation succeeds: with acceptable fields, the store up, the parent
/// present and the identifier free, the outcome is the row that the store
/// made, the store holds it, and the cache (if up) holds a copy.
pub proof fn lemma_create_succeeds<E: Entity>(world: World<E>, fields: E::Fields, id: String)
    requires
        E::spec_accepts(&fields),
        world.store_up,
        world.parent_present(fields),
        !world.rows.contains_key(id@),
    ensures
        ({
            let created = run(Create::<E>::spec_start_with_id(fields, id), world);
            let row = E::spec_row(id, fields, world.stamp());
            &&& created.machine.spec_output() == Some(Ok::<E, AccessError>(row))
            &&& created.world.row(id@) == Some(row)
            &&& world.cache_up ==> created.world.cache_read(World::<E>::key(id)) == CacheRead::Hit(
                row,
            )
        }),
{
    reveal_with_fuel(run, 3);
    E::lemma_row_id(id, fields, world.stamp());
}

/// A created entity is served from the cache: if a creation succeeds, a read
/// of the new entity's identifier less than the time to live later returns
/// exactly the entity that the creation returned, without asking the store.
pub proof fn lemma_get_after_create<E: Entity>(
    world: World<E>,
    fields: E::Fields,
    id: String,
    elapsed: nat,
)
    requires
        world.cache_up,
        elapsed < CACHE_TTL_SECONDS,
    ensures
        ({
            let created = run(Create::<E>::spec_start_with_id(fields, id), world);
            created.machine.spec_output() matches Some(Ok(entity)) ==> {
                let read = run(
                    Get::<E>::spec_start(entity.spec_id()),
                    created.world.later(elapsed),
                );
                &&& read.machine.spec_output() == Some(Ok::<E, AccessError>(entity))
                &&& read.tally.store() == 0
            }
        }),
{
    reveal_with_fuel(run, 4);
}

/// When a change succeeds: with admissible changes, the store up and the row
/// filed under its identifier, the outcome is the row with the changes
/// applied, and the store holds it.
pub proof fn lemma_update_succeeds<E: Updatable>(world: World<E>, id: String, changes: E::Changes)
    requires
        E::spec_admits(&changes),
        world.store_up,
        world.well_formed(),
        world.rows.contains_key(id@),
    ensures
        ({
            let updated = run(Update::<E>::spec_start(id, changes), world);
            let row = world.rows[id@].spec_apply(changes);
            &&& updated.machine.spec_output() == Some(Ok::<E, AccessError>(row))
            &&& updated.world.row(id@) == Some(row)
        }),
{
    reveal_with_fuel(run, 4);
    world.rows[id@].lemma_apply_keeps_id(changes);
}

/// A changed entity is served from the cache: if a change succeeds, a read of
/// the entity's identifier less than the time to live later returns exactly
/// the entity that the change returned, without asking the store.
pub proof fn lemma_get_after_update<E: Updatable>(
    world: World<E>,
    id: String,
    changes: E::Changes,
    elapsed: nat,
)
    requires
        world.cache_up,
        elapsed < CACHE_TTL_SECONDS,
    ensures
        ({
            let updated = run(Update::<E>::spec_start(id, changes), world);
            updated.machine.spec_output() matches Some(Ok(entity)) ==> {
                let read = run(
                    Get::<E>::spec_start(entity.spec_id()),
                    updated.world.later(elapsed),
                );
                &&& read.machine.spec_output() == Some(Ok::<E, AccessError>(entity))
                &&& read.tally.store() == 0
            }
        }),
{
    reveal_with_fuel(run, 4);
}

/// A read falls back to the store and repopulates the cache: with the cache
/// emptied behind the accessor's back, a read still returns the row that the
/// store holds, asking the store once; and a second read less than the time
/// to live later returns the same row without asking the store.
pub proof fn lemma_get_falls_back<E: Entity>(world: World<E>, id: String, elapsed: nat)
    requires
        world.store_up,
        world.cache_up,
        world.rows.contains_key(id@),
        elapsed < CACHE_TTL_SECONDS,
    ensures
        ({
            let first = run(Get::<E>::spec_start(id), world.flushed());
            let second = run(Get::<E>::spec_start(id), first.world.later(elapsed));
            &&& first.machine.spec_output() == Some(Ok::<E, AccessError>(world.rows[id@]))
            &&& first.tally.store_reads == 1
            &&& first.tally.store_writes == 0
            &&& second.machine.spec_output() == Some(Ok::<E, AccessError>(world.rows[id@]))
            &&& second.tally.store() == 0
        }),
{
    reveal_with_fuel(run, 4);
}

/// A read skips what it cannot use: when the cache holds nothing under the
/// key, an expired entry or an entry that does not decode, the outcome of a
/// read is what the store holds under the identifier.
pub proof fn lemma_get_reads_through<E: Entity>(world: World<E>, id: String)
    requires
        world.store_up,
        !(world.cache_read(World::<E>::key(id)) is Hit),
    ensures
        ({
            let read = run(Get::<E>::spec_start(id), world);
            read.machine.spec_output() == Some(
                match world.row(id@) {
                    Some(row) => Ok::<E, AccessError>(row),
                    None => Err(AccessError::NotFound),
                },
            )
        }),
{
    reveal_with_fuel(run, 4);
}

/// A deleted entity is gone: after a deletion with the store and the cache up,
/// the cache has nothing under the entity's key and a read reports that the
/// entity was not found, however much later.
pub proof fn lemma_get_after_delete<E: Entity>(world: World<E>, id: String, elapsed: nat)
    requires
        world.store_up,
        world.cache_up,
    ensures
        ({
            let deleted = run::<E, Delete>(Delete::spec_start(id), world);
            let after = deleted.world.later(elapsed);
            let read = run(Get::<E>::spec_start(id), after);
            &&& deleted.machine.spec_outcome() == Some(Ok::<(), AccessError>(()))
            &&& after.cache_read(World::<E>::key(id)) == CacheRead::<E>::Miss
            &&& after.row(id@) == None::<E>
            &&& read.machine.spec_output() == Some(Err::<E, AccessError>(AccessError::NotFound))
        }),
{
    reveal_with_fuel(run, 4);
}

/// A cached copy lives for the time to live and no longer: after a creation
/// that succeeded, the cache serves the entity for reads less than the time
/// to live later, and misses from then on; a read then asks the store, once,
/// and returns what the store holds.
pub proof fn lemma_cache_entry_expires<E: Entity>(
    world: World<E>,
    fields: E::Fields,
    id: String,
    elapsed: nat,
)
    requires
        world.cache_up,
    ensures
        ({
            let created = run(Create::<E>::spec_start_with_id(fields, id), world);
            created.machine.spec_output() matches Some(Ok(entity)) ==> {
                let after = created.world.later(elapsed);
                let read = run(Get::<E>::spec_start(entity.spec_id()), after);
                let cached = after.cache_read(World::<E>::key(entity.spec_id()));
                &&& elapsed < CACHE_TTL_SECONDS ==> cached == CacheRead::Hit(entity)
                &&& elapsed >= CACHE_TTL_SECONDS ==> cached == CacheRead::<E>::Miss
                &&& elapsed >= CACHE_TTL_SECONDS ==> read.tally.store_reads == 1
                &&& elapsed >= CACHE_TTL_SECONDS ==> read.machine.spec_output() == Some(
                    Ok::<E, AccessError>(entity),
                )
            }
        }),
{
    reveal_with_fuel(run, 4);
    E::lemma_row_id(id, fields, world.stamp());
}

/// A dangling parent is refused and leaves no trace: a creation whose fields
/// are acceptable but name a parent that the store does not have fails with a
/// broken reference, writes nothing to the cache and changes neither the
/// store nor the cache.
pub proof fn lemma_broken_reference<E: Entity>(world: World<E>, fields: E::Fields, id: String)
    requires
        E::spec_accepts(&fields),
        world.store_up,
        !world.parent_present(fields),
    ensures
        ({
            let created = run(Create::<E>::spec_start_with_id(fields, id), world);
            &&& created.machine.spec_output() == Some(
                Err::<E, AccessError>(AccessError::BrokenReference),
            )
            &&& created.tally.cache_writes == 0
            &&& created.world == world
        }),
{
    reveal_with_fuel(run, 3);
}

/// Unacceptable input is refused before anything is asked of the store or
/// the cache.
pub proof fn lemma_invalid_input<E: Updatable>(
    world: World<E>,
    id: String,
    fields: E::Fields,
    changes: E::Changes,
)
    ensures
        !E::spec_accepts(&fields) ==> run(
            Create::<E>::spec_start_with_id(fields, id),
            world,
        ) == (crate::model::Run {
            machine: Create::<E>::Done(Err(AccessError::ValidationError)),
            world,
            tally: crate::model::Tally::none(),
        }),
        !E::spec_admits(&changes) ==> run(Update::<E>::spec_start(id, changes), world) == (
        crate::model::Run {
            machine: Update::<E>::Done(Err(AccessError::ValidationError)),
            world,
            tally: crate::model::Tally::none(),
        }),
{
    reveal_with_fuel(run, 2);
}

/// What a mutation costs: a creation, change or deletion that succeeds writes
/// to the store exactly once and to the cache at most once; one that fails
/// writes to the store at most once and leaves the cache as it was.
pub proof fn lemma_mutation_effects<E: Updatable>(
    world: World<E>,
    id: String,
    fields: E::Fields,
    changes: E::Changes,
)
    ensures
        ({
            let created = run(Create::<E>::spec_start_with_id(fields, id), world);
            let updated = run(Update::<E>::spec_start(id, changes), world);
            let deleted = run::<E, Delete>(Delete::spec_start(id), world);
            &&& created.machine.spec_output() matches Some(Ok(_)) ==> created.tally.store_writes
                == 1 && created.tally.cache_writes == 1
            &&& created.machine.spec_output() matches Some(Err(_)) ==> created.tally.store_writes
                <= 1 && created.tally.cache_writes == 0 && created.world.cache == world.cache
            &&& updated.machine.spec_output() matches Some(Ok(_)) ==> updated.tally.store_writes
                == 1 && updated.tally.cache_writes == 1
            &&& updated.machine.spec_output() matches Some(Err(_)) ==> updated.tally.store_writes
                <= 1 && updated.tally.cache_writes == 0 && updated.world.cache == world.cache
                && updated.world.rows == world.rows
            &&& deleted.machine.spec_outcome() matches Some(Ok(_)) ==> deleted.tally.store_writes
                == 1 && deleted.tally.cache_writes == 1
            &&& deleted.machine.spec_outcome() matches Some(Err(_)) ==> deleted.tally.store_writes
                <= 1 && deleted.tally.cache_writes == 0 && deleted.world == world
        }),
{
    reveal_with_fuel(run, 4);
}

/// A read changes nothing in the store and writes to the cache at most once.
pub proof fn lemma_get_is_a_read<E: Entity>(world: World<E>, id: String)
    ensures
        ({
            let read = run(Get::<E>::spec_start(id), world);
            &&& read.tally.store_writes == 0
            &&& read.tally.store_reads <= 1
            &&& read.tally.cache_reads == 1
            &&& read.tally.cache_writes <= 1
            &&& read.world.rows == world.rows
        }),
{
    reveal_with_fuel(run, 4);
}

/// No operation leaves a cache entry that outlives the time to live: if no
/// entry does before an operation, none does after it.
pub proof fn lemma_entries_stay_bounded<E: Updatable>(
    world: World<E>,
    id: String,
    fields: E::Fields,
    changes: E::Changes,
)
    requires
        world.bounded(),
    ensures
        run(Create::<E>::spec_start_with_id(fields, id), world).world.bounded(),
        run(Get::<E>::spec_start(id), world).world.bounded(),
        run(Update::<E>::spec_start(id, changes), world).world.bounded(),
        run::<E, Delete>(Delete::spec_start(id), world).world.bounded(),
{
    reveal_with_fuel(run, 4);
}

/// Staleness is bounded by the time to live: whatever the cache holds, be it
/// a copy that a failed cache write left behind or one that a write elsewhere
/// has overtaken, a read one time to live later returns what the store holds.
pub proof fn lemma_staleness_is_bounded<E: Entity>(world: World<E>, id: String, elapsed: nat)
    requires
        world.store_up,
        world.bounded(),
        elapsed >= CACHE_TTL_SECONDS,
    ensures
        ({
            let read = run(Get::<E>::spec_start(id), world.later(elapsed));
            read.machine.spec_output() == Some(
                match world.row(id@) {
                    Some(row) => Ok::<E, AccessError>(row),
                    None => Err(AccessError::NotFound),
                },
            )
        }),
{
    reveal_with_fuel(run, 4);
}

/// The cache never fails a caller: with the cache out of reach, every
/// operation has the outcome it has with an empty cache, and a read returns
/// what the store holds.
pub proof fn lemma_cache_outage<E: Updatable>(
    world: World<E>,
    id: String,
    fields: E::Fields,
    changes: E::Changes,
)
    requires
        world.store_up,
    ensures
        ({
            let down = world.cache_down();
            let empty = world.flushed();
            &&& run(Create::<E>::spec_start_with_id(fields, id), down).machine.spec_output()
                == run(Create::<E>::spec_start_with_id(fields, id), empty).machine.spec_output()
            &&& run(Update::<E>::spec_start(id, changes), down).machine.spec_output() == run(
                Update::<E>::spec_start(id, changes),
                empty,
            ).machine.spec_output()
            &&& run::<E, Delete>(Delete::spec_start(id), down).machine.spec_outcome() == run::<
                E,
                Delete,
            >(Delete::spec_start(id), empty).machine.spec_outcome()
            &&& run(Get::<E>::spec_start(id), down).machine.spec_output() == Some(
                match world.row(id@) {
                    Some(row) => Ok::<E, AccessError>(row),
                    None => Err(AccessError::NotFound),
                },
            )
        }),
{
    reveal_with_fuel(run, 4);
}

/// A store that is out of reach fails every operation that needs it with a
/// store error, and the cache stays as it was.  A read that the cache can
/// serve does not need the store.
pub proof fn lemma_store_outage<E: Updatable>(
    world: World<E>,
    id: String,
    fields: E::Fields,
    changes: E::Changes,
)
    requires
        !world.store_up,
    ensures
        ({
            let created = run(Create::<E>::spec_start_with_id(fields, id), world);
            let updated = run(Update::<E>::spec_start(id, changes), world);
            let deleted = run::<E, Delete>(Delete::spec_start(id), world);
            let read = run(Get::<E>::spec_start(id), world);
            &&& E::spec_accepts(&fields) ==> created.machine.spec_output() == Some(
                Err::<E, AccessError>(AccessError::StoreError),
            )
            &&& E::spec_admits(&changes) ==> updated.machine.spec_output() == Some(
                Err::<E, AccessError>(AccessError::StoreError),
            )
            &&& deleted.machine.spec_outcome() == Some(
                Err::<(), AccessError>(AccessError::StoreError),
            )
            &&& read.machine.spec_output() == Some(
                match world.cache_read(World::<E>::key(id)) {
                    CacheRead::Hit(entity) => Ok::<E, AccessError>(entity),
                    _ => Err(AccessError::StoreError),
                },
            )
            &&& created.world == world
            &&& updated.world == world
            &&& deleted.world == world
            &&& read.world == world
        }),
{
    reveal_with_fuel(run, 4);
}

} // verus!
