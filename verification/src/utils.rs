//! Cache keys and cache write options.

use vstd::prelude::*;
use vstd::string::StringExecFns;

verus! {

/// Seconds a cached copy may be served before the cache forgets it.
pub const CACHE_TTL_SECONDS: u64 = 30;

/// The character that separates the route from the id in a cache key.
pub open spec fn key_separator() -> char {
    '_'
}

/// The cache key of the entity `id` under `route`: the route, a separator, the id.
pub open spec fn redis_id(route: Seq<char>, id: Seq<char>) -> Seq<char> {
    route + seq![key_separator()] + id
}

/// A route is plain when the separator does not occur in it.
pub open spec fn plain_route(route: Seq<char>) -> bool {
    forall|i: int| 0 <= i < route.len() ==> route[i] != key_separator()
}

/// Builds the cache key of the entity `id` under `route`.
pub fn get_redis_id(route: &str, id: &String) -> (key: String)
    ensures
        key@ == redis_id(route@, id@),
{
    let mut key = String::from_str(route);
    key.append("_");
    key.append(id.as_str());
    proof {
        reveal_strlit("_");
        assert("_"@ =~= seq![key_separator()]);
    }
    key
}

/// Distinct entities never share a cache key: with plain routes, equal keys
/// mean equal routes and equal ids.
pub proof fn lemma_redis_id_injective(
    route_a: Seq<char>,
    id_a: Seq<char>,
    route_b: Seq<char>,
    id_b: Seq<char>,
)
    requires
        plain_route(route_a),
        plain_route(route_b),
        redis_id(route_a, id_a) == redis_id(route_b, id_b),
    ensures
        route_a == route_b,
        id_a == id_b,
{
    let key_a = redis_id(route_a, id_a);
    let key_b = redis_id(route_b, id_b);
    assert(key_a[route_a.len() as int] == key_separator());
    assert(key_b[route_b.len() as int] == key_separator());
    if route_a.len() < route_b.len() {
        assert(key_b[route_a.len() as int] == route_b[route_a.len() as int]);
    }
    if route_b.len() < route_a.len() {
        assert(key_a[route_b.len() as int] == route_a[route_b.len() as int]);
    }
    assert(route_a.len() == route_b.len());
    assert(route_a =~= route_b) by {
        assert forall|i: int| 0 <= i < route_a.len() implies route_a[i] == route_b[i] by {
            assert(key_a[i] == route_a[i]);
            assert(key_b[i] == route_b[i]);
        }
    }
    assert(key_a.len() == route_a.len() + 1 + id_a.len());
    assert(key_b.len() == route_b.len() + 1 + id_b.len());
    assert(id_a =~= id_b) by {
        assert forall|i: int| 0 <= i < id_a.len() implies id_a[i] == id_b[i] by {
            assert(key_a[route_a.len() + 1 + i] == id_a[i]);
            assert(key_b[route_b.len() + 1 + i] == id_b[i]);
        }
    }
}

/// Options of a cache write.
#[derive(Clone, Copy, Debug, PartialEq, Eq, Structural)]
pub struct SetOptions {
    /// Seconds after the write at which the cache drops the entry.
    pub expire_after_seconds: u64,
}

/// The options of every cache write: the entry expires after `CACHE_TTL_SECONDS`.
pub fn get_redis_set_options() -> (options: SetOptions)
    ensures
        options == (SetOptions { expire_after_seconds: CACHE_TTL_SECONDS }),
{
    SetOptions { expire_after_seconds: CACHE_TTL_SECONDS }
}

} // verus!
