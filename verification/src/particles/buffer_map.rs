//! The engine's deterministic hash map, as a particle system uses it: from an
//! attribute entity to the entity of the buffer that backs it, both carried
//! as their bits.
use bevy_platform::collections::HashMap;
use bevy_platform::hash::FixedHasher;
use vstd::prelude::*;

verus! {

#[verifier::external_type_specification]
#[verifier::external_body]
pub struct ExFixedHasher(FixedHasher);

#[verifier::external_type_specification]
#[verifier::external_body]
#[verifier::reject_recursive_types(K)]
#[verifier::reject_recursive_types(V)]
#[verifier::reject_recursive_types(S)]
pub struct ExPlatformHashMap<K, V, S>(HashMap<K, V, S>);

/// The entries a buffer map holds.
pub uninterp spec fn buffer_entries(m: HashMap<u64, u64>) -> Map<u64, u64>;

/// `HashMap::with_capacity` of `bevy_platform`: an empty map with room for
/// `capacity` entries. The contract claims only that it is empty.
#[verifier::external_body]
pub(crate) fn buffer_map_with_capacity(capacity: usize) -> (r: HashMap<u64, u64>)
    ensures
        buffer_entries(r).dom() == Set::<u64>::empty(),
{
    HashMap::with_capacity(capacity)
}

/// `HashMap::get` of `bevy_platform`, with the value copied out: the value
/// under `key`, or `None` where the map holds none.
#[verifier::external_body]
pub(crate) fn buffer_map_get(m: &HashMap<u64, u64>, key: u64) -> (r: Option<u64>)
    ensures
        buffer_entries(*m).contains_key(key) ==> r == Some(buffer_entries(*m)[key]),
        !buffer_entries(*m).contains_key(key) ==> r is None,
{
    m.get(&key).copied()
}

/// `HashMap::insert` of `bevy_platform`: `key` maps to `value` afterwards,
/// every other entry stays, and the value it replaced, if any, is returned.
#[verifier::external_body]
pub(crate) fn buffer_map_insert(m: &mut HashMap<u64, u64>, key: u64, value: u64) -> (r: Option<u64>)
    ensures
        buffer_entries(*final(m)) == buffer_entries(*old(m)).insert(key, value),
        buffer_entries(*old(m)).contains_key(key) ==> r == Some(buffer_entries(*old(m))[key]),
        !buffer_entries(*old(m)).contains_key(key) ==> r is None,
{
    m.insert(key, value)
}

/// `HashMap::iter` of `bevy_platform`, each entry copied out: every entry of
/// the map exactly once, in the map's iteration order, which the contract
/// leaves open.
#[verifier::external_body]
pub(crate) fn buffer_map_entries(m: &HashMap<u64, u64>) -> (r: Vec<(u64, u64)>)
    ensures
        forall|i: int| 0 <= i < r@.len() ==> #[trigger] buffer_entries(*m).contains_key(r@[i].0)
            && buffer_entries(*m)[r@[i].0] == r@[i].1,
        forall|k: u64| #[trigger] buffer_entries(*m).contains_key(k) ==> exists|i: int| 0 <= i < r@.len() && r@[i].0 == k,
        forall|i: int, j: int| 0 <= i < j < r@.len() ==> r@[i].0 != r@[j].0,
{
    m.iter().map(|(k, v)| (*k, *v)).collect()
}

} // verus!
