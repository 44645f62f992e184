//! The component maps of the entity world are `hashbrown` hash maps keyed by
//! entity id. This module names what such a map holds and states, over
//! that, what each map operation the world uses does.

use vstd::prelude::*;

verus! {

/// `hashbrown::HashMap`, whose inside is not read here: what a map holds is
/// named below.
#[verifier::external_type_specification]
#[verifier::external_body]
#[verifier::reject_recursive_types(K)]
#[verifier::reject_recursive_types(V)]
#[verifier::reject_recursive_types(S)]
pub struct ExHashMap<K, V, S>(hashbrown::HashMap<K, V, S>);

/// The hasher that `hashbrown::HashMap` uses by default; it only appears as a
/// type parameter of the maps.
#[verifier::external_type_specification]
#[verifier::external_body]
pub struct ExDefaultHashBuilder(hashbrown::hash_map::DefaultHashBuilder);

/// A component made of two 32-bit words (the game keeps the bit patterns of
/// two `f32` coordinates in it).
pub type Pair = (u32, u32);

/// A map from entity id to a two-word component.
pub type PairMap = hashbrown::HashMap<u32, Pair>;

/// A map from entity id to a one-word component (a texture region handle).
pub type HandleMap = hashbrown::HashMap<u32, u32>;

/// What a [`PairMap`] holds.
pub uninterp spec fn pair_map_contents(m: PairMap) -> Map<u32, Pair>;

/// What a [`HandleMap`] holds.
pub uninterp spec fn handle_map_contents(m: HandleMap) -> Map<u32, u32>;

/// The map with no entries.
pub open spec fn empty_pair_map() -> Map<u32, Pair> {
    Map::empty()
}

/// The map with no entries.
pub open spec fn empty_handle_map() -> Map<u32, u32> {
    Map::empty()
}

/// `hashbrown::HashMap::new`: a map with no entries.
#[verifier::external_body]
pub(crate) fn pair_map_new() -> (map: PairMap)
    ensures
        pair_map_contents(map) == empty_pair_map(),
{
    hashbrown::HashMap::new()
}

/// `hashbrown::HashMap::new`: a map with no entries.
#[verifier::external_body]
pub(crate) fn handle_map_new() -> (map: HandleMap)
    ensures
        handle_map_contents(map) == empty_handle_map(),
{
    hashbrown::HashMap::new()
}

/// `hashbrown::HashMap::insert`: afterwards `key` maps to `value` and every
/// other key keeps its entry. (The value it replaced, which `insert`
/// returns, is dropped here.) Left unsaid: the table panics on a capacity
/// overflow, or aborts when allocation fails, only when it would need more
/// memory than the machine has.
#[verifier::external_body]
pub(crate) fn pair_map_insert(map: &mut PairMap, key: u32, value: Pair)
    ensures
        pair_map_contents(*final(map)) == pair_map_contents(*old(map)).insert(key, value),
{
    map.insert(key, value);
}

/// `hashbrown::HashMap::insert`: afterwards `key` maps to `value` and every
/// other key keeps its entry. (The value it replaced, which `insert`
/// returns, is dropped here.) Left unsaid: the table panics on a capacity
/// overflow, or aborts when allocation fails, only when it would need more
/// memory than the machine has.
#[verifier::external_body]
pub(crate) fn handle_map_insert(map: &mut HandleMap, key: u32, value: u32)
    ensures
        handle_map_contents(*final(map)) == handle_map_contents(*old(map)).insert(key, value),
{
    map.insert(key, value);
}

/// `hashbrown::HashMap::get`, with the value copied out: the entry of `key`
/// if the map has one, `None` otherwise.
#[verifier::external_body]
pub(crate) fn pair_map_get(map: &PairMap, key: u32) -> (value: Option<Pair>)
    ensures
        value == (if pair_map_contents(*map).dom().contains(key) {
            Some(pair_map_contents(*map)[key])
        } else {
            None
        }),
{
    map.get(&key).copied()
}

/// `hashbrown::HashMap::get`, with the value copied out: the entry of `key`
/// if the map has one, `None` otherwise.
#[verifier::external_body]
pub(crate) fn handle_map_get(map: &HandleMap, key: u32) -> (value: Option<u32>)
    ensures
        value == (if handle_map_contents(*map).dom().contains(key) {
            Some(handle_map_contents(*map)[key])
        } else {
            None
        }),
{
    map.get(&key).copied()
}

} // verus!
