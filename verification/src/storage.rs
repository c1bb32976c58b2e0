//! What the crate assumes of the fixed-capacity map that stores the alerts.
//!
//! The map is `heapless::IndexMap` with the FNV hasher. It is keyed by the ordinal of an
//! alert source and holds the rank of the level stored for it. Nothing in this file is
//! proved: each contract restates what the map's documentation and source say.

use crate::source::MAX_NUM_ALERT_SOURCES;
use heapless::FnvIndexMap;
use vstd::prelude::*;

verus! {

/// `heapless::IndexMap`: a hash map of fixed capacity `N` that keeps its entries in the
/// order in which their keys were first inserted.
#[verifier::external_type_specification]
#[verifier::external_body]
#[verifier::reject_recursive_types(K)]
#[verifier::reject_recursive_types(V)]
#[verifier::reject_recursive_types(S)]
pub struct ExIndexMap<K, V, S, const N: usize>(heapless::IndexMap<K, V, S, N>);

/// `hash32::FnvHasher`: the hasher of the map; its state is never read here.
#[verifier::external_type_specification]
#[verifier::external_body]
pub struct ExFnvHasher(hash32::FnvHasher);

/// `hash32::BuildHasherDefault`: makes the map's hashers; it holds no data.
#[verifier::external_type_specification]
#[verifier::external_body]
#[verifier::reject_recursive_types(H)]
pub struct ExBuildHasherDefault<H>(hash32::BuildHasherDefault<H>);

/// The map that stores, for the ordinal of a source, the rank of its alert's level. It has
/// room for [`MAX_NUM_ALERT_SOURCES`] entries.
pub type AlertMap = FnvIndexMap<usize, u8, MAX_NUM_ALERT_SOURCES>;

/// The key-value pairs that the map holds, in insertion order: the order in which
/// `IndexMap::iter` yields them.
pub uninterp spec fn map_entries(map: AlertMap) -> Seq<(usize, u8)>;

/// `IndexMap::new`: the new map holds no entry.
#[verifier::external_body]
pub(crate) fn map_new() -> (map: AlertMap)
    ensures
        map_entries(map) == Seq::<(usize, u8)>::empty(),
{
    FnvIndexMap::new()
}

/// `IndexMap::get`: the value stored for `key`, or `None` if the map holds no entry with
/// that key.
#[verifier::external_body]
pub(crate) fn map_get(map: &AlertMap, key: usize) -> (value: Option<u8>)
    ensures
        match value {
            Some(v) => map_entries(*map).contains((key, v)),
            None => forall|i: int|
                0 <= i < map_entries(*map).len() ==> (#[trigger] map_entries(*map)[i]).0 != key,
        },
{
    map.get(&key).copied()
}

/// `IndexMap::insert`. Where the map holds an entry with `key`, the entry keeps its place,
/// its value becomes `value`, and the old value is returned. Where it holds none and is not
/// full, the pair becomes the last entry. Where it holds none and is full, the map is left
/// as it was and the pair is handed back. The call does not panic: hashing and comparing
/// the integer keys cannot, and the map reports a full table through its result.
#[verifier::external_body]
pub(crate) fn map_insert(map: &mut AlertMap, key: usize, value: u8) -> (result: Result<
    Option<u8>,
    (usize, u8),
>)
    ensures
        match result {
            Ok(Some(replaced)) => exists|i: int|
                0 <= i < map_entries(*old(map)).len() && #[trigger] map_entries(*old(map))[i] == (
                    key,
                    replaced,
                ) && map_entries(*final(map)) == map_entries(*old(map)).update(i, (key, value)),
            Ok(None) => {
                &&& forall|i: int|
                    0 <= i < map_entries(*old(map)).len() ==> (#[trigger] map_entries(
                        *old(map),
                    )[i]).0 != key
                &&& map_entries(*old(map)).len() < MAX_NUM_ALERT_SOURCES
                &&& map_entries(*final(map)) == map_entries(*old(map)).push((key, value))
            },
            Err(rejected) => {
                &&& forall|i: int|
                    0 <= i < map_entries(*old(map)).len() ==> (#[trigger] map_entries(
                        *old(map),
                    )[i]).0 != key
                &&& map_entries(*old(map)).len() >= MAX_NUM_ALERT_SOURCES
                &&& map_entries(*final(map)) == map_entries(*old(map))
                &&& rejected == (key, value)
            },
        },
    no_unwind
{
    map.insert(key, value)
}

/// The entry at position `index` of `IndexMap::iter`, which walks the entries in insertion
/// order, or `None` if the map holds no more than `index` entries.
#[verifier::external_body]
pub(crate) fn map_entry_at(map: &AlertMap, index: usize) -> (entry: Option<(usize, u8)>)
    ensures
        entry == (if index < map_entries(*map).len() {
            Some(map_entries(*map)[index as int])
        } else {
            None
        }),
{
    map.iter().nth(index).map(|(key, value)| (*key, *value))
}

} // verus!
