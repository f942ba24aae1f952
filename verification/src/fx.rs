//! Operations on the Fx-hashed collections of `rustc_hash`.
//!
//! `FxHashMap` and `FxHashSet` are the standard hash collections built with
//! `FxBuildHasher`, whose hashers all start from the same fixed state: equal
//! keys always hash alike. With `i64` keys the collections therefore behave as
//! the mathematical map and set of their view, which is what the contracts
//! below claim of each standard operation.
use rustc_hash::{FxBuildHasher, FxHashMap, FxHashSet};

use vstd::prelude::*;

verus! {

#[verifier::external_type_specification]
#[verifier::external_body]
pub struct ExFxBuildHasher(FxBuildHasher);

/// `HashSet::insert` on an `FxHashSet`: adds `key`, tells whether it was absent.
#[verifier::external_body]
pub(crate) fn set_insert(set: &mut FxHashSet<i64>, key: i64) -> (inserted: bool)
    ensures
        final(set)@ == old(set)@.insert(key),
        inserted == !old(set)@.contains(key),
{
    set.insert(key)
}

/// `HashSet::contains` on an `FxHashSet`.
#[verifier::external_body]
pub(crate) fn set_contains(set: &FxHashSet<i64>, key: i64) -> (contained: bool)
    ensures
        contained == set@.contains(key),
{
    set.contains(&key)
}

/// `HashSet::remove` on an `FxHashSet`: removes `key`, tells whether it was present.
#[verifier::external_body]
pub(crate) fn set_remove(set: &mut FxHashSet<i64>, key: i64) -> (removed: bool)
    ensures
        final(set)@ == old(set)@.remove(key),
        removed == old(set)@.contains(key),
{
    set.remove(&key)
}

/// `HashSet::iter` on an `FxHashSet`, collected into a vector: every element
/// once. The order of the elements is not claimed.
#[verifier::external_body]
pub(crate) fn set_elements(set: &FxHashSet<i64>) -> (elements: Vec<i64>)
    ensures
        elements@.to_set() == set@,
        elements@.no_duplicates(),
{
    set.iter().copied().collect()
}

/// `HashSet::clone` on an `FxHashSet`.
#[verifier::external_body]
pub(crate) fn set_clone(set: &FxHashSet<i64>) -> (copy: FxHashSet<i64>)
    ensures
        copy@ == set@,
{
    set.clone()
}

/// `HashMap::get` on an `FxHashMap`.
#[verifier::external_body]
pub(crate) fn map_get<V>(map: &FxHashMap<i64, V>, key: i64) -> (value: Option<&V>)
    ensures
        match value {
            Some(v) => map@.contains_key(key) && *v == map@[key],
            None => !map@.contains_key(key),
        },
{
    map.get(&key)
}

/// `HashMap::insert` on an `FxHashMap`: sets the value of `key`, gives back the
/// value it replaced.
#[verifier::external_body]
pub(crate) fn map_insert<V>(map: &mut FxHashMap<i64, V>, key: i64, value: V) -> (replaced: Option<V>)
    ensures
        final(map)@ == old(map)@.insert(key, value),
        match replaced {
            Some(v) => old(map)@.contains_key(key) && v == old(map)@[key],
            None => !old(map)@.contains_key(key),
        },
{
    map.insert(key, value)
}

/// `HashMap::remove` on an `FxHashMap`: removes `key`, gives back its value.
#[verifier::external_body]
pub(crate) fn map_remove<V>(map: &mut FxHashMap<i64, V>, key: i64) -> (removed: Option<V>)
    ensures
        final(map)@ == old(map)@.remove(key),
        match removed {
            Some(v) => old(map)@.contains_key(key) && v == old(map)@[key],
            None => !old(map)@.contains_key(key),
        },
{
    map.remove(&key)
}

} // verus!
