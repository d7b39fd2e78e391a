//! The `rustc_hash::FxHashMap` keyed by type identities that the containers of this crate use.
//!
//! Each function here makes one call of a `HashMap` method on an `FxHashMap<TypeId, V>`.
use vstd::prelude::*;
use vstd::std_specs::hash::{OccupiedEntrySpecFns, VacantEntrySpecFns};
use rustc_hash::FxBuildHasher;
use std::any::TypeId;
use std::collections::hash_map;
use std::collections::HashMap;

verus! {

/// The identity of a type at runtime.
#[verifier::external_type_specification]
#[verifier::external_body]
pub struct ExTypeId(TypeId);

/// The hasher builder of `rustc_hash::FxHashMap`.
#[verifier::external_type_specification]
#[verifier::external_body]
pub struct ExFxBuildHasher(FxBuildHasher);

/// `rustc_hash::FxHashMap<TypeId, V>`.
pub type FxMap<V> = HashMap<TypeId, V, FxBuildHasher>;

/// The contents of a map without entries.
pub open spec fn no_entries<V>() -> Map<TypeId, V> {
    Map::empty()
}

/// `after` is `before` with a value for key `k`, and every other entry as it was.
pub open spec fn sets_entry<V>(before: Map<TypeId, V>, after: Map<TypeId, V>, k: TypeId) -> bool {
    &&& after.contains_key(k)
    &&& after.remove(k) =~= before.remove(k)
}

/// `FxHashMap::default`: an empty map.
#[verifier::external_body]
pub(crate) fn fx_new<V>() -> (m: FxMap<V>)
    ensures
        m@ == no_entries::<V>(),
{
    HashMap::default()
}

/// `HashMap::contains_key`.
#[verifier::external_body]
pub(crate) fn fx_contains<V>(m: &FxMap<V>, k: &TypeId) -> (r: bool)
    ensures
        r == m@.contains_key(*k),
{
    m.contains_key(k)
}

/// `HashMap::insert`: sets the entry and returns the previous value.
#[verifier::external_body]
pub(crate) fn fx_insert<V>(m: &mut FxMap<V>, k: TypeId, v: V) -> (r: Option<V>)
    ensures
        final(m)@ == old(m)@.insert(k, v),
        r == old(m)@.get(k),
{
    m.insert(k, v)
}

/// `HashMap::remove`: removes the entry and returns its value.
#[verifier::external_body]
pub(crate) fn fx_remove<V>(m: &mut FxMap<V>, k: &TypeId) -> (r: Option<V>)
    ensures
        final(m)@ == old(m)@.remove(*k),
        r == old(m)@.get(*k),
{
    m.remove(k)
}

/// `HashMap::get`.
#[verifier::external_body]
pub(crate) fn fx_get<'a, V>(m: &'a FxMap<V>, k: &TypeId) -> (r: Option<&'a V>)
    ensures
        match r {
            Some(v) => m@.get(*k) == Some(*v),
            None => !m@.contains_key(*k),
        },
{
    m.get(k)
}

/// `HashMap::get_mut`. Writes through the returned reference become the value of the entry.
#[verifier::external_body]
pub(crate) fn fx_get_mut<'a, V>(m: &'a mut FxMap<V>, k: &TypeId) -> (r: Option<&'a mut V>)
    ensures
        match r {
            Some(v) => old(m)@.contains_key(*k) && old(m)@.get(*k) == Some(*v) && final(m)@
                == old(m)@.insert(*k, *final(v)) && sets_entry(old(m)@, final(m)@, *k),
            None => !old(m)@.contains_key(*k) && final(m)@ == old(m)@,
        },
{
    m.get_mut(k)
}

/// `HashMap::entry`. The entry's final value becomes the value of the key in the map, or the
/// key is absent if the entry ends without one.
#[verifier::external_body]
pub(crate) fn fx_entry<'a, V>(m: &'a mut FxMap<V>, k: TypeId) -> (r: hash_map::Entry<'a, TypeId, V>)
    ensures
        match r {
            hash_map::Entry::Occupied(e) => e.spec_key() == k && old(m)@.get(k) == Some(e.value())
                && final(m)@ == match e.final_value() {
                Some(v) => old(m)@.insert(k, v),
                None => old(m)@.remove(k),
            },
            hash_map::Entry::Vacant(e) => e.spec_key() == k && !old(m)@.contains_key(k) && final(m)@
                == match e.final_value() {
                Some(v) => old(m)@.insert(k, v),
                None => old(m)@,
            },
        },
{
    m.entry(k)
}

/// The first key of the map's iteration (`m.keys().next()`). Which key comes first is left
/// open: it is one of the map's keys, and there is none only when the map is empty.
#[verifier::external_body]
pub(crate) fn fx_some_key<V>(m: &FxMap<V>) -> (r: Option<TypeId>)
    ensures
        match r {
            Some(k) => m@.contains_key(k),
            None => m@.dom() == Set::<TypeId>::empty(),
        },
{
    m.keys().next().copied()
}

} // verus!
