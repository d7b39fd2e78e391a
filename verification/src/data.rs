//! Container storing heterogeneous values keyed by types.
//!
//! Every entry of a [`Data`] is identified by a key type `K: DataKey` and holds a value of type
//! `K::Value`. The container itself stores values in an erased form ([`Value`]) under the
//! [`TypeId`] of their key type.
use vstd::prelude::*;
use vstd::std_specs::hash::{OccupiedEntrySpecFns, VacantEntrySpecFns};
use crate::fxmap::{FxMap, sets_entry, fx_contains, fx_entry, fx_get, fx_get_mut, fx_insert, fx_new, fx_remove, no_entries};
use std::any::Any;
use std::any::TypeId;
use std::collections::hash_map;
use std::marker::PhantomData;

verus! {

/// The map behind a [`Data`] container: an `FxHashMap` from key identities to erased values.
type ValueMap = FxMap<Value>;

/// Value that can be stored in [`Data`].
///
/// This is automatically implemented for all `Send + Sync + 'static` types.
pub trait DataValue: Send + Sync + Sized + 'static {
    /// The value of type `Self` that the erased value `v` holds, if it holds one: what unboxing
    /// `v` as a `Self` gives (see [`Value`]'s conversions).
    open spec fn held_in(v: Value) -> Option<Self> {
        arbitrary::<spec_fn(Value) -> Option<Self>>()(v)
    }
}

impl<T: Send + Sync + 'static> DataValue for T {}

/// Key type for accessing values in [`Data`].
///
/// Each key type defines the associated value type it stores.
pub trait DataKey: 'static {
    /// The value type stored in an entry for this key.
    type Value: DataValue;

    /// The identity of this key type, under which [`Data`] stores its entry: the `TypeId` of
    /// `Self`.
    open spec fn key_id() -> TypeId {
        arbitrary::<(PhantomData<Self>, TypeId)>().1
    }
}

/// A type-erased value stored in a [`Data`] container.
///
/// What a `Value` holds is told by [`DataValue::held_in`]: the value of a type `T` that it holds,
/// if it holds one.
#[verifier::external_body]
pub struct Value {
    inner: Box<dyn Any + Send + Sync>,
}

/// Returns `TypeId::of::<K>()`, the identity of the key type `K` ([`DataKey::key_id`]).
#[verifier::external_body]
fn type_key<K: DataKey>() -> (r: TypeId)
    ensures
        r == K::key_id(),
{
    TypeId::of::<K>()
}

impl Value {
    /// Erases `x` by boxing it as `Box<dyn Any + Send + Sync>` (`Box::new` with unsizing).
    #[verifier::external_body]
    fn new<T: DataValue>(x: T) -> (v: Value)
        ensures
            T::held_in(v) == Some(x),
    {
        Value { inner: Box::new(x) }
    }

    /// Unboxes the value as a `T` (`Box::<dyn Any + Send + Sync>::downcast`), if it holds one.
    #[verifier::external_body]
    fn downcast<T: DataValue>(self) -> (r: Option<T>)
        ensures
            r == T::held_in(self),
    {
        match self.inner.downcast::<T>() {
            Ok(b) => Some(*b),
            Err(_) => None,
        }
    }

    /// Borrows the value as a `T` (`<dyn Any>::downcast_ref`), if it holds one.
    #[verifier::external_body]
    fn downcast_ref<T: DataValue>(&self) -> (r: Option<&T>)
        ensures
            match r {
                Some(x) => T::held_in(*self) == Some(*x),
                None => T::held_in(*self) is None,
            },
    {
        (*self.inner).downcast_ref::<T>()
    }

    /// Mutably borrows the value as a `T` (`<dyn Any>::downcast_mut`), if it holds one; what is
    /// written through the reference is what the value then holds. When it does not hold a `T`,
    /// the value is left as it was.
    #[verifier::external_body]
    fn downcast_mut<T: DataValue>(&mut self) -> (r: Option<&mut T>)
        ensures
            match r {
                Some(x) => T::held_in(*old(self)) == Some(*x) && T::held_in(*final(self)) == Some(
                    *final(x),
                ),
                None => T::held_in(*old(self)) is None && *final(self) == *old(self),
            },
    {
        (*self.inner).downcast_mut::<T>()
    }
}

/// The value of type `K::Value` that `m` holds under the key of `K`, if it holds one.
pub open spec fn value_of<K: DataKey>(m: Map<TypeId, Value>) -> Option<K::Value> {
    if m.contains_key(K::key_id()) {
        K::Value::held_in(m[K::key_id()])
    } else {
        None
    }
}

/// `after` is `before` without an entry for key `k`; when `found`, `before` had one.
pub open spec fn removes_entry(
    before: Map<TypeId, Value>,
    after: Map<TypeId, Value>,
    k: TypeId,
    found: bool,
) -> bool {
    &&& after == before.remove(k)
    &&& found ==> before.contains_key(k)
}

/// Container storing heterogeneous values via key types.
///
/// Each entry is identified by its key type `K: DataKey` and contains a value of type
/// `K::Value`.
pub struct Data {
    map: ValueMap,
}

impl View for Data {
    type V = Map<TypeId, Value>;

    closed spec fn view(&self) -> Map<TypeId, Value> {
        self.map@
    }
}

impl Default for Data {
    fn default() -> (r: Self)
        ensures
            r@ == no_entries::<Value>(),
    {
        Data { map: fx_new() }
    }
}

impl Data {
    /// Creates an empty container.
    pub fn new() -> (r: Self)
        ensures
            r@ == no_entries::<Value>(),
    {
        Data { map: fx_new() }
    }

    /// Inserts a value for the given key type.
    ///
    /// Returns the previous value if one existed. The entry of the key is set, and no other
    /// entry changes.
    pub fn insert<K: DataKey>(&mut self, data: K::Value) -> (r: Option<K::Value>)
        ensures
            exists|k: TypeId|
                #[trigger] sets_entry(old(self)@, final(self)@, k) && (r is Some ==> old(self)@.contains_key(k)),
            sets_entry(old(self)@, final(self)@, K::key_id()),
            value_of::<K>(final(self)@) == Some(data),
            r == value_of::<K>(old(self)@),
    {
        let k = type_key::<K>();
        let prev = fx_insert(&mut self.map, k, Value::new(data));
        proof {
            assert(sets_entry(old(self)@, final(self)@, k));
        }
        match prev {
            Some(v) => v.downcast::<K::Value>(),
            None => None,
        }
    }

    /// Returns an entry API for in-place manipulation.
    ///
    /// The entry is vacant exactly when the container has no value for its key. Whatever value
    /// the entry holds when it is done becomes the value of its key; an occupied entry that is
    /// removed leaves the key without a value. No other entry changes.
    pub fn entry<K: DataKey>(&mut self) -> (r: DataEntry<'_, K>)
        ensures
            r.key() == K::key_id(),
            match r {
                DataEntry::Vacant(e) => !old(self)@.contains_key(e.inner().spec_key()) && final(self)@ == match e.inner().final_value() {
                    Some(v) => old(self)@.insert(e.inner().spec_key(), v),
                    None => old(self)@,
                },
                DataEntry::Occupied(e) => old(self)@.get(e.inner().spec_key()) == Some(
                    e.inner().value(),
                ) && final(self)@ == match e.inner().final_value() {
                    Some(v) => old(self)@.insert(e.inner().spec_key(), v),
                    None => old(self)@.remove(e.inner().spec_key()),
                },
            },
    {
        let k = type_key::<K>();
        match fx_entry(&mut self.map, k) {
            hash_map::Entry::Vacant(vacant) => DataEntry::Vacant(VacantEntry(vacant, PhantomData)),
            hash_map::Entry::Occupied(occupied) => DataEntry::Occupied(
                OccupiedEntry(occupied, PhantomData),
            ),
        }
    }

    /// Removes the value associated with the key.
    ///
    /// Returns the value if it existed. No other entry changes.
    pub fn remove<K: DataKey>(&mut self) -> (r: Option<K::Value>)
        ensures
            exists|k: TypeId| #[trigger] removes_entry(old(self)@, final(self)@, k, r is Some),
            final(self)@ == old(self)@.remove(K::key_id()),
            r == value_of::<K>(old(self)@),
    {
        let k = type_key::<K>();
        let prev = fx_remove(&mut self.map, &k);
        let r = match prev {
            Some(v) => v.downcast::<K::Value>(),
            None => None,
        };
        proof {
            assert(removes_entry(old(self)@, self@, k, r is Some));
        }
        r
    }

    /// Returns `true` if a value for key `K` exists.
    pub fn contains_key<K: DataKey>(&self) -> (r: bool)
        ensures
            exists|k: TypeId| #[trigger] self@.contains_key(k) == r,
            self@ == no_entries::<Value>() ==> !r,
            r == self@.contains_key(K::key_id()),
    {
        let k = type_key::<K>();
        let r = fx_contains(&self.map, &k);
        proof {
            assert(self@.contains_key(k) == r);
        }
        r
    }

    /// Returns a reference to the value associated with key `K`.
    pub fn get<K: DataKey>(&self) -> (r: Option<&K::Value>)
        ensures
            r is Some ==> exists|k: TypeId| #[trigger] self@.contains_key(k),
            self@ == no_entries::<Value>() ==> r is None,
            match r {
                Some(v) => value_of::<K>(self@) == Some(*v),
                None => value_of::<K>(self@) is None,
            },
    {
        let k = type_key::<K>();
        match fx_get(&self.map, &k) {
            Some(v) => {
                proof {
                    assert(self@.contains_key(k));
                }
                v.downcast_ref::<K::Value>()
            },
            None => None,
        }
    }

    /// Returns a mutable reference to the value associated with key `K`.
    ///
    /// Writes through the returned reference change only the entry of `K`.
    pub fn get_mut<K: DataKey>(&mut self) -> (r: Option<&mut K::Value>)
        ensures
            match r {
                Some(_) => exists|k: TypeId| #[trigger]
                    old(self)@.contains_key(k) && sets_entry(old(self)@, final(self)@, k),
                None => final(self)@ =~= old(self)@,
            },
            match r {
                Some(v) => {
                    &&& value_of::<K>(old(self)@) == Some(*v)
                    &&& sets_entry(old(self)@, final(self)@, K::key_id())
                    &&& value_of::<K>(final(self)@) == Some(*final(v))
                },
                None => value_of::<K>(old(self)@) is None,
            },
    {
        let k = type_key::<K>();
        match fx_get_mut(&mut self.map, &k) {
            Some(v) => {
                proof {
                    assert(old(self)@.contains_key(k));
                }
                v.downcast_mut::<K::Value>()
            },
            None => None,
        }
    }
}

/// View into a single entry in a [`Data`] container.
pub enum DataEntry<'a, K> {
    /// Vacant entry (no value present)
    Vacant(VacantEntry<'a, K>),
    /// Occupied entry (value already present)
    Occupied(OccupiedEntry<'a, K>),
}

/// Vacant entry in [`Data`].
pub struct VacantEntry<'a, K>(hash_map::VacantEntry<'a, TypeId, Value>, PhantomData<K>);

/// An occupied entry in [`Data`].
pub struct OccupiedEntry<'a, K>(hash_map::OccupiedEntry<'a, TypeId, Value>, PhantomData<K>);

impl<'a, K> DataEntry<'a, K> {
    /// The identity of the key that this entry is for.
    pub open spec fn key(self) -> TypeId {
        match self {
            DataEntry::Vacant(e) => e.inner().spec_key(),
            DataEntry::Occupied(e) => e.inner().spec_key(),
        }
    }
}

impl<'a, K: DataKey> DataEntry<'a, K> {
    /// Ensures a value is present and returns an occupied entry.
    ///
    /// If vacant, inserts the value. If occupied, replaces it.
    pub fn insert_entry(self, value: K::Value) -> (r: OccupiedEntry<'a, K>)
        ensures
            r.inner().spec_key() == self.key(),
            match self {
                DataEntry::Vacant(e) => e.inner().final_value() == r.inner().final_value(),
                DataEntry::Occupied(e) => e.inner().final_value() == r.inner().final_value(),
            },
            K::Value::held_in(r.inner().value()) == Some(value),
    {
        match self {
            DataEntry::Vacant(entry) => entry.insert_entry(value),
            DataEntry::Occupied(mut entry) => {
                entry.replace(value);
                entry
            },
        }
    }

    /// Returns the value of an occupied entry, or inserts the value produced by `f` into a vacant
    /// one and returns it. Either way the entry ends with a value.
    ///
    /// The result is `None` only when the entry holds a value that is not a `K::Value`.
    pub fn or_insert_with(self, f: impl FnOnce() -> K::Value) -> (r: Option<&'a mut K::Value>)
        requires
            self is Vacant ==> f.requires(()),
        ensures
            match self {
                DataEntry::Vacant(e) => e.inner().final_value() is Some,
                DataEntry::Occupied(e) => e.inner().final_value() is Some,
            },
            match self {
                DataEntry::Vacant(e) => {
                    &&& r is Some
                    &&& r matches Some(x) ==> f.ensures((), *x) && K::Value::held_in(
                        e.inner().final_value()->0,
                    ) == Some(*final(x))
                },
                DataEntry::Occupied(e) => match r {
                    Some(x) => K::Value::held_in(e.inner().value()) == Some(*x)
                        && K::Value::held_in(e.inner().final_value()->0) == Some(*final(x)),
                    None => K::Value::held_in(e.inner().value()) is None
                        && e.inner().final_value() == Some(e.inner().value()),
                },
            },
    {
        match self {
            DataEntry::Occupied(entry) => entry.into_mut(),
            DataEntry::Vacant(entry) => entry.insert(f()),
        }
    }

    /// Inserts the value provided by the fallible closure if no value is currently present.
    ///
    /// # Errors
    ///
    /// This method forwards any errors from `f`; the entry then stays vacant. The value returned
    /// on success is `None` only when the entry holds a value that is not a `K::Value`.
    pub fn or_try_insert_with<E>(self, f: impl FnOnce() -> Result<K::Value, E>) -> (r: Result<
        Option<&'a mut K::Value>,
        E,
    >)
        requires
            self is Vacant ==> f.requires(()),
        ensures
            match self {
                DataEntry::Vacant(e) => match r {
                    Ok(_) => e.inner().final_value() is Some,
                    Err(err) => f.ensures((), Err(err)) && e.inner().final_value() is None,
                },
                DataEntry::Occupied(e) => r is Ok && e.inner().final_value() is Some,
            },
            match self {
                DataEntry::Vacant(e) => r matches Ok(o) ==> {
                    &&& o is Some
                    &&& o matches Some(x) ==> f.ensures((), Ok(*x)) && K::Value::held_in(
                        e.inner().final_value()->0,
                    ) == Some(*final(x))
                },
                DataEntry::Occupied(e) => r matches Ok(o) && match o {
                    Some(x) => K::Value::held_in(e.inner().value()) == Some(*x)
                        && K::Value::held_in(e.inner().final_value()->0) == Some(*final(x)),
                    None => K::Value::held_in(e.inner().value()) is None
                        && e.inner().final_value() == Some(e.inner().value()),
                },
            },
    {
        match self {
            DataEntry::Occupied(entry) => Ok(entry.into_mut()),
            DataEntry::Vacant(entry) => match f() {
                Ok(value) => Ok(entry.insert(value)),
                Err(err) => Err(err),
            },
        }
    }
}

impl<'a, K> VacantEntry<'a, K> {
    /// The underlying entry of the map.
    pub closed spec fn inner(self) -> hash_map::VacantEntry<'a, TypeId, Value> {
        self.0
    }
}

impl<'a, K: DataKey> VacantEntry<'a, K> {
    /// Inserts a value and returns a mutable reference to it. The entry ends with a value.
    ///
    /// The reference is `None` only when the inserted value does not read back as a `K::Value`.
    pub fn insert(self, value: K::Value) -> (r: Option<&'a mut K::Value>)
        ensures
            self.inner().final_value() is Some,
            r is Some,
            r matches Some(x) ==> *x == value && K::Value::held_in(self.inner().final_value()->0)
                == Some(*final(x)),
    {
        let v = self.0.insert(Value::new(value));
        v.downcast_mut::<K::Value>()
    }

    /// Inserts a value and returns an occupied entry.
    pub fn insert_entry(self, value: K::Value) -> (r: OccupiedEntry<'a, K>)
        ensures
            r.inner().spec_key() == self.inner().spec_key(),
            self.inner().final_value() == r.inner().final_value(),
            K::Value::held_in(r.inner().value()) == Some(value),
    {
        OccupiedEntry(self.0.insert_entry(Value::new(value)), PhantomData)
    }
}

impl<'a, K> OccupiedEntry<'a, K> {
    /// The underlying entry of the map.
    pub closed spec fn inner(self) -> hash_map::OccupiedEntry<'a, TypeId, Value> {
        self.0
    }
}

impl<'a, K: DataKey> OccupiedEntry<'a, K> {
    /// Ends the entry, leaving its value as it is.
    pub(crate) fn keep(self)
        ensures
            self.inner().final_value() == Some(self.inner().value()),
    {
        let _value = self.0.into_mut();
    }

    /// Sets the value of the entry, dropping the previous one.
    fn replace(&mut self, value: K::Value)
        ensures
            final(self).inner().spec_key() == old(self).inner().spec_key(),
            final(self).inner().final_value() == old(self).inner().final_value(),
            K::Value::held_in(final(self).inner().value()) == Some(value),
    {
        let _ = self.0.insert(Value::new(value));
    }

    /// Replaces the value, returning the old one.
    ///
    /// The old value is `None` only when it was not a `K::Value`; it is replaced either way.
    pub fn insert(&mut self, value: K::Value) -> (r: Option<K::Value>)
        ensures
            final(self).inner().spec_key() == old(self).inner().spec_key(),
            final(self).inner().final_value() == old(self).inner().final_value(),
            r == K::Value::held_in(old(self).inner().value()),
            K::Value::held_in(final(self).inner().value()) == Some(value),
    {
        self.0.insert(Value::new(value)).downcast::<K::Value>()
    }

    /// Returns a shared reference to the value; `None` only when it is not a `K::Value`.
    pub fn get(&self) -> (r: Option<&K::Value>)
        ensures
            match r {
                Some(x) => K::Value::held_in(self.inner().value()) == Some(*x),
                None => K::Value::held_in(self.inner().value()) is None,
            },
    {
        self.0.get().downcast_ref::<K::Value>()
    }

    /// Returns a mutable reference to the value; `None` only when it is not a `K::Value`, and
    /// the entry is then left as it was.
    pub fn get_mut(&mut self) -> (r: Option<&mut K::Value>)
        ensures
            final(self).inner().spec_key() == old(self).inner().spec_key(),
            final(self).inner().final_value() == old(self).inner().final_value(),
            match r {
                Some(x) => K::Value::held_in(old(self).inner().value()) == Some(*x)
                    && K::Value::held_in(final(self).inner().value()) == Some(*final(x)),
                None => K::Value::held_in(old(self).inner().value()) is None
                    && final(self).inner().value() == old(self).inner().value(),
            },
    {
        self.0.get_mut().downcast_mut::<K::Value>()
    }

    /// Converts into a mutable reference with the entry lifetime; `None` only when the value is
    /// not a `K::Value`. The entry ends with a value.
    pub fn into_mut(self) -> (r: Option<&'a mut K::Value>)
        ensures
            self.inner().final_value() is Some,
            match r {
                Some(x) => K::Value::held_in(self.inner().value()) == Some(*x)
                    && K::Value::held_in(self.inner().final_value()->0) == Some(*final(x)),
                None => K::Value::held_in(self.inner().value()) is None
                    && self.inner().final_value() == Some(self.inner().value()),
            },
    {
        self.0.into_mut().downcast_mut::<K::Value>()
    }

    /// Removes and returns the value; the returned value is `None` only when it was not a
    /// `K::Value`. The entry ends without a value.
    pub fn remove(self) -> (r: Option<K::Value>)
        ensures
            self.inner().final_value() is None,
            r == K::Value::held_in(self.inner().value()),
    {
        self.0.remove().downcast::<K::Value>()
    }
}

/// What [`Data::insert`] stores is what [`Data::get`] gives back: once `x` was inserted for `K`
/// (the change that `insert` makes to the entries), a `get` for `K` returns `x`.
pub proof fn law_get_after_insert<K: DataKey>(
    before: Map<TypeId, Value>,
    after: Map<TypeId, Value>,
    x: K::Value,
    got: Option<K::Value>,
)
    requires
        sets_entry(before, after, K::key_id()),
        value_of::<K>(after) == Some(x),
        match got {
            Some(v) => value_of::<K>(after) == Some(v),
            None => value_of::<K>(after) is None,
        },
    ensures
        got == Some(x),
{
}

/// Entries are told apart by key type: inserting for `K` leaves what every key type with another
/// identity holds, and whether it has an entry, as they were; and `K` then has an entry.
pub proof fn law_insert_keeps_other_keys<K: DataKey, J: DataKey>(
    before: Map<TypeId, Value>,
    after: Map<TypeId, Value>,
    x: K::Value,
)
    requires
        sets_entry(before, after, K::key_id()),
        value_of::<K>(after) == Some(x),
        J::key_id() != K::key_id(),
    ensures
        after.contains_key(J::key_id()) == before.contains_key(J::key_id()),
        value_of::<J>(after) == value_of::<J>(before),
        after.contains_key(K::key_id()),
{
    assert(before.remove(K::key_id()).contains_key(J::key_id()) == before.contains_key(J::key_id()));
    assert(after.remove(K::key_id()).contains_key(J::key_id()) == after.contains_key(J::key_id()));
    if after.contains_key(J::key_id()) {
        assert(after.remove(K::key_id())[J::key_id()] == after[J::key_id()]);
        assert(before.remove(K::key_id())[J::key_id()] == before[J::key_id()]);
    }
}

/// [`Data::contains_key`] answers for its own key type only: when the entries hold nothing under
/// the identity of `K` (whatever they hold under other keys), it is `false`, and [`Data::get`]
/// for `K` is `None`.
pub proof fn law_absent_key<K: DataKey>(m: Map<TypeId, Value>, contains: bool, got: Option<K::Value>)
    requires
        forall|k: TypeId| #[trigger] m.contains_key(k) ==> k != K::key_id(),
        contains == m.contains_key(K::key_id()),
        match got {
            Some(v) => value_of::<K>(m) == Some(v),
            None => value_of::<K>(m) is None,
        },
    ensures
        !contains,
        got is None,
{
}

/// What [`Data::remove`] takes out is what was inserted, and afterwards the key type has no
/// entry: removing right after inserting `x` for `K` returns `x`, and leaves `K` absent.
pub proof fn law_remove_after_insert<K: DataKey>(
    before: Map<TypeId, Value>,
    inserted: Map<TypeId, Value>,
    removed: Map<TypeId, Value>,
    x: K::Value,
    taken: Option<K::Value>,
)
    requires
        sets_entry(before, inserted, K::key_id()),
        value_of::<K>(inserted) == Some(x),
        removed == inserted.remove(K::key_id()),
        taken == value_of::<K>(inserted),
    ensures
        taken == Some(x),
        !removed.contains_key(K::key_id()),
        value_of::<K>(removed) is None,
        removed.remove(K::key_id()) == before.remove(K::key_id()),
{
    assert(removed.remove(K::key_id()) =~= before.remove(K::key_id()));
}

/// On an occupied entry that holds a `K::Value`, [`DataEntry::or_try_insert_with`] and
/// [`DataEntry::or_insert_with`] hand out that value, as [`OccupiedEntry::get`] reads it, and
/// leave it in place when nothing is written through the reference.
pub proof fn law_occupied_entry_keeps_value<K: DataKey>(
    current: Value,
    final_value: Option<Value>,
    x: K::Value,
    read: Option<K::Value>,
    handed_out: Option<K::Value>,
    written: K::Value,
)
    requires
        K::Value::held_in(current) == Some(x),
        match read {
            Some(v) => K::Value::held_in(current) == Some(v),
            None => K::Value::held_in(current) is None,
        },
        match handed_out {
            Some(v) => K::Value::held_in(current) == Some(v) && K::Value::held_in(final_value->0)
                == Some(written),
            None => K::Value::held_in(current) is None && final_value == Some(current),
        },
        handed_out matches Some(v) ==> written == v,
    ensures
        handed_out == Some(x),
        read == handed_out,
        K::Value::held_in(final_value->0) == Some(x),
{
}

} // verus!
