//! A collection of useful initializables: the building blocks of injectables.
//!
//! Each type here is what a field of an injectable holds at runtime; how it is initialized and
//! built is driven by the initialization and build phases.
use vstd::prelude::*;
use vstd::std_specs::hash::{contains_borrowed_key, maps_borrowed_key_to_value, obeys_key_model};
use vstd::std_specs::iter::IteratorSpec;
use crate::builder::Slot;
use crate::container::{AppContainerBuilder, inserts_once};
use crate::data::{Data, DataKey, DataValue, removes_entry, value_of};
use crate::Result;
use std::any::TypeId;
use std::collections::hash_map;
use std::collections::HashMap;
use std::borrow::Borrow;
use std::hash::Hash;
use std::marker::PhantomData;

verus! {

/// A simple, initializable value.
///
/// `Value<T>` is a slim wrapper around `T` that allows modifying the `T` during initialization
/// and accessing a reference to the final value at runtime.
pub struct Value<T>(T);

impl<T> Value<T> {
    /// The wrapped value.
    pub closed spec fn value(&self) -> T {
        self.0
    }

    /// Wraps the value that initialization produced.
    pub fn new(value: T) -> (r: Self)
        ensures
            r.value() == value,
    {
        Value(value)
    }

    /// Returns a reference to the wrapped value.
    pub fn get(&self) -> (r: &T)
        ensures
            *r == self.value(),
    {
        &self.0
    }

    /// Unwraps the value.
    pub fn into_inner(self) -> (r: T)
        ensures
            r == self.value(),
    {
        self.0
    }
}

impl<T> std::ops::Deref for Value<T> {
    type Target = T;

    fn deref(&self) -> (r: &T)
        ensures
            *r == self.value(),
    {
        &self.0
    }
}

/// A value that is used only during initialization and is dropped on build.
///
/// `DropValue<T>` allows modifying a value of type `T` during initialization, which is dropped
/// on build.
pub struct DropValue<T>(PhantomData<T>);

impl<T> DropValue<T> {
    /// The runtime value, which holds nothing of the initialization value.
    pub fn new() -> (r: Self) {
        DropValue(PhantomData)
    }
}

/// Injects an injectable.
///
/// The slot is only filled when the injectable was built; until then the injectable cannot be
/// reached. This is what allows circular references between injectables.
#[verifier::reject_recursive_types(I)]
pub struct Inject<I: 'static>(Slot<I>);

/// The initialization state of [`Inject`]: the slot that the injectable will be built into.
#[verifier::reject_recursive_types(I)]
pub struct InjectInit<I: 'static>(Slot<I>);

impl<I: 'static> InjectInit<I> {
    /// The slot of the injectable.
    pub closed spec fn slot(&self) -> Slot<I> {
        self.0
    }

    /// The initialization state for the injectable built into `slot`.
    pub fn new(slot: Slot<I>) -> (r: Self)
        ensures
            r.slot() == slot,
    {
        InjectInit(slot)
    }
}

impl<I: 'static> Inject<I> {
    /// The slot of the injectable.
    pub closed spec fn slot(&self) -> Slot<I> {
        self.0
    }

    /// Builds the runtime value from the initialization state: both refer to the same slot.
    pub fn from_init(init: InjectInit<I>) -> (r: Self)
        ensures
            r.slot() == init.slot(),
    {
        Inject(init.0)
    }

    /// Returns the injected injectable, once it was built: the value that its slot holds.
    pub fn get(&self) -> (r: Option<&'static I>)
        ensures
            r matches Some(x) ==> self.slot().content() == Some(*x),
    {
        self.0.get()
    }
}

impl<I: 'static> Clone for Inject<I> {
    fn clone(&self) -> (r: Self)
        ensures
            r.slot() == self.slot(),
    {
        Inject(self.0)
    }
}

impl<I: 'static> Copy for Inject<I> {
}

/// Guarantees initialization of an injectable before the initialization of the injectable that
/// holds it.
///
/// A slim wrapper around [`Inject`].
#[verifier::reject_recursive_types(I)]
pub struct Depend<I: 'static>(Inject<I>);

/// The initialization state of [`Depend`].
#[verifier::reject_recursive_types(I)]
pub struct DependInit<I: 'static>(InjectInit<I>);

impl<I: 'static> DependInit<I> {
    /// The initialization state of the wrapped [`Inject`].
    pub closed spec fn inject(&self) -> InjectInit<I> {
        self.0
    }

    /// Wraps the initialization state of an [`Inject`].
    pub fn new(inject: InjectInit<I>) -> (r: Self)
        ensures
            r.inject() == inject,
    {
        DependInit(inject)
    }
}

impl<I: 'static> Depend<I> {
    /// The wrapped [`Inject`].
    pub closed spec fn inject(&self) -> Inject<I> {
        self.0
    }

    /// Builds the runtime value from the initialization state.
    pub fn from_init(init: DependInit<I>) -> (r: Self)
        ensures
            r.inject().slot() == init.inject().slot(),
    {
        Depend(Inject::from_init(init.0))
    }

    /// Returns the injectable, once it was built: the value that its slot holds.
    pub fn get(&self) -> (r: Option<&'static I>)
        ensures
            r matches Some(x) ==> self.inject().slot().content() == Some(*x),
    {
        self.0.get()
    }
}

/// An initializable that is built by a build function; its runtime value is what the function
/// produced.
pub struct FromBuildFn<T>(pub T);

impl<T> std::ops::Deref for FromBuildFn<T> {
    type Target = T;

    fn deref(&self) -> (r: &T)
        ensures
            *r == self.0,
    {
        &self.0
    }
}

/// A value that is stored in the start data of an [`AppContainerBuilder`] once initialization is
/// over.
///
/// The value can then be taken out of the start data with
/// [`remove_from_start_data`](Self::remove_from_start_data). Only a single `StartValue` may ever
/// be initialized for a given `T`: a second one makes the build fail, because the start data
/// refuses a second value under the same key.
pub struct StartValue<T>(PhantomData<T>);

/// The key under which a [`StartValue<T>`] stores its value in the start data.
pub struct StartValueKey<T>(PhantomData<T>);

impl<T: DataValue> DataKey for StartValueKey<T> {
    type Value = T;
}

impl<T: DataValue> StartValue<T> {
    /// Stores the value of initialization in the start data of `builder`.
    ///
    /// # Errors
    ///
    /// Fails, and leaves the start data as it was, when the start data holds a value for `T`
    /// already.
    pub fn build_runtime_value<F>(init: T, builder: &mut AppContainerBuilder<F>) -> (r: Result<()>)
        ensures
            exists|k: TypeId| #[trigger]
                inserts_once(old(builder).start_entries(), final(builder).start_entries(), k, r is Ok),
            inserts_once(old(builder).start_entries(), final(builder).start_entries(), StartValueKey::<T>::key_id(), r is Ok),
            r is Ok ==> value_of::<StartValueKey<T>>(final(builder).start_entries()) == Some(init),
            r matches Err(e) ==> e.message() == "init result entry already present"@ && e.context()
                == Seq::<Seq<char>>::empty(),
            final(builder).app_entries() == old(builder).app_entries(),
            final(builder).start_fns() == old(builder).start_fns(),
    {
        builder.insert_start_data::<StartValueKey<T>>(init)
    }

    /// The runtime value, which holds nothing: the value went to the start data.
    pub fn from_runtime_value() -> (r: Self) {
        StartValue(PhantomData)
    }

    /// Removes the value that a `StartValue<T>` added to the start data. No other entry of the
    /// start data changes.
    pub fn remove_from_start_data(start_data: &mut Data) -> (r: Option<T>)
        ensures
            exists|k: TypeId| #[trigger] removes_entry(old(start_data)@, final(start_data)@, k, r is Some),
            final(start_data)@ == old(start_data)@.remove(StartValueKey::<T>::key_id()),
            r == value_of::<StartValueKey<T>>(old(start_data)@),
    {
        start_data.remove::<StartValueKey<T>>()
    }
}

impl<T> Clone for StartValue<T> {
    fn clone(&self) -> (r: Self) {
        StartValue(PhantomData)
    }
}

impl<T> Copy for StartValue<T> {
}

/// Iterator over the items stored in [`Initializables`], in the order in which they were added.
pub type InitializablesIter<'a, T> = std::slice::Iter<'a, T>;

/// Iterator over the entries stored in [`InitializablesMap`], in an unspecified order.
pub type InitializablesMapIter<'a, K, T> = hash_map::Iter<'a, K, T>;

/// Iterator over the injectables stored in [`Injectables`], in the order in which they were added.
pub type InjectablesIter<'a, T> = std::slice::Iter<'a, T>;

/// Collection of initializables, usually used for collecting objects implementing a trait.
pub struct Initializables<T>(Vec<T>);

impl<T> View for Initializables<T> {
    type V = Seq<T>;

    closed spec fn view(&self) -> Seq<T> {
        self.0@
    }
}

impl<T> Initializables<T> {
    /// The collection of the given values, in their order.
    pub fn new(values: Vec<T>) -> (r: Self)
        ensures
            r@ == values@,
    {
        Initializables(values)
    }

    /// The values of the collection, in the order in which they were added.
    pub fn as_slice(&self) -> (r: &[T])
        ensures
            r@ == self@,
    {
        self.0.as_slice()
    }

    /// Iterates over the values of the collection, in the order in which they were added.
    pub fn iter(&self) -> (r: InitializablesIter<'_, T>)
        ensures
            r.remaining() == self@.as_ref(),
    {
        self.0.as_slice().iter()
    }
}

/// Map of initializables, usually used for collecting objects implementing a trait under keys.
pub struct InitializablesMap<K, T>(HashMap<K, T>);

impl<K, T> View for InitializablesMap<K, T> {
    type V = Map<K, T>;

    closed spec fn view(&self) -> Map<K, T> {
        self.0@
    }
}

impl<K, T> InitializablesMap<K, T> {
    /// The map of the given values.
    pub fn new(values: HashMap<K, T>) -> (r: Self)
        ensures
            r@ == values@,
    {
        InitializablesMap(values)
    }

    /// Returns the value stored under `key`, if there is one. The key may be given in any form
    /// that the map's keys borrow as (a `&str` for `String` keys).
    ///
    /// The result is stated for key types whose `Eq` and `Hash` agree with equality of values
    /// (`obeys_key_model`), as for the primitive types.
    pub fn get<Q: ?Sized>(&self, key: &Q) -> (r: Option<&T>)
        where
            K: Eq + Hash + Borrow<Q>,
            Q: Hash + Eq,
        ensures
            obeys_key_model::<K>() ==> match r {
                Some(v) => maps_borrowed_key_to_value(self@, key, *v),
                None => !contains_borrowed_key(self@, key),
            },
    {
        broadcast use vstd::std_specs::hash::group_hash_axioms;
        self.0.get(key)
    }

    /// Iterates over the entries of the map, in an unspecified order: every entry comes exactly
    /// once, and nothing else does.
    ///
    /// This is stated for key types whose `Eq` and `Hash` agree with equality of values
    /// (`obeys_key_model`), as for the primitive types.
    pub fn iter(&self) -> (r: InitializablesMapIter<'_, K, T>)
        ensures
            obeys_key_model::<K>() ==> {
                &&& r.remaining().len() == self@.dom().len()
                &&& r.remaining().no_duplicates()
                &&& forall|i: int|
                    0 <= i < r.remaining().len() ==> #[trigger] self@.contains_key(*r.remaining()[i].0)
                        && self@[*r.remaining()[i].0] == *r.remaining()[i].1
                &&& forall|k: K| #[trigger] self@.contains_key(k) ==> r.remaining().contains((&k, &self@[k]))
            },
    {
        broadcast use vstd::std_specs::hash::group_hash_axioms;
        self.0.iter()
    }
}

/// Collection of injectables, usually used for collecting objects implementing a trait.
///
/// A convenient variant of [`Initializables`] that collects (references to) injectables.
pub struct Injectables<T>(Initializables<T>);

impl<T> View for Injectables<T> {
    type V = Seq<T>;

    closed spec fn view(&self) -> Seq<T> {
        self.0@
    }
}

impl<T> Injectables<T> {
    /// The collection of the given values, in their order.
    pub fn new(values: Vec<T>) -> (r: Self)
        ensures
            r@ == values@,
    {
        Injectables(Initializables::new(values))
    }

    /// Iterates over the values of the collection, in the order in which they were added.
    pub fn iter(&self) -> (r: InjectablesIter<'_, T>)
        ensures
            r.remaining() == self@.as_ref(),
    {
        self.0.iter()
    }
}

} // verus!
