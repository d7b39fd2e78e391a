//! The immutable runtime handle to the built injectables.
use vstd::prelude::*;
use crate::data::{DataKey, Value, value_of};
use crate::fxmap::sets_entry;
use crate::fxmap::no_entries;
use crate::Data;
use crate::builder::leak;
use std::any::TypeId;

verus! {

/// Data that is assembled during the build phase and is available from the [`Injector`].
///
/// Contains an entry for every injectable that was built.
pub type InjectablesData = Data;

/// Immutable handle to a set of injectables.
///
/// `Injector` is the central access point for dependency injection at runtime. It stores all
/// injectables that were constructed during the build phase; copies of it share them.
#[derive(Copy, Clone)]
pub struct Injector(&'static InjectablesData);

impl View for Injector {
    type V = Map<TypeId, Value>;

    closed spec fn view(&self) -> Map<TypeId, Value> {
        self.0@
    }
}

impl Injector {
    /// Creates an injector over the given injectables.
    pub fn new(data: &'static InjectablesData) -> (r: Self)
        ensures
            r@ == data@,
    {
        Injector(data)
    }

    /// Creates an [`Injector`] containing no injectables.
    pub fn empty() -> (r: Self)
        ensures
            r@ == no_entries::<Value>(),
    {
        Injector(leak(Box::new(Data::new())))
    }

    /// Returns the injectables of this injector.
    pub fn data(self) -> (r: &'static InjectablesData)
        ensures
            r@ == self@,
    {
        self.0
    }

    /// If present, retrieves the entry stored for key `K`.
    pub fn get_opt<K: DataKey>(self) -> (r: Option<&'static K::Value>)
        ensures
            r is Some ==> exists|k: TypeId| self@.contains_key(k),
            self@ == no_entries::<Value>() ==> r is None,
            match r {
                Some(v) => value_of::<K>(self@) == Some(*v),
                None => value_of::<K>(self@) is None,
            },
    {
        self.0.get::<K>()
    }
}

/// An injector reads the data it was made over: after [`Data::insert`] stored `x` for `K` in
/// `data`, the injector over `data` (an [`Injector::new`] over it) returns `x` from
/// [`Injector::get_opt`] for `K`, and `None` for a key type with another identity that `data` did
/// not hold.
pub proof fn law_injector_reads_its_data<K: DataKey, J: DataKey>(
    before: Map<TypeId, Value>,
    data: Map<TypeId, Value>,
    injector: Map<TypeId, Value>,
    x: K::Value,
    got: Option<K::Value>,
    other: Option<J::Value>,
)
    requires
        sets_entry(before, data, K::key_id()),
        value_of::<K>(data) == Some(x),
        injector == data,
        match got {
            Some(v) => value_of::<K>(injector) == Some(v),
            None => value_of::<K>(injector) is None,
        },
        J::key_id() != K::key_id(),
        !before.contains_key(J::key_id()),
        match other {
            Some(v) => value_of::<J>(injector) == Some(v),
            None => value_of::<J>(injector) is None,
        },
    ensures
        got == Some(x),
        other is None,
{
    assert(before.remove(K::key_id()).contains_key(J::key_id()) == before.contains_key(J::key_id()));
    assert(data.remove(K::key_id()).contains_key(J::key_id()) == data.contains_key(J::key_id()));
}

} // verus!
