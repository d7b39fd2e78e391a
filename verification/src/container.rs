//! Application containers: an immutable handle to application-wide runtime data, the builder
//! that assembles it, and short-lived scopes on top of it.
use vstd::prelude::*;
use crate::builder::leak;
use crate::data::{DataEntry, DataKey, Value, value_of};
use crate::fxmap::sets_entry;
use vstd::std_specs::hash::{OccupiedEntrySpecFns, VacantEntrySpecFns};
use crate::fxmap::no_entries;
use crate::{Data, Error, InitData, Result};
use std::any::TypeId;

verus! {

/// Data that is available at runtime through an [`AppContainer`].
pub type RuntimeData = Data;

/// Data that is handed to the start functions when an [`AppContainer`] is built.
pub type BuildData = Data;

/// Data that lives in a single [`ScopeContainer`].
pub type ScopeData = Data;

/// Immutable handle to application-wide runtime data.
///
/// `AppContainer` is the central access point for dependency injection during the runtime phase.
/// It is a thin wrapper around a `&'static` [`RuntimeData`] instance constructed during
/// initialization; copies of it share that data.
#[derive(Copy, Clone)]
pub struct AppContainer(&'static RuntimeData);

impl View for AppContainer {
    type V = Map<TypeId, Value>;

    closed spec fn view(&self) -> Map<TypeId, Value> {
        self.0@
    }
}

impl AppContainer {
    /// Creates an [`AppContainer`] with no data.
    pub fn empty() -> (r: Self)
        ensures
            r@ == no_entries::<Value>(),
    {
        AppContainer(leak(Box::new(Data::new())))
    }

    /// Creates an [`AppContainer`] over the given runtime data.
    pub fn new(data: &'static RuntimeData) -> (r: Self)
        ensures
            r@ == data@,
    {
        AppContainer(data)
    }

    /// Returns the underlying [`RuntimeData`] storage.
    ///
    /// This is primarily intended for low-level access.
    pub fn data(self) -> (r: &'static RuntimeData)
        ensures
            r@ == self@,
    {
        self.0
    }
}

/// An insertion for key `k` that is refused when `k` has a value already: it succeeds (`ok`)
/// exactly when `before` has no value for `k`; it then sets the entry of `k` and no other, and
/// otherwise leaves the data as it was.
pub open spec fn inserts_once(
    before: Map<TypeId, Value>,
    after: Map<TypeId, Value>,
    k: TypeId,
    ok: bool,
) -> bool {
    &&& ok <==> !before.contains_key(k)
    &&& ok ==> sets_entry(before, after, k)
    &&& !ok ==> after == before
}

/// A key takes a value once: after an insertion for `k` succeeded, a second insertion for `k`
/// is refused and leaves the data as it was.
pub proof fn law_insert_once_refuses_second(
    first: Map<TypeId, Value>,
    second: Map<TypeId, Value>,
    third: Map<TypeId, Value>,
    k: TypeId,
    ok: bool,
)
    requires
        inserts_once(first, second, k, true),
        inserts_once(second, third, k, ok),
    ensures
        !ok,
        third == second,
        second.contains_key(k),
{
}

/// Utility for constructing the final [`AppContainer`] during initialization.
///
/// The builder separates data into two categories: _app data_ becomes part of the final
/// [`AppContainer`], while _start data_ is passed to the registered _start functions_ (of type
/// `F`) on final assembly.
pub struct AppContainerBuilder<F> {
    app_data: RuntimeData,
    start_data: BuildData,
    start_fns: Vec<F>,
}

impl<F> AppContainerBuilder<F> {
    /// The data that becomes part of the final [`AppContainer`].
    pub closed spec fn app_entries(&self) -> Map<TypeId, Value> {
        self.app_data@
    }

    /// The data that is handed to the start functions.
    pub closed spec fn start_entries(&self) -> Map<TypeId, Value> {
        self.start_data@
    }

    /// The registered start functions, in the order of registration.
    pub closed spec fn start_fns(&self) -> Seq<F> {
        self.start_fns@
    }

    /// Creates a builder without data and start functions.
    pub fn new() -> (r: Self)
        ensures
            r.app_entries() == no_entries::<Value>(),
            r.start_entries() == no_entries::<Value>(),
            r.start_fns() == Seq::<F>::empty(),
    {
        AppContainerBuilder { app_data: Data::new(), start_data: Data::new(), start_fns: Vec::new() }
    }

    /// Inserts a value into the final [`AppContainer`].
    ///
    /// Returns an error if a value for this key has already been inserted; the data is then left
    /// unchanged.
    pub fn insert_app_data<K: DataKey>(&mut self, value: K::Value) -> (r: Result<()>)
        ensures
            exists|k: TypeId| #[trigger]
                inserts_once(old(self).app_entries(), final(self).app_entries(), k, r is Ok),
            inserts_once(old(self).app_entries(), final(self).app_entries(), K::key_id(), r is Ok),
            r is Ok ==> value_of::<K>(final(self).app_entries()) == Some(value),
            r matches Err(e) ==> e.message() == "app data entry already present"@ && e.context()
                == Seq::<Seq<char>>::empty(),
            final(self).start_entries() == old(self).start_entries(),
            final(self).start_fns() == old(self).start_fns(),
    {
        let ghost before = self.app_data@;
        let ghost mut k: TypeId;
        let r = match self.app_data.entry::<K>() {
            DataEntry::Vacant(entry) => {
                proof {
                    k = entry.inner().spec_key();
                }
                entry.insert(value);
                Ok(())
            },
            DataEntry::Occupied(entry) => {
                proof {
                    k = entry.inner().spec_key();
                }
                entry.keep();
                Err(Error::msg("app data entry already present"))
            },
        };
        proof {
            assert(r is Err <==> before.contains_key(k));
            if r is Ok {
                assert(sets_entry(before, self.app_data@, k));
            } else {
                assert(self.app_data@ =~= before);
            }
            assert(inserts_once(before, self.app_data@, k, r is Ok));
            assert(inserts_once(old(self).app_entries(), self.app_entries(), k, r is Ok));
        }
        r
    }

    /// Inserts a value into the start data, which is handed to the start functions on build.
    ///
    /// Returns an error if a value for this key has already been inserted; the data is then left
    /// unchanged.
    pub fn insert_start_data<K: DataKey>(&mut self, value: K::Value) -> (r: Result<()>)
        ensures
            exists|k: TypeId| #[trigger]
                inserts_once(old(self).start_entries(), final(self).start_entries(), k, r is Ok),
            inserts_once(old(self).start_entries(), final(self).start_entries(), K::key_id(), r is Ok),
            r is Ok ==> value_of::<K>(final(self).start_entries()) == Some(value),
            r matches Err(e) ==> e.message() == "init result entry already present"@ && e.context()
                == Seq::<Seq<char>>::empty(),
            final(self).app_entries() == old(self).app_entries(),
            final(self).start_fns() == old(self).start_fns(),
    {
        let ghost before = self.start_data@;
        let ghost mut k: TypeId;
        let r = match self.start_data.entry::<K>() {
            DataEntry::Vacant(entry) => {
                proof {
                    k = entry.inner().spec_key();
                }
                entry.insert(value);
                Ok(())
            },
            DataEntry::Occupied(entry) => {
                proof {
                    k = entry.inner().spec_key();
                }
                entry.keep();
                Err(Error::msg("init result entry already present"))
            },
        };
        proof {
            assert(r is Err <==> before.contains_key(k));
            if r is Ok {
                assert(sets_entry(before, self.start_data@, k));
            } else {
                assert(self.start_data@ =~= before);
            }
            assert(inserts_once(before, self.start_data@, k, r is Ok));
            assert(inserts_once(old(self).start_entries(), self.start_entries(), k, r is Ok));
        }
        r
    }

    /// Adds a start function to be executed when the container is built.
    pub fn add_async_start_fn(&mut self, func: F)
        ensures
            final(self).start_fns() == old(self).start_fns().push(func),
            final(self).app_entries() == old(self).app_entries(),
            final(self).start_entries() == old(self).start_entries(),
    {
        self.start_fns.push(func);
    }

    /// Takes the builder apart for the final assembly: the app data, the start data and the
    /// start functions.
    pub fn into_parts(self) -> (r: (RuntimeData, BuildData, Vec<F>))
        ensures
            r.0@ == self.app_entries(),
            r.1@ == self.start_entries(),
            r.2@ == self.start_fns(),
    {
        (self.app_data, self.start_data, self.start_fns)
    }
}

/// A type that can be retrieved from a [`ScopeContainer`].
pub trait ScopeInjectable<'a>: Sized {
    /// The error returned when the value cannot be retrieved.
    type Error;

    /// Retrieves the value from the scope.
    fn get(container: &'a mut ScopeContainer) -> core::result::Result<Self, Self::Error>;
}

/// Container supplementing an [`AppContainer`] with additional, short-lived data.
///
/// `ScopeContainer` extends [`AppContainer`] with a mutable, scope-local [`ScopeData`] store. It
/// is intended for per-request / per-task state while still providing access to global
/// application data.
pub struct ScopeContainer {
    app: AppContainer,
    data: ScopeData,
}

impl ScopeContainer {
    /// The application container of this scope.
    pub closed spec fn app_container(&self) -> AppContainer {
        self.app
    }

    /// The scope-local data.
    pub closed spec fn scope_entries(&self) -> Map<TypeId, Value> {
        self.data@
    }

    /// Creates a new scope from the given [`AppContainer`].
    pub fn new(container: AppContainer) -> (r: Self)
        ensures
            r.app_container() == container,
            r.scope_entries() == no_entries::<Value>(),
    {
        ScopeContainer { app: container, data: Data::new() }
    }

    /// Returns the underlying [`AppContainer`].
    pub fn app(&self) -> (r: AppContainer)
        ensures
            r == self.app_container(),
    {
        self.app
    }

    /// Returns mutable access to the [`ScopeData`].
    pub fn scope_data_mut(&mut self) -> (r: &mut ScopeData)
        ensures
            r@ == old(self).scope_entries(),
            final(self).scope_entries() == final(r)@,
            final(self).app_container() == old(self).app_container(),
    {
        &mut self.data
    }

    /// Returns shared access to the [`ScopeData`].
    pub fn scope_data(&self) -> (r: &ScopeData)
        ensures
            r@ == self.scope_entries(),
    {
        &self.data
    }

    /// Retrieves a [`ScopeInjectable`] from this scope.
    ///
    /// This is the primary way to access scoped dependencies.
    pub fn get<'a, I: ScopeInjectable<'a>>(&'a mut self) -> core::result::Result<I, I::Error> {
        I::get(self)
    }
}

/// Mutable application container used during initialization.
///
/// `InitAppContainer` contains the _initialization state_ of the application: the
/// initialization data, and the build hooks (of type `H`) that transform it into runtime data
/// when the container is built.
pub struct InitAppContainer<H> {
    data: InitData,
    on_build: Vec<H>,
}

impl<H> InitAppContainer<H> {
    /// The initialization data.
    pub closed spec fn init_entries(&self) -> Map<TypeId, Value> {
        self.data@
    }

    /// The registered build hooks, in the order of registration.
    pub closed spec fn build_hooks(&self) -> Seq<H> {
        self.on_build@
    }

    /// Creates a container without data and build hooks.
    pub fn new() -> (r: Self)
        ensures
            r.init_entries() == no_entries::<Value>(),
            r.build_hooks() == Seq::<H>::empty(),
    {
        InitAppContainer { data: Data::new(), on_build: Vec::new() }
    }

    /// Returns mutable access to the underlying initialization [`InitData`].
    ///
    /// This is primarily intended for low-level access or to insert external data at
    /// application startup.
    pub fn data_mut(&mut self) -> (r: &mut InitData)
        ensures
            r@ == old(self).init_entries(),
            final(self).init_entries() == final(r)@,
            final(self).build_hooks() == old(self).build_hooks(),
    {
        &mut self.data
    }

    /// Registers an asynchronous build hook.
    ///
    /// Build hooks are executed, in the order of registration, when the container is built and
    /// are responsible for transforming initialization data into runtime data.
    pub fn on_build_async(&mut self, hook: H)
        ensures
            final(self).build_hooks() == old(self).build_hooks().push(hook),
            final(self).init_entries() == old(self).init_entries(),
    {
        self.on_build.push(hook);
    }

    /// Takes the container apart to build it: the initialization data and the build hooks.
    pub fn into_parts(self) -> (r: (InitData, Vec<H>))
        ensures
            r.0@ == self.init_entries(),
            r.1@ == self.build_hooks(),
    {
        (self.data, self.on_build)
    }
}

} // verus!
