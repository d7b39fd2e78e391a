//! The initialization phase: which injectables were initialized, which are waiting for it, and
//! the builder that collects them for the build phase.
use vstd::prelude::*;
use crate::builder::{InjectorBuilder, Slot, plan_consistent};
use crate::data::{DataKey, Value, value_of};
use crate::fxmap::{FxMap, fx_contains, fx_get, fx_insert, fx_new, fx_remove, fx_some_key, no_entries, sets_entry};
use crate::InitData;
use std::any::TypeId;

verus! {

/// How far the initialization of an injectable has come.
#[derive(PartialEq, Eq, Structural, Clone, Copy, Debug)]
pub enum InitStatus {
    /// The initialization data is being created.
    Initializing,
    /// The initialization data exists.
    Initialized,
}

/// What to do when the initialization state of an injectable is requested.
#[derive(PartialEq, Eq, Structural, Clone, Copy, Debug)]
pub enum InitStep {
    /// The injectable was never initialized: its initialization data must be created now, and
    /// then reported with [`InitInjector::finish_init`].
    Start,
    /// The initialization data exists already.
    AlreadyInitialized,
    /// The initialization of the injectable is still under way: the request is a recursive
    /// initialization.
    Recursive,
}

/// What a request for the initialization state of injectable `t` has to do, given the
/// initialization status of every injectable: start the initialization if it was never started,
/// nothing if it is done, and report a recursive initialization if it is under way.
pub open spec fn init_step(status: Map<TypeId, InitStatus>, t: TypeId) -> InitStep {
    if !status.contains_key(t) {
        InitStep::Start
    } else if status[t] == InitStatus::Initialized {
        InitStep::AlreadyInitialized
    } else {
        InitStep::Recursive
    }
}

/// `after` keeps every initialization that `before` had started, and every injectable that was
/// initialized in `before` stays initialized.
pub open spec fn status_progress(
    before: Map<TypeId, InitStatus>,
    after: Map<TypeId, InitStatus>,
) -> bool {
    forall|t: TypeId| #[trigger]
        before.contains_key(t) ==> after.contains_key(t) && (before[t] == InitStatus::Initialized
            ==> after[t] == InitStatus::Initialized)
}

/// Mutable container used during initialization.
///
/// `InitInjector` contains the _initialization state_ of the application. It records which
/// injectables were initialized, keeps the initializers (of type `P`) of injectables that were
/// referenced but not yet initialized, and owns the [`InjectorBuilder`] in which every
/// initialized injectable is enqueued for building.
pub struct InitInjector<P, B, S> {
    builder: InjectorBuilder<B, S>,
    initializers: FxMap<P>,
    status: FxMap<InitStatus>,
}

impl<P, B, S> InitInjector<P, B, S> {
    /// The initialization status of every injectable whose initialization was started.
    pub closed spec fn status(&self) -> Map<TypeId, InitStatus> {
        self.status@
    }

    /// The injectables that were referenced and wait for their initializer to run.
    pub closed spec fn pending(&self) -> Set<TypeId> {
        self.initializers@.dom()
    }

    /// The initializers of the pending injectables.
    pub closed spec fn initializers(&self) -> Map<TypeId, P> {
        self.initializers@
    }

    /// The builder that collects the injectables for the build phase.
    pub closed spec fn builder(&self) -> InjectorBuilder<B, S> {
        self.builder
    }

    /// The state is consistent: the build bookkeeping is consistent, every enqueued injectable
    /// either waits for its initializer or had its initialization started, and every initialized
    /// injectable is enqueued for building.
    pub open spec fn wf(&self) -> bool {
        &&& self.builder().wf()
        &&& forall|t: TypeId| #[trigger]
            self.builder().enqueued().contains(t) ==> self.pending().contains(t)
                || self.status().contains_key(t)
        &&& forall|t: TypeId| #[trigger]
            self.status().contains_key(t) && self.status()[t] == InitStatus::Initialized
                ==> self.builder().enqueued().contains(t)
    }

    /// Creates an initialization state in which nothing was initialized or referenced.
    pub fn new() -> (r: Self)
        ensures
            r.wf(),
            r.status() == no_entries::<InitStatus>(),
            r.pending() == Set::<TypeId>::empty(),
            r.builder().enqueued() == Set::<TypeId>::empty(),
            r.builder().init_entries() == no_entries::<Value>(),
            r.builder().start_hooks() == Seq::<S>::empty(),
    {
        InitInjector { builder: InjectorBuilder::new(), initializers: fx_new(), status: fx_new() }
    }

    /// Returns mutable access to the underlying [`InitData`].
    ///
    /// This is primarily intended for low-level access in injectable implementations or to
    /// insert external data at application startup.
    pub fn data_mut(&mut self) -> (r: &mut InitData)
        ensures
            r@ == old(self).builder().init_entries(),
            final(self).builder().init_entries() == final(r)@,
            final(self).builder().same_plan(old(self).builder()),
            final(self).builder().slot_entries() == old(self).builder().slot_entries(),
            final(self).builder().start_hooks() == old(self).builder().start_hooks(),
            final(self).status() == old(self).status(),
            final(self).initializers() == old(self).initializers(),
    {
        self.builder.init_data_mut()
    }

    /// Returns access to the underlying [`InitData`].
    pub fn data(&self) -> (r: &InitData)
        ensures
            r@ == self.builder().init_entries(),
    {
        self.builder.init_data()
    }

    /// Returns the slots of the enqueued injectables.
    pub fn slots_mut(&mut self) -> (r: &mut crate::Data)
        ensures
            r@ == old(self).builder().slot_entries(),
            final(self).builder().slot_entries() == final(r)@,
            final(self).builder().same_plan(old(self).builder()),
            final(self).builder().init_entries() == old(self).builder().init_entries(),
            final(self).builder().start_hooks() == old(self).builder().start_hooks(),
            final(self).status() == old(self).status(),
            final(self).initializers() == old(self).initializers(),
    {
        self.builder.slots_mut()
    }

    /// Returns the slot stored under key `K`, after storing a new, empty one there if there was
    /// none (see [`InjectorBuilder::slot`]).
    pub fn slot<T: Send + Sync + 'static, K: DataKey<Value = Slot<T>>>(&mut self) -> (r: Option<Slot<T>>)
        ensures
            exists|k: TypeId| #[trigger]
                sets_entry(old(self).builder().slot_entries(), final(self).builder().slot_entries(), k),
            sets_entry(old(self).builder().slot_entries(), final(self).builder().slot_entries(), K::key_id()),
            r matches Some(slot) ==> value_of::<K>(final(self).builder().slot_entries()) == Some(slot),
            value_of::<K>(old(self).builder().slot_entries()) matches Some(slot) ==> r == Some(slot),
            final(self).builder().same_plan(old(self).builder()),
            final(self).builder().init_entries() == old(self).builder().init_entries(),
            final(self).builder().start_hooks() == old(self).builder().start_hooks(),
            final(self).status() == old(self).status(),
            final(self).initializers() == old(self).initializers(),
    {
        let r = self.builder.slot::<T, K>();
        proof {
            let k = choose|k: TypeId|
                #[trigger] sets_entry(old(self).builder().slot_entries(), self.builder.slot_entries(), k);
            assert(sets_entry(old(self).builder().slot_entries(), self.builder().slot_entries(), k));
        }
        r
    }

    /// Registers a hook that is executed right after the injector was constructed.
    ///
    /// Note that there is no guarantee on the order in which the hooks are executed.
    pub fn on_start(&mut self, on_start: S)
        ensures
            final(self).builder().start_hooks() == old(self).builder().start_hooks().push(on_start),
            final(self).builder().same_plan(old(self).builder()),
            final(self).builder().init_entries() == old(self).builder().init_entries(),
            final(self).builder().slot_entries() == old(self).builder().slot_entries(),
            final(self).status() == old(self).status(),
            final(self).initializers() == old(self).initializers(),
    {
        self.builder.on_start(on_start);
    }

    /// Returns how far the initialization of injectable `t` has come, or `None` if it was never
    /// started.
    pub fn status_of(&self, t: &TypeId) -> (r: Option<InitStatus>)
        ensures
            match r {
                Some(s) => self.status().contains_key(*t) && self.status()[*t] == s,
                None => !self.status().contains_key(*t),
            },
    {
        match fx_get(&self.status, t) {
            Some(s) => Some(*s),
            None => None,
        }
    }

    /// Decides what a request for the initialization state of injectable `t` has to do.
    ///
    /// Only a request for an injectable whose initialization was never started (or was aborted
    /// with [`abort_init`](Self::abort_init) after it failed) gets [`InitStep::Start`], and it
    /// marks the injectable as initializing.
    pub fn begin_init(&mut self, t: TypeId) -> (r: InitStep)
        requires
            old(self).wf(),
        ensures
            final(self).wf(),
            r == init_step(old(self).status(), t),
            final(self).status() == (if r == InitStep::Start {
                old(self).status().insert(t, InitStatus::Initializing)
            } else {
                old(self).status()
            }),
            status_progress(old(self).status(), final(self).status()),
            final(self).builder() == old(self).builder(),
            final(self).initializers() == old(self).initializers(),
    {
        self.step_for(t)
    }

    /// The decision of [`begin_init`](Self::begin_init), on the status alone.
    fn step_for(&mut self, t: TypeId) -> (r: InitStep)
        ensures
            r == init_step(old(self).status(), t),
            final(self).status() == (if r == InitStep::Start {
                old(self).status().insert(t, InitStatus::Initializing)
            } else {
                old(self).status()
            }),
            final(self).builder() == old(self).builder(),
            final(self).initializers() == old(self).initializers(),
    {
        match fx_get(&self.status, &t) {
            Some(InitStatus::Initialized) => InitStep::AlreadyInitialized,
            Some(InitStatus::Initializing) => InitStep::Recursive,
            None => {
                fx_insert(&mut self.status, t, InitStatus::Initializing);
                InitStep::Start
            },
        }
    }

    /// Records that the initialization of injectable `t` failed: `t` is no longer initializing,
    /// so that a later request for it starts its initialization again.
    ///
    /// If `t` is enqueued for building and waits for no initializer, `initializer` becomes its
    /// initializer, so that it is initialized before the build phase.
    pub fn abort_init(&mut self, t: TypeId, initializer: P)
        requires
            old(self).wf(),
            old(self).status().contains_key(t),
            old(self).status()[t] == InitStatus::Initializing,
        ensures
            final(self).wf(),
            final(self).status() == old(self).status().remove(t),
            final(self).initializers() == (if old(self).builder().enqueued().contains(t)
                && !old(self).pending().contains(t) {
                old(self).initializers().insert(t, initializer)
            } else {
                old(self).initializers()
            }),
            final(self).builder() == old(self).builder(),
    {
        fx_remove(&mut self.status, &t);
        if self.builder.is_enqueued(&t) && !fx_contains(&self.initializers, &t) {
            fx_insert(&mut self.initializers, t, initializer);
        }
        proof {
            assert forall|u: TypeId| #[trigger]
                self.builder().enqueued().contains(u) implies self.pending().contains(u)
                    || self.status().contains_key(u) by {
                if u != t {
                    assert(old(self).pending().contains(u) ==> self.pending().contains(u));
                }
            }
        }
    }

    /// Records that the initialization data of injectable `t` was created, and enqueues `t` to be
    /// built with `builder`.
    ///
    /// Returns whether `t` was newly enqueued.
    pub fn finish_init(&mut self, t: TypeId, builder: B) -> (r: bool)
        requires
            old(self).wf(),
            old(self).status().contains_key(t),
            old(self).status()[t] == InitStatus::Initializing,
        ensures
            final(self).wf(),
            final(self).status() == old(self).status().insert(t, InitStatus::Initialized),
            status_progress(old(self).status(), final(self).status()),
            final(self).builder().enqueued().contains(t),
            r == !old(self).builder().enqueued().contains(t),
            r ==> final(self).builder().queue() == old(self).builder().queue().push(t)
                && final(self).builder().builders() == old(self).builder().builders().push(builder),
            !r ==> final(self).builder().same_plan(old(self).builder()),
            final(self).builder().enqueued() == old(self).builder().enqueued().insert(t),
            final(self).builder().built() == old(self).builder().built(),
            final(self).builder().init_entries() == old(self).builder().init_entries(),
            final(self).initializers() == old(self).initializers(),
    {
        fx_insert(&mut self.status, t, InitStatus::Initialized);
        let r = self.builder.enqueue(t, builder);
        proof {
            if !r {
                assert(final(self).builder().enqueued() =~= old(self).builder().enqueued().insert(t));
            }
        }
        r
    }

    /// Registers injectable `t` with its `initializer`, unless it has one already, and enqueues
    /// it to be built with `builder`, unless it was enqueued before.
    ///
    /// The initializer runs before the build phase (see
    /// [`next_initializer`](Self::next_initializer)). Returns whether `t` was newly enqueued.
    pub fn register(&mut self, t: TypeId, initializer: P, builder: B) -> (r: bool)
        requires
            old(self).wf(),
        ensures
            final(self).wf(),
            final(self).initializers() == (if old(self).pending().contains(t) {
                old(self).initializers()
            } else {
                old(self).initializers().insert(t, initializer)
            }),
            final(self).status() == old(self).status(),
            r == !old(self).builder().enqueued().contains(t),
            r ==> final(self).builder().queue() == old(self).builder().queue().push(t)
                && final(self).builder().builders() == old(self).builder().builders().push(builder),
            !r ==> final(self).builder().same_plan(old(self).builder()),
            final(self).builder().enqueued() == old(self).builder().enqueued().insert(t),
            final(self).builder().built() == old(self).builder().built(),
            final(self).builder().init_entries() == old(self).builder().init_entries(),
    {
        if !fx_contains(&self.initializers, &t) {
            fx_insert(&mut self.initializers, t, initializer);
        }
        let r = self.builder.enqueue(t, builder);
        proof {
            if !r {
                assert(final(self).builder().enqueued() =~= old(self).builder().enqueued().insert(t));
            }
        }
        r
    }

    /// Takes a pending injectable and its initializer, and decides (as
    /// [`begin_init`](Self::begin_init)) what its initialization has to do. Returns `None` when
    /// no injectable is pending.
    ///
    /// Which pending injectable comes first is left open.
    pub fn next_initializer(&mut self) -> (r: Option<(TypeId, P, InitStep)>)
        requires
            old(self).wf(),
        ensures
            final(self).wf(),
            match r {
                Some((t, p, step)) => {
                    &&& old(self).pending().contains(t)
                    &&& p == old(self).initializers()[t]
                    &&& final(self).initializers() == old(self).initializers().remove(t)
                    &&& step == init_step(old(self).status(), t)
                    &&& final(self).status() == (if step == InitStep::Start {
                        old(self).status().insert(t, InitStatus::Initializing)
                    } else {
                        old(self).status()
                    })
                },
                None => old(self).pending() == Set::<TypeId>::empty() && final(self).status()
                    == old(self).status() && final(self).initializers() == old(self).initializers(),
            },
            status_progress(old(self).status(), final(self).status()),
            final(self).builder() == old(self).builder(),
    {
        match fx_some_key(&self.initializers) {
            None => None,
            Some(t) => {
                let p = fx_remove(&mut self.initializers, &t).unwrap();
                let step = self.step_for(t);
                proof {
                    assert forall|u: TypeId| #[trigger]
                        self.builder().enqueued().contains(u) implies self.pending().contains(u)
                            || self.status().contains_key(u) by {
                        if u != t {
                            assert(old(self).pending().contains(u) ==> self.pending().contains(u));
                        }
                    }
                }
                Some((t, p, step))
            },
        }
    }

    /// Ends the initialization phase, handing out the builder for the build phase.
    pub fn into_builder(self) -> (r: InjectorBuilder<B, S>)
        ensures
            r == self.builder(),
    {
        self.builder
    }
}

/// The progress of initialization only ever moves forward: what two steps keep, their sequence
/// keeps.
pub proof fn law_status_progress_transitive(
    a: Map<TypeId, InitStatus>,
    b: Map<TypeId, InitStatus>,
    c: Map<TypeId, InitStatus>,
)
    requires
        status_progress(a, b),
        status_progress(b, c),
    ensures
        status_progress(a, c),
{
}

/// Once the initialization of an injectable was started, no state that follows by steps that
/// keep [`status_progress`] (every operation but [`InitInjector::abort_init`]) lets it start
/// again: a request for it never gets [`InitStep::Start`].
pub proof fn law_initialization_starts_once(
    before: Map<TypeId, InitStatus>,
    after: Map<TypeId, InitStatus>,
    t: TypeId,
)
    requires
        before.contains_key(t),
        status_progress(before, after),
    ensures
        after.contains_key(t),
        init_step(after, t) != InitStep::Start,
{
}

/// Once an injectable was initialized, every later request for it gets
/// [`InitStep::AlreadyInitialized`].
pub proof fn law_initialized_stays_initialized(
    before: Map<TypeId, InitStatus>,
    after: Map<TypeId, InitStatus>,
    t: TypeId,
)
    requires
        init_step(before, t) == InitStep::AlreadyInitialized,
        status_progress(before, after),
    ensures
        init_step(after, t) == InitStep::AlreadyInitialized,
{
}

/// While the initialization data of an injectable is being created (after
/// [`InitStep::Start`] and before [`InitInjector::finish_init`]), a request for it is a recursive
/// initialization; once it was finished, a request gets [`InitStep::AlreadyInitialized`].
pub proof fn law_start_then_finish(status: Map<TypeId, InitStatus>, t: TypeId)
    requires
        init_step(status, t) == InitStep::Start,
    ensures
        init_step(status.insert(t, InitStatus::Initializing), t) == InitStep::Recursive,
        init_step(
            status.insert(t, InitStatus::Initializing).insert(t, InitStatus::Initialized),
            t,
        ) == InitStep::AlreadyInitialized,
{
}

/// After the initialization of an injectable failed and was aborted, a request for it starts
/// its initialization again.
pub proof fn law_abort_restarts(status: Map<TypeId, InitStatus>, t: TypeId)
    requires
        status.contains_key(t),
        status[t] == InitStatus::Initializing,
    ensures
        init_step(status.remove(t), t) == InitStep::Start,
{
}

/// When no injectable waits for its initializer, every enqueued injectable had its
/// initialization started.
pub proof fn law_no_pending_means_started<P, B, S>(injector: InitInjector<P, B, S>)
    requires
        injector.wf(),
        injector.pending() == Set::<TypeId>::empty(),
    ensures
        forall|t: TypeId| #[trigger]
            injector.builder().enqueued().contains(t) ==> injector.status().contains_key(t),
{
    assert forall|t: TypeId| #[trigger]
        injector.builder().enqueued().contains(t) implies injector.status().contains_key(t) by {
        assert(!injector.pending().contains(t));
    }
}

/// Every initialized injectable is built: once the build queue is empty, each injectable that
/// was initialized has been taken out to be built (and, by [`InjectorBuilder::next_to_build`],
/// only once).
pub proof fn law_initialized_are_built(
    status: Map<TypeId, InitStatus>,
    enqueued: Set<TypeId>,
    queue: Seq<TypeId>,
    built: Set<TypeId>,
)
    requires
        forall|t: TypeId| #[trigger]
            status.contains_key(t) && status[t] == InitStatus::Initialized ==> enqueued.contains(t),
        plan_consistent(enqueued, queue, built),
        queue.len() == 0,
    ensures
        forall|t: TypeId| #[trigger]
            status.contains_key(t) && status[t] == InitStatus::Initialized ==> built.contains(t),
{
    crate::builder::law_build_completes(enqueued, queue, built);
}

} // verus!
