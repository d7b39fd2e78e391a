//! The build phase: the queue of injectables to build and the write-once slots that hold them.
use vstd::prelude::*;
use crate::data::{Data, DataKey, Value, value_of};
use crate::fxmap::{FxMap, fx_contains, fx_insert, fx_new, no_entries, sets_entry};
use crate::InitData;
use std::any::TypeId;
use std::sync::OnceLock;

verus! {

/// A write-once cell of the standard library.
#[verifier::external_type_specification]
#[verifier::external_body]
#[verifier::reject_recursive_types(T)]
pub struct ExOnceLock<T>(OnceLock<T>);

/// The value that the write-once cell `cell` holds from its first successful `set` on, for the
/// rest of the program; `None` for a cell that is never set.
pub open spec fn once_content<T>(cell: OnceLock<T>) -> Option<T> {
    arbitrary::<spec_fn(OnceLock<T>) -> Option<T>>()(cell)
}

/// `OnceLock::new`: an empty cell.
#[verifier::external_body]
fn once_lock_new<T>() -> (r: OnceLock<T>) {
    OnceLock::new()
}

/// `Box::leak`: the boxed value, borrowed for the rest of the program.
#[verifier::external_body]
pub(crate) fn leak<T>(b: Box<T>) -> (r: &'static T)
    ensures
        *r == *b,
{
    Box::leak(b)
}

/// `OnceLock::set`: stores `value` if the cell is empty, which it then holds for good; a refused
/// value is handed back unchanged, and the cell keeps the value it was set to before. Whether
/// the cell was empty depends on earlier calls through any reference to it, so which of the two
/// happens is not stated.
#[verifier::external_body]
fn once_lock_set<T>(cell: &OnceLock<T>, value: T) -> (r: core::result::Result<(), T>)
    ensures
        r is Ok ==> once_content(*cell) == Some(value),
        r matches Err(v) ==> v == value && once_content(*cell) is Some,
{
    cell.set(value)
}

/// `OnceLock::get`: the stored value, if the cell was set. Whether it was set yet depends on
/// earlier calls through any reference to it, so a `None` is not excluded; a value returned is
/// the one the cell holds.
#[verifier::external_body]
fn once_lock_get<T>(cell: &'static OnceLock<T>) -> (r: Option<&'static T>)
    ensures
        r matches Some(x) ==> once_content(*cell) == Some(*x),
{
    cell.get()
}

/// A leaked write-once memory location.
///
/// Copies of a slot share the same location. [`content`](Self::content) is the value that the
/// location holds from its first successful [`set`](Self::set) on; whether that write has
/// happened yet at a given call is not part of the contracts.
#[verifier::reject_recursive_types(T)]
pub struct Slot<T: 'static>(&'static OnceLock<T>);

impl<T: 'static> Clone for Slot<T> {
    fn clone(&self) -> (r: Self)
        ensures
            r == *self,
    {
        Slot(self.0)
    }
}

impl<T: 'static> Copy for Slot<T> {
}

impl<T: 'static> Slot<T> {
    /// The value that this slot (and every copy of it) holds once it was set.
    pub closed spec fn content(self) -> Option<T> {
        once_content(*self.0)
    }

    /// Creates a new, empty slot.
    pub fn uninit() -> (r: Self) {
        Slot(leak(Box::new(once_lock_new())))
    }

    /// Stores `value` in this slot.
    ///
    /// A slot is written at most once: if it was set before, the value is handed back in `Err`.
    pub fn set(self, value: T) -> (r: core::result::Result<(), T>)
        ensures
            r is Ok ==> self.content() == Some(value),
            r matches Err(v) ==> v == value && self.content() is Some,
    {
        once_lock_set(self.0, value)
    }

    /// Returns the value stored in this slot, if it was set.
    pub fn get(self) -> (r: Option<&'static T>)
        ensures
            r matches Some(x) ==> self.content() == Some(*x),
    {
        once_lock_get(self.0)
    }
}

/// The bookkeeping of a build is consistent: the queue holds no id twice, every queued id was
/// enqueued and not yet built, and every enqueued id is either queued or built.
pub open spec fn plan_consistent(
    enqueued: Set<TypeId>,
    queue: Seq<TypeId>,
    built: Set<TypeId>,
) -> bool {
    &&& queue.no_duplicates()
    &&& forall|i: int|
        0 <= i < queue.len() ==> enqueued.contains(#[trigger] queue[i]) && !built.contains(queue[i])
    &&& forall|t: TypeId| #[trigger] enqueued.contains(t) ==> queue.contains(t) || built.contains(t)
    &&& forall|t: TypeId| #[trigger] built.contains(t) ==> enqueued.contains(t)
}

/// Manages the state of the build phase.
///
/// `InjectorBuilder` is used during the _build phase_ to assemble the injector from
/// initialization data. Every injectable is enqueued for building at most once; each enqueued
/// injectable carries a builder of type `B` until it is taken out to be built. Start hooks of
/// type `S` are collected to run once the injector exists.
pub struct InjectorBuilder<B, S> {
    init_data: InitData,
    slots: Data,
    enqueued: FxMap<()>,
    builders: Vec<(TypeId, B)>,
    built: FxMap<()>,
    on_start: Vec<S>,
}

impl<B, S> InjectorBuilder<B, S> {
    /// The injectables that were enqueued for building.
    pub closed spec fn enqueued(&self) -> Set<TypeId> {
        self.enqueued@.dom()
    }

    /// The injectables waiting to be built, in the order in which they were enqueued; the last
    /// one is built next.
    pub closed spec fn queue(&self) -> Seq<TypeId> {
        self.builders@.map_values(|e: (TypeId, B)| e.0)
    }

    /// The builders waiting to be run, in the order of [`queue`](Self::queue).
    pub closed spec fn builders(&self) -> Seq<B> {
        self.builders@.map_values(|e: (TypeId, B)| e.1)
    }

    /// The injectables that were taken out of the queue to be built.
    pub closed spec fn built(&self) -> Set<TypeId> {
        self.built@.dom()
    }

    /// The current initialization data.
    pub closed spec fn init_entries(&self) -> Map<TypeId, Value> {
        self.init_data@
    }

    /// The slots of the enqueued injectables.
    pub closed spec fn slot_entries(&self) -> Map<TypeId, Value> {
        self.slots@
    }

    /// The registered start hooks, in the order of registration.
    pub closed spec fn start_hooks(&self) -> Seq<S> {
        self.on_start@
    }

    /// `self` and `other` have the same enqueued, queued and built injectables and the same
    /// builders.
    pub open spec fn same_plan(&self, other: Self) -> bool {
        &&& self.enqueued() == other.enqueued()
        &&& self.queue() == other.queue()
        &&& self.builders() == other.builders()
        &&& self.built() == other.built()
    }

    /// The bookkeeping of this builder is consistent.
    pub open spec fn wf(&self) -> bool {
        plan_consistent(self.enqueued(), self.queue(), self.built())
    }

    /// Creates a builder with no data, nothing enqueued and no start hooks.
    pub fn new() -> (r: Self)
        ensures
            r.wf(),
            r.enqueued() == Set::<TypeId>::empty(),
            r.queue() == Seq::<TypeId>::empty(),
            r.built() == Set::<TypeId>::empty(),
            r.init_entries() == no_entries::<Value>(),
            r.slot_entries() == no_entries::<Value>(),
            r.start_hooks() == Seq::<S>::empty(),
    {
        let r = InjectorBuilder {
            init_data: Data::new(),
            slots: Data::new(),
            enqueued: fx_new(),
            builders: Vec::new(),
            built: fx_new(),
            on_start: Vec::new(),
        };
        assert(r.enqueued() =~= Set::<TypeId>::empty());
        assert(r.queue() =~= Seq::<TypeId>::empty());
        assert(r.built() =~= Set::<TypeId>::empty());
        r
    }

    /// Returns the current initialization data.
    pub fn init_data_mut(&mut self) -> (r: &mut InitData)
        ensures
            r@ == old(self).init_entries(),
            final(self).init_entries() == final(r)@,
            final(self).same_plan(*old(self)),
            final(self).slot_entries() == old(self).slot_entries(),
            final(self).start_hooks() == old(self).start_hooks(),
    {
        &mut self.init_data
    }

    /// Returns the current initialization data.
    pub fn init_data(&self) -> (r: &InitData)
        ensures
            r@ == self.init_entries(),
    {
        &self.init_data
    }

    /// Returns the slots of the enqueued injectables.
    pub fn slots_mut(&mut self) -> (r: &mut Data)
        ensures
            r@ == old(self).slot_entries(),
            final(self).slot_entries() == final(r)@,
            final(self).same_plan(*old(self)),
            final(self).init_entries() == old(self).init_entries(),
            final(self).start_hooks() == old(self).start_hooks(),
    {
        &mut self.slots
    }

    /// Enqueues the injectable `t` to be built with `builder`, unless it was enqueued before.
    ///
    /// Returns whether `t` was newly enqueued.
    pub(crate) fn enqueue(&mut self, t: TypeId, builder: B) -> (r: bool)
        requires
            old(self).wf(),
        ensures
            final(self).wf(),
            r == !old(self).enqueued().contains(t),
            r ==> final(self).enqueued() == old(self).enqueued().insert(t) && final(self).queue()
                == old(self).queue().push(t) && final(self).builders() == old(self).builders().push(
                builder,
            ),
            !r ==> final(self).same_plan(*old(self)),
            final(self).built() == old(self).built(),
            final(self).init_entries() == old(self).init_entries(),
            final(self).slot_entries() == old(self).slot_entries(),
            final(self).start_hooks() == old(self).start_hooks(),
    {
        if fx_contains(&self.enqueued, &t) {
            return false;
        }
        let ghost old_queue = self.queue();
        fx_insert(&mut self.enqueued, t, ());
        self.builders.push((t, builder));
        proof {
            assert(self.queue() =~= old_queue.push(t));
            assert(self.builders() =~= old(self).builders().push(builder));
            assert(self.enqueued() =~= old(self).enqueued().insert(t));
            assert forall|u: TypeId| #[trigger] self.enqueued().contains(u) implies self.queue().contains(
                u,
            ) || self.built().contains(u) by {
                if u == t {
                    assert(self.queue()[self.queue().len() - 1] == t);
                } else {
                    assert(old(self).enqueued().contains(u));
                    if old_queue.contains(u) {
                        let i = choose|i: int| 0 <= i < old_queue.len() && old_queue[i] == u;
                        assert(self.queue()[i] == u);
                    }
                }
            }
        }
        true
    }

    /// Returns whether the injectable `t` was enqueued for building.
    pub fn is_enqueued(&self, t: &TypeId) -> (r: bool)
        ensures
            r == self.enqueued().contains(*t),
    {
        fx_contains(&self.enqueued, t)
    }

    /// Takes the injectable that was enqueued last, and its builder, out of the queue to be
    /// built. Returns `None` when the queue is empty.
    pub fn next_to_build(&mut self) -> (r: Option<(TypeId, B)>)
        requires
            old(self).wf(),
        ensures
            final(self).wf(),
            match r {
                Some((t, b)) => {
                    &&& old(self).queue().len() > 0
                    &&& t == old(self).queue().last()
                    &&& b == old(self).builders().last()
                    &&& !old(self).built().contains(t)
                    &&& final(self).queue() == old(self).queue().drop_last()
                    &&& final(self).builders() == old(self).builders().drop_last()
                    &&& final(self).built() == old(self).built().insert(t)
                    &&& final(self).enqueued() == old(self).enqueued()
                },
                None => old(self).queue().len() == 0 && final(self).same_plan(*old(self)),
            },
            final(self).init_entries() == old(self).init_entries(),
            final(self).slot_entries() == old(self).slot_entries(),
            final(self).start_hooks() == old(self).start_hooks(),
    {
        let ghost old_queue = self.queue();
        match self.builders.pop() {
            Some((t, b)) => {
                fx_insert(&mut self.built, t, ());
                proof {
                    assert(self.queue() =~= old_queue.drop_last());
                    assert(self.builders() =~= old(self).builders().drop_last());
                    assert(self.built() =~= old(self).built().insert(t));
                    assert(old_queue[old_queue.len() - 1] == t);
                    assert forall|i: int| 0 <= i < self.queue().len() implies self.queue()[i] != t by {
                        assert(old_queue[i] == self.queue()[i]);
                    }
                    assert forall|u: TypeId| #[trigger] self.enqueued().contains(u) implies self.queue().contains(
                        u,
                    ) || self.built().contains(u) by {
                        if u != t && old_queue.contains(u) {
                            let i = choose|i: int| 0 <= i < old_queue.len() && old_queue[i] == u;
                            assert(i < old_queue.len() - 1);
                            assert(self.queue()[i] == u);
                        }
                    }
                }
                Some((t, b))
            },
            None => {
                proof {
                    assert(self.queue() =~= old_queue);
                }
                None
            },
        }
    }

    /// Returns the slot stored under key `K`, after storing a new, empty one there if there was
    /// none. Only the entry of `K` among the slots changes, and it ends with a value.
    ///
    /// The result is `None` only when the entry of `K` holds a value that is not a slot.
    pub fn slot<T: Send + Sync + 'static, K: DataKey<Value = Slot<T>>>(&mut self) -> (r: Option<Slot<T>>)
        ensures
            exists|k: TypeId| #[trigger] sets_entry(old(self).slot_entries(), final(self).slot_entries(), k),
            sets_entry(old(self).slot_entries(), final(self).slot_entries(), K::key_id()),
            r matches Some(slot) ==> value_of::<K>(final(self).slot_entries()) == Some(slot),
            value_of::<K>(old(self).slot_entries()) matches Some(slot) ==> r == Some(slot),
            final(self).same_plan(*old(self)),
            final(self).init_entries() == old(self).init_entries(),
            final(self).start_hooks() == old(self).start_hooks(),
    {
        let ghost before = self.slots@;
        let ghost mut k: TypeId;
        let entry = self.slots.entry::<K>();
        proof {
            k = entry.key();
        }
        let r = match entry.or_insert_with(|| Slot::uninit()) {
            Some(slot) => Some(*slot),
            None => None,
        };
        proof {
            assert(sets_entry(before, self.slots@, k));
            assert(sets_entry(old(self).slot_entries(), self.slot_entries(), k));
        }
        r
    }

    /// Registers a hook that is executed right after the injector was constructed.
    ///
    /// Note that there is no guarantee on the order in which the hooks are executed.
    pub fn on_start(&mut self, on_start: S)
        ensures
            final(self).start_hooks() == old(self).start_hooks().push(on_start),
            final(self).same_plan(*old(self)),
            final(self).init_entries() == old(self).init_entries(),
            final(self).slot_entries() == old(self).slot_entries(),
    {
        self.on_start.push(on_start);
    }

    /// Ends the build phase, handing out the registered start hooks.
    pub fn into_start_hooks(self) -> (r: Vec<S>)
        ensures
            r@ == self.start_hooks(),
    {
        self.on_start
    }
}

/// Once the queue of a consistent build is empty, every enqueued injectable was taken out to be
/// built, and no other.
pub proof fn law_build_completes(enqueued: Set<TypeId>, queue: Seq<TypeId>, built: Set<TypeId>)
    requires
        plan_consistent(enqueued, queue, built),
        queue.len() == 0,
    ensures
        built == enqueued,
{
    assert(built =~= enqueued);
}

/// A slot holds one value: when two writes to a slot (or to copies of it) both succeed, they
/// wrote the same value; a write that is refused finds the slot holding a value; and a read
/// that returns a value returns the one a successful write stored.
pub proof fn law_slot_holds_one_value<T>(
    slot: Slot<T>,
    first: T,
    first_ok: bool,
    second: T,
    second_ok: bool,
    read: Option<T>,
)
    requires
        first_ok ==> slot.content() == Some(first),
        second_ok ==> slot.content() == Some(second),
        read matches Some(x) ==> slot.content() == Some(x),
    ensures
        first_ok && second_ok ==> first == second,
        first_ok ==> (read matches Some(x) ==> x == first),
{
}

} // verus!
