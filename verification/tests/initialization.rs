use dijavu::data::DataKey;
use dijavu::{InitInjector, InitStatus, InitStep, InjectorBuilder, Slot};
use std::any::TypeId;

struct A;
struct B;
struct C;

fn ids() -> (TypeId, TypeId, TypeId) {
    (TypeId::of::<A>(), TypeId::of::<B>(), TypeId::of::<C>())
}

type Injector = InitInjector<&'static str, &'static str, u32>;

#[test]
fn initialization_starts_once() {
    let (a, _, _) = ids();
    let mut inj = Injector::new();
    assert_eq!(inj.begin_init(a), InitStep::Start);
    assert_eq!(inj.begin_init(a), InitStep::Recursive);
    assert!(inj.finish_init(a, "build a"));
    assert_eq!(inj.begin_init(a), InitStep::AlreadyInitialized);
    assert_eq!(inj.begin_init(a), InitStep::AlreadyInitialized);
}

#[test]
fn finish_enqueues_once() {
    let (a, b, _) = ids();
    let mut inj = Injector::new();
    assert!(inj.register(b, "init b", "build b"));
    assert!(!inj.register(b, "init b again", "build b again"));
    assert_eq!(inj.begin_init(a), InitStep::Start);
    assert!(inj.finish_init(a, "build a"));
    let mut builder: InjectorBuilder<&'static str, u32> = inj.into_builder();
    assert_eq!(builder.next_to_build(), Some((a, "build a")));
    assert_eq!(builder.next_to_build(), Some((b, "build b")));
    assert_eq!(builder.next_to_build(), None);
}

#[test]
fn pending_initializers_run_once() {
    let (a, b, c) = ids();
    let mut inj = Injector::new();
    inj.register(a, "init a", "build a");
    inj.register(b, "init b", "build b");
    let mut seen = Vec::new();
    while let Some((t, init, step)) = inj.next_initializer() {
        assert_eq!(step, InitStep::Start);
        seen.push((t, init));
        if t == a {
            // initializing `a` references `c`
            inj.register(c, "init c", "build c");
        }
        assert!(!inj.finish_init(t, "unused"));
    }
    seen.sort_by_key(|(_, init)| *init);
    assert_eq!(seen, vec![(a, "init a"), (b, "init b"), (c, "init c")]);
    let mut builder = inj.into_builder();
    let mut built = Vec::new();
    while let Some((_, b)) = builder.next_to_build() {
        built.push(b);
    }
    built.sort();
    assert_eq!(built, vec!["build a", "build b", "build c"]);
}

#[test]
fn pending_of_initialized_is_already_initialized() {
    let (a, _, _) = ids();
    let mut inj = Injector::new();
    assert_eq!(inj.begin_init(a), InitStep::Start);
    inj.finish_init(a, "build a");
    inj.register(a, "init a", "build a again");
    let (t, init, step) = inj.next_initializer().unwrap();
    assert_eq!((t, init, step), (a, "init a", InitStep::AlreadyInitialized));
    assert!(inj.next_initializer().is_none());
}

#[test]
fn nothing_initialized_builds_nothing() {
    let inj = Injector::new();
    let mut builder = inj.into_builder();
    assert!(builder.next_to_build().is_none());
    assert!(builder.into_start_hooks().is_empty());
}

#[test]
fn start_hooks_are_kept_in_order() {
    let mut inj = Injector::new();
    inj.on_start(1);
    inj.on_start(2);
    let mut builder = inj.into_builder();
    builder.on_start(3);
    assert_eq!(builder.into_start_hooks(), vec![1, 2, 3]);
}

#[test]
fn init_status_values() {
    assert_ne!(InitStatus::Initializing, InitStatus::Initialized);
}

struct SlotOfU8;
impl DataKey for SlotOfU8 {
    type Value = Slot<u8>;
}

#[test]
fn slot_is_created_once_and_shared() {
    let mut inj = Injector::new();
    assert!(!inj.data().contains_key::<SlotOfU8>());
    let first = inj.slot::<u8, SlotOfU8>().unwrap();
    let second = inj.slot::<u8, SlotOfU8>().unwrap();
    assert_eq!(first.set(9), Ok(()));
    assert_eq!(second.get(), Some(&9));
    let mut builder = inj.into_builder();
    assert_eq!(builder.slot::<u8, SlotOfU8>().unwrap().get(), Some(&9));
    assert!(builder.slots_mut().contains_key::<SlotOfU8>());
    assert!(!builder.init_data().contains_key::<SlotOfU8>());
}

#[test]
fn aborted_initialization_starts_again() {
    let (a, b, _) = ids();
    let mut inj = Injector::new();
    assert_eq!(inj.begin_init(a), InitStep::Start);
    inj.abort_init(a, "init a");
    assert_eq!(inj.begin_init(a), InitStep::Start);
    assert!(inj.finish_init(a, "build a"));
    assert_eq!(inj.begin_init(a), InitStep::AlreadyInitialized);
    // nothing is pending for `a`, since it was not enqueued when its initialization failed
    assert!(inj.next_initializer().is_none());

    // an enqueued injectable whose initialization failed waits for its initializer again
    inj.register(b, "init b", "build b");
    let (t, _, step) = inj.next_initializer().unwrap();
    assert_eq!((t, step), (b, InitStep::Start));
    inj.abort_init(b, "init b again");
    let (t, init, step) = inj.next_initializer().unwrap();
    assert_eq!((t, init, step), (b, "init b again", InitStep::Start));
}

#[test]
fn status_of_follows_the_initialization() {
    let (a, _, _) = ids();
    let mut inj = Injector::new();
    assert_eq!(inj.status_of(&a), None);
    assert_eq!(inj.begin_init(a), InitStep::Start);
    assert_eq!(inj.status_of(&a), Some(InitStatus::Initializing));
    inj.finish_init(a, "build a");
    assert_eq!(inj.status_of(&a), Some(InitStatus::Initialized));
}
