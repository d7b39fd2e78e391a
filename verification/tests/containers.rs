use dijavu::data::DataKey;
use dijavu::initializables::{
    FromBuildFn, Initializables, InitializablesIter, InitializablesMap, InitializablesMapIter,
    Injectables, StartValue, Value,
};
use dijavu::Data;
use dijavu::{AppContainer, AppContainerBuilder, InitAppContainer, Injector, ScopeContainer, Slot};
use std::collections::HashMap;

struct Port;
impl DataKey for Port {
    type Value = u16;
}

#[test]
fn insert_app_data_refuses_duplicates() {
    let mut builder: AppContainerBuilder<()> = AppContainerBuilder::new();
    assert!(builder.insert_app_data::<Port>(8080).is_ok());
    let err = builder.insert_app_data::<Port>(9090).unwrap_err();
    assert_eq!(err.to_string(), "app data entry already present");
    let (app, start, fns) = builder.into_parts();
    assert_eq!(app.get::<Port>(), Some(&8080));
    assert!(!start.contains_key::<Port>());
    assert!(fns.is_empty());
}

#[test]
fn insert_start_data_refuses_duplicates() {
    let mut builder: AppContainerBuilder<u8> = AppContainerBuilder::new();
    assert!(builder.insert_start_data::<Port>(1).is_ok());
    let err = builder.insert_start_data::<Port>(2).unwrap_err();
    assert_eq!(err.to_string(), "init result entry already present");
    builder.add_async_start_fn(7);
    let (app, start, fns) = builder.into_parts();
    assert!(!app.contains_key::<Port>());
    assert_eq!(start.get::<Port>(), Some(&1));
    assert_eq!(fns, vec![7]);
}

#[test]
fn empty_containers() {
    let app = AppContainer::empty();
    assert!(!app.data().contains_key::<Port>());
    let injector = Injector::empty();
    assert!(injector.get_opt::<Port>().is_none());
}

#[test]
fn scope_container_keeps_its_data() {
    let app = AppContainer::empty();
    let mut scope = ScopeContainer::new(app);
    assert!(scope.scope_data().get::<Port>().is_none());
    scope.scope_data_mut().insert::<Port>(3);
    assert_eq!(scope.scope_data().get::<Port>(), Some(&3));
    assert!(!scope.app().data().contains_key::<Port>());
}

#[test]
fn init_app_container_hooks_in_order() {
    let mut init: InitAppContainer<&'static str> = InitAppContainer::new();
    init.data_mut().insert::<Port>(1);
    init.on_build_async("first");
    init.on_build_async("second");
    let (data, hooks) = init.into_parts();
    assert_eq!(data.get::<Port>(), Some(&1));
    assert_eq!(hooks, vec!["first", "second"]);
}

#[test]
fn slot_is_written_once() {
    let slot: Slot<u32> = Slot::uninit();
    let copy = slot;
    assert_eq!(slot.get(), None);
    assert_eq!(slot.set(5), Ok(()));
    assert_eq!(copy.get(), Some(&5));
    assert_eq!(copy.set(6), Err(6));
    assert_eq!(slot.get(), Some(&5));
}

#[test]
fn initializables_iterate_in_order() {
    let values = Initializables::new(vec![1, 2, 3]);
    assert_eq!(values.iter().copied().collect::<Vec<_>>(), vec![1, 2, 3]);
    assert_eq!(values.as_slice(), &[1, 2, 3]);
    let injectables = Injectables::new(vec!["a", "b"]);
    assert_eq!(injectables.iter().copied().collect::<Vec<_>>(), vec!["a", "b"]);
}

#[test]
fn initializables_map_lookup() {
    let mut map = HashMap::new();
    map.insert("x", 1);
    map.insert("y", 2);
    let map = InitializablesMap::new(map);
    assert_eq!(map.get(&"x"), Some(&1));
    assert_eq!(map.get(&"z"), None);
    let mut entries = map.iter().map(|(k, v)| (*k, *v)).collect::<Vec<_>>();
    entries.sort();
    assert_eq!(entries, vec![("x", 1), ("y", 2)]);
}

#[test]
fn value_wraps() {
    let v = Value::new(String::from("hello"));
    assert_eq!(v.get(), "hello");
    assert_eq!(v.into_inner(), "hello");
}

#[test]
fn value_derefs_to_its_value() {
    let v = Value::new(vec![1, 2]);
    assert_eq!(v.len(), 2);
    assert_eq!(*v, vec![1, 2]);
    let f = FromBuildFn(String::from("built"));
    assert_eq!(f.as_str(), "built");
}

#[test]
fn start_value_goes_through_start_data() {
    let mut builder: AppContainerBuilder<()> = AppContainerBuilder::new();
    assert!(StartValue::<u64>::build_runtime_value(5, &mut builder).is_ok());
    let err = StartValue::<u64>::build_runtime_value(6, &mut builder).unwrap_err();
    assert_eq!(err.to_string(), "init result entry already present");
    let (app, mut start, _) = builder.into_parts();
    assert!(!app.contains_key::<Port>());
    assert_eq!(StartValue::<u64>::remove_from_start_data(&mut start), Some(5));
    assert_eq!(StartValue::<u64>::remove_from_start_data(&mut start), None);
    let _runtime: StartValue<u64> = StartValue::from_runtime_value();
}

#[test]
fn start_value_keys_are_per_type() {
    let mut start = Data::new();
    start.insert::<Port>(1);
    assert_eq!(StartValue::<u16>::remove_from_start_data(&mut start), None);
    assert_eq!(start.get::<Port>(), Some(&1));
}

#[test]
fn named_iterators() {
    let values = Initializables::new(vec![4, 5]);
    let mut iter: InitializablesIter<'_, i32> = values.iter();
    assert_eq!(iter.next(), Some(&4));
    assert_eq!(iter.next(), Some(&5));
    assert_eq!(iter.next(), None);
    let mut map = HashMap::new();
    map.insert(1u8, "one");
    let map = InitializablesMap::new(map);
    let mut iter: InitializablesMapIter<'_, u8, &str> = map.iter();
    assert_eq!(iter.next(), Some((&1, &"one")));
    assert_eq!(iter.next(), None);
}

#[test]
fn initializables_map_lookup_by_borrowed_key() {
    let mut map = HashMap::new();
    map.insert(String::from("alpha"), 1);
    let map = InitializablesMap::new(map);
    assert_eq!(map.get("alpha"), Some(&1));
    assert_eq!(map.get("beta"), None);
}
