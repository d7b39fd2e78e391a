use dijavu::data::{Data, DataEntry, DataKey};

struct KeyA;
impl DataKey for KeyA {
    type Value = u32;
}

struct KeyB;
impl DataKey for KeyB {
    type Value = u32;
}

struct KeyS;
impl DataKey for KeyS {
    type Value = String;
}

#[test]
fn insert_and_get() {
    let mut data = Data::default();
    assert!(data.insert::<KeyA>(42).is_none());
    assert_eq!(data.get::<KeyA>(), Some(&42));
    assert!(data.contains_key::<KeyA>());
    assert_eq!(data.remove::<KeyA>(), Some(42));
    assert!(!data.contains_key::<KeyA>());
}

#[test]
fn conflict() {
    let mut data = Data::default();
    assert!(data.insert::<KeyA>(42).is_none());
    assert!(data.insert::<KeyB>(1).is_none());
    assert_eq!(data.get::<KeyA>(), Some(&42));
    assert_eq!(data.get::<KeyB>(), Some(&1));
}

#[test]
fn insert_replace() {
    let mut data = Data::default();
    assert!(data.insert::<KeyA>(42).is_none());
    assert_eq!(data.insert::<KeyA>(32), Some(42));
}

#[test]
fn entry() {
    let mut data = Data::default();
    let DataEntry::Vacant(entry) = data.entry::<KeyA>() else {
        panic!("not vacant");
    };
    entry.insert(42);
    assert_eq!(data.get::<KeyA>(), Some(&42));
    let DataEntry::Occupied(mut entry) = data.entry::<KeyA>() else {
        panic!("not occupied");
    };
    assert_eq!(entry.get().unwrap(), &42);
    assert_eq!(entry.get_mut().unwrap(), &42);
    assert_eq!(entry.remove().unwrap(), 42);
    assert_eq!(data.entry::<KeyA>().insert_entry(32).into_mut().unwrap(), &32);
}

#[test]
fn get_mut_writes_through() {
    let mut data = Data::new();
    assert!(data.get_mut::<KeyS>().is_none());
    data.insert::<KeyS>(String::from("a"));
    data.get_mut::<KeyS>().unwrap().push('b');
    assert_eq!(data.get::<KeyS>().map(String::as_str), Some("ab"));
}

#[test]
fn remove_absent_is_none() {
    let mut data = Data::new();
    data.insert::<KeyB>(7);
    assert_eq!(data.remove::<KeyA>(), None);
    assert_eq!(data.get::<KeyB>(), Some(&7));
}

#[test]
fn or_insert_with_keeps_existing() {
    let mut data = Data::new();
    *data.entry::<KeyA>().or_insert_with(|| 1).unwrap() += 10;
    assert_eq!(data.get::<KeyA>(), Some(&11));
    assert_eq!(*data.entry::<KeyA>().or_insert_with(|| 99).unwrap(), 11);
}

#[test]
fn or_try_insert_with_error_leaves_vacant() {
    let mut data = Data::new();
    let r: Result<Option<&mut u32>, &str> = data.entry::<KeyA>().or_try_insert_with(|| Err("nope"));
    assert_eq!(r.err(), Some("nope"));
    assert!(!data.contains_key::<KeyA>());
    let r: Result<Option<&mut u32>, &str> = data.entry::<KeyA>().or_try_insert_with(|| Ok(5));
    assert_eq!(r.ok().flatten().copied(), Some(5));
    assert_eq!(data.get::<KeyA>(), Some(&5));
}

#[test]
fn occupied_insert_returns_old_value() {
    let mut data = Data::new();
    data.insert::<KeyA>(3);
    let DataEntry::Occupied(mut entry) = data.entry::<KeyA>() else {
        panic!("not occupied");
    };
    assert_eq!(entry.insert(4), Some(3));
    assert_eq!(entry.get().unwrap(), &4);
    assert_eq!(data.get::<KeyA>(), Some(&4));
}

#[test]
fn vacant_insert_entry_and_replace() {
    let mut data = Data::new();
    let DataEntry::Vacant(entry) = data.entry::<KeyA>() else {
        panic!("not vacant");
    };
    let occupied = entry.insert_entry(8);
    assert_eq!(occupied.get().unwrap(), &8);
    assert_eq!(data.entry::<KeyA>().insert_entry(9).remove(), Some(9));
    assert!(!data.contains_key::<KeyA>());
}
