use cef_wrapper::{Handle, ObjectStore, Wrapped};
use std::sync::atomic::{AtomicU32, Ordering};
use std::sync::Arc;

struct Native;

#[test]
fn count_follows_clones_and_releases() {
    let mut store: ObjectStore<Native> = ObjectStore::new();
    let p = store.allocate(Native);
    let first: Handle<Native> = Handle::wrap_new(p).unwrap();
    assert_eq!(store.ref_count(p), 1);
    assert!(store.has_one_ref(p));

    let second = first.clone_in(&mut store);
    let third = second.clone_in(&mut store);
    assert_eq!(store.ref_count(p), 3);
    assert_eq!(second.as_ptr(), p);

    assert!(!second.release(&mut store));
    assert_eq!(store.ref_count(p), 2);
    assert!(!first.release(&mut store));
    assert_eq!(store.ref_count(p), 1);
    assert!(store.has_one_ref(p));

    assert!(third.release(&mut store));
    assert!(!store.contains(p));
    assert!(store.get(p).is_none());
}

#[test]
fn exactly_one_release_reaches_zero() {
    let mut store: ObjectStore<Native> = ObjectStore::new();
    let p = store.allocate(Native);
    let mut live = vec![Handle::<Native>::wrap_new(p).unwrap()];
    for _ in 0..5 {
        let h = live[0].clone_in(&mut store);
        live.push(h);
    }
    assert_eq!(store.ref_count(p), live.len() as u64);
    let mut freed = 0;
    while let Some(h) = live.pop() {
        if h.release(&mut store) {
            freed += 1;
            assert!(live.is_empty());
        } else {
            assert_eq!(store.ref_count(p), live.len() as u64);
        }
    }
    assert_eq!(freed, 1);
}

#[test]
fn null_pointers_give_no_handle() {
    let mut store: ObjectStore<Native> = ObjectStore::new();
    assert!(Handle::<Native>::wrap_new(0).is_none());
    assert!(Handle::from_existing(&mut store, 0).is_none());
    assert!(Handle::from_existing(&mut store, 3).is_none());
}

#[test]
fn from_existing_takes_its_own_reference() {
    let mut store: ObjectStore<Native> = ObjectStore::new();
    let p = store.allocate(Native);
    let borrowed = Handle::from_existing(&mut store, p).unwrap();
    assert_eq!(store.ref_count(p), 2);
    assert!(!borrowed.release(&mut store));
    assert_eq!(store.ref_count(p), 1);
    assert!(store.contains(p));
}

#[test]
fn into_raw_keeps_the_reference() {
    let mut store: ObjectStore<Native> = ObjectStore::new();
    let p = store.allocate(Native);
    let h = Handle::<Native>::wrap_new(p).unwrap();
    let extra = h.clone_in(&mut store);
    assert_eq!(extra.into_raw(), p);
    assert_eq!(store.ref_count(p), 2);
    let again = Handle::<Native>::wrap_new(p).unwrap();
    assert!(!again.release(&mut store));
    assert!(h.release(&mut store));
}

#[test]
fn freed_pointers_are_never_reused() {
    let mut store: ObjectStore<Native> = ObjectStore::new();
    let a = store.allocate(Native);
    let h = Handle::<Native>::wrap_new(a).unwrap();
    assert!(h.release(&mut store));
    let b = store.allocate(Native);
    assert_ne!(a, b);
    assert!(!store.contains(a));
    assert!(Handle::from_existing(&mut store, a).is_none());
    assert!(store.contains(b));
}

struct Callbacks {
    id: u32,
    hits: AtomicU32,
}

#[test]
fn recover_returns_the_wrapped_instance_until_freed() {
    let mut store: ObjectStore<Wrapped<u8, Callbacks>> = ObjectStore::new();
    let h = Wrapped::wrap(&mut store, 7u8, Callbacks { id: 42, hits: AtomicU32::new(0) });
    let p = h.as_ptr();
    Wrapped::recover(&store, p).unwrap().hits.fetch_add(1, Ordering::SeqCst);
    assert_eq!(Wrapped::recover(&store, p).unwrap().id, 42);
    assert_eq!(*Wrapped::vtable_at(&store, p).unwrap(), 7);

    let other = Wrapped::wrap(&mut store, 8u8, Callbacks { id: 1, hits: AtomicU32::new(0) });
    let copy = h.clone_in(&mut store);
    assert!(!h.release(&mut store));
    let later = Wrapped::recover(&store, p).unwrap();
    assert_eq!(later.id, 42);
    assert_eq!(later.hits.load(Ordering::SeqCst), 1);
    assert_eq!(Wrapped::recover(&store, other.as_ptr()).unwrap().id, 1);

    assert!(copy.release(&mut store));
    assert!(Wrapped::recover(&store, p).is_none());
    assert!(Wrapped::vtable_at(&store, p).is_none());
    assert_eq!(Wrapped::recover(&store, other.as_ptr()).unwrap().id, 1);
}

struct CountsDrops {
    drops: Arc<AtomicU32>,
}

impl Drop for CountsDrops {
    fn drop(&mut self) {
        self.drops.fetch_add(1, Ordering::SeqCst);
    }
}

#[test]
fn the_callback_object_is_dropped_once_when_the_count_reaches_zero() {
    let drops = Arc::new(AtomicU32::new(0));
    let mut store: ObjectStore<Wrapped<(), CountsDrops>> = ObjectStore::new();
    let h = Wrapped::wrap(&mut store, (), CountsDrops { drops: drops.clone() });
    let p = h.as_ptr();
    let copy = h.clone_in(&mut store);
    let borrowed = Handle::from_existing(&mut store, p).unwrap();
    assert!(!h.release(&mut store));
    assert!(!borrowed.release(&mut store));
    assert_eq!(drops.load(Ordering::SeqCst), 0);
    assert!(copy.release(&mut store));
    assert_eq!(drops.load(Ordering::SeqCst), 1);
    assert!(Handle::from_existing(&mut store, p).is_none());
    assert_eq!(drops.load(Ordering::SeqCst), 1);
}
