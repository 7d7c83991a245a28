use std::sync::atomic::{AtomicU32, Ordering};
use std::sync::{Arc, Mutex};
use std::task::{Wake, Waker};

use latches::task::waiters::{Waiter, Waiters};

/// Counts how many times it was woken.
struct Counter(AtomicU32);

impl Wake for Counter {
    fn wake(self: Arc<Self>) {
        self.0.fetch_add(1, Ordering::Relaxed);
    }
}

fn counter() -> Arc<Counter> {
    Arc::new(Counter(AtomicU32::new(0)))
}

fn new_waker(data: &Arc<Counter>) -> Waker {
    Waker::from(data.clone())
}

fn load(data: &Arc<Counter>) -> u32 {
    data.0.load(Ordering::Relaxed)
}

fn wake_all(waiters: Vec<Waiter>) {
    for waiter in waiters {
        if let Waiter::Occupied(w) = waiter {
            w.wake();
        }
    }
}

#[test]
fn test_upsert_wake() {
    let data = counter();
    let mut waiters = Waiters::new();
    let waker = new_waker(&data);
    let mut id = None;

    waiters.upsert(&mut id, &waker);
    wake_all(waiters.take());

    assert!(id.is_some());
    assert_eq!(load(&data), 1);
    assert_eq!(waiters.slots(), 0);
}

#[test]
fn test_upsert_removed() {
    let data = counter();
    let mut waiters = Waiters::new();
    let waker = new_waker(&data);
    let mut id = None;

    waiters.upsert(&mut id, &waker);
    waiters.remove(&mut id);
    waiters.upsert(&mut id, &waker);
    wake_all(waiters.take());

    assert_eq!(load(&data), 1);
    assert_eq!(waiters.slots(), 0);
}

#[test]
fn test_upsert_same_waker() {
    let data = counter();
    let mut waiters = Waiters::new();
    let waker = new_waker(&data);
    let mut id = None;

    waiters.upsert(&mut id, &waker);

    assert!(id.is_some());

    let old_id = id;

    waiters.upsert(&mut id, &waker);
    wake_all(waiters.take());

    assert_eq!(id, old_id);
    assert_eq!(load(&data), 1);
    assert_eq!(waiters.slots(), 0);
}

#[test]
fn test_upsert_same_id() {
    let first = counter();
    let second = counter();
    let mut waiters = Waiters::new();
    let mut id = None;

    waiters.upsert(&mut id, &new_waker(&first));

    assert!(id.is_some());

    let old_id = id;

    waiters.upsert(&mut id, &new_waker(&second));
    wake_all(waiters.take());

    assert_eq!(id, old_id);
    assert_eq!(load(&first), 0);
    assert_eq!(load(&second), 1);
    assert_eq!(waiters.slots(), 0);
}

#[test]
fn test_remove_bad_id() {
    let mut waiters = Waiters::new();

    waiters.remove(&mut Some(1));
    wake_all(waiters.take());
}

#[test]
fn test_remove_twice() {
    let data = counter();
    let mut waiters = Waiters::new();
    let mut id = None;

    waiters.upsert(&mut id, &new_waker(&data));

    let mut old_id = id;

    waiters.remove(&mut id);
    waiters.remove(&mut old_id);
    wake_all(waiters.take());

    assert_eq!(load(&data), 0);
}

#[test]
fn test_remove_none_id() {
    let mut waiters = Waiters::new();

    waiters.remove(&mut None);
    wake_all(waiters.take());
}

#[test]
fn freed_slot_is_reused_first() {
    let data = counter();
    let waker = new_waker(&data);
    let mut waiters = Waiters::new();
    let (mut a, mut b, mut c) = (None, None, None);

    waiters.upsert(&mut a, &waker);
    waiters.upsert(&mut b, &waker);
    waiters.upsert(&mut c, &waker);
    assert_eq!((a, b, c), (Some(0), Some(1), Some(2)));
    assert_eq!(waiters.slots(), 3);

    waiters.remove(&mut a);
    waiters.remove(&mut c);
    assert_eq!(a, None);
    assert!(!waiters.contains(0));
    assert!(waiters.contains(1));
    assert!(!waiters.contains(2));

    // The most recently freed slot comes back first, then the one before it.
    let (mut d, mut e, mut f) = (None, None, None);
    waiters.upsert(&mut d, &waker);
    waiters.upsert(&mut e, &waker);
    assert_eq!((d, e), (Some(2), Some(0)));
    assert_eq!(waiters.slots(), 3);

    // No slot is free any more: the slab grows.
    waiters.upsert(&mut f, &waker);
    assert_eq!(f, Some(3));
    assert_eq!(waiters.slots(), 4);
}

#[test]
fn take_hands_out_only_registered_wakers() {
    let first = counter();
    let second = counter();
    let mut waiters = Waiters::new();
    let (mut a, mut b) = (None, None);

    waiters.upsert(&mut a, &new_waker(&first));
    waiters.upsert(&mut b, &new_waker(&second));
    waiters.remove(&mut a);

    let slots = waiters.take();
    assert_eq!(slots.len(), 2);
    assert!(matches!(slots[0], Waiter::Vacant(_)));
    assert!(matches!(slots[1], Waiter::Occupied(_)));
    wake_all(slots);

    assert_eq!(load(&first), 0);
    assert_eq!(load(&second), 1);
    assert_eq!(waiters.slots(), 0);
    assert!(!waiters.contains(1));
}

#[test]
fn wake_all_empties_the_slab_behind_the_lock() {
    let first = counter();
    let second = counter();
    let mutex = Mutex::new(Waiters::new());
    {
        let mut waiters = mutex.lock().unwrap();
        waiters.upsert(&mut None, &new_waker(&first));
        waiters.upsert(&mut None, &new_waker(&second));
    }

    Waiters::wake_all(&mutex);

    assert_eq!(load(&first), 1);
    assert_eq!(load(&second), 1);
    assert_eq!(mutex.lock().unwrap().slots(), 0);
}

#[test]
fn registered_wakers_keeps_only_registered_slots_in_order() {
    let a = counter();
    let b = counter();
    let c = counter();
    let mut waiters = Waiters::new();
    let (mut ka, mut kb, mut kc) = (None, None, None);

    waiters.upsert(&mut ka, &new_waker(&a));
    waiters.upsert(&mut kb, &new_waker(&b));
    waiters.upsert(&mut kc, &new_waker(&c));
    waiters.remove(&mut kb);

    let wakers = latches::task::waiters::registered_wakers(waiters.take());
    assert_eq!(wakers.len(), 2);
    for w in wakers {
        w.wake();
    }
    assert_eq!((load(&a), load(&b), load(&c)), (1, 0, 1));
}
