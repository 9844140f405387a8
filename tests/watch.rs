use futures_sync::{Async, WatchChannel, WatchEvent};

#[test]
fn smoke() {
    let mut w = WatchChannel::new("one");
    let watch = 0;

    // Check the value
    assert_eq!(*w.borrow(), "one");
    assert!(!w.is_final(watch));

    assert_eq!(w.poll(watch, 1), WatchEvent::Pending);

    // Change the value.
    let (prev, woken) = w.store("two");
    assert_eq!(prev, "one");

    // The watch was notified
    assert_eq!(woken, vec![1u64]);
    assert_eq!(w.poll(watch, 1), WatchEvent::Updated);

    assert!(!w.is_final(watch));
    assert_eq!(*w.borrow(), "two");

    assert_eq!(w.poll(watch, 2), WatchEvent::Pending);

    // Dropping the publisher notifies watches
    assert_eq!(w.close(), vec![2u64]);

    // The watch was notified
    assert_eq!(w.poll(watch, 2), WatchEvent::Closed);

    assert!(w.is_final(watch));
    assert_eq!(*w.borrow(), "two");
}

#[test]
fn multiple_watches() {
    let mut w = WatchChannel::new("one");
    let watch1 = 0;
    let watch2 = w.subscribe(watch1);

    assert_eq!(w.poll(watch1, 1), WatchEvent::Pending);

    // Change the value.
    assert_eq!(w.store("two").0, "one");

    // Both watches see it
    assert_eq!(w.poll(watch1, 1), WatchEvent::Updated);
    assert_eq!(w.poll(watch2, 2), WatchEvent::Updated);

    assert_eq!(*w.borrow(), "two");
}

#[test]
fn two_stores_seen_as_one_update() {
    let mut w = WatchChannel::new(1u32);
    assert_eq!(w.store(2).0, 1);
    assert_eq!(w.store(3).0, 2);
    assert_eq!(w.poll(0, 5), WatchEvent::Updated);
    assert_eq!(*w.borrow(), 3);
    assert_eq!(w.poll(0, 5), WatchEvent::Pending);
    assert_eq!(*w.borrow(), 3);
}

#[test]
fn subscribers_observe_independently() {
    let mut w = WatchChannel::new(0u8);
    let a = 0;
    let b = w.subscribe(a);
    assert_eq!(b, 1);
    assert_eq!(w.subscribers(), 2);
    w.store(1);
    assert_eq!(w.poll(a, 1), WatchEvent::Updated);
    assert_eq!(w.poll(a, 1), WatchEvent::Pending);
    w.store(2);
    assert_eq!(w.poll(a, 1), WatchEvent::Updated);
    // b polls for the first time after two stores: one update
    assert_eq!(w.poll(b, 2), WatchEvent::Updated);
    assert_eq!(w.poll(b, 2), WatchEvent::Pending);
    assert_eq!(w.poll(a, 1), WatchEvent::Pending);
}

#[test]
fn store_wakes_registered_subscribers_once() {
    let mut w = WatchChannel::new(0u8);
    let b = w.subscribe(0);
    let c = w.subscribe(0);
    assert_eq!(w.poll(0, 10), WatchEvent::Pending);
    assert_eq!(w.poll(c, 30), WatchEvent::Pending);
    assert_eq!(w.store(1).1, vec![10u64, 30]);
    // registrations were consumed
    assert_eq!(w.store(2).1, Vec::<u64>::new());
    assert_eq!(w.poll(b, 20), WatchEvent::Updated);
}

#[test]
fn clone_starts_from_source_cursor() {
    let mut w = WatchChannel::new("a");
    w.store("b");
    let late = w.subscribe(0);
    // the source has not seen "b", so neither has the clone
    assert_eq!(w.poll(late, 1), WatchEvent::Updated);
    assert_eq!(w.poll(0, 2), WatchEvent::Updated);
    let caught_up = w.subscribe(0);
    assert_eq!(w.poll(caught_up, 3), WatchEvent::Pending);
}

#[test]
fn closure_reported_once_per_subscriber() {
    let mut w = WatchChannel::new(1u32);
    let b = w.subscribe(0);
    w.store(2);
    assert_eq!(w.poll(0, 1), WatchEvent::Updated);
    assert!(!w.is_closed());
    w.close();
    assert!(w.is_closed());
    assert_eq!(w.poll(0, 1), WatchEvent::Closed);
    assert!(w.is_final(0));
    assert_eq!(w.poll(0, 1), WatchEvent::Ended);
    assert_eq!(w.poll(0, 1), WatchEvent::Ended);
    // b was behind: the update first, then the end
    assert!(!w.is_final(b));
    assert_eq!(w.poll(b, 2), WatchEvent::Updated);
    assert_eq!(w.poll(b, 2), WatchEvent::Closed);
    assert_eq!(w.poll(b, 2), WatchEvent::Ended);
    assert!(w.is_final(b));
    assert_eq!(*w.borrow(), 2);
}

#[test]
fn poll_then_maps_latest_value() {
    let mut w = WatchChannel::new(3u32);
    let r: Result<Async<Option<u32>>, String> = w.poll_then(0, 1, |v: &u32| Ok(v * 10));
    assert_eq!(r, Ok(Async::NotReady));
    w.store(4);
    w.store(5);
    let r: Result<Async<Option<u32>>, String> = w.poll_then(0, 1, |v: &u32| Ok(v * 10));
    assert_eq!(r, Ok(Async::Ready(Some(50))));
    w.store(6);
    let r: Result<Async<Option<u32>>, String> =
        w.poll_then(0, 1, |v: &u32| Err(format!("rejected {}", v)));
    assert_eq!(r, Err("rejected 6".to_string()));
    w.close();
    let r: Result<Async<Option<u32>>, String> = w.poll_then(0, 1, |v: &u32| Ok(*v));
    assert_eq!(r, Ok(Async::Ready(None)));
    let r: Result<Async<Option<u32>>, String> = w.poll_then(0, 1, |v: &u32| Ok(*v));
    assert_eq!(r, Ok(Async::Ready(None)));
}
