use futures_sync::{Borrow, BorrowState};

#[test]
fn test_basic_borrow() {
    let mut s = Borrow::new("hello".to_string());

    // Ready immediately
    assert!(s.poll_ready(1).unwrap().is_ready());

    // borrow
    let mut b = s.try_borrow().unwrap();

    // Can't double borrow
    assert!(s.try_borrow().is_err());

    // Not ready; task 2 is registered
    assert!(!s.poll_ready(2).unwrap().is_ready());

    b.get_mut().push_str("-world");

    // Releasing hands back the registered task to wake
    assert_eq!(s.release(b), Some(2));

    // Now ready
    assert!(s.poll_ready(3).unwrap().is_ready());

    // Borrow again
    let b = s.try_borrow().unwrap();
    assert_eq!(*b.get(), "hello-world");
}

#[test]
fn test_borrow_map() {
    let mut s = Borrow::new(vec!["hello".to_string()]);

    // Borrow
    let b = s.try_borrow().unwrap();
    let mut b = Borrow::map(b, |mut v: Vec<String>| {
        let first = v.remove(0);
        (first, v)
    });

    // Can't double borrow
    assert!(s.try_borrow().is_err());

    b.get_mut().push_str("-world");
    let b = Borrow::unmap(b, |first: String, mut rest: Vec<String>| {
        rest.insert(0, first);
        rest
    });
    s.release(b);

    let b = s.try_borrow().unwrap();
    assert_eq!(b.get()[0], "hello-world");
}

#[test]
fn second_attempt_reports_held() {
    let mut s = Borrow::new(5u32);
    let g = s.try_borrow().unwrap();
    let e = s.try_borrow().err().unwrap();
    assert!(!e.is_poisoned());
    assert!(s.poll_borrow(7).unwrap().is_not_ready());
    assert!(!s.is_ready());
    assert_eq!(s.release(g), Some(7));
    assert!(s.is_ready());
}

#[test]
fn poll_borrow_acquires_unused_cell() {
    let mut s = Borrow::new(vec![1u8, 2, 3]);
    let g = match s.poll_borrow(4).unwrap() {
        futures_sync::Async::Ready(g) => g,
        futures_sync::Async::NotReady => panic!("cell was unused"),
    };
    assert_eq!(*g.get(), vec![1u8, 2, 3]);
    assert!(!s.is_ready());
    // the registration of poll_borrow is consumed by the release
    assert_eq!(s.release(g), Some(4));
    let g = s.try_borrow().unwrap();
    assert_eq!(s.release(g), None);
}

#[test]
fn waiter_woken_once_per_registration() {
    let mut s = Borrow::new(0i64);
    let g = s.try_borrow().unwrap();
    assert!(!s.poll_ready(11).unwrap().is_ready());
    assert_eq!(s.release(g), Some(11));
    let g = s.try_borrow().unwrap();
    assert_eq!(s.release(g), None);
}

#[test]
fn later_registration_replaces_earlier() {
    let mut s = Borrow::new(0i64);
    let g = s.try_borrow().unwrap();
    assert!(s.poll_ready(1).unwrap().is_not_ready());
    assert!(s.poll_ready(2).unwrap().is_not_ready());
    assert_eq!(s.release(g), Some(2));
}

#[test]
fn abnormal_release_poisons_for_good() {
    let mut s = Borrow::new("x".to_string());
    let g = s.try_borrow().unwrap();
    assert!(s.poll_ready(9).unwrap().is_not_ready());
    assert_eq!(s.release_poisoned(g), Some(9));
    assert!(s.is_ready());
    for _ in 0..3 {
        let e = s.try_borrow().err().unwrap();
        assert!(e.is_poisoned());
        assert!(s.poll_ready(1).is_err());
        assert!(s.poll_borrow(2).is_err());
    }
}

#[test]
fn mapped_guard_keeps_cell_borrowed() {
    let mut s = Borrow::new((1u32, "a".to_string()));
    let g = s.try_borrow().unwrap();
    let mut m = Borrow::map(g, |(n, t): (u32, String)| (t, n));
    assert!(!s.is_ready());
    assert!(s.poll_ready(3).unwrap().is_not_ready());
    assert!(!s.try_borrow().err().unwrap().is_poisoned());
    m.get_mut().push('b');
    assert_eq!(m.get(), "ab");
    let g = Borrow::unmap(m, |t: String, n: u32| (n, t));
    assert_eq!(s.release(g), Some(3));
    let g = s.try_borrow().unwrap();
    assert_eq!(*g.get(), (1u32, "ab".to_string()));
}

#[test]
fn try_map_failure_returns_guard() {
    let mut s = Borrow::new(vec![10u32]);
    let g = s.try_borrow().unwrap();
    let r = Borrow::try_map(g, |v: Vec<u32>| -> Result<(u32, Vec<u32>), (Vec<u32>, &'static str)> {
        if v.len() > 1 { Ok((v[1], v)) } else { Err((v, "no second item")) }
    });
    let (g, e) = match r {
        Ok(_) => panic!("split should fail"),
        Err(pair) => pair,
    };
    assert_eq!(e, "no second item");
    assert_eq!(*g.get(), vec![10u32]);
    assert!(!s.is_ready());
    s.release(g);
    assert!(s.is_ready());
}

#[test]
fn try_map_success_narrows() {
    let mut s = Borrow::new(vec![10u32, 20]);
    let g = s.try_borrow().unwrap();
    let r = Borrow::try_map(g, |mut v: Vec<u32>| -> Result<(u32, Vec<u32>), (Vec<u32>, ())> {
        let x = v.remove(1);
        Ok((x, v))
    });
    let mut m = match r {
        Ok(m) => m,
        Err(_) => panic!("split should succeed"),
    };
    *m.get_mut() += 1;
    let g = Borrow::unmap(m, |x: u32, mut v: Vec<u32>| {
        v.push(x);
        v
    });
    s.release(g);
    assert_eq!(*s.try_borrow().unwrap().get(), vec![10u32, 21]);
}

#[test]
fn end_to_end_append() {
    let mut s = Borrow::new("hello".to_string());
    let mut g = s.try_borrow().unwrap();
    assert!(s.poll_borrow(42).unwrap().is_not_ready());
    g.get_mut().push_str("-world");
    let woken = s.release(g);
    assert!(s.is_ready());
    assert_eq!(woken, Some(42));
    let g = s.try_borrow().unwrap();
    assert_eq!(g.get(), "hello-world");
}

#[test]
fn borrow_state_values_differ() {
    assert_ne!(BorrowState::Unused, BorrowState::Borrowed);
    assert_ne!(BorrowState::Borrowed, BorrowState::Poisoned);
}

#[test]
fn borrow_state_follows_guard() {
    let mut s = Borrow::new(1u8);
    assert_eq!(s.borrow_state(), BorrowState::Unused);
    let g = s.try_borrow().unwrap();
    assert_eq!(s.borrow_state(), BorrowState::Borrowed);
    s.release_poisoned(g);
    assert_eq!(s.borrow_state(), BorrowState::Poisoned);
}
