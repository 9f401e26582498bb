use poll_abort::{abort, after, drive, never, Computation, Poll};

#[test]
fn abort_n_0_err() {
    assert!(drive(abort(after(42, 0), 0)).is_err());
}

#[test]
fn abort_n_1_ok() {
    let result = drive(abort(after(42usize, 0), 1));
    assert!(result.is_ok());
    assert_eq!(result.unwrap(), 42usize);
}

#[test]
fn abort_n_err() {
    for max_polls in 0..100 {
        let result = drive(abort(never(), max_polls));
        assert!(result.is_err());
        assert_eq!(result.unwrap_err().num_polls, max_polls);
    }
}

#[test]
fn abort_n_ok() {
    for max_polls in 0..100 {
        let result = drive(abort(after(max_polls, max_polls), max_polls + 1));
        assert!(result.is_ok());
        assert_eq!(result.unwrap(), max_polls);
    }
}

#[test]
fn abort_zero_limit_leaves_inner_untouched() {
    let mut w = abort(after(1, 5), 0);
    match w.poll() {
        Poll::Ready(Err(a)) => assert_eq!(a.num_polls, 0),
        _ => panic!("a zero-limit wrapper must abort on its first poll"),
    }
    assert_eq!(w.inner.num_polls, 0);
    assert_eq!(w.inner.value, Some(1));
}

#[test]
fn abort_counts_each_forwarded_poll_once() {
    let mut w = abort(never(), 2);
    assert_eq!(w.num_polls, 0);
    assert!(matches!(w.poll(), Poll::Pending));
    assert_eq!(w.num_polls, 1);
    assert!(matches!(w.poll(), Poll::Pending));
    assert_eq!(w.num_polls, 2);
    match w.poll() {
        Poll::Ready(Err(a)) => assert_eq!(a.num_polls, 2),
        _ => panic!("the wrapper must abort once its limit is reached"),
    }
    assert_eq!(w.num_polls, 2);
}

#[test]
fn abort_boundary_one_apart() {
    let ok = drive(abort(after(9, 4), 5));
    assert_eq!(ok.unwrap(), 9);
    let err = drive(abort(after(9, 4), 4));
    assert_eq!(err.unwrap_err().num_polls, 4);
}

#[test]
fn abort_huge_limit_completes() {
    let result = drive(abort(after(7u32, 2), usize::MAX));
    assert_eq!(result.unwrap(), 7u32);
}

#[test]
fn never_is_always_pending() {
    let mut n = never();
    for _ in 0..10 {
        assert!(matches!(n.poll(), Poll::Pending));
    }
}

#[test]
fn after_pending_then_ready() {
    let mut a = after(42, 3);
    for _ in 0..3 {
        assert!(matches!(a.poll(), Poll::Pending));
    }
    match a.poll() {
        Poll::Ready(v) => assert_eq!(v, 42),
        Poll::Pending => panic!("the held value is due on the fourth poll"),
    }
}

#[test]
fn after_zero_is_ready_at_once() {
    assert_eq!(drive(after(5, 0)), 5);
}

#[test]
fn drive_returns_held_value() {
    assert_eq!(drive(after(5, 10)), 5);
}
