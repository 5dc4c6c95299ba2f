use task_header::header::{Header, Waker};
use task_header::state::{
    AWAITER, CLOSED, COMPLETED, HANDLE, NOTIFYING, REFERENCE, REGISTERING, RUNNING, SCHEDULED,
};

#[test]
fn cancel_on_clean_state_closes() {
    let mut h = Header { state: SCHEDULED | RUNNING | HANDLE | 3 * REFERENCE, awaiter: None };
    h.cancel();
    // The blunt transition: the whole word becomes exactly CLOSED.
    assert_eq!(h.state, CLOSED);
    assert_eq!(h.awaiter, None);
}

#[test]
fn cancel_after_completed_is_noop() {
    let before = COMPLETED | HANDLE | 2 * REFERENCE;
    let mut h = Header { state: before, awaiter: Some(Waker { id: 5 }) };
    h.cancel();
    h.cancel();
    h.cancel();
    assert_eq!(h.state, before);
    assert_eq!(h.awaiter, Some(Waker { id: 5 }));
}

#[test]
fn cancel_after_closed_is_noop() {
    let before = CLOSED | SCHEDULED;
    let mut h = Header { state: before, awaiter: None };
    h.cancel();
    h.cancel();
    assert_eq!(h.state, before);
    assert_eq!(h.awaiter, None);
}

#[test]
fn register_then_notify_wakes_once() {
    let mut h = Header { state: HANDLE | REFERENCE, awaiter: None };
    let w = Waker { id: 42 };
    // The registration stores the target without waking it.
    assert_eq!(h.register(&w), None);
    assert_eq!(h.awaiter, Some(w));
    assert_ne!(h.state & AWAITER, 0);
    // The notification drains and wakes it, exactly once.
    assert_eq!(h.notify(None), Some(w));
    assert_eq!(h.state & AWAITER, 0);
    assert_eq!(h.awaiter, None);
    // Nothing is left to wake.
    assert_eq!(h.notify(None), None);
}

#[test]
fn notify_then_register_wakes_immediately() {
    // A notification is in flight: NOTIFYING set, nothing stored.
    let mut h = Header { state: NOTIFYING | HANDLE, awaiter: None };
    assert_eq!(h.notify(None), None);
    let w = Waker { id: 7 };
    // The registration hands the target straight back for waking and
    // never stores it.
    assert_eq!(h.register(&w), Some(w));
    assert_eq!(h.awaiter, None);
    assert_eq!(h.state & AWAITER, 0);
}

#[test]
fn double_notify_wakes_at_most_once() {
    let mut h = Header { state: HANDLE, awaiter: None };
    let w = Waker { id: 9 };
    assert_eq!(h.register(&w), None);
    let first = h.notify(None);
    let second = h.notify(None);
    assert_eq!(first, Some(w));
    assert_eq!(second, None);
}

#[test]
fn self_wake_is_suppressed() {
    let mut h = Header { state: 0, awaiter: None };
    let w = Waker { id: 3 };
    assert_eq!(h.register(&w), None);
    // The notifier's own waker denotes the same observer: no wake, but the
    // cell is still drained.
    assert_eq!(h.notify(Some(&Waker { id: 3 })), None);
    assert_eq!(h.awaiter, None);
    assert_eq!(h.state & AWAITER, 0);
}

#[test]
fn foreign_wake_is_delivered() {
    let mut h = Header { state: 0, awaiter: None };
    let w = Waker { id: 3 };
    assert_eq!(h.register(&w), None);
    // A different observer's waker does not suppress the wake.
    assert_eq!(h.notify(Some(&Waker { id: 4 })), Some(w));
    assert_eq!(h.awaiter, None);
}

#[test]
fn notify_without_registration_wakes_nobody() {
    let mut h = Header { state: 0, awaiter: None };
    assert_eq!(h.notify(None), None);
    assert_eq!(h.awaiter, None);
}

#[test]
fn notify_during_registration_leaves_cell_alone() {
    // REGISTERING is held by the observer mid-protocol: the notifier only
    // leaves NOTIFYING set and does not touch the cell.
    let w = Waker { id: 11 };
    let mut h = Header { state: REGISTERING, awaiter: Some(w) };
    assert_eq!(h.notify(None), None);
    assert_eq!(h.state, REGISTERING | NOTIFYING);
    assert_eq!(h.awaiter, Some(w));
}

#[test]
fn will_wake_compares_targets() {
    let a = Waker { id: 1 };
    let b = Waker { id: 1 };
    let c = Waker { id: 2 };
    assert!(a.will_wake(&b));
    assert!(!a.will_wake(&c));
}

#[test]
fn ref_count_round_trip() {
    let before = SCHEDULED | HANDLE | REFERENCE;
    let mut h = Header { state: before, awaiter: None };
    h.acquire_ref();
    h.acquire_ref();
    h.acquire_ref();
    assert_eq!(h.state, SCHEDULED | HANDLE | 4 * REFERENCE);
    h.release_ref();
    h.release_ref();
    h.release_ref();
    // Back to the original word, flags untouched throughout.
    assert_eq!(h.state, before);
}

#[test]
fn snapshot_decodes_flags_and_count() {
    let h = Header {
        state: SCHEDULED | COMPLETED | AWAITER | HANDLE | 5 * REFERENCE,
        awaiter: Some(Waker { id: 1 }),
    };
    let v = h.snapshot();
    assert!(v.scheduled);
    assert!(!v.running);
    assert!(v.completed);
    assert!(!v.closed);
    assert!(v.awaiter);
    assert!(v.handle);
    assert_eq!(v.ref_count, 5);
}
