use std::task::Waker;
use thor::my_future::{OfficePoll, SharedOffice, ThorFuture};

#[test]
fn new_future_is_empty_and_pending() {
    let mut fut = ThorFuture::new();
    assert_eq!(fut.shared_office.occupants, 0);
    assert!(fut.shared_office.waker.is_none());
    assert_eq!(fut.poll(|| Waker::noop().clone()), OfficePoll::Pending);
    assert!(fut.shared_office.waker.is_some());
}

#[test]
fn default_matches_new() {
    let fut = ThorFuture::default();
    assert_eq!(fut.shared_office.occupants, 0);
    assert!(fut.shared_office.waker.is_none());
    let office = SharedOffice::default();
    assert_eq!(office.occupants, 0);
    assert!(office.waker.is_none());
}

#[test]
fn two_people_make_it_ready() {
    let mut fut = ThorFuture::new();
    fut.person_enter();
    assert_eq!(fut.poll(|| Waker::noop().clone()), OfficePoll::Pending);
    fut.person_enter();
    assert_eq!(fut.shared_office.occupants, 2);
    let mut ready = ThorFuture::new();
    ready.person_enter();
    ready.person_enter();
    assert_eq!(ready.poll(|| Waker::noop().clone()), OfficePoll::Ready);
    // A ready poll keeps no waker.
    assert!(ready.shared_office.waker.is_none());
}

#[test]
fn leaving_drops_below_quorum() {
    let mut fut = ThorFuture::new();
    fut.person_enter();
    fut.person_enter();
    fut.person_enter();
    assert_eq!(fut.poll(|| Waker::noop().clone()), OfficePoll::Ready);
    fut.person_leave();
    assert_eq!(fut.poll(|| Waker::noop().clone()), OfficePoll::Ready);
    fut.person_leave();
    assert_eq!(fut.shared_office.occupants, 1);
    assert_eq!(fut.poll(|| Waker::noop().clone()), OfficePoll::Pending);
}

#[test]
fn enter_then_leave_restores_office() {
    // Law: entering and leaving undo each other.
    let mut fut = ThorFuture::new();
    fut.person_enter();
    let before = fut.shared_office.occupants;
    fut.person_enter();
    fut.person_leave();
    assert_eq!(fut.shared_office.occupants, before);
    fut.person_leave();
    fut.person_enter();
    assert_eq!(fut.shared_office.occupants, before);
}

#[test]
fn take_waker_empties_the_slot() {
    let mut fut = ThorFuture::new();
    assert!(fut.shared_office.take_waker().is_none());
    fut.poll(|| Waker::noop().clone());
    let taken = fut.shared_office.take_waker();
    assert!(taken.is_some());
    assert!(fut.shared_office.waker.is_none());
    assert_eq!(fut.shared_office.occupants, 0);
}

#[test]
fn enter_up_to_u8_max() {
    let mut fut = ThorFuture::new();
    for _ in 0..255 {
        fut.person_enter();
    }
    assert_eq!(fut.shared_office.occupants, u8::MAX);
}

#[test]
fn ready_poll_does_not_ask_for_a_waker() {
    let mut fut = ThorFuture::new();
    fut.person_enter();
    fut.person_enter();
    let found = fut.poll(|| -> Waker { panic!("a ready poll keeps no waker") });
    assert_eq!(found, OfficePoll::Ready);
}

#[test]
fn any_mix_of_moves_ends_at_start_plus_entries_minus_departures() {
    // Law: 4 entries and 2 departures in any allowed order end at 2 people, and ready.
    let orders: [[bool; 6]; 3] = [
        [true, true, true, true, false, false],
        [true, false, true, false, true, true],
        [true, true, false, true, false, true],
    ];
    for order in orders {
        let mut fut = ThorFuture::new();
        for enter in order {
            if enter {
                fut.person_enter();
            } else {
                fut.person_leave();
            }
        }
        assert_eq!(fut.shared_office.occupants, 2);
        assert_eq!(fut.poll(|| Waker::noop().clone()), OfficePoll::Ready);
    }
}
