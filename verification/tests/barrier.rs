use await_group::{AwaitGroup, PollState, Registry};

#[test]
fn smoke() {
    let mut reg = Registry::new();
    let wg = AwaitGroup::new(&mut reg);
    let mut workers: Vec<AwaitGroup> = Vec::new();
    for _ in 0..10 {
        workers.push(wg.clone_handle(&mut reg));
    }
    let (waiter, fired) = wg.into_waiter(&mut reg);
    assert!(fired.is_none());
    let mut released: usize = 0;
    for worker in workers {
        assert!(matches!(waiter.poll(&mut reg, 7), PollState::Pending));
        let fired = worker.release(&mut reg);
        released += 1;
        if released < 10 {
            assert!(fired.is_none());
        } else {
            assert_eq!(fired, Some(7));
        }
    }
    assert!(matches!(waiter.poll(&mut reg, 7), PollState::Ready));
}

#[test]
fn sole_handle_resolves_immediately() {
    let mut reg = Registry::new();
    let wg = AwaitGroup::new(&mut reg);
    let (waiter, fired) = wg.into_waiter(&mut reg);
    assert!(fired.is_none());
    assert!(matches!(waiter.poll(&mut reg, 1), PollState::Ready));
}

#[test]
fn ready_is_idempotent() {
    let mut reg = Registry::new();
    let wg = AwaitGroup::new(&mut reg);
    let (waiter, _) = wg.into_waiter(&mut reg);
    for _ in 0..5 {
        assert!(matches!(waiter.poll(&mut reg, 3), PollState::Ready));
    }
}

#[test]
fn abandoned_waiter_has_no_effect() {
    let mut reg = Registry::new();
    let first = AwaitGroup::new(&mut reg);
    let second = first.clone_handle(&mut reg);
    let (abandoned, fired) = first.into_waiter(&mut reg);
    assert!(fired.is_none());
    assert!(matches!(abandoned.poll(&mut reg, 1), PollState::Pending));
    drop(abandoned);
    // The barrier still resolves for a later waiter; the single wake slot
    // keeps the abandoned waiter's registration until overwritten, so the
    // completing release hands back that registration.
    let (waiter, fired) = second.into_waiter(&mut reg);
    assert_eq!(fired, Some(1));
    assert!(matches!(waiter.poll(&mut reg, 2), PollState::Ready));
}

#[test]
fn barriers_are_isolated() {
    let mut reg = Registry::new();
    let left = AwaitGroup::new(&mut reg);
    let right = AwaitGroup::new(&mut reg);
    let left_clone = left.clone_handle(&mut reg);
    let (left_waiter, _) = left.into_waiter(&mut reg);
    let (right_waiter, fired) = right.into_waiter(&mut reg);
    // Completing the right barrier leaves the left one pending.
    assert!(fired.is_none());
    assert!(matches!(right_waiter.poll(&mut reg, 2), PollState::Ready));
    assert!(matches!(left_waiter.poll(&mut reg, 1), PollState::Pending));
    // Completing the left barrier leaves the right one ready.
    let fired = left_clone.release(&mut reg);
    assert_eq!(fired, Some(1));
    assert!(matches!(left_waiter.poll(&mut reg, 1), PollState::Ready));
    assert!(matches!(right_waiter.poll(&mut reg, 2), PollState::Ready));
}

#[test]
fn last_registration_wins() {
    let mut reg = Registry::new();
    let wg = AwaitGroup::new(&mut reg);
    let worker = wg.clone_handle(&mut reg);
    let (waiter, _) = wg.into_waiter(&mut reg);
    assert!(matches!(waiter.poll(&mut reg, 1), PollState::Pending));
    assert!(matches!(waiter.poll(&mut reg, 2), PollState::Pending));
    // The completing release fires the most recent registration only.
    assert_eq!(worker.release(&mut reg), Some(2));
}

#[test]
fn completion_without_registration_fires_nothing() {
    let mut reg = Registry::new();
    let wg = AwaitGroup::new(&mut reg);
    let worker = wg.clone_handle(&mut reg);
    assert!(wg.release(&mut reg).is_none());
    // Last release with no waiter ever registered: nothing to wake.
    assert!(worker.release(&mut reg).is_none());
}

#[test]
fn liveness_tracks_releases() {
    let mut reg = Registry::new();
    let wg = AwaitGroup::new(&mut reg);
    let a = wg.clone_handle(&mut reg);
    let b = wg.clone_handle(&mut reg);
    assert!(wg.is_live(&reg));
    assert!(wg.can_clone(&reg));
    assert!(wg.release(&mut reg).is_none());
    assert!(a.is_live(&reg));
    assert!(a.release(&mut reg).is_none());
    assert!(b.is_live(&reg));
    assert!(b.release(&mut reg).is_none());
}

#[test]
fn waiter_stays_in_registry_after_completion() {
    let mut reg = Registry::new();
    let wg = AwaitGroup::new(&mut reg);
    let (waiter, _) = wg.into_waiter(&mut reg);
    assert!(waiter.in_registry(&reg));
    assert!(matches!(waiter.poll(&mut reg, 4), PollState::Ready));
    assert!(waiter.in_registry(&reg));
}
