use yew_geolocation::watch::{CancelError, ClearWatch, WatchPositionTask};

/// A stand-in for the native layer: records every watch identifier it was
/// asked to clear.
struct FakeNativeLayer {
    cleared: Vec<u64>,
}

impl FakeNativeLayer {
    fn new() -> Self {
        FakeNativeLayer { cleared: Vec::new() }
    }

    fn clear_watch(&mut self, act: ClearWatch) {
        self.cleared.push(act.watch_id);
    }
}

#[test]
fn a_fresh_handle_is_active_and_names_its_subscription() {
    let t = WatchPositionTask::new(42);
    assert!(t.is_active());
    assert_eq!(t.watch_id(), 42);
}

#[test]
fn cancel_clears_the_subscription_and_deactivates() {
    let mut t = WatchPositionTask::new(7);
    let act = t.cancel();
    assert_eq!(act, ClearWatch { watch_id: 7 });
    assert!(!t.is_active());
}

#[test]
fn second_cancel_fails_deterministically() {
    let mut t = WatchPositionTask::new(3);
    assert_eq!(t.try_cancel(), Ok(ClearWatch { watch_id: 3 }));
    assert!(!t.is_active());
    assert_eq!(t.try_cancel(), Err(CancelError::AlreadyCancelled));
    assert_eq!(t.try_cancel(), Err(CancelError::AlreadyCancelled));
    assert!(!t.is_active());
}

#[test]
fn discarding_an_active_handle_clears_its_watch() {
    let mut native = FakeNativeLayer::new();
    let t = WatchPositionTask::new(11);
    if let Some(act) = t.release() {
        native.clear_watch(act);
    }
    assert_eq!(native.cleared, vec![11]);
}

#[test]
fn discarding_a_cancelled_handle_clears_nothing() {
    let mut native = FakeNativeLayer::new();
    let mut t = WatchPositionTask::new(11);
    native.clear_watch(t.cancel());
    if let Some(act) = t.release() {
        native.clear_watch(act);
    }
    assert_eq!(native.cleared, vec![11]);
}
