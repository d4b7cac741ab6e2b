use yew_geolocation::decode::{DecodeError, RawPosition, RawPositionError, RawValue};
use yew_geolocation::dispatch::{dispatch_one_shot, dispatch_watch, DeliveryAction,
    DeliveryOutcome};
use yew_geolocation::dispatch::RawDelivery;
use yew_geolocation::types::{Position, PositionError};
use yew_geolocation::watch::WatchPositionTask;

/// A caller's side of the binding: two callbacks counting their
/// invocations, performing the actions a dispatcher hands back.
struct Harness {
    successes: Vec<Position>,
    errors: Vec<PositionError>,
    success_cb_released: bool,
    error_cb_released: bool,
}

impl Harness {
    fn new() -> Self {
        Harness {
            successes: Vec::new(),
            errors: Vec::new(),
            success_cb_released: false,
            error_cb_released: false,
        }
    }

    fn perform(&mut self, outcome: DeliveryOutcome) {
        match outcome.action {
            DeliveryAction::InvokeSuccess(p) => self.successes.push(p),
            DeliveryAction::InvokeError(e) => self.errors.push(e),
            DeliveryAction::Ignore => {}
            DeliveryAction::Abort(e) => panic!("native payload mismatch: {:?}", e),
        }
        if outcome.release_success_cb {
            self.success_cb_released = true;
        }
        if outcome.release_error_cb {
            self.error_cb_released = true;
        }
    }
}

fn raw_position(timestamp: u64) -> RawPosition {
    RawPosition {
        latitude: RawValue::Number(10.0_f64.to_bits()),
        longitude: RawValue::Number(20.0_f64.to_bits()),
        altitude: RawValue::Absent,
        accuracy: RawValue::Number(5.0_f64.to_bits()),
        altitude_accuracy: RawValue::Absent,
        heading: RawValue::Absent,
        speed: RawValue::Absent,
        timestamp: RawValue::Number(timestamp),
    }
}

fn raw_failure(code: u64) -> RawPositionError {
    RawPositionError {
        code: RawValue::Number(code),
        message: RawValue::Text(String::from("failed")),
    }
}

#[test]
fn one_shot_success_invokes_success_once_and_releases_both() {
    let mut h = Harness::new();
    let outcome = dispatch_one_shot(&RawDelivery::Success(raw_position(1000)), true);
    h.perform(outcome);
    assert_eq!(h.successes.len(), 1);
    assert_eq!(h.successes[0].timestamp, 1000);
    assert_eq!(h.errors.len(), 0);
    assert!(h.success_cb_released);
    assert!(h.error_cb_released);
}

#[test]
fn one_shot_failure_with_error_cb_invokes_it_and_releases_both() {
    let mut h = Harness::new();
    let outcome = dispatch_one_shot(&RawDelivery::Failure(raw_failure(3)), true);
    h.perform(outcome);
    assert_eq!(h.successes.len(), 0);
    assert_eq!(h.errors.len(), 1);
    assert_eq!(h.errors[0].message, "failed");
    assert!(h.success_cb_released);
    assert!(h.error_cb_released);
}

#[test]
fn one_shot_failure_without_error_cb_invokes_nothing_and_does_not_fail() {
    let mut h = Harness::new();
    let outcome = dispatch_one_shot(&RawDelivery::Failure(raw_failure(2)), false);
    h.perform(outcome);
    assert_eq!(h.successes.len(), 0);
    assert_eq!(h.errors.len(), 0);
    assert!(h.success_cb_released);
    assert!(h.error_cb_released);
}

#[test]
fn one_shot_malformed_payload_aborts_the_call_path() {
    let mut raw = raw_position(1);
    raw.latitude = RawValue::Absent;
    let outcome = dispatch_one_shot(&RawDelivery::Success(raw), true);
    assert_eq!(outcome.action, DeliveryAction::Abort(DecodeError::MissingField));
}

#[test]
fn watch_delivers_twice_in_order_and_handle_stays_active() {
    let mut h = Harness::new();
    let task = WatchPositionTask::new(5);

    h.perform(dispatch_watch(&RawDelivery::Success(raw_position(1000)), true));
    assert!(task.is_active());
    h.perform(dispatch_watch(&RawDelivery::Success(raw_position(2000)), true));
    assert!(task.is_active());

    assert_eq!(h.successes.len(), 2);
    assert_eq!(h.successes[0].timestamp, 1000);
    assert_eq!(h.successes[1].timestamp, 2000);
    assert_eq!(h.successes[0].coords.latitude, 10.0_f64.to_bits());
    assert_eq!(h.successes[1].coords.latitude, 10.0_f64.to_bits());
    assert!(!h.success_cb_released);
    assert!(!h.error_cb_released);
}

#[test]
fn watch_failure_keeps_both_callbacks_for_further_deliveries() {
    let mut h = Harness::new();
    h.perform(dispatch_watch(&RawDelivery::Failure(raw_failure(1)), true));
    assert_eq!(h.errors.len(), 1);
    assert!(!h.success_cb_released);
    assert!(!h.error_cb_released);

    h.perform(dispatch_watch(&RawDelivery::Success(raw_position(3000)), true));
    assert_eq!(h.successes.len(), 1);
}

#[test]
fn watch_failure_without_error_cb_is_dropped_silently() {
    let mut h = Harness::new();
    h.perform(dispatch_watch(&RawDelivery::Failure(raw_failure(1)), false));
    assert_eq!(h.successes.len(), 0);
    assert_eq!(h.errors.len(), 0);
    assert!(!h.success_cb_released);
    assert!(!h.error_cb_released);
}
