//! Delivery policy: what a native delivery does to the caller's callbacks.
//!
//! Every native delivery is either a success payload or a failure payload.
//! The adapter decodes it and decides which of the caller's two callbacks —
//! success, and an optional error callback — the delivery reaches, and
//! whether the captured callbacks are released afterwards. The one-shot
//! query and the continuous watch share the decoding and differ in exactly
//! one point: a one-shot delivery releases both callbacks regardless of
//! which branch fired, while a watch delivery keeps both, since further
//! deliveries may follow (also after an error: the native layer may keep
//! retrying, so the watch keeps its callbacks until it is cancelled).

use vstd::prelude::*;

use crate::decode::{decode_position, decode_position_error, DecodeError, RawPosition,
    RawPositionError};
use crate::types::{Position, PositionError};

verus! {

/// One delivery from the native layer.
#[derive(Clone, Debug, PartialEq, Eq)]
pub enum RawDelivery {
    /// A raw position record.
    Success(RawPosition),
    /// A raw error record.
    Failure(RawPositionError),
}

/// What a delivery does: which callback fires, with which typed value. At
/// most one callback fires per delivery, exactly once, by construction.
#[derive(Clone, Debug, PartialEq, Eq)]
pub enum DeliveryAction {
    /// Invoke the success callback with the decoded position.
    InvokeSuccess(Position),
    /// Invoke the error callback with the decoded error.
    InvokeError(PositionError),
    /// Drop the delivery: no callback fires and the caller is not failed.
    Ignore,
    /// The payload did not match the expected shape: a contract mismatch
    /// with the native layer, fatal for this call path only.
    Abort(DecodeError),
}

/// The outcome of one delivery: the action, plus whether each captured
/// callback is released afterwards. While a callback is not released it
/// stays owned by the native layer for further deliveries.
#[derive(Clone, Debug, PartialEq, Eq)]
pub struct DeliveryOutcome {
    pub action: DeliveryAction,
    pub release_success_cb: bool,
    pub release_error_cb: bool,
}

/// The action a delivery maps to, shared by the one-shot and the watch
/// adapter. A failure with no error callback registered is dropped before
/// any decoding is attempted; a payload that fails to decode aborts the
/// call path.
pub open spec fn spec_dispatch(delivery: RawDelivery, has_error_cb: bool) -> DeliveryAction {
    match delivery {
        RawDelivery::Success(raw) => match raw.spec_decode() {
            Ok(p) => DeliveryAction::InvokeSuccess(p),
            Err(e) => DeliveryAction::Abort(e),
        },
        RawDelivery::Failure(raw) => if !has_error_cb {
            DeliveryAction::Ignore
        } else {
            match raw.spec_decode() {
                Ok(e) => DeliveryAction::InvokeError(e),
                Err(e) => DeliveryAction::Abort(e),
            }
        },
    }
}

/// Decode one delivery and pick the callback it reaches.
fn dispatch_action(delivery: &RawDelivery, has_error_cb: bool) -> (action: DeliveryAction)
    ensures
        action == spec_dispatch(*delivery, has_error_cb),
{
    match delivery {
        RawDelivery::Success(raw) => match decode_position(raw) {
            Ok(p) => DeliveryAction::InvokeSuccess(p),
            Err(e) => DeliveryAction::Abort(e),
        },
        RawDelivery::Failure(raw) => {
            if !has_error_cb {
                DeliveryAction::Ignore
            } else {
                match decode_position_error(raw) {
                    Ok(e) => DeliveryAction::InvokeError(e),
                    Err(e) => DeliveryAction::Abort(e),
                }
            }
        },
    }
}

/// Handle the single delivery of a one-shot query. Exactly one of the two
/// callbacks fires, at most once, and both captured callbacks are released
/// regardless of which branch fired: no further delivery will come. A
/// failure with no error callback registered fires nothing and does not
/// fail the caller.
pub fn dispatch_one_shot(delivery: &RawDelivery, has_error_cb: bool) -> (r: DeliveryOutcome)
    ensures
        r.action == spec_dispatch(*delivery, has_error_cb),
        r.release_success_cb,
        r.release_error_cb,
        delivery is Failure && !has_error_cb ==> r.action == DeliveryAction::Ignore,
{
    DeliveryOutcome {
        action: dispatch_action(delivery, has_error_cb),
        release_success_cb: true,
        release_error_cb: true,
    }
}

/// Handle one delivery of a continuous watch. The action is the same as for
/// a one-shot delivery, but neither callback is released: the subscription
/// stays live and more deliveries may follow, until the watch handle is
/// cancelled.
pub fn dispatch_watch(delivery: &RawDelivery, has_error_cb: bool) -> (r: DeliveryOutcome)
    ensures
        r.action == spec_dispatch(*delivery, has_error_cb),
        !r.release_success_cb,
        !r.release_error_cb,
{
    DeliveryOutcome {
        action: dispatch_action(delivery, has_error_cb),
        release_success_cb: false,
        release_error_cb: false,
    }
}

/// A native failure delivered to a one-shot query that registered no error
/// callback fires no callback at all and does not fail the caller — and
/// still releases both captured callbacks.
pub proof fn lemma_one_shot_failure_without_error_cb(delivery: RawDelivery)
    requires
        delivery is Failure,
    ensures
        spec_dispatch(delivery, false) == DeliveryAction::Ignore,
{
}

} // verus!
