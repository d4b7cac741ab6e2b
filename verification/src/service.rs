//! Issuance of position requests.
//!
//! The service turns a caller's request into the record the native call
//! takes, with absent options resolved to the documented defaults. Both
//! request forms return immediately; results arrive later as deliveries,
//! which the adapters in [`crate::dispatch`] handle. The host glue issues
//! the native call itself: for a one-shot query it hands the returned
//! record to the single-result native operation, for a watch it hands it
//! to the subscribing operation and wraps the returned identifier in a
//! [`WatchPositionTask`] via [`WatchPositionTask::new`].

use vstd::prelude::*;

use crate::request::{encode_options, encodes, resolve_options, spec_resolve_options,
    RequestField};
use crate::types::PositionOptions;
use crate::watch::WatchPositionTask;

verus! {

/// The position query service. It holds no state of its own: every request
/// is configured solely by the options passed into it.
#[derive(Debug)]
pub struct GeolocationService {}

impl GeolocationService {
    pub fn new() -> (s: Self) {
        GeolocationService {}
    }

    /// Prepare a one-shot position query: the native request record for
    /// exactly one native call, carrying the given options or the
    /// documented defaults. The eventual single delivery goes through
    /// [`crate::dispatch::dispatch_one_shot`]; once issued, the query
    /// cannot be retracted.
    pub fn get_current_position(&self, options: Option<PositionOptions>) -> (req: Vec<
        RequestField,
    >)
        ensures
            encodes(req@, spec_resolve_options(options)),
    {
        encode_options(&resolve_options(options))
    }

    /// Prepare a continuous watch: the native request record for the
    /// subscribing native call, carrying the given options or the
    /// documented defaults. Each delivery of the subscription goes through
    /// [`crate::dispatch::dispatch_watch`]; the subscription identifier the
    /// native layer returns belongs in a fresh [`WatchPositionTask`], the
    /// one owner that will clear it.
    pub fn watch_position(&mut self, options: Option<PositionOptions>) -> (req: Vec<
        RequestField,
    >)
        ensures
            encodes(req@, spec_resolve_options(options)),
            *final(self) == *old(self),
    {
        encode_options(&resolve_options(options))
    }
}

impl Default for GeolocationService {
    fn default() -> (s: Self) {
        GeolocationService {}
    }
}

} // verus!
