//! Typed data model of the geolocation binding.
//!
//! The native layer reports readings whose numeric fields are IEEE-754
//! doubles. This crate never computes with those numbers; it only carries
//! them through. Each double is therefore held as its 64-bit pattern,
//! unchanged, which lets the decoding contracts state exact preservation
//! of every field.

use vstd::prelude::*;

verus! {

/// Milliseconds since the Unix epoch, as the native layer counts time.
pub type DOMTimeStamp = u64;

/// Timeout value meaning "no limit": the largest representable 32-bit count.
pub const NO_TIMEOUT_MS: u32 = 0xFFFF_FFFF;

/// One geographic reading. `latitude`, `longitude` and `accuracy` are always
/// reported; the remaining fields are optional in the native record and stay
/// optional here. Every numeric field holds the bit pattern of the double
/// the native layer produced.
#[derive(Clone, Copy, Debug, PartialEq, Eq)]
pub struct Coordinates {
    pub latitude: u64,
    pub longitude: u64,
    pub altitude: Option<u64>,
    pub accuracy: u64,
    pub altitude_accuracy: Option<u64>,
    pub heading: Option<u64>,
    pub speed: Option<u64>,
}

/// A decoded position: coordinates plus the time of the reading.
/// Produced fresh for each delivery and never mutated afterwards.
#[derive(Clone, Copy, Debug, PartialEq, Eq)]
pub struct Position {
    pub coords: Coordinates,
    pub timestamp: DOMTimeStamp,
}

/// The closed set of failures the native layer can report.
#[derive(Clone, Copy, Debug, PartialEq, Eq)]
pub enum PositionErrorCode {
    PermissionDenied,
    PositionUnavailable,
    Timeout,
}

impl PositionErrorCode {
    /// The numeric code the native layer uses for this variant.
    pub open spec fn spec_native_code(self) -> u64 {
        match self {
            PositionErrorCode::PermissionDenied => 1,
            PositionErrorCode::PositionUnavailable => 2,
            PositionErrorCode::Timeout => 3,
        }
    }

    /// The variant a native numeric code stands for, if any.
    pub open spec fn spec_from_native(code: u64) -> Option<PositionErrorCode> {
        if code == 1 {
            Some(PositionErrorCode::PermissionDenied)
        } else if code == 2 {
            Some(PositionErrorCode::PositionUnavailable)
        } else if code == 3 {
            Some(PositionErrorCode::Timeout)
        } else {
            None
        }
    }

    pub fn native_code(&self) -> (code: u64)
        ensures
            code == self.spec_native_code(),
    {
        match self {
            PositionErrorCode::PermissionDenied => 1,
            PositionErrorCode::PositionUnavailable => 2,
            PositionErrorCode::Timeout => 3,
        }
    }

    pub fn from_native(code: u64) -> (r: Option<PositionErrorCode>)
        ensures
            r == PositionErrorCode::spec_from_native(code),
    {
        if code == 1 {
            Some(PositionErrorCode::PermissionDenied)
        } else if code == 2 {
            Some(PositionErrorCode::PositionUnavailable)
        } else if code == 3 {
            Some(PositionErrorCode::Timeout)
        } else {
            None
        }
    }
}

/// Native codes 1, 2 and 3 name exactly the three error variants, in that
/// order; every other code stands for no variant at all. Mapping a variant
/// to its code and back returns the same variant.
pub proof fn lemma_error_code_mapping(code: u64, e: PositionErrorCode)
    ensures
        code == 1 ==> PositionErrorCode::spec_from_native(code)
            == Some(PositionErrorCode::PermissionDenied),
        code == 2 ==> PositionErrorCode::spec_from_native(code)
            == Some(PositionErrorCode::PositionUnavailable),
        code == 3 ==> PositionErrorCode::spec_from_native(code)
            == Some(PositionErrorCode::Timeout),
        !(1 <= code <= 3) ==> PositionErrorCode::spec_from_native(code) is None,
        PositionErrorCode::spec_from_native(e.spec_native_code()) == Some(e),
{
}

/// A failure reported by the native layer: one of the closed error codes
/// plus a human-readable message, both produced by the platform.
#[derive(Clone, Debug, PartialEq, Eq)]
pub struct PositionError {
    pub code: PositionErrorCode,
    pub message: String,
}

/// Configuration of a single request. Passed by value into each call; it has
/// no identity beyond the call it configures.
#[derive(Clone, Copy, Debug, PartialEq, Eq)]
pub struct PositionOptions {
    /// Ask the platform for best-effort precision, at possible battery and
    /// latency cost.
    pub enable_high_accuracy: bool,
    /// How long the platform may take before giving up, in milliseconds;
    /// `NO_TIMEOUT_MS` means no limit.
    pub timeout_ms: u32,
    /// Accept a cached reading no older than this many milliseconds.
    pub maximum_age: u32,
}

impl PositionOptions {
    /// The documented defaults: low accuracy, no timeout, no cached reading.
    pub open spec fn spec_default() -> PositionOptions {
        PositionOptions { enable_high_accuracy: false, timeout_ms: NO_TIMEOUT_MS, maximum_age: 0 }
    }
}

impl Default for PositionOptions {
    fn default() -> (r: Self)
        ensures
            r == PositionOptions::spec_default(),
    {
        PositionOptions { enable_high_accuracy: false, timeout_ms: NO_TIMEOUT_MS, maximum_age: 0 }
    }
}

} // verus!
