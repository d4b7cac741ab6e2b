//! Decoding of raw native payloads into typed values.
//!
//! The native layer hands the binding loosely typed records: each field is
//! absent, a number, or a string. The host glue carries numeric fields over
//! as 64-bit values (the bit pattern of the double for coordinate-like
//! fields, the integral count for the timestamp and the error code) without
//! interpreting them. Decoding is the single fallible step that turns such a
//! record into a typed [`Position`] or [`PositionError`], or reports exactly
//! how the record failed to match the expected shape.

use vstd::prelude::*;

use crate::types::{Coordinates, Position, PositionError, PositionErrorCode};

verus! {

/// One field of a raw native record.
#[derive(Clone, Debug, PartialEq, Eq)]
pub enum RawValue {
    /// The field is missing from the record.
    Absent,
    /// A numeric field, carried as 64 bits.
    Number(u64),
    /// A string field.
    Text(String),
}

impl RawValue {
    /// An optional numeric field must be absent or a number; a string there
    /// is a shape mismatch.
    pub open spec fn is_optional_number(self) -> bool {
        self is Absent || self is Number
    }

    /// The typed form of an optional numeric field.
    pub open spec fn spec_to_optional(self) -> Option<u64> {
        if self is Number {
            Some(self->Number_0)
        } else {
            None
        }
    }
}

/// The fields of a raw success delivery: the reading's measurements and
/// its timestamp, each as the host glue received it.
#[derive(Clone, Debug, PartialEq, Eq)]
pub struct RawPosition {
    pub latitude: RawValue,
    pub longitude: RawValue,
    pub altitude: RawValue,
    pub accuracy: RawValue,
    pub altitude_accuracy: RawValue,
    pub heading: RawValue,
    pub speed: RawValue,
    pub timestamp: RawValue,
}

/// The fields of a raw failure delivery.
#[derive(Clone, Debug, PartialEq, Eq)]
pub struct RawPositionError {
    pub code: RawValue,
    pub message: RawValue,
}

/// Why a raw record could not be decoded.
#[derive(Clone, Copy, Debug, PartialEq, Eq, Structural)]
pub enum DecodeError {
    /// A required field is missing from the record.
    MissingField,
    /// A field is present but has the wrong shape.
    WrongType,
    /// The error code is a number outside the closed set the platform
    /// defines.
    UnknownCode,
}

impl RawPosition {
    /// Some field the platform always reports is missing.
    pub open spec fn some_required_absent(self) -> bool {
        ||| self.latitude is Absent
        ||| self.longitude is Absent
        ||| self.accuracy is Absent
        ||| self.timestamp is Absent
    }

    /// The record has exactly the expected shape: required fields numeric,
    /// optional fields numeric or absent.
    pub open spec fn well_formed(self) -> bool {
        &&& self.latitude is Number
        &&& self.longitude is Number
        &&& self.accuracy is Number
        &&& self.timestamp is Number
        &&& self.altitude.is_optional_number()
        &&& self.altitude_accuracy.is_optional_number()
        &&& self.heading.is_optional_number()
        &&& self.speed.is_optional_number()
    }

    /// The typed position a well-formed record stands for: every field
    /// carried over unchanged, absent optional fields staying absent.
    pub open spec fn decoded(self) -> Position {
        Position {
            coords: Coordinates {
                latitude: self.latitude->Number_0,
                longitude: self.longitude->Number_0,
                altitude: self.altitude.spec_to_optional(),
                accuracy: self.accuracy->Number_0,
                altitude_accuracy: self.altitude_accuracy.spec_to_optional(),
                heading: self.heading.spec_to_optional(),
                speed: self.speed.spec_to_optional(),
            },
            timestamp: self.timestamp->Number_0,
        }
    }

    /// What decoding a raw position record yields: the typed position for a
    /// well-formed record, otherwise the first applicable failure — a
    /// missing required field before a wrongly shaped one.
    pub open spec fn spec_decode(self) -> Result<Position, DecodeError> {
        if self.some_required_absent() {
            Err(DecodeError::MissingField)
        } else if !self.well_formed() {
            Err(DecodeError::WrongType)
        } else {
            Ok(self.decoded())
        }
    }
}

impl RawPositionError {
    /// Some field of the error record is missing.
    pub open spec fn some_required_absent(self) -> bool {
        self.code is Absent || self.message is Absent
    }

    /// The record has the expected shape: a numeric code and a string
    /// message. Whether the code names a known variant is a separate
    /// question.
    pub open spec fn well_formed(self) -> bool {
        self.code is Number && self.message is Text
    }

    /// What decoding a raw error record yields: the typed error when the
    /// shape matches and the code names a variant; otherwise the first
    /// applicable failure.
    pub open spec fn spec_decode(self) -> Result<PositionError, DecodeError> {
        if self.some_required_absent() {
            Err(DecodeError::MissingField)
        } else if !self.well_formed() {
            Err(DecodeError::WrongType)
        } else if PositionErrorCode::spec_from_native(self.code->Number_0) is None {
            Err(DecodeError::UnknownCode)
        } else {
            Ok(PositionError {
                code: PositionErrorCode::spec_from_native(self.code->Number_0)->Some_0,
                message: self.message->Text_0,
            })
        }
    }
}

/// Turn an optional numeric field into its typed form.
fn decode_optional(v: &RawValue) -> (r: Option<u64>)
    requires
        v.is_optional_number(),
    ensures
        r == v.spec_to_optional(),
{
    match v {
        RawValue::Number(n) => Some(*n),
        _ => None,
    }
}

/// Decode a raw success payload into a typed position.
pub fn decode_position(raw: &RawPosition) -> (r: Result<Position, DecodeError>)
    ensures
        r == raw.spec_decode(),
{
    if matches!(raw.latitude, RawValue::Absent) || matches!(raw.longitude, RawValue::Absent)
        || matches!(raw.accuracy, RawValue::Absent) || matches!(raw.timestamp, RawValue::Absent) {
        return Err(DecodeError::MissingField);
    }
    let latitude = match &raw.latitude {
        RawValue::Number(n) => *n,
        _ => {
            return Err(DecodeError::WrongType);
        },
    };
    let longitude = match &raw.longitude {
        RawValue::Number(n) => *n,
        _ => {
            return Err(DecodeError::WrongType);
        },
    };
    let accuracy = match &raw.accuracy {
        RawValue::Number(n) => *n,
        _ => {
            return Err(DecodeError::WrongType);
        },
    };
    let timestamp = match &raw.timestamp {
        RawValue::Number(n) => *n,
        _ => {
            return Err(DecodeError::WrongType);
        },
    };
    if matches!(raw.altitude, RawValue::Text(_)) || matches!(raw.altitude_accuracy, RawValue::Text(_))
        || matches!(raw.heading, RawValue::Text(_)) || matches!(raw.speed, RawValue::Text(_)) {
        return Err(DecodeError::WrongType);
    }
    Ok(Position {
        coords: Coordinates {
            latitude,
            longitude,
            altitude: decode_optional(&raw.altitude),
            accuracy,
            altitude_accuracy: decode_optional(&raw.altitude_accuracy),
            heading: decode_optional(&raw.heading),
            speed: decode_optional(&raw.speed),
        },
        timestamp,
    })
}

/// Decode a raw failure payload into a typed position error.
pub fn decode_position_error(raw: &RawPositionError) -> (r: Result<PositionError, DecodeError>)
    ensures
        r == raw.spec_decode(),
{
    if matches!(raw.code, RawValue::Absent) || matches!(raw.message, RawValue::Absent) {
        return Err(DecodeError::MissingField);
    }
    let code = match &raw.code {
        RawValue::Number(n) => *n,
        _ => {
            return Err(DecodeError::WrongType);
        },
    };
    let message = match &raw.message {
        RawValue::Text(s) => s.clone(),
        _ => {
            return Err(DecodeError::WrongType);
        },
    };
    match PositionErrorCode::from_native(code) {
        Some(c) => Ok(PositionError { code: c, message }),
        None => Err(DecodeError::UnknownCode),
    }
}

/// Decoding a well-formed success payload preserves every field exactly:
/// the three always-present measurements and the timestamp are carried over
/// unchanged, and each optional field maps absent to absent and present to
/// the same value.
pub proof fn lemma_decode_position_preserves_fields(raw: RawPosition)
    requires
        raw.well_formed(),
    ensures
        raw.spec_decode() == Ok::<Position, DecodeError>(raw.decoded()),
        raw.decoded().coords.latitude == raw.latitude->Number_0,
        raw.decoded().coords.longitude == raw.longitude->Number_0,
        raw.decoded().coords.accuracy == raw.accuracy->Number_0,
        raw.decoded().timestamp == raw.timestamp->Number_0,
        raw.altitude is Absent ==> raw.decoded().coords.altitude is None,
        raw.altitude is Number ==> raw.decoded().coords.altitude == Some(raw.altitude->Number_0),
        raw.altitude_accuracy is Absent ==> raw.decoded().coords.altitude_accuracy is None,
        raw.altitude_accuracy is Number ==> raw.decoded().coords.altitude_accuracy
            == Some(raw.altitude_accuracy->Number_0),
        raw.heading is Absent ==> raw.decoded().coords.heading is None,
        raw.heading is Number ==> raw.decoded().coords.heading == Some(raw.heading->Number_0),
        raw.speed is Absent ==> raw.decoded().coords.speed is None,
        raw.speed is Number ==> raw.decoded().coords.speed == Some(raw.speed->Number_0),
{
}

/// Decoding an error record maps each native code in the closed set to its
/// named variant and passes the message through unchanged; any other
/// numeric code decodes to the unknown-code failure, never to a success.
pub proof fn lemma_decode_error_code(raw: RawPositionError)
    requires
        raw.well_formed(),
    ensures
        raw.code->Number_0 == 1 ==> raw.spec_decode() == Ok::<PositionError, DecodeError>(
            PositionError {
                code: PositionErrorCode::PermissionDenied,
                message: raw.message->Text_0,
            },
        ),
        raw.code->Number_0 == 2 ==> raw.spec_decode() == Ok::<PositionError, DecodeError>(
            PositionError {
                code: PositionErrorCode::PositionUnavailable,
                message: raw.message->Text_0,
            },
        ),
        raw.code->Number_0 == 3 ==> raw.spec_decode() == Ok::<PositionError, DecodeError>(
            PositionError { code: PositionErrorCode::Timeout, message: raw.message->Text_0 },
        ),
        !(1 <= raw.code->Number_0 <= 3) ==> raw.spec_decode() == Err::<PositionError, DecodeError>(
            DecodeError::UnknownCode,
        ),
{
}

} // verus!
