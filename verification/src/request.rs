//! Encoding of request options into the record handed to the native layer.
//!
//! The native call takes a record of exactly three fields, under the names
//! the platform documents: `enableHighAccuracy`, `timeout` and `maximumAge`.
//! Encoding is total; decoding the record back recovers the options
//! exactly, which pins the encoding down as lossless.

use vstd::prelude::*;

use crate::decode::DecodeError;
use crate::types::PositionOptions;

verus! {

/// The value of one field of the native request record.
#[derive(Clone, Copy, Debug, PartialEq, Eq)]
pub enum RequestValue {
    /// A boolean field.
    Flag(bool),
    /// A millisecond count.
    Millis(u32),
}

/// One named field of the native request record.
#[derive(Clone, Debug, PartialEq, Eq)]
pub struct RequestField {
    pub name: String,
    pub value: RequestValue,
}

/// The options a request resolves to: the caller's, or the documented
/// defaults when the caller passed none.
pub open spec fn spec_resolve_options(options: Option<PositionOptions>) -> PositionOptions {
    match options {
        Some(o) => o,
        None => PositionOptions::spec_default(),
    }
}

/// The record `fields` is exactly the native encoding of `options`: three
/// fields, under the platform's names, carrying the three option values.
pub open spec fn encodes(fields: Seq<RequestField>, options: PositionOptions) -> bool {
    &&& fields.len() == 3
    &&& fields[0].name@ == "enableHighAccuracy"@
    &&& fields[0].value == RequestValue::Flag(options.enable_high_accuracy)
    &&& fields[1].name@ == "timeout"@
    &&& fields[1].value == RequestValue::Millis(options.timeout_ms)
    &&& fields[2].name@ == "maximumAge"@
    &&& fields[2].value == RequestValue::Millis(options.maximum_age)
}

/// The record has the shape of a native request: the right length, names
/// and field kinds.
pub open spec fn request_shape_ok(fields: Seq<RequestField>) -> bool {
    &&& fields.len() == 3
    &&& fields[0].name@ == "enableHighAccuracy"@
    &&& fields[0].value is Flag
    &&& fields[1].name@ == "timeout"@
    &&& fields[1].value is Millis
    &&& fields[2].name@ == "maximumAge"@
    &&& fields[2].value is Millis
}

/// The options a well-shaped request record carries.
pub open spec fn spec_decode_options(fields: Seq<RequestField>) -> PositionOptions {
    PositionOptions {
        enable_high_accuracy: fields[0].value->Flag_0,
        timeout_ms: fields[1].value->Millis_0,
        maximum_age: fields[2].value->Millis_0,
    }
}

/// Resolve optional options to the ones a request will carry.
pub fn resolve_options(options: Option<PositionOptions>) -> (r: PositionOptions)
    ensures
        r == spec_resolve_options(options),
{
    match options {
        Some(o) => o,
        None => PositionOptions::default(),
    }
}

/// Encode options as the three-field record the native call takes.
pub fn encode_options(options: &PositionOptions) -> (r: Vec<RequestField>)
    ensures
        encodes(r@, *options),
{
    let mut fields: Vec<RequestField> = Vec::new();
    fields.push(
        RequestField {
            name: String::from_str("enableHighAccuracy"),
            value: RequestValue::Flag(options.enable_high_accuracy),
        },
    );
    fields.push(
        RequestField {
            name: String::from_str("timeout"),
            value: RequestValue::Millis(options.timeout_ms),
        },
    );
    fields.push(
        RequestField {
            name: String::from_str("maximumAge"),
            value: RequestValue::Millis(options.maximum_age),
        },
    );
    fields
}

/// Read options back out of a request record, rejecting any record that is
/// not exactly the shape the native call takes.
pub fn decode_options(fields: &Vec<RequestField>) -> (r: Result<PositionOptions, DecodeError>)
    ensures
        request_shape_ok(fields@) ==> r == Ok::<PositionOptions, DecodeError>(
            spec_decode_options(fields@),
        ),
        !request_shape_ok(fields@) ==> r == Err::<PositionOptions, DecodeError>(
            DecodeError::WrongType,
        ),
{
    if fields.len() != 3 {
        return Err(DecodeError::WrongType);
    }
    let accuracy_name = String::from_str("enableHighAccuracy");
    let timeout_name = String::from_str("timeout");
    let age_name = String::from_str("maximumAge");
    if !(fields[0].name == accuracy_name) || !(fields[1].name == timeout_name)
        || !(fields[2].name == age_name) {
        return Err(DecodeError::WrongType);
    }
    let enable_high_accuracy = match &fields[0].value {
        RequestValue::Flag(b) => *b,
        _ => {
            return Err(DecodeError::WrongType);
        },
    };
    let timeout_ms = match &fields[1].value {
        RequestValue::Millis(n) => *n,
        _ => {
            return Err(DecodeError::WrongType);
        },
    };
    let maximum_age = match &fields[2].value {
        RequestValue::Millis(n) => *n,
        _ => {
            return Err(DecodeError::WrongType);
        },
    };
    Ok(PositionOptions { enable_high_accuracy, timeout_ms, maximum_age })
}

/// Encoding is lossless: any record that encodes some options is well
/// shaped, and decoding it yields those options back.
pub proof fn lemma_options_round_trip(fields: Seq<RequestField>, options: PositionOptions)
    requires
        encodes(fields, options),
    ensures
        request_shape_ok(fields),
        spec_decode_options(fields) == options,
{
}

} // verus!
