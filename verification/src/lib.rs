//! Core logic of a geolocation binding for browser-style hosts.
//!
//! The native platform offers three operations: a one-shot position query, a
//! continuous position watch, and cancellation of a watch by its identifier.
//! Results arrive asynchronously as loosely typed records. This crate holds
//! the verified part of the binding:
//!
//! - the typed data model ([`types`]): positions, options, errors;
//! - decoding of raw native payloads into typed values ([`decode`]);
//! - encoding of request options into the record handed to the native layer
//!   ([`request`]);
//! - the delivery policy: which callback a native delivery reaches and when
//!   the captured callbacks are released ([`dispatch`]);
//! - the watch-handle lifecycle: active to inactive exactly once
//!   ([`watch`]);
//! - request issuance ([`service`]).
//!
//! The host glue that performs the actual native calls and owns the real
//! callbacks lives outside this crate; it feeds deliveries in and carries
//! the returned actions out.

pub mod decode;
pub mod dispatch;
pub mod request;
pub mod service;
pub mod types;
pub mod watch;
