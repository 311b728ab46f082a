//! Core of a SIP signaling server: the message model, the client
//! transaction state machine with its RFC 3261 / RFC 6026 timers, the
//! transaction-user handlers for REGISTER, OPTIONS and fallback responses,
//! and an in-memory model of the persistence facade.

pub mod auth;
pub mod capabilities;
pub mod dialog;
pub mod errors;
pub mod message;
pub mod presets;
pub mod registration;
pub mod status;
pub mod store;
pub mod transaction_layer;
pub mod tu;
pub mod uac;

pub use errors::{Error, ErrorKind};
pub use status::{StatusCode, StatusCodeKind};
