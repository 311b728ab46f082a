//! The error taxonomy shared across the core: one discriminated union,
//! with the store and authentication failures as structured kinds.

use vstd::prelude::*;

verus! {

/// A persistence failure, as the store facade reports it.
#[derive(Debug)]
pub enum StoreErrorKind {
    /// The requested row does not exist; expected and handled by callers.
    NotFound,
    /// A uniqueness or integrity rule was violated.
    Conflict,
    /// The connection pool could not hand out a connection.
    Connection,
    /// Any other backend failure, with its description.
    Backend(String),
}

/// An error surfaced by the store facade.
#[derive(Debug)]
pub struct StoreError {
    pub kind: StoreErrorKind,
}

impl StoreError {
    /// Whether this error reports a missing row.
    pub fn is_not_found(&self) -> (r: bool)
        ensures
            r == (self.kind is NotFound),
    {
        match self.kind {
            StoreErrorKind::NotFound => true,
            _ => false,
        }
    }

    /// A backend error carrying the given description.
    pub fn custom(reason: String) -> (r: Self)
        ensures
            r.kind == StoreErrorKind::Backend(reason),
    {
        StoreError { kind: StoreErrorKind::Backend(reason) }
    }
}

/// An authentication failure; each maps to a 401 with a fresh challenge.
#[derive(Clone, Copy, Debug, PartialEq, Eq, Structural)]
pub enum AuthErrorKind {
    MissingCredentials,
    BadDigest,
    NonceExpired,
}

/// The kind of a core error.
#[derive(Debug)]
pub enum ErrorKind {
    /// A malformed or incomplete SIP message; the input is dropped.
    Parse(String),
    /// A well-formed message that violates state-machine expectations.
    Protocol(String),
    /// A send or receive failure.
    Transport(String),
    /// A persistence failure.
    Store(StoreErrorKind),
    /// An authentication failure.
    Auth(AuthErrorKind),
    /// A broken internal expectation.
    Internal(String),
}

/// An error of the core, one taxonomy across all layers.
#[derive(Debug)]
pub struct Error {
    pub kind: ErrorKind,
}

impl Error {
    /// An internal error carrying the given description.
    pub fn custom(reason: String) -> (r: Self)
        ensures
            r.kind == ErrorKind::Internal(reason),
    {
        Error { kind: ErrorKind::Internal(reason) }
    }
}

} // verus!
