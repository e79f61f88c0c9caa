//! Entities and the caller-facing error taxonomy of the confirmation workflow.

use vstd::prelude::*;

verus! {

/// Identity of a subscriber: the 128-bit value behind a UUID-class identifier.
#[derive(Clone, Copy, PartialEq, Eq, Structural, Debug)]
pub struct SubscriberId {
    pub value: u128,
}

/// Lifecycle state of a subscriber; the workflow only ever moves it
/// from `Pending` to `Confirmed`.
#[derive(Clone, Copy, PartialEq, Eq, Structural, Debug)]
pub enum SubscriberStatus {
    Pending,
    Confirmed,
}

/// Query parameters of a confirmation request: the opaque one-time token.
pub struct Parameters {
    pub subscription_token: String,
}

/// An infrastructure fault reported by the storage layer (connectivity,
/// timeout, query error), distinct from the domain outcome "no such token".
/// The message is kept for operator-facing diagnostics.
#[derive(Debug)]
pub struct StorageError {
    pub message: String,
}

/// Which step of the workflow a storage fault came from.
#[derive(Clone, Copy, PartialEq, Eq, Structural, Debug)]
pub enum ConfirmationStep {
    Lookup,
    Commit,
}

/// Caller-facing failure of a confirmation attempt: either the token has no
/// binding (a domain error the caller triggered), or a storage fault reached
/// the handler, tagged with the step that raised it and its cause.
#[derive(Debug)]
pub enum ConfirmSubscriberError {
    InvalidTokenError,
    UnexpectedError(ConfirmationStep, StorageError),
}

/// HTTP status class owed to each failure: a rejected token is an
/// unauthorized-class outcome, a storage fault an internal server error.
pub open spec fn spec_status_code(e: ConfirmSubscriberError) -> u16 {
    match e {
        ConfirmSubscriberError::InvalidTokenError => 401u16,
        ConfirmSubscriberError::UnexpectedError(_, _) => 500u16,
    }
}

impl ConfirmSubscriberError {
    /// The HTTP status code a transport layer should answer with.
    pub fn status_code(&self) -> (code: u16)
        ensures
            code == spec_status_code(*self),
    {
        match self {
            ConfirmSubscriberError::InvalidTokenError => 401,
            ConfirmSubscriberError::UnexpectedError(_, _) => 500,
        }
    }
}

} // verus!
