//! The error taxonomy of the core, together with the HTTP status class that
//! the transport layer renders each error with.
//!
//! The persistence boundary classifies raw storage faults into
//! `StorageConflict` (a uniqueness violation) and `StorageFailure` (any other
//! persistence fault) before they reach the services; the services themselves
//! never inspect storage-specific codes.

use vstd::prelude::*;

verus! {

/// Every failure that an operation of the core can report.
#[derive(Debug, PartialEq, Eq)]
pub enum AppError {
    /// Malformed or empty input (a bad URL, an empty username or password).
    ValidationError(String),
    /// An unknown user, link or short code.
    NotFound(String),
    /// A login that failed, deliberately without saying whether the username
    /// was unknown or the password wrong.
    InvalidCredentials,
    /// A bearer token that is malformed, signed with another secret, or
    /// expired.
    InvalidToken,
    /// Signing a fresh token failed; treated as an internal fault.
    TokenCreation,
    /// A storage uniqueness violation, e.g. a duplicate username.
    StorageConflict,
    /// Any other persistence fault.
    StorageFailure,
    /// A hashing fault or another unexpected internal failure.
    InternalError,
}

/// The HTTP status that the uniform response envelope carries for an error.
pub open spec fn spec_status_of(e: AppError) -> u16 {
    match e {
        AppError::ValidationError(_) => 400,
        AppError::NotFound(_) => 404,
        AppError::InvalidCredentials => 401,
        AppError::InvalidToken => 401,
        AppError::TokenCreation => 500,
        AppError::StorageConflict => 409,
        AppError::StorageFailure => 500,
        AppError::InternalError => 500,
    }
}

impl AppError {
    /// The HTTP status class of this error, for the response envelope.
    pub fn status(&self) -> (s: u16)
        ensures
            s == spec_status_of(*self),
    {
        match self {
            AppError::ValidationError(_) => 400,
            AppError::NotFound(_) => 404,
            AppError::InvalidCredentials => 401,
            AppError::InvalidToken => 401,
            AppError::TokenCreation => 500,
            AppError::StorageConflict => 409,
            AppError::StorageFailure => 500,
            AppError::InternalError => 500,
        }
    }
}

} // verus!
