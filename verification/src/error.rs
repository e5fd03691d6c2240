//! Error taxonomy of the pairing and secure-command subsystem.
//!
//! Authentication, lookup and decryption failures are deliberately collapsed
//! into the single `Unauthorized` variant so that a rejected caller cannot
//! learn which check failed.
use vstd::prelude::*;

verus! {

/// Every failure a request-handling path can report.
#[derive(Clone, Copy, Debug, PartialEq, Eq, Structural)]
pub enum AppError {
    /// Unknown or invalid bearer credential, malformed nonce header, or a
    /// failed decryption; all masked as one outcome.
    Unauthorized,
    /// OTP mismatch, or no pairing is pending.
    InvalidRegistration,
    /// Client public key material is malformed or not exactly 32 bytes.
    InvalidClientPublicKey,
    /// The command lost the race against an explicit cancellation.
    RequestCancelled,
    /// A cancellation named a request id with no in-flight command.
    RequestNotFound,
    /// Notifier failure or execution-context failure.
    InternalServerError,
}

impl AppError {
    /// HTTP status code this error maps to at the transport boundary.
    pub fn status_code(&self) -> (code: u16)
        ensures
            code == self.spec_status_code(),
    {
        match self {
            AppError::Unauthorized => 401,
            AppError::InvalidRegistration => 401,
            AppError::InvalidClientPublicKey => 400,
            AppError::RequestCancelled => 499,
            AppError::RequestNotFound => 404,
            AppError::InternalServerError => 500,
        }
    }

    /// The status mapping, as a mathematical function.
    pub open spec fn spec_status_code(&self) -> u16 {
        match self {
            AppError::Unauthorized => 401,
            AppError::InvalidRegistration => 401,
            AppError::InvalidClientPublicKey => 400,
            AppError::RequestCancelled => 499,
            AppError::RequestNotFound => 404,
            AppError::InternalServerError => 500,
        }
    }
}

} // verus!
