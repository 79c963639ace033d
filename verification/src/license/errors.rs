//! Errors of license evaluation and of the cryptographic steps.
use vstd::prelude::*;

verus! {

/// Why an existing license cannot be evaluated.
pub enum EvaluationError {
    MajorVersionMismatch { expected: Option<u8>, found: Option<u8> },
    Crypto,
    InvalidProductVersion,
    LicenseInactive,
    EditionMismatch,
}

/// Errors of reading keys and of signing.
pub enum CryptoError {
    ReadError(String),
    ParseError(String),
    /// The signing primitive refused the digest.
    SignError(String),
}

/// Why a payload cannot be built from database rows.
pub enum PayloadError {
    /// The address has neither a maildrop nor a street.
    MissingAddressLine,
    /// A JSON column does not hold JSON.
    InvalidJson,
}

} // verus!
