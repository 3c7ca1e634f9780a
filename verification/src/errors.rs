//! The error taxonomy of the store.
//!
//! Client mistakes are classified precisely and carry a human-readable
//! reason; server faults are isolated to the request that hit them.

use vstd::prelude::*;
use vstd::string::StringExecFns;

verus! {

/// Every way an operation of the image service can fail.
#[derive(Debug, PartialEq, Eq)]
pub enum ApiError {
    /// A gated operation was attempted with a missing or mismatched credential.
    Unauthorized,
    /// The payload's signature was not recognized as any supported image format.
    UnreadableInput(String),
    /// The signature was recognized but the content failed to decode.
    InvalidImage(String),
    /// The operation referenced an identifier with no stored object.
    NotFound,
    /// Durable storage failed for a reason other than absence.
    StorageIo,
    /// The canonical encode failed after a successful decode.
    EncodeInternal,
}

impl ApiError {
    /// True of the errors that are the client's fault; the rest are server faults.
    pub open spec fn is_client_error(&self) -> bool {
        match *self {
            ApiError::Unauthorized => true,
            ApiError::UnreadableInput(_) => true,
            ApiError::InvalidImage(_) => true,
            ApiError::NotFound => true,
            ApiError::StorageIo => false,
            ApiError::EncodeInternal => false,
        }
    }

    /// The HTTP-style status that a transport binding reports for this error.
    pub fn status_code(&self) -> (code: u16)
        ensures
            code == match *self {
                ApiError::Unauthorized => 401u16,
                ApiError::UnreadableInput(_) => 400u16,
                ApiError::InvalidImage(_) => 400u16,
                ApiError::NotFound => 404u16,
                ApiError::StorageIo => 500u16,
                ApiError::EncodeInternal => 500u16,
            },
            400 <= code < 600,
            self.is_client_error() <==> code < 500,
    {
        match self {
            ApiError::Unauthorized => 401,
            ApiError::UnreadableInput(_) => 400,
            ApiError::InvalidImage(_) => 400,
            ApiError::NotFound => 404,
            ApiError::StorageIo => 500,
            ApiError::EncodeInternal => 500,
        }
    }

    /// The human-readable reason reported alongside the status.
    pub fn message(&self) -> (msg: String)
        ensures
            msg@ == match *self {
                ApiError::Unauthorized => "Unauthorized: Invalid or missing API key"@,
                ApiError::UnreadableInput(reason) => "Cannot read image: "@ + reason@,
                ApiError::InvalidImage(reason) => "Invalid image: "@ + reason@,
                ApiError::NotFound => "Not found"@,
                ApiError::StorageIo => "Storage failure"@,
                ApiError::EncodeInternal => "Encoding failure"@,
            },
    {
        match self {
            ApiError::Unauthorized => {
                String::from_str("Unauthorized: Invalid or missing API key")
            },
            ApiError::UnreadableInput(reason) => {
                String::from_str("Cannot read image: ").concat(reason.as_str())
            },
            ApiError::InvalidImage(reason) => {
                String::from_str("Invalid image: ").concat(reason.as_str())
            },
            ApiError::NotFound => String::from_str("Not found"),
            ApiError::StorageIo => String::from_str("Storage failure"),
            ApiError::EncodeInternal => String::from_str("Encoding failure"),
        }
    }
}

} // verus!
