//! The dispatcher's error taxonomy: one variant per failure stage, each
//! rendered for the caller as a plain descriptive string.

use vstd::prelude::*;
use vstd::string::StringExecFns;

verus! {

/// Where a dispatch failed. `UnsupportedMethod` is detected before any
/// request is assembled; the other two wrap the transport's own cause text,
/// telling a send failure apart from a failure while reading the response
/// body.
#[derive(Debug, PartialEq, Eq)]
pub enum DispatchError {
    UnsupportedMethod,
    SendFailed(String),
    ReadFailed(String),
}

/// The human-readable string each error is reported as.
pub open spec fn message_of(e: DispatchError) -> Seq<char> {
    match e {
        DispatchError::UnsupportedMethod => "Unsupported HTTP method"@,
        DispatchError::SendFailed(cause) => "Request failed: "@ + cause@,
        DispatchError::ReadFailed(cause) => "Failed to read response: "@ + cause@,
    }
}

impl DispatchError {
    /// Renders the error as the string handed back to the caller.
    pub fn message(&self) -> (r: String)
        ensures
            r@ == message_of(*self),
    {
        match self {
            DispatchError::UnsupportedMethod => String::from_str("Unsupported HTTP method"),
            DispatchError::SendFailed(cause) => String::from_str("Request failed: ").concat(
                cause.as_str(),
            ),
            DispatchError::ReadFailed(cause) => String::from_str("Failed to read response: ").concat(
                cause.as_str(),
            ),
        }
    }
}

} // verus!
