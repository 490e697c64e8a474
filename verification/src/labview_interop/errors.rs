//! Errors of the LabVIEW boundary.

use vstd::prelude::*;
use vstd::std_specs::convert::FromSpecImpl;
use vstd::string::StringExecFns;

verus! {

/// A failure inside the interop layer itself.
#[derive(Debug, Clone)]
pub enum InternalError {
    /// The LabVIEW run-time could not be reached; the text says why.
    NoLabviewApi(String),
    InvalidHandle,
    HandleCreationFailed,
}

/// Any failure that the interop layer reports.
#[derive(Debug, Clone)]
pub enum LVInteropError {
    InternalError(InternalError),
}

/// The message of an internal error.
pub open spec fn internal_message(error: InternalError) -> Seq<char> {
    match error {
        InternalError::NoLabviewApi(reason) => "LabVIEW API not available: "@ + reason@,
        InternalError::InvalidHandle => "Invalid handle"@,
        InternalError::HandleCreationFailed => "Handle creation failed"@,
    }
}

impl InternalError {
    /// The message that describes the error.
    pub fn message(&self) -> (r: String)
        ensures
            r@ == internal_message(*self),
    {
        match self {
            InternalError::NoLabviewApi(reason) => {
                let mut text = String::from_str("LabVIEW API not available: ");
                text.append(reason.as_str());
                text
            },
            InternalError::InvalidHandle => String::from_str("Invalid handle"),
            InternalError::HandleCreationFailed => String::from_str("Handle creation failed"),
        }
    }
}

impl LVInteropError {
    /// The message that describes the error: "Internal error: " and the
    /// message of the error inside.
    pub fn message(&self) -> (r: String)
        ensures
            r@ == match *self {
                LVInteropError::InternalError(inner) => "Internal error: "@ + internal_message(
                    inner,
                ),
            },
    {
        match self {
            LVInteropError::InternalError(inner) => {
                let mut text = String::from_str("Internal error: ");
                let detail = inner.message();
                text.append(detail.as_str());
                text
            },
        }
    }
}

impl From<InternalError> for LVInteropError {
    fn from(e: InternalError) -> (r: LVInteropError) {
        LVInteropError::InternalError(e)
    }
}

impl FromSpecImpl<InternalError> for LVInteropError {
    open spec fn obeys_from_spec() -> bool {
        true
    }

    open spec fn from_spec(e: InternalError) -> LVInteropError {
        LVInteropError::InternalError(e)
    }
}

} // verus!
