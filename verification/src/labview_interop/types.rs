//! Status codes of the LabVIEW run-time.

use crate::labview_interop::errors::{InternalError, LVInteropError};
use vstd::prelude::*;

verus! {

/// The status that a call into the run-time returns.
#[allow(non_camel_case_types)]
#[derive(Debug, Clone, Copy, PartialEq, Eq, Structural)]
pub enum LVStatusCode {
    SUCCESS,
    ZONE_ERROR,
    FULL_ERROR,
    ARG_ERROR,
}

impl LVStatusCode {
    /// The number of a status code.
    pub open spec fn spec_code(self) -> i32 {
        match self {
            LVStatusCode::SUCCESS => 0i32,
            LVStatusCode::ZONE_ERROR => (-4i32) as i32,
            LVStatusCode::FULL_ERROR => (-2i32) as i32,
            LVStatusCode::ARG_ERROR => 1i32,
        }
    }

    /// The number of a status code.
    #[verifier::when_used_as_spec(spec_code)]
    pub fn code(self) -> (r: i32)
        ensures
            r == self.spec_code(),
    {
        match self {
            LVStatusCode::SUCCESS => 0,
            LVStatusCode::ZONE_ERROR => -4,
            LVStatusCode::FULL_ERROR => -2,
            LVStatusCode::ARG_ERROR => 1,
        }
    }

    /// The status code with the given number, if there is one.
    pub fn from_code(code: i32) -> (r: Option<LVStatusCode>)
        ensures
            match r {
                Some(status) => status.spec_code() == code,
                None => code != 0 && code != -4 && code != -2 && code != 1,
            },
    {
        if code == 0 {
            Some(LVStatusCode::SUCCESS)
        } else if code == -4 {
            Some(LVStatusCode::ZONE_ERROR)
        } else if code == -2 {
            Some(LVStatusCode::FULL_ERROR)
        } else if code == 1 {
            Some(LVStatusCode::ARG_ERROR)
        } else {
            None
        }
    }

    /// `value` on success; on any other status the error of an invalid
    /// handle.
    pub fn to_specific_result<T>(self, value: T) -> (r: Result<T, LVInteropError>)
        ensures
            match r {
                Ok(v) => self == LVStatusCode::SUCCESS && v == value,
                Err(e) => self != LVStatusCode::SUCCESS && e == LVInteropError::InternalError(
                    InternalError::InvalidHandle,
                ),
            },
    {
        match self {
            LVStatusCode::SUCCESS => Ok(value),
            _ => Err(LVInteropError::InternalError(InternalError::InvalidHandle)),
        }
    }
}

/// The number that reports success to LabVIEW.
pub fn lv_status_success() -> (r: i32)
    ensures
        r == LVStatusCode::SUCCESS.spec_code(),
{
    LVStatusCode::SUCCESS.code()
}

/// The number that reports an error to LabVIEW.
pub fn lv_status_error() -> (r: i32)
    ensures
        r == LVStatusCode::ARG_ERROR.spec_code(),
{
    LVStatusCode::ARG_ERROR.code()
}

} // verus!
