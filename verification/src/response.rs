//! The envelope in which every operation's outcome is handed to a caller.

use crate::boundary::utc_now_rfc3339;
use vstd::prelude::*;

verus! {

/// An outcome with the time it was reported: either `data`, or a reason in
/// `error`, never both.
#[derive(Debug, PartialEq, Eq)]
pub struct ApiResponse<T> {
    pub success: bool,
    pub data: Option<T>,
    pub error: Option<String>,
    pub timestamp: String,
}

impl<T> ApiResponse<T> {
    /// A success carries data and no error; a failure an error and no data.
    pub open spec fn wf(self) -> bool {
        if self.success {
            self.data is Some && self.error is None
        } else {
            self.data is None && self.error is Some
        }
    }

    /// The envelope reports exactly `result`.
    pub open spec fn carries(self, result: Result<T, String>) -> bool {
        match result {
            Ok(value) => self.success && self.data == Some(value) && self.error is None,
            Err(reason) => !self.success && self.data is None && self.error == Some(reason),
        }
    }

    /// The envelope is a success that carries `value`.
    pub open spec fn succeeded_with(self, value: T) -> bool {
        self.success && self.data == Some(value) && self.error is None
    }

    /// The envelope is a failure whose reason reads `reason`.
    pub open spec fn failed_with(self, reason: Seq<char>) -> bool {
        &&& !self.success
        &&& self.data is None
        &&& self.error matches Some(text)
        &&& text@ == reason
    }

    /// A success reported at `timestamp`.
    pub fn success_at(data: T, timestamp: String) -> (out: Self)
        ensures
            out == (ApiResponse::<T> { success: true, data: Some(data), error: None, timestamp }),
    {
        ApiResponse { success: true, data: Some(data), error: None, timestamp }
    }

    /// A failure reported at `timestamp`.
    pub fn failure_at(error: String, timestamp: String) -> (out: Self)
        ensures
            out == (ApiResponse::<T> { success: false, data: None, error: Some(error), timestamp }),
    {
        ApiResponse { success: false, data: None, error: Some(error), timestamp }
    }

    /// The envelope of `result`, reported at `timestamp`.
    pub fn from_result_at(result: Result<T, String>, timestamp: String) -> (out: Self)
        ensures
            out.wf(),
            out.carries(result),
            out.timestamp == timestamp,
    {
        match result {
            Ok(data) => Self::success_at(data, timestamp),
            Err(error) => Self::failure_at(error, timestamp),
        }
    }

    /// A success reported now.
    pub fn success(data: T) -> (out: Self)
        ensures
            out.wf(),
            out.succeeded_with(data),
    {
        Self::success_at(data, utc_now_rfc3339())
    }

    /// A failure reported now.
    pub fn failure(error: String) -> (out: Self)
        ensures
            out.wf(),
            out.failed_with(error@),
            out.error == Some(error),
    {
        Self::failure_at(error, utc_now_rfc3339())
    }

    /// The envelope of `result`, reported now.
    pub fn from_result(result: Result<T, String>) -> (out: Self)
        ensures
            out.wf(),
            out.carries(result),
    {
        Self::from_result_at(result, utc_now_rfc3339())
    }
}

} // verus!
