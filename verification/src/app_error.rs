//! The error record surfaced to callers of the application layer.

use vstd::prelude::*;
use vstd::string::StringExecFns;

verus! {

pub const DEFAULT_ERROR_CODE: u32 = 1;

#[derive(Clone, Debug)]
pub struct AppError {
    pub status: u32,
    pub message: String,
    pub timestamp: i64,
}

/// Relies on chrono's `Utc::now`: the moment of the call as Unix epoch
/// milliseconds. Nothing is promised of the clock's reading.
#[verifier::external_body]
fn current_timestamp_millis() -> (r: i64) {
    chrono::offset::Utc::now().timestamp_millis()
}

impl AppError {
    pub fn new(status: u32, message: &str) -> (r: Self)
        ensures
            r.status == status,
            r.message@ == message@,
    {
        Self {
            status,
            message: String::from_str(message),
            timestamp: current_timestamp_millis(),
        }
    }
}

} // verus!
