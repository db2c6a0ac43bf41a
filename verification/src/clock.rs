//! Wall-clock access for timestamping log entries and status updates.

use std::time::{Duration, SystemTime, UNIX_EPOCH};
use vstd::prelude::*;

verus! {

/// Milliseconds since the Unix epoch, or 0 if the clock is set before it.
///
/// Relies on std::time::SystemTime::now for the wall clock; nothing is
/// promised of the value.
#[verifier::external_body]
pub fn current_timestamp_ms() -> u64 {
    SystemTime::now().duration_since(UNIX_EPOCH).unwrap_or(Duration::from_secs(0)).as_millis()
        as u64
}

} // verus!
