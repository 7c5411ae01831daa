//! The wall clock at the ingestion boundary.

use vstd::prelude::*;

verus! {

/// Milliseconds since the Unix epoch, read from the system clock.
///
/// Relies on `std::time::SystemTime::now`, whose reading is then converted to
/// milliseconds with `duration_since(UNIX_EPOCH)` and `as_millis`. Nothing
/// can be promised of a clock reading; a clock set before the epoch yields 0
/// rather than a panic.
#[verifier::external_body]
pub fn get_timestamp() -> u64 {
    match std::time::SystemTime::now().duration_since(std::time::UNIX_EPOCH) {
        Ok(elapsed) => elapsed.as_millis() as u64,
        Err(_) => 0,
    }
}

} // verus!
