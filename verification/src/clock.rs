//! The system clock. The functions in this file are believed, not proved;
//! none of them promises anything of what it returns.

use vstd::prelude::*;

verus! {

#[verifier::external_type_specification]
#[verifier::external_body]
pub struct ExSystemTime(std::time::SystemTime);

/// `std::time::SystemTime::now`: the system clock's reading.
#[verifier::external_body]
pub(crate) fn system_now() -> std::time::SystemTime {
    std::time::SystemTime::now()
}

/// `std::time::SystemTime::duration_since` against `UNIX_EPOCH`: the time
/// from the epoch to the reading, and `None` where the reading lies before
/// the epoch.
#[verifier::external_body]
pub(crate) fn since_epoch(reading: &std::time::SystemTime) -> Option<std::time::Duration> {
    reading.duration_since(std::time::UNIX_EPOCH).ok()
}

/// `std::time::Duration::as_secs`: the whole seconds in a duration.
#[verifier::external_body]
pub(crate) fn whole_seconds(elapsed: &std::time::Duration) -> u64 {
    elapsed.as_secs()
}

} // verus!
