//! The system clock, read in whole seconds since the Unix epoch.

use vstd::prelude::*;

verus! {

/// Seconds since the Unix epoch by the system clock (0 for a clock set
/// before the epoch). Nothing is stated of the value: the clock may jump.
#[verifier::external_body]
pub(crate) fn current_timestamp() -> (t: u64) {
    std::time::SystemTime::now()
        .duration_since(std::time::UNIX_EPOCH)
        .unwrap_or_default()
        .as_secs()
}

} // verus!
