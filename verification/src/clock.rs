//! The wall clock, for creation, completion and edit times.
use vstd::prelude::*;

use std::time::{SystemTime, UNIX_EPOCH};

verus! {

/// Seconds since the UNIX epoch.
///
/// Trusted: wraps `SystemTime::now().duration_since(UNIX_EPOCH)` and
/// `Duration::as_secs`. Nothing is stated of the reading, which depends on
/// the moment of the call; a clock set before 1970 reads as 0.
#[verifier::external_body]
pub fn unix_now() -> u64 {
    match SystemTime::now().duration_since(UNIX_EPOCH) {
        Ok(d) => d.as_secs(),
        Err(_) => 0,
    }
}

} // verus!
