//! The wall clock, the one source of time the engine reads.

use std::time::{SystemTime, UNIX_EPOCH};
use vstd::prelude::*;

verus! {

/// Relies on std's `SystemTime::now`, read as whole seconds since the Unix
/// epoch (0 for a clock set before it). Nothing is promised of the value.
#[verifier::external_body]
pub(crate) fn unix_seconds() -> (r: u64) {
    SystemTime::now().duration_since(UNIX_EPOCH).map(|d| d.as_secs()).unwrap_or(0)
}

} // verus!
