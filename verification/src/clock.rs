//! The one place the library reads the wall clock.
//!
//! Every session operation takes its time as a parameter, so the library's
//! behaviour is specified for every value the clock could hand back; this
//! wrapper is what callers use to obtain that value.

use vstd::prelude::*;

verus! {

/// Milliseconds since the Unix epoch, or 0 when the clock predates it.
///
/// Relies on std::time::SystemTime::now for the current wall-clock time.
/// The result depends on the clock, so nothing is promised of it; every
/// function that consumes a timestamp is specified for all of its values.
#[verifier::external_body]
pub fn get_timestamp() -> u64 {
    std::time::SystemTime::now().duration_since(std::time::UNIX_EPOCH).map(
        |d| d.as_millis() as u64,
    ).unwrap_or(0)
}

} // verus!
