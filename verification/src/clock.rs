use vstd::prelude::*;

verus! {

/// Relies on chrono::Utc::now for the machine's clock, in epoch seconds.
/// Nothing is promised of the reading: callers state what holds of every
/// value that comes back.
#[verifier::external_body]
pub(crate) fn unix_now() -> (r: i64) {
    chrono::Utc::now().timestamp()
}

} // verus!
