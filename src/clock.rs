use std::time::Instant;
use vstd::prelude::*;

verus! {

#[verifier::external_type_specification]
#[verifier::external_body]
pub struct ExInstant(Instant);

/// Relies on `Instant::now`: a reading of the monotonic clock, used as the
/// reference point of later readings.
#[verifier::external_body]
pub(crate) fn clock_start() -> (r: Instant) {
    Instant::now()
}

/// Relies on `Instant::elapsed` and `Duration::as_millis`: whole milliseconds
/// since `start`. The value depends on the time of the call, so nothing is
/// stated of it.
#[verifier::external_body]
pub(crate) fn millis_since(start: &Instant) -> (r: u64) {
    start.elapsed().as_millis() as u64
}

} // verus!
