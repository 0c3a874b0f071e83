//! Measuring how long things take.

use vstd::prelude::*;
use crate::event::Elapsed;

verus! {

/// A reading of the standard library's monotonic clock. The engine carries
/// it from where a timer starts to where it is read, and looks at nothing
/// inside.
#[verifier::external_type_specification]
#[verifier::external_body]
pub struct ExInstant(std::time::Instant);

/// Reads the monotonic clock with `Instant::now`. Nothing is claimed of
/// the reading.
#[verifier::external_body]
pub(crate) fn start_timer() -> std::time::Instant {
    std::time::Instant::now()
}

/// The time since `timer` was read, from `Instant::elapsed`: the whole
/// seconds and, as the rest, less than a second in nanoseconds. Nothing
/// else is claimed of the duration.
#[verifier::external_body]
pub(crate) fn time_since(timer: &std::time::Instant) -> (r: Elapsed)
    ensures
        r.nanos < 1_000_000_000,
{
    let spent = timer.elapsed();
    Elapsed { secs: spent.as_secs(), nanos: spent.subsec_nanos() }
}

} // verus!
