use vstd::prelude::*;

verus! {

/// A reading of the monotonic clock, opaque to the engine: it is only taken,
/// stored and measured against, never inspected.
#[allow(deprecated)]
#[verifier::external_type_specification]
#[verifier::external_body]
pub struct ExInstant(time::Instant);

/// Relies on time::Instant::now: an opaque reading of the monotonic clock.
/// The value depends on when the call runs, so nothing is promised of it.
#[allow(deprecated)]
#[verifier::external_body]
pub(crate) fn instant_now() -> time::Instant {
    time::Instant::now()
}

/// Relies on time::Instant::elapsed and SignedDuration::whole_milliseconds:
/// the whole milliseconds of monotonic time since the given reading. The
/// value depends on the clock, so nothing is promised of it.
#[allow(deprecated)]
#[verifier::external_body]
pub(crate) fn elapsed_millis(earlier: &time::Instant) -> u64 {
    (*earlier).elapsed().whole_milliseconds() as u64
}

} // verus!
