//! The adapter's monotonic clock: process-start-relative nanosecond time,
//! read through the platform's monotonic instant type.

use vstd::prelude::*;

verus! {

/// The platform's opaque monotonic time point.
#[verifier::external_type_specification]
#[verifier::external_body]
pub struct ExInstant(std::time::Instant);

/// Relies on `std::time::Instant::now`: a reading of the monotonic clock.
/// What it returns depends on the moment of the call, so nothing is said
/// of the value.
#[verifier::external_body]
pub(crate) fn instant_now() -> (r: std::time::Instant)
{
    std::time::Instant::now()
}

/// Relies on `std::time::Instant::elapsed`: the span from the instant to
/// the present call.  The value depends on the moment of the call, so
/// nothing is said of it.
#[verifier::external_body]
pub(crate) fn instant_elapsed(start: &std::time::Instant) -> (r: std::time::Duration)
{
    start.elapsed()
}

/// Relies on `std::time::Duration::as_secs`: the whole seconds of the span.
#[verifier::external_body]
pub(crate) fn duration_as_secs(d: &std::time::Duration) -> (r: u64)
{
    d.as_secs()
}

/// Relies on `std::time::Duration::subsec_nanos`: the fractional part of
/// the span in nanoseconds, documented to be under one billion.
#[verifier::external_body]
pub(crate) fn duration_subsec_nanos(d: &std::time::Duration) -> (r: u32)
    ensures
        r < 1_000_000_000,
{
    d.subsec_nanos()
}

} // verus!
