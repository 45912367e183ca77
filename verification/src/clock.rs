use vstd::prelude::*;

verus! {

#[verifier::external_type_specification]
#[verifier::external_body]
pub struct ExInstant(std::time::Instant);

/// Relies on std::time::Instant::now: a reading of the host's monotonic clock.
/// What it reads depends on when it runs, so nothing is promised of the value.
#[verifier::external_body]
pub(crate) fn monotonic_now() -> (t: std::time::Instant) {
    std::time::Instant::now()
}

/// Relies on std::time::Instant::elapsed: the time between the reading and now
/// (saturating at zero; never panics). Nothing is promised of the value.
#[verifier::external_body]
pub(crate) fn elapsed_since(since: &std::time::Instant) -> (d: std::time::Duration) {
    since.elapsed()
}

/// Relies on std::time::Duration::as_micros: the duration in whole
/// microseconds, truncating the fraction.
#[verifier::external_body]
pub(crate) fn duration_as_micros(d: &std::time::Duration) -> (us: u128) {
    d.as_micros()
}

/// Whole microseconds since the reading, capped at the largest `u64` — a cap
/// no benchmark run can reach.
pub(crate) fn elapsed_micros(since: &std::time::Instant) -> (us: u64) {
    let d = elapsed_since(since);
    let us = duration_as_micros(&d);
    if us > u64::MAX as u128 {
        u64::MAX
    } else {
        us as u64
    }
}

} // verus!
