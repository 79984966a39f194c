//! Clock readings and durations, as tick counts of `embassy_time`.
//!
//! The crate is built with `embassy_time`'s 1 MHz tick rate (its `std`
//! feature selects `tick-hz-1_000_000`, the rate the firmware's HAL selects as
//! well), so a millisecond is 1000 ticks and a second 1 000 000 ticks.
use vstd::prelude::*;

verus! {

/// Reads the clock: `embassy_time::Instant::now`, as its tick count.
/// Nothing is promised of the value: it is whatever the clock reads.
#[verifier::external_body]
pub(crate) fn now_ticks() -> u64 {
    embassy_time::Instant::now().as_ticks()
}

/// `embassy_time::Duration::from_millis`, as its tick count: at 1000 ticks a
/// millisecond, `ms * 1000` (rounding up is exact at this rate). The
/// multiplication overflows above `u64::MAX / 1000` milliseconds, which
/// `requires` leaves out.
#[verifier::external_body]
pub(crate) fn duration_ticks_from_millis(ms: u64) -> (r: u64)
    requires
        ms <= u64::MAX / 1000,
    ensures
        r == ms * 1000,
{
    embassy_time::Duration::from_millis(ms).as_ticks()
}

/// `embassy_time::Duration::from_secs`, as its tick count: `secs * 1_000_000`
/// at this tick rate. The multiplication overflows above
/// `u64::MAX / 1_000_000` seconds, which `requires` leaves out.
#[verifier::external_body]
pub(crate) fn duration_ticks_from_secs(secs: u64) -> (r: u64)
    requires
        secs <= u64::MAX / 1_000_000,
    ensures
        r == secs * 1_000_000,
{
    embassy_time::Duration::from_secs(secs).as_ticks()
}

} // verus!
