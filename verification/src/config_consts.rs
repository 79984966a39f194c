//! Settings of the candy weigher.
use vstd::prelude::*;
use crate::time::{duration_ticks_from_millis, duration_ticks_from_secs};

verus! {

/// Weight of one lolly until the user changes it: 25.0 g.
pub const DEFAULT_LOLLY_WEIGHT_DG: i32 = 250;
/// Number of brightness steps in which the indicator LED fades out.
pub const TOTAL_LED_FADEOUT_STEPS: u16 = 8;
/// How long the indicator LED stays lit after a change of the lolly count.
pub const MAX_LED_ON_TIME_MS: u64 = 500;
/// Diameter of the semicircle drawn in each corner for its button.
pub const SEMICIRCLE_DIAMETER: u32 = 44;
/// Backlight brightness, in percent, once the display has dimmed.
pub const LOW_BACKLIGHT_PERCENTAGE: u16 = 20;
/// Holding a button this long counts as a long press.
pub const BUTTON_LONG_PRESS_THRESHOLD_MS: u64 = 1000;
/// Number of progress reports sent while a button is being held.
pub const BUTTON_LONG_PRESS_PROGRESS_CHUNKS: u32 = 10;
/// Interval between repeats of a held repeating button.
pub const BUTTON_REPEAT_THRESHOLD_MS: u64 = 100;
/// Time from the last activity until the backlight dims.
pub const TIME_TO_BACKLIGHT_LOW_SECS: u64 = 10;
/// Time from dimming until the backlight turns off: 5 minutes.
pub const TIME_FROM_BACKLIGHT_LOW_TO_OFF_SECS: u64 = 300;
/// Raw reading of the empty scale until the scale is calibrated: 4190
/// counts, in hundredths of a count.
pub const DEFAULT_SCALE_RAW_TARE: i64 = 419_000;
/// Raw reading with 50 g on the scale until the scale is calibrated: 39807
/// counts, in hundredths of a count.
pub const DEFAULT_SCALE_RAW_50G: i64 = 3_980_700;

/// Ticks for which the LED is lit, in total, when it fades out.
pub open spec fn led_on_ticks() -> int {
    MAX_LED_ON_TIME_MS * 1000
}

/// Ticks between two brightness steps of the LED fade-out.
pub open spec fn led_step_ticks() -> int {
    led_on_ticks() / TOTAL_LED_FADEOUT_STEPS as int
}

/// Ticks from the last activity until the backlight dims.
pub open spec fn backlight_low_ticks() -> int {
    TIME_TO_BACKLIGHT_LOW_SECS * 1_000_000
}

/// Ticks from dimming until the backlight turns off.
pub open spec fn backlight_off_ticks() -> int {
    TIME_FROM_BACKLIGHT_LOW_TO_OFF_SECS * 1_000_000
}

/// The LED's total on-time, as an `embassy_time` duration in ticks.
pub fn max_led_on_time() -> (r: u64)
    ensures
        r == led_on_ticks(),
{
    duration_ticks_from_millis(MAX_LED_ON_TIME_MS)
}

/// Duration of one step of the LED fade-out: the on-time split evenly over
/// the steps.
pub fn led_step_duration() -> (r: u64)
    ensures
        r == led_step_ticks(),
        r == 62_500,
{
    assert(500_000int / 8 == 62_500) by (nonlinear_arith);
    max_led_on_time() / (TOTAL_LED_FADEOUT_STEPS as u64)
}

/// Time until the backlight dims, in ticks.
pub fn time_to_backlight_low() -> (r: u64)
    ensures
        r == backlight_low_ticks(),
{
    duration_ticks_from_secs(TIME_TO_BACKLIGHT_LOW_SECS)
}

/// Time from dimming until the backlight turns off, in ticks; `None` would
/// keep the backlight dimmed for good.
pub fn time_from_backlight_low_to_off() -> (r: Option<u64>)
    ensures
        r == Some(backlight_off_ticks() as u64),
{
    Some(duration_ticks_from_secs(TIME_FROM_BACKLIGHT_LOW_TO_OFF_SECS))
}

} // verus!
