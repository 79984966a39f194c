//! Requests that the state machine hands to the firmware to carry out.
use vstd::prelude::*;
use crate::hardware_controllers::flash::Config;

verus! {

/// Persist the given settings to flash.
#[derive(Copy, Clone, Debug, PartialEq, Eq, Structural)]
pub struct WriteConfig(pub Config);

/// Ask the load cell task to enter, or move on to the next stage of,
/// calibration.
#[derive(Copy, Clone, Debug, PartialEq, Eq, Structural)]
pub struct EnterOrProgressCalibrationMode;

/// Start a timer that, `in_dur` ticks from now, reports that the backlight
/// timer started at `start_time` has expired.
#[derive(Copy, Clone, Debug, PartialEq, Eq, Structural)]
pub struct StartDimOrSleepDisplayTimer {
    pub start_time: u64,
    pub in_dur: u64,
}

/// Start a timer that, at tick `next_at`, reports that the LED fade-out
/// started at `start_time` should take its next step.
#[derive(Copy, Clone, Debug, PartialEq, Eq, Structural)]
pub struct StartLEDTimer {
    pub start_time: u64,
    pub next_at: u64,
}

} // verus!
