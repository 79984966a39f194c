//! Controllers of the weigher's hardware: what the firmware tells them.
use vstd::prelude::*;

pub mod flash;
pub mod pimori_display;
pub mod pimoroni_display_leds;

verus! {

/// Asks the load cell task to enter calibration mode.
#[derive(Copy, Clone, Debug, PartialEq, Eq, Structural)]
pub struct RaiseCalibrationSignal;

/// Controller of the HX710 load cell task.
#[derive(Copy, Clone, Debug, PartialEq, Eq, Structural)]
pub struct HX710Controller;

impl HX710Controller {
    /// Asks the load cell task to enter calibration mode: the returned request
    /// is raised on the signal that the task watches.
    pub fn enter_calibration_mode(&self) -> (r: RaiseCalibrationSignal)
        ensures
            r == RaiseCalibrationSignal,
    {
        RaiseCalibrationSignal
    }
}

} // verus!
