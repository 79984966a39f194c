//! The weigher's state machine: how each event changes the state, and what
//! the firmware is asked to do in turn.
use vstd::prelude::*;
use crate::effects::{
    EnterOrProgressCalibrationMode, StartDimOrSleepDisplayTimer, StartLEDTimer, WriteConfig,
};
use crate::state::{
    backlight_transition, config_of, dim_timer, fade_fits, first_led_timer, led_step_ok, led_transition,
    ButtonState, CalibrationState, DisplayBacklightState, LedState, ScreenShown, State,
};
use crate::config_consts::TOTAL_LED_FADEOUT_STEPS;
use crate::time::now_ticks;
use crate::utils::{clamp_i32, round_quotient, round_quotient_spec, to_grams_dg_spec, ScaleRawWeight};

verus! {

/// Something that happened, for the state machine to act on.
#[derive(Copy, Clone, Debug, PartialEq, Eq, Structural)]
pub enum Event {
    Button(ButtonEvent),
    LoadCell(LoadCellEvent),
    Timer(TimerEvent),
}

/// A timer that fired; `start_time` names the fade-out or backlight period
/// that started it.
#[derive(Copy, Clone, Debug, PartialEq, Eq, Structural)]
pub enum TimerEvent {
    FadeoutLEDs { start_time: u64 },
    DimOrSleepDisplay { start_time: u64 },
}

/// A button event. `XHeld` and `YHeld` carry how far the long press has
/// progressed, in percent; at 100 the long press is complete.
#[derive(Copy, Clone, Debug, PartialEq, Eq, Structural)]
pub enum ButtonEvent {
    APressed,
    BPressed,
    ARepeated,
    BRepeated,
    AReleased,
    BReleased,
    XPressed,
    YPressed,
    XHeld(u8),
    YHeld(u8),
    XReleased,
    YReleased,
}

/// A report of the load cell task.
#[derive(Copy, Clone, Debug, PartialEq, Eq, Structural)]
pub enum LoadCellEvent {
    WeightUpdate(ScaleRawWeight),
    EnteredCalibMode,
    CalibTareWeightUpdate(ScaleRawWeight),
    CalibTareWeightModeComplete,
    Calib50gWeightUpdate(ScaleRawWeight),
    CalibModeComplete,
}

/// What an event asks the firmware to do: persist settings, drive the
/// calibration, start an LED timer, start a backlight timer.
pub type Effects = (
    Option<WriteConfig>,
    Option<EnterOrProgressCalibrationMode>,
    Option<StartLEDTimer>,
    Option<StartDimOrSleepDisplayTimer>,
);

/// One more tenth of a gram, saturating.
pub open spec fn inc_dg(w: i32) -> i32 {
    if w < i32::MAX { (w + 1) as i32 } else { w }
}

/// One less tenth of a gram, saturating.
pub open spec fn dec_dg(w: i32) -> i32 {
    if w > i32::MIN { (w - 1) as i32 } else { w }
}

/// Weight on the scale less the tare, to a tenth of a gram, as an `i32`.
pub open spec fn tared_weight_dg(s: State) -> int {
    clamp_i32(s.scale_weight_dg - s.tare_weight_dg)
}

/// Number of lollies that the tared weight amounts to, to the nearest lolly.
pub open spec fn lolly_count_of(s: State) -> int {
    round_quotient_spec(tared_weight_dg(s), s.lolly_weight_dg as int)
}

/// What a button does on the main screen (after the backlight is lit):
/// A and B raise and lower the lolly weight by a tenth of a gram (once on
/// press and again on each repeat), X records the current tared weight, Y
/// tares the scale; a completed long press of X saves the settings, one of Y
/// starts calibration; the pressed, held and released states are shown.
pub open spec fn button_step(s: State, b: ButtonEvent) -> (State, Effects) {
    let none = (None, None, None, None);
    match b {
        ButtonEvent::APressed => (
            State { lolly_weight_dg: inc_dg(s.lolly_weight_dg), a_pressed: ButtonState::On, ..s },
            none,
        ),
        ButtonEvent::ARepeated => (State { lolly_weight_dg: inc_dg(s.lolly_weight_dg), ..s }, none),
        ButtonEvent::AReleased => (State { a_pressed: ButtonState::Off, ..s }, none),
        ButtonEvent::BPressed => (
            State { lolly_weight_dg: dec_dg(s.lolly_weight_dg), b_pressed: ButtonState::On, ..s },
            none,
        ),
        ButtonEvent::BRepeated => (State { lolly_weight_dg: dec_dg(s.lolly_weight_dg), ..s }, none),
        ButtonEvent::BReleased => (State { b_pressed: ButtonState::Off, ..s }, none),
        ButtonEvent::XPressed => (
            State {
                saved_tared_scale_weight_dg: (s.scale_weight_dg - s.tare_weight_dg) as i64,
                x_pressed: ButtonState::On,
                ..s
            },
            none,
        ),
        ButtonEvent::YPressed => (
            State { tare_weight_dg: s.scale_weight_dg, y_pressed: ButtonState::On, ..s },
            none,
        ),
        ButtonEvent::XHeld(p) => if p == 100 {
            (
                State { screen_shown: ScreenShown::SavingSettings, ..s },
                (Some(WriteConfig(config_of(s))), None, None, None),
            )
        } else {
            (State { x_pressed: ButtonState::Held(p), ..s }, none)
        },
        ButtonEvent::YHeld(p) => if p == 100 {
            (
                State { screen_shown: ScreenShown::Calibration(CalibrationState::Loading), ..s },
                (None, Some(EnterOrProgressCalibrationMode), None, None),
            )
        } else {
            (State { y_pressed: ButtonState::Held(p), ..s }, none)
        },
        ButtonEvent::XReleased => (State { x_pressed: ButtonState::Off, ..s }, none),
        ButtonEvent::YReleased => (State { y_pressed: ButtonState::Off, ..s }, none),
    }
}

/// What X does on the calibration screen: it confirms the current stage and
/// moves calibration on; at the end it applies the calibration readings and
/// returns to the main screen. Other buttons do nothing there.
pub open spec fn calibration_button_step(s: State, c: CalibrationState, b: ButtonEvent) -> (State, Option<EnterOrProgressCalibrationMode>) {
    if b == ButtonEvent::XPressed {
        match c {
            CalibrationState::WaitingConfirmation => (
                State {
                    screen_shown: ScreenShown::Calibration(
                        CalibrationState::CalibratingTare { latest_tare_calib_value: ScaleRawWeight(0) },
                    ),
                    ..s
                },
                Some(EnterOrProgressCalibrationMode),
            ),
            CalibrationState::TareCalibrated { latest_tare_calib_value } => (
                State {
                    screen_shown: ScreenShown::Calibration(
                        CalibrationState::Calibrating50g {
                            latest_tare_calib_value,
                            latest_50g_calib_value: ScaleRawWeight(0),
                        },
                    ),
                    ..s
                },
                Some(EnterOrProgressCalibrationMode),
            ),
            CalibrationState::Calibrated { latest_tare_calib_value, latest_50g_calib_value } => (
                State {
                    scale_raw_tare: latest_tare_calib_value,
                    scale_raw_50g: latest_50g_calib_value,
                    screen_shown: ScreenShown::Main,
                    ..s
                },
                Some(EnterOrProgressCalibrationMode),
            ),
            _ => (s, None),
        }
    } else {
        (s, None)
    }
}

/// A new reading `w`: the scale weight becomes its weight to a tenth of a
/// gram; if the lolly count falls the LED fades out in red, if it rises in
/// blue, and either way the backlight is lit.
pub open spec fn weight_update_step(s: State, w: ScaleRawWeight, now: u64) -> (State, Effects) {
    let prev_count = lolly_count_of(s);
    let s1 = State {
        scale_weight_dg: to_grams_dg_spec(w.0 as int, s.scale_raw_tare.0 as int, s.scale_raw_50g.0 as int) as i32,
        ..s
    };
    let count = lolly_count_of(s1);
    if count == prev_count {
        (s1, (None, None, None, None))
    } else {
        let led = if !fade_fits(now) {
            s1.led_state
        } else if count < prev_count {
            LedState::Red { total_steps: TOTAL_LED_FADEOUT_STEPS, current_step: 0, initially_on_at: now }
        } else {
            LedState::Blue { total_steps: TOTAL_LED_FADEOUT_STEPS, current_step: 0, initially_on_at: now }
        };
        let led_timer = if fade_fits(now) { Some(first_led_timer(now)) } else { None };
        (
            State { led_state: led, backlight_state: DisplayBacklightState::On { on_at: now }, ..s1 },
            (None, None, led_timer, Some(dim_timer(now))),
        )
    }
}

/// What a load cell report does: weight readings update the scale weight;
/// calibration reports record the readings and move the calibration screen on
/// through its stages, lighting the backlight when a stage begins or ends.
pub open spec fn load_cell_step(s: State, l: LoadCellEvent, now: u64) -> (State, Effects) {
    let lit = DisplayBacklightState::On { on_at: now };
    match l {
        LoadCellEvent::WeightUpdate(w) => weight_update_step(s, w, now),
        LoadCellEvent::EnteredCalibMode => (
            State {
                screen_shown: ScreenShown::Calibration(CalibrationState::Loading),
                backlight_state: lit,
                ..s
            },
            (None, None, None, Some(dim_timer(now))),
        ),
        LoadCellEvent::CalibTareWeightUpdate(w) => match s.screen_shown {
            ScreenShown::Calibration(CalibrationState::Loading)
            | ScreenShown::Calibration(CalibrationState::CalibratingTare { .. }) => (
                State {
                    screen_shown: ScreenShown::Calibration(
                        CalibrationState::CalibratingTare { latest_tare_calib_value: w },
                    ),
                    ..s
                },
                (None, None, None, None),
            ),
            _ => (s, (None, None, None, None)),
        },
        LoadCellEvent::CalibTareWeightModeComplete => {
            let screen = match s.screen_shown {
                ScreenShown::Calibration(CalibrationState::CalibratingTare { latest_tare_calib_value }) =>
                    ScreenShown::Calibration(CalibrationState::TareCalibrated { latest_tare_calib_value }),
                other => other,
            };
            (
                State { screen_shown: screen, backlight_state: lit, ..s },
                (None, None, None, Some(dim_timer(now))),
            )
        },
        LoadCellEvent::Calib50gWeightUpdate(w) => match s.screen_shown {
            ScreenShown::Calibration(CalibrationState::Calibrating50g { latest_tare_calib_value, .. }) => (
                State {
                    screen_shown: ScreenShown::Calibration(
                        CalibrationState::Calibrating50g { latest_tare_calib_value, latest_50g_calib_value: w },
                    ),
                    ..s
                },
                (None, None, None, None),
            ),
            _ => (s, (None, None, None, None)),
        },
        LoadCellEvent::CalibModeComplete => {
            let screen = match s.screen_shown {
                ScreenShown::Calibration(
                    CalibrationState::Calibrating50g { latest_tare_calib_value, latest_50g_calib_value },
                ) => ScreenShown::Calibration(
                    CalibrationState::Calibrated { latest_tare_calib_value, latest_50g_calib_value },
                ),
                other => other,
            };
            (
                State { screen_shown: screen, backlight_state: lit, ..s },
                (None, None, None, Some(dim_timer(now))),
            )
        },
    }
}

/// The state machine: the next state, and what to do, when event `e` arrives
/// in state `s` at tick `now`.
///
/// Any button event first lights the backlight (and restarts its dimming
/// timer) without being consumed. On the saving-settings screen every button
/// event is consumed, and X returns to the main screen. On the calibration
/// screen every button event is consumed, and only X has an effect
/// (`calibration_button_step`). Otherwise buttons act
/// as on the main screen (`button_step`), load cell reports as in
/// `load_cell_step`, and timers move the LED fade-out and the backlight on.
pub open spec fn resolve_spec(e: Event, s: State, now: u64) -> (State, Effects) {
    let (s1, backlight_timer) = match e {
        Event::Button(_) => (
            State { backlight_state: DisplayBacklightState::On { on_at: now }, ..s },
            Some(dim_timer(now)),
        ),
        _ => (s, None),
    };
    match e {
        Event::Button(b) => match s1.screen_shown {
            ScreenShown::SavingSettings => (
                if b == ButtonEvent::XPressed { State { screen_shown: ScreenShown::Main, ..s1 } } else { s1 },
                (None, None, None, backlight_timer),
            ),
            ScreenShown::Calibration(c) => {
                let (s2, cal) = calibration_button_step(s1, c, b);
                (s2, (None, cal, None, backlight_timer))
            },
            _ => {
                let (s2, fx) = button_step(s1, b);
                (s2, (fx.0, fx.1, None, backlight_timer))
            },
        },
        Event::LoadCell(l) => load_cell_step(s1, l, now),
        Event::Timer(TimerEvent::FadeoutLEDs { start_time }) => {
            let (led, t) = led_transition(s1.led_state, start_time);
            (State { led_state: led, ..s1 }, (None, None, t, None))
        },
        Event::Timer(TimerEvent::DimOrSleepDisplay { start_time }) => {
            let (b, t) = backlight_transition(s1.backlight_state, start_time);
            (State { backlight_state: b, ..s1 }, (None, None, None, t))
        },
    }
}

/// What applying event `e` to state `s` needs: a fade-out timer can take its
/// step (`led_step_ok`); other events need nothing.
pub open spec fn event_ok(e: Event, s: State) -> bool {
    match e {
        Event::Timer(TimerEvent::FadeoutLEDs { start_time }) => led_step_ok(s.led_state, start_time),
        _ => true,
    }
}

/// The lolly count of a state, computed.
pub(crate) fn lolly_count(state: &State) -> (r: i32)
    ensures
        r == lolly_count_of(*state),
{
    let d: i64 = state.scale_weight_dg as i64 - state.tare_weight_dg as i64;
    let tared: i32 = if d > i32::MAX as i64 {
        i32::MAX
    } else if d < i32::MIN as i64 {
        i32::MIN
    } else {
        d as i32
    };
    round_quotient(tared as i128, state.lolly_weight_dg as i128)
}

fn apply_button(state: &mut State, b: ButtonEvent) -> (r: (Option<WriteConfig>, Option<EnterOrProgressCalibrationMode>))
    ensures
        ({
            let (s2, fx) = button_step(*old(state), b);
            *final(state) == s2 && r == (fx.0, fx.1)
        }),
{
    match b {
        ButtonEvent::APressed => {
            if state.lolly_weight_dg < i32::MAX {
                state.lolly_weight_dg = state.lolly_weight_dg + 1;
            }
            state.a_pressed = ButtonState::On;
        },
        ButtonEvent::ARepeated => {
            if state.lolly_weight_dg < i32::MAX {
                state.lolly_weight_dg = state.lolly_weight_dg + 1;
            }
        },
        ButtonEvent::AReleased => {
            state.a_pressed = ButtonState::Off;
        },
        ButtonEvent::BPressed => {
            if state.lolly_weight_dg > i32::MIN {
                state.lolly_weight_dg = state.lolly_weight_dg - 1;
            }
            state.b_pressed = ButtonState::On;
        },
        ButtonEvent::BRepeated => {
            if state.lolly_weight_dg > i32::MIN {
                state.lolly_weight_dg = state.lolly_weight_dg - 1;
            }
        },
        ButtonEvent::BReleased => {
            state.b_pressed = ButtonState::Off;
        },
        ButtonEvent::XPressed => {
            state.saved_tared_scale_weight_dg = state.scale_weight_dg as i64 - state.tare_weight_dg as i64;
            state.x_pressed = ButtonState::On;
        },
        ButtonEvent::YPressed => {
            state.tare_weight_dg = state.scale_weight_dg;
            state.y_pressed = ButtonState::On;
        },
        ButtonEvent::XHeld(progress) => {
            if progress == 100 {
                let cfg = state.to_config();
                state.screen_shown = ScreenShown::SavingSettings;
                return (Some(WriteConfig(cfg)), None);
            } else {
                state.x_pressed = ButtonState::Held(progress);
            }
        },
        ButtonEvent::YHeld(progress) => {
            if progress == 100 {
                state.screen_shown = ScreenShown::Calibration(CalibrationState::Loading);
                return (None, Some(EnterOrProgressCalibrationMode));
            } else {
                state.y_pressed = ButtonState::Held(progress);
            }
        },
        ButtonEvent::XReleased => {
            state.x_pressed = ButtonState::Off;
        },
        ButtonEvent::YReleased => {
            state.y_pressed = ButtonState::Off;
        },
    }
    (None, None)
}

fn apply_calibration_button(state: &mut State, c: CalibrationState, b: ButtonEvent) -> (r: Option<EnterOrProgressCalibrationMode>)
    ensures
        (*final(state), r) == calibration_button_step(*old(state), c, b),
{
    if b == ButtonEvent::XPressed {
        match c {
            CalibrationState::WaitingConfirmation => {
                state.screen_shown = ScreenShown::Calibration(
                    CalibrationState::CalibratingTare { latest_tare_calib_value: ScaleRawWeight::default() },
                );
                Some(EnterOrProgressCalibrationMode)
            },
            CalibrationState::TareCalibrated { latest_tare_calib_value } => {
                state.screen_shown = ScreenShown::Calibration(
                    CalibrationState::Calibrating50g {
                        latest_tare_calib_value,
                        latest_50g_calib_value: ScaleRawWeight::default(),
                    },
                );
                Some(EnterOrProgressCalibrationMode)
            },
            CalibrationState::Calibrated { latest_tare_calib_value, latest_50g_calib_value } => {
                state.scale_raw_tare = latest_tare_calib_value;
                state.scale_raw_50g = latest_50g_calib_value;
                state.screen_shown = ScreenShown::Main;
                Some(EnterOrProgressCalibrationMode)
            },
            _ => None,
        }
    } else {
        None
    }
}

fn apply_weight_update(state: &mut State, w: ScaleRawWeight, now: u64) -> (r: Effects)
    ensures
        (*final(state), r) == weight_update_step(*old(state), w, now),
        old(state).wf() ==> final(state).wf(),
{
    let prev_count = lolly_count(state);
    state.scale_weight_dg = w.to_grams(state.scale_raw_tare, state.scale_raw_50g);
    let count = lolly_count(state);
    let mut led_timer = None;
    let mut backlight_timer = None;
    if count < prev_count {
        led_timer = state.led_state.set_red_at(now);
        backlight_timer = Some(state.backlight_state.reset_at(now));
    }
    if count > prev_count {
        led_timer = state.led_state.set_blue_at(now);
        backlight_timer = Some(state.backlight_state.reset_at(now));
    }
    (None, None, led_timer, backlight_timer)
}

fn apply_load_cell(state: &mut State, l: LoadCellEvent, now: u64) -> (r: Effects)
    ensures
        (*final(state), r) == load_cell_step(*old(state), l, now),
        old(state).wf() ==> final(state).wf(),
{
    match l {
        LoadCellEvent::WeightUpdate(w) => apply_weight_update(state, w, now),
        LoadCellEvent::EnteredCalibMode => {
            state.screen_shown = ScreenShown::Calibration(CalibrationState::Loading);
            let t = state.backlight_state.reset_at(now);
            (None, None, None, Some(t))
        },
        LoadCellEvent::CalibTareWeightUpdate(w) => {
            match state.screen_shown {
                ScreenShown::Calibration(CalibrationState::Loading) => {
                    state.screen_shown = ScreenShown::Calibration(
                        CalibrationState::CalibratingTare { latest_tare_calib_value: w },
                    );
                },
                ScreenShown::Calibration(CalibrationState::CalibratingTare { .. }) => {
                    state.screen_shown = ScreenShown::Calibration(
                        CalibrationState::CalibratingTare { latest_tare_calib_value: w },
                    );
                },
                _ => {},
            }
            (None, None, None, None)
        },
        LoadCellEvent::CalibTareWeightModeComplete => {
            if let ScreenShown::Calibration(
                CalibrationState::CalibratingTare { latest_tare_calib_value },
            ) = state.screen_shown {
                state.screen_shown = ScreenShown::Calibration(
                    CalibrationState::TareCalibrated { latest_tare_calib_value },
                );
            }
            let t = state.backlight_state.reset_at(now);
            (None, None, None, Some(t))
        },
        LoadCellEvent::Calib50gWeightUpdate(w) => {
            if let ScreenShown::Calibration(
                CalibrationState::Calibrating50g { latest_tare_calib_value, .. },
            ) = state.screen_shown {
                state.screen_shown = ScreenShown::Calibration(
                    CalibrationState::Calibrating50g { latest_tare_calib_value, latest_50g_calib_value: w },
                );
            }
            (None, None, None, None)
        },
        LoadCellEvent::CalibModeComplete => {
            if let ScreenShown::Calibration(
                CalibrationState::Calibrating50g { latest_tare_calib_value, latest_50g_calib_value },
            ) = state.screen_shown {
                state.screen_shown = ScreenShown::Calibration(
                    CalibrationState::Calibrated { latest_tare_calib_value, latest_50g_calib_value },
                );
            }
            let t = state.backlight_state.reset_at(now);
            (None, None, None, Some(t))
        },
    }
}

impl Event {
    /// Applies the event to the state at tick `now`; see `resolve_spec`.
    pub fn resolve_at(self, state: &mut State, now: u64) -> (r: Effects)
        requires
            event_ok(self, *old(state)),
        ensures
            (*final(state), r) == resolve_spec(self, *old(state), now),
            old(state).wf() ==> final(state).wf(),
    {
        let mut backlight_timer_effect = None;
        if let Event::Button(_) = self {
            backlight_timer_effect = Some(state.backlight_state.reset_at(now));
        }
        match self {
            Event::Button(button_event) => {
                match state.screen_shown {
                    ScreenShown::SavingSettings => {
                        if button_event == ButtonEvent::XPressed {
                            state.screen_shown = ScreenShown::Main;
                        }
                        return (None, None, None, backlight_timer_effect);
                    },
                    ScreenShown::Calibration(calibration_state) => {
                        let cal = apply_calibration_button(state, calibration_state, button_event);
                        return (None, cal, None, backlight_timer_effect);
                    },
                    ScreenShown::Main => {},
                }
                let (write_config, cal) = apply_button(state, button_event);
                (write_config, cal, None, backlight_timer_effect)
            },
            Event::LoadCell(l) => apply_load_cell(state, l, now),
            Event::Timer(TimerEvent::FadeoutLEDs { start_time }) => {
                let t = state.led_state.handle_transition(start_time);
                (None, None, t, None)
            },
            Event::Timer(TimerEvent::DimOrSleepDisplay { start_time }) => {
                let t = state.backlight_state.handle_transition(start_time);
                (None, None, None, t)
            },
        }
    }

    /// Applies the event to the state at the current time; see `resolve_spec`.
    pub fn resolve(self, state: &mut State) -> (r: Effects)
        requires
            event_ok(self, *old(state)),
        ensures
            exists|now: u64| #![trigger resolve_spec(self, *old(state), now)]
                (*final(state), r) == resolve_spec(self, *old(state), now),
            old(state).wf() ==> final(state).wf(),
    {
        let now = now_ticks();
        self.resolve_at(state, now)
    }
}

} // verus!
