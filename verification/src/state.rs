//! The weigher's state, and the timed transitions of its LED and backlight.
use vstd::prelude::*;
use crate::candy_weigher_ui::DisplayState;
use crate::config_consts::{
    backlight_low_ticks, backlight_off_ticks, led_step_duration, led_step_ticks, max_led_on_time,
    time_from_backlight_low_to_off, time_to_backlight_low, DEFAULT_LOLLY_WEIGHT_DG,
    DEFAULT_SCALE_RAW_50G, DEFAULT_SCALE_RAW_TARE, TOTAL_LED_FADEOUT_STEPS,
};
use crate::effects::{StartDimOrSleepDisplayTimer, StartLEDTimer};
use crate::time::now_ticks;
use crate::hardware_controllers::flash::Config;
use crate::utils::{clamp_i32, round_quotient, round_quotient_spec, ScaleRawWeight};
use crate::hardware_controllers::pimoroni_display_leds::Percentage;
use crate::state::effect::lolly_count_of;

pub mod effect;

verus! {

/// Progress of the calibration of the load cell.
#[derive(Copy, Clone, Debug, PartialEq, Eq, Structural)]
pub enum CalibrationState {
    Loading,
    WaitingConfirmation,
    CalibratingTare { latest_tare_calib_value: ScaleRawWeight },
    TareCalibrated { latest_tare_calib_value: ScaleRawWeight },
    Calibrating50g {
        latest_tare_calib_value: ScaleRawWeight,
        latest_50g_calib_value: ScaleRawWeight,
    },
    Calibrated {
        latest_tare_calib_value: ScaleRawWeight,
        latest_50g_calib_value: ScaleRawWeight,
    },
}

/// The screen that the display shows.
#[derive(Copy, Clone, Debug, PartialEq, Eq, Structural)]
pub enum ScreenShown {
    Main,
    Calibration(CalibrationState),
    SavingSettings,
}

impl Default for ScreenShown {
    fn default() -> (r: Self)
        ensures
            r == ScreenShown::Main,
    {
        ScreenShown::Main
    }
}

/// The display's backlight; `on_at` is the tick at which it was last lit,
/// which names the timer that will dim or turn it off.
#[derive(Copy, Clone, Debug, PartialEq, Eq, Structural)]
pub enum DisplayBacklightState {
    Off,
    LowPower { on_at: u64 },
    On { on_at: u64 },
}

/// Charge of the battery.
#[derive(Copy, Clone, Debug, PartialEq, Eq, Structural)]
pub enum BatteryState {
    Unknown,
    High,
    Medium,
    Low,
    Critical,
}

impl Default for BatteryState {
    fn default() -> (r: Self)
        ensures
            r == BatteryState::Unknown,
    {
        BatteryState::Unknown
    }
}

/// A button's state on the display; `Held` carries how far a long press has
/// progressed, in percent.
#[derive(Copy, Clone, Debug, PartialEq, Eq, Structural)]
pub enum ButtonState {
    Off,
    Held(u8),
    On,
}

impl Default for ButtonState {
    fn default() -> (r: Self)
        ensures
            r == ButtonState::Off,
    {
        ButtonState::Off
    }
}

/// The indicator LED: off, or fading out in red or blue, at `current_step` of
/// `total_steps`, in a fade-out that began at tick `initially_on_at`.
#[derive(Copy, Clone, Debug, PartialEq, Eq, Structural)]
pub enum LedState {
    Off,
    Red { total_steps: u16, current_step: u16, initially_on_at: u64 },
    Blue { total_steps: u16, current_step: u16, initially_on_at: u64 },
}

impl Default for LedState {
    fn default() -> (r: Self)
        ensures
            r == LedState::Off,
    {
        LedState::Off
    }
}

/// The shape of every fade-out that the state machine begins and steps: some
/// steps, at most as many as a brightness percentage in `u16` can scale, and
/// the current one before the last.
pub open spec fn fade_wf(total_steps: u16, current_step: u16) -> bool {
    &&& 0 < total_steps <= 655
    &&& current_step < total_steps
}

/// What a step of the fade-out begun at `initially_on_at` needs when its timer
/// `t` fires: the step count can be incremented, and the tick of the step
/// after, if there is one, is representable. A timer of another fade-out
/// needs nothing.
pub open spec fn led_step_ok(led: LedState, t: u64) -> bool {
    match led {
        LedState::Off => true,
        LedState::Red { total_steps, current_step, initially_on_at }
        | LedState::Blue { total_steps, current_step, initially_on_at } => initially_on_at == t ==> {
            &&& current_step < u16::MAX
            &&& current_step + 1 < total_steps ==> initially_on_at + (current_step + 1) * led_step_ticks() <= u64::MAX
        },
    }
}

/// What showing the LED's brightness needs: some steps, and the remaining
/// share scaled to a percentage fits a `u16`.
pub open spec fn led_output_ok(led: LedState) -> bool {
    match led {
        LedState::Off => true,
        LedState::Red { total_steps, current_step, .. }
        | LedState::Blue { total_steps, current_step, .. } => {
            &&& total_steps > 0
            &&& 100 * steps_remaining(total_steps, current_step) <= u16::MAX
        },
    }
}

/// Steps remaining of a fade-out, none once the current step is the last or beyond.
pub open spec fn steps_remaining(total_steps: u16, current_step: u16) -> int {
    if current_step < total_steps { total_steps - current_step } else { 0 }
}

/// The LED's next state and timer after the fade-out timer started at
/// `timer_initially_on_at` fires: a timer of an earlier fade-out changes
/// nothing; after the last step the LED is off; otherwise it takes the next
/// step and the timer is set for the step after.
pub open spec fn led_transition(
    led: LedState,
    timer_initially_on_at: u64,
) -> (LedState, Option<StartLEDTimer>) {
    match led {
        LedState::Off => (LedState::Off, None),
        LedState::Red { total_steps, current_step, initially_on_at } => {
            if initially_on_at != timer_initially_on_at {
                (led, None)
            } else if current_step + 1 >= total_steps {
                (LedState::Off, None)
            } else {
                (
                    LedState::Red { total_steps, current_step: (current_step + 1) as u16, initially_on_at },
                    Some(StartLEDTimer {
                        start_time: initially_on_at,
                        next_at: (initially_on_at + (current_step + 1) * led_step_ticks()) as u64,
                    }),
                )
            }
        },
        LedState::Blue { total_steps, current_step, initially_on_at } => {
            if initially_on_at != timer_initially_on_at {
                (led, None)
            } else if current_step + 1 >= total_steps {
                (LedState::Off, None)
            } else {
                (
                    LedState::Blue { total_steps, current_step: (current_step + 1) as u16, initially_on_at },
                    Some(StartLEDTimer {
                        start_time: initially_on_at,
                        next_at: (initially_on_at + (current_step + 1) * led_step_ticks()) as u64,
                    }),
                )
            }
        },
    }
}

/// Whether the first step of a fade-out begun at `now` falls on a
/// representable tick.
pub open spec fn fade_fits(now: u64) -> bool {
    now + led_step_ticks() <= u64::MAX
}

/// The timer of the first step of a fade-out begun at `now`.
pub open spec fn first_led_timer(now: u64) -> StartLEDTimer {
    StartLEDTimer { start_time: now, next_at: (now + led_step_ticks()) as u64 }
}

impl LedState {
    pub open spec fn wf(self) -> bool {
        match self {
            LedState::Off => true,
            LedState::Red { total_steps, current_step, .. } => fade_wf(total_steps, current_step),
            LedState::Blue { total_steps, current_step, .. } => fade_wf(total_steps, current_step),
        }
    }

    /// Whether the step taken when the timer `t` fires can be taken; see `led_step_ok`.
    pub fn can_take_step(&self, t: u64) -> (r: bool)
        ensures
            r == led_step_ok(*self, t),
    {
        let step = led_step_duration();
        match *self {
            LedState::Off => true,
            LedState::Red { total_steps, current_step, initially_on_at }
            | LedState::Blue { total_steps, current_step, initially_on_at } => {
                if initially_on_at != t {
                    true
                } else if current_step == u16::MAX {
                    false
                } else if current_step + 1 < total_steps {
                    initially_on_at <= u64::MAX - (current_step as u64 + 1) * step
                } else {
                    true
                }
            },
        }
    }

    /// Whether the LED's brightness can be shown; see `led_output_ok`.
    pub fn can_show(&self) -> (r: bool)
        ensures
            r == led_output_ok(*self),
    {
        match *self {
            LedState::Off => true,
            LedState::Red { total_steps, current_step, .. }
            | LedState::Blue { total_steps, current_step, .. } => {
                total_steps > 0 && (total_steps.saturating_sub(current_step) as u32) * 100 <= u16::MAX as u32
            },
        }
    }

    /// Steps that remain before the LED is off.
    pub open spec fn steps_left(self) -> nat {
        match self {
            LedState::Off => 0,
            LedState::Red { total_steps, current_step, .. } => (total_steps - current_step) as nat,
            LedState::Blue { total_steps, current_step, .. } => (total_steps - current_step) as nat,
        }
    }

    /// Takes the next step of the fade-out when the timer started at
    /// `timer_initially_on_at` fires, and says when to take the step after.
    pub fn handle_transition(&mut self, timer_initially_on_at: u64) -> (r: Option<StartLEDTimer>)
        requires
            led_step_ok(*old(self), timer_initially_on_at),
        ensures
            (*final(self), r) == led_transition(*old(self), timer_initially_on_at),
            old(self).wf() ==> final(self).wf(),
    {
        let step_dur = led_step_duration();
        match *self {
            LedState::Off => {
                *self = LedState::Off;
                None
            },
            LedState::Red { total_steps, current_step, initially_on_at } => {
                if initially_on_at != timer_initially_on_at {
                    None
                } else if current_step + 1 >= total_steps {
                    *self = LedState::Off;
                    None
                } else {
                    let current_step = current_step + 1;
                    *self = LedState::Red { total_steps, current_step, initially_on_at };
                    Some(StartLEDTimer {
                        start_time: initially_on_at,
                        next_at: initially_on_at + current_step as u64 * step_dur,
                    })
                }
            },
            LedState::Blue { total_steps, current_step, initially_on_at } => {
                if initially_on_at != timer_initially_on_at {
                    None
                } else if current_step + 1 >= total_steps {
                    *self = LedState::Off;
                    None
                } else {
                    let current_step = current_step + 1;
                    *self = LedState::Blue { total_steps, current_step, initially_on_at };
                    Some(StartLEDTimer {
                        start_time: initially_on_at,
                        next_at: initially_on_at + current_step as u64 * step_dur,
                    })
                }
            },
        }
    }

    /// Lights the LED red at full brightness, beginning a fade-out at `now`,
    /// and returns the timer of its first step. A fade-out whose first step
    /// would fall beyond the last representable tick is not begun: the LED is
    /// left as it was and `None` is returned.
    pub fn set_red_at(&mut self, now: u64) -> (r: Option<StartLEDTimer>)
        ensures
            fade_fits(now) ==> *final(self) == (LedState::Red {
                total_steps: TOTAL_LED_FADEOUT_STEPS,
                current_step: 0,
                initially_on_at: now,
            }) && r == Some(first_led_timer(now)),
            !fade_fits(now) ==> *final(self) == *old(self) && r is None,
            old(self).wf() ==> final(self).wf(),
    {
        let step = led_step_duration();
        if now <= u64::MAX - step {
            *self = LedState::Red { total_steps: TOTAL_LED_FADEOUT_STEPS, current_step: 0, initially_on_at: now };
            Some(StartLEDTimer { start_time: now, next_at: now + step })
        } else {
            None
        }
    }

    /// As `set_red_at`, in blue.
    pub fn set_blue_at(&mut self, now: u64) -> (r: Option<StartLEDTimer>)
        ensures
            fade_fits(now) ==> *final(self) == (LedState::Blue {
                total_steps: TOTAL_LED_FADEOUT_STEPS,
                current_step: 0,
                initially_on_at: now,
            }) && r == Some(first_led_timer(now)),
            !fade_fits(now) ==> *final(self) == *old(self) && r is None,
            old(self).wf() ==> final(self).wf(),
    {
        let step = led_step_duration();
        if now <= u64::MAX - step {
            *self = LedState::Blue { total_steps: TOTAL_LED_FADEOUT_STEPS, current_step: 0, initially_on_at: now };
            Some(StartLEDTimer { start_time: now, next_at: now + step })
        } else {
            None
        }
    }

    /// Lights the LED red, beginning its fade-out at the current time; see
    /// `set_red_at`.
    pub fn set_red(&mut self) -> (r: Option<StartLEDTimer>)
        ensures
            exists|now: u64| {
                &&& fade_fits(now) ==> *final(self) == (LedState::Red {
                    total_steps: TOTAL_LED_FADEOUT_STEPS,
                    current_step: 0,
                    initially_on_at: now,
                }) && r == Some(first_led_timer(now))
                &&& !fade_fits(now) ==> *final(self) == *old(self) && r is None
            },
            old(self).wf() ==> final(self).wf(),
    {
        let now = now_ticks();
        self.set_red_at(now)
    }

    /// Lights the LED blue, beginning its fade-out at the current time; see
    /// `set_blue_at`.
    pub fn set_blue(&mut self) -> (r: Option<StartLEDTimer>)
        ensures
            exists|now: u64| {
                &&& fade_fits(now) ==> *final(self) == (LedState::Blue {
                    total_steps: TOTAL_LED_FADEOUT_STEPS,
                    current_step: 0,
                    initially_on_at: now,
                }) && r == Some(first_led_timer(now))
                &&& !fade_fits(now) ==> *final(self) == *old(self) && r is None
            },
            old(self).wf() ==> final(self).wf(),
    {
        let now = now_ticks();
        self.set_blue_at(now)
    }
}

/// The backlight's next state and timer when the timer started at
/// `prev_on_at` fires: if the backlight has not been lit again since, a lit
/// backlight dims (and a timer is set to turn it off) and a dimmed one turns
/// off; otherwise nothing changes.
pub open spec fn backlight_transition(
    b: DisplayBacklightState,
    prev_on_at: u64,
) -> (DisplayBacklightState, Option<StartDimOrSleepDisplayTimer>) {
    match b {
        DisplayBacklightState::Off => (DisplayBacklightState::Off, None),
        DisplayBacklightState::LowPower { on_at } => {
            if on_at == prev_on_at {
                (DisplayBacklightState::Off, None)
            } else {
                (b, None)
            }
        },
        DisplayBacklightState::On { on_at } => {
            if on_at == prev_on_at {
                (
                    DisplayBacklightState::LowPower { on_at },
                    Some(StartDimOrSleepDisplayTimer { start_time: prev_on_at, in_dur: backlight_off_ticks() as u64 }),
                )
            } else {
                (b, None)
            }
        },
    }
}

/// The timer that dims a backlight lit at `now`.
pub open spec fn dim_timer(now: u64) -> StartDimOrSleepDisplayTimer {
    StartDimOrSleepDisplayTimer { start_time: now, in_dur: backlight_low_ticks() as u64 }
}

impl DisplayBacklightState {
    /// Dims or turns off the backlight when the timer started at `prev_on_at`
    /// fires; see `backlight_transition`.
    pub fn handle_transition(&mut self, prev_on_at: u64) -> (r: Option<StartDimOrSleepDisplayTimer>)
        ensures
            (*final(self), r) == backlight_transition(*old(self), prev_on_at),
    {
        match *self {
            DisplayBacklightState::Off => {
                *self = DisplayBacklightState::Off;
                None
            },
            DisplayBacklightState::LowPower { on_at } => {
                if on_at == prev_on_at {
                    *self = DisplayBacklightState::Off;
                }
                None
            },
            DisplayBacklightState::On { on_at } => {
                if on_at == prev_on_at {
                    *self = DisplayBacklightState::LowPower { on_at };
                    match time_from_backlight_low_to_off() {
                        Some(in_dur) => Some(StartDimOrSleepDisplayTimer { start_time: prev_on_at, in_dur }),
                        None => None,
                    }
                } else {
                    None
                }
            },
        }
    }

    /// Lights the backlight fully at `now` and returns the timer that will dim it.
    pub fn reset_at(&mut self, now: u64) -> (r: StartDimOrSleepDisplayTimer)
        ensures
            *final(self) == (DisplayBacklightState::On { on_at: now }),
            r == dim_timer(now),
    {
        let in_dur = time_to_backlight_low();
        *self = DisplayBacklightState::On { on_at: now };
        StartDimOrSleepDisplayTimer { start_time: now, in_dur }
    }

    /// Lights the backlight fully at the current time; see `reset_at`.
    pub fn reset(&mut self) -> (r: StartDimOrSleepDisplayTimer)
        ensures
            exists|now: u64|
                *final(self) == (DisplayBacklightState::On { on_at: now }) && r == dim_timer(now),
    {
        let now = now_ticks();
        self.reset_at(now)
    }
}

} // verus!

verus! {

/// Everything the weigher knows. Weights are in tenths of a gram.
#[derive(Copy, Clone, Debug, PartialEq, Eq, Structural)]
pub struct State {
    pub tare_weight_dg: i32,
    pub scale_weight_dg: i32,
    pub saved_tared_scale_weight_dg: i64,
    pub lolly_weight_dg: i32,
    pub scale_raw_tare: ScaleRawWeight,
    pub scale_raw_50g: ScaleRawWeight,
    pub y_pressed: ButtonState,
    pub x_pressed: ButtonState,
    pub b_pressed: ButtonState,
    pub a_pressed: ButtonState,
    pub led_state: LedState,
    pub backlight_state: DisplayBacklightState,
    pub last_backlight_state: Option<DisplayBacklightState>,
    pub last_display_state: Option<DisplayState>,
    pub last_led_state: Option<LedState>,
    pub screen_shown: ScreenShown,
    pub battery_state: BatteryState,
}

/// The state at start-up at tick `now`: nothing on the scale, no tare, the
/// default lolly weight and calibration, the main screen, and the backlight
/// lit at `now`.
pub open spec fn initial_state(now: u64) -> State {
    State {
        tare_weight_dg: 0,
        scale_weight_dg: 0,
        saved_tared_scale_weight_dg: 0,
        lolly_weight_dg: DEFAULT_LOLLY_WEIGHT_DG,
        scale_raw_tare: ScaleRawWeight(DEFAULT_SCALE_RAW_TARE),
        scale_raw_50g: ScaleRawWeight(DEFAULT_SCALE_RAW_50G),
        y_pressed: ButtonState::Off,
        x_pressed: ButtonState::Off,
        b_pressed: ButtonState::Off,
        a_pressed: ButtonState::Off,
        led_state: LedState::Off,
        backlight_state: DisplayBacklightState::On { on_at: now },
        last_backlight_state: None,
        last_display_state: None,
        last_led_state: None,
        screen_shown: ScreenShown::Main,
        battery_state: BatteryState::Unknown,
    }
}

/// The state at start-up at tick `now` with the persisted settings `cfg`.
pub open spec fn state_from_config(cfg: Config, now: u64) -> State {
    State {
        tare_weight_dg: cfg.tare_weight_dg,
        lolly_weight_dg: cfg.lolly_weight_dg,
        saved_tared_scale_weight_dg: cfg.saved_tared_scale_weight as i64,
        scale_raw_tare: cfg.scale_raw_tare,
        scale_raw_50g: cfg.scale_raw_50g,
        ..initial_state(now)
    }
}

/// The settings to persist for state `s`.
pub open spec fn config_of(s: State) -> Config {
    Config {
        tare_weight_dg: s.tare_weight_dg,
        lolly_weight_dg: s.lolly_weight_dg,
        saved_tared_scale_weight: clamp_i32(s.saved_tared_scale_weight_dg as int) as i32,
        scale_raw_50g: s.scale_raw_50g,
        scale_raw_tare: s.scale_raw_tare,
    }
}

impl State {
    pub open spec fn wf(self) -> bool {
        self.led_state.wf()
    }

    /// The state at start-up at tick `now`; see `initial_state`.
    pub fn default_at(now: u64) -> (r: State)
        ensures
            r == initial_state(now),
    {
        State {
            tare_weight_dg: 0,
            scale_weight_dg: 0,
            saved_tared_scale_weight_dg: 0,
            lolly_weight_dg: DEFAULT_LOLLY_WEIGHT_DG,
            scale_raw_tare: ScaleRawWeight(DEFAULT_SCALE_RAW_TARE),
            scale_raw_50g: ScaleRawWeight(DEFAULT_SCALE_RAW_50G),
            y_pressed: ButtonState::Off,
            x_pressed: ButtonState::Off,
            b_pressed: ButtonState::Off,
            a_pressed: ButtonState::Off,
            led_state: LedState::Off,
            backlight_state: DisplayBacklightState::On { on_at: now },
            last_backlight_state: None,
            last_display_state: None,
            last_led_state: None,
            screen_shown: ScreenShown::Main,
            battery_state: BatteryState::Unknown,
        }
    }

    /// The state at start-up at tick `now`, with the persisted settings `cfg`.
    pub fn from_config_at(cfg: &Config, now: u64) -> (r: State)
        ensures
            r == state_from_config(*cfg, now),
    {
        State {
            tare_weight_dg: cfg.tare_weight_dg,
            lolly_weight_dg: cfg.lolly_weight_dg,
            saved_tared_scale_weight_dg: cfg.saved_tared_scale_weight as i64,
            scale_raw_tare: cfg.scale_raw_tare,
            scale_raw_50g: cfg.scale_raw_50g,
            ..State::default_at(now)
        }
    }

    /// The state at start-up with the persisted settings `cfg`, the backlight
    /// lit at the current time.
    pub fn from_config(cfg: &Config) -> (r: State)
        ensures
            exists|now: u64| r == state_from_config(*cfg, now),
    {
        let now = now_ticks();
        State::from_config_at(cfg, now)
    }

    /// The settings to persist; see `config_of`.
    pub fn to_config(&self) -> (r: Config)
        ensures
            r == config_of(*self),
    {
        let saved: i32 = if self.saved_tared_scale_weight_dg > i32::MAX as i64 {
            i32::MAX
        } else if self.saved_tared_scale_weight_dg < i32::MIN as i64 {
            i32::MIN
        } else {
            self.saved_tared_scale_weight_dg as i32
        };
        Config {
            tare_weight_dg: self.tare_weight_dg,
            lolly_weight_dg: self.lolly_weight_dg,
            saved_tared_scale_weight: saved,
            scale_raw_50g: self.scale_raw_50g,
            scale_raw_tare: self.scale_raw_tare,
        }
    }
}

impl Default for State {
    /// The state at start-up, the backlight lit at the current time.
    fn default() -> (r: State)
        ensures
            exists|now: u64| r == initial_state(now),
    {
        let now = now_ticks();
        State::default_at(now)
    }
}

/// Persisting the settings and starting up again from them restores every
/// setting: the tare, the lolly weight, the saved weight (within the range of
/// the stored `i32`) and the calibration.
pub proof fn lemma_config_round_trip(s: State, now: u64)
    requires
        i32::MIN <= s.saved_tared_scale_weight_dg <= i32::MAX,
    ensures
        state_from_config(config_of(s), now).tare_weight_dg == s.tare_weight_dg,
        state_from_config(config_of(s), now).lolly_weight_dg == s.lolly_weight_dg,
        state_from_config(config_of(s), now).saved_tared_scale_weight_dg == s.saved_tared_scale_weight_dg,
        state_from_config(config_of(s), now).scale_raw_tare == s.scale_raw_tare,
        state_from_config(config_of(s), now).scale_raw_50g == s.scale_raw_50g,
{
}

/// Starting up from persisted settings and persisting again gives the same settings.
pub proof fn lemma_config_of_state_from_config(cfg: Config, now: u64)
    ensures
        config_of(state_from_config(cfg, now)) == cfg,
{
}

} // verus!

verus! {

/// What the display shows in state `s`: on the main screen, the tared weight,
/// the lolly weight, the lolly count (never below zero), its change since the
/// weight recorded with X, the four buttons (A top left, B bottom left, X top
/// right, Y bottom right) and the battery.
pub open spec fn display_state_of(s: State) -> DisplayState {
    match s.screen_shown {
        ScreenShown::Main => {
            let count = lolly_count_of(s);
            let lolly_count: u32 = if count < 0 { 0 } else { count as u32 };
            let prev = round_quotient_spec(s.saved_tared_scale_weight_dg as int, s.lolly_weight_dg as int) as i32;
            DisplayState::MainScreen {
                scale_weight_dg: (s.scale_weight_dg - s.tare_weight_dg) as i64,
                lolly_weight_dg: s.lolly_weight_dg,
                lolly_count,
                lolly_count_change: (lolly_count as i32).wrapping_sub(prev),
                t_l_state: s.a_pressed,
                b_l_state: s.b_pressed,
                t_r_state: s.x_pressed,
                b_r_state: s.y_pressed,
                battery_state: s.battery_state,
            }
        },
        ScreenShown::Calibration(c) => DisplayState::CalibrationScreen(c),
        ScreenShown::SavingSettings => DisplayState::SavingSettingsScreen,
    }
}

/// What the LED controller is told to do.
#[derive(Copy, Clone, Debug, PartialEq, Eq, Structural)]
pub enum LedCommand {
    /// Turn every channel off.
    AllOff,
    /// Turn blue off and light red at the brightness.
    Red(Percentage),
    /// Turn red off and light blue at the brightness.
    Blue(Percentage),
}

/// Brightness of a fade-out at `current_step` of `total_steps`: the share of
/// steps that remain.
pub open spec fn fade_brightness(total_steps: u16, current_step: u16) -> Percentage {
    Percentage((100 * steps_remaining(total_steps, current_step) / total_steps as int) as u16)
}

pub open spec fn led_command_of(led: LedState) -> LedCommand {
    match led {
        LedState::Off => LedCommand::AllOff,
        LedState::Red { total_steps, current_step, .. } => LedCommand::Red(fade_brightness(total_steps, current_step)),
        LedState::Blue { total_steps, current_step, .. } => LedCommand::Blue(fade_brightness(total_steps, current_step)),
    }
}

/// What changed since the last output, for the firmware to show.
#[derive(Copy, Clone, Debug)]
pub struct StateOutput {
    /// The LED command, when the LED state changed.
    pub led: Option<LedCommand>,
    /// The picture and backlight to send to the display, when either changed.
    pub display: Option<(DisplayState, DisplayBacklightState)>,
}

/// The output for state `s`, and `s` with the output recorded as the last one.
pub open spec fn output_spec(s: State) -> (State, StateOutput) {
    let led = if s.last_led_state != Some(s.led_state) { Some(led_command_of(s.led_state)) } else { None };
    let d = display_state_of(s);
    let show = s.last_display_state != Some(d) || s.last_backlight_state != Some(s.backlight_state);
    (
        State {
            last_led_state: Some(s.led_state),
            last_display_state: if show { Some(d) } else { s.last_display_state },
            last_backlight_state: if show { Some(s.backlight_state) } else { s.last_backlight_state },
            ..s
        },
        StateOutput { led, display: if show { Some((d, s.backlight_state)) } else { None } },
    )
}

impl State {
    /// What the display shows; see `display_state_of`.
    pub fn to_display_state(&self) -> (r: DisplayState)
        ensures
            r == display_state_of(*self),
    {
        match self.screen_shown {
            ScreenShown::Main => {
                let count = crate::state::effect::lolly_count(self);
                let lolly_count: u32 = if count < 0 { 0 } else { count as u32 };
                let prev = round_quotient(self.saved_tared_scale_weight_dg as i128, self.lolly_weight_dg as i128);
                DisplayState::MainScreen {
                    scale_weight_dg: self.scale_weight_dg as i64 - self.tare_weight_dg as i64,
                    lolly_weight_dg: self.lolly_weight_dg,
                    lolly_count,
                    lolly_count_change: (lolly_count as i32).wrapping_sub(prev),
                    t_l_state: self.a_pressed,
                    b_l_state: self.b_pressed,
                    t_r_state: self.x_pressed,
                    b_r_state: self.y_pressed,
                    battery_state: self.battery_state,
                }
            },
            ScreenShown::Calibration(c) => DisplayState::CalibrationScreen(c),
            ScreenShown::SavingSettings => DisplayState::SavingSettingsScreen,
        }
    }
}

fn led_command(led: LedState) -> (r: LedCommand)
    requires
        led_output_ok(led),
    ensures
        r == led_command_of(led),
{
    match led {
        LedState::Off => LedCommand::AllOff,
        LedState::Red { total_steps, current_step, .. } => {
            LedCommand::Red(Percentage(100 * total_steps.saturating_sub(current_step) / total_steps))
        },
        LedState::Blue { total_steps, current_step, .. } => {
            LedCommand::Blue(Percentage(100 * total_steps.saturating_sub(current_step) / total_steps))
        },
    }
}

/// What outputting state `s` needs: where the LED changed since the last
/// output, its brightness can be shown (see `led_output_ok`). An unchanged LED
/// is not shown again, and needs nothing.
pub open spec fn output_ok(s: State) -> bool {
    s.last_led_state != Some(s.led_state) ==> led_output_ok(s.led_state)
}

impl State {
    /// Whether the state can be output; see `output_ok`.
    pub fn can_output(&self) -> (r: bool)
        ensures
            r == output_ok(*self),
    {
        let led_changed = match self.last_led_state {
            Some(last) => last != self.led_state,
            None => true,
        };
        !led_changed || self.led_state.can_show()
    }
}

/// Works out what to show: the LED command when the LED changed since the
/// last output, and the picture and backlight when either changed; records
/// them as the last output. See `output_spec`.
pub fn output_state(state: &mut State) -> (r: StateOutput)
    requires
        output_ok(*old(state)),
    ensures
        (*final(state), r) == output_spec(*old(state)),
        old(state).wf() ==> final(state).wf(),
{
    let mut led = None;
    let led_changed = match state.last_led_state {
        Some(last) => last != state.led_state,
        None => true,
    };
    if led_changed {
        led = Some(led_command(state.led_state));
    }
    state.last_led_state = Some(state.led_state);
    let next_display_state = state.to_display_state();
    let display_changed = match state.last_display_state {
        Some(last) => last != next_display_state,
        None => true,
    };
    let backlight_changed = match state.last_backlight_state {
        Some(last) => last != state.backlight_state,
        None => true,
    };
    let mut display = None;
    if display_changed || backlight_changed {
        display = Some((next_display_state, state.backlight_state));
        state.last_display_state = Some(next_display_state);
        state.last_backlight_state = Some(state.backlight_state);
    }
    StateOutput { led, display }
}

/// Outputting twice in a row shows nothing the second time: the output
/// records everything it shows.
pub proof fn lemma_output_idempotent(s: State)
    ensures
        output_spec(output_spec(s).0).1 == (StateOutput { led: None, display: None }),
        output_spec(output_spec(s).0).0 == output_spec(s).0,
{
}

} // verus!
