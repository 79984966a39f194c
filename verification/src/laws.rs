//! Properties of the weigher's state machine that hold across all states and events.
use vstd::prelude::*;
use crate::state::effect::{
    dec_dg, inc_dg, lolly_count_of, resolve_spec, ButtonEvent, Event, LoadCellEvent, TimerEvent,
};
use crate::state::{
    backlight_transition, config_of, dim_timer, fade_fits, led_step_ok, led_transition, CalibrationState,
    DisplayBacklightState, LedState, ScreenShown, State,
};
use crate::effects::WriteConfig;
use crate::candy_weigher_ui::DisplayState;
use crate::state::display_state_of;
use crate::utils::{to_grams_dg_spec, ScaleRawWeight};

verus! {

/// Any button event lights the backlight fully and restarts its dimming timer,
/// on every screen.
pub proof fn lemma_button_lights_backlight(s: State, b: ButtonEvent, now: u64)
    ensures
        resolve_spec(Event::Button(b), s, now).0.backlight_state == (DisplayBacklightState::On { on_at: now }),
        resolve_spec(Event::Button(b), s, now).1.3 == Some(dim_timer(now)),
{
}

/// On the calibration screen every button but X is consumed: apart from the
/// backlight, nothing changes and nothing is requested.
pub proof fn lemma_calibration_screen_consumes_buttons(s: State, c: CalibrationState, b: ButtonEvent, now: u64)
    requires
        s.screen_shown == ScreenShown::Calibration(c),
        b != ButtonEvent::XPressed,
    ensures
        resolve_spec(Event::Button(b), s, now).0 == (State {
            backlight_state: DisplayBacklightState::On { on_at: now },
            ..s
        }),
        resolve_spec(Event::Button(b), s, now).1 == (None::<WriteConfig>, None::<crate::effects::EnterOrProgressCalibrationMode>, None::<crate::effects::StartLEDTimer>, Some(dim_timer(now))),
{
}

/// On the saving-settings screen every button event is consumed: X returns
/// to the main screen; apart from that and the backlight, nothing changes and
/// nothing is requested.
pub proof fn lemma_saving_settings_screen_consumes_buttons(s: State, b: ButtonEvent, now: u64)
    requires
        s.screen_shown == ScreenShown::SavingSettings,
    ensures
        resolve_spec(Event::Button(b), s, now).0 == (State {
            backlight_state: DisplayBacklightState::On { on_at: now },
            screen_shown: if b == ButtonEvent::XPressed { ScreenShown::Main } else { ScreenShown::SavingSettings },
            ..s
        }),
        resolve_spec(Event::Button(b), s, now).1 == (None::<WriteConfig>, None::<crate::effects::EnterOrProgressCalibrationMode>, None::<crate::effects::StartLEDTimer>, Some(dim_timer(now))),
{
}

/// Pressing X on the finished calibration applies both calibration readings
/// and returns to the main screen.
pub proof fn lemma_calibration_applied(s: State, tare: ScaleRawWeight, raw_50g: ScaleRawWeight, now: u64)
    requires
        s.screen_shown == ScreenShown::Calibration(
            CalibrationState::Calibrated { latest_tare_calib_value: tare, latest_50g_calib_value: raw_50g },
        ),
    ensures
        resolve_spec(Event::Button(ButtonEvent::XPressed), s, now).0.scale_raw_tare == tare,
        resolve_spec(Event::Button(ButtonEvent::XPressed), s, now).0.scale_raw_50g == raw_50g,
        resolve_spec(Event::Button(ButtonEvent::XPressed), s, now).0.screen_shown == ScreenShown::Main,
{
}

/// Completing a long press of X on the main screen saves exactly the current
/// settings and shows the saving-settings screen.
pub proof fn lemma_long_press_x_saves_settings(s: State, now: u64)
    requires
        s.screen_shown == ScreenShown::Main,
    ensures
        resolve_spec(Event::Button(ButtonEvent::XHeld(100)), s, now).1.0 == Some(WriteConfig(config_of(s))),
        resolve_spec(Event::Button(ButtonEvent::XHeld(100)), s, now).0.screen_shown == ScreenShown::SavingSettings,
{
}

/// Pressing A and then B on the main screen leaves the lolly weight as it was
/// (away from the saturating bounds).
pub proof fn lemma_a_then_b_restores_lolly_weight(s: State, now1: u64, now2: u64)
    requires
        s.screen_shown == ScreenShown::Main,
        s.lolly_weight_dg < i32::MAX,
    ensures
        resolve_spec(
            Event::Button(ButtonEvent::BPressed),
            resolve_spec(Event::Button(ButtonEvent::APressed), s, now1).0,
            now2,
        ).0.lolly_weight_dg == s.lolly_weight_dg,
{
}

/// After taring, the scale shows no lollies.
pub proof fn lemma_tare_zeroes_count(s: State, now: u64)
    requires
        s.screen_shown == ScreenShown::Main,
    ensures
        lolly_count_of(resolve_spec(Event::Button(ButtonEvent::YPressed), s, now).0) == 0,
{
    let s2 = resolve_spec(Event::Button(ButtonEvent::YPressed), s, now).0;
    assert(s2.scale_weight_dg - s2.tare_weight_dg == 0);
    if s2.lolly_weight_dg != 0 {
        let d = s2.lolly_weight_dg as int;
        let ad = if d < 0 { -d } else { d };
        assert((2 * 0 + ad) / (2 * ad) == 0) by {
            vstd::arithmetic::div_mod::lemma_fundamental_div_mod_converse(ad, 2 * ad, 0, ad);
        }
    }
}

/// A reading that changes the lolly count lights the LED (when its fade-out
/// fits the clock): red when the count falls, blue when it rises; a reading
/// that leaves the count as it was leaves the LED alone.
pub proof fn lemma_weight_update_led_colour(s: State, w: ScaleRawWeight, now: u64)
    ensures
        ({
            let s2 = resolve_spec(Event::LoadCell(LoadCellEvent::WeightUpdate(w)), s, now).0;
            &&& lolly_count_of(s2) < lolly_count_of(s) && fade_fits(now) ==> s2.led_state is Red
            &&& lolly_count_of(s2) > lolly_count_of(s) && fade_fits(now) ==> s2.led_state is Blue
            &&& lolly_count_of(s2) == lolly_count_of(s) ==> s2.led_state == s.led_state
                && s2.backlight_state == s.backlight_state
        }),
{
}

/// A timer of an earlier LED fade-out, or of an earlier backlight period,
/// changes nothing and requests nothing.
pub proof fn lemma_stale_timers_ignored(s: State, t: u64, now: u64)
    ensures
        (match s.led_state {
            LedState::Red { initially_on_at, .. } | LedState::Blue { initially_on_at, .. } =>
                initially_on_at != t ==> resolve_spec(Event::Timer(TimerEvent::FadeoutLEDs { start_time: t }), s, now)
                    == (s, (None::<WriteConfig>, None::<crate::effects::EnterOrProgressCalibrationMode>, None::<crate::effects::StartLEDTimer>, None::<crate::effects::StartDimOrSleepDisplayTimer>)),
            LedState::Off => true,
        }),
        (match s.backlight_state {
            DisplayBacklightState::On { on_at } | DisplayBacklightState::LowPower { on_at } =>
                on_at != t ==> resolve_spec(Event::Timer(TimerEvent::DimOrSleepDisplay { start_time: t }), s, now)
                    == (s, (None::<WriteConfig>, None::<crate::effects::EnterOrProgressCalibrationMode>, None::<crate::effects::StartLEDTimer>, None::<crate::effects::StartDimOrSleepDisplayTimer>)),
            DisplayBacklightState::Off => true,
        }),
{
}

/// Every step of a fade-out brings the LED one step closer to off: its own
/// timer leaves one step fewer, or turns it off.
pub proof fn lemma_fade_out_progresses(led: LedState)
    requires
        led.wf(),
        !(led is Off),
    ensures
        ({
            let t = match led {
                LedState::Red { initially_on_at, .. } => initially_on_at,
                LedState::Blue { initially_on_at, .. } => initially_on_at,
                LedState::Off => 0,
            };
            let next = led_transition(led, t).0;
            next.steps_left() == led.steps_left() - 1 || next is Off
        }),
{
}

/// A fade-out, driven by its own timers, turns the LED off after exactly its
/// remaining number of steps.
pub proof fn lemma_fade_out_ends(led: LedState, t: u64)
    requires
        led.wf(),
        match led {
            LedState::Red { initially_on_at, .. } => initially_on_at == t,
            LedState::Blue { initially_on_at, .. } => initially_on_at == t,
            LedState::Off => true,
        },
    ensures
        led_iterate(led, t, led.steps_left()) is Off,
    decreases led.steps_left(),
{
    if led.steps_left() > 0 {
        let next = led_transition(led, t).0;
        lemma_fade_out_ends(next, t);
    }
}

/// The LED after `n` firings of the fade-out timer started at `t`.
pub open spec fn led_iterate(led: LedState, t: u64, n: nat) -> LedState
    decreases n,
{
    if n == 0 { led } else { led_iterate(led_transition(led, t).0, t, (n - 1) as nat) }
}

/// The backlight, left alone, dims and then turns off: a lit backlight's own
/// timer dims it and starts the timer that turns it off, and a dimmed
/// backlight's own timer turns it off; off stays off.
pub proof fn lemma_backlight_dims_then_sleeps(t: u64)
    ensures
        backlight_transition(DisplayBacklightState::On { on_at: t }, t).0 == (DisplayBacklightState::LowPower { on_at: t }),
        backlight_transition(DisplayBacklightState::On { on_at: t }, t).1 is Some,
        backlight_transition(DisplayBacklightState::LowPower { on_at: t }, t).0 == DisplayBacklightState::Off,
        backlight_transition(DisplayBacklightState::Off, t).0 == DisplayBacklightState::Off,
{
}

/// Saturating steps of the lolly weight undo each other.
pub proof fn lemma_inc_dec_inverse(w: i32)
    ensures
        w < i32::MAX ==> dec_dg(inc_dg(w)) == w,
        w > i32::MIN ==> inc_dg(dec_dg(w)) == w,
{
}

/// Every event keeps the state well formed: an LED fade-out that is under
/// way has some steps, at most 655, and is before its last step.
pub proof fn lemma_resolve_preserves_wf(e: Event, s: State, now: u64)
    requires
        s.wf(),
    ensures
        resolve_spec(e, s, now).0.wf(),
{
}

/// The fade-out with the same colour, start and number of steps as `led`, at
/// step `n`.
pub open spec fn at_step(led: LedState, n: int) -> LedState {
    match led {
        LedState::Red { total_steps, initially_on_at, .. } => LedState::Red { total_steps, current_step: n as u16, initially_on_at },
        LedState::Blue { total_steps, initially_on_at, .. } => LedState::Blue { total_steps, current_step: n as u16, initially_on_at },
        LedState::Off => LedState::Off,
    }
}

pub open spec fn total_steps_of(led: LedState) -> int {
    match led {
        LedState::Red { total_steps, .. } => total_steps as int,
        LedState::Blue { total_steps, .. } => total_steps as int,
        LedState::Off => 0,
    }
}

pub open spec fn start_of(led: LedState) -> u64 {
    match led {
        LedState::Red { initially_on_at, .. } => initially_on_at,
        LedState::Blue { initially_on_at, .. } => initially_on_at,
        LedState::Off => 0,
    }
}

proof fn lemma_led_step_ticks()
    ensures
        crate::config_consts::led_step_ticks() == 62_500,
{
    assert(500_000int / 8 == 62_500) by (nonlinear_arith);
}

/// Driven by its own timers, a fade-out at step `c` is at step `c + n` after
/// `n` firings, while that is before its last step.
pub proof fn lemma_fade_out_iterate(led: LedState, c: int, n: nat)
    requires
        !(led is Off),
        0 <= c,
        c + n < total_steps_of(led),
        total_steps_of(led) <= 655,
    ensures
        led_iterate(at_step(led, c), start_of(led), n) == at_step(led, c + n),
    decreases n,
{
    if n > 0 {
        assert(led_transition(at_step(led, c), start_of(led)).0 == at_step(led, c + 1));
        lemma_fade_out_iterate(led, c + 1, (n - 1) as nat);
    }
}

/// The timers of a whole fade-out: one begun at tick `t0` with `total` steps
/// (as `set_red` and `set_blue` begin one, with eight), driven by its own
/// timers, takes its steps when asked; the timer after its `k`-th firing is
/// set for `t0 + (k + 1)` steps of 62 500 ticks, for every firing before the
/// last, all within the fade-out's `total` steps of `t0`; the last firing
/// turns it off with no timer.
/// This holds for every fade-out whose last timer falls on a representable
/// tick; on the others a step's timer cannot be set.
pub proof fn lemma_fade_out_timers(led: LedState, k: nat)
    requires
        led.wf(),
        !(led is Off),
        at_step(led, 0) == led,
        start_of(led) + (total_steps_of(led) - 1) * 62_500 <= u64::MAX,
        k < total_steps_of(led),
    ensures
        led_step_ok(led_iterate(led, start_of(led), k), start_of(led)),
        k + 1 < total_steps_of(led) ==> led_transition(led_iterate(led, start_of(led), k), start_of(led)).1
            == Some(crate::effects::StartLEDTimer {
                start_time: start_of(led),
                next_at: (start_of(led) + (k + 1) * 62_500) as u64,
            }),
        k + 1 < total_steps_of(led) ==> start_of(led) + (k + 1) * 62_500 <= start_of(led) + total_steps_of(led) * 62_500,
        k + 1 == total_steps_of(led) ==> led_transition(led_iterate(led, start_of(led), k), start_of(led))
            == (LedState::Off, None::<crate::effects::StartLEDTimer>),
{
    lemma_led_step_ticks();
    lemma_fade_out_iterate(led, 0, k);
    assert((k + 1) * 62_500 <= total_steps_of(led) * 62_500) by (nonlinear_arith)
        requires k + 1 <= total_steps_of(led);
}

/// The calibration hand-off between the state machine and the load cell
/// task, whose stages run Tare, FiftyGram, Finish in turn, one per request:
/// the first request (a completed long press of Y on the main screen) shows
/// the loading screen, which the tare stage's reports take to the tare
/// calibrated screen with the last reading; the second (X there) shows the
/// 50 g screen, which the 50 g stage's reports take to the calibrated
/// screen; the third (X there) applies both readings and ends calibration.
pub proof fn lemma_calibration_hand_off(s: State, w: ScaleRawWeight, v: ScaleRawWeight, now: u64)
    ensures
        s.screen_shown == ScreenShown::Main ==> {
            let r = resolve_spec(Event::Button(ButtonEvent::YHeld(100)), s, now);
            r.1.1 is Some && r.0.screen_shown == ScreenShown::Calibration(CalibrationState::Loading)
        },
        (s.screen_shown == ScreenShown::Calibration(CalibrationState::Loading)
            || s.screen_shown matches ScreenShown::Calibration(CalibrationState::CalibratingTare { .. })) ==> {
            let s2 = resolve_spec(Event::LoadCell(LoadCellEvent::CalibTareWeightUpdate(w)), s, now).0;
            let s3 = resolve_spec(Event::LoadCell(LoadCellEvent::CalibTareWeightModeComplete), s2, now).0;
            &&& s2.screen_shown == ScreenShown::Calibration(CalibrationState::CalibratingTare { latest_tare_calib_value: w })
            &&& s3.screen_shown == ScreenShown::Calibration(CalibrationState::TareCalibrated { latest_tare_calib_value: w })
        },
        s.screen_shown == ScreenShown::Calibration(CalibrationState::TareCalibrated { latest_tare_calib_value: w }) ==> {
            let r = resolve_spec(Event::Button(ButtonEvent::XPressed), s, now);
            let s2 = resolve_spec(Event::LoadCell(LoadCellEvent::Calib50gWeightUpdate(v)), r.0, now).0;
            let s3 = resolve_spec(Event::LoadCell(LoadCellEvent::CalibModeComplete), s2, now).0;
            &&& r.1.1 is Some
            &&& s3.screen_shown == ScreenShown::Calibration(
                CalibrationState::Calibrated { latest_tare_calib_value: w, latest_50g_calib_value: v },
            )
        },
        s.screen_shown == ScreenShown::Calibration(
            CalibrationState::Calibrated { latest_tare_calib_value: w, latest_50g_calib_value: v },
        ) ==> {
            let r = resolve_spec(Event::Button(ButtonEvent::XPressed), s, now);
            &&& r.1.1 is Some
            &&& r.0.screen_shown == ScreenShown::Main
            &&& r.0.scale_raw_tare == w
            &&& r.0.scale_raw_50g == v
        },
{
}

/// Every load cell reading sets the weight on the scale to the reading
/// converted with the calibration, on every screen and whether or not the
/// lolly count changes; the tare, the recorded weight and the calibration stay.
pub proof fn lemma_weight_update_sets_weight(s: State, w: ScaleRawWeight, now: u64)
    ensures
        ({
            let s2 = resolve_spec(Event::LoadCell(LoadCellEvent::WeightUpdate(w)), s, now).0;
            &&& s2.scale_weight_dg == to_grams_dg_spec(w.0 as int, s.scale_raw_tare.0 as int, s.scale_raw_50g.0 as int)
            &&& s2.tare_weight_dg == s.tare_weight_dg
            &&& s2.saved_tared_scale_weight_dg == s.saved_tared_scale_weight_dg
            &&& s2.lolly_weight_dg == s.lolly_weight_dg
            &&& s2.scale_raw_tare == s.scale_raw_tare
            &&& s2.scale_raw_50g == s.scale_raw_50g
            &&& s2.screen_shown == s.screen_shown
        }),
{
}

/// On the main screen X records the tared weight: the weight on the scale
/// less the tare.
pub proof fn lemma_x_records_tared_weight(s: State, now: u64)
    requires
        s.screen_shown == ScreenShown::Main,
    ensures
        resolve_spec(Event::Button(ButtonEvent::XPressed), s, now).0.saved_tared_scale_weight_dg
            == s.scale_weight_dg - s.tare_weight_dg,
{
}

/// The lolly count change shown on the main screen, if it shows one.
pub open spec fn shown_change(d: DisplayState) -> Option<int> {
    match d {
        DisplayState::MainScreen { lolly_count_change, .. } => Some(lolly_count_change as int),
        _ => None,
    }
}

/// The lolly count shown on the main screen, if it shows one.
pub open spec fn shown_count(d: DisplayState) -> Option<int> {
    match d {
        DisplayState::MainScreen { lolly_count, .. } => Some(lolly_count as int),
        _ => None,
    }
}

/// Right after X on the main screen the shown change of the lolly count is
/// zero, and the count is the one shown before (the tared weight in range of
/// an `i32` and its count not negative).
pub proof fn lemma_x_then_change_is_zero(s: State, now: u64)
    requires
        s.screen_shown == ScreenShown::Main,
        i32::MIN <= s.scale_weight_dg - s.tare_weight_dg <= i32::MAX,
        lolly_count_of(s) >= 0,
    ensures
        shown_change(display_state_of(resolve_spec(Event::Button(ButtonEvent::XPressed), s, now).0)) == Some(0int),
        shown_count(display_state_of(resolve_spec(Event::Button(ButtonEvent::XPressed), s, now).0))
            == shown_count(display_state_of(s)),
{
}

/// After X, the shown change of the lolly count is the count now less the
/// count when X was pressed, whatever the scale has weighed since (counts not
/// negative, tared weights in range of an `i32`, changes in range of an `i32`).
pub proof fn lemma_change_counts_lollies_since_x(s: State, w: ScaleRawWeight, now1: u64, now2: u64)
    requires
        s.screen_shown == ScreenShown::Main,
        i32::MIN <= s.scale_weight_dg - s.tare_weight_dg <= i32::MAX,
        lolly_count_of(s) >= 0,
    ensures
        ({
            let s2 = resolve_spec(Event::Button(ButtonEvent::XPressed), s, now1).0;
            let s3 = resolve_spec(Event::LoadCell(LoadCellEvent::WeightUpdate(w)), s2, now2).0;
            lolly_count_of(s3) >= 0 ==> shown_change(display_state_of(s3)) == Some(
                lolly_count_of(s3) - lolly_count_of(s),
            )
        }),
{
    let s2 = resolve_spec(Event::Button(ButtonEvent::XPressed), s, now1).0;
    let s3 = resolve_spec(Event::LoadCell(LoadCellEvent::WeightUpdate(w)), s2, now2).0;
    assert(s3.saved_tared_scale_weight_dg == s.scale_weight_dg - s.tare_weight_dg);
    assert(s3.lolly_weight_dg == s.lolly_weight_dg);
    assert(s3.screen_shown == ScreenShown::Main);
}

/// Taring moves nothing on the main screen but the tare: two states that
/// differ only in the tare and the weight on the scale, by the same amount,
/// show the same thing.
pub proof fn lemma_display_ignores_tare_shift(s: State, t: State)
    requires
        t == (State { tare_weight_dg: t.tare_weight_dg, scale_weight_dg: t.scale_weight_dg, ..s }),
        t.scale_weight_dg - t.tare_weight_dg == s.scale_weight_dg - s.tare_weight_dg,
    ensures
        display_state_of(t) == display_state_of(s),
{
}

} // verus!
