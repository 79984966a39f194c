use candy_weigher::candy_weigher_ui::DisplayState;
use candy_weigher::hardware_controllers::pimoroni_display_leds::Percentage;
use candy_weigher::state::{output_state, BatteryState, LedCommand};
use candy_weigher::config_consts::{DEFAULT_LOLLY_WEIGHT_DG, DEFAULT_SCALE_RAW_50G, DEFAULT_SCALE_RAW_TARE};
use candy_weigher::effects::{EnterOrProgressCalibrationMode, StartDimOrSleepDisplayTimer, StartLEDTimer, WriteConfig};
use candy_weigher::hardware_controllers::flash::Config;
use candy_weigher::state::effect::{ButtonEvent, Event, LoadCellEvent, TimerEvent};
use candy_weigher::state::{
    ButtonState, CalibrationState, DisplayBacklightState, LedState, ScreenShown, State,
};
use candy_weigher::utils::ScaleRawWeight;

fn fresh(now: u64) -> State {
    State::default_at(now)
}

#[test]
fn default_state_uses_defaults() {
    let s = fresh(7);
    assert_eq!(s.lolly_weight_dg, DEFAULT_LOLLY_WEIGHT_DG);
    assert_eq!(s.scale_raw_tare, ScaleRawWeight(DEFAULT_SCALE_RAW_TARE));
    assert_eq!(s.scale_raw_50g, ScaleRawWeight(DEFAULT_SCALE_RAW_50G));
    assert_eq!(s.backlight_state, DisplayBacklightState::On { on_at: 7 });
    assert_eq!(s.screen_shown, ScreenShown::Main);
    assert_eq!(s.led_state, LedState::Off);
}

#[test]
fn button_event_lights_backlight() {
    let mut s = fresh(0);
    s.backlight_state = DisplayBacklightState::Off;
    let r = Event::Button(ButtonEvent::AReleased).resolve_at(&mut s, 1000);
    assert_eq!(s.backlight_state, DisplayBacklightState::On { on_at: 1000 });
    assert_eq!(r.3, Some(StartDimOrSleepDisplayTimer { start_time: 1000, in_dur: 10_000_000 }));
    assert_eq!(r.0, None);
    assert_eq!(r.2, None);
}

#[test]
fn a_and_b_change_lolly_weight_by_a_tenth() {
    let mut s = fresh(0);
    Event::Button(ButtonEvent::APressed).resolve_at(&mut s, 1);
    assert_eq!(s.lolly_weight_dg, 251);
    assert_eq!(s.a_pressed, ButtonState::On);
    Event::Button(ButtonEvent::ARepeated).resolve_at(&mut s, 2);
    assert_eq!(s.lolly_weight_dg, 252);
    Event::Button(ButtonEvent::AReleased).resolve_at(&mut s, 3);
    assert_eq!(s.a_pressed, ButtonState::Off);
    Event::Button(ButtonEvent::BPressed).resolve_at(&mut s, 4);
    Event::Button(ButtonEvent::BRepeated).resolve_at(&mut s, 5);
    Event::Button(ButtonEvent::BRepeated).resolve_at(&mut s, 6);
    assert_eq!(s.lolly_weight_dg, 249);
    assert_eq!(s.b_pressed, ButtonState::On);
}

#[test]
fn weight_update_converts_to_tenths_of_a_gram() {
    let mut s = fresh(0);
    // Exactly the 50 g calibration reading.
    Event::LoadCell(LoadCellEvent::WeightUpdate(ScaleRawWeight(DEFAULT_SCALE_RAW_50G))).resolve_at(&mut s, 10);
    assert_eq!(s.scale_weight_dg, 500);
    // The tare reading weighs nothing.
    Event::LoadCell(LoadCellEvent::WeightUpdate(ScaleRawWeight(DEFAULT_SCALE_RAW_TARE))).resolve_at(&mut s, 20);
    assert_eq!(s.scale_weight_dg, 0);
}

#[test]
fn lolly_count_increase_lights_blue_then_decrease_red() {
    let mut s = fresh(0);
    // 50 g with 25 g lollies: two lollies, up from none.
    let r = Event::LoadCell(LoadCellEvent::WeightUpdate(ScaleRawWeight(DEFAULT_SCALE_RAW_50G))).resolve_at(&mut s, 100);
    assert_eq!(s.led_state, LedState::Blue { total_steps: 8, current_step: 0, initially_on_at: 100 });
    assert_eq!(r.2, Some(StartLEDTimer { start_time: 100, next_at: 100 + 62_500 }));
    assert_eq!(r.3, Some(StartDimOrSleepDisplayTimer { start_time: 100, in_dur: 10_000_000 }));
    assert_eq!(s.backlight_state, DisplayBacklightState::On { on_at: 100 });
    // Back to empty: red.
    let r = Event::LoadCell(LoadCellEvent::WeightUpdate(ScaleRawWeight(DEFAULT_SCALE_RAW_TARE))).resolve_at(&mut s, 200);
    assert_eq!(s.led_state, LedState::Red { total_steps: 8, current_step: 0, initially_on_at: 200 });
    assert_eq!(r.2, Some(StartLEDTimer { start_time: 200, next_at: 200 + 62_500 }));
    // Same count again: nothing happens to the LED.
    let r = Event::LoadCell(LoadCellEvent::WeightUpdate(ScaleRawWeight(DEFAULT_SCALE_RAW_TARE + 1000))).resolve_at(&mut s, 300);
    assert_eq!(r.2, None);
    assert_eq!(r.3, None);
    assert_eq!(s.led_state, LedState::Red { total_steps: 8, current_step: 0, initially_on_at: 200 });
}

#[test]
fn led_fades_out_over_eight_steps() {
    let mut led = LedState::Off;
    let first = led.set_red_at(1_000).unwrap();
    assert_eq!(first, StartLEDTimer { start_time: 1_000, next_at: 63_500 });
    let mut steps = 0;
    loop {
        match led.handle_transition(1_000) {
            Some(t) => {
                steps += 1;
                assert_eq!(t.start_time, 1_000);
                assert_eq!(t.next_at, 1_000 + 62_500 * steps as u64);
            }
            None => break,
        }
    }
    assert_eq!(steps, 7);
    assert_eq!(led, LedState::Off);
}

#[test]
fn stale_led_timer_is_ignored() {
    let mut led = LedState::Off;
    led.set_blue_at(5).unwrap();
    assert_eq!(led.handle_transition(4), None);
    assert_eq!(led, LedState::Blue { total_steps: 8, current_step: 0, initially_on_at: 5 });
}

#[test]
fn fade_out_past_the_end_of_time_is_not_begun() {
    let mut led = LedState::Off;
    assert_eq!(led.set_red_at(u64::MAX - 10), None);
    assert_eq!(led, LedState::Off);
}

#[test]
fn fade_out_begins_when_its_first_step_fits() {
    let mut led = LedState::Off;
    let start = u64::MAX - 100_000;
    assert_eq!(led.set_blue_at(start), Some(StartLEDTimer { start_time: start, next_at: start + 62_500 }));
    assert!(led.can_show());
    // The first step's timer falls at `start + 62_500`, which fits.
    assert!(led.can_take_step(start));
    assert_eq!(led.handle_transition(start), Some(StartLEDTimer { start_time: start, next_at: start + 62_500 }));
    // The second step's timer would pass the end of time.
    assert!(!led.can_take_step(start));
    // A timer of another fade-out needs nothing.
    assert!(led.can_take_step(start - 1));
    assert!(LedState::Off.can_take_step(0));
}

#[test]
fn step_and_show_checks() {
    let led = LedState::Red { total_steps: 8, current_step: 3, initially_on_at: 10 };
    assert!(led.can_take_step(10));
    assert!(led.can_show());
    let past_end = LedState::Red { total_steps: 8, current_step: 9, initially_on_at: 10 };
    assert!(past_end.can_show());
    assert!(!LedState::Blue { total_steps: 0, current_step: 0, initially_on_at: 1 }.can_show());
    assert!(!LedState::Blue { total_steps: 700, current_step: 0, initially_on_at: 1 }.can_show());
    assert!(!LedState::Blue { total_steps: 8, current_step: u16::MAX, initially_on_at: 1 }.can_take_step(1));
}

#[test]
fn backlight_dims_then_turns_off() {
    let mut b = DisplayBacklightState::Off;
    let t = b.reset_at(50);
    assert_eq!(t, StartDimOrSleepDisplayTimer { start_time: 50, in_dur: 10_000_000 });
    let t = b.handle_transition(50);
    assert_eq!(b, DisplayBacklightState::LowPower { on_at: 50 });
    assert_eq!(t, Some(StartDimOrSleepDisplayTimer { start_time: 50, in_dur: 300_000_000 }));
    // A timer of an earlier period changes nothing.
    assert_eq!(b.handle_transition(49), None);
    assert_eq!(b, DisplayBacklightState::LowPower { on_at: 50 });
    assert_eq!(b.handle_transition(50), None);
    assert_eq!(b, DisplayBacklightState::Off);
    assert_eq!(b.handle_transition(50), None);
    assert_eq!(b, DisplayBacklightState::Off);
}

#[test]
fn backlight_timer_events_go_through_resolve() {
    let mut s = fresh(9);
    let r = Event::Timer(TimerEvent::DimOrSleepDisplay { start_time: 9 }).resolve_at(&mut s, 100);
    assert_eq!(s.backlight_state, DisplayBacklightState::LowPower { on_at: 9 });
    assert_eq!(r.3, Some(StartDimOrSleepDisplayTimer { start_time: 9, in_dur: 300_000_000 }));
}

#[test]
fn long_press_of_x_saves_settings() {
    let mut s = fresh(0);
    s.tare_weight_dg = 12;
    s.saved_tared_scale_weight_dg = 345;
    let r = Event::Button(ButtonEvent::XHeld(40)).resolve_at(&mut s, 1);
    assert_eq!(r.0, None);
    assert_eq!(s.x_pressed, ButtonState::Held(40));
    let r = Event::Button(ButtonEvent::XHeld(100)).resolve_at(&mut s, 2);
    assert_eq!(
        r.0,
        Some(WriteConfig(Config {
            tare_weight_dg: 12,
            lolly_weight_dg: 250,
            saved_tared_scale_weight: 345,
            scale_raw_50g: ScaleRawWeight(DEFAULT_SCALE_RAW_50G),
            scale_raw_tare: ScaleRawWeight(DEFAULT_SCALE_RAW_TARE),
        }))
    );
    assert_eq!(s.screen_shown, ScreenShown::SavingSettings);
    // X leaves the saving-settings screen.
    Event::Button(ButtonEvent::XPressed).resolve_at(&mut s, 3);
    assert_eq!(s.screen_shown, ScreenShown::Main);
}

#[test]
fn saving_settings_screen_consumes_buttons() {
    let mut s = fresh(0);
    s.screen_shown = ScreenShown::SavingSettings;
    let before = s.clone();
    for b in [
        ButtonEvent::APressed,
        ButtonEvent::ARepeated,
        ButtonEvent::BPressed,
        ButtonEvent::BRepeated,
        ButtonEvent::YPressed,
        ButtonEvent::XHeld(100),
        ButtonEvent::XReleased,
    ] {
        let r = Event::Button(b).resolve_at(&mut s, 5);
        assert_eq!(r.0, None);
        assert_eq!(r.1, None);
        assert_eq!(r.2, None);
        assert_eq!(s.lolly_weight_dg, before.lolly_weight_dg);
        assert_eq!(s.tare_weight_dg, before.tare_weight_dg);
        assert_eq!(s.screen_shown, ScreenShown::SavingSettings);
        assert_eq!(s.a_pressed, before.a_pressed);
        assert_eq!(s.x_pressed, before.x_pressed);
    }
    Event::Button(ButtonEvent::XPressed).resolve_at(&mut s, 6);
    assert_eq!(s.screen_shown, ScreenShown::Main);
    assert_eq!(s.lolly_weight_dg, before.lolly_weight_dg);
}

#[test]
fn config_round_trip() {
    let cfg = Config {
        tare_weight_dg: -3,
        lolly_weight_dg: 77,
        saved_tared_scale_weight: 1234,
        scale_raw_50g: ScaleRawWeight(900),
        scale_raw_tare: ScaleRawWeight(100),
    };
    let s = State::from_config_at(&cfg, 5);
    assert_eq!(s.to_config(), cfg);
    assert_eq!(s.backlight_state, DisplayBacklightState::On { on_at: 5 });
    assert_eq!(Config::default().lolly_weight_dg, 250);
}

#[test]
fn full_calibration_flow() {
    let mut s = fresh(0);
    let r = Event::Button(ButtonEvent::YHeld(100)).resolve_at(&mut s, 1);
    assert_eq!(r.1, Some(EnterOrProgressCalibrationMode));
    assert_eq!(s.screen_shown, ScreenShown::Calibration(CalibrationState::Loading));
    Event::LoadCell(LoadCellEvent::CalibTareWeightUpdate(ScaleRawWeight(1000))).resolve_at(&mut s, 2);
    assert_eq!(
        s.screen_shown,
        ScreenShown::Calibration(CalibrationState::CalibratingTare { latest_tare_calib_value: ScaleRawWeight(1000) })
    );
    // Other buttons are consumed on the calibration screen.
    Event::Button(ButtonEvent::APressed).resolve_at(&mut s, 3);
    assert_eq!(s.lolly_weight_dg, 250);
    Event::LoadCell(LoadCellEvent::CalibTareWeightModeComplete).resolve_at(&mut s, 4);
    assert_eq!(
        s.screen_shown,
        ScreenShown::Calibration(CalibrationState::TareCalibrated { latest_tare_calib_value: ScaleRawWeight(1000) })
    );
    let r = Event::Button(ButtonEvent::XPressed).resolve_at(&mut s, 5);
    assert_eq!(r.1, Some(EnterOrProgressCalibrationMode));
    Event::LoadCell(LoadCellEvent::Calib50gWeightUpdate(ScaleRawWeight(6000))).resolve_at(&mut s, 6);
    Event::LoadCell(LoadCellEvent::CalibModeComplete).resolve_at(&mut s, 7);
    assert_eq!(
        s.screen_shown,
        ScreenShown::Calibration(CalibrationState::Calibrated {
            latest_tare_calib_value: ScaleRawWeight(1000),
            latest_50g_calib_value: ScaleRawWeight(6000),
        })
    );
    Event::Button(ButtonEvent::XPressed).resolve_at(&mut s, 8);
    assert_eq!(s.screen_shown, ScreenShown::Main);
    assert_eq!(s.scale_raw_tare, ScaleRawWeight(1000));
    assert_eq!(s.scale_raw_50g, ScaleRawWeight(6000));
    // 100 raw units per gram now: 3500 raw above tare is 35.0 g.
    Event::LoadCell(LoadCellEvent::WeightUpdate(ScaleRawWeight(4500))).resolve_at(&mut s, 9);
    assert_eq!(s.scale_weight_dg, 350);
}

#[test]
fn tare_and_record_weight() {
    let mut s = fresh(0);
    s.scale_weight_dg = 730;
    Event::Button(ButtonEvent::XPressed).resolve_at(&mut s, 1);
    assert_eq!(s.saved_tared_scale_weight_dg, 730);
    Event::Button(ButtonEvent::YPressed).resolve_at(&mut s, 2);
    assert_eq!(s.tare_weight_dg, 730);
    assert_eq!(s.y_pressed, ButtonState::On);
}

#[test]
fn resolve_reads_the_clock() {
    let mut s = State::default();
    let r = Event::Button(ButtonEvent::YReleased).resolve(&mut s);
    match (s.backlight_state, r.3) {
        (DisplayBacklightState::On { on_at }, Some(t)) => assert_eq!(t.start_time, on_at),
        _ => panic!("backlight not lit"),
    }
}

#[test]
fn display_state_of_main_screen() {
    let mut s = fresh(0);
    s.scale_weight_dg = 1000;
    s.tare_weight_dg = 100;
    s.saved_tared_scale_weight_dg = 500;
    s.a_pressed = ButtonState::On;
    s.y_pressed = ButtonState::Held(30);
    assert_eq!(
        s.to_display_state(),
        DisplayState::MainScreen {
            scale_weight_dg: 900,
            lolly_weight_dg: 250,
            lolly_count: 4,
            lolly_count_change: 2,
            t_l_state: ButtonState::On,
            b_l_state: ButtonState::Off,
            t_r_state: ButtonState::Off,
            b_r_state: ButtonState::Held(30),
            battery_state: BatteryState::Unknown,
        }
    );
    // A negative count shows as none.
    s.scale_weight_dg = -1000;
    match s.to_display_state() {
        DisplayState::MainScreen { lolly_count, lolly_count_change, .. } => {
            assert_eq!(lolly_count, 0);
            assert_eq!(lolly_count_change, -2);
        }
        _ => panic!("main screen expected"),
    }
    s.screen_shown = ScreenShown::SavingSettings;
    assert_eq!(s.to_display_state(), DisplayState::SavingSettingsScreen);
}

#[test]
fn output_reports_changes_once() {
    let mut s = fresh(0);
    let out = output_state(&mut s);
    assert_eq!(out.led, Some(LedCommand::AllOff));
    assert!(out.display.is_some());
    let out = output_state(&mut s);
    assert_eq!(out.led, None);
    assert!(out.display.is_none());
    s.led_state = LedState::Red { total_steps: 8, current_step: 2, initially_on_at: 0 };
    let out = output_state(&mut s);
    assert_eq!(out.led, Some(LedCommand::Red(Percentage(75))));
    assert!(out.display.is_none());
    s.backlight_state = DisplayBacklightState::Off;
    let out = output_state(&mut s);
    assert_eq!(out.led, None);
    assert_eq!(out.display.map(|d| d.1), Some(DisplayBacklightState::Off));
    s.led_state = LedState::Blue { total_steps: 8, current_step: 7, initially_on_at: 0 };
    assert_eq!(output_state(&mut s).led, Some(LedCommand::Blue(Percentage(12))));
}

#[test]
fn unchanged_led_is_not_shown_again() {
    let mut s = fresh(0);
    let zero_steps = LedState::Red { total_steps: 0, current_step: 0, initially_on_at: 0 };
    s.led_state = zero_steps;
    // A changed LED with no steps cannot be shown.
    assert!(!s.can_output());
    // Once recorded as shown, it is not shown again, and output needs nothing of it.
    s.last_led_state = Some(zero_steps);
    assert!(s.can_output());
    let out = output_state(&mut s);
    assert_eq!(out.led, None);
    assert!(out.display.is_some());
    let out = output_state(&mut s);
    assert_eq!(out.led, None);
    assert!(out.display.is_none());
    assert_eq!(s.led_state, zero_steps);
}

#[test]
fn led_and_backlight_read_the_clock() {
    let mut led = LedState::Off;
    let t = led.set_blue().unwrap();
    assert_eq!(led, LedState::Blue { total_steps: 8, current_step: 0, initially_on_at: t.start_time });
    let t = led.set_red().unwrap();
    assert_eq!(t.next_at, t.start_time + 62_500);
    let mut b = DisplayBacklightState::Off;
    let t = b.reset();
    assert_eq!(b, DisplayBacklightState::On { on_at: t.start_time });
    let s = State::from_config(&Config::default());
    assert_eq!(s.lolly_weight_dg, 250);
}

#[test]
fn tare_shows_no_lollies_and_a_then_b_restores_weight() {
    let mut s = fresh(0);
    s.scale_weight_dg = 1234;
    Event::Button(ButtonEvent::YPressed).resolve_at(&mut s, 1);
    match s.to_display_state() {
        DisplayState::MainScreen { lolly_count, scale_weight_dg, .. } => {
            assert_eq!(lolly_count, 0);
            assert_eq!(scale_weight_dg, 0);
        }
        _ => panic!("main screen expected"),
    }
    let before = s.lolly_weight_dg;
    Event::Button(ButtonEvent::APressed).resolve_at(&mut s, 2);
    Event::Button(ButtonEvent::BPressed).resolve_at(&mut s, 3);
    assert_eq!(s.lolly_weight_dg, before);
    s.lolly_weight_dg = i32::MAX;
    Event::Button(ButtonEvent::ARepeated).resolve_at(&mut s, 4);
    assert_eq!(s.lolly_weight_dg, i32::MAX);
}
