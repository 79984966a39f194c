use candy_weigher::candy_weigher_ui::{
    draw, draw_calibration_screen, draw_corner_button, draw_main_screen, draw_saving_settings_screen, ButtonPos,
    CircleStyle, Colour, DisplayState, DrawCommand, TextStyle,
};
use candy_weigher::state::{BatteryState, ButtonState, CalibrationState};
use candy_weigher::text::{append_digits, append_int, append_tenths};
use candy_weigher::utils::ScaleRawWeight;

fn texts(commands: &[DrawCommand]) -> Vec<(String, i32, i32)> {
    commands
        .iter()
        .filter_map(|c| match c {
            DrawCommand::Text { text, x, y, .. } => Some((text.clone(), *x, *y)),
            _ => None,
        })
        .collect()
}

#[test]
fn decimal_text() {
    let mut s = String::new();
    append_digits(&mut s, 0);
    assert_eq!(s, "0");
    let mut s = String::new();
    append_digits(&mut s, 4294967295);
    assert_eq!(s, "4294967295");
    let mut s = String::from("x=");
    append_int(&mut s, -2147483648);
    assert_eq!(s, "x=-2147483648");
    let mut s = String::new();
    append_int(&mut s, i64::MIN);
    assert_eq!(s, i64::MIN.to_string());
}

#[test]
fn tenths_text() {
    for (dg, expected) in [(0i64, "0.0"), (5, "0.5"), (-5, "-0.5"), (123, "12.3"), (-1234, "-123.4"), (250, "25.0")] {
        let mut s = String::new();
        append_tenths(&mut s, dg);
        assert_eq!(s, expected);
    }
}

#[test]
fn corner_buttons() {
    let off = draw_corner_button(ButtonPos::TopLeft, "+", ButtonState::Off);
    assert_eq!(off.len(), 2);
    match &off[0] {
        DrawCommand::Circle { center_x, center_y, diameter, circle_style } => {
            assert_eq!((*center_x, *center_y, *diameter), (0, 0, 44));
            assert_eq!(*circle_style, CircleStyle::Stroke { colour: Colour::White, width: 2 });
        }
        _ => panic!("expected a circle"),
    }
    assert_eq!(texts(&off), vec![("+".to_string(), 1, 11)]);

    let held = draw_corner_button(ButtonPos::BottomRight, "T", ButtonState::Held(50));
    assert_eq!(held.len(), 3);
    match &held[1] {
        DrawCommand::Circle { center_x, center_y, diameter, circle_style } => {
            assert_eq!((*center_x, *center_y, *diameter), (240, 135, 22));
            assert_eq!(*circle_style, CircleStyle::Fill(Colour::Black));
        }
        _ => panic!("expected a circle"),
    }
    assert_eq!(texts(&held), vec![("T".to_string(), 229, 133)]);

    let on = draw_corner_button(ButtonPos::TopRight, "R", ButtonState::On);
    assert_eq!(texts(&on), vec![("R".to_string(), 229, 13)]);
    let bl = draw_corner_button(ButtonPos::BottomLeft, "-", ButtonState::Held(1));
    match &bl[1] {
        DrawCommand::Circle { diameter, .. } => assert_eq!(*diameter, 0),
        _ => panic!("expected a circle"),
    }
}

#[test]
fn main_screen_texts() {
    let cmds = draw_main_screen(
        735,
        250,
        3,
        -2,
        ButtonState::Off,
        ButtonState::On,
        ButtonState::Off,
        ButtonState::Held(10),
    );
    assert!(matches!(cmds[0], DrawCommand::Clear(Colour::Black)));
    let t = texts(&cmds);
    let tail: Vec<_> = t[t.len() - 4..].to_vec();
    assert_eq!(
        tail,
        vec![
            ("W-Scale: 73.5g".to_string(), 40, 22),
            ("W-Lolly: 25.0g".to_string(), 40, 130),
            ("3".to_string(), 10, 90),
            ("-2".to_string(), 160, 70),
        ]
    );
    let cmds = draw_main_screen(0, 250, 0, 0, ButtonState::Off, ButtonState::Off, ButtonState::Off, ButtonState::Off);
    let t = texts(&cmds);
    assert_eq!(t.last().unwrap().0, "+0");
    match cmds.iter().rev().nth(1).unwrap() {
        DrawCommand::Text { text_style, .. } => assert_eq!(
            *text_style,
            TextStyle::SevenSegment { digit_width: 30, digit_height: 50, colour: Colour::Green }
        ),
        _ => panic!("expected text"),
    }
}

#[test]
fn calibration_screen_texts() {
    let cmds = draw_calibration_screen(CalibrationState::Calibrating50g {
        latest_tare_calib_value: ScaleRawWeight(-1_250),
        latest_50g_calib_value: ScaleRawWeight(3_980_750),
    });
    assert_eq!(
        texts(&cmds),
        vec![
            ("Calibrating with 50g weight in progress.".to_string(), 10, 30),
            ("Raw Tare".to_string(), 10, 52),
            ("Raw 50g".to_string(), 10, 74),
            ("-12".to_string(), 90, 52),
            ("39807".to_string(), 90, 74),
        ]
    );
    let cmds = draw_calibration_screen(CalibrationState::Loading);
    assert_eq!(texts(&cmds), vec![("Loading...".to_string(), 10, 30)]);
    let cmds = draw_calibration_screen(CalibrationState::WaitingConfirmation);
    assert_eq!(cmds.len(), 2);
}

#[test]
fn saving_settings_and_dispatch() {
    let cmds = draw_saving_settings_screen();
    assert_eq!(texts(&cmds), vec![("Settings saved - press X to continue".to_string(), 10, 90)]);
    let via_draw = draw(&DisplayState::SavingSettingsScreen);
    assert_eq!(texts(&via_draw), texts(&cmds));
    let main = draw(&DisplayState::MainScreen {
        scale_weight_dg: -7,
        lolly_weight_dg: 123,
        lolly_count: 0,
        lolly_count_change: 0,
        t_l_state: ButtonState::Off,
        b_l_state: ButtonState::Off,
        t_r_state: ButtonState::Off,
        b_r_state: ButtonState::Off,
        battery_state: BatteryState::Unknown,
    });
    let t = texts(&main);
    assert!(t.contains(&("W-Scale: -0.7g".to_string(), 40, 22)));
    assert!(t.contains(&("W-Lolly: 12.3g".to_string(), 40, 130)));
}
