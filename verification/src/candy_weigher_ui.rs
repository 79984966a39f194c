//! What the display shows: the screen's content, and the drawing commands
//! that put it on the display.
use vstd::prelude::*;
use crate::config_consts::SEMICIRCLE_DIAMETER;
use crate::state::{BatteryState, ButtonState, CalibrationState};
use crate::text::{append_digits, append_int, append_tenths, digits, int_text, tenths_text};
use crate::utils::{round_quotient, round_quotient_spec, whole_counts_spec, ScaleRawWeight};

verus! {

/// Everything that determines the picture on the display.
#[derive(Copy, Clone, Debug, PartialEq, Eq, Structural)]
pub enum DisplayState {
    MainScreen {
        /// Weight on the scale less the tare, in tenths of a gram.
        scale_weight_dg: i64,
        /// Weight of one lolly, in tenths of a gram.
        lolly_weight_dg: i32,
        lolly_count: u32,
        lolly_count_change: i32,
        t_l_state: ButtonState,
        b_l_state: ButtonState,
        t_r_state: ButtonState,
        b_r_state: ButtonState,
        battery_state: BatteryState,
    },
    CalibrationScreen(CalibrationState),
    SavingSettingsScreen,
}

/// Height of the display in pixels, in landscape orientation.
pub const DISPLAY_H: u16 = 135;
/// Width of the display in pixels, in landscape orientation.
pub const DISPLAY_W: u16 = 240;

/// Colours used on the display.
#[derive(Copy, Clone, Debug, PartialEq, Eq, Structural)]
pub enum Colour {
    Black,
    White,
    Green,
    Blue,
}

/// How text is drawn: in the 10x20 monospace font, or as seven-segment digits
/// of the given size.
#[derive(Copy, Clone, Debug, PartialEq, Eq, Structural)]
pub enum TextStyle {
    Mono10x20 { colour: Colour },
    SevenSegment { digit_width: u32, digit_height: u32, colour: Colour },
}

/// How a circle is drawn: filled, or outlined with a stroke of the given width.
#[derive(Copy, Clone, Debug, PartialEq, Eq, Structural)]
pub enum CircleStyle {
    Fill(Colour),
    Stroke { colour: Colour, width: u32 },
}

/// One drawing operation; text is placed at its left end on the baseline.
#[derive(Debug)]
pub enum DrawCommand {
    Clear(Colour),
    Text { text: String, x: i32, y: i32, text_style: TextStyle },
    Circle { center_x: i32, center_y: i32, diameter: u32, circle_style: CircleStyle },
}

/// A drawing operation with its text as a sequence of characters.
pub enum DrawOp {
    Clear(Colour),
    Text { text: Seq<char>, x: int, y: int, text_style: TextStyle },
    Circle { center_x: int, center_y: int, diameter: int, circle_style: CircleStyle },
}

impl View for DrawCommand {
    type V = DrawOp;

    open spec fn view(&self) -> DrawOp {
        match self {
            DrawCommand::Clear(c) => DrawOp::Clear(*c),
            DrawCommand::Text { text, x, y, text_style } => DrawOp::Text { text: text@, x: *x as int, y: *y as int, text_style: *text_style },
            DrawCommand::Circle { center_x, center_y, diameter, circle_style } => DrawOp::Circle {
                center_x: *center_x as int,
                center_y: *center_y as int,
                diameter: *diameter as int,
                circle_style: *circle_style,
            },
        }
    }
}

/// The operations of a list of drawing commands.
pub open spec fn ops(v: Seq<DrawCommand>) -> Seq<DrawOp> {
    v.map_values(|c: DrawCommand| c@)
}

/// The corners of the display, each with a button beside it.
#[derive(Copy, Clone, Debug, PartialEq, Eq, Structural)]
pub enum ButtonPos {
    TopLeft,
    TopRight,
    BottomLeft,
    BottomRight,
}

/// Width of a character of the 10x20 font.
pub open spec fn font_width() -> int {
    10
}

/// Where a corner button's label goes (left end, baseline).
pub open spec fn label_position(pos: ButtonPos) -> (int, int) {
    match pos {
        ButtonPos::TopLeft => (1, 11),
        ButtonPos::TopRight => (DISPLAY_W - 1 - font_width(), 13),
        ButtonPos::BottomLeft => (1, DISPLAY_H - 1),
        ButtonPos::BottomRight => (DISPLAY_W - 1 - font_width(), DISPLAY_H - 2),
    }
}

/// The centre of a corner button's semicircle: the corner itself.
pub open spec fn corner(pos: ButtonPos) -> (int, int) {
    match pos {
        ButtonPos::TopLeft => (0, 0),
        ButtonPos::TopRight => (DISPLAY_W as int, 0),
        ButtonPos::BottomLeft => (0, DISPLAY_H as int),
        ButtonPos::BottomRight => (DISPLAY_W as int, DISPLAY_H as int),
    }
}

/// Diameter of the dark disc that shows how far a long press has progressed:
/// that share of the semicircle's diameter, to the nearest pixel.
pub open spec fn held_diameter(percent: u8) -> int {
    let d = round_quotient_spec(SEMICIRCLE_DIAMETER * percent, 100);
    if d < 0 { 0 } else { d }
}

/// A corner button: an outlined semicircle when released, a filled one when
/// pressed, a filled one with a dark disc growing from the corner while held;
/// then its label.
pub open spec fn corner_button_layout(pos: ButtonPos, label: Seq<char>, status: ButtonState) -> Seq<DrawOp> {
    let (cx, cy) = corner(pos);
    let (lx, ly) = label_position(pos);
    let full = SEMICIRCLE_DIAMETER as int;
    let circles = match status {
        ButtonState::Off => seq![DrawOp::Circle { center_x: cx, center_y: cy, diameter: full, circle_style: CircleStyle::Stroke { colour: Colour::White, width: 2 } }],
        ButtonState::On => seq![DrawOp::Circle { center_x: cx, center_y: cy, diameter: full, circle_style: CircleStyle::Fill(Colour::White) }],
        ButtonState::Held(p) => seq![
            DrawOp::Circle { center_x: cx, center_y: cy, diameter: full, circle_style: CircleStyle::Fill(Colour::White) },
            DrawOp::Circle { center_x: cx, center_y: cy, diameter: held_diameter(p), circle_style: CircleStyle::Fill(Colour::Black) },
        ],
    };
    circles.push(DrawOp::Text { text: label, x: lx, y: ly, text_style: TextStyle::Mono10x20 { colour: Colour::Green } })
}

/// Width of a character of `embedded_graphics`'s 10x20 monospace font:
/// `FONT_10X20.character_size.width`, which its source gives as 10.
#[verifier::external_body]
fn font_10x20_width() -> (r: u32)
    ensures
        r == font_width(),
{
    embedded_graphics::mono_font::ascii::FONT_10X20.character_size.width
}

/// The drawing commands of a corner button; see `corner_button_layout`.
pub fn draw_corner_button(pos: ButtonPos, text: &str, status: ButtonState) -> (r: Vec<DrawCommand>)
    ensures
        ops(r@) == corner_button_layout(pos, text@, status),
{
    let w = font_10x20_width();
    let right_x: i32 = (DISPLAY_W as u32 - 1 - w) as i32;
    let (char_x, char_y): (i32, i32) = match pos {
        ButtonPos::TopLeft => (1, 11),
        ButtonPos::TopRight => (right_x, 13),
        ButtonPos::BottomLeft => (1, DISPLAY_H as i32 - 1),
        ButtonPos::BottomRight => (right_x, DISPLAY_H as i32 - 2),
    };
    let (cx, cy): (i32, i32) = match pos {
        ButtonPos::TopLeft => (0, 0),
        ButtonPos::TopRight => (DISPLAY_W as i32, 0),
        ButtonPos::BottomLeft => (0, DISPLAY_H as i32),
        ButtonPos::BottomRight => (DISPLAY_W as i32, DISPLAY_H as i32),
    };
    let mut out: Vec<DrawCommand> = Vec::new();
    match status {
        ButtonState::Off => {
            out.push(DrawCommand::Circle {
                center_x: cx,
                center_y: cy,
                diameter: SEMICIRCLE_DIAMETER,
                circle_style: CircleStyle::Stroke { colour: Colour::White, width: 2 },
            });
        },
        ButtonState::On => {
            out.push(DrawCommand::Circle {
                center_x: cx,
                center_y: cy,
                diameter: SEMICIRCLE_DIAMETER,
                circle_style: CircleStyle::Fill(Colour::White),
            });
        },
        ButtonState::Held(percentage) => {
            out.push(DrawCommand::Circle {
                center_x: cx,
                center_y: cy,
                diameter: SEMICIRCLE_DIAMETER,
                circle_style: CircleStyle::Fill(Colour::White),
            });
            assert(SEMICIRCLE_DIAMETER == 44);
            let d = round_quotient(44 * percentage as i128, 100);
            let diameter: u32 = if d < 0 { 0 } else { d as u32 };
            out.push(DrawCommand::Circle {
                center_x: cx,
                center_y: cy,
                diameter,
                circle_style: CircleStyle::Fill(Colour::Black),
            });
        },
    }
    out.push(DrawCommand::Text {
        text: String::from_str(text),
        x: char_x,
        y: char_y,
        text_style: TextStyle::Mono10x20 { colour: Colour::Green },
    });
    assert(ops(out@) =~= corner_button_layout(pos, text@, status));
    out
}


pub open spec fn text_op(text: Seq<char>, x: int, y: int, style: TextStyle) -> DrawOp {
    DrawOp::Text { text, x, y, text_style: style }
}

pub open spec fn mono(colour: Colour) -> TextStyle {
    TextStyle::Mono10x20 { colour }
}

/// Seven-segment digits of the calibration readings.
pub open spec fn reading_style() -> TextStyle {
    TextStyle::SevenSegment { digit_width: 10, digit_height: 20, colour: Colour::Green }
}

/// The calibration screen: instructions for the stage, and the tare and 50 g
/// readings once there are any, each beside its name.
pub open spec fn calibration_layout(c: CalibrationState) -> Seq<DrawOp> {
    let clear = seq![DrawOp::Clear(Colour::Black)];
    let g = mono(Colour::Green);
    match c {
        CalibrationState::TareCalibrated { latest_tare_calib_value } => clear + seq![
            text_op("Tare callibration complete. Place 50g weight on scale and press x to continue calibration."@, 10, 30, g),
            text_op("Raw Tare"@, 10, 52, g),
            text_op(int_text(whole_counts_spec(latest_tare_calib_value.0 as int)), 90, 52, reading_style()),
        ],
        CalibrationState::CalibratingTare { latest_tare_calib_value } => clear + seq![
            text_op("Calibrating tare in progress."@, 10, 30, g),
            text_op("Raw Tare"@, 10, 52, g),
            text_op(int_text(whole_counts_spec(latest_tare_calib_value.0 as int)), 90, 52, reading_style()),
        ],
        CalibrationState::Calibrating50g { latest_tare_calib_value, latest_50g_calib_value } => clear + seq![
            text_op("Calibrating with 50g weight in progress."@, 10, 30, g),
            text_op("Raw Tare"@, 10, 52, g),
            text_op("Raw 50g"@, 10, 74, g),
            text_op(int_text(whole_counts_spec(latest_tare_calib_value.0 as int)), 90, 52, reading_style()),
            text_op(int_text(whole_counts_spec(latest_50g_calib_value.0 as int)), 90, 74, reading_style()),
        ],
        CalibrationState::WaitingConfirmation => clear + seq![
            text_op("Remove all weight from the scale and press x to commence calibration."@, 10, 30, g),
        ],
        CalibrationState::Calibrated { latest_tare_calib_value, latest_50g_calib_value } => clear + seq![
            text_op("Calibration complete. Press x to apply."@, 10, 30, g),
            text_op("Raw Tare"@, 10, 52, g),
            text_op("Raw 50g"@, 10, 74, g),
            text_op(int_text(whole_counts_spec(latest_tare_calib_value.0 as int)), 90, 52, reading_style()),
            text_op(int_text(whole_counts_spec(latest_50g_calib_value.0 as int)), 90, 74, reading_style()),
        ],
        CalibrationState::Loading => clear + seq![text_op("Loading..."@, 10, 30, g)],
    }
}

/// The tare reading that a calibration state holds, if any.
pub open spec fn tare_reading(c: CalibrationState) -> Option<ScaleRawWeight> {
    match c {
        CalibrationState::CalibratingTare { latest_tare_calib_value }
        | CalibrationState::TareCalibrated { latest_tare_calib_value }
        | CalibrationState::Calibrating50g { latest_tare_calib_value, .. }
        | CalibrationState::Calibrated { latest_tare_calib_value, .. } => Some(latest_tare_calib_value),
        _ => None,
    }
}

/// The 50 g reading that a calibration state holds, if any.
pub open spec fn fifty_gram_reading(c: CalibrationState) -> Option<ScaleRawWeight> {
    match c {
        CalibrationState::Calibrating50g { latest_50g_calib_value, .. }
        | CalibrationState::Calibrated { latest_50g_calib_value, .. } => Some(latest_50g_calib_value),
        _ => None,
    }
}

/// The text that an operation draws at the left end `(x, y)`, if it draws one there.
pub open spec fn text_at(op: DrawOp, x: int, y: int) -> Option<Seq<char>> {
    match op {
        DrawOp::Text { text, x: x2, y: y2, .. } => if x2 == x && y2 == y { Some(text) } else { None },
        _ => None,
    }
}

/// On a calibration screen, the text in the reading column (x = 90) on the
/// row of the label `label` (drawn at x = 10) is `reading`'s whole counts,
/// and such a label and reading are drawn exactly when there is a reading.
pub open spec fn reading_beside_label(l: Seq<DrawOp>, label: Seq<char>, reading: Option<ScaleRawWeight>) -> bool {
    &&& forall|i: int, j: int, y: int|
        0 <= i < l.len() && 0 <= j < l.len() && #[trigger] text_at(l[i], 10, y) == Some(label)
            && (#[trigger] text_at(l[j], 90, y)) is Some ==> reading is Some && text_at(l[j], 90, y) == Some(
            int_text(whole_counts_spec(reading.unwrap().0 as int)),
        )
    &&& reading is Some ==> exists|i: int, j: int, y: int|
        0 <= i < l.len() && 0 <= j < l.len() && #[trigger] text_at(l[i], 10, y) == Some(label)
            && (#[trigger] text_at(l[j], 90, y)) is Some
    &&& reading is None ==> forall|i: int, y: int| 0 <= i < l.len() ==> #[trigger] text_at(l[i], 10, y) != Some(label)
}

/// On every calibration screen the tare reading is shown on the row of the
/// "Raw Tare" label and the 50 g reading on the row of the "Raw 50g" label,
/// each as its whole converter counts; each label and its reading appear
/// exactly when the stage holds that reading.
pub proof fn lemma_calibration_readings_beside_labels(c: CalibrationState)
    ensures
        reading_beside_label(calibration_layout(c), "Raw Tare"@, tare_reading(c)),
        reading_beside_label(calibration_layout(c), "Raw 50g"@, fifty_gram_reading(c)),
{
    reveal_strlit("Raw Tare");
    reveal_strlit("Raw 50g");
    reveal_strlit("Tare callibration complete. Place 50g weight on scale and press x to continue calibration.");
    reveal_strlit("Calibrating tare in progress.");
    reveal_strlit("Calibrating with 50g weight in progress.");
    reveal_strlit("Remove all weight from the scale and press x to commence calibration.");
    reveal_strlit("Calibration complete. Press x to apply.");
    reveal_strlit("Loading...");
    let l = calibration_layout(c);
    let tare = "Raw Tare"@;
    let fifty = "Raw 50g"@;
    assert(tare.len() != fifty.len());
    assert(tare != fifty);
    match c {
        CalibrationState::TareCalibrated { .. } | CalibrationState::CalibratingTare { .. } => {
            assert(text_at(l[2], 10, 52) == Some(tare));
            assert(text_at(l[3], 90, 52) is Some);
        },
        CalibrationState::Calibrating50g { .. } | CalibrationState::Calibrated { .. } => {
            assert(text_at(l[2], 10, 52) == Some(tare));
            assert(text_at(l[3], 10, 74) == Some(fifty));
            assert(text_at(l[4], 90, 52) is Some);
            assert(text_at(l[5], 90, 74) is Some);
        },
        _ => {},
    }
}

/// The saving-settings screen.
pub open spec fn saving_settings_layout() -> Seq<DrawOp> {
    seq![
        DrawOp::Clear(Colour::Black),
        text_op("Settings saved - press X to continue"@, 10, 90, mono(Colour::Green)),
    ]
}

/// Text of the change of the lolly count: signed, with `+` when not negative.
pub open spec fn change_text(change: i32) -> Seq<char> {
    if change >= 0 { "+"@ + digits(change as nat) } else { int_text(change as int) }
}

/// The main screen: the four corner buttons (A "+" top left, B "-" bottom
/// left, X "R" top right, Y "T" bottom right), the tared weight and the lolly
/// weight to a tenth of a gram, the lolly count in large seven-segment digits,
/// and its change.
pub open spec fn main_layout(
    scale_weight_dg: i64,
    lolly_weight_dg: i32,
    lolly_count: u32,
    lolly_count_change: i32,
    t_l_state: ButtonState,
    b_l_state: ButtonState,
    t_r_state: ButtonState,
    b_r_state: ButtonState,
) -> Seq<DrawOp> {
    let b = mono(Colour::Blue);
    seq![DrawOp::Clear(Colour::Black)]
        + corner_button_layout(ButtonPos::TopLeft, "+"@, t_l_state)
        + corner_button_layout(ButtonPos::BottomLeft, "-"@, b_l_state)
        + corner_button_layout(ButtonPos::TopRight, "R"@, t_r_state)
        + corner_button_layout(ButtonPos::BottomRight, "T"@, b_r_state)
        + seq![
            text_op("W-Scale: "@ + tenths_text(scale_weight_dg as int) + "g"@, 40, 22, b),
            text_op("W-Lolly: "@ + tenths_text(lolly_weight_dg as int) + "g"@, 40, DISPLAY_H - 5, b),
            text_op(
                digits(lolly_count as nat),
                10,
                90,
                TextStyle::SevenSegment { digit_width: 30, digit_height: 50, colour: Colour::Green },
            ),
            text_op(change_text(lolly_count_change), 160, 70, b),
        ]
}

/// The picture for a display state.
pub open spec fn display_layout(state: DisplayState) -> Seq<DrawOp> {
    match state {
        DisplayState::MainScreen {
            scale_weight_dg,
            lolly_weight_dg,
            lolly_count,
            lolly_count_change,
            t_l_state,
            b_l_state,
            t_r_state,
            b_r_state,
            ..
        } => main_layout(
            scale_weight_dg,
            lolly_weight_dg,
            lolly_count,
            lolly_count_change,
            t_l_state,
            b_l_state,
            t_r_state,
            b_r_state,
        ),
        DisplayState::CalibrationScreen(c) => calibration_layout(c),
        DisplayState::SavingSettingsScreen => saving_settings_layout(),
    }
}

fn text_command(text: String, x: i32, y: i32, text_style: TextStyle) -> (r: DrawCommand)
    ensures
        r@ == text_op(text@, x as int, y as int, text_style),
{
    DrawCommand::Text { text, x, y, text_style }
}

fn int_string(v: i32) -> (r: String)
    ensures
        r@ == int_text(v as int),
{
    let mut s = String::new();
    append_int(&mut s, v as i64);
    assert(s@ =~= int_text(v as int));
    s
}

/// The drawing commands of the calibration screen; see `calibration_layout`.
pub fn draw_calibration_screen(state: CalibrationState) -> (r: Vec<DrawCommand>)
    ensures
        ops(r@) == calibration_layout(state),
{
    let green = TextStyle::Mono10x20 { colour: Colour::Green };
    let seg = TextStyle::SevenSegment { digit_width: 10, digit_height: 20, colour: Colour::Green };
    let mut out: Vec<DrawCommand> = Vec::new();
    out.push(DrawCommand::Clear(Colour::Black));
    match state {
        CalibrationState::TareCalibrated { latest_tare_calib_value } => {
            out.push(text_command(
                String::from_str("Tare callibration complete. Place 50g weight on scale and press x to continue calibration."),
                10,
                30,
                green,
            ));
            out.push(text_command(String::from_str("Raw Tare"), 10, 52, green));
            out.push(text_command(int_string(latest_tare_calib_value.whole_counts()), 90, 52, seg));
        },
        CalibrationState::CalibratingTare { latest_tare_calib_value } => {
            out.push(text_command(String::from_str("Calibrating tare in progress."), 10, 30, green));
            out.push(text_command(String::from_str("Raw Tare"), 10, 52, green));
            out.push(text_command(int_string(latest_tare_calib_value.whole_counts()), 90, 52, seg));
        },
        CalibrationState::Calibrating50g { latest_tare_calib_value, latest_50g_calib_value } => {
            out.push(text_command(String::from_str("Calibrating with 50g weight in progress."), 10, 30, green));
            out.push(text_command(String::from_str("Raw Tare"), 10, 52, green));
            out.push(text_command(String::from_str("Raw 50g"), 10, 74, green));
            out.push(text_command(int_string(latest_tare_calib_value.whole_counts()), 90, 52, seg));
            out.push(text_command(int_string(latest_50g_calib_value.whole_counts()), 90, 74, seg));
        },
        CalibrationState::WaitingConfirmation => {
            out.push(text_command(
                String::from_str("Remove all weight from the scale and press x to commence calibration."),
                10,
                30,
                green,
            ));
        },
        CalibrationState::Calibrated { latest_tare_calib_value, latest_50g_calib_value } => {
            out.push(text_command(String::from_str("Calibration complete. Press x to apply."), 10, 30, green));
            out.push(text_command(String::from_str("Raw Tare"), 10, 52, green));
            out.push(text_command(String::from_str("Raw 50g"), 10, 74, green));
            out.push(text_command(int_string(latest_tare_calib_value.whole_counts()), 90, 52, seg));
            out.push(text_command(int_string(latest_50g_calib_value.whole_counts()), 90, 74, seg));
        },
        CalibrationState::Loading => {
            out.push(text_command(String::from_str("Loading..."), 10, 30, green));
        },
    }
    assert(ops(out@) =~= calibration_layout(state));
    out
}

/// The drawing commands of the saving-settings screen.
pub fn draw_saving_settings_screen() -> (r: Vec<DrawCommand>)
    ensures
        ops(r@) == saving_settings_layout(),
{
    let mut out: Vec<DrawCommand> = Vec::new();
    out.push(DrawCommand::Clear(Colour::Black));
    out.push(text_command(
        String::from_str("Settings saved - press X to continue"),
        10,
        90,
        TextStyle::Mono10x20 { colour: Colour::Green },
    ));
    assert(ops(out@) =~= saving_settings_layout());
    out
}

fn append_commands(out: &mut Vec<DrawCommand>, more: Vec<DrawCommand>)
    ensures
        ops(final(out)@) == ops(old(out)@) + ops(more@),
{
    let ghost orig_out = out@;
    let ghost orig_more = more@;
    let mut more = more;
    out.append(&mut more);
    assert(ops(out@) =~= ops(orig_out) + ops(orig_more));
}

/// The drawing commands of the main screen; see `main_layout`.
pub fn draw_main_screen(
    scale_weight_dg: i64,
    lolly_weight_dg: i32,
    lolly_count: u32,
    lolly_count_change: i32,
    t_l_state: ButtonState,
    b_l_state: ButtonState,
    t_r_state: ButtonState,
    b_r_state: ButtonState,
) -> (r: Vec<DrawCommand>)
    ensures
        ops(r@) == main_layout(
            scale_weight_dg,
            lolly_weight_dg,
            lolly_count,
            lolly_count_change,
            t_l_state,
            b_l_state,
            t_r_state,
            b_r_state,
        ),
{
    let blue = TextStyle::Mono10x20 { colour: Colour::Blue };
    let mut scale_weight_str = String::from_str("W-Scale: ");
    append_tenths(&mut scale_weight_str, scale_weight_dg);
    scale_weight_str.append("g");
    let mut lolly_weight_str = String::from_str("W-Lolly: ");
    append_tenths(&mut lolly_weight_str, lolly_weight_dg as i64);
    lolly_weight_str.append("g");
    let mut lolly_count_str = String::new();
    append_digits(&mut lolly_count_str, lolly_count as u64);
    let mut lolly_count_change_str = String::new();
    if lolly_count_change >= 0 {
        lolly_count_change_str.append("+");
        append_digits(&mut lolly_count_change_str, lolly_count_change as u64);
    } else {
        append_int(&mut lolly_count_change_str, lolly_count_change as i64);
    }
    let mut out: Vec<DrawCommand> = Vec::new();
    out.push(DrawCommand::Clear(Colour::Black));
    append_commands(&mut out, draw_corner_button(ButtonPos::TopLeft, "+", t_l_state));
    append_commands(&mut out, draw_corner_button(ButtonPos::BottomLeft, "-", b_l_state));
    append_commands(&mut out, draw_corner_button(ButtonPos::TopRight, "R", t_r_state));
    append_commands(&mut out, draw_corner_button(ButtonPos::BottomRight, "T", b_r_state));
    let ghost before = ops(out@);
    assert(before =~= seq![DrawOp::Clear(Colour::Black)]
        + corner_button_layout(ButtonPos::TopLeft, "+"@, t_l_state)
        + corner_button_layout(ButtonPos::BottomLeft, "-"@, b_l_state)
        + corner_button_layout(ButtonPos::TopRight, "R"@, t_r_state)
        + corner_button_layout(ButtonPos::BottomRight, "T"@, b_r_state));
    let ghost t1 = scale_weight_str@;
    let ghost t2 = lolly_weight_str@;
    let ghost t3 = lolly_count_str@;
    let ghost t4 = lolly_count_change_str@;
    assert(t4 =~= change_text(lolly_count_change));
    out.push(text_command(scale_weight_str, 40, 22, blue));
    out.push(text_command(lolly_weight_str, 40, DISPLAY_H as i32 - 5, blue));
    out.push(text_command(
        lolly_count_str,
        10,
        90,
        TextStyle::SevenSegment { digit_width: 30, digit_height: 50, colour: Colour::Green },
    ));
    out.push(text_command(lolly_count_change_str, 160, 70, blue));
    assert(ops(out@) =~= before + seq![
        text_op(t1, 40, 22, blue),
        text_op(t2, 40, DISPLAY_H - 5, blue),
        text_op(t3, 10, 90, TextStyle::SevenSegment { digit_width: 30, digit_height: 50, colour: Colour::Green }),
        text_op(t4, 160, 70, blue),
    ]);
    assert(ops(out@) =~= main_layout(
        scale_weight_dg,
        lolly_weight_dg,
        lolly_count,
        lolly_count_change,
        t_l_state,
        b_l_state,
        t_r_state,
        b_r_state,
    ));
    out
}

/// The drawing commands that show a display state; see `display_layout`.
pub fn draw(state: &DisplayState) -> (r: Vec<DrawCommand>)
    ensures
        ops(r@) == display_layout(*state),
{
    match *state {
        DisplayState::MainScreen {
            scale_weight_dg,
            lolly_weight_dg,
            lolly_count,
            lolly_count_change,
            t_l_state,
            b_l_state,
            t_r_state,
            b_r_state,
            ..
        } => draw_main_screen(
            scale_weight_dg,
            lolly_weight_dg,
            lolly_count,
            lolly_count_change,
            t_l_state,
            b_l_state,
            t_r_state,
            b_r_state,
        ),
        DisplayState::CalibrationScreen(c) => draw_calibration_screen(c),
        DisplayState::SavingSettingsScreen => draw_saving_settings_screen(),
    }
}

} // verus!
