use candy_weigher::config_consts::{led_step_duration, max_led_on_time, time_from_backlight_low_to_off, time_to_backlight_low};
use candy_weigher::hardware_controllers::flash::{erase_range, Config};
use candy_weigher::hardware_controllers::pimori_display::pixels_from_be_bytes;
use candy_weigher::hardware_controllers::pimoroni_display_leds::{pwm_compare, Percentage};
use candy_weigher::hardware_controllers::{HX710Controller, RaiseCalibrationSignal};
use candy_weigher::hx710::{pio_clock_divider, sign_extend_24};
use candy_weigher::utils::{round_quotient, ScaleRawWeight};

#[test]
fn rounding_halves_away_from_zero() {
    assert_eq!(round_quotient(5, 10), 1);
    assert_eq!(round_quotient(4, 10), 0);
    assert_eq!(round_quotient(-5, 10), -1);
    assert_eq!(round_quotient(-4, 10), 0);
    assert_eq!(round_quotient(7, -2), -4);
    assert_eq!(round_quotient(-7, -2), 4);
    assert_eq!(round_quotient(100, 25), 4);
}

#[test]
fn rounding_saturates_and_handles_zero_divisor() {
    assert_eq!(round_quotient(i128::MAX, 1), i32::MAX);
    assert_eq!(round_quotient(i128::MIN, 1), i32::MIN);
    assert_eq!(round_quotient(i128::MIN, -1), i32::MAX);
    assert_eq!(round_quotient(i64::MAX as i128, i64::MAX as i128), 1);
    assert_eq!(round_quotient(3, 0), i32::MAX);
    assert_eq!(round_quotient(-3, 0), i32::MIN);
    assert_eq!(round_quotient(0, 0), 0);
}

#[test]
fn to_grams_in_tenths() {
    // Readings in hundredths of a converter count.
    let tare = ScaleRawWeight(419_000);
    let fifty = ScaleRawWeight(3_980_700);
    assert_eq!(ScaleRawWeight(419_000).to_grams(tare, fifty), 0);
    assert_eq!(ScaleRawWeight(3_980_700).to_grams(tare, fifty), 500);
    // 712.34 counts per gram: 7123 counts above the tare is 9.999 g, shown as 10.0 g.
    assert_eq!(ScaleRawWeight(419_000 + 712_300).to_grams(tare, fifty), 100);
    assert_eq!(ScaleRawWeight(419_000 - 3_561_700).to_grams(tare, fifty), -500);
    // A fraction of a count moves the weight: 35.6 counts above the tare is
    // 0.0499 g (0.0 g), 35.7 counts is 0.0501 g (0.1 g).
    assert_eq!(ScaleRawWeight(419_000 + 3_560).to_grams(tare, fifty), 0);
    assert_eq!(ScaleRawWeight(419_000 + 3_570).to_grams(tare, fifty), 1);
    // An uncalibrated scale (equal readings) saturates.
    assert_eq!(ScaleRawWeight(10).to_grams(ScaleRawWeight(0), ScaleRawWeight(0)), i32::MAX);
    assert_eq!(ScaleRawWeight(0).get_raw(), 0);
    assert_eq!(ScaleRawWeight::from_raw(-9), ScaleRawWeight(-9));
    assert_eq!(ScaleRawWeight::default(), ScaleRawWeight(0));
}

#[test]
fn whole_counts_of_a_reading() {
    assert_eq!(ScaleRawWeight::from_counts(4190), ScaleRawWeight(419_000));
    assert_eq!(ScaleRawWeight::from_counts(-3), ScaleRawWeight(-300));
    assert_eq!(ScaleRawWeight(419_099).whole_counts(), 4190);
    assert_eq!(ScaleRawWeight(-1_250).whole_counts(), -12);
    assert_eq!(ScaleRawWeight(-99).whole_counts(), 0);
    assert_eq!(ScaleRawWeight(i64::MAX).whole_counts(), i32::MAX);
    assert_eq!(ScaleRawWeight(i64::MIN).whole_counts(), i32::MIN);
}

#[test]
fn durations_in_ticks() {
    assert_eq!(max_led_on_time(), 500_000);
    assert_eq!(led_step_duration(), 62_500);
    assert_eq!(time_to_backlight_low(), 10_000_000);
    assert_eq!(time_from_backlight_low_to_off(), Some(300_000_000));
}

#[test]
fn pwm_duty() {
    assert_eq!(pwm_compare(Percentage(100)), 0xffff);
    assert_eq!(pwm_compare(Percentage(0)), 0);
    assert_eq!(pwm_compare(Percentage(20)), 13107);
    assert_eq!(pwm_compare(Percentage(200)), 0xffff);
}

#[test]
fn sign_extension_of_samples() {
    assert_eq!(sign_extend_24(0x000001), 1);
    assert_eq!(sign_extend_24(0x7FFFFF), 8388607);
    assert_eq!(sign_extend_24(0x800000), -8388608);
    assert_eq!(sign_extend_24(0xFFFFFF), -1);
    assert_eq!(pio_clock_divider(), 266);
}

#[test]
fn big_endian_pixels() {
    assert_eq!(pixels_from_be_bytes(&[0x12, 0x34, 0xff, 0x00, 0x07]), vec![0x1234, 0xff00]);
    assert_eq!(pixels_from_be_bytes(&[]), Vec::<u16>::new());
}

#[test]
fn flash_erase_range() {
    assert_eq!(erase_range(2040 * 1024, 4096), (2040 * 1024, 2040 * 1024 + 4096));
}

#[test]
fn default_config() {
    let c = Config::default();
    assert_eq!(c.tare_weight_dg, 0);
    assert_eq!(c.lolly_weight_dg, 250);
    assert_eq!(c.saved_tared_scale_weight, 0);
    assert_eq!(c.scale_raw_tare, ScaleRawWeight(419_000));
    assert_eq!(c.scale_raw_50g, ScaleRawWeight(3_980_700));
}

#[test]
fn calibration_mode_request() {
    assert_eq!(HX710Controller.enter_calibration_mode(), RaiseCalibrationSignal);
}
