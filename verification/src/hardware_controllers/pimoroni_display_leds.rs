//! The display's RGB indicator LED: brightness and PWM duty.
use vstd::prelude::*;

verus! {

/// A brightness, in percent.
#[derive(Copy, Clone, Debug, PartialEq, Eq, Structural)]
pub struct Percentage(pub u16);

/// PWM compare value for a brightness: the full-scale value `0xffff` times
/// the percentage, over 100; brightnesses above 100 % saturate at full scale.
pub open spec fn pwm_compare_spec(brightness: Percentage) -> int {
    let v = 0xffff * brightness.0 as int / 100;
    if v > 0xffff { 0xffff } else { v }
}

/// The PWM compare value that lights an LED channel at the given brightness.
pub fn pwm_compare(brightness: Percentage) -> (r: u16)
    ensures
        r == pwm_compare_spec(brightness),
{
    let v: u64 = 0xffff * brightness.0 as u64 / 100;
    if v > 0xffff {
        0xffff
    } else {
        v as u16
    }
}

/// Full brightness drives the channel at full scale, none turns it off.
pub proof fn lemma_pwm_compare_bounds()
    ensures
        pwm_compare_spec(Percentage(100)) == 0xffff,
        pwm_compare_spec(Percentage(0)) == 0,
{
}

} // verus!
