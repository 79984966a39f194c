//! Integer rounding and the raw load-cell reading.
//!
//! Weights are held in tenths of a gram (decigrams) throughout the library:
//! the scale only ever shows and stores weights rounded to one decimal place,
//! so a decigram count is exactly the value that is displayed and persisted.
use vstd::prelude::*;
use vstd::arithmetic::div_mod::lemma_fundamental_div_mod_converse;

verus! {

pub open spec fn abs(x: int) -> int {
    if x < 0 { -x } else { x }
}

/// `n / d` rounded to the nearest integer, halves away from zero.
pub open spec fn round_half_away(n: int, d: int) -> int
    recommends
        d != 0,
{
    let q = (2 * abs(n) + abs(d)) / (2 * abs(d));
    if (n < 0) != (d < 0) { -q } else { q }
}

/// Clamps to the range of `i32`, as a float-to-`i32` cast does.
pub open spec fn clamp_i32(x: int) -> int {
    if x > i32::MAX { i32::MAX as int } else if x < i32::MIN { i32::MIN as int } else { x }
}

/// The integer nearest to `n / d` (halves away from zero), saturated to `i32`.
/// A zero divisor gives what rounding an infinite or undefined quotient gives:
/// the largest `i32` for a positive numerator, the smallest for a negative one,
/// and zero for `0 / 0`.
pub open spec fn round_quotient_spec(n: int, d: int) -> int {
    if d == 0 {
        if n > 0 { i32::MAX as int } else if n < 0 { i32::MIN as int } else { 0 }
    } else {
        clamp_i32(round_half_away(n, d))
    }
}

/// Rounding `a / b` for `a >= 0`, `b > 0` adds one to the truncated
/// quotient exactly when the remainder is at least half the divisor.
proof fn lemma_round_by_remainder(a: int, b: int)
    requires
        a >= 0,
        b > 0,
    ensures
        (2 * a + b) / (2 * b) == a / b + (if 2 * (a % b) >= b { 1int } else { 0int }),
{
    let q = a / b;
    let r = a % b;
    vstd::arithmetic::div_mod::lemma_fundamental_div_mod(a, b);
    vstd::arithmetic::div_mod::lemma_mod_bound(a, b);
    assert(a == b * q + r);
    assert(2 * a + b == q * (2 * b) + (2 * r + b)) by (nonlinear_arith)
        requires a == b * q + r;
    if 2 * r >= b {
        assert(2 * a + b == (q + 1) * (2 * b) + (2 * r - b)) by (nonlinear_arith)
            requires 2 * a + b == q * (2 * b) + (2 * r + b);
        lemma_fundamental_div_mod_converse(2 * a + b, 2 * b, q + 1, 2 * r - b);
    } else {
        lemma_fundamental_div_mod_converse(2 * a + b, 2 * b, q, 2 * r + b);
    }
}

fn magnitude_i128(v: i128) -> (r: u128)
    ensures
        r == abs(v as int),
{
    if v < 0 {
        ((-(v + 1)) as u128) + 1
    } else {
        v as u128
    }
}

/// Rounds the quotient `n / d` to the nearest integer, halves away from zero,
/// saturating at the bounds of `i32`.
pub fn round_quotient(n: i128, d: i128) -> (r: i32)
    ensures
        r == round_quotient_spec(n as int, d as int),
{
    if d == 0 {
        if n > 0 {
            i32::MAX
        } else if n < 0 {
            i32::MIN
        } else {
            0
        }
    } else {
        let an = magnitude_i128(n);
        let ad = magnitude_i128(d);
        let q = an / ad;
        let rem = an % ad;
        let up = rem >= ad - rem;
        proof {
            lemma_round_by_remainder(an as int, ad as int);
            vstd::arithmetic::div_mod::lemma_div_is_ordered_by_denominator(an as int, 1, ad as int);
            vstd::arithmetic::div_mod::lemma_mod_bound(an as int, ad as int);
        }
        assert(q <= an);
        let rq: u128 = if up { q + 1 } else { q };
        assert(rq == (2 * abs(n as int) + abs(d as int)) / (2 * abs(d as int)));
        if (n < 0) != (d < 0) {
            if rq > 0x8000_0000 {
                i32::MIN
            } else {
                (-(rq as i64)) as i32
            }
        } else {
            if rq > 0x7fff_ffff {
                i32::MAX
            } else {
                rq as i32
            }
        }
    }
}

/// The rounding is to the nearest integer: the rounded quotient times the
/// divisor is within half a divisor of the numerator.
pub proof fn lemma_round_half_away_nearest(n: int, d: int)
    requires
        d != 0,
    ensures
        2 * abs(n - round_half_away(n, d) * d) <= abs(d),
{
    let an = abs(n);
    let ad = abs(d);
    let q = (2 * an + ad) / (2 * ad);
    let r = (2 * an + ad) % (2 * ad);
    assert(2 * an + ad == q * (2 * ad) + r && 0 <= r < 2 * ad) by {
        vstd::arithmetic::div_mod::lemma_fundamental_div_mod(2 * an + ad, 2 * ad);
        vstd::arithmetic::div_mod::lemma_mod_bound(2 * an + ad, 2 * ad);
    }
    assert(2 * abs(an - q * ad) <= ad) by (nonlinear_arith)
        requires
            2 * an + ad == q * (2 * ad) + r,
            0 <= r < 2 * ad,
            ad > 0,
    ;
    if (n < 0) != (d < 0) {
        assert(n - (-q) * d == n + q * d) by (nonlinear_arith);
        if n < 0 {
            assert(q * d == q * ad) by (nonlinear_arith) requires d == ad;
        } else {
            assert(q * d == -(q * ad)) by (nonlinear_arith) requires d == -ad;
        }
    } else {
        if n < 0 {
            assert(q * d == -(q * ad)) by (nonlinear_arith) requires d == -ad;
        } else {
            assert(q * d == q * ad) by (nonlinear_arith) requires d == ad;
        }
    }
}

/// A raw reading of the load cell's analogue-to-digital converter, in
/// hundredths of a converter count, so that the mean of a hundred readings is
/// held exactly.
#[derive(Copy, Clone, Debug, PartialEq, Eq, Structural)]
pub struct ScaleRawWeight(pub i64);

/// Hundredths of a count in a whole converter count.
pub const HUNDREDTHS_PER_COUNT: i64 = 100;

impl Default for ScaleRawWeight {
    fn default() -> (r: Self)
        ensures
            r.0 == 0,
    {
        ScaleRawWeight(0)
    }
}

/// Weight in decigrams of a raw reading, given the raw readings of the empty
/// scale (`tare`) and of a 50 g calibration weight (`raw_50g`): the
/// difference from the tare over the raw difference per gram, to one decimal place.
pub open spec fn to_grams_dg_spec(raw: int, tare: int, raw_50g: int) -> int {
    round_quotient_spec(500 * (raw - tare), raw_50g - tare)
}

impl ScaleRawWeight {
    /// Converts the reading to a weight in tenths of a gram, rounded to the
    /// nearest tenth, using the tare and 50 g calibration readings.
    pub fn to_grams(self, scale_raw_tare: ScaleRawWeight, scale_raw_50g: ScaleRawWeight) -> (r: i32)
        ensures
            r == to_grams_dg_spec(self.0 as int, scale_raw_tare.0 as int, scale_raw_50g.0 as int),
    {
        let num: i128 = 500 * (self.0 as i128 - scale_raw_tare.0 as i128);
        let den: i128 = scale_raw_50g.0 as i128 - scale_raw_tare.0 as i128;
        round_quotient(num, den)
    }

    /// The reading of a whole number of converter counts.
    pub fn from_counts(counts: i32) -> (r: Self)
        ensures
            r.0 == counts * HUNDREDTHS_PER_COUNT,
    {
        ScaleRawWeight(counts as i64 * HUNDREDTHS_PER_COUNT)
    }

    pub fn get_raw(self) -> (r: i64)
        ensures
            r == self.0,
    {
        self.0
    }

    pub fn from_raw(raw: i64) -> (r: Self)
        ensures
            r.0 == raw,
    {
        ScaleRawWeight(raw)
    }
}

/// Calibration law: the tare reading weighs nothing, and the 50 g reading
/// weighs exactly 50.0 g.
pub proof fn lemma_to_grams_calibration_points(tare: i64, raw_50g: i64)
    requires
        tare != raw_50g,
    ensures
        to_grams_dg_spec(tare as int, tare as int, raw_50g as int) == 0,
        to_grams_dg_spec(raw_50g as int, tare as int, raw_50g as int) == 500,
{
    let d = raw_50g - tare;
    let ad = abs(d);
    assert((2 * abs(500 * (0int)) + ad) / (2 * ad) == 0) by {
        lemma_fundamental_div_mod_converse(ad, 2 * ad, 0, ad);
    }
    assert(abs(500 * d) == 500 * ad);
    assert((2 * (500 * ad) + ad) / (2 * ad) == 500) by {
        assert(2 * (500 * ad) + ad == 500 * (2 * ad) + ad) by (nonlinear_arith);
        lemma_fundamental_div_mod_converse(2 * (500 * ad) + ad, 2 * ad, 500, ad);
    }
}

} // verus!

verus! {

/// The whole converter counts of a reading, as `{}` shows a reading converted
/// to `i32`: the fraction dropped towards zero, saturated to `i32`.
pub open spec fn whole_counts_spec(h: int) -> int {
    clamp_i32(if h >= 0 { h / 100 } else { -((-h) / 100) })
}

impl ScaleRawWeight {
    /// The reading in whole converter counts, the fraction dropped towards
    /// zero, saturated to `i32`.
    pub fn whole_counts(self) -> (r: i32)
        ensures
            r == whole_counts_spec(self.0 as int),
    {
        let h = self.0;
        let m: u64 = if h < 0 {
            ((-(h + 1)) as u64) + 1
        } else {
            h as u64
        };
        let q: u64 = m / 100;
        let v: i64 = if h < 0 { -(q as i64) } else { q as i64 };
        if v > i32::MAX as i64 {
            i32::MAX
        } else if v < i32::MIN as i64 {
            i32::MIN
        } else {
            v as i32
        }
    }
}

} // verus!
