//! Readings of the HX710 analogue-to-digital converter.
use vstd::prelude::*;

verus! {

/// The HX710 clocks out a 24-bit two's complement sample; the sample as an
/// `i32`: bit 23 is copied into the top byte.
pub open spec fn sign_extend_24_spec(raw: u32) -> i32 {
    if raw & 0x800000 != 0 { (raw | 0xFF000000) as i32 } else { raw as i32 }
}

/// Sign-extends a 24-bit sample read from the converter's FIFO.
pub fn sign_extend_24(raw: u32) -> (r: i32)
    ensures
        r == sign_extend_24_spec(raw),
{
    let mut raw_val = raw;
    if (raw_val & 0x800000) != 0 {
        raw_val = raw_val | 0xFF000000;
    }
    raw_val as i32
}

/// A 24-bit sample becomes its two's complement value: samples below 2^23
/// are themselves, the others are 2^24 less.
pub proof fn lemma_sign_extend_24_value(raw: u32)
    requires
        raw < 0x1000000,
    ensures
        raw < 0x800000 ==> sign_extend_24_spec(raw) == raw,
        raw >= 0x800000 ==> sign_extend_24_spec(raw) == raw - 0x1000000,
{
    assert(raw < 0x800000 ==> raw & 0x800000 == 0) by (bit_vector)
        requires raw < 0x1000000u32;
    assert(raw >= 0x800000 ==> raw & 0x800000 != 0) by (bit_vector)
        requires raw < 0x1000000u32;
    assert(raw >= 0x800000 ==> (raw | 0xFF000000) as i32 == raw - 0x1000000) by (bit_vector)
        requires raw < 0x1000000u32;
}

/// Clock divider that runs the converter's state machine at 500 kHz off the
/// 133 MHz system clock: 133 times the ratio of 1000 kHz to 500 kHz.
pub fn pio_clock_divider() -> (r: u16)
    ensures
        r == 266,
{
    133u16 * (1000 / 500)
}

} // verus!
