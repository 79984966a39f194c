//! The Pimoroni display's frame buffer.
use vstd::prelude::*;

verus! {

/// Height of the frame buffer in pixels.
pub const DISPLAY_H: u16 = 135;
/// Width of the frame buffer in pixels.
pub const DISPLAY_W: u16 = 240;

/// The 16-bit pixel values of a frame buffer that stores each pixel as two
/// big-endian bytes; a trailing odd byte is not a pixel.
pub open spec fn be_pixels(data: Seq<u8>) -> Seq<u16> {
    Seq::new(data.len() / 2, |i: int| (data[2 * i] * 256 + data[2 * i + 1]) as u16)
}

/// Reads the pixels out of a frame buffer of big-endian 16-bit pixels, for
/// flushing to the screen.
pub fn pixels_from_be_bytes(data: &[u8]) -> (r: Vec<u16>)
    ensures
        r@ == be_pixels(data@),
{
    let len = data.len();
    let n = len / 2;
    let mut r: Vec<u16> = Vec::new();
    let mut i: usize = 0;
    while i < n
        invariant
            len == data@.len(),
            n == len / 2,
            2 * n <= len,
            i <= n,
            r@ == be_pixels(data@).take(i as int),
        decreases n - i,
    {
        let hi = data[2 * i] as u16;
        let lo = data[2 * i + 1] as u16;
        r.push(hi * 256 + lo);
        i = i + 1;
        assert(r@ =~= be_pixels(data@).take(i as int));
    }
    assert(r@ =~= be_pixels(data@));
    r
}

} // verus!
