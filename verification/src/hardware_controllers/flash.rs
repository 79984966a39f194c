//! The settings that are persisted in flash.
use vstd::prelude::*;
use crate::config_consts::{DEFAULT_LOLLY_WEIGHT_DG, DEFAULT_SCALE_RAW_50G, DEFAULT_SCALE_RAW_TARE};
use crate::utils::ScaleRawWeight;

verus! {

/// Settings that survive a restart. Weights are in tenths of a gram.
#[derive(Copy, Clone, Debug, PartialEq, Eq, Structural)]
pub struct Config {
    pub tare_weight_dg: i32,
    pub lolly_weight_dg: i32,
    pub saved_tared_scale_weight: i32,
    pub scale_raw_50g: ScaleRawWeight,
    pub scale_raw_tare: ScaleRawWeight,
}

impl Default for Config {
    fn default() -> (r: Self)
        ensures
            r.tare_weight_dg == 0,
            r.lolly_weight_dg == DEFAULT_LOLLY_WEIGHT_DG,
            r.saved_tared_scale_weight == 0,
            r.scale_raw_50g.0 == DEFAULT_SCALE_RAW_50G,
            r.scale_raw_tare.0 == DEFAULT_SCALE_RAW_TARE,
    {
        Config {
            tare_weight_dg: 0,
            lolly_weight_dg: DEFAULT_LOLLY_WEIGHT_DG,
            saved_tared_scale_weight: 0,
            scale_raw_50g: ScaleRawWeight(DEFAULT_SCALE_RAW_50G),
            scale_raw_tare: ScaleRawWeight(DEFAULT_SCALE_RAW_TARE),
        }
    }
}

/// The flash range `(from, to)` that is erased before settings of up to
/// `max_write_size` bytes are written at `offset`: the whole of the space the
/// write may use. The end must be an address of the 32-bit flash space.
pub fn erase_range(offset: u32, max_write_size: usize) -> (r: (u32, u32))
    requires
        offset + max_write_size <= u32::MAX,
    ensures
        r.0 == offset,
        r.1 == offset + max_write_size,
{
    (offset, offset + max_write_size as u32)
}

} // verus!
