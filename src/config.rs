use vstd::prelude::*;

use crate::frame::{PpmTime, MAX_CHAN_VAL, MIN_CHAN_VAL, MIN_PPM_CHANNELS, MIN_SYNC_WIDTH};

verus! {

/// Thresholds that drive the parser.
///
/// The parser relies on `min_sync_width > max_chan_value` to tell a frame
/// sync from a channel gap; keeping it so is up to whoever sets the values.
#[derive(Clone, Copy, Debug)]
pub struct ParserConfig {
    /// Smallest gap (inclusive) that counts as a channel value.
    pub min_chan_value: PpmTime,
    /// Largest gap (inclusive) that counts as a channel value.
    pub max_chan_value: PpmTime,
    /// Smallest gap that counts as a frame sync.
    pub min_sync_width: PpmTime,
    /// Minimum number of channels for a frame to be valid.
    pub min_channels: u8,
    /// Largest value the edge timer reaches before it wraps to zero,
    /// e.g. `0xFFFF` for a 16-bit timer, `0xFFFF_FFFF` for a 32-bit timer.
    pub max_ppm_time: u32,
}

impl ParserConfig {
    /// The number of distinct timer values: the timer counts modulo this.
    pub open spec fn wrap_modulus(&self) -> int {
        self.max_ppm_time + 1
    }

    /// Whether a gap of `width` is a frame sync.
    pub open spec fn is_sync(&self, width: int) -> bool {
        width >= self.min_sync_width
    }

    /// Whether a gap of `width` is a valid channel value.
    pub open spec fn is_channel(&self, width: int) -> bool {
        self.min_chan_value <= width <= self.max_chan_value
    }
}

impl Default for ParserConfig {
    fn default() -> (r: Self)
        ensures
            r.min_chan_value == MIN_CHAN_VAL,
            r.max_chan_value == MAX_CHAN_VAL,
            r.min_sync_width == MIN_SYNC_WIDTH,
            r.min_channels == MIN_PPM_CHANNELS,
            r.max_ppm_time == 0xFFFF_FFFFu32,
    {
        ParserConfig {
            min_chan_value: MIN_CHAN_VAL,
            max_chan_value: MAX_CHAN_VAL,
            min_sync_width: MIN_SYNC_WIDTH,
            min_channels: MIN_PPM_CHANNELS,
            max_ppm_time: 0xFFFF_FFFF,
        }
    }
}

/// Time elapsed from an edge at `last` to an edge at `now` on a timer that
/// counts modulo `modulus`: the plain difference when `now` is not before
/// `last`, otherwise the time left until the wrap plus the time after it.
pub open spec fn gap_width(last: int, now: int, modulus: int) -> int {
    if now >= last {
        now - last
    } else {
        (modulus - last) + now
    }
}

/// Computes [`gap_width`] for a timer whose largest value is `max_ppm_time`.
///
/// The result is negative only when `last` lies beyond the timer's range,
/// which happens when the range is narrowed after `last` was recorded.
pub fn pulse_width(last: PpmTime, now: PpmTime, max_ppm_time: u32) -> (w: i64)
    ensures
        w == gap_width(last as int, now as int, max_ppm_time + 1),
{
    if now >= last {
        (now - last) as i64
    } else {
        (max_ppm_time as i64 + 1 - last as i64) + now as i64
    }
}

} // verus!
