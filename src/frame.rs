use vstd::prelude::*;

verus! {

/// Base type for PPM timing: the clock measuring pulse edges needs at least
/// microsecond resolution.
pub type Microseconds = u32;

/// PPM timing values.
pub type PpmTime = Microseconds;

/// Default minimum channel value.
pub const MIN_CHAN_VAL: PpmTime = 800;

/// Default maximum channel value.
pub const MAX_CHAN_VAL: PpmTime = 2200;

/// Default midpoint channel value.
pub const MID_CHAN_VAL: PpmTime = (MAX_CHAN_VAL + MIN_CHAN_VAL) / 2;

/// Default minimum gap between frames (no pulses: the frame sync).
pub const MIN_SYNC_WIDTH: PpmTime = 4000;

/// Default minimum number of channels in a valid frame.
pub const MIN_PPM_CHANNELS: u8 = 5;

/// Largest number of channels a frame can hold.
pub const MAX_PPM_CHANNELS: usize = 20;

/// A single group of PPM channel values.
///
/// Only the first `chan_count` entries of `chan_values` are meaningful; the
/// rest are left over from earlier frames.
#[derive(Clone, Copy, Debug)]
pub struct PpmFrame {
    /// Decoded channel values.
    pub chan_values: [PpmTime; MAX_PPM_CHANNELS],
    /// Number of channels decoded (at most `MAX_PPM_CHANNELS`).
    pub chan_count: u8,
}

impl PpmFrame {
    /// The decoded channel values, in arrival order.
    pub open spec fn channels(&self) -> Seq<PpmTime> {
        self.chan_values@.subrange(0, self.chan_count as int)
    }

    /// The count never exceeds the capacity.
    pub open spec fn wf(&self) -> bool {
        self.chan_count as int <= MAX_PPM_CHANNELS as int
    }
}

} // verus!
