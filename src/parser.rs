use vstd::prelude::*;

use crate::config::{gap_width, pulse_width, ParserConfig};
use crate::frame::{
    PpmFrame, PpmTime, MAX_CHAN_VAL, MAX_PPM_CHANNELS, MIN_CHAN_VAL, MIN_PPM_CHANNELS, MIN_SYNC_WIDTH,
};

verus! {

/// Where the parser stands in the frame protocol.
#[derive(Clone, Copy, Debug, PartialEq, Eq, Structural)]
pub enum ParserState {
    /// No frame sync seen yet (or the last frame was corrupt): every gap is
    /// discarded until the next sync.
    Scanning,
    /// A frame sync was seen: gaps are channel values until the next sync.
    Synced,
}

/// The abstract state of a [`PpmParser`].
pub struct ParserModel {
    /// Thresholds in force.
    pub config: ParserConfig,
    /// Protocol state.
    pub state: ParserState,
    /// Timestamp of the most recent edge.
    pub last: PpmTime,
    /// Channel values of the frame being assembled, in arrival order.
    pub working: Seq<PpmTime>,
    /// Channel values of the completed frame not yet taken, if any.
    pub pending: Option<Seq<PpmTime>>,
}

/// The gap from the model's last edge to an edge at `now`.
pub open spec fn model_gap(m: ParserModel, now: PpmTime) -> int {
    gap_width(m.last as int, now as int, m.config.wrap_modulus())
}

/// The model after an edge at `now`.
///
/// While scanning, a sync gap starts an empty frame and anything else is
/// discarded. While synced, a sync gap closes the frame: it becomes the
/// pending frame if it has enough channels, and otherwise the pending frame is
/// dropped. A channel gap is appended to the frame while there is room (beyond
/// the capacity it is ignored). Any other gap is corrupt: the frame is
/// discarded and the parser goes back to scanning.
pub open spec fn step(m: ParserModel, now: PpmTime) -> ParserModel {
    let w = model_gap(m, now);
    let c = m.config;
    match m.state {
        ParserState::Scanning => {
            if c.is_sync(w) {
                ParserModel { state: ParserState::Synced, last: now, working: Seq::empty(), ..m }
            } else {
                ParserModel { last: now, ..m }
            }
        },
        ParserState::Synced => {
            if c.is_sync(w) {
                ParserModel {
                    last: now,
                    working: Seq::empty(),
                    pending: if m.working.len() >= c.min_channels {
                        Some(m.working)
                    } else {
                        None
                    },
                    ..m
                }
            } else if c.is_channel(w) {
                if m.working.len() < MAX_PPM_CHANNELS {
                    ParserModel { last: now, working: m.working.push(w as PpmTime), ..m }
                } else {
                    ParserModel { last: now, ..m }
                }
            } else {
                ParserModel {
                    state: ParserState::Scanning,
                    last: now,
                    working: Seq::empty(),
                    ..m
                }
            }
        },
    }
}

/// What taking the pending frame yields, and the model afterwards.
pub open spec fn pull(m: ParserModel) -> (Option<Seq<PpmTime>>, ParserModel) {
    (m.pending, ParserModel { pending: None, ..m })
}

/// The main PPM decoder.
pub struct PpmParser {
    config: ParserConfig,
    state: ParserState,
    last_pulse_start: PpmTime,
    working_frame: PpmFrame,
    parsed_frame: Option<PpmFrame>,
}

impl View for PpmParser {
    type V = ParserModel;

    closed spec fn view(&self) -> ParserModel {
        ParserModel {
            config: self.config,
            state: self.state,
            last: self.last_pulse_start,
            working: self.working_frame.channels(),
            pending: match self.parsed_frame {
                Some(f) => Some(f.channels()),
                None => None,
            },
        }
    }
}

impl PpmParser {
    #[verifier::type_invariant]
    spec fn inv(&self) -> bool {
        &&& self.working_frame.wf()
        &&& self.parsed_frame matches Some(f) ==> f.wf()
    }

    /// A parser with the default configuration, scanning for a frame sync.
    pub fn new() -> (p: Self)
        ensures
            p@.config.min_chan_value == MIN_CHAN_VAL,
            p@.config.max_chan_value == MAX_CHAN_VAL,
            p@.config.min_sync_width == MIN_SYNC_WIDTH,
            p@.config.min_channels == MIN_PPM_CHANNELS,
            p@.config.max_ppm_time == 0xFFFF_FFFFu32,
            p@.state == ParserState::Scanning,
            p@.last == 0,
            p@.working == Seq::<PpmTime>::empty(),
            p@.pending is None,
    {
        let p = PpmParser {
            config: ParserConfig::default(),
            working_frame: PpmFrame { chan_values: [0; MAX_PPM_CHANNELS], chan_count: 0 },
            parsed_frame: None,
            state: ParserState::Scanning,
            last_pulse_start: 0,
        };
        proof {
            assert(p@.working =~= Seq::<PpmTime>::empty());
        }
        p
    }
    /// Sets the range of gaps (inclusive) that count as channel values.
    ///
    /// Returns the parser itself, so that settings can be chained.
    pub fn set_channel_limits(&mut self, min: PpmTime, max: PpmTime) -> (r: &mut Self)
        ensures
            r@ == (ParserModel {
                config: ParserConfig {
                    min_chan_value: min,
                    max_chan_value: max,
                    ..old(self)@.config
                },
                ..old(self)@
            }),
            final(self)@ == final(r)@,
    {
        proof {
            use_type_invariant(&*self);
        }
        self.config.min_chan_value = min;
        self.config.max_chan_value = max;
        self
    }

    /// Sets the smallest gap that counts as a frame sync.
    ///
    /// Returns the parser itself, so that settings can be chained.
    pub fn set_sync_width(&mut self, width: PpmTime) -> (r: &mut Self)
        ensures
            r@ == (ParserModel {
                config: ParserConfig { min_sync_width: width, ..old(self)@.config },
                ..old(self)@
            }),
            final(self)@ == final(r)@,
    {
        proof {
            use_type_invariant(&*self);
        }
        self.config.min_sync_width = width;
        self
    }

    /// Sets the minimum number of channels in a valid frame.
    ///
    /// Returns the parser itself, so that settings can be chained.
    pub fn set_minimum_channels(&mut self, channels: u8) -> (r: &mut Self)
        ensures
            r@ == (ParserModel {
                config: ParserConfig { min_channels: channels, ..old(self)@.config },
                ..old(self)@
            }),
            final(self)@ == final(r)@,
    {
        proof {
            use_type_invariant(&*self);
        }
        self.config.min_channels = channels;
        self
    }

    /// Sets the largest value of the edge timer, after which it wraps to
    /// zero: this lets the parser work with timers narrower than 32 bits.
    ///
    /// Returns the parser itself, so that settings can be chained.
    pub fn set_max_ppm_time(&mut self, value: PpmTime) -> (r: &mut Self)
        ensures
            r@ == (ParserModel {
                config: ParserConfig { max_ppm_time: value, ..old(self)@.config },
                ..old(self)@
            }),
            final(self)@ == final(r)@,
    {
        proof {
            use_type_invariant(&*self);
        }
        self.config.max_ppm_time = value;
        self
    }

    /// Takes the most recently completed frame, if one has completed since
    /// the last call.
    ///
    /// Only the latest complete frame is kept: one that is not taken before
    /// the next completes is lost.
    pub fn next_frame(&mut self) -> (r: Option<PpmFrame>)
        ensures
            r matches Some(f) ==> f.wf(),
            (match r {
                Some(f) => Some(f.channels()),
                None => None,
            }) == pull(old(self)@).0,
            final(self)@ == pull(old(self)@).1,
    {
        proof {
            use_type_invariant(&*self);
        }
        let r = self.parsed_frame;
        self.parsed_frame = None;
        r
    }

    /// Takes a timestamp (in microseconds, on the configured timer) of a pulse
    /// edge, in arrival order, and advances the frame protocol by the gap
    /// since the previous edge.
    ///
    /// Malformed timing is never reported: the parser resynchronizes instead.
    pub fn handle_pulse_start(&mut self, count: PpmTime)
        ensures
            final(self)@ == step(old(self)@, count),
    {
        proof {
            use_type_invariant(&*self);
        }
        let width = pulse_width(self.last_pulse_start, count, self.config.max_ppm_time);
        self.last_pulse_start = count;
        let sync = width >= self.config.min_sync_width as i64;
        match self.state {
            ParserState::Scanning => {
                if sync {
                    self.reset_channel_counter();
                    self.state = ParserState::Synced;
                }
            },
            ParserState::Synced => {
                if sync {
                    if self.working_frame.chan_count >= self.config.min_channels {
                        self.parsed_frame = Some(self.working_frame);
                    } else {
                        self.parsed_frame = None;
                    }
                    self.reset_channel_counter();
                } else if width >= self.config.min_chan_value as i64 && width
                    <= self.config.max_chan_value as i64 {
                    let n = self.working_frame.chan_count;
                    if (n as usize) < MAX_PPM_CHANNELS {
                        let ghost before = self.working_frame.channels();
                        self.working_frame.chan_values[n as usize] = width as PpmTime;
                        self.working_frame.chan_count = n + 1;
                        assert(self.working_frame.channels() =~= before.push(width as PpmTime));
                    }
                } else {
                    self.reset_channel_counter();
                    self.state = ParserState::Scanning;
                }
            },
        }
        assert(self@.working =~= step(old(self)@, count).working);
    }

    /// Empties the frame being assembled: after a sync, or to drop a corrupt
    /// frame.
    fn reset_channel_counter(&mut self)
        ensures
            final(self).working_frame.chan_count == 0,
            final(self).working_frame.chan_values == old(self).working_frame.chan_values,
            final(self).config == old(self).config,
            final(self).state == old(self).state,
            final(self).last_pulse_start == old(self).last_pulse_start,
            final(self).parsed_frame == old(self).parsed_frame,
            final(self)@.working == Seq::<PpmTime>::empty(),
    {
        proof {
            use_type_invariant(&*self);
        }
        self.working_frame.chan_count = 0;
        assert(self@.working =~= Seq::<PpmTime>::empty());
    }
}

} // verus!
