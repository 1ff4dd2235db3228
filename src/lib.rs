//! Decoding of PPM (pulse-position modulation) pulse edges into frames of
//! channel values.
//!
//! The caller reports the timestamp of each pulse edge, in arrival order, to
//! [`PpmParser::handle_pulse_start`]; the parser classifies the gap since the
//! previous edge as a frame sync or a channel value, assembles frames and
//! offers each complete one through [`PpmParser::next_frame`].
pub mod config;
pub mod frame;
pub mod laws;
pub mod parser;

pub use frame::{
    Microseconds, PpmFrame, PpmTime, MAX_CHAN_VAL, MAX_PPM_CHANNELS, MID_CHAN_VAL, MIN_CHAN_VAL,
    MIN_PPM_CHANNELS, MIN_SYNC_WIDTH,
};
pub use config::{pulse_width, ParserConfig};
pub use parser::{ParserModel, ParserState, PpmParser};
