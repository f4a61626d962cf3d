//! Core logic of a network-activity beeper: a sliding-window event-rate
//! estimator, a beep envelope state machine, and the per-tick decision that
//! drives a tone synthesizer.
//!
//! Every received byte is one event. Once per tick the producer loop drains
//! the shared event counter, feeds the count to [`synth::Synth::tick`], and
//! acts on the returned [`synth::TickAction`]: synthesize one full tone
//! cycle, or push one silent sample.
//!
//! All durations are measured in time units of `1 / (10 * sample_rate)`
//! seconds, so that the 0.1 s bin width, the 0.1 s beep length, one sample
//! period (10 units) and one tone-cycle period are all exact integers.

use vstd::prelude::*;

pub mod envelope;
pub mod laws;
pub mod sink;
pub mod synth;
pub mod tracker;

verus! {

/// Carrier frequency of the beep tone, in Hz.
pub const TONE_FREQ: u32 = 220;

/// Number of bins in the sliding rate window; each bin spans 0.1 s, so the
/// window spans 4.0 s.
pub const BIN_COUNT: usize = 40;

} // verus!
