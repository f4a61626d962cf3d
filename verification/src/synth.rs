//! The per-tick decision: rotate the rate window, record this tick's event
//! count, evaluate the trigger, update the beep envelope, and tell the
//! caller whether to synthesize a tone cycle or a single silent sample.

use vstd::prelude::*;
use crate::envelope::{spec_decay, BeepEnvelope};
use crate::tracker::{spec_rate_mhz, spec_rotate, RateTracker};
use crate::{BIN_COUNT, TONE_FREQ};

verus! {

/// The trigger predicate: a tick arms the beep envelope when it observed at
/// least one event and the measured rate (milli-Hz) clears the threshold;
/// an absent threshold always allows.
pub open spec fn spec_trigger(count: u32, rate_mhz: int, min_rate_mhz: Option<u64>) -> bool {
    count > 0 && (min_rate_mhz is None || rate_mhz >= min_rate_mhz->0)
}

/// Decides whether this tick's event count and measured rate arm the beep
/// envelope.
pub fn should_trigger(count: u32, rate_mhz: u64, min_rate_mhz: Option<u64>) -> (r: bool)
    ensures
        r == spec_trigger(count, rate_mhz as int, min_rate_mhz),
{
    count > 0 && (match min_rate_mhz {
        None => true,
        Some(t) => rate_mhz >= t,
    })
}

/// What the caller must do for the rest of the tick.
#[derive(Clone, Copy, Debug, PartialEq, Eq, Structural)]
pub enum TickAction {
    /// Synthesize one full tone cycle of `period_samples` samples and push
    /// each sample into the queue.
    Tone { period_samples: u32 },
    /// Push exactly one silent sample.
    Silence,
}

/// The mathematical state of the synthesizer: the rate window, the elapsed
/// time inside its newest bin, the envelope's remaining duration, the sample
/// rate and the optional rate threshold. Times are in units of
/// `1 / (10 * sample_rate)` seconds.
#[verifier::ext_equal]
pub ghost struct SynthModel {
    pub bins: Seq<u32>,
    pub bin_time: int,
    pub remaining: int,
    pub sample_rate: int,
    pub min_rate_mhz: Option<u64>,
}

impl SynthModel {
    pub open spec fn wf(self) -> bool {
        &&& self.bins.len() == BIN_COUNT
        &&& self.sample_rate >= TONE_FREQ
        &&& 0 <= self.bin_time <= 2 * self.sample_rate
        &&& 0 <= self.remaining <= self.sample_rate
    }

    /// Samples in one tone cycle: `sample_rate / frequency`, quantized to
    /// whole samples by integer division.
    pub open spec fn period_samples(self) -> int {
        self.sample_rate / (TONE_FREQ as int)
    }

    /// Time advanced by one active (tone) tick: one full cycle.
    pub open spec fn tone_dt(self) -> int {
        10 * self.period_samples()
    }

    /// Time advanced by one idle (silent) tick: one sample period.
    pub open spec fn idle_dt(self) -> int {
        10
    }

    /// The fixed beep length, 0.1 s.
    pub open spec fn beep_len(self) -> int {
        self.sample_rate
    }

    /// The width of one rate bin, 0.1 s.
    pub open spec fn bin_period(self) -> int {
        self.sample_rate
    }

    /// The window after the tick's boundary check: rotated once if the
    /// elapsed bin time has crossed the bin width.
    pub open spec fn rotated(self) -> SynthModel {
        if self.bin_time > self.bin_period() {
            SynthModel {
                bins: spec_rotate(self.bins),
                bin_time: self.bin_time - self.bin_period(),
                ..self
            }
        } else {
            self
        }
    }

    /// The window after the tick's event count lands in the newest bin.
    pub open spec fn binned(self, count: u32) -> SynthModel {
        let r = self.rotated();
        SynthModel {
            bins: r.bins.update(BIN_COUNT - 1, r.bins[BIN_COUNT - 1].saturating_add(count)),
            ..r
        }
    }

    /// The rate this tick measures, in milli-Hz.
    pub open spec fn tick_rate_mhz(self, count: u32) -> int {
        spec_rate_mhz(self.binned(count).bins)
    }

    /// Whether this tick arms the envelope.
    pub open spec fn tick_triggers(self, count: u32) -> bool {
        spec_trigger(count, self.tick_rate_mhz(count), self.min_rate_mhz)
    }

    /// The envelope's duration after the trigger decision, before this
    /// tick's own decay: the full beep length on a trigger, else whatever
    /// was left.
    pub open spec fn armed(self, count: u32) -> int {
        if self.tick_triggers(count) {
            self.beep_len()
        } else {
            self.remaining
        }
    }

    /// What the tick asks the caller to synthesize.
    pub open spec fn tick_action(self, count: u32) -> TickAction {
        if self.armed(count) > 0 {
            TickAction::Tone { period_samples: self.period_samples() as u32 }
        } else {
            TickAction::Silence
        }
    }

    /// The full state transition of one tick.
    pub open spec fn tick_next(self, count: u32) -> SynthModel {
        let b = self.binned(count);
        if self.armed(count) > 0 {
            SynthModel {
                remaining: spec_decay(self.armed(count), self.tone_dt()),
                bin_time: b.bin_time + self.tone_dt(),
                ..b
            }
        } else {
            SynthModel { remaining: 0, bin_time: b.bin_time + self.idle_dt(), ..b }
        }
    }
}

/// The synthesizer: rate window, beep envelope, and the fixed stream
/// configuration.
pub struct Synth {
    pub tracker: RateTracker,
    pub envelope: BeepEnvelope,
    /// Sample rate of the output stream, in Hz.
    pub sample_rate: u32,
    /// Optional rate threshold, in milli-Hz.
    pub min_rate_mhz: Option<u64>,
}

impl Synth {
    /// The mathematical state this synthesizer is in.
    pub open spec fn model(self) -> SynthModel {
        SynthModel {
            bins: self.tracker.bins@,
            bin_time: self.tracker.bin_time as int,
            remaining: self.envelope.remaining as int,
            sample_rate: self.sample_rate as int,
            min_rate_mhz: self.min_rate_mhz,
        }
    }

    pub open spec fn wf(self) -> bool {
        &&& self.tracker.wf()
        &&& self.tracker.bin_period == self.sample_rate as u64
        &&& self.model().wf()
    }

    /// A fresh synthesizer: empty window, silent envelope. Returns `None`
    /// exactly when the sample rate is below the tone frequency, in which
    /// case no whole tone cycle fits and no tone could be synthesized.
    pub fn new(sample_rate: u32, min_rate_mhz: Option<u64>) -> (r: Option<Synth>)
        ensures
            r is Some <==> sample_rate >= TONE_FREQ,
            r is Some ==> {
                &&& r->0.wf()
                &&& r->0.model().bins == Seq::new(BIN_COUNT as nat, |i: int| 0u32)
                &&& r->0.model().bin_time == 0
                &&& r->0.model().remaining == 0
                &&& r->0.model().sample_rate == sample_rate
                &&& r->0.model().min_rate_mhz == min_rate_mhz
            },
    {
        if sample_rate >= TONE_FREQ {
            let tracker = RateTracker::new(sample_rate as u64);
            let envelope = BeepEnvelope::new();
            Some(Synth { tracker, envelope, sample_rate, min_rate_mhz })
        } else {
            None
        }
    }

    /// Samples in one tone cycle at the fixed carrier frequency.
    pub fn period_samples(&self) -> (r: u32)
        requires
            self.wf(),
        ensures
            r == self.model().period_samples(),
            r >= 1,
    {
        proof {
            lemma_period_samples_bounds(self.sample_rate as int);
        }
        self.sample_rate / TONE_FREQ
    }

    /// One tick of the producer loop: advance the rate window, record this
    /// tick's drained event count, evaluate the trigger, update the
    /// envelope, and return what to synthesize. The whole transition is
    /// [`SynthModel::tick_next`]; the returned action is
    /// [`SynthModel::tick_action`].
    pub fn tick(&mut self, count: u32) -> (action: TickAction)
        requires
            old(self).wf(),
        ensures
            final(self).wf(),
            final(self).model() == old(self).model().tick_next(count),
            action == old(self).model().tick_action(count),
    {
        proof {
            lemma_period_samples_bounds(self.sample_rate as int);
        }
        self.tracker.rotate_if_due();
        self.tracker.record(count);
        proof {
            assert(self.tracker.bins@ =~= old(self).model().binned(count).bins);
        }
        let rate = self.tracker.rate_mhz();
        if should_trigger(count, rate, self.min_rate_mhz) {
            self.envelope.arm(self.sample_rate as u64);
        }
        let action: TickAction;
        if self.envelope.is_active() {
            let ps = self.sample_rate / TONE_FREQ;
            let dt: u64 = 10 * (ps as u64);
            self.envelope.decay(dt);
            self.tracker.advance(dt);
            action = TickAction::Tone { period_samples: ps };
        } else {
            self.tracker.advance(10);
            action = TickAction::Silence;
        }
        proof {
            assert(self.model() =~= old(self).model().tick_next(count));
        }
        action
    }
}

/// One tone cycle holds at least one sample and spans at most one bin
/// period: `1 <= sample_rate / TONE_FREQ` and
/// `10 * (sample_rate / TONE_FREQ) <= sample_rate` whenever the sample rate
/// is at least the tone frequency.
pub proof fn lemma_period_samples_bounds(sample_rate: int)
    requires
        sample_rate >= TONE_FREQ,
    ensures
        1 <= sample_rate / (TONE_FREQ as int),
        10 * (sample_rate / (TONE_FREQ as int)) <= sample_rate,
{
    let q = sample_rate / (TONE_FREQ as int);
    vstd::arithmetic::div_mod::lemma_fundamental_div_mod(sample_rate, TONE_FREQ as int);
    assert(sample_rate == (TONE_FREQ as int) * q + sample_rate % (TONE_FREQ as int));
    assert(q >= 1);
    assert(10 * q <= (TONE_FREQ as int) * q) by (nonlinear_arith)
        requires q >= 0,
    ;
}

} // verus!
