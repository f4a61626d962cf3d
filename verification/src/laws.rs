//! Laws the synthesizer obeys, stated over [`crate::synth::SynthModel`] and
//! proved from the tick transition [`crate::synth::SynthModel::tick_next`].

use vstd::prelude::*;
use vstd::arithmetic::div_mod::lemma_fundamental_div_mod;
use vstd::arithmetic::mul::lemma_mul_inequality;
use crate::envelope::spec_decay;
use crate::synth::{lemma_period_samples_bounds, SynthModel, TickAction};
use crate::tracker::{lemma_sum_range, spec_rate_mhz};
use crate::BIN_COUNT;

verus! {

/// The state after a run of ticks with the given per-tick event counts.
pub open spec fn run(m: SynthModel, counts: Seq<u32>) -> SynthModel
    decreases counts.len(),
{
    if counts.len() == 0 {
        m
    } else {
        run(m.tick_next(counts[0]), counts.drop_first())
    }
}

/// A run of `k` quiet ticks: no events arrive.
pub open spec fn zeros(k: nat) -> Seq<u32> {
    Seq::new(k, |i: int| 0u32)
}

/// One tick preserves well-formedness and the fixed stream configuration.
pub proof fn lemma_tick_next_wf(m: SynthModel, count: u32)
    requires
        m.wf(),
    ensures
        m.tick_next(count).wf(),
        m.tick_next(count).sample_rate == m.sample_rate,
        m.tick_next(count).min_rate_mhz == m.min_rate_mhz,
{
    lemma_period_samples_bounds(m.sample_rate);
}

/// With the window uniformly filled — every bin holding `n` events, so
/// `N = 40 * n` events spread evenly over the 4-second span — the measured
/// rate is exactly `N / 4` Hz: in milli-Hz, `250 * N`.
pub proof fn lemma_uniform_rate(bins: Seq<u32>, n: u32)
    requires
        bins.len() == BIN_COUNT,
        forall|i: int| 0 <= i < bins.len() ==> #[trigger] bins[i] == n,
    ensures
        spec_rate_mhz(bins) == 250 * (BIN_COUNT * n),
{
    lemma_sum_range(bins, n as int, n as int);
}

/// When events spread over the window leave every bin within one event of
/// the even share `n`, the measured rate is within one bin's quantization of
/// `n` events per bin: between `n` and `n + 1` events per bin, in milli-Hz.
pub proof fn lemma_rate_quantization(bins: Seq<u32>, n: u32)
    requires
        bins.len() == BIN_COUNT,
        forall|i: int| 0 <= i < bins.len() ==> n <= #[trigger] bins[i] <= n + 1,
    ensures
        10000 * n <= spec_rate_mhz(bins) <= 10000 * (n + 1),
{
    lemma_sum_range(bins, n as int, n as int + 1);
}

/// After `k` quiet ticks the envelope's remaining duration is the starting
/// duration less `k` tone cycles, floored at zero: quiet ticks only decay
/// the envelope, and once silent it stays silent.
pub proof fn lemma_quiet_run_remaining(m: SynthModel, k: nat)
    requires
        m.wf(),
    ensures
        run(m, zeros(k)).wf(),
        run(m, zeros(k)).sample_rate == m.sample_rate,
        run(m, zeros(k)).min_rate_mhz == m.min_rate_mhz,
        run(m, zeros(k)).remaining == spec_decay(m.remaining, k * m.tone_dt()),
    decreases k,
{
    let dt = m.tone_dt();
    lemma_period_samples_bounds(m.sample_rate);
    if k == 0 {
        assert(k * dt == 0) by (nonlinear_arith)
            requires k == 0,
        ;
    } else {
        let m1 = m.tick_next(0);
        lemma_tick_next_wf(m, 0);
        assert(zeros(k)[0] == 0u32);
        assert(zeros(k).drop_first() =~= zeros((k - 1) as nat));
        lemma_quiet_run_remaining(m1, (k - 1) as nat);
        assert((k - 1) * dt + dt == k * dt) by (nonlinear_arith)
            requires k >= 1,
        ;
        assert((k - 1) * dt >= 0) by (nonlinear_arith)
            requires k >= 1, dt >= 0,
        ;
    }
}

/// Cycles needed to play a beep of length `len` in steps of `dt`:
/// the ceiling of `len / dt`.
pub open spec fn cycles_per_beep(len: int, dt: int) -> int {
    (len + dt - 1) / dt
}

/// The tone cycles of one beep cover the full beep length and overshoot it
/// by less than one cycle: the synthesized audio time of a single beep is
/// 0.1 s, quantized up to a whole number of tone cycles.
pub proof fn lemma_beep_cycles_cover(len: int, dt: int)
    requires
        1 <= dt,
        0 <= len,
    ensures
        cycles_per_beep(len, dt) * dt >= len,
        cycles_per_beep(len, dt) * dt < len + dt,
{
    let n = cycles_per_beep(len, dt);
    lemma_fundamental_div_mod(len + dt - 1, dt);
}

/// Cycle `k` of a beep sounds exactly while `k` whole cycles still fit
/// strictly inside the beep length.
pub proof fn lemma_cycle_index_sounds(len: int, dt: int, k: int)
    requires
        1 <= dt,
        0 <= len,
        0 <= k,
    ensures
        (k * dt < len) <==> (k < cycles_per_beep(len, dt)),
{
    let n = cycles_per_beep(len, dt);
    lemma_fundamental_div_mod(len + dt - 1, dt);
    if k >= n {
        lemma_mul_inequality(n, k, dt);
    }
    if k < n {
        lemma_mul_inequality(k, n - 1, dt);
        assert((n - 1) * dt == n * dt - dt) by (nonlinear_arith);
    }
}

/// A triggering tick sounds at once, and the quiet ticks after it keep the
/// tone for the rest of the beep: counted from the trigger, tick `k + 1`
/// still sounds exactly while `k + 1` whole cycles fit strictly inside the
/// beep length. A single trigger therefore produces
/// `cycles_per_beep(beep_len, tone_dt)` consecutive tone cycles — 0.1 s of
/// synthesized audio time, quantized up to a whole cycle — and silence from
/// then on.
pub proof fn lemma_single_trigger_beep(m: SynthModel, count: u32, k: nat)
    requires
        m.wf(),
        m.tick_triggers(count),
    ensures
        m.tick_action(count) == (TickAction::Tone { period_samples: m.period_samples() as u32 }),
        run(m.tick_next(count), zeros(k)).tick_action(0) == (if (k + 1) * m.tone_dt()
            < m.beep_len() {
            TickAction::Tone { period_samples: m.period_samples() as u32 }
        } else {
            TickAction::Silence
        }),
{
    let dt = m.tone_dt();
    lemma_period_samples_bounds(m.sample_rate);
    let m1 = m.tick_next(count);
    lemma_tick_next_wf(m, count);
    lemma_quiet_run_remaining(m1, k);
    assert((k + 1) * dt == k * dt + dt) by (nonlinear_arith);
    assert(k * dt >= 0) by (nonlinear_arith)
        requires k >= 0, dt >= 0,
    ;
}

/// A single trigger, counted in whole cycles: from the trigger on, exactly
/// the first `cycles_per_beep(beep_len, tone_dt)` ticks sound, and every
/// later quiet tick is silent.
pub proof fn lemma_single_trigger_cycle_count(m: SynthModel, count: u32, k: nat)
    requires
        m.wf(),
        m.tick_triggers(count),
    ensures
        run(m.tick_next(count), zeros(k)).tick_action(0) == (if k + 1
            < cycles_per_beep(m.beep_len(), m.tone_dt()) {
            TickAction::Tone { period_samples: m.period_samples() as u32 }
        } else {
            TickAction::Silence
        }),
{
    lemma_period_samples_bounds(m.sample_rate);
    lemma_single_trigger_beep(m, count, k);
    lemma_cycle_index_sounds(m.beep_len(), m.tone_dt(), (k + 1) as int);
}

/// Retriggering resets rather than accumulates: after any triggering tick
/// the remaining duration is exactly the once-decayed beep length, however
/// much was left beforehand, and in particular strictly less than one whole
/// beep length.
pub proof fn lemma_retrigger_resets(m: SynthModel, count: u32)
    requires
        m.wf(),
        m.tick_triggers(count),
    ensures
        m.tick_next(count).remaining == spec_decay(m.beep_len(), m.tone_dt()),
        m.tick_next(count).remaining < m.beep_len(),
{
    lemma_period_samples_bounds(m.sample_rate);
}

/// However long a tone had already been playing, once `k` quiet cycles after
/// a retrigger add up to a full beep length the output is silent again: the
/// tone outlives the retrigger by at most one beep length plus one cycle.
/// Two triggers half a beep apart therefore yield at most one and a half
/// beep lengths of tone plus one cycle — never the sum of two whole beeps.
pub proof fn lemma_retrigger_future_bound(m: SynthModel, count: u32, k: nat)
    requires
        m.wf(),
        m.tick_triggers(count),
        k * m.tone_dt() >= m.beep_len(),
    ensures
        run(m.tick_next(count), zeros(k)).tick_action(0) == TickAction::Silence,
{
    let m1 = m.tick_next(count);
    lemma_tick_next_wf(m, count);
    lemma_quiet_run_remaining(m1, k);
    lemma_period_samples_bounds(m.sample_rate);
}

/// Threshold gating: when a threshold is configured and the rate a tick
/// measures stays strictly below it, a silent envelope stays silent — no
/// per-tick event count, however large, can arm it.
pub proof fn lemma_threshold_gates(m: SynthModel, count: u32)
    requires
        m.wf(),
        m.remaining == 0,
        m.min_rate_mhz is Some,
        m.tick_rate_mhz(count) < m.min_rate_mhz->0,
    ensures
        m.tick_action(count) == TickAction::Silence,
        m.tick_next(count).remaining == 0,
{
}

/// Holds when every tick of a run measures a rate strictly below the
/// configured threshold.
pub open spec fn rates_below(m: SynthModel, counts: Seq<u32>) -> bool
    decreases counts.len(),
{
    counts.len() == 0 || {
        &&& m.tick_rate_mhz(counts[0]) < m.min_rate_mhz->0
        &&& rates_below(m.tick_next(counts[0]), counts.drop_first())
    }
}

/// Threshold gating over a whole run: with a configured threshold that every
/// tick's measured rate stays strictly below, the envelope never activates,
/// whatever the event counts.
pub proof fn lemma_threshold_never_arms(m: SynthModel, counts: Seq<u32>)
    requires
        m.wf(),
        m.remaining == 0,
        m.min_rate_mhz is Some,
        rates_below(m, counts),
    ensures
        run(m, counts).wf(),
        run(m, counts).remaining == 0,
    decreases counts.len(),
{
    if counts.len() > 0 {
        let m1 = m.tick_next(counts[0]);
        lemma_tick_next_wf(m, counts[0]);
        lemma_threshold_gates(m, counts[0]);
        lemma_threshold_never_arms(m1, counts.drop_first());
    }
}

/// With no threshold configured, any tick that observes a nonzero event
/// count triggers at once: the action is a full tone cycle and the envelope
/// is re-armed to the full beep length, less the cycle it just played.
pub proof fn lemma_no_threshold_arms(m: SynthModel, count: u32)
    requires
        m.wf(),
        m.min_rate_mhz is None,
        count > 0,
    ensures
        m.tick_triggers(count),
        m.tick_action(count) == (TickAction::Tone { period_samples: m.period_samples() as u32 }),
        m.tick_next(count).remaining == spec_decay(m.beep_len(), m.tone_dt()),
{
    lemma_period_samples_bounds(m.sample_rate);
}

} // verus!
