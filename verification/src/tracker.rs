//! Sliding-window event-rate estimator.
//!
//! The window is a fixed sequence of `BIN_COUNT` bins, each spanning 0.1 s
//! and holding the number of events observed in that sub-interval. The
//! newest bin is last. `bin_time` is the time elapsed inside the newest bin
//! and `bin_period` is the width of one bin, both in time units of
//! `1 / (10 * sample_rate)` seconds, so one bin period is exactly
//! `sample_rate` units.

use vstd::prelude::*;
use vstd::pervasive::VecAdditionalExecFns;
use crate::BIN_COUNT;

verus! {

/// Sum of all event counts in a window.
pub open spec fn spec_sum(s: Seq<u32>) -> int
    decreases s.len(),
{
    if s.len() == 0 {
        0
    } else {
        spec_sum(s.drop_last()) + s.last()
    }
}

/// The measured rate in milli-Hz: the window spans
/// `BIN_COUNT * 0.1 s = 4 s`, so the rate in Hz is `sum / 4`, and in
/// milli-Hz it is `sum * 1000 / 4 = sum * 250`.
pub open spec fn spec_rate_mhz(s: Seq<u32>) -> int {
    spec_sum(s) * 250
}

/// One window rotation: the oldest bin is dropped and a fresh zero bin is
/// appended; the length is unchanged.
pub open spec fn spec_rotate(s: Seq<u32>) -> Seq<u32> {
    s.drop_first().push(0u32)
}

/// If every bin lies in `[lo, hi]`, the window total lies in
/// `[len * lo, len * hi]`.
pub proof fn lemma_sum_range(s: Seq<u32>, lo: int, hi: int)
    requires
        forall|i: int| 0 <= i < s.len() ==> lo <= #[trigger] s[i] <= hi,
    ensures
        s.len() * lo <= spec_sum(s) <= s.len() * hi,
    decreases s.len(),
{
    if s.len() == 0 {
        let n = s.len() as int;
        assert(n * lo == 0) by (nonlinear_arith)
            requires n == 0,
        ;
        assert(n * hi == 0) by (nonlinear_arith)
            requires n == 0,
        ;
    } else {
        let t = s.drop_last();
        assert(forall|i: int| 0 <= i < t.len() ==> lo <= #[trigger] t[i] <= hi);
        lemma_sum_range(t, lo, hi);
        assert(t.len() * lo + lo == s.len() * lo) by (nonlinear_arith)
            requires t.len() + 1 == s.len(),
        ;
        assert(t.len() * hi + hi == s.len() * hi) by (nonlinear_arith)
            requires t.len() + 1 == s.len(),
        ;
    }
}

/// The sliding rate window together with the elapsed time inside its newest
/// bin.
pub struct RateTracker {
    /// Event counts, oldest first; always exactly `BIN_COUNT` bins.
    pub bins: Vec<u32>,
    /// Time elapsed inside the newest bin, in units of
    /// `1 / (10 * sample_rate)` seconds.
    pub bin_time: u64,
    /// Width of one bin in the same units; equals the sample rate, since one
    /// bin spans 0.1 s.
    pub bin_period: u64,
}

impl RateTracker {
    pub open spec fn wf(self) -> bool {
        &&& self.bins@.len() == BIN_COUNT
        &&& self.bin_period >= 1
    }

    /// A fresh window: all bins zero, no time elapsed in the newest bin.
    pub fn new(bin_period: u64) -> (t: RateTracker)
        requires
            bin_period >= 1,
        ensures
            t.wf(),
            t.bins@ == Seq::new(BIN_COUNT as nat, |i: int| 0u32),
            t.bin_time == 0,
            t.bin_period == bin_period,
    {
        let mut bins: Vec<u32> = Vec::new();
        let mut i: usize = 0;
        while i < BIN_COUNT
            invariant
                i <= BIN_COUNT,
                bins@.len() == i,
                forall|j: int| 0 <= j < i ==> bins@[j] == 0u32,
            decreases BIN_COUNT - i,
        {
            bins.push(0);
            i = i + 1;
        }
        proof {
            assert(bins@ =~= Seq::new(BIN_COUNT as nat, |k: int| 0u32));
        }
        RateTracker { bins, bin_time: 0, bin_period }
    }

    /// Drops the oldest bin and appends a fresh zero bin if the elapsed time
    /// has crossed a bin boundary; otherwise leaves the window untouched.
    pub fn rotate_if_due(&mut self)
        requires
            old(self).wf(),
        ensures
            final(self).wf(),
            final(self).bin_period == old(self).bin_period,
            old(self).bin_time > old(self).bin_period ==> {
                &&& final(self).bins@ == spec_rotate(old(self).bins@)
                &&& final(self).bin_time == old(self).bin_time - old(self).bin_period
            },
            old(self).bin_time <= old(self).bin_period ==> {
                &&& final(self).bins@ == old(self).bins@
                &&& final(self).bin_time == old(self).bin_time
            },
    {
        if self.bin_time > self.bin_period {
            self.bin_time = self.bin_time - self.bin_period;
            self.bins.remove(0);
            self.bins.push(0);
            proof {
                assert(self.bins@ =~= spec_rotate(old(self).bins@));
            }
        }
    }

    /// Adds this tick's drained event count into the newest bin
    /// (saturating, so the addition cannot wrap).
    pub fn record(&mut self, count: u32)
        requires
            old(self).wf(),
        ensures
            final(self).wf(),
            final(self).bins@ == old(self).bins@.update(
                BIN_COUNT - 1,
                old(self).bins@[BIN_COUNT - 1].saturating_add(count),
            ),
            final(self).bin_time == old(self).bin_time,
            final(self).bin_period == old(self).bin_period,
    {
        let updated = self.bins[BIN_COUNT - 1].saturating_add(count);
        self.bins.set(BIN_COUNT - 1, updated);
    }

    /// The measured event rate over the whole window, in milli-Hz.
    pub fn rate_mhz(&self) -> (r: u64)
        requires
            self.wf(),
        ensures
            r == spec_rate_mhz(self.bins@),
    {
        let mut total: u64 = 0;
        let mut i: usize = 0;
        while i < BIN_COUNT
            invariant
                i <= BIN_COUNT,
                self.bins@.len() == BIN_COUNT,
                total == spec_sum(self.bins@.take(i as int)),
                total <= i * (u32::MAX as int),
            decreases BIN_COUNT - i,
        {
            proof {
                let pre = self.bins@.take(i as int);
                let post = self.bins@.take(i + 1);
                assert(post.drop_last() =~= pre);
                assert(post.last() == self.bins@[i as int]);
            }
            total = total + (self.bins[i] as u64);
            i = i + 1;
        }
        proof {
            assert(self.bins@.take(BIN_COUNT as int) =~= self.bins@);
        }
        total * 250
    }

    /// Advances the elapsed time inside the newest bin by `dt` units.
    pub fn advance(&mut self, dt: u64)
        requires
            old(self).wf(),
            old(self).bin_time + dt <= u64::MAX,
        ensures
            final(self).wf(),
            final(self).bins@ == old(self).bins@,
            final(self).bin_period == old(self).bin_period,
            final(self).bin_time == old(self).bin_time + dt,
    {
        self.bin_time = self.bin_time + dt;
    }
}

} // verus!
