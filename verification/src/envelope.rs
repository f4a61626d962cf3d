//! Beep envelope: the remaining duration of the current beep.
//!
//! `remaining` is measured in time units of `1 / (10 * sample_rate)`
//! seconds. Zero means silent; positive means a tone is being synthesized.
//! A trigger sets (never accumulates) the value to the fixed beep length.

use vstd::prelude::*;

verus! {

/// One decay step: the remaining duration drops by `dt`, stopping at zero.
pub open spec fn spec_decay(remaining: int, dt: int) -> int {
    if remaining > dt {
        remaining - dt
    } else {
        0
    }
}

/// The active/silent state of the beep, as its remaining duration.
pub struct BeepEnvelope {
    /// Remaining beep duration in units of `1 / (10 * sample_rate)` seconds.
    pub remaining: u64,
}

impl BeepEnvelope {
    /// A silent envelope.
    pub fn new() -> (e: BeepEnvelope)
        ensures
            e.remaining == 0,
    {
        BeepEnvelope { remaining: 0 }
    }

    /// True while a tone is owed.
    pub fn is_active(&self) -> (r: bool)
        ensures
            r == (self.remaining > 0),
    {
        self.remaining > 0
    }

    /// Re-arms the envelope: the remaining duration is set to the full beep
    /// length, not added to.
    pub fn arm(&mut self, beep_len: u64)
        ensures
            final(self).remaining == beep_len,
    {
        self.remaining = beep_len;
    }

    /// Consumes `dt` units of the remaining duration, stopping at zero.
    pub fn decay(&mut self, dt: u64)
        ensures
            final(self).remaining == spec_decay(old(self).remaining as int, dt as int),
    {
        self.remaining = self.remaining.saturating_sub(dt);
    }
}

} // verus!
