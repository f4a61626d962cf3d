//! The audio sink's underrun policy, sample-and-hold: each output slot takes
//! the next queued sample; when the queue is momentarily empty the previous
//! emitted sample is repeated instead of substituting silence.
//!
//! Samples are carried as their raw 32-bit encodings: the policy never looks
//! inside a sample, it only copies or repeats it.

use vstd::prelude::*;

verus! {

/// The value the sink writes into output slot `i`, given the queue's answer
/// for every slot (`None` on underrun) and the last sample emitted before
/// this buffer.
pub open spec fn spec_hold(popped: Seq<Option<u32>>, last: u32, i: int) -> u32
    decreases i,
{
    if i < 0 || i >= popped.len() {
        last
    } else if popped[i] is Some {
        popped[i]->0
    } else if i == 0 {
        last
    } else {
        spec_hold(popped, last, i - 1)
    }
}

/// Fills one output buffer: slot `i` gets the `i`-th popped sample, or, on
/// underrun, the most recent emitted sample (`last` before the first slot).
pub fn sample_and_hold(popped: &Vec<Option<u32>>, last: u32) -> (out: Vec<u32>)
    ensures
        out@.len() == popped@.len(),
        forall|i: int| 0 <= i < popped@.len() ==> out@[i] == spec_hold(popped@, last, i),
{
    let mut out: Vec<u32> = Vec::new();
    let mut held: u32 = last;
    let mut i: usize = 0;
    while i < popped.len()
        invariant
            i <= popped@.len(),
            out@.len() == i,
            forall|j: int| 0 <= j < i ==> out@[j] == spec_hold(popped@, last, j),
            held == spec_hold(popped@, last, i - 1),
        decreases popped@.len() - i,
    {
        let v = match popped[i] {
            Some(s) => s,
            None => held,
        };
        out.push(v);
        held = v;
        i = i + 1;
    }
    out
}

} // verus!
