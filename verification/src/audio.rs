//! The audio output callback's fill policy.
//!
//! On every hardware-driven callback the sink must hand the device
//! exactly the number of samples it asked for, on time: it pulls what the
//! audio queue holds and fills the remainder with silence. Underrun never
//! stalls the audio thread — silence, not blocking, is the policy. Gain
//! is applied to the pulled samples by the unverified callback itself,
//! since samples are floating-point values there.

use vstd::prelude::*;

use crate::queue::BoundedQueue;

verus! {

/// Fills one callback request: pops up to `requested` samples from the
/// queue, in order, and pads the remainder with the `silence` sample.
/// The result always holds exactly `requested` samples.
pub fn fill_callback<T: Copy>(queue: &mut BoundedQueue<T>, requested: usize, silence: T) -> (out:
    Vec<T>)
    requires
        old(queue).wf(),
    ensures
        final(queue).wf(),
        final(queue).capacity() == old(queue).capacity(),
        out@.len() == requested,
        ({
            let pulled = if requested <= old(queue)@.len() {
                requested as int
            } else {
                old(queue)@.len() as int
            };
            &&& out@.take(pulled) == old(queue)@.take(pulled)
            &&& forall|i: int| pulled <= i < requested ==> out@[i] == silence
            &&& final(queue)@ == old(queue)@.skip(pulled)
        }),
{
    let mut out = queue.pop_up_to(requested);
    let ghost pulled = out@.len() as int;
    proof {
        assert(forall|i: int| 0 <= i < pulled ==> out@[i] == old(queue)@[i]);
    }
    while out.len() < requested
        invariant
            0 <= pulled <= out@.len() <= requested,
            pulled <= old(queue)@.len(),
            forall|i: int| 0 <= i < pulled ==> out@[i] == old(queue)@[i],
            forall|i: int| pulled <= i < out@.len() ==> out@[i] == silence,
        decreases requested - out@.len(),
    {
        out.push(silence);
    }
    proof {
        assert(out@.take(pulled) =~= old(queue)@.take(pulled));
    }
    out
}

} // verus!
