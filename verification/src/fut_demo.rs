use vstd::prelude::*;
use crate::progress::Progress;

verus! {

/// The number of polls after which a [`Fut`] is ready.
pub const READY_AT: u32 = 5;

/// A counter that pretends to be a future: it asks to be polled again
/// until its counter has reached [`READY_AT`], and then yields the counter.
pub struct Fut {
    pub i: u32,
}

/// One poll of a `Fut` whose counter is `i`: what it answers and its counter afterwards.
pub open spec fn awaiting_step(i: u32) -> (Progress<u32>, u32) {
    if i < READY_AT {
        (Progress::Pending, (i + 1) as u32)
    } else {
        (Progress::Ready(i), i)
    }
}

/// The counter after `k` polls, starting from `i`.
pub open spec fn counter_after(i: u32, k: nat) -> u32
    decreases k,
{
    if k == 0 {
        i
    } else {
        counter_after(awaiting_step(i).1, (k - 1) as nat)
    }
}

impl Fut {
    /// Polls the future once.
    pub fn awaiting(&mut self) -> (r: Progress<u32>)
        ensures
            (r, final(self).i) == awaiting_step(old(self).i),
    {
        if self.i < READY_AT {
            self.i = self.i + 1;
            Progress::Pending
        } else {
            Progress::Ready(self.i)
        }
    }
}

/// A future started at `i` answers `Pending` exactly `READY_AT - i` times
/// (none if `i` is already past it), and the poll after that yields
/// `max(i, READY_AT)`.
pub proof fn lemma_awaiting_completes(i: u32)
    ensures
        ({
            let waits: nat = if i < READY_AT { (READY_AT - i) as nat } else { 0 };
            &&& forall|k: nat| k < waits ==> #[trigger] awaiting_step(counter_after(i, k)).0 is Pending
            &&& awaiting_step(counter_after(i, waits)).0 == Progress::Ready(
                if i < READY_AT { READY_AT } else { i },
            )
        }),
    decreases (if i < READY_AT { READY_AT - i } else { 0 }),
{
    if i < READY_AT {
        let next = awaiting_step(i).1;
        lemma_awaiting_completes(next);
        let waits: nat = (READY_AT - i) as nat;
        assert forall|k: nat| k < waits implies #[trigger] awaiting_step(counter_after(i, k)).0 is Pending by {
            if k > 0 {
                assert(counter_after(i, k) == counter_after(next, (k - 1) as nat));
            }
        }
        assert(counter_after(i, waits) == counter_after(next, (waits - 1) as nat));
    }
}

} // verus!
