//! The edge latch: a one-bit memory cell set by a hardware edge event and
//! cleared by software polling, so that any burst of edges between two
//! polls collapses into a single observation.

use vstd::prelude::*;

verus! {

/// The pending flag after an edge event is recorded: always set.
pub open spec fn pending_after_fire(p: bool) -> bool {
    true
}

/// What a poll observes: exactly the pending flag it found.
pub open spec fn poll_observation(p: bool) -> bool {
    p
}

/// The pending flag after a poll: always cleared.
pub open spec fn pending_after_poll(p: bool) -> bool {
    false
}

/// The pending flag after `n` consecutive edge events with no poll
/// in between.
pub open spec fn pending_after_fires(p: bool, n: nat) -> bool
    decreases n,
{
    if n == 0 {
        p
    } else {
        pending_after_fire(pending_after_fires(p, (n - 1) as nat))
    }
}

/// The pending flag after `m` consecutive polls with no edge event
/// in between.
pub open spec fn pending_after_polls(p: bool, m: nat) -> bool
    decreases m,
{
    if m == 0 {
        p
    } else {
        pending_after_poll(pending_after_polls(p, (m - 1) as nat))
    }
}

/// The sequential model of one button's latch.
///
/// The platform guarantees single-producer (interrupt context sets the
/// flag) / single-consumer (the polling loop reads and clears it)
/// discipline over an atomic cell, so every interleaving is equivalent
/// to some sequential order of `fire` and `poll_and_clear` events; this
/// type covers each such order.
pub struct EdgeLatch {
    pub pending: bool,
}

impl EdgeLatch {
    /// A fresh latch with no edge recorded. The caller arms the hardware
    /// interrupt right after construction.
    pub fn new() -> (l: EdgeLatch)
        ensures
            !l.pending,
    {
        EdgeLatch { pending: false }
    }

    /// Record one falling edge, as the interrupt callback does. Repeated
    /// edges before the next poll leave the latch in the same state.
    pub fn fire(&mut self)
        ensures
            final(self).pending == pending_after_fire(old(self).pending),
    {
        self.pending = true;
    }

    /// Read and clear the latch. Returns whether at least one edge fired
    /// since the previous poll. When it returns true the caller must
    /// re-enable interrupt delivery on the line (best effort: the line
    /// auto-disables on fire), an action the hardware layer performs.
    pub fn poll_and_clear(&mut self) -> (observed: bool)
        ensures
            observed == poll_observation(old(self).pending),
            final(self).pending == pending_after_poll(old(self).pending),
    {
        let observed = self.pending;
        self.pending = false;
        observed
    }
}

} // verus!
