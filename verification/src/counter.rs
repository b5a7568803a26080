//! The on-screen counter and its update rule: one button increments it,
//! the other resets it to zero, and within one poll cycle the reset wins.

use vstd::prelude::*;

verus! {

/// The counter value after one poll cycle that observed an increment
/// edge (`a`) and/or a reset edge (`b`). The reset dominates: when both
/// edges were pending in the same cycle the counter ends at zero.
pub open spec fn counter_after(c: nat, a: bool, b: bool) -> nat {
    if b {
        0
    } else if a {
        c + 1
    } else {
        c
    }
}

/// The counter value after `k` further poll cycles, each observing only
/// an increment edge.
pub open spec fn counter_after_increments(c: nat, k: nat) -> nat
    decreases k,
{
    if k == 0 {
        c
    } else {
        counter_after(counter_after_increments(c, (k - 1) as nat), true, false)
    }
}

/// The counter state, owned exclusively by the refresh loop and mutated
/// only inside the polling loop body, never from interrupt context.
pub struct CounterState {
    pub count: u64,
}

impl CounterState {
    /// The counter at startup: zero.
    pub fn new() -> (c: CounterState)
        ensures
            c.count == 0,
    {
        CounterState { count: 0 }
    }

    /// Apply the edges one poll cycle observed: increment on `a`, reset
    /// to zero on `b`, reset dominating when both fired.
    pub fn apply_edges(&mut self, a: bool, b: bool)
        requires
            a && !b ==> old(self).count < u64::MAX,
        ensures
            final(self).count == counter_after(old(self).count as nat, a, b),
    {
        if b {
            self.count = 0;
        } else if a {
            self.count = self.count + 1;
        }
    }
}

} // verus!
