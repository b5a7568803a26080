//! The refresh loop body: poll both button latches in a fixed order,
//! update the counter, and emit the draw commands of one frame.

use vstd::prelude::*;
use crate::counter::{counter_after, CounterState};
use crate::latch::{pending_after_poll, poll_observation, EdgeLatch};
use crate::render::{frame_cmd_views, frame_cmds, views_of, DrawCmd};

verus! {

/// What one refresh iteration hands the hardware layer: the draw commands
/// of the frame, and whether each button's interrupt line must be
/// re-enabled. A line auto-disables when it fires, so it is re-armed
/// exactly when its latch was observed set this cycle (best effort: a
/// re-arm failure is logged and tolerated, never fatal).
pub struct StepOutput {
    pub cmds: Vec<DrawCmd>,
    pub rearm_a: bool,
    pub rearm_b: bool,
}

/// The state the refresh loop owns: the two button latches (A increments
/// the counter, B resets it) and the counter itself.
pub struct Panel {
    pub button_a: EdgeLatch,
    pub button_b: EdgeLatch,
    pub counter: CounterState,
}

impl Panel {
    /// The panel at startup: no edge latched, counter at zero.
    pub fn new() -> (p: Panel)
        ensures
            !p.button_a.pending,
            !p.button_b.pending,
            p.counter.count == 0,
    {
        Panel { button_a: EdgeLatch::new(), button_b: EdgeLatch::new(), counter: CounterState::new() }
    }

    /// One refresh iteration, given the seconds reading taken at its
    /// start. Polls button A before button B — the fixed order that,
    /// together with the update rule, lets the reset win when both fired
    /// in the same cycle — updates the counter, and emits the frame's
    /// draw commands for the new state.
    pub fn step(&mut self, secs: u64) -> (out: StepOutput)
        requires
            old(self).button_a.pending && !old(self).button_b.pending ==> old(self).counter.count < u64::MAX,
        ensures
            out.rearm_a == poll_observation(old(self).button_a.pending),
            out.rearm_b == poll_observation(old(self).button_b.pending),
            final(self).button_a.pending == pending_after_poll(old(self).button_a.pending),
            final(self).button_b.pending == pending_after_poll(old(self).button_b.pending),
            final(self).counter.count == counter_after(
                old(self).counter.count as nat,
                poll_observation(old(self).button_a.pending),
                poll_observation(old(self).button_b.pending),
            ),
            views_of(out.cmds@) == frame_cmd_views(secs as nat, final(self).counter.count as nat),
    {
        let a = self.button_a.poll_and_clear();
        let b = self.button_b.poll_and_clear();
        self.counter.apply_edges(a, b);
        let cmds = frame_cmds(secs, self.counter.count);
        StepOutput { cmds, rearm_a: a, rearm_b: b }
    }
}

} // verus!
