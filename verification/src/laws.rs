//! The laws the panel obeys, stated over the spec functions its
//! contracts use and proved once and for all.

use vstd::prelude::*;
use crate::counter::{counter_after, counter_after_increments};
use crate::latch::{
    pending_after_fires, pending_after_poll, pending_after_polls, poll_observation,
};
use crate::render::{apply_cmd, apply_cmds, frame_cmd_views, ScreenModel};
use crate::text::{counter_text, time_text};

verus! {

/// Latch single-producer law: after any positive number of edge events
/// between two consecutive polls, the next poll observes the latch set
/// and clears it, and every later poll observes it clear until another
/// edge fires.
pub proof fn lemma_latch_single_observation(p: bool, n: nat)
    requires
        n >= 1,
    ensures
        poll_observation(pending_after_fires(p, n)) == true,
        pending_after_poll(pending_after_fires(p, n)) == false,
        forall|j: nat|
            poll_observation(
                #[trigger] pending_after_polls(pending_after_poll(pending_after_fires(p, n)), j),
            ) == false,
{
    let cleared = pending_after_poll(pending_after_fires(p, n));
    assert forall|j: nat|
        poll_observation(#[trigger] pending_after_polls(cleared, j)) == false by {
        if j == 0 {
        } else {
            assert(pending_after_polls(cleared, j) == pending_after_poll(
                pending_after_polls(cleared, (j - 1) as nat),
            ));
        }
    }
}

/// Idempotent clear law: two polls in a row with no edge event in
/// between observe the flag as found, then clear — so a set latch reads
/// true then false.
pub proof fn lemma_poll_idempotent(p: bool)
    ensures
        poll_observation(p) == p,
        poll_observation(pending_after_poll(p)) == false,
{
}

/// Counter additivity: from any start, `k` cycles that each observe only
/// an increment edge add exactly `k`.
pub proof fn lemma_counter_increments(c: nat, k: nat)
    ensures
        counter_after_increments(c, k) == c + k,
    decreases k,
{
    if k > 0 {
        lemma_counter_increments(c, (k - 1) as nat);
    }
}

/// Counter monotonicity law: under an increment-only edge stream the
/// counter after `k` processed edges equals `k`, starting from zero.
pub proof fn lemma_counter_monotonicity(k: nat)
    ensures
        counter_after_increments(0, k) == k,
{
    lemma_counter_increments(0, k);
}

/// Reset dominance law: a cycle in which the reset edge was pending ends
/// at zero, whatever the counter held and whether the increment edge was
/// pending too.
pub proof fn lemma_reset_dominates(c: nat, a: bool)
    ensures
        counter_after(c, a, true) == 0,
{
}

/// Render consistency law: whatever the display showed before, after the
/// commands of one completed iteration the counter line shows exactly
/// the decimal rendering of the current count, and the time line shows
/// the reading taken at the start of the iteration — no stale draw
/// survives the frame.
pub proof fn lemma_render_consistency(m: ScreenModel, secs: nat, count: nat)
    ensures
        apply_cmds(m, frame_cmd_views(secs, count)).time_text == time_text(secs),
        apply_cmds(m, frame_cmd_views(secs, count)).counter_text == counter_text(count),
{
    let s0 = frame_cmd_views(secs, count);
    let s1 = s0.subrange(1, s0.len() as int);
    let s2 = s1.subrange(1, s1.len() as int);
    let s3 = s2.subrange(1, s2.len() as int);
    let s4 = s3.subrange(1, s3.len() as int);
    assert(s1[0] == s0[1] && s1[1] == s0[2] && s1[2] == s0[3]);
    assert(s2[0] == s1[1] && s2[1] == s1[2]);
    assert(s3[0] == s2[1]);
    assert(s4.len() == 0);
    let m1 = apply_cmd(m, s0[0]);
    let m2 = apply_cmd(m1, s0[1]);
    let m3 = apply_cmd(m2, s0[2]);
    let m4 = apply_cmd(m3, s0[3]);
    assert(apply_cmds(m, s0) == apply_cmds(m1, s1));
    assert(apply_cmds(m1, s1) == apply_cmds(m2, s2));
    assert(apply_cmds(m2, s2) == apply_cmds(m3, s3));
    assert(apply_cmds(m3, s3) == apply_cmds(m4, s4));
}

} // verus!
