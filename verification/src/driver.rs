//! Decisions of the bounded-rounds control loop: after which rounds a frame
//! is rendered (preceded by a screen clear) and after which a pacing delay is
//! applied. Performing the clear, the write and the sleep is the caller's
//! business.

use vstd::prelude::*;

verus! {

/// Whether round `r` (0-based) of a bounded run of `rounds` rounds renders a
/// frame: every round does unless the run is silent, in which case only the
/// last round does.
pub open spec fn renders_frame(rounds: int, silent: bool, r: int) -> bool {
    !silent || r == rounds - 1
}

/// Whether round `r` of a bounded run is followed by the pacing delay: only a
/// round that renders, and never in a silent run.
pub open spec fn delays_frame(rounds: int, silent: bool, r: int) -> bool {
    renders_frame(rounds, silent, r) && !silent
}

/// What the bounded-rounds loop does after advancing the generation in one
/// round: first clear the screen and render, then delay.
pub struct FrameAction {
    /// Clear the screen and render the current generation.
    pub render: bool,
    /// Sleep for the fixed pacing delay.
    pub delay: bool,
}

/// Decides the actions of round `r` (0-based) of a bounded run of `rounds`
/// rounds.
pub fn frame_action(rounds: usize, silent: bool, r: usize) -> (a: FrameAction)
    requires
        0 < rounds,
        r < rounds,
    ensures
        a.render == renders_frame(rounds as int, silent, r as int),
        a.delay == delays_frame(rounds as int, silent, r as int),
{
    let render = !silent || r == rounds - 1;
    FrameAction { render, delay: render && !silent }
}

/// How many of the first `upto` rounds of a bounded run render a frame.
pub open spec fn frames_rendered(rounds: int, silent: bool, upto: int) -> nat
    decreases upto,
{
    if upto <= 0 {
        0
    } else {
        frames_rendered(rounds, silent, upto - 1) + (if renders_frame(rounds, silent, upto - 1) {
            1nat
        } else {
            0nat
        })
    }
}

/// How many of the first `upto` rounds of a bounded run are followed by the
/// pacing delay.
pub open spec fn delays_applied(rounds: int, silent: bool, upto: int) -> nat
    decreases upto,
{
    if upto <= 0 {
        0
    } else {
        delays_applied(rounds, silent, upto - 1) + (if delays_frame(rounds, silent, upto - 1) {
            1nat
        } else {
            0nat
        })
    }
}

/// A silent bounded run renders exactly one frame, the one after the last
/// round, and applies no pacing delay at all.
pub proof fn lemma_silent_run(rounds: int)
    requires
        0 < rounds,
    ensures
        frames_rendered(rounds, true, rounds) == 1,
        delays_applied(rounds, true, rounds) == 0,
        forall|r: int| 0 <= r < rounds ==> (renders_frame(rounds, true, r) <==> r == rounds - 1),
        forall|r: int| 0 <= r < rounds ==> !delays_frame(rounds, true, r),
{
    lemma_silent_prefix(rounds, rounds - 1);
}

/// In a silent run, no round before the last renders a frame or delays.
proof fn lemma_silent_prefix(rounds: int, upto: int)
    requires
        0 <= upto <= rounds - 1,
    ensures
        frames_rendered(rounds, true, upto) == 0,
        delays_applied(rounds, true, upto) == 0,
    decreases upto,
{
    if upto > 0 {
        lemma_silent_prefix(rounds, upto - 1);
    }
}

/// A non-silent bounded run renders one frame after every round, each
/// followed by the pacing delay.
pub proof fn lemma_verbose_run(rounds: int)
    requires
        0 < rounds,
    ensures
        frames_rendered(rounds, false, rounds) == rounds,
        delays_applied(rounds, false, rounds) == rounds,
        forall|r: int| 0 <= r < rounds ==> renders_frame(rounds, false, r),
        forall|r: int| 0 <= r < rounds ==> delays_frame(rounds, false, r),
{
    lemma_verbose_prefix(rounds, rounds);
}

/// In a non-silent run, every round so far has rendered and delayed.
proof fn lemma_verbose_prefix(rounds: int, upto: int)
    requires
        0 <= upto,
    ensures
        frames_rendered(rounds, false, upto) == upto,
        delays_applied(rounds, false, upto) == upto,
    decreases upto,
{
    if upto > 0 {
        lemma_verbose_prefix(rounds, upto - 1);
    }
}

} // verus!
