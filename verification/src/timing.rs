//! Frame pacing in whole milliseconds.
//!
//! A frame rate cap gives every frame a time budget. Whoever runs the frame
//! loop measures what a frame has spent and sleeps for what is left of the
//! budget; how long that is, is decided here.

use vstd::prelude::*;

verus! {

/// The time budget of one frame at `fps_cap` frames per second:
/// `1000 / fps_cap` milliseconds, rounded down.
pub open spec fn spec_frame_delay(fps_cap: u32) -> int {
    1000int / (fps_cap as int)
}

/// What is left of a budget of `frame_delay` milliseconds after `spent`
/// milliseconds, and 0 once the budget is used up.
pub open spec fn spec_remaining_delay(frame_delay: u32, spent: u32) -> int {
    if spent < frame_delay {
        frame_delay - spent
    } else {
        0
    }
}

/// The time budget of one frame, in milliseconds, for a cap of `fps_cap`
/// frames per second. A cap above 1000 leaves no budget at all.
pub fn frame_delay(fps_cap: u32) -> (ms: u32)
    requires
        fps_cap > 0,
    ensures
        ms == spec_frame_delay(fps_cap),
        ms <= 1000,
{
    1000 / fps_cap
}

/// How many milliseconds a frame still has to wait after it has spent
/// `spent` of its budget of `frame_delay`. The result is 0 exactly when there
/// is nothing to wait for.
pub fn remaining_delay(frame_delay: u32, spent: u32) -> (ms: u32)
    ensures
        ms == spec_remaining_delay(frame_delay, spent),
        ms == 0 <==> spent >= frame_delay,
{
    if spent < frame_delay {
        frame_delay - spent
    } else {
        0
    }
}

} // verus!
