//! Frame pacing: the target inter-frame interval, the residual sleep after
//! a paint, and the observed render rate over a rolling window.

use vstd::prelude::*;

verus! {

/// Microseconds in one second.
pub const MICROS_PER_SECOND: u64 = 1_000_000;

/// The interval between frames that matches the source rate, in
/// microseconds.
pub fn target_frame_interval_micros(fps: u64) -> (interval: u64)
    requires
        fps >= 1,
    ensures
        interval == 1_000_000 as int / fps as int,
{
    MICROS_PER_SECOND / fps
}

/// How long to sleep after a paint that took `elapsed` microseconds, so the
/// loop settles on one frame per `target` microseconds: the residual
/// `target - elapsed`, or nothing when the paint already overran the
/// interval.
pub fn sleep_duration_micros(target: u64, elapsed: u64) -> (sleep: u64)
    ensures
        sleep == if elapsed <= target { target - elapsed } else { 0 },
{
    if elapsed <= target {
        target - elapsed
    } else {
        0
    }
}

/// The observed render rate of a window of paint timestamps (microseconds,
/// in paint order): the number of paints divided by the time the window
/// spans, in whole frames per second. A window of fewer than ten paints, or
/// one that spans no measurable time, reads as zero.
pub open spec fn observed_fps_spec(times: Seq<u64>) -> int {
    if times.len() < 10 {
        0
    } else if times.last() == times.first() {
        0
    } else {
        times.len() as int * 1_000_000 / (times.last() - times.first())
    }
}

/// Observed frames per second over the recorded paint timestamps.
pub fn calculate_fps(frame_times: &Vec<u64>) -> (fps: u64)
    requires
        frame_times@.len() <= 1000,
        forall|i: int, j: int|
            0 <= i <= j < frame_times@.len() ==> frame_times@[i] <= frame_times@[j],
    ensures
        fps == observed_fps_spec(frame_times@),
{
    let count = frame_times.len();
    if count < 10 {
        return 0;
    }
    let first = frame_times[0];
    let last = frame_times[count - 1];
    if last == first {
        return 0;
    }
    let elapsed: u64 = last - first;
    let total: u64 = (count as u64) * 1_000_000;
    total / elapsed
}

/// Appends a paint timestamp to the window and lets the oldest one go once
/// more than ten are held.
pub fn record_frame_time(frame_times: &mut Vec<u64>, now: u64)
    requires
        old(frame_times)@.len() <= 10,
    ensures
        final(frame_times)@ == if old(frame_times)@.len() < 10 {
            old(frame_times)@.push(now)
        } else {
            old(frame_times)@.push(now).drop_first()
        },
        final(frame_times)@.len() <= 10,
{
    frame_times.push(now);
    if frame_times.len() > 10 {
        frame_times.remove(0);
        assert(frame_times@ =~= old(frame_times)@.push(now).drop_first());
    }
}

} // verus!
