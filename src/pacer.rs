//! Frame pacing: throttles render and present to a fixed target interval,
//! however often the outer loop iterates.

use vstd::prelude::*;

verus! {

/// Target frame interval of the pacer, in microseconds (about 60 Hz).
pub const TARGET_FRAME_TIME_US: u64 = 16_666;

/// What one loop iteration does after pumping and dispatching events.
#[derive(Debug, Clone, Copy, PartialEq, Eq, Structural)]
pub struct PacerStep {
    /// Whether to render and present in this iteration.
    pub render: bool,
    /// How long to let the host's run loop run before the next iteration,
    /// in microseconds.
    pub sleep_us: u64,
}

/// Whether a frame is due at `now` after a frame at `last`. A clock that
/// appears to run backwards counts as no time elapsed.
pub open spec fn frame_due(last: u64, target: u64, now: u64) -> bool {
    let elapsed = if now >= last { now - last } else { 0 };
    elapsed >= target
}

/// Time left until the next frame is due, saturating at zero and at the
/// largest `u64`.
pub open spec fn spec_sleep(last: u64, target: u64, now: u64) -> u64 {
    let due = if last + target > u64::MAX { u64::MAX as int } else { last + target };
    if due > now {
        (due - now) as u64
    } else {
        0
    }
}

/// The pacer's step at `now`: the new last-frame time and the step taken.
pub open spec fn spec_tick(last: u64, target: u64, now: u64) -> (u64, PacerStep) {
    let render = frame_due(last, target, now);
    let new_last = if render { now } else { last };
    (new_last, PacerStep { render, sleep_us: spec_sleep(new_last, target, now) })
}

/// Render times that a run of the pacer produces over the iteration times
/// `times`, starting from a last frame at `last`.
pub open spec fn render_times(last: u64, target: u64, times: Seq<u64>) -> Seq<u64>
    decreases times.len(),
{
    if times.len() == 0 {
        seq![]
    } else {
        let (new_last, step) = spec_tick(last, target, times[0]);
        let rest = render_times(new_last, target, times.drop_first());
        if step.render {
            seq![times[0]] + rest
        } else {
            rest
        }
    }
}

/// Throttles rendering to one frame per target interval.
pub struct FramePacer {
    pub last_frame_time: u64,
    pub target_frame_time: u64,
}

impl FramePacer {
    /// A pacer whose last frame is taken to be at `now`.
    pub fn new(now: u64, target_frame_time: u64) -> (r: FramePacer)
        ensures
            r.last_frame_time == now,
            r.target_frame_time == target_frame_time,
    {
        FramePacer { last_frame_time: now, target_frame_time }
    }

    /// One iteration at time `now` (microseconds): renders when at least the
    /// target interval has passed since the last frame, and says how long to
    /// sleep until the next frame is due.
    pub fn tick(&mut self, now: u64) -> (r: PacerStep)
        ensures
            final(self).target_frame_time == old(self).target_frame_time,
            (final(self).last_frame_time, r) == spec_tick(
                old(self).last_frame_time,
                old(self).target_frame_time,
                now,
            ),
    {
        let elapsed = now.saturating_sub(self.last_frame_time);
        let render = elapsed >= self.target_frame_time;
        if render {
            self.last_frame_time = now;
        }
        let due = self.last_frame_time.saturating_add(self.target_frame_time);
        let sleep_us = due.saturating_sub(now);
        PacerStep { render, sleep_us }
    }

    /// Time left at `now` until the next frame is due, in microseconds.
    pub fn time_until_next_frame(&self, now: u64) -> (r: u64)
        ensures
            r == spec_sleep(self.last_frame_time, self.target_frame_time, now),
    {
        self.last_frame_time.saturating_add(self.target_frame_time).saturating_sub(now)
    }
}

/// However fast the loop iterates, two successive renders are at least the
/// target interval apart, and the first comes at least the target interval
/// after the starting frame.
pub proof fn lemma_no_busy_render(last: u64, target: u64, times: Seq<u64>)
    requires
        target > 0,
    ensures
        forall|k: int|
            0 <= k < render_times(last, target, times).len() - 1 ==> render_times(
                last,
                target,
                times,
            )[k + 1] >= #[trigger] render_times(last, target, times)[k] + target,
        render_times(last, target, times).len() > 0 ==> render_times(last, target, times)[0]
            >= last + target,
    decreases times.len(),
{
    if times.len() > 0 {
        let (new_last, step) = spec_tick(last, target, times[0]);
        let rest = render_times(new_last, target, times.drop_first());
        lemma_no_busy_render(new_last, target, times.drop_first());
        let all = render_times(last, target, times);
        if step.render {
            assert(all == seq![times[0]] + rest);
            assert forall|k: int| 0 <= k < all.len() - 1 implies all[k + 1] >= #[trigger] all[k]
                + target by {
                if k == 0 {
                    assert(all[1] == rest[0]);
                } else {
                    assert(all[k] == rest[k - 1]);
                    assert(all[k + 1] == rest[k]);
                }
            }
        } else {
            assert(all == rest);
        }
    }
}

} // verus!
