//! The render stage's two timestamps and the figures derived from them.
//!
//! Timestamps are milliseconds of a monotonic clock. The stage remembers
//! when it last ran and when it last painted a frame.

use vstd::prelude::*;

verus! {

/// Frames per second for a frame that follows the previous one by `delta`
/// milliseconds: the whole number of such intervals in a second, and zero
/// where no time has passed.
pub open spec fn fps_of(delta: int) -> int {
    if delta == 0 {
        0
    } else {
        1000int / delta
    }
}

/// Computes [`fps_of`].
pub fn frames_per_second(delta: u64) -> (fps: u64)
    ensures
        fps == fps_of(delta as int),
        fps <= 1000,
{
    if delta == 0 {
        0
    } else {
        1000 / delta
    }
}

/// The two timestamps of the render stage.
#[derive(Clone, Copy, Debug, PartialEq, Eq, Structural)]
pub struct RenderMetrics {
    /// When the stage last ran, whether or not it painted.
    pub last_tick_time: u64,
    /// When the stage last painted a frame.
    pub last_update_time: u64,
}

impl RenderMetrics {
    /// Neither timestamp lies ahead of the other's tick: a frame is painted
    /// only in a tick, so the last frame is no later than the last tick.
    pub open spec fn wf(self) -> bool {
        self.last_update_time <= self.last_tick_time
    }

    /// The metrics after a tick at `now`.
    pub open spec fn ticked(self, now: u64) -> RenderMetrics {
        RenderMetrics { last_tick_time: now, ..self }
    }

    /// The metrics after a frame is painted at `now`.
    pub open spec fn painted(self, now: u64) -> RenderMetrics {
        RenderMetrics { last_update_time: now, ..self }
    }

    /// Milliseconds from the last tick to `now`.
    pub open spec fn since_tick(self, now: u64) -> int {
        now - self.last_tick_time
    }

    /// Milliseconds from the last painted frame to `now`.
    pub open spec fn since_update(self, now: u64) -> int {
        now - self.last_update_time
    }

    /// The metrics of a stage that has not run yet: both timestamps are zero.
    pub fn new() -> (m: RenderMetrics)
        ensures
            m == (RenderMetrics { last_tick_time: 0, last_update_time: 0 }),
            m.wf(),
    {
        RenderMetrics { last_tick_time: 0, last_update_time: 0 }
    }

    /// Records a tick at `now` and returns the milliseconds that have
    /// passed since the tick before it.
    pub fn tick(&mut self, now: u64) -> (sps: u64)
        requires
            old(self).last_tick_time <= now,
        ensures
            sps == old(self).since_tick(now),
            *final(self) == old(self).ticked(now),
    {
        let sps: u64 = now - self.last_tick_time;
        self.last_tick_time = now;
        sps
    }

    /// The frame rate that a frame painted at `now` would show, from the
    /// time since the last painted frame.
    pub fn frame_rate(&self, now: u64) -> (fps: u64)
        requires
            self.last_update_time <= now,
        ensures
            fps == fps_of(self.since_update(now)),
    {
        frames_per_second(now - self.last_update_time)
    }

    /// Records that a frame is painted at `now`.
    pub fn mark_painted(&mut self, now: u64)
        ensures
            *final(self) == old(self).painted(now),
    {
        self.last_update_time = now;
    }
}

} // verus!
