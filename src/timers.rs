//! Duration counters driven by the frame's elapsed time, in microseconds.
use vstd::prelude::*;

verus! {

/// `a + b`, held at `u64::MAX`.
pub open spec fn saturating_sum(a: u64, b: u64) -> u64 {
    if a + b > u64::MAX {
        u64::MAX
    } else {
        (a + b) as u64
    }
}

/// A one-shot timer: finished once `duration` has elapsed, and it stops
/// counting there.
#[derive(Clone, Copy, Debug, PartialEq, Eq, Structural)]
pub struct Timer {
    pub duration: u64,
    pub elapsed: u64,
}

impl Timer {
    /// Whether the elapsed time does not pass the duration.
    pub open spec fn wf(self) -> bool {
        self.elapsed <= self.duration
    }

    pub open spec fn is_finished(self) -> bool {
        self.elapsed >= self.duration
    }

    /// A timer of `duration` with nothing elapsed.
    pub open spec fn fresh(duration: u64) -> Timer {
        Timer { duration, elapsed: 0 }
    }

    /// A timer of `duration` that has just started.
    pub fn new(duration: u64) -> (r: Timer)
        ensures
            r.wf(),
            r.duration == duration,
            r.elapsed == 0,
    {
        Timer { duration, elapsed: 0 }
    }

    /// Advances by `dt`, up to the duration.
    pub fn tick(&mut self, dt: u64)
        requires
            old(self).wf(),
        ensures
            final(self).wf(),
            final(self).duration == old(self).duration,
            final(self).elapsed == if saturating_sum(old(self).elapsed, dt) < old(self).duration {
                saturating_sum(old(self).elapsed, dt)
            } else {
                old(self).duration
            },
    {
        let e = self.elapsed.saturating_add(dt);
        self.elapsed = if e < self.duration {
            e
        } else {
            self.duration
        };
    }

    /// Whether the duration has elapsed.
    pub fn finished(&self) -> (r: bool)
        ensures
            r == self.is_finished(),
    {
        self.elapsed >= self.duration
    }

    /// Starts over from zero.
    pub fn reset(&mut self)
        ensures
            final(self).wf(),
            final(self).duration == old(self).duration,
            final(self).elapsed == 0,
    {
        self.elapsed = 0;
    }

    /// Ends the timer at once.
    pub fn finish(&mut self)
        ensures
            final(self).wf(),
            final(self).duration == old(self).duration,
            final(self).elapsed == old(self).duration,
            final(self).is_finished(),
    {
        self.elapsed = self.duration;
    }
}

} // verus!
