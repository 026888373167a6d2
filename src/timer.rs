//! A one-shot countdown in milliseconds.

use vstd::prelude::*;

verus! {

/// A timer that runs once for `duration` milliseconds and then stays finished.
#[derive(Clone, Copy, Debug, PartialEq, Eq, Structural)]
pub struct Timer {
    pub duration: u64,
    pub elapsed: u64,
}

impl Timer {
    pub open spec fn finished(self) -> bool {
        self.elapsed >= self.duration
    }

    /// A fresh timer of the given length.
    pub fn new(duration: u64) -> (r: Timer)
        ensures
            r.duration == duration,
            r.elapsed == 0,
    {
        Timer { duration, elapsed: 0 }
    }

    /// Advances the timer by `delta` milliseconds, stopping at its length.
    pub fn tick(&mut self, delta: u64)
        ensures
            final(self).duration == old(self).duration,
            final(self).elapsed == if old(self).elapsed + delta >= old(self).duration {
                old(self).duration
            } else {
                (old(self).elapsed + delta) as u64
            },
    {
        if self.elapsed >= self.duration || self.duration - self.elapsed <= delta {
            self.elapsed = self.duration;
        } else {
            self.elapsed = self.elapsed + delta;
        }
    }

    /// True once the full length has elapsed.
    pub fn is_finished(&self) -> (r: bool)
        ensures
            r == self.finished(),
    {
        self.elapsed >= self.duration
    }

    /// Milliseconds left before the timer finishes.
    pub fn remaining(&self) -> (r: u64)
        ensures
            r == if self.finished() { 0 } else { (self.duration - self.elapsed) as u64 },
    {
        if self.elapsed >= self.duration {
            0
        } else {
            self.duration - self.elapsed
        }
    }
}

} // verus!
