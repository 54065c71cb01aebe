use vstd::prelude::*;

verus! {

/// A one-shot countdown measured in nanoseconds.
///
/// The elapsed time never passes the duration, and a timer whose elapsed time
/// has reached its duration is finished. A zero-length timer is therefore
/// finished before its first tick: a zero-length fade ends on its first
/// update without painting a frame, and a fresh intro shows its first step
/// at once. Durations are whole nanoseconds, so the timer works on integers
/// throughout and its progress comes out directly as a channel value.
pub struct Timer {
    pub duration: u64,
    pub elapsed: u64,
}

impl Timer {
    pub open spec fn wf(self) -> bool {
        self.elapsed <= self.duration
    }

    pub open spec fn finished_spec(self) -> bool {
        self.elapsed >= self.duration
    }

    /// The elapsed time after a tick of `delta`, held at the duration.
    pub open spec fn ticked_elapsed(self, delta: u64) -> u64 {
        if self.elapsed as int + delta as int >= self.duration as int {
            self.duration
        } else {
            (self.elapsed + delta) as u64
        }
    }

    /// How far the timer has run, as an 8-bit channel value rounded to the
    /// nearest step: 0 at the start, 255 once finished.
    pub open spec fn progress_spec(self) -> int {
        if self.duration == 0 {
            255
        } else {
            (510 * self.elapsed + self.duration) / (2 * self.duration as int)
        }
    }

    /// A fresh timer that runs for `duration` nanoseconds.
    pub fn new(duration: u64) -> (r: Timer)
        ensures
            r.duration == duration,
            r.elapsed == 0,
    {
        Timer { duration, elapsed: 0 }
    }

    pub fn duration(&self) -> (r: u64)
        ensures
            r == self.duration,
    {
        self.duration
    }

    pub fn elapsed(&self) -> (r: u64)
        ensures
            r == self.elapsed,
    {
        self.elapsed
    }

    pub fn finished(&self) -> (r: bool)
        ensures
            r == self.finished_spec(),
    {
        self.elapsed >= self.duration
    }

    /// The fraction `elapsed / duration` in channel space (a zero-length
    /// timer counts as complete).
    pub fn progress(&self) -> (r: u8)
        requires
            self.wf(),
        ensures
            r as int == self.progress_spec(),
    {
        if self.duration == 0 {
            255
        } else {
            let e: u128 = self.elapsed as u128;
            let d: u128 = self.duration as u128;
            proof {
                assert(510 * e + d <= 511 * d) by (nonlinear_arith)
                    requires e <= d;
                assert((510 * e + d) / (2 * d) <= 255) by (nonlinear_arith)
                    requires 510 * e + d <= 511 * d, d > 0;
            }
            ((510 * e + d) / (2 * d)) as u8
        }
    }

    /// Advance the timer by `delta` nanoseconds, stopping at its duration.
    pub fn tick(&mut self, delta: u64)
        ensures
            final(self).duration == old(self).duration,
            final(self).elapsed == old(self).ticked_elapsed(delta),
    {
        if delta >= self.duration || self.elapsed >= self.duration - delta {
            self.elapsed = self.duration;
        } else {
            self.elapsed = self.elapsed + delta;
        }
    }
}

} // verus!
