//! A one-shot countdown timer over microseconds.
use vstd::prelude::*;

verus! {

/// A one-shot timer: it runs from zero elapsed time up to its duration and
/// stays finished there until it is reset.
#[derive(Clone, Copy, Debug, PartialEq, Eq)]
pub struct CountdownTimer {
    /// The full length of the timer, in microseconds.
    pub duration: u64,
    /// The time that has run since the last reset, in microseconds.
    pub elapsed: u64,
}

impl CountdownTimer {
    /// Elapsed time never runs past the duration, and the duration is positive.
    pub open spec fn wf(&self) -> bool {
        &&& self.duration > 0
        &&& self.elapsed <= self.duration
    }

    /// The timer has run its full length.
    pub open spec fn is_finished(&self) -> bool {
        self.elapsed >= self.duration
    }

    /// The timer started over from zero.
    pub open spec fn reset_spec(self) -> CountdownTimer {
        CountdownTimer { elapsed: 0, ..self }
    }

    /// The timer advanced by `delta` microseconds, stopping at its duration.
    pub open spec fn tick_spec(self, delta: u64) -> CountdownTimer {
        if self.elapsed + delta >= self.duration {
            CountdownTimer { elapsed: self.duration, ..self }
        } else {
            CountdownTimer { elapsed: (self.elapsed + delta) as u64, ..self }
        }
    }

    /// The timer run out at once.
    pub open spec fn expire_spec(self) -> CountdownTimer {
        CountdownTimer { elapsed: self.duration, ..self }
    }

    /// A timer of the given length that has just been started.
    pub fn new(duration: u64) -> (r: CountdownTimer)
        requires
            duration > 0,
        ensures
            r.wf(),
            r.duration == duration,
            r.elapsed == 0,
    {
        CountdownTimer { duration, elapsed: 0 }
    }

    /// A timer of the given length that has already run out.
    pub fn new_finished(duration: u64) -> (r: CountdownTimer)
        requires
            duration > 0,
        ensures
            r.wf(),
            r.duration == duration,
            r.is_finished(),
            r.elapsed == duration,
    {
        CountdownTimer { duration, elapsed: duration }
    }

    /// Whether the timer has run its full length.
    pub fn finished(&self) -> (r: bool)
        ensures
            r == self.is_finished(),
    {
        self.elapsed >= self.duration
    }

    /// Starts the timer over from zero.
    pub fn reset(&mut self)
        ensures
            *final(self) == old(self).reset_spec(),
    {
        self.elapsed = 0;
    }

    /// Advances the timer by `delta` microseconds; it stops at its duration.
    pub fn tick(&mut self, delta: u64)
        requires
            old(self).wf(),
        ensures
            *final(self) == old(self).tick_spec(delta),
            final(self).wf(),
    {
        if delta >= self.duration - self.elapsed {
            self.elapsed = self.duration;
        } else {
            self.elapsed = self.elapsed + delta;
        }
    }

    /// Runs the timer out at once.
    pub fn expire(&mut self)
        ensures
            *final(self) == old(self).expire_spec(),
    {
        self.elapsed = self.duration;
    }
}

} // verus!
