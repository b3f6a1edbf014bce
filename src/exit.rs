//! Quitting on a key chord: presses of the chord are counted within a
//! window that restarts each time it runs out.
use vstd::prelude::*;

use crate::timer::CountdownTimer;

verus! {

/// The counting state of the quit chord.
#[derive(Clone, Copy, Debug, PartialEq, Eq)]
pub struct ExitKeys {
    /// The window within which presses are counted.
    pub reset_timer: CountdownTimer,
    /// How many presses ask to quit.
    pub press_count: usize,
    /// Presses counted in the current window.
    pub count: usize,
}

/// `a + b`, stopping at the largest `usize`.
pub open spec fn saturating_count(a: usize, b: usize) -> usize {
    if a + b > usize::MAX {
        usize::MAX
    } else {
        (a + b) as usize
    }
}

impl ExitKeys {
    /// The window runs out on this tick.
    pub open spec fn window_ends(self, delta: u64) -> bool {
        !self.reset_timer.is_finished() && self.reset_timer.tick_spec(delta).is_finished()
    }

    /// The state after a frame: the window advances, and where it runs out it
    /// starts over with the count cleared; while every key of the chord is
    /// held, each key that went down this frame counts one press.
    pub open spec fn update_spec(self, delta: u64, all_held: bool, newly_pressed: usize) -> ExitKeys {
        let ends = self.window_ends(delta);
        let ticked = self.reset_timer.tick_spec(delta);
        let base = if ends { 0 } else { self.count };
        ExitKeys {
            reset_timer: if ends { ticked.reset_spec() } else { ticked },
            count: if all_held { saturating_count(base, newly_pressed) } else { base },
            ..self
        }
    }

    /// Quitting is asked for: the chord is held, a key of it went down this
    /// frame, and the count reached the number of presses asked for.
    pub open spec fn asks_exit(self, delta: u64, all_held: bool, newly_pressed: usize) -> bool {
        all_held && newly_pressed > 0 && self.update_spec(delta, all_held, newly_pressed).count >= self.press_count
    }

    /// A fresh chord state: the window starts running and nothing is counted.
    pub fn new(window: u64, press_count: usize) -> (r: ExitKeys)
        requires
            window > 0,
        ensures
            r.reset_timer == (CountdownTimer { duration: window, elapsed: 0 }),
            r.press_count == press_count,
            r.count == 0,
    {
        ExitKeys { reset_timer: CountdownTimer::new(window), press_count, count: 0 }
    }

    /// Takes one frame of `delta` microseconds: whether every key of the chord
    /// is held, and how many of them went down this frame. Returns whether
    /// quitting is asked for.
    pub fn exit_system(&mut self, delta: u64, all_held: bool, newly_pressed: usize) -> (r: bool)
        requires
            old(self).reset_timer.wf(),
        ensures
            *final(self) == old(self).update_spec(delta, all_held, newly_pressed),
            r == old(self).asks_exit(delta, all_held, newly_pressed),
            final(self).reset_timer.wf(),
    {
        let was_finished = self.reset_timer.finished();
        self.reset_timer.tick(delta);
        if !was_finished && self.reset_timer.finished() {
            self.reset_timer.reset();
            self.count = 0;
        }
        if !all_held {
            return false;
        }
        self.count = self.count.saturating_add(newly_pressed);
        newly_pressed > 0 && self.count >= self.press_count
    }
}

} // verus!
