//! The tick scheduler: a fixed-delay countdown that decides on which frame a
//! movement step fires, independent of the frame rate.

use vstd::prelude::*;

verus! {

/// The delay between two movement steps, in microseconds.
pub const TURN_DELAY: u64 = 800_000;

/// A countdown to the next movement step. Times are in microseconds.
#[derive(Clone, Copy, Debug, PartialEq, Eq, Structural)]
pub struct Timer {
    /// The time between two steps.
    pub delay: u64,
    /// The time left until the next step is due.
    pub remaining: u64,
}

/// The timer after a frame of length `dt`: a step is due when the frame
/// uses up what remained, and then the countdown starts over from the full
/// delay. At most one step is due per frame, however long the frame.
pub open spec fn advanced(t: Timer, dt: u64) -> Timer {
    if dt >= t.remaining {
        Timer { delay: t.delay, remaining: t.delay }
    } else {
        Timer { delay: t.delay, remaining: (t.remaining - dt) as u64 }
    }
}

impl Timer {
    /// A countdown that first fires after `delay`.
    pub fn new(delay: u64) -> (r: Timer)
        ensures
            r == (Timer { delay, remaining: delay }),
    {
        Timer { delay, remaining: delay }
    }

    /// Counts a frame of length `dt` down; returns whether a step is due,
    /// which is when the countdown reaches zero or below.
    pub fn advance(&mut self, dt: u64) -> (fired: bool)
        ensures
            fired == (dt >= old(self).remaining),
            *final(self) == advanced(*old(self), dt),
    {
        if dt >= self.remaining {
            self.remaining = self.delay;
            true
        } else {
            self.remaining = self.remaining - dt;
            false
        }
    }
}

} // verus!
