//! The decisions of the frame loop, separated from the window plumbing that
//! carries them out: when the loop stops, and how frame times and deltas
//! advance. Times are counted in whole microseconds since the loop started.

use vstd::prelude::*;

verus! {

/// A key the loop or a demo cares about.
#[derive(Clone, Copy, Debug, PartialEq, Eq, Structural)]
pub enum Key {
    Escape,
    W,
    A,
    S,
    D,
    Other,
}

/// A window event, as a plain value.
#[derive(Clone, Copy, Debug, PartialEq, Eq, Structural)]
pub enum LoopEvent {
    /// The window was closed.
    Closed,
    /// A key went down.
    KeyPressed(Key),
    /// The pointer moved to a position in pixels.
    MouseMoved(i32, i32),
    /// Anything else; demos may care, the loop does not.
    Other,
}

/// The loop stops on a closed window or on the escape key.
pub open spec fn stops(ev: LoopEvent) -> bool {
    ev == LoopEvent::Closed || ev == LoopEvent::KeyPressed(Key::Escape)
}

/// Whether an event ends the main loop.
pub fn should_stop(ev: &LoopEvent) -> (r: bool)
    ensures
        r == stops(*ev),
{
    match ev {
        LoopEvent::Closed => true,
        LoopEvent::KeyPressed(Key::Escape) => true,
        _ => false,
    }
}

/// The clock of the frame loop: it remembers the time of the previous frame
/// and hands each frame its total elapsed time and its delta.
pub struct FrameClock {
    prev_us: u64,
}

impl FrameClock {
    /// The time of the previous frame, in microseconds since the loop
    /// started.
    pub closed spec fn prev(&self) -> u64 {
        self.prev_us
    }

    /// A clock that has seen no frame yet.
    pub fn new() -> (c: FrameClock)
        ensures
            c.prev() == 0,
    {
        FrameClock { prev_us: 0 }
    }

    /// Advances to the present: `now_us` microseconds have passed since the
    /// loop started. Returns the total elapsed time and the delta since the
    /// previous frame; the clock never runs backwards.
    pub fn tick(&mut self, now_us: u64) -> (r: (u64, u64))
        requires
            old(self).prev() <= now_us,
        ensures
            r.0 == now_us,
            r.1 == now_us - old(self).prev(),
            final(self).prev() == now_us,
    {
        let delta = now_us - self.prev_us;
        self.prev_us = now_us;
        (now_us, delta)
    }
}

} // verus!
