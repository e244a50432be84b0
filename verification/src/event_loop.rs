//! Frame pacing and shutdown decisions of the main loop.
//!
//! The loop that owns the window caps itself at about sixty frames a second
//! and goes idle when nothing happened. [`EventLoop`] holds the two pieces of
//! pacing state — a redraw flag and the time of the last update — and decides,
//! from a caller-supplied millisecond clock, how long to sleep and whether to
//! block for the next event. The caller does the sleeping, the polling and
//! the blocking; every decision is made here.

use vstd::prelude::*;

verus! {

/// The pacing interval: a frame may start at most once per sixteen
/// milliseconds, about sixty frames a second.
pub const FRAME_INTERVAL_MS: u64 = 16;

/// A window event as the shutdown logic reads it: the Escape key, a request
/// to close the window, or anything else.
#[derive(Clone, Copy, Debug, PartialEq, Eq, Structural)]
pub enum WindowEvent {
    EscapePressed,
    CloseRequested,
    Other,
}

/// The events that end the main loop: Escape, or closing the window.
pub open spec fn is_exit_event(e: WindowEvent) -> bool {
    e == WindowEvent::EscapePressed || e == WindowEvent::CloseRequested
}

/// Some event of the batch ends the main loop.
pub open spec fn contains_exit(evs: Seq<WindowEvent>) -> bool {
    exists|i: int| 0 <= i < evs.len() && is_exit_event(#[trigger] evs[i])
}

/// Whether a batch of events asks the main loop to stop.
pub fn exit_requested(events: &Vec<WindowEvent>) -> (r: bool)
    ensures
        r == contains_exit(events@),
{
    let n = events.len();
    let mut i: usize = 0;
    while i < n
        invariant
            i <= n,
            n == events@.len(),
            forall|j: int| 0 <= j < i ==> !is_exit_event(#[trigger] events@[j]),
        decreases n - i,
    {
        match events[i] {
            WindowEvent::EscapePressed => {
                return true;
            },
            WindowEvent::CloseRequested => {
                return true;
            },
            WindowEvent::Other => {},
        }
        i += 1;
    }
    false
}

/// The pacing state of the main loop: whether the widgets must be set again,
/// and when the last update cycle ended, in milliseconds of the caller's
/// monotonic clock.
pub struct EventLoop {
    pub ui_needs_update: bool,
    pub last_update_ms: u64,
}

impl EventLoop {
    /// The pacer at startup: an update is owed for the first frame, and no
    /// cycle has run yet.
    pub fn new() -> (r: Self)
        ensures
            r.ui_needs_update,
            r.last_update_ms == 0,
    {
        EventLoop { ui_needs_update: true, last_update_ms: 0 }
    }

    /// Note that an event reached the widgets, so the next frame must set
    /// them again.
    pub fn needs_update(&mut self)
        ensures
            final(self).ui_needs_update,
            final(self).last_update_ms == old(self).last_update_ms,
    {
        self.ui_needs_update = true;
    }

    /// How long the loop must still sleep before the next cycle: the rest of
    /// the pacing interval, or nothing when it has already passed.
    pub fn pace_delay_ms(&self, now_ms: u64) -> (d: u64)
        requires
            self.last_update_ms <= now_ms,
        ensures
            now_ms - self.last_update_ms < FRAME_INTERVAL_MS ==> d == FRAME_INTERVAL_MS - (now_ms
                - self.last_update_ms),
            now_ms - self.last_update_ms >= FRAME_INTERVAL_MS ==> d == 0,
    {
        let elapsed = now_ms - self.last_update_ms;
        if elapsed < FRAME_INTERVAL_MS {
            FRAME_INTERVAL_MS - elapsed
        } else {
            0
        }
    }

    /// Whether the loop should block until an event arrives: only when the
    /// poll came back empty and no redraw is owed, so an idle window does not
    /// spin.
    pub fn should_wait_for_event(&self, polled: usize) -> (r: bool)
        ensures
            r == (polled == 0 && !self.ui_needs_update),
    {
        polled == 0 && !self.ui_needs_update
    }

    /// Close an update cycle at the given time: the owed redraw is consumed
    /// and the pacing clock restarts.
    pub fn finish_cycle(&mut self, now_ms: u64)
        ensures
            !final(self).ui_needs_update,
            final(self).last_update_ms == now_ms,
    {
        self.ui_needs_update = false;
        self.last_update_ms = now_ms;
    }
}

} // verus!
