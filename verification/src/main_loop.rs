//! The main loop as a state machine.
//!
//! The binary that owns the window runs one [`AppLoop::frame`] per iteration,
//! handing it the window events it collected and the widget interactions the
//! toolkit reported. The frame decides everything: an exit event stops the
//! loop before any widget work, and a stopped loop never changes again. The
//! caller only performs what was decided — it draws while `running` holds and
//! tears the window down when it no longer does.

use vstd::prelude::*;

use crate::event_loop::WindowEvent;
use crate::event_loop::contains_exit;
use crate::event_loop::exit_requested;
use crate::widgets::TextBoxEvent;
use crate::widgets::UiState;
use crate::widgets::click_rejects;
use crate::widgets::click_result;
use crate::widgets::input_after_events;
use crate::widgets::set_widgets;

verus! {

/// The whole state the main loop owns: whether it still runs, and the widget
/// state it renders.
pub struct AppLoop {
    pub running: bool,
    pub state: UiState,
}

/// What one frame leaves of the loop: a stopped loop is inert; an exit event
/// stops it with the widgets untouched; otherwise the widget pass runs.
pub open spec fn frame_spec(
    running: bool,
    input: Seq<char>,
    result: Seq<char>,
    wevs: Seq<WindowEvent>,
    tevs: Seq<TextBoxEvent>,
    clicked: bool,
) -> (bool, Seq<char>, Seq<char>) {
    if !running {
        (false, input, result)
    } else if contains_exit(wevs) {
        (false, input, result)
    } else {
        (
            true,
            input_after_events(input, tevs),
            if clicked {
                click_result(input_after_events(input, tevs), result)
            } else {
                result
            },
        )
    }
}

impl AppLoop {
    /// The loop at startup: running, with the initial widget state.
    pub fn new() -> (r: Self)
        ensures
            r.running,
            r.state.input@ == "0"@,
            r.state.result@ == "1"@,
            r.state.wf(),
    {
        AppLoop { running: true, state: UiState::new() }
    }

    /// One iteration of the main loop over the events the caller collected.
    /// The returned flag reports a rejected click of this frame, on which
    /// the caller may log a diagnostic.
    pub fn frame(
        &mut self,
        window_events: &Vec<WindowEvent>,
        text_events: &Vec<TextBoxEvent>,
        clicked: bool,
    ) -> (rejected: bool)
        ensures
            (final(self).running, final(self).state.input@, final(self).state.result@)
                == frame_spec(
                old(self).running,
                old(self).state.input@,
                old(self).state.result@,
                window_events@,
                text_events@,
                clicked,
            ),
            rejected == (old(self).running && !contains_exit(window_events@) && clicked
                && click_rejects(input_after_events(old(self).state.input@, text_events@))),
            old(self).state.wf() ==> final(self).state.wf(),
    {
        if !self.running {
            return false;
        }
        if exit_requested(window_events) {
            self.running = false;
            return false;
        }
        set_widgets(&mut self.state, text_events, clicked)
    }
}

/// An exit event stops the loop in the frame that sees it, leaving the
/// widget state untouched, and a stopped loop is final: whatever later
/// frames observe, nothing changes any more.
pub proof fn lemma_exit_stops_loop(
    input: Seq<char>,
    result: Seq<char>,
    wevs: Seq<WindowEvent>,
    tevs: Seq<TextBoxEvent>,
    clicked: bool,
    wevs2: Seq<WindowEvent>,
    tevs2: Seq<TextBoxEvent>,
    clicked2: bool,
)
    requires
        contains_exit(wevs),
    ensures
        frame_spec(true, input, result, wevs, tevs, clicked) == (false, input, result),
        frame_spec(false, input, result, wevs2, tevs2, clicked2) == (false, input, result),
{
}

} // verus!
