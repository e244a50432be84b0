//! The widget state and its transitions.
//!
//! The window shows a text box bound to [`UiState::input`], a button, and a
//! result label bound to [`UiState::result`]. Each frame the toolkit reports
//! the text-box events and whether the button was clicked; [`set_widgets`]
//! applies them. A click parses the input as a `u64` and, when that succeeds,
//! shows its successor; otherwise the result label keeps its prior text.

use vstd::prelude::*;

use crate::num::dec_repr;
use crate::num::increment;
use crate::num::lemma_dec_repr_parses_back;
use crate::num::parse_spec;
use crate::num::parse_u64;
use crate::num::u64_to_string;

verus! {

/// What the text box reports for a frame: the user pressed enter, or edited
/// the contents to a new value.
pub enum TextBoxEvent {
    Enter,
    Update(String),
}

/// The two pieces of mutable state behind the window: the raw text-box
/// contents and the text of the result label.
pub struct UiState {
    pub input: String,
    pub result: String,
}

/// A result label is well formed when it shows some positive number in
/// decimal: the initial "1", or a successfully parsed input plus one.
pub open spec fn result_wf(r: Seq<char>) -> bool {
    exists|m: u64| 1 <= m && r == dec_repr(m as nat)
}

/// A well-formed result label always shows a readable number: its text
/// parses back to a positive value. So whatever was clicked and typed, what
/// the window displays as the result is never garbage.
pub proof fn lemma_result_parses(r: Seq<char>)
    requires
        result_wf(r),
    ensures
        exists|m: u64| 1 <= m && parse_spec(r) == Some(m),
{
    let m = choose|m: u64| 1 <= m && r == dec_repr(m as nat);
    lemma_dec_repr_parses_back(m);
}

/// The input text after one text-box event: an edit replaces it, enter
/// leaves it as it is.
pub open spec fn input_after_event(input: Seq<char>, ev: TextBoxEvent) -> Seq<char> {
    match ev {
        TextBoxEvent::Update(s) => s@,
        TextBoxEvent::Enter => input,
    }
}

/// The input text after a frame's text-box events, applied in order.
pub open spec fn input_after_events(input: Seq<char>, evs: Seq<TextBoxEvent>) -> Seq<char>
    decreases evs.len(),
{
    if evs.len() == 0 {
        input
    } else {
        input_after_event(input_after_events(input, evs.drop_last()), evs.last())
    }
}

/// A click is rejected when the input does not parse as a `u64`, or parses
/// to the one value whose successor does not fit; a rejected click owes the
/// user a diagnostic and changes nothing.
pub open spec fn click_rejects(input: Seq<char>) -> bool {
    match parse_spec(input) {
        Some(n) => n == u64::MAX,
        None => true,
    }
}

/// The result label after a button click: the successor of the parsed input
/// in decimal, or the prior text when the input does not parse or has no
/// successor in `u64`.
pub open spec fn click_result(input: Seq<char>, result: Seq<char>) -> Seq<char> {
    match parse_spec(input) {
        Some(n) => if n < u64::MAX {
            dec_repr((n + 1) as nat)
        } else {
            result
        },
        None => result,
    }
}

impl UiState {
    /// The state is well formed when the result label is.
    pub open spec fn wf(&self) -> bool {
        result_wf(self.result@)
    }

    /// The state at startup: the text box holds "0", the result label "1".
    pub fn new() -> (r: Self)
        ensures
            r.input@ == "0"@,
            r.result@ == "1"@,
            r.wf(),
    {
        proof {
            reveal_strlit("0");
            reveal_strlit("1");
        }
        let r = UiState { input: String::from_str("0"), result: String::from_str("1") };
        proof {
            assert(dec_repr(1nat) =~= seq!['1']);
            assert(r.result@ =~= dec_repr(1u64 as nat));
        }
        r
    }

    /// Apply one text-box event: an edit replaces the input text, enter
    /// changes nothing.
    pub fn handle_text_box_event(&mut self, ev: &TextBoxEvent)
        ensures
            final(self).input@ == input_after_event(old(self).input@, *ev),
            final(self).result@ == old(self).result@,
    {
        match ev {
            TextBoxEvent::Update(s) => {
                self.input = s.clone();
            },
            TextBoxEvent::Enter => {},
        }
    }

    /// Apply a button click: parse the input text and show its successor.
    /// Input that does not parse, and the one parsed value with no successor
    /// in `u64`, leave the result label unchanged; the returned flag says so,
    /// and the caller may log a diagnostic on it.
    pub fn handle_button_click(&mut self) -> (rejected: bool)
        ensures
            final(self).input@ == old(self).input@,
            final(self).result@ == click_result(old(self).input@, old(self).result@),
            rejected == click_rejects(old(self).input@),
            old(self).wf() ==> final(self).wf(),
    {
        match parse_u64(self.input.as_str()) {
            Some(num) => {
                if num < u64::MAX {
                    let next = increment(num);
                    self.result = u64_to_string(next);
                    proof {
                        assert(1 <= next && self.result@ == dec_repr(next as nat));
                    }
                    false
                } else {
                    true
                }
            },
            None => true,
        }
    }
}

/// One widget pass over the state, as a frame performs it: the text-box
/// events in order, then the button click if there was one. The returned
/// flag reports a rejected click, on which the caller may log a diagnostic.
pub fn set_widgets(state: &mut UiState, events: &Vec<TextBoxEvent>, clicked: bool) -> (rejected:
    bool)
    ensures
        final(state).input@ == input_after_events(old(state).input@, events@),
        final(state).result@ == if clicked {
            click_result(input_after_events(old(state).input@, events@), old(state).result@)
        } else {
            old(state).result@
        },
        rejected == (clicked && click_rejects(input_after_events(old(state).input@, events@))),
        old(state).wf() ==> final(state).wf(),
{
    let n = events.len();
    let mut i: usize = 0;
    while i < n
        invariant
            i <= n,
            n == events@.len(),
            state.input@ == input_after_events(old(state).input@, events@.subrange(0, i as int)),
            state.result@ == old(state).result@,
        decreases n - i,
    {
        state.handle_text_box_event(&events[i]);
        proof {
            assert(events@.subrange(0, i + 1).drop_last() =~= events@.subrange(0, i as int));
            assert(events@.subrange(0, i + 1).last() == events@[i as int]);
        }
        i += 1;
    }
    proof {
        assert(events@.subrange(0, n as int) =~= events@);
    }
    if clicked {
        state.handle_button_click()
    } else {
        false
    }
}

} // verus!
