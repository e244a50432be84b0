//! A small calculator library behind a one-button GUI: a text box holds a
//! number, a button press parses it and shows its successor.
//!
//! The crate holds the logic of that program: the successor function itself,
//! decimal parsing and formatting, the widget state transitions driven by
//! text-box edits and button clicks, and the frame-pacing and shutdown
//! decisions of the main loop. Window creation, font loading and rendering
//! live outside, in the binary that links this crate.

pub mod event_loop;
pub mod main_loop;
pub mod num;
pub mod widgets;
