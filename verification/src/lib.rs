//! basilk: a terminal kanban task manager's logic, verified.
//!
//! Projects hold tasks with a status (Up Next, On Going, Done) and a
//! priority; global notes hold Markdown. The library keeps the application
//! state and decides what every key press does to it, what each screen
//! shows, how the data file is migrated between versions, and how the
//! stopwatch and countdown timers run. Terminal drawing, the data file on
//! disk and the event loop are the caller's.
use vstd::prelude::*;

pub mod clock;
pub mod detail_handlers;
pub mod dispatch;
pub mod handlers;
pub mod json;
pub mod laws;
pub mod markdown;
pub mod migration;
pub mod note;
pub mod note_handlers;
pub mod project;
pub mod selection;
pub mod seqs;
pub mod state;
pub mod style;
pub mod task;
pub mod text;
pub mod timer;
pub mod ui;
pub mod util;
pub mod view;

verus! {

} // verus!
