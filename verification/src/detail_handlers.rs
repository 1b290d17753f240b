//! The key handlers of the task details, its note and estimate fields, the
//! timer screen and the countdown field.
use vstd::prelude::*;

use crate::handlers::{input_set, outcome, outcome_input, plain, with_input};
use crate::state::{App, InputEdit, Key, KeyAction, KeyOutcome, ViewMode};
use crate::task::Task;
use crate::text::{decimal, is_digit, parse_u64, parsed_u64, push_decimal, trim_text, trimmed};
use crate::timer::{TimerKind, TimerState};

verus! {

/// The text the estimate field opens with: the estimate in hours, or
/// nothing when there is no estimate.
pub open spec fn estimate_text(hours: u64) -> Seq<char> {
    if hours > 0 {
        decimal(hours as nat)
    } else {
        Seq::empty()
    }
}

/// What the task details view does with a key.
pub open spec fn task_details_key(a: &App, b: &App, key: Key, out: KeyOutcome) -> bool {
    if key == Key::Char('e') {
        input_set(out, a.cur_task().note@) && *b == (App { view_mode: ViewMode::EditTaskNote, ..*a })
    } else if key == Key::Char('g') {
        input_set(out, estimate_text(a.cur_task().estimated_hours))
            && *b == (App { view_mode: ViewMode::SetTaskEstimate, ..*a })
    } else {
        plain(out, KeyAction::Proceed) && *b == (App { view_mode: ViewMode::ViewTasks, ..*a })
    }
}

/// What the task note field does with a key.
pub open spec fn edit_task_note_key(a: &App, b: &App, key: Key, input: Seq<char>, out: KeyOutcome) -> bool {
    if key == Key::Enter {
        with_input(out, InputEdit::Reset) && exists|m: App| #[trigger] Task::note_updated(a, &m, input)
            && *b == (App { view_mode: ViewMode::ViewTaskDetails, ..m })
    } else if key == Key::Esc {
        with_input(out, InputEdit::Reset) && *b == (App { view_mode: ViewMode::ViewTaskDetails, ..*a })
    } else {
        with_input(out, InputEdit::Forward) && *b == *a
    }
}

/// What the estimate field does with a key: Enter takes a whole number of
/// hours (an empty field leaves the estimate as it is), any other text
/// keeps the field open; only digits are typed into the field.
pub open spec fn set_estimate_key(a: &App, b: &App, key: Key, input: Seq<char>, out: KeyOutcome) -> bool {
    if key == Key::Enter {
        let raw = trimmed(input);
        match parsed_u64(raw) {
            Some(hours) => with_input(out, InputEdit::Reset) && exists|m: App| #[trigger] Task::estimate_updated(a, &m, hours)
                && *b == (App { view_mode: ViewMode::ViewTaskDetails, ..m }),
            None => if raw.len() == 0 {
                with_input(out, InputEdit::Reset) && *b == (App { view_mode: ViewMode::ViewTaskDetails, ..*a })
            } else {
                plain(out, KeyAction::Proceed) && *b == *a
            },
        }
    } else if key == Key::Esc {
        with_input(out, InputEdit::Reset) && *b == (App { view_mode: ViewMode::ViewTaskDetails, ..*a })
    } else if key matches Key::Char(c) && !is_digit(c) {
        plain(out, KeyAction::Proceed) && *b == *a
    } else {
        with_input(out, InputEdit::Forward) && *b == *a
    }
}

/// `b` is `a` after leaving a modal: the timer settled when it shows
/// `elapsed` nanoseconds, then back to the view that opened it.
pub open spec fn settled_and_back(a: &App, b: &App, elapsed: u128) -> bool {
    exists|m: App| #[trigger] App::settled_at(a, &m, elapsed) && *b == (App {
        view_mode: m.previous_view_mode,
        previous_view_mode: ViewMode::ViewProjects,
        ..m
    })
}

/// What the timer screen does with a key, `running` nanoseconds after the
/// timer's current start. A finished countdown is dismissed by any key
/// (the timer is settled and the screen left); otherwise space pauses a
/// running timer at that reading or resumes a paused one, Enter settles
/// the timer and leaves, Esc leaves with the timer still going.
pub open spec fn timer_key_at(a: &App, b: &App, key: Key, running: u128, out: KeyOutcome) -> bool {
    let elapsed = App::timer_elapsed(a, running);
    if a.timer matches Some(t) && t.finished_at(elapsed) {
        plain(out, KeyAction::Skip) && settled_and_back(a, b, elapsed)
    } else {
        plain(out, KeyAction::Proceed) && if key == Key::Char(' ') {
            match a.timer {
                Some(t) => *b == (App { timer: b.timer, ..*a }) && b.timer is Some && if t.running() {
                    t.paused_with(b.timer->0, running)
                } else {
                    t.resumed_to(b.timer->0)
                },
                None => *b == *a,
            }
        } else if key == Key::Enter {
            settled_and_back(a, b, elapsed)
        } else if key == Key::Esc {
            *b == (App { view_mode: a.previous_view_mode, previous_view_mode: ViewMode::ViewProjects, ..*a })
        } else {
            *b == *a
        }
    }
}

/// What the timer screen does with a key, at some reading of the clock.
pub open spec fn timer_key(a: &App, b: &App, key: Key, out: KeyOutcome) -> bool {
    exists|n: u128| #[trigger] timer_key_at(a, b, key, n, out)
}

/// What the countdown field does with a key, given `secs`, the seconds the
/// field's text stands for (0 when it is no number): a positive count
/// starts a countdown, an empty field goes back, any other text keeps the
/// field open; only digits and `.` are typed into the field.
pub open spec fn set_countdown_key(a: &App, b: &App, key: Key, input: Seq<char>, secs: u64, out: KeyOutcome) -> bool {
    if key == Key::Enter {
        if secs > 0 {
            &&& with_input(out, InputEdit::Reset)
            &&& *b == (App { view_mode: ViewMode::TimerTask, timer: b.timer, ..*a })
            &&& b.timer matches Some(t) && t.kind == TimerKind::Countdown && t.target_secs == secs
                && t.accumulated_nanos == 0 && t.running() && t.bound is None && !t.rung
        } else if trimmed(input).len() == 0 {
            with_input(out, InputEdit::Reset)
                && *b == (App { view_mode: a.previous_view_mode, previous_view_mode: ViewMode::ViewProjects, ..*a })
        } else {
            plain(out, KeyAction::Proceed) && *b == *a
        }
    } else if key == Key::Esc {
        with_input(out, InputEdit::Reset)
            && *b == (App { view_mode: a.previous_view_mode, previous_view_mode: ViewMode::ViewProjects, ..*a })
    } else if key matches Key::Char(c) && !is_digit(c) && c != '.' {
        plain(out, KeyAction::Proceed) && *b == *a
    } else {
        with_input(out, InputEdit::Forward) && *b == *a
    }
}

/// Whether `c` is an ASCII decimal digit.
pub fn is_ascii_digit(c: char) -> (r: bool)
    ensures
        r == is_digit(c),
{
    '0' <= c && c <= '9'
}

/// The text the estimate field opens with.
pub fn estimate_field(hours: u64) -> (r: String)
    ensures
        r@ == estimate_text(hours),
{
    let mut s = String::new();
    if hours > 0 {
        push_decimal(&mut s, hours);
    }
    s
}

impl App {
    /// Keys of the task details view: `e` edits the note, `g` the estimate,
    /// any other key closes the view.
    pub fn handle_view_task_details(&mut self, key: Key) -> (out: KeyOutcome)
        requires
            key == Key::Char('e') || key == Key::Char('g') ==> old(self).task_ok(),
        ensures
            task_details_key(old(self), final(self), key, out),
    {
        match key {
            Key::Char('e') => {
                let note = Task::get_current(self).note.clone();
                self.change_view(ViewMode::EditTaskNote);
                outcome_input(InputEdit::Replace(note))
            },
            Key::Char('g') => {
                let text = estimate_field(Task::get_current(self).estimated_hours);
                self.change_view(ViewMode::SetTaskEstimate);
                outcome_input(InputEdit::Replace(text))
            },
            _ => {
                self.change_view(ViewMode::ViewTasks);
                outcome(KeyAction::Proceed)
            },
        }
    }

    /// Keys of the task note field.
    pub fn handle_edit_task_note(&mut self, key: Key, input: &str) -> (out: KeyOutcome)
        requires
            key == Key::Enter ==> old(self).task_ok(),
        ensures
            edit_task_note_key(old(self), final(self), key, input@, out),
    {
        match key {
            Key::Enter => {
                Task::update_note(self, input);
                let ghost m = *self;
                self.change_view(ViewMode::ViewTaskDetails);
                assert(Task::note_updated(old(self), &m, input@));
                outcome_input(InputEdit::Reset)
            },
            Key::Esc => {
                self.change_view(ViewMode::ViewTaskDetails);
                outcome_input(InputEdit::Reset)
            },
            _ => outcome_input(InputEdit::Forward),
        }
    }

    /// Keys of the estimate field.
    pub fn handle_set_task_estimate(&mut self, key: Key, input: &str) -> (out: KeyOutcome)
        requires
            key == Key::Enter && parsed_u64(trimmed(input@)) is Some ==> old(self).task_ok(),
        ensures
            set_estimate_key(old(self), final(self), key, input@, out),
    {
        match key {
            Key::Enter => {
                let raw = trim_text(input);
                match parse_u64(raw.as_str()) {
                    Some(hours) => {
                        Task::update_estimate(self, hours);
                        let ghost m = *self;
                        self.change_view(ViewMode::ViewTaskDetails);
                        assert(Task::estimate_updated(old(self), &m, hours));
                        outcome_input(InputEdit::Reset)
                    },
                    None => {
                        if raw.as_str().is_empty() {
                            self.change_view(ViewMode::ViewTaskDetails);
                            outcome_input(InputEdit::Reset)
                        } else {
                            outcome(KeyAction::Proceed)
                        }
                    },
                }
            },
            Key::Esc => {
                self.change_view(ViewMode::ViewTaskDetails);
                outcome_input(InputEdit::Reset)
            },
            Key::Char(c) => {
                if !is_ascii_digit(c) {
                    outcome(KeyAction::Proceed)
                } else {
                    outcome_input(InputEdit::Forward)
                }
            },
            _ => outcome_input(InputEdit::Forward),
        }
    }

    /// Keys of the timer screen, with one reading of the clock (see
    /// `handle_timer_task_given`).
    pub fn handle_timer_task(&mut self, key: Key) -> (out: KeyOutcome)
        ensures
            timer_key(old(self), final(self), key, out),
    {
        let n = match &self.timer {
            Some(t) => t.clock_reading(),
            None => 0,
        };
        let out = self.handle_timer_task_given(key, n);
        assert(timer_key_at(old(self), self, key, n, out));
        out
    }

    /// Keys of the timer screen, `running_nanos` after the timer's current
    /// start: space pauses or resumes, Enter stops the timer and goes back,
    /// Esc goes back with the timer running; a finished countdown is
    /// dismissed by any key.
    pub fn handle_timer_task_given(&mut self, key: Key, running_nanos: u128) -> (out: KeyOutcome)
        ensures
            timer_key_at(old(self), final(self), key, running_nanos, out),
    {
        let elapsed = match &self.timer {
            Some(t) => t.elapsed_given(running_nanos),
            None => 0,
        };
        assert(elapsed == App::timer_elapsed(old(self), running_nanos));
        let finished = match &self.timer {
            Some(t) => t.is_finished_given(elapsed),
            None => false,
        };
        if finished {
            self.settle_given(elapsed);
            let ghost m = *self;
            self.back_to_previous_view();
            assert(App::settled_at(old(self), &m, elapsed));
            return outcome(KeyAction::Skip);
        }
        match key {
            Key::Char(' ') => {
                match &mut self.timer {
                    Some(timer) => {
                        if timer.is_running() {
                            timer.pause_given(running_nanos);
                        } else {
                            timer.resume();
                        }
                    },
                    None => {},
                }
            },
            Key::Enter => {
                self.settle_given(elapsed);
                let ghost m = *self;
                self.back_to_previous_view();
                assert(App::settled_at(old(self), &m, elapsed));
            },
            Key::Esc => {
                self.back_to_previous_view();
            },
            _ => {},
        }
        outcome(KeyAction::Proceed)
    }

    /// Keys of the countdown field; `secs` is what the field's text stands
    /// for in seconds (0 when it is no number).
    pub fn handle_set_countdown(&mut self, key: Key, input: &str, secs: u64) -> (out: KeyOutcome)
        ensures
            set_countdown_key(old(self), final(self), key, input@, secs, out),
    {
        match key {
            Key::Enter => {
                if secs > 0 {
                    self.timer = Some(TimerState::new_countdown(secs));
                    self.change_view(ViewMode::TimerTask);
                    outcome_input(InputEdit::Reset)
                } else {
                    let raw = trim_text(input);
                    if raw.as_str().is_empty() {
                        self.back_to_previous_view();
                        outcome_input(InputEdit::Reset)
                    } else {
                        outcome(KeyAction::Proceed)
                    }
                }
            },
            Key::Esc => {
                self.back_to_previous_view();
                outcome_input(InputEdit::Reset)
            },
            Key::Char(c) => {
                if !is_ascii_digit(c) && c != '.' {
                    outcome(KeyAction::Proceed)
                } else {
                    outcome_input(InputEdit::Forward)
                }
            },
            _ => outcome_input(InputEdit::Forward),
        }
    }
}

} // verus!
