//! Hands a pressed key to the handler of the current view mode.
use vstd::prelude::*;

use crate::detail_handlers::{set_countdown_key, set_estimate_key, task_details_key, edit_task_note_key, timer_key};
use crate::handlers::{
    add_project_key, add_task_key, change_priority_key, change_status_key, delete_project_key,
    delete_task_key, plain, projects_key, projects_key_ok, rename_project_key, rename_task_key,
    tasks_key, tasks_key_ok, no_current_task,
};
use crate::note_handlers::{
    add_note_key, delete_note_key, edit_note_key, editor_view, notes_key, rename_note_key, view_note_key,
};
use crate::state::{App, Key, KeyAction, KeyOutcome, ViewMode};
use crate::task::{priority_index, status_index};
use crate::text::{parse_u64, parsed_u64, trim_text, trimmed};

verus! {

/// When the current view can take a key: the keys that act on the selected
/// project, task or note need it (and the status and priority pickers a
/// valid row).
pub open spec fn key_ok(a: &App, key: Key, input: Seq<char>, editor_open: bool) -> bool {
    let enter_confirmed = crate::handlers::delete_confirmed(a, key);
    match a.view_mode {
        ViewMode::ViewProjects => projects_key_ok(a, key),
        ViewMode::RenameProject => key == Key::Enter ==> a.project_ok(),
        ViewMode::DeleteProject => enter_confirmed ==> a.project_ok(),
        ViewMode::ViewTasks => tasks_key_ok(a, key),
        ViewMode::RenameTask => key == Key::Enter ==> a.task_ok(),
        ViewMode::ChangeStatusTask => key == Key::Enter ==> a.task_ok() && a.selected_status_task_index.row is Some
            && a.selected_status_task_index.row->0 < 3,
        ViewMode::ChangePriorityTask => key == Key::Enter ==> a.task_ok() && a.selected_priority_task_index.row is Some
            && a.selected_priority_task_index.row->0 < 4,
        ViewMode::AddTask => key == Key::Enter && input.len() > 0 ==> a.project_ok(),
        ViewMode::DeleteTask => enter_confirmed ==> a.task_ok(),
        ViewMode::ViewTaskDetails => key == Key::Char('e') || key == Key::Char('g') ==> a.task_ok(),
        ViewMode::EditTaskNote => key == Key::Enter ==> a.task_ok(),
        ViewMode::SetTaskEstimate => key == Key::Enter && parsed_u64(trimmed(input)) is Some ==> a.task_ok(),
        ViewMode::ViewNotes => a.items@.len() > 0 && key == Key::Char('r') ==> a.note_ok(),
        ViewMode::RenameNote => key == Key::Enter ==> a.note_ok(),
        ViewMode::DeleteNote => enter_confirmed ==> a.note_ok(),
        ViewMode::ViewNote => key == Key::Char('e') ==> a.note_ok(),
        ViewMode::EditNote => key == Key::Esc && editor_open ==> a.note_ok(),
        _ => true,
    }
}

/// What a key does in the current view mode.
pub open spec fn key_handled(
    a: &App,
    b: &App,
    key: Key,
    input: Seq<char>,
    editor: Option<Seq<Seq<char>>>,
    secs: u64,
    out: KeyOutcome,
) -> bool {
    match a.view_mode {
        ViewMode::ViewProjects => projects_key(a, b, key, out),
        ViewMode::RenameProject => rename_project_key(a, b, key, input, out),
        ViewMode::AddProject => add_project_key(a, b, key, input, out),
        ViewMode::DeleteProject => delete_project_key(a, b, key, out),
        ViewMode::ViewTasks => tasks_key(a, b, key, out),
        ViewMode::RenameTask => rename_task_key(a, b, key, input, out),
        ViewMode::ChangeStatusTask => change_status_key(a, b, key, out),
        ViewMode::ChangePriorityTask => change_priority_key(a, b, key, out),
        ViewMode::AddTask => add_task_key(a, b, key, input, out),
        ViewMode::DeleteTask => delete_task_key(a, b, key, out),
        ViewMode::ViewTaskDetails => task_details_key(a, b, key, out),
        ViewMode::EditTaskNote => edit_task_note_key(a, b, key, input, out),
        ViewMode::SetTaskEstimate => set_estimate_key(a, b, key, input, out),
        ViewMode::TimerTask => timer_key(a, b, key, out),
        ViewMode::SetCountdown => set_countdown_key(a, b, key, input, secs, out),
        ViewMode::ViewHelp => plain(out, KeyAction::Proceed) && *b == (App {
            view_mode: a.previous_view_mode,
            previous_view_mode: ViewMode::ViewProjects,
            ..*a
        }),
        ViewMode::ViewNotes => notes_key(a, b, key, out),
        ViewMode::AddNote => add_note_key(a, b, key, input, out),
        ViewMode::RenameNote => rename_note_key(a, b, key, input, out),
        ViewMode::DeleteNote => delete_note_key(a, b, key, out),
        ViewMode::ViewNote => view_note_key(a, b, key, out),
        ViewMode::EditNote => edit_note_key(a, b, key, editor, out),
        ViewMode::InfoMigration => plain(out, KeyAction::Proceed) && *b == (App { view_mode: ViewMode::ViewProjects, ..*a }),
    }
}

impl App {
    fn project_selected(&self) -> (r: bool)
        ensures
            r == self.project_ok(),
    {
        match self.selected_project_index.selected() {
            Some(p) => p < self.projects.len(),
            None => false,
        }
    }

    fn task_selected(&self) -> (r: bool)
        ensures
            r == self.task_ok(),
    {
        if !self.project_selected() {
            return false;
        }
        let p = self.selected_project_index.selected().unwrap();
        match self.selected_task_index.selected() {
            Some(t) => t < self.projects[p].tasks.len(),
            None => false,
        }
    }

    fn note_selected(&self) -> (r: bool)
        ensures
            r == self.note_ok(),
    {
        match self.selected_note_index.selected() {
            Some(n) => n < self.notes.len(),
            None => false,
        }
    }

    fn task_view_accepts(&self, key: Key) -> (r: bool)
        ensures
            r == tasks_key_ok(self, key),
    {
        if self.board_view && !(self.project_selected() && self.board_lane < 3) {
            return false;
        }
        if (key == Key::Char('b') || key == Key::Char('t')) && !self.project_selected() {
            return false;
        }
        let none = if self.board_view {
            self.board_lane_is_empty()
        } else {
            self.items.len() == 0
        };
        assert(none == no_current_task(self));
        if none {
            return true;
        }
        let acts = key == Key::Enter || key == Key::Char('p') || key == Key::Char('r') || key == Key::Char('e')
            || (key == Key::Char('s') && self.timer.is_none());
        if acts && !self.task_selected() {
            return false;
        }
        if key == Key::Enter {
            let p = self.selected_project_index.selected().unwrap();
            let t = self.selected_task_index.selected().unwrap();
            return status_index(&self.projects[p].tasks[t].status).is_some();
        }
        if key == Key::Char('p') {
            let p = self.selected_project_index.selected().unwrap();
            let t = self.selected_task_index.selected().unwrap();
            return priority_index(self.projects[p].tasks[t].priority).is_some();
        }
        true
    }

    /// Whether the current view can take the key (see `key_ok`); where it
    /// cannot, the key would act on a selection that is not there.
    pub fn accepts(&self, key: Key, input: &str, editor_open: bool) -> (r: bool)
        ensures
            r == key_ok(self, key, input@, editor_open),
    {
        let enter_confirmed = crate::handlers::confirms_delete(self, key);
        match self.view_mode {
            ViewMode::ViewProjects => {
                !(self.items.len() > 0 && (key == Key::Enter || key == Key::Right || key == Key::Char('l')
                    || key == Key::Char('r'))) || self.project_selected()
            },
            ViewMode::RenameProject => key != Key::Enter || self.project_selected(),
            ViewMode::DeleteProject => !enter_confirmed || self.project_selected(),
            ViewMode::ViewTasks => self.task_view_accepts(key),
            ViewMode::RenameTask => key != Key::Enter || self.task_selected(),
            ViewMode::ChangeStatusTask => key != Key::Enter || (self.task_selected()
                && match self.selected_status_task_index.selected() {
                Some(i) => i < 3,
                None => false,
            }),
            ViewMode::ChangePriorityTask => key != Key::Enter || (self.task_selected()
                && match self.selected_priority_task_index.selected() {
                Some(i) => i < 4,
                None => false,
            }),
            ViewMode::AddTask => !(key == Key::Enter && !input.is_empty()) || self.project_selected(),
            ViewMode::DeleteTask => !enter_confirmed || self.task_selected(),
            ViewMode::ViewTaskDetails => !(key == Key::Char('e') || key == Key::Char('g')) || self.task_selected(),
            ViewMode::EditTaskNote => key != Key::Enter || self.task_selected(),
            ViewMode::SetTaskEstimate => {
                if key != Key::Enter {
                    true
                } else {
                    let raw = trim_text(input);
                    parse_u64(raw.as_str()).is_none() || self.task_selected()
                }
            },
            ViewMode::ViewNotes => !(self.items.len() > 0 && key == Key::Char('r')) || self.note_selected(),
            ViewMode::RenameNote => key != Key::Enter || self.note_selected(),
            ViewMode::DeleteNote => !enter_confirmed || self.note_selected(),
            ViewMode::ViewNote => key != Key::Char('e') || self.note_selected(),
            ViewMode::EditNote => !(key == Key::Esc && editor_open) || self.note_selected(),
            _ => true,
        }
    }

    /// Handles a pressed key in the current view mode. `input` is the text
    /// of the input field, `editor` the lines of the note editor when it is
    /// open, and `secs` the seconds the countdown field's text stands for
    /// (0 when it is no number).
    pub fn handle_key(&mut self, key: Key, input: &str, editor: Option<Vec<String>>, secs: u64) -> (out: KeyOutcome)
        requires
            key_ok(old(self), key, input@, editor is Some),
        ensures
            key_handled(old(self), final(self), key, input@, editor_view(editor), secs, out),
    {
        match self.view_mode {
            ViewMode::ViewProjects => self.handle_view_projects(key),
            ViewMode::RenameProject => self.handle_rename_project(key, input),
            ViewMode::AddProject => self.handle_add_project(key, input),
            ViewMode::DeleteProject => self.handle_delete_project(key),
            ViewMode::ViewTasks => self.handle_view_tasks(key),
            ViewMode::RenameTask => self.handle_rename_task(key, input),
            ViewMode::ChangeStatusTask => self.handle_change_status_task(key),
            ViewMode::ChangePriorityTask => self.handle_change_priority_task(key),
            ViewMode::AddTask => self.handle_add_task(key, input),
            ViewMode::DeleteTask => self.handle_delete_task(key),
            ViewMode::ViewTaskDetails => self.handle_view_task_details(key),
            ViewMode::EditTaskNote => self.handle_edit_task_note(key, input),
            ViewMode::SetTaskEstimate => self.handle_set_task_estimate(key, input),
            ViewMode::TimerTask => self.handle_timer_task(key),
            ViewMode::SetCountdown => self.handle_set_countdown(key, input, secs),
            ViewMode::ViewHelp => {
                self.back_to_previous_view();
                crate::handlers::outcome(KeyAction::Proceed)
            },
            ViewMode::ViewNotes => self.handle_view_notes(key),
            ViewMode::AddNote => self.handle_add_note(key, input),
            ViewMode::RenameNote => self.handle_rename_note(key, input),
            ViewMode::DeleteNote => self.handle_delete_note(key),
            ViewMode::ViewNote => self.handle_view_note(key),
            ViewMode::EditNote => self.handle_edit_note(key, editor),
            ViewMode::InfoMigration => {
                self.change_view(ViewMode::ViewProjects);
                crate::handlers::outcome(KeyAction::Proceed)
            },
        }
    }
}

} // verus!
