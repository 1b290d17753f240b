//! The key handlers of each view mode.
use vstd::prelude::*;

use crate::note::{notes_listed, Note};
use crate::project::{projects_listed, Project};
use crate::selection::Selection;
use crate::state::{App, EditorEdit, InputEdit, Key, KeyAction, KeyOutcome, ListId, ViewMode, sync_target};
use crate::task::{board_after, Task};

verus! {

/// An outcome that only tells the loop what to do.
pub open spec fn plain(out: KeyOutcome, action: KeyAction) -> bool {
    out == KeyOutcome { action, input: InputEdit::Keep, editor: EditorEdit::Keep }
}

/// An outcome that also edits the input field.
pub open spec fn with_input(out: KeyOutcome, input: InputEdit) -> bool {
    out.action == KeyAction::Proceed && out.input == input && out.editor == EditorEdit::Keep
}

/// An outcome that replaces the input field's text.
pub open spec fn input_set(out: KeyOutcome, text: Seq<char>) -> bool {
    &&& out.action == KeyAction::Proceed
    &&& out.editor == EditorEdit::Keep
    &&& match out.input {
        InputEdit::Replace(s) => s@ == text,
        _ => false,
    }
}

pub fn outcome(action: KeyAction) -> (r: KeyOutcome)
    ensures
        plain(r, action),
{
    KeyOutcome { action, input: InputEdit::Keep, editor: EditorEdit::Keep }
}

pub fn outcome_input(input: InputEdit) -> (r: KeyOutcome)
    ensures
        with_input(r, input),
{
    KeyOutcome { action: KeyAction::Proceed, input, editor: EditorEdit::Keep }
}

/// Keys that move down a list.
pub open spec fn is_down(key: Key) -> bool {
    key == Key::Down || key == Key::Tab || key == Key::Char('j')
}

/// Keys that move up a list.
pub open spec fn is_up(key: Key) -> bool {
    key == Key::Up || key == Key::BackTab || key == Key::Char('k')
}

/// `b` is `a` after opening the task list of the selected project: tasks
/// reloaded, the first row selected, the board synced to it.
pub open spec fn tasks_opened(a: &App, b: &App) -> bool {
    exists|m: App| #[trigger] Task::loaded(a, &m) && {
        &&& *b == App {
            view_mode: ViewMode::ViewTasks,
            selected_task_index: Selection { row: Some(0) },
            board_lane: b.board_lane,
            board_lane_states: b.board_lane_states,
            ..m
        }
        &&& if m.board_view {
            board_after(&m, sync_target(m.projects@, m.selected_project_index.row, Some(0)), b)
        } else {
            b.board_lane == m.board_lane && b.board_lane_states == m.board_lane_states
        }
    }
}

/// What the project list does with a key.
pub open spec fn projects_key(a: &App, b: &App, key: Key, out: KeyOutcome) -> bool {
    let empty = a.items@.len() == 0;
    if key == Key::Char('h') {
        plain(out, KeyAction::Proceed) && *b == App { previous_view_mode: ViewMode::ViewProjects, view_mode: ViewMode::ViewHelp, ..*a }
    } else if key == Key::Enter || key == Key::Right || key == Key::Char('l') {
        if empty { plain(out, KeyAction::Skip) && *b == *a } else { plain(out, KeyAction::Proceed) && tasks_opened(a, b) }
    } else if key == Key::Char('r') {
        if empty {
            plain(out, KeyAction::Skip) && *b == *a
        } else {
            input_set(out, a.projects@[a.pidx()].title@) && *b == App { view_mode: ViewMode::RenameProject, ..*a }
        }
    } else if key == Key::Char('n') {
        with_input(out, InputEdit::Reset) && *b == App { view_mode: ViewMode::AddProject, ..*a }
    } else if key == Key::Char('d') {
        if empty { plain(out, KeyAction::Skip) && *b == *a } else { plain(out, KeyAction::Proceed) && *b == App { view_mode: ViewMode::DeleteProject, ..*a } }
    } else if is_down(key) {
        plain(out, KeyAction::Proceed) && (if empty { *b == *a } else {
            a.with_sel(ListId::Projects, Selection { row: Some(crate::state::step_down(a.selected_project_index.row, a.items@.len())) }, b)
        })
    } else if is_up(key) {
        plain(out, KeyAction::Proceed) && (if empty { *b == *a } else {
            a.with_sel(ListId::Projects, Selection { row: Some(crate::state::step_up(a.selected_project_index.row, a.items@.len())) }, b)
        })
    } else if key == Key::Char('c') {
        if a.timer is Some {
            plain(out, KeyAction::Proceed) && *b == App { previous_view_mode: ViewMode::ViewProjects, view_mode: ViewMode::TimerTask, ..*a }
        } else {
            with_input(out, InputEdit::Reset) && *b == App { previous_view_mode: ViewMode::ViewProjects, view_mode: ViewMode::SetCountdown, ..*a }
        }
    } else if key == Key::Char('m') {
        plain(out, KeyAction::Proceed) && exists|m: App| #[trigger] notes_listed(a, &m) && *b == App { view_mode: ViewMode::ViewNotes, ..m }
    } else if key == Key::Char('q') {
        plain(out, KeyAction::Quit) && *b == *a
    } else {
        plain(out, KeyAction::Proceed) && *b == *a
    }
}

/// When the project list can take a key: opening or renaming needs the
/// selected project.
pub open spec fn projects_key_ok(a: &App, key: Key) -> bool {
    (a.items@.len() > 0 && (key == Key::Enter || key == Key::Right || key == Key::Char('l')
        || key == Key::Char('r'))) ==> a.project_ok()
}

impl App {
    /// Keys of the project list.
    pub fn handle_view_projects(&mut self, key: Key) -> (out: KeyOutcome)
        requires
            old(self).view_mode == ViewMode::ViewProjects,
            projects_key_ok(old(self), key),
        ensures
            projects_key(old(self), final(self), key, out),
    {
        let empty = self.items.len() == 0;
        match key {
            Key::Char('h') => {
                self.previous_view_mode = ViewMode::ViewProjects;
                self.change_view(ViewMode::ViewHelp);
                outcome(KeyAction::Proceed)
            },
            Key::Enter | Key::Right | Key::Char('l') => {
                if empty {
                    return outcome(KeyAction::Skip);
                }
                Task::load_items(self);
                let ghost m = *self;
                self.selected_task_index.select(Some(0));
                if self.board_view {
                    self.board_sync();
                }
                self.change_view(ViewMode::ViewTasks);
                assert(Task::loaded(old(self), &m));
                outcome(KeyAction::Proceed)
            },
            Key::Char('r') => {
                if empty {
                    return outcome(KeyAction::Skip);
                }
                let title = Project::get_current(self).title.clone();
                self.change_view(ViewMode::RenameProject);
                outcome_input(InputEdit::Replace(title))
            },
            Key::Char('n') => {
                self.change_view(ViewMode::AddProject);
                outcome_input(InputEdit::Reset)
            },
            Key::Char('d') => {
                if empty {
                    return outcome(KeyAction::Skip);
                }
                self.change_view(ViewMode::DeleteProject);
                outcome(KeyAction::Proceed)
            },
            Key::Down | Key::Tab | Key::Char('j') => {
                let n = self.items.len();
                self.next(n);
                outcome(KeyAction::Proceed)
            },
            Key::Up | Key::BackTab | Key::Char('k') => {
                let n = self.items.len();
                self.previous(n);
                outcome(KeyAction::Proceed)
            },
            Key::Char('c') => {
                self.previous_view_mode = ViewMode::ViewProjects;
                if self.timer.is_some() {
                    self.change_view(ViewMode::TimerTask);
                    outcome(KeyAction::Proceed)
                } else {
                    self.change_view(ViewMode::SetCountdown);
                    outcome_input(InputEdit::Reset)
                }
            },
            Key::Char('m') => {
                Note::load_items(self);
                let ghost m = *self;
                self.change_view(ViewMode::ViewNotes);
                assert(notes_listed(old(self), &m));
                outcome(KeyAction::Proceed)
            },
            Key::Char('q') => outcome(KeyAction::Quit),
            _ => outcome(KeyAction::Proceed),
        }
    }
}

} // verus!

verus! {

/// Keys of an input field: Enter confirms, Esc cancels, anything else is
/// typed into the field.
pub open spec fn typing_key(key: Key) -> bool {
    key != Key::Enter && key != Key::Esc
}

/// What renaming a project does with a key.
pub open spec fn rename_project_key(a: &App, b: &App, key: Key, input: Seq<char>, out: KeyOutcome) -> bool {
    if key == Key::Enter {
        with_input(out, InputEdit::Reset) && exists|m: App| #[trigger] Project::renamed(a, &m, input)
            && *b == (App { view_mode: ViewMode::ViewProjects, ..m })
    } else if key == Key::Esc {
        with_input(out, InputEdit::Reset) && *b == (App { view_mode: ViewMode::ViewProjects, ..*a })
    } else {
        with_input(out, InputEdit::Forward) && *b == *a
    }
}

/// What adding a project does with a key: a non-empty title creates the
/// project and selects it.
pub open spec fn add_project_key(a: &App, b: &App, key: Key, input: Seq<char>, out: KeyOutcome) -> bool {
    if key == Key::Enter {
        plain(out, KeyAction::Proceed) && if input.len() > 0 {
            exists|m: App| #[trigger] Project::created(a, &m, input) && *b == (App {
                view_mode: ViewMode::ViewProjects,
                selected_project_index: Selection { row: Some((m.projects@.len() - 1) as usize) },
                ..m
            })
        } else {
            *b == (App { view_mode: ViewMode::ViewProjects, ..*a })
        }
    } else if key == Key::Esc {
        plain(out, KeyAction::Proceed) && *b == (App { view_mode: ViewMode::ViewProjects, ..*a })
    } else {
        with_input(out, InputEdit::Forward) && *b == *a
    }
}

/// The timer after the project at `deleted` is gone: a timer bound to it is
/// dropped, bindings to later projects shift down by one.
pub open spec fn timer_after_project_delete(t: Option<crate::timer::TimerState>, deleted: usize) -> Option<crate::timer::TimerState> {
    match t {
        Some(timer) => match timer.bound {
            Some(bd) => if bd.project_index == deleted {
                None
            } else if bd.project_index > deleted {
                Some(crate::timer::TimerState {
                    bound: Some(crate::timer::TimerTaskBinding { project_index: (bd.project_index - 1) as usize, ..bd }),
                    ..timer
                })
            } else {
                Some(timer)
            },
            None => Some(timer),
        },
        None => None,
    }
}

/// Keys that answer a delete confirmation: Enter on the selected row, `y`
/// to confirm, `n` to cancel.
pub open spec fn delete_answer(key: Key) -> bool {
    key == Key::Enter || key == Key::Char('y') || key == Key::Char('n')
}

/// Whether an answer confirms the delete: `y`, or Enter on "Confirm".
pub open spec fn delete_confirmed(a: &App, key: Key) -> bool {
    key == Key::Char('y') || (key == Key::Enter && a.delete_confirm_index.row == Some(crate::ui::DELETE_CONFIRM_INDEX))
}

/// The delete confirmation's selection after an answer: back on "Cancel".
pub open spec fn cancel_row() -> Selection {
    Selection { row: Some(crate::ui::DELETE_CANCEL_INDEX) }
}

/// Whether an answer confirms the delete.
pub fn confirms_delete(a: &App, key: Key) -> (r: bool)
    ensures
        r == delete_confirmed(a, key),
{
    key == Key::Char('y') || (key == Key::Enter && a.delete_confirm_index.selected() == Some(crate::ui::DELETE_CONFIRM_INDEX))
}

/// What the project delete confirmation does with a key.
pub open spec fn delete_project_key(a: &App, b: &App, key: Key, out: KeyOutcome) -> bool {
    if App::modal_nav(a, b, key, 2, ViewMode::ViewProjects, true) {
        plain(out, KeyAction::Skip)
    } else if delete_answer(key) {
        plain(out, KeyAction::Proceed) && if delete_confirmed(a, key) {
            exists|m: App| #[trigger] Project::deleted(a, &m) && *b == (App {
                view_mode: ViewMode::ViewProjects,
                delete_confirm_index: cancel_row(),
                selected_project_index: Selection { row: Some(if a.pidx() == 0 { 0usize } else { (a.pidx() - 1) as usize }) },
                timer: timer_after_project_delete(m.timer, a.pidx() as usize),
                ..m
            })
        } else {
            *b == (App { view_mode: ViewMode::ViewProjects, delete_confirm_index: cancel_row(), ..*a })
        }
    } else {
        plain(out, KeyAction::Proceed) && *b == *a
    }
}

impl App {
    /// Keys of the project rename field.
    pub fn handle_rename_project(&mut self, key: Key, input: &str) -> (out: KeyOutcome)
        requires
            key == Key::Enter ==> old(self).project_ok(),
        ensures
            rename_project_key(old(self), final(self), key, input@, out),
    {
        match key {
            Key::Enter => {
                Project::rename(self, input);
                let ghost m = *self;
                self.change_view(ViewMode::ViewProjects);
                assert(Project::renamed(old(self), &m, input@));
                outcome_input(InputEdit::Reset)
            },
            Key::Esc => {
                self.change_view(ViewMode::ViewProjects);
                outcome_input(InputEdit::Reset)
            },
            _ => outcome_input(InputEdit::Forward),
        }
    }

    /// Keys of the new project field.
    pub fn handle_add_project(&mut self, key: Key, input: &str) -> (out: KeyOutcome)
        ensures
            add_project_key(old(self), final(self), key, input@, out),
    {
        match key {
            Key::Esc => {
                self.change_view(ViewMode::ViewProjects);
                outcome(KeyAction::Proceed)
            },
            Key::Enter => {
                if !input.is_empty() {
                    Project::create(self, input);
                    let ghost m = *self;
                    proof {
                        assert(m.projects@.len() == old(self).projects@.len() + 1) by {
                            let w = choose|w: App| #[trigger] projects_listed(&w, &m) && w.projects@.len() == old(self).projects@.len() + 1;
                        }
                    }
                    let n = self.projects.len();
                    self.selected_project_index.select(Some(n - 1));
                    self.change_view(ViewMode::ViewProjects);
                    assert(Project::created(old(self), &m, input@));
                } else {
                    self.change_view(ViewMode::ViewProjects);
                }
                outcome(KeyAction::Proceed)
            },
            _ => outcome_input(InputEdit::Forward),
        }
    }

    /// Keys of the project delete confirmation.
    pub fn handle_delete_project(&mut self, key: Key) -> (out: KeyOutcome)
        requires
            old(self).view_mode == ViewMode::DeleteProject,
            delete_confirmed(old(self), key) ==> old(self).project_ok(),
        ensures
            delete_project_key(old(self), final(self), key, out),
    {
        if self.handle_modal_nav(key, 2, ViewMode::ViewProjects) {
            return outcome(KeyAction::Skip);
        }
        if key == Key::Enter || key == Key::Char('y') || key == Key::Char('n') {
            if confirms_delete(self, key) {
                let deleted_index = self.selected_project_index.selected().unwrap();
                Project::delete(self);
                let ghost m = *self;
                self.selected_project_index.select_previous();
                let bound_index = match &self.timer {
                    Some(t) => match &t.bound {
                        Some(b) => Some(b.project_index),
                        None => None,
                    },
                    None => None,
                };
                if bound_index == Some(deleted_index) {
                    self.timer = None;
                } else {
                    match &mut self.timer {
                        Some(timer) => match &mut timer.bound {
                            Some(bound) => {
                                if bound.project_index > deleted_index {
                                    bound.project_index = bound.project_index - 1;
                                }
                            },
                            None => {},
                        },
                        None => {},
                    }
                }
                self.delete_confirm_index.select(Some(crate::ui::DELETE_CANCEL_INDEX));
                self.change_view(ViewMode::ViewProjects);
                assert(Project::deleted(old(self), &m));
            } else {
                self.delete_confirm_index.select(Some(crate::ui::DELETE_CANCEL_INDEX));
                self.change_view(ViewMode::ViewProjects);
            }
        }
        outcome(KeyAction::Proceed)
    }
}

} // verus!

verus! {

/// Whether task actions have no target: on the board, the focused lane is
/// empty; in the list, the list is.
pub open spec fn no_current_task(a: &App) -> bool {
    if a.board_view {
        crate::state::lane_rows(a.cur_tasks(), a.board_lane as int).len() == 0
    } else {
        a.items@.len() == 0
    }
}

/// Keys that act on the selected task.
pub open spec fn task_action_key(key: Key) -> bool {
    key == Key::Enter || key == Key::Char('p') || key == Key::Char('r') || key == Key::Char('e')
        || key == Key::Char('d') || key == Key::Char('v')
}

/// When the task view can take a key: the board needs the selected project
/// and a valid lane; reloading needs the selected project; acting on the
/// selected task needs it, with a known status for Enter and a known
/// priority for `p`.
pub open spec fn tasks_key_ok(a: &App, key: Key) -> bool {
    &&& a.board_view ==> a.project_ok() && a.board_lane < 3
    &&& (key == Key::Char('b') || key == Key::Char('t')) ==> a.project_ok()
    &&& !no_current_task(a) && (key == Key::Enter || key == Key::Char('p') || key == Key::Char('r')
        || key == Key::Char('e') || (key == Key::Char('s') && a.timer is None)) ==> a.task_ok()
    &&& !no_current_task(a) && key == Key::Enter ==> crate::task::status_position(a.cur_task().status@) is Some
    &&& !no_current_task(a) && key == Key::Char('p') ==> crate::task::priority_position(a.cur_task().priority) is Some
}

/// `b` is `a` after leaving for the project list.
pub open spec fn back_to_projects(a: &App, b: &App) -> bool {
    exists|m: App| #[trigger] projects_listed(a, &m) && *b == (App { view_mode: ViewMode::ViewProjects, ..m })
}

/// What the task view does with a key.
pub open spec fn tasks_key(a: &App, b: &App, key: Key, out: KeyOutcome) -> bool {
    let none = no_current_task(a);
    if key == Key::Char('h') {
        plain(out, KeyAction::Proceed) && *b == (App { previous_view_mode: ViewMode::ViewTasks, view_mode: ViewMode::ViewHelp, ..*a })
    } else if key == Key::Esc {
        plain(out, KeyAction::Proceed) && back_to_projects(a, b)
    } else if key == Key::Left {
        plain(out, KeyAction::Proceed) && if a.board_view { App::lane_switched(a, b, false) } else { back_to_projects(a, b) }
    } else if key == Key::Right {
        plain(out, KeyAction::Proceed) && if a.board_view { App::lane_switched(a, b, true) } else { *b == *a }
    } else if key == Key::Char('b') {
        plain(out, KeyAction::Proceed) && Task::loaded(&App { board_view: !a.board_view, ..*a }, b)
    } else if task_action_key(key) && none {
        plain(out, KeyAction::Skip) && *b == *a
    } else if key == Key::Enter {
        plain(out, KeyAction::Proceed) && *b == (App {
            view_mode: ViewMode::ChangeStatusTask,
            selected_status_task_index: Selection { row: Some(crate::task::status_position(a.cur_task().status@)->0 as usize) },
            ..*a
        })
    } else if key == Key::Char('p') {
        plain(out, KeyAction::Proceed) && *b == (App {
            view_mode: ViewMode::ChangePriorityTask,
            selected_priority_task_index: Selection { row: Some(crate::task::priority_position(a.cur_task().priority)->0 as usize) },
            ..*a
        })
    } else if key == Key::Char('r') {
        input_set(out, a.cur_task().title@) && *b == (App { view_mode: ViewMode::RenameTask, ..*a })
    } else if key == Key::Char('n') {
        with_input(out, InputEdit::Reset) && *b == (App { view_mode: ViewMode::AddTask, ..*a })
    } else if key == Key::Char('d') {
        plain(out, KeyAction::Proceed) && *b == (App { view_mode: ViewMode::DeleteTask, ..*a })
    } else if key == Key::Char('v') {
        plain(out, KeyAction::Proceed) && *b == (App { view_mode: ViewMode::ViewTaskDetails, ..*a })
    } else if key == Key::Char('e') {
        input_set(out, a.cur_task().note@) && *b == (App { view_mode: ViewMode::EditTaskNote, ..*a })
    } else if is_down(key) {
        plain(out, KeyAction::Proceed) && if a.board_view { App::moved_in_lane(a, b, true) } else if a.items@.len() == 0 { *b == *a } else {
            a.with_sel(ListId::Tasks, Selection { row: Some(crate::state::step_down(a.selected_task_index.row, a.items@.len())) }, b)
        }
    } else if is_up(key) {
        plain(out, KeyAction::Proceed) && if a.board_view { App::moved_in_lane(a, b, false) } else if a.items@.len() == 0 { *b == *a } else {
            a.with_sel(ListId::Tasks, Selection { row: Some(crate::state::step_up(a.selected_task_index.row, a.items@.len())) }, b)
        }
    } else if key == Key::Char('t') {
        plain(out, KeyAction::Proceed) && if a.board_view { *b == *a } else {
            Task::loaded(&App { hide_done_tasks: !a.hide_done_tasks, ..*a }, b)
        }
    } else if key == Key::Char('s') {
        plain(out, KeyAction::Proceed) && if a.timer is Some {
            *b == (App { previous_view_mode: ViewMode::ViewTasks, view_mode: ViewMode::TimerTask, ..*a })
        } else if !none {
            &&& *b == (App { previous_view_mode: ViewMode::ViewTasks, view_mode: ViewMode::TimerTask, timer: b.timer, ..*a })
            &&& b.timer matches Some(t) && t.kind == crate::timer::TimerKind::Stopwatch && t.accumulated_nanos == 0
                && t.running() && !t.rung && t.bound == Some(crate::timer::TimerTaskBinding {
                    project_index: a.pidx() as usize,
                    task_title: a.cur_task().title,
                })
        } else {
            *b == (App { previous_view_mode: ViewMode::ViewTasks, ..*a })
        }
    } else if key == Key::Char('c') {
        if a.timer is Some {
            plain(out, KeyAction::Proceed) && *b == (App { previous_view_mode: ViewMode::ViewTasks, view_mode: ViewMode::TimerTask, ..*a })
        } else {
            with_input(out, InputEdit::Reset) && *b == (App { previous_view_mode: ViewMode::ViewTasks, view_mode: ViewMode::SetCountdown, ..*a })
        }
    } else if key == Key::Char('q') {
        plain(out, KeyAction::Quit) && *b == *a
    } else {
        plain(out, KeyAction::Proceed) && *b == *a
    }
}

impl App {
    /// Keys of the task view (list or board).
    pub fn handle_view_tasks(&mut self, key: Key) -> (out: KeyOutcome)
        requires
            old(self).view_mode == ViewMode::ViewTasks,
            tasks_key_ok(old(self), key),
        ensures
            tasks_key(old(self), final(self), key, out),
    {
        let none = if self.board_view {
            self.board_lane_is_empty()
        } else {
            self.items.len() == 0
        };
        match key {
            Key::Char('h') => {
                self.previous_view_mode = ViewMode::ViewTasks;
                self.change_view(ViewMode::ViewHelp);
                outcome(KeyAction::Proceed)
            },
            Key::Esc => {
                Project::load_items(self);
                let ghost m = *self;
                self.change_view(ViewMode::ViewProjects);
                assert(projects_listed(old(self), &m));
                outcome(KeyAction::Proceed)
            },
            Key::Left => {
                if self.board_view {
                    self.board_switch_lane(false);
                } else {
                    Project::load_items(self);
                    let ghost m = *self;
                    self.change_view(ViewMode::ViewProjects);
                    assert(projects_listed(old(self), &m));
                }
                outcome(KeyAction::Proceed)
            },
            Key::Right => {
                if self.board_view {
                    self.board_switch_lane(true);
                }
                outcome(KeyAction::Proceed)
            },
            Key::Char('b') => {
                self.board_view = !self.board_view;
                Task::load_items(self);
                outcome(KeyAction::Proceed)
            },
            Key::Enter => {
                if none {
                    return outcome(KeyAction::Skip);
                }
                let index = crate::task::status_index(&Task::get_current(self).status).unwrap();
                self.selected_status_task_index.select(Some(index));
                self.change_view(ViewMode::ChangeStatusTask);
                outcome(KeyAction::Proceed)
            },
            Key::Char('p') => {
                if none {
                    return outcome(KeyAction::Skip);
                }
                let index = crate::task::priority_index(Task::get_current(self).priority).unwrap();
                self.selected_priority_task_index.select(Some(index));
                self.change_view(ViewMode::ChangePriorityTask);
                outcome(KeyAction::Proceed)
            },
            Key::Char('r') => {
                if none {
                    return outcome(KeyAction::Skip);
                }
                let title = Task::get_current(self).title.clone();
                self.change_view(ViewMode::RenameTask);
                outcome_input(InputEdit::Replace(title))
            },
            Key::Char('n') => {
                self.change_view(ViewMode::AddTask);
                outcome_input(InputEdit::Reset)
            },
            Key::Char('d') => {
                if none {
                    return outcome(KeyAction::Skip);
                }
                self.change_view(ViewMode::DeleteTask);
                outcome(KeyAction::Proceed)
            },
            Key::Char('v') => {
                if none {
                    return outcome(KeyAction::Skip);
                }
                self.change_view(ViewMode::ViewTaskDetails);
                outcome(KeyAction::Proceed)
            },
            Key::Char('e') => {
                if none {
                    return outcome(KeyAction::Skip);
                }
                let note = Task::get_current(self).note.clone();
                self.change_view(ViewMode::EditTaskNote);
                outcome_input(InputEdit::Replace(note))
            },
            Key::Down | Key::Tab | Key::Char('j') => {
                if self.board_view {
                    self.board_move(true);
                } else {
                    let n = self.items.len();
                    self.next(n);
                }
                outcome(KeyAction::Proceed)
            },
            Key::Up | Key::BackTab | Key::Char('k') => {
                if self.board_view {
                    self.board_move(false);
                } else {
                    let n = self.items.len();
                    self.previous(n);
                }
                outcome(KeyAction::Proceed)
            },
            Key::Char('t') => {
                if !self.board_view {
                    self.hide_done_tasks = !self.hide_done_tasks;
                    Task::load_items(self);
                }
                outcome(KeyAction::Proceed)
            },
            Key::Char('s') => {
                self.previous_view_mode = ViewMode::ViewTasks;
                if self.timer.is_some() {
                    self.change_view(ViewMode::TimerTask);
                } else if !none {
                    let project_index = self.selected_project_index.selected().unwrap();
                    let task_title = Task::get_current(self).title.clone();
                    self.timer = Some(crate::timer::TimerState::new_stopwatch(project_index, task_title));
                    self.change_view(ViewMode::TimerTask);
                }
                outcome(KeyAction::Proceed)
            },
            Key::Char('c') => {
                self.previous_view_mode = ViewMode::ViewTasks;
                if self.timer.is_some() {
                    self.change_view(ViewMode::TimerTask);
                    outcome(KeyAction::Proceed)
                } else {
                    self.change_view(ViewMode::SetCountdown);
                    outcome_input(InputEdit::Reset)
                }
            },
            Key::Char('q') => outcome(KeyAction::Quit),
            _ => outcome(KeyAction::Proceed),
        }
    }
}

} // verus!

verus! {

/// The timer after the task `old_title` of project `p` was renamed to
/// `title`: a timer bound to it follows the new title.
pub open spec fn timer_after_rename(t: Option<crate::timer::TimerState>, p: usize, old_title: Seq<char>, title: String) -> Option<crate::timer::TimerState> {
    match t {
        Some(timer) => if timer.bound_to(p, old_title) {
            Some(crate::timer::TimerState {
                bound: Some(crate::timer::TimerTaskBinding { task_title: title, ..timer.bound->0 }),
                ..timer
            })
        } else {
            Some(timer)
        },
        None => None,
    }
}

/// What renaming a task does with a key; a timer bound to the task follows
/// the new title.
pub open spec fn rename_task_key(a: &App, b: &App, key: Key, input: Seq<char>, out: KeyOutcome) -> bool {
    if key == Key::Enter {
        with_input(out, InputEdit::Reset) && exists|m: App| #[trigger] Task::renamed(a, &m, input) && {
            &&& *b == (App { view_mode: ViewMode::ViewTasks, timer: b.timer, ..m })
            &&& match m.timer {
                Some(timer) => if timer.bound_to(a.pidx() as usize, a.cur_task().title@) {
                    &&& b.timer is Some
                    &&& b.timer->0 == (crate::timer::TimerState { bound: b.timer->0.bound, ..timer })
                    &&& b.timer->0.bound is Some
                    &&& b.timer->0.bound->0.project_index == timer.bound->0.project_index
                    &&& b.timer->0.bound->0.task_title@ == input
                } else {
                    b.timer == m.timer
                },
                None => b.timer is None,
            }
        }
    } else if key == Key::Esc {
        with_input(out, InputEdit::Reset) && *b == (App { view_mode: ViewMode::ViewTasks, ..*a })
    } else {
        with_input(out, InputEdit::Forward) && *b == *a
    }
}

/// What the status picker does with a key.
pub open spec fn change_status_key(a: &App, b: &App, key: Key, out: KeyOutcome) -> bool {
    if App::modal_nav(a, b, key, 3, ViewMode::ViewTasks, true) {
        plain(out, KeyAction::Skip)
    } else if key == Key::Enter {
        plain(out, KeyAction::Proceed) && exists|m: App| #[trigger] Task::status_changed(
            a,
            &m,
            crate::task::status_name(a.selected_status_task_index.row->0 as int),
        ) && *b == (App {
            view_mode: ViewMode::ViewTasks,
            selected_status_task_index: Selection { row: Some(0) },
            ..m
        })
    } else {
        plain(out, KeyAction::Proceed) && *b == *a
    }
}

/// What the priority picker does with a key.
pub open spec fn change_priority_key(a: &App, b: &App, key: Key, out: KeyOutcome) -> bool {
    if App::modal_nav(a, b, key, 4, ViewMode::ViewTasks, true) {
        plain(out, KeyAction::Skip)
    } else if key == Key::Enter {
        plain(out, KeyAction::Proceed) && exists|m: App| #[trigger] Task::priority_changed(
            a,
            &m,
            crate::task::priority_value(a.selected_priority_task_index.row->0 as int),
        ) && *b == (App {
            view_mode: ViewMode::ViewTasks,
            selected_priority_task_index: Selection { row: Some(0) },
            ..m
        })
    } else {
        plain(out, KeyAction::Proceed) && *b == *a
    }
}

/// What adding a task does with a key.
pub open spec fn add_task_key(a: &App, b: &App, key: Key, input: Seq<char>, out: KeyOutcome) -> bool {
    if key == Key::Enter {
        plain(out, KeyAction::Proceed) && exists|m: App| #[trigger] Task::created(a, &m, input)
            && *b == (App { view_mode: ViewMode::ViewTasks, ..m })
    } else if key == Key::Esc {
        plain(out, KeyAction::Proceed) && *b == (App { view_mode: ViewMode::ViewTasks, ..*a })
    } else {
        with_input(out, InputEdit::Forward) && *b == *a
    }
}

/// `a` without its timer when the timer is bound to the selected task.
pub open spec fn timer_dropped_for_delete(a: &App) -> App {
    let dropped = match a.timer {
        Some(t) => t.bound_to(a.pidx() as usize, a.cur_task().title@),
        None => false,
    };
    if dropped { App { timer: None, ..*a } } else { *a }
}

/// What the task delete confirmation does with a key: a timer bound to the
/// deleted task is dropped.
pub open spec fn delete_task_key(a: &App, b: &App, key: Key, out: KeyOutcome) -> bool {
    if App::modal_nav(a, b, key, 2, ViewMode::ViewTasks, true) {
        plain(out, KeyAction::Skip)
    } else if delete_answer(key) {
        plain(out, KeyAction::Proceed) && if delete_confirmed(a, key) {
            exists|m: App| #[trigger] App::current_task_deleted(&timer_dropped_for_delete(a), &m) && *b == (App {
                view_mode: ViewMode::ViewTasks,
                delete_confirm_index: cancel_row(),
                ..m
            })
        } else {
            *b == (App { view_mode: ViewMode::ViewTasks, delete_confirm_index: cancel_row(), ..*a })
        }
    } else {
        plain(out, KeyAction::Proceed) && *b == *a
    }
}

impl App {
    /// Keys of the task rename field.
    pub fn handle_rename_task(&mut self, key: Key, input: &str) -> (out: KeyOutcome)
        requires
            key == Key::Enter ==> old(self).task_ok(),
        ensures
            rename_task_key(old(self), final(self), key, input@, out),
    {
        match key {
            Key::Enter => {
                let project_index = self.selected_project_index.selected().unwrap();
                let old_title = Task::get_current(self).title.clone();
                let new_title = string_of_input(input);
                Task::rename(self, input);
                let ghost m = *self;
                let bound = match &self.timer {
                    Some(t) => t.is_bound_to(project_index, old_title.as_str()),
                    None => false,
                };
                if bound {
                    match &mut self.timer {
                        Some(timer) => match &mut timer.bound {
                            Some(b) => {
                                b.task_title = new_title;
                            },
                            None => {},
                        },
                        None => {},
                    }
                }
                self.change_view(ViewMode::ViewTasks);
                assert(Task::renamed(old(self), &m, input@));
                outcome_input(InputEdit::Reset)
            },
            Key::Esc => {
                self.change_view(ViewMode::ViewTasks);
                outcome_input(InputEdit::Reset)
            },
            _ => outcome_input(InputEdit::Forward),
        }
    }

    /// Keys of the status picker.
    pub fn handle_change_status_task(&mut self, key: Key) -> (out: KeyOutcome)
        requires
            old(self).view_mode == ViewMode::ChangeStatusTask,
            key == Key::Enter ==> old(self).task_ok() && old(self).selected_status_task_index.row is Some
                && old(self).selected_status_task_index.row->0 < 3,
        ensures
            change_status_key(old(self), final(self), key, out),
    {
        if self.handle_modal_nav(key, 3, ViewMode::ViewTasks) {
            return outcome(KeyAction::Skip);
        }
        if key == Key::Enter {
            let i = self.selected_status_task_index.selected().unwrap();
            Task::change_status(self, crate::task::task_status(i));
            let ghost m = *self;
            self.selected_status_task_index.select(Some(0));
            self.change_view(ViewMode::ViewTasks);
            assert(Task::status_changed(old(self), &m, crate::task::status_name(i as int)));
        }
        outcome(KeyAction::Proceed)
    }

    /// Keys of the priority picker.
    pub fn handle_change_priority_task(&mut self, key: Key) -> (out: KeyOutcome)
        requires
            old(self).view_mode == ViewMode::ChangePriorityTask,
            key == Key::Enter ==> old(self).task_ok() && old(self).selected_priority_task_index.row is Some
                && old(self).selected_priority_task_index.row->0 < 4,
        ensures
            change_priority_key(old(self), final(self), key, out),
    {
        if self.handle_modal_nav(key, 4, ViewMode::ViewTasks) {
            return outcome(KeyAction::Skip);
        }
        if key == Key::Enter {
            let i = self.selected_priority_task_index.selected().unwrap();
            Task::change_priority(self, crate::task::task_priority(i));
            let ghost m = *self;
            self.selected_priority_task_index.select(Some(0));
            self.change_view(ViewMode::ViewTasks);
            assert(Task::priority_changed(old(self), &m, crate::task::priority_value(i as int)));
        }
        outcome(KeyAction::Proceed)
    }

    /// Keys of the new task field.
    pub fn handle_add_task(&mut self, key: Key, input: &str) -> (out: KeyOutcome)
        requires
            key == Key::Enter && input@.len() > 0 ==> old(self).project_ok(),
        ensures
            add_task_key(old(self), final(self), key, input@, out),
    {
        match key {
            Key::Enter => {
                Task::create(self, input);
                let ghost m = *self;
                self.change_view(ViewMode::ViewTasks);
                assert(Task::created(old(self), &m, input@));
                outcome(KeyAction::Proceed)
            },
            Key::Esc => {
                self.change_view(ViewMode::ViewTasks);
                outcome(KeyAction::Proceed)
            },
            _ => outcome_input(InputEdit::Forward),
        }
    }

    /// Keys of the task delete confirmation.
    pub fn handle_delete_task(&mut self, key: Key) -> (out: KeyOutcome)
        requires
            old(self).view_mode == ViewMode::DeleteTask,
            delete_confirmed(old(self), key) ==> old(self).task_ok(),
        ensures
            delete_task_key(old(self), final(self), key, out),
    {
        if self.handle_modal_nav(key, 2, ViewMode::ViewTasks) {
            return outcome(KeyAction::Skip);
        }
        if key == Key::Enter || key == Key::Char('y') || key == Key::Char('n') {
            if confirms_delete(self, key) {
                let project_index = self.selected_project_index.selected().unwrap();
                let task_title = Task::get_current(self).title.clone();
                let bound = match &self.timer {
                    Some(t) => t.is_bound_to(project_index, task_title.as_str()),
                    None => false,
                };
                if bound {
                    self.timer = None;
                }
                let ghost a2 = *self;
                proof {
                    let dropped = match old(self).timer {
                        Some(t) => t.bound_to(old(self).pidx() as usize, old(self).cur_task().title@),
                        None => false,
                    };
                    assert(dropped == bound);
                    if dropped {
                        assert(a2 == (App { timer: None, ..*old(self) }));
                    } else {
                        assert(a2 == *old(self));
                    }
                }
                self.delete_current_task();
                let ghost m = *self;
                self.delete_confirm_index.select(Some(crate::ui::DELETE_CANCEL_INDEX));
                self.change_view(ViewMode::ViewTasks);
                assert(App::current_task_deleted(&timer_dropped_for_delete(old(self)), &m));
                assert(*self == (App {
                    view_mode: ViewMode::ViewTasks,
                    delete_confirm_index: cancel_row(),
                    ..m
                }));
            } else {
                self.delete_confirm_index.select(Some(crate::ui::DELETE_CANCEL_INDEX));
                self.change_view(ViewMode::ViewTasks);
            }
        }
        outcome(KeyAction::Proceed)
    }
}

/// A fresh string with the input field's text.
pub fn string_of_input(input: &str) -> (r: String)
    ensures
        r@ == input@,
{
    crate::text::string_of(input)
}

} // verus!
