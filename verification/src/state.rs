//! The application state and the decisions taken on each key press.
use vstd::prelude::*;

use crate::note::Note;
use crate::project::Project;
use crate::selection::Selection;
use crate::seqs::indices_where;
use crate::task::{has_status, status_name, status_position, Task};
use crate::timer::TimerState;

verus! {

#[derive(Debug, Clone, Copy, PartialEq, Eq, Structural)]
pub enum ViewMode {
    ViewProjects,
    RenameProject,
    AddProject,
    DeleteProject,
    ViewTasks,
    RenameTask,
    ChangeStatusTask,
    ChangePriorityTask,
    AddTask,
    DeleteTask,
    ViewTaskDetails,
    EditTaskNote,
    SetTaskEstimate,
    TimerTask,
    SetCountdown,
    ViewHelp,
    ViewNotes,
    AddNote,
    RenameNote,
    DeleteNote,
    ViewNote,
    EditNote,
    InfoMigration,
}

impl Default for ViewMode {
    fn default() -> (r: Self)
        ensures
            r == ViewMode::ViewProjects,
    {
        ViewMode::ViewProjects
    }
}

/// One row of the list on screen: the index of the project, task or note
/// it shows.
#[derive(Debug, Clone, Copy, PartialEq, Eq, Structural)]
pub enum ListRow {
    Project(usize),
    Task(usize),
    Note(usize),
}

/// The selections of the application, one per list.
#[derive(Debug, Clone, Copy, PartialEq, Eq, Structural)]
pub enum ListId {
    Projects,
    Tasks,
    Statuses,
    Priorities,
    DeleteConfirm,
    Notes,
}

/// Data to be written to the data file, in the order it was produced.
#[derive(Debug, Clone)]
pub enum Save {
    Projects(Vec<Project>),
    Notes(Vec<Note>),
}

/// A key of the keyboard, as far as the application tells keys apart.
#[derive(Debug, Clone, Copy, PartialEq, Eq, Structural)]
pub enum Key {
    Char(char),
    Enter,
    Esc,
    Left,
    Right,
    Up,
    Down,
    Tab,
    BackTab,
    PageUp,
    PageDown,
    Home,
    End,
    Other,
}

/// What the event loop should do after a key press was handled.
#[derive(Debug, Clone, Copy, PartialEq, Eq, Structural)]
pub enum KeyAction {
    /// No special action; continue the loop normally.
    Proceed,
    /// Skip the rest of this iteration (redraw without ticking the timer).
    Skip,
    /// Quit the application; the timer has been settled.
    Quit,
}

/// What happens to the text input field.
#[derive(Debug, Clone, PartialEq, Eq)]
pub enum InputEdit {
    /// Left as it is.
    Keep,
    /// Emptied.
    Reset,
    /// Replaced by the given text.
    Replace(String),
    /// The key is handed to the input field.
    Forward,
}

/// What the note editor should do.
#[derive(Debug, Clone, PartialEq, Eq)]
pub enum EditorEdit {
    /// Left as it is.
    Keep,
    /// Opened on the given lines.
    Open(Vec<String>),
    /// Closed (its text has been taken).
    Close,
    /// The key is handed to the editor.
    Forward,
}

/// The outcome of a key press beyond the state change.
#[derive(Debug, Clone, PartialEq, Eq)]
pub struct KeyOutcome {
    pub action: KeyAction,
    pub input: InputEdit,
    pub editor: EditorEdit,
}

pub struct App {
    pub selected_project_index: Selection,
    pub selected_task_index: Selection,
    pub selected_status_task_index: Selection,
    pub selected_priority_task_index: Selection,
    pub delete_confirm_index: Selection,
    pub view_mode: ViewMode,
    pub previous_view_mode: ViewMode,
    pub projects: Vec<Project>,
    pub hide_done_tasks: bool,
    pub timer: Option<TimerState>,
    /// When true, the task view renders as a three-lane kanban board
    /// (Up Next / On Going / Done) instead of the classic list.
    pub board_view: bool,
    /// Currently focused board lane: index into the status list.
    pub board_lane: usize,
    /// Per-lane selection for the board view.
    pub board_lane_states: [Selection; 3],
    /// Global notes, independent of projects.
    pub notes: Vec<Note>,
    pub selected_note_index: Selection,
    /// Vertical scroll offset of the note preview page.
    pub note_scroll: u16,
    /// The rows of the list on screen.
    pub items: Vec<ListRow>,
    /// Data produced for the data file and not yet written.
    pub saves: Vec<Save>,
}

/// The tasks of the selected project, if one is selected.
pub open spec fn rows_of_tasks(rows: Seq<usize>) -> Seq<ListRow> {
    rows.map_values(|i: usize| ListRow::Task(i))
}

/// Keeps the task indices whose task has the status of board lane `lane`.
pub open spec fn in_lane(tasks: Seq<Task>, lane: int) -> spec_fn(int) -> bool {
    has_status(tasks, status_name(lane))
}

/// Where the board focus goes for the given task selection: the lane of the
/// selected task's status and the task's row in that lane. `None` when no
/// task is selected, the task does not exist or its status is unknown.
pub open spec fn sync_target(
    projects: Seq<Project>,
    project_row: Option<usize>,
    task_row: Option<usize>,
) -> Option<(int, int)> {
    match task_row {
        None => None,
        Some(s) => {
            let pi = match project_row {
                Some(x) => x as int,
                None => 0,
            };
            if pi < projects.len() && s < projects[pi].tasks@.len() {
                let ts = projects[pi].tasks@;
                match status_position(ts[s as int].status@) {
                    Some(lane) => Some((lane as int, indices_where(s as int, in_lane(ts, lane as int)).len() as int)),
                    None => None,
                }
            } else {
                None
            }
        },
    }
}

impl App {
    pub open spec fn project_ok(&self) -> bool {
        &&& self.selected_project_index.row is Some
        &&& self.selected_project_index.row->0 < self.projects@.len()
    }

    /// The selected project's index.
    pub open spec fn pidx(&self) -> int {
        self.selected_project_index.row->0 as int
    }

    /// The tasks of the selected project.
    pub open spec fn cur_tasks(&self) -> Seq<Task> {
        self.projects@[self.pidx()].tasks@
    }

    pub open spec fn task_ok(&self) -> bool {
        &&& self.project_ok()
        &&& self.selected_task_index.row is Some
        &&& self.selected_task_index.row->0 < self.cur_tasks().len()
    }

    /// The selected task's index.
    pub open spec fn tidx(&self) -> int {
        self.selected_task_index.row->0 as int
    }

    /// The selected task.
    pub open spec fn cur_task(&self) -> Task {
        self.cur_tasks()[self.tidx()]
    }

    pub open spec fn note_ok(&self) -> bool {
        &&& self.selected_note_index.row is Some
        &&& self.selected_note_index.row->0 < self.notes@.len()
    }

    /// The selected note's index.
    pub open spec fn nidx(&self) -> int {
        self.selected_note_index.row->0 as int
    }

    /// The board focus after a sync from `self`'s state.
    pub open spec fn synced_board(&self, after: &App) -> bool {
        match sync_target(self.projects@, self.selected_project_index.row, self.selected_task_index.row) {
            None => after.board_lane == self.board_lane && after.board_lane_states == self.board_lane_states,
            Some((lane, row)) => after.board_lane == lane && after.board_lane_states@
                == self.board_lane_states@.update(lane, Selection { row: Some(row as usize) }),
        }
    }

    /// Everything but the board focus is equal.
    pub open spec fn same_but_board(&self, b: &App) -> bool {
        &&& b.selected_project_index == self.selected_project_index
        &&& b.selected_task_index == self.selected_task_index
        &&& b.selected_status_task_index == self.selected_status_task_index
        &&& b.selected_priority_task_index == self.selected_priority_task_index
        &&& b.delete_confirm_index == self.delete_confirm_index
        &&& b.view_mode == self.view_mode
        &&& b.previous_view_mode == self.previous_view_mode
        &&& b.projects@ == self.projects@
        &&& b.hide_done_tasks == self.hide_done_tasks
        &&& b.timer == self.timer
        &&& b.board_view == self.board_view
        &&& b.notes@ == self.notes@
        &&& b.selected_note_index == self.selected_note_index
        &&& b.note_scroll == self.note_scroll
        &&& b.items@ == self.items@
        &&& b.saves@ == self.saves@
    }

    /// Everything but the list rows is equal.
    pub open spec fn same_but_items(&self, b: &App) -> bool {
        &&& b.selected_project_index == self.selected_project_index
        &&& b.selected_task_index == self.selected_task_index
        &&& b.selected_status_task_index == self.selected_status_task_index
        &&& b.selected_priority_task_index == self.selected_priority_task_index
        &&& b.delete_confirm_index == self.delete_confirm_index
        &&& b.view_mode == self.view_mode
        &&& b.previous_view_mode == self.previous_view_mode
        &&& b.projects@ == self.projects@
        &&& b.hide_done_tasks == self.hide_done_tasks
        &&& b.timer == self.timer
        &&& b.board_view == self.board_view
        &&& b.board_lane == self.board_lane
        &&& b.board_lane_states == self.board_lane_states
        &&& b.notes@ == self.notes@
        &&& b.selected_note_index == self.selected_note_index
        &&& b.note_scroll == self.note_scroll
        &&& b.saves@ == self.saves@
    }

    /// Derives the focused lane and the per-lane row from the task selection,
    /// so the board follows a task that changed lane.
    pub fn board_sync(&mut self)
        requires
            sync_target(old(self).projects@, old(self).selected_project_index.row, old(self).selected_task_index.row) is Some
                ==> old(self).project_ok(),
        ensures
            old(self).synced_board(final(self)),
            *final(self) == (App {
                board_lane: final(self).board_lane,
                board_lane_states: final(self).board_lane_states,
                ..*old(self)
            }),
    {
        let selected = match self.selected_task_index.selected() {
            Some(s) => s,
            None => return,
        };
        let pi = match self.selected_project_index.selected() {
            Some(x) => x,
            None => 0,
        };
        if pi >= self.projects.len() {
            return;
        }
        if selected >= self.projects[pi].tasks.len() {
            return;
        }
        let lane = match crate::task::status_index(&self.projects[pi].tasks[selected].status) {
            Some(l) => l,
            None => return,
        };
        self.board_lane = lane;
        let ghost ts = self.projects@[pi as int].tasks@;
        let indices = Task::lane_indices(self, crate::task::task_status(lane));
        let ghost keep = in_lane(ts, lane as int);
        let mut row: usize = 0;
        let mut j: usize = 0;
        while j < selected
            invariant
                j <= selected,
                selected < ts.len(),
                ts == self.projects@[pi as int].tasks@,
                pi < self.projects@.len(),
                keep == in_lane(ts, lane as int),
                lane < 3,
                row <= j,
                row as nat == indices_where(j as int, keep).len(),
            decreases selected - j,
        {
            proof {
                crate::seqs::lemma_indices_where_facts(j as int, keep);
            }
            if crate::task::status_is(&self.projects[pi].tasks[j].status, crate::task::task_status(lane)) {
                row = row + 1;
            }
            j = j + 1;
        }
        let mut st = self.board_lane_states[lane];
        st.select(Some(row));
        self.board_lane_states[lane] = st;
    }
}

} // verus!

verus! {

/// The list whose selection the keys move in a given mode (`prev` is the
/// mode a modal was opened from).
pub open spec fn list_of(mode: ViewMode, prev: ViewMode) -> ListId {
    match mode {
        ViewMode::ViewProjects | ViewMode::RenameProject | ViewMode::AddProject
        | ViewMode::InfoMigration => ListId::Projects,
        ViewMode::DeleteProject | ViewMode::DeleteTask | ViewMode::DeleteNote => ListId::DeleteConfirm,
        ViewMode::ChangeStatusTask => ListId::Statuses,
        ViewMode::ChangePriorityTask => ListId::Priorities,
        ViewMode::ViewTasks | ViewMode::RenameTask | ViewMode::AddTask | ViewMode::ViewTaskDetails
        | ViewMode::EditTaskNote | ViewMode::SetTaskEstimate => ListId::Tasks,
        ViewMode::TimerTask | ViewMode::SetCountdown => if prev == ViewMode::ViewProjects {
            ListId::Projects
        } else {
            ListId::Tasks
        },
        ViewMode::ViewNotes | ViewMode::AddNote | ViewMode::RenameNote | ViewMode::ViewNote
        | ViewMode::EditNote => ListId::Notes,
        ViewMode::ViewHelp => match prev {
            ViewMode::ViewProjects => ListId::Projects,
            ViewMode::ViewNotes | ViewMode::ViewNote | ViewMode::EditNote => ListId::Notes,
            _ => ListId::Tasks,
        },
    }
}

/// The row a pick list goes back to when it is left: the first one, and
/// "Cancel" for the delete confirmation.
pub open spec fn reset_row(id: ListId) -> usize {
    if id == ListId::DeleteConfirm {
        crate::ui::DELETE_CANCEL_INDEX
    } else {
        0
    }
}

/// The row a wrap-around step down lands on (`next` in the lists).
pub open spec fn step_down(cur: Option<usize>, len: nat) -> usize {
    match cur {
        Some(i) => if i >= len - 1 {
            0
        } else {
            (i + 1) as usize
        },
        None => 0,
    }
}

/// The row a wrap-around step up lands on (`previous` in the lists).
pub open spec fn step_up(cur: Option<usize>, len: nat) -> usize {
    match cur {
        Some(i) => if i == 0 {
            (len - 1) as usize
        } else {
            (i - 1) as usize
        },
        None => 0,
    }
}

impl App {
    /// The selection of a list.
    pub open spec fn sel_of(&self, id: ListId) -> Selection {
        match id {
            ListId::Projects => self.selected_project_index,
            ListId::Tasks => self.selected_task_index,
            ListId::Statuses => self.selected_status_task_index,
            ListId::Priorities => self.selected_priority_task_index,
            ListId::DeleteConfirm => self.delete_confirm_index,
            ListId::Notes => self.selected_note_index,
        }
    }

    /// `b` is `self` with the selection of list `id` set to `s`.
    pub open spec fn with_sel(&self, id: ListId, s: Selection, b: &App) -> bool {
        *b == match id {
            ListId::Projects => App { selected_project_index: s, ..*self },
            ListId::Tasks => App { selected_task_index: s, ..*self },
            ListId::Statuses => App { selected_status_task_index: s, ..*self },
            ListId::Priorities => App { selected_priority_task_index: s, ..*self },
            ListId::DeleteConfirm => App { delete_confirm_index: s, ..*self },
            ListId::Notes => App { selected_note_index: s, ..*self },
        }
    }

    /// The list the keys move in.
    pub fn use_state(&self) -> (r: ListId)
        ensures
            r == list_of(self.view_mode, self.previous_view_mode),
    {
        match self.view_mode {
            ViewMode::ViewProjects | ViewMode::RenameProject | ViewMode::AddProject
            | ViewMode::InfoMigration => ListId::Projects,
            ViewMode::DeleteProject | ViewMode::DeleteTask | ViewMode::DeleteNote => ListId::DeleteConfirm,
            ViewMode::ChangeStatusTask => ListId::Statuses,
            ViewMode::ChangePriorityTask => ListId::Priorities,
            ViewMode::ViewTasks | ViewMode::RenameTask | ViewMode::AddTask
            | ViewMode::ViewTaskDetails | ViewMode::EditTaskNote
            | ViewMode::SetTaskEstimate => ListId::Tasks,
            ViewMode::TimerTask | ViewMode::SetCountdown => {
                if self.previous_view_mode == ViewMode::ViewProjects {
                    ListId::Projects
                } else {
                    ListId::Tasks
                }
            },
            ViewMode::ViewNotes | ViewMode::AddNote | ViewMode::RenameNote | ViewMode::ViewNote
            | ViewMode::EditNote => ListId::Notes,
            ViewMode::ViewHelp => match self.previous_view_mode {
                ViewMode::ViewProjects => ListId::Projects,
                ViewMode::ViewNotes | ViewMode::ViewNote | ViewMode::EditNote => ListId::Notes,
                _ => ListId::Tasks,
            },
        }
    }

    /// The selection of a list.
    pub fn selection(&self, id: ListId) -> (r: Selection)
        ensures
            r == self.sel_of(id),
    {
        match id {
            ListId::Projects => self.selected_project_index,
            ListId::Tasks => self.selected_task_index,
            ListId::Statuses => self.selected_status_task_index,
            ListId::Priorities => self.selected_priority_task_index,
            ListId::DeleteConfirm => self.delete_confirm_index,
            ListId::Notes => self.selected_note_index,
        }
    }

    /// Sets the selection of a list.
    pub fn set_selection(&mut self, id: ListId, s: Selection)
        ensures
            old(self).with_sel(id, s, final(self)),
    {
        match id {
            ListId::Projects => self.selected_project_index = s,
            ListId::Tasks => self.selected_task_index = s,
            ListId::Statuses => self.selected_status_task_index = s,
            ListId::Priorities => self.selected_priority_task_index = s,
            ListId::DeleteConfirm => self.delete_confirm_index = s,
            ListId::Notes => self.selected_note_index = s,
        }
    }

    /// Wrap-around step down in the current list of `len` rows; an empty
    /// list changes nothing.
    pub fn next(&mut self, len: usize)
        ensures
            len == 0 ==> *final(self) == *old(self),
            len > 0 ==> ({
                let id = list_of(old(self).view_mode, old(self).previous_view_mode);
                old(self).with_sel(id, Selection { row: Some(step_down(old(self).sel_of(id).row, len as nat)) }, final(self))
            }),
    {
        if len == 0 {
            return;
        }
        let id = self.use_state();
        let i = match self.selection(id).selected() {
            Some(i) => if i >= len - 1 {
                0
            } else {
                i + 1
            },
            None => 0,
        };
        self.set_selection(id, Selection::with_selected(Some(i)));
    }

    /// Wrap-around step up in the current list of `len` rows; an empty list
    /// changes nothing.
    pub fn previous(&mut self, len: usize)
        ensures
            len == 0 ==> *final(self) == *old(self),
            len > 0 ==> ({
                let id = list_of(old(self).view_mode, old(self).previous_view_mode);
                old(self).with_sel(id, Selection { row: Some(step_up(old(self).sel_of(id).row, len as nat)) }, final(self))
            }),
    {
        if len == 0 {
            return;
        }
        let id = self.use_state();
        let i = match self.selection(id).selected() {
            Some(i) => if i == 0 {
                len - 1
            } else {
                i - 1
            },
            None => 0,
        };
        self.set_selection(id, Selection::with_selected(Some(i)));
    }

    /// The state at startup: every list on its first row (the delete
    /// confirmation on "Cancel"), the project list shown, done tasks hidden,
    /// no timer; the migration notice first when migrations were applied.
    pub fn setup(projects: Vec<Project>, notes: Vec<Note>, migrated: bool) -> (r: App)
        ensures
            r.projects@ == projects@,
            r.notes@ == notes@,
            r.view_mode == (if migrated { ViewMode::InfoMigration } else { ViewMode::ViewProjects }),
            r.previous_view_mode == ViewMode::ViewProjects,
            r.selected_project_index == (Selection { row: Some(0) }),
            r.selected_task_index == (Selection { row: Some(0) }),
            r.selected_status_task_index == (Selection { row: Some(0) }),
            r.selected_priority_task_index == (Selection { row: Some(0) }),
            r.delete_confirm_index == (Selection { row: Some(crate::ui::DELETE_CANCEL_INDEX) }),
            r.selected_note_index == (Selection { row: Some(0) }),
            r.hide_done_tasks,
            r.timer is None,
            !r.board_view,
            r.board_lane == 0,
            r.board_lane_states@ == seq![Selection { row: Some(0) }, Selection { row: Some(0) }, Selection { row: Some(0) }],
            r.note_scroll == 0,
            r.items@ == crate::project::project_rows(projects@.len()),
            r.saves@.len() == 0,
    {
        let first = Selection::with_selected(Some(0));
        let mut app = App {
            selected_project_index: first,
            selected_task_index: first,
            selected_status_task_index: first,
            selected_priority_task_index: first,
            delete_confirm_index: Selection::with_selected(Some(crate::ui::DELETE_CANCEL_INDEX)),
            view_mode: ViewMode::ViewProjects,
            previous_view_mode: ViewMode::ViewProjects,
            projects,
            hide_done_tasks: true,
            timer: None,
            board_view: false,
            board_lane: 0,
            board_lane_states: [first, first, first],
            notes,
            selected_note_index: first,
            note_scroll: 0,
            items: Vec::new(),
            saves: Vec::new(),
        };
        Project::load_items(&mut app);
        if migrated {
            app.view_mode = ViewMode::InfoMigration;
        }
        app
    }

    pub fn change_view(&mut self, mode: ViewMode)
        ensures
            *final(self) == (App { view_mode: mode, ..*old(self) }),
    {
        self.view_mode = mode;
    }

    /// Returns from a modal to the view that opened it; the remembered view
    /// goes back to the project list.
    pub fn back_to_previous_view(&mut self)
        ensures
            *final(self) == (App {
                view_mode: old(self).previous_view_mode,
                previous_view_mode: ViewMode::ViewProjects,
                ..*old(self)
            }),
    {
        let prev = self.previous_view_mode;
        self.previous_view_mode = ViewMode::ViewProjects;
        self.view_mode = prev;
    }
}

} // verus!

verus! {

/// Whole seconds in `nanos` nanoseconds, saturating at `u64::MAX`.
pub open spec fn whole_secs(nanos: u128) -> nat {
    let w = nanos as nat / 1_000_000_000;
    if w > u64::MAX {
        u64::MAX as nat
    } else {
        w
    }
}

/// The task indices of board lane `lane` for the given tasks.
pub open spec fn lane_rows(ts: Seq<Task>, lane: int) -> Seq<usize> {
    indices_where(ts.len() as int, in_lane(ts, lane))
}

/// The remembered row of a lane, clamped into a lane of `len` tasks.
pub open spec fn lane_row(s: Selection, len: nat) -> int {
    let r = match s.row {
        Some(x) => x as int,
        None => 0,
    };
    if r < len - 1 {
        r
    } else {
        len - 1
    }
}

impl App {
    /// The time the active timer shows after `running` nanoseconds read
    /// from the clock since its start (0 without a timer).
    pub open spec fn timer_elapsed(a: &App, running: u128) -> u128 {
        match a.timer {
            Some(t) => t.elapsed_at(running),
            None => 0,
        }
    }

    /// `b` is `a` with the timer stopped when it shows `elapsed`
    /// nanoseconds: a stopwatch adds their whole seconds to its task, a
    /// countdown is discarded.
    pub open spec fn settled_at(a: &App, b: &App, elapsed: u128) -> bool {
        &&& b.timer is None
        &&& match a.timer {
            Some(t) => match t.bound {
                Some(bd) => Task::time_added(
                    &App { timer: None, ..*a },
                    &App { timer: None, ..*b },
                    bd.project_index,
                    bd.task_title@,
                    whole_secs(elapsed) as u64,
                ),
                None => *b == App { timer: None, ..*a },
            },
            None => *b == *a,
        }
    }

    /// `b` is `a` with the timer stopped at some reading of the clock.
    pub open spec fn settled(a: &App, b: &App) -> bool {
        exists|n: u128| App::settled_at(a, b, #[trigger] App::timer_elapsed(a, n))
    }

    /// `b` is `a` after a timer tick when the timer shows `elapsed`
    /// nanoseconds: a countdown that has reached its target and has not
    /// rung yet rings (`ring`) and is marked rung; otherwise nothing
    /// changes.
    pub open spec fn ticked_at(a: &App, b: &App, elapsed: u128, ring: bool) -> bool {
        &&& ring == (a.timer matches Some(t) && t.finished_at(elapsed) && !t.rung)
        &&& (ring ==> b.timer == Some(crate::timer::TimerState { rung: true, ..a.timer->0 })
                && *b == App { timer: b.timer, ..*a })
        &&& (!ring ==> *b == *a)
    }

    /// `b` is `a` after a timer tick at some reading of the clock.
    pub open spec fn ticked(a: &App, b: &App, ring: bool) -> bool {
        exists|n: u128| App::ticked_at(a, b, #[trigger] App::timer_elapsed(a, n), ring)
    }

    /// `b` is `a` after the selected task was deleted, the selection moved
    /// to the previous row, and the board focus synced.
    pub open spec fn current_task_deleted(a: &App, b: &App) -> bool {
        exists|m: App| #[trigger] Task::changed(a, a.cur_tasks().remove(a.tidx()), &m)
            && b.selected_task_index == Selection { row: Some(match m.selected_task_index.row {
                Some(i) => if i == 0 { 0usize } else { (i - 1) as usize },
                None => usize::MAX,
            }) }
            && (if m.board_view {
                crate::task::board_after(&m, sync_target(m.projects@, m.selected_project_index.row, b.selected_task_index.row), b)
            } else {
                b.board_lane == m.board_lane && b.board_lane_states == m.board_lane_states
            })
            && m.with_sel(ListId::Tasks, b.selected_task_index, &App {
                board_lane: m.board_lane,
                board_lane_states: m.board_lane_states,
                ..*b
            })
    }

    /// `b` is `a` after the pick-list key `key` in a list of `len` rows;
    /// `handled` tells whether the key was a pick-list key.
    pub open spec fn modal_nav(a: &App, b: &App, key: Key, len: usize, return_mode: ViewMode, handled: bool) -> bool {
        &&& (handled == (key == Key::Esc || key == Key::Down || key == Key::BackTab || key == Key::Char('j')
                || key == Key::Up || key == Key::Tab || key == Key::Char('k')))
        &&& (!handled ==> *b == *a)
        &&& (key == Key::Esc ==> ({
                let id = list_of(a.view_mode, a.previous_view_mode);
                &&& b.view_mode == return_mode
                &&& a.with_sel(id, Selection { row: Some(reset_row(id)) }, &App { view_mode: a.view_mode, ..*b })
            }))
        &&& ((key == Key::Down || key == Key::BackTab || key == Key::Char('j')) && len > 0 ==> ({
                let id = list_of(a.view_mode, a.previous_view_mode);
                a.with_sel(id, Selection { row: Some(step_down(a.sel_of(id).row, len as nat)) }, b)
            }))
        &&& ((key == Key::Up || key == Key::Tab || key == Key::Char('k')) && len > 0 ==> ({
                let id = list_of(a.view_mode, a.previous_view_mode);
                a.with_sel(id, Selection { row: Some(step_up(a.sel_of(id).row, len as nat)) }, b)
            }))
        &&& (handled && key != Key::Esc && len == 0 ==> *b == *a)
    }

    /// Number of tasks in a board lane.
    pub fn board_lane_len(&self, lane: usize) -> (r: usize)
        requires
            lane < 3,
            self.project_ok(),
        ensures
            r == lane_rows(self.cur_tasks(), lane as int).len(),
    {
        Task::lane_indices(self, crate::task::task_status(lane)).len()
    }

    /// Whether the focused board lane has no tasks.
    pub fn board_lane_is_empty(&self) -> (r: bool)
        requires
            self.board_lane < 3,
            self.project_ok(),
        ensures
            r == (lane_rows(self.cur_tasks(), self.board_lane as int).len() == 0),
    {
        self.board_lane_len(self.board_lane) == 0
    }

    /// `b` is `a` after focusing the next (`forward`) or previous board lane.
    pub open spec fn lane_switched(a: &App, b: &App, forward: bool) -> bool {
            let lane = if forward {
                (a.board_lane + 1) % 3
            } else {
                (a.board_lane + 2) % 3
            };
            let rows = lane_rows(a.cur_tasks(), lane);
            &&& b.board_lane == lane
            &&& if rows.len() == 0 {
                &&& b.board_lane_states == a.board_lane_states
                &&& b.selected_task_index == a.selected_task_index
            } else {
                let row = lane_row(a.board_lane_states@[lane], rows.len());
                &&& b.board_lane_states@ == a.board_lane_states@.update(lane, Selection { row: Some(row as usize) })
                &&& b.selected_task_index == Selection { row: Some(rows[row]) }
            }
            &&& a.with_sel(ListId::Tasks, b.selected_task_index, &App {
                board_lane: a.board_lane,
                board_lane_states: a.board_lane_states,
                ..*b
            })
    }

    /// Focuses the next (or previous) board lane, wrapping, and moves the
    /// task selection to the remembered row of that lane. Switching to an
    /// empty lane only moves the focus.
    pub fn board_switch_lane(&mut self, forward: bool)
        requires
            old(self).project_ok(),
            old(self).board_lane + 3 <= usize::MAX,
        ensures
            App::lane_switched(old(self), final(self), forward),
    {
        let lane = if forward {
            (self.board_lane + 1) % 3
        } else {
            (self.board_lane + 3 - 1) % 3
        };
        self.board_lane = lane;
        let indices = Task::lane_indices(self, crate::task::task_status(lane));
        if indices.len() == 0 {
            return;
        }
        let r = match self.board_lane_states[lane].selected() {
            Some(x) => x,
            None => 0,
        };
        let row = if r < indices.len() - 1 {
            r
        } else {
            indices.len() - 1
        };
        self.board_lane_states[lane] = Selection::with_selected(Some(row));
        self.selected_task_index.select(Some(indices[row]));
    }

    /// `b` is `a` after moving down (`down`) or up in the focused board lane.
    pub open spec fn moved_in_lane(a: &App, b: &App, down: bool) -> bool {
            let lane = a.board_lane as int;
            let rows = lane_rows(a.cur_tasks(), lane);
            if rows.len() == 0 {
                *b == *a
            } else {
                let cur = lane_row(a.board_lane_states@[lane], rows.len());
                let row = if down {
                    if cur >= rows.len() - 1 { 0 } else { cur + 1 }
                } else if cur == 0 {
                    rows.len() - 1
                } else {
                    cur - 1
                };
                &&& b.board_lane_states@ == a.board_lane_states@.update(lane, Selection { row: Some(row as usize) })
                &&& b.selected_task_index == Selection { row: Some(rows[row]) }
                &&& a.with_sel(ListId::Tasks, b.selected_task_index, &App {
                    board_lane_states: a.board_lane_states,
                    ..*b
                })
            }
    }

    /// Moves the selection one row down (or up) within the focused lane,
    /// wrapping, and points the task selection at that task.
    pub fn board_move(&mut self, down: bool)
        requires
            old(self).project_ok(),
            old(self).board_lane < 3,
        ensures
            App::moved_in_lane(old(self), final(self), down),
    {
        let lane = self.board_lane;
        let indices = Task::lane_indices(self, crate::task::task_status(lane));
        if indices.len() == 0 {
            return;
        }
        let r = match self.board_lane_states[lane].selected() {
            Some(x) => x,
            None => 0,
        };
        let cur = if r < indices.len() - 1 {
            r
        } else {
            indices.len() - 1
        };
        let row = if down {
            if cur >= indices.len() - 1 {
                0
            } else {
                cur + 1
            }
        } else if cur == 0 {
            indices.len() - 1
        } else {
            cur - 1
        };
        self.board_lane_states[lane] = Selection::with_selected(Some(row));
        self.selected_task_index.select(Some(indices[row]));
    }

    /// Stops the active timer (if any) when it shows `elapsed` nanoseconds.
    /// A stopwatch adds their whole seconds to the bound task; a countdown
    /// is simply discarded.
    pub fn settle_given(&mut self, elapsed: u128)
        ensures
            App::settled_at(old(self), final(self), elapsed),
    {
        let timer = self.timer.take();
        match timer {
            Some(t) => match &t.bound {
                Some(b) => {
                    let whole = elapsed / crate::timer::NANOS_PER_SEC;
                    let secs: u64 = if whole > u64::MAX as u128 {
                        u64::MAX
                    } else {
                        whole as u64
                    };
                    assert(secs == whole_secs(elapsed) as u64);
                    let ghost before = *self;
                    Task::add_time_spent(self, b.project_index, b.task_title.as_str(), secs);
                    assert(App { timer: None, ..*self } == *self);
                    assert(before == App { timer: None, ..*old(self) });
                },
                None => {},
            },
            None => {},
        }
    }

    /// The time the active timer shows, read once from the clock (0
    /// without a timer).
    fn read_timer(&self) -> (r: u128)
        ensures
            exists|n: u128| r == #[trigger] App::timer_elapsed(self, n),
    {
        match &self.timer {
            Some(t) => {
                let n = t.clock_reading();
                let r = t.elapsed_given(n);
                assert(r == App::timer_elapsed(self, n));
                r
            },
            None => {
                assert(0 == App::timer_elapsed(self, 0));
                0
            },
        }
    }

    /// Stops the active timer (if any), reading the clock once. A stopwatch
    /// adds its whole elapsed seconds to the bound task; a countdown is
    /// simply discarded.
    pub fn settle_timer(&mut self)
        ensures
            App::settled(old(self), final(self)),
    {
        let e = self.read_timer();
        let ghost n = choose|n: u128| e == App::timer_elapsed(old(self), n);
        self.settle_given(e);
        assert(App::settled_at(old(self), self, App::timer_elapsed(old(self), n)));
    }

    /// Countdown bookkeeping when the timer shows `elapsed` nanoseconds: the
    /// first time a countdown is seen finished, it is marked as rung and
    /// `true` tells the caller to ring the bell.
    pub fn tick_given(&mut self, elapsed: u128) -> (ring: bool)
        ensures
            App::ticked_at(old(self), final(self), elapsed, ring),
    {
        let hit_zero = match &self.timer {
            Some(t) => t.is_finished_given(elapsed) && !t.rung,
            None => false,
        };
        if !hit_zero {
            return false;
        }
        match &mut self.timer {
            Some(t) => {
                t.rung = true;
            },
            None => {},
        }
        true
    }

    /// Countdown bookkeeping, run on every loop iteration with one reading
    /// of the clock (see `tick_given`).
    pub fn tick_timer(&mut self) -> (ring: bool)
        ensures
            App::ticked(old(self), final(self), ring),
    {
        let e = self.read_timer();
        let ghost n = choose|n: u128| e == App::timer_elapsed(old(self), n);
        let ring = self.tick_given(e);
        assert(App::ticked_at(old(self), self, App::timer_elapsed(old(self), n), ring));
        ring
    }

    /// Deletes the selected task, moves the selection to the previous row
    /// and keeps the board focus on the action target.
    pub fn delete_current_task(&mut self)
        requires
            old(self).task_ok(),
        ensures
            App::current_task_deleted(old(self), final(self)),
    {
        Task::delete(self);
        let ghost m = *self;
        self.selected_task_index.select_previous();
        if self.board_view {
            self.board_sync();
        }
        assert(Task::changed(old(self), old(self).cur_tasks().remove(old(self).tidx()), &m));
    }

    /// Handles the keys every pick list shares: Esc resets the list's
    /// selection (to the first row, to "Cancel" for the delete
    /// confirmation) and returns to `return_mode`; the arrow
    /// keys (and `j`/`k`, Tab, BackTab) move in the list of `len` rows.
    /// `true` when the key was one of them.
    pub fn handle_modal_nav(&mut self, key: Key, len: usize, return_mode: ViewMode) -> (handled: bool)
        ensures
            App::modal_nav(old(self), final(self), key, len, return_mode, handled),
    {
        match key {
            Key::Esc => {
                let id = self.use_state();
                let row = if id == ListId::DeleteConfirm {
                    crate::ui::DELETE_CANCEL_INDEX
                } else {
                    0
                };
                self.set_selection(id, Selection::with_selected(Some(row)));
                self.change_view(return_mode);
                true
            },
            Key::Down | Key::BackTab | Key::Char('j') => {
                self.next(len);
                true
            },
            Key::Up | Key::Tab | Key::Char('k') => {
                self.previous(len);
                true
            },
            _ => false,
        }
    }
}

/// `b`'s board focus is `a`'s after a sync from `a`'s state, and the rest
/// of `b` is `a`.
pub open spec fn board_after_sync(a: &App, b: &App) -> bool {
    a.synced_board(b)
}

} // verus!
