//! Projects: a title and a list of tasks.
use vstd::prelude::*;

use crate::state::{App, ListRow};
use crate::style::{Look, Piece, Tint};
use crate::task::{is_done, status_is, Task, TASK_STATUS_DONE};
use crate::text::{decimal, push_char, push_decimal, push_str, string_of};

verus! {

#[derive(Debug, Clone, PartialEq)]
pub struct Project {
    pub title: String,
    pub tasks: Vec<Task>,
}

/// The number of done tasks.
pub open spec fn done_count(ts: Seq<Task>) -> nat
    decreases ts.len(),
{
    if ts.len() == 0 {
        0
    } else {
        done_count(ts.drop_last()) + if is_done(ts.last()) {
            1nat
        } else {
            0
        }
    }
}

/// Color of the done-tasks counter for a completion percentage: grey when
/// nothing is done, magenta from 25% to 50%, yellow above 50%, green when
/// all is done, white otherwise.
pub open spec fn indicator_tint(percentage: nat) -> Tint {
    if percentage == 0 {
        Tint::DarkGray
    } else if 25 <= percentage <= 50 {
        Tint::LightMagenta
    } else if 50 < percentage < 100 {
        Tint::LightYellow
    } else if percentage == 100 {
        Tint::LightGreen
    } else {
        Tint::White
    }
}

/// Whole percent of the tasks that are done, rounded down (0 for none).
pub open spec fn done_percentage(ts: Seq<Task>) -> nat {
    if ts.len() == 0 {
        0
    } else {
        done_count(ts) * 100 / ts.len()
    }
}

/// The rows of a list showing `n` projects.
pub open spec fn project_rows(n: nat) -> Seq<ListRow> {
    Seq::new(n, |i: int| ListRow::Project(i as usize))
}

/// `b` is `a` with the project list shown; nothing else changes.
pub open spec fn projects_listed(a: &App, b: &App) -> bool {
    &&& b.items@ == project_rows(a.projects@.len())
    &&& a.same_but_items(b)
}

proof fn lemma_done_count_le(ts: Seq<Task>)
    ensures
        done_count(ts) <= ts.len(),
    decreases ts.len(),
{
    if ts.len() > 0 {
        lemma_done_count_le(ts.drop_last());
    }
}

impl Project {
    /// Color of the done-tasks counter for a completion percentage.
    pub fn get_indicator_done_tasks_color(percentage: usize) -> (r: Tint)
        ensures
            r == indicator_tint(percentage as nat),
    {
        if percentage == 0 {
            Tint::DarkGray
        } else if percentage >= 25 && percentage <= 50 {
            Tint::LightMagenta
        } else if percentage > 50 && percentage < 100 {
            Tint::LightYellow
        } else if percentage == 100 {
            Tint::LightGreen
        } else {
            Tint::White
        }
    }

    /// The number of done tasks.
    pub fn done_tasks(&self) -> (r: usize)
        ensures
            r as nat == done_count(self.tasks@),
    {
        let mut count: usize = 0;
        let mut i: usize = 0;
        while i < self.tasks.len()
            invariant
                i <= self.tasks@.len(),
                count <= i,
                count as nat == done_count(self.tasks@.take(i as int)),
            decreases self.tasks.len() - i,
        {
            proof {
                assert(self.tasks@.take(i + 1).drop_last() =~= self.tasks@.take(i as int));
            }
            if status_is(&self.tasks[i].status, TASK_STATUS_DONE) {
                count = count + 1;
            }
            i = i + 1;
        }
        assert(self.tasks@.take(i as int) =~= self.tasks@);
        count
    }

    /// Whole percent of the tasks that are done.
    pub fn done_percentage(&self) -> (r: usize)
        ensures
            r as nat == done_percentage(self.tasks@),
    {
        let done = self.done_tasks();
        let total = self.tasks.len();
        if total == 0 {
            0
        } else {
            proof {
                lemma_done_count_le(self.tasks@);
            }
            let d = done as u128;
            let t = total as u128;
            let pct = (d * 100) / t;
            assert(pct <= 100) by (nonlinear_arith)
                requires
                    pct as int == (d as int * 100) / (t as int),
                    d <= t,
                    t > 0,
            ;
            pct as usize
        }
    }

    /// The pieces of a project's list line: the `[done/total] ` counter in
    /// the completion color, then the title.
    pub fn row_pieces(&self) -> (r: Vec<Piece>)
        ensures
            r@.len() == 2,
            r@[0].text@ == seq!['['] + decimal(done_count(self.tasks@)) + seq!['/'] + decimal(
                self.tasks@.len(),
            ) + "] "@,
            r@[0].look == (Look { fg: Some(indicator_tint(done_percentage(self.tasks@))), ..Look::spec_plain() }),
            r@[1].text@ == self.title@,
            r@[1].look == Look::spec_plain(),
    {
        let done = self.done_tasks();
        let pct = self.done_percentage();
        let mut text = String::new();
        push_char(&mut text, '[');
        push_decimal(&mut text, done as u64);
        push_char(&mut text, '/');
        push_decimal(&mut text, self.tasks.len() as u64);
        push_str(&mut text, "] ");
        assert(text@ =~= seq!['['] + decimal(done_count(self.tasks@)) + seq!['/'] + decimal(
            self.tasks@.len(),
        ) + "] "@);
        let mut r: Vec<Piece> = Vec::new();
        r.push(Piece { text, look: Look::colored(Project::get_indicator_done_tasks_color(pct)) });
        r.push(Piece { text: self.title.clone(), look: Look::plain() });
        r
    }

    /// Shows the project list: one row per project.
    pub fn load_items(app: &mut App)
        ensures
            projects_listed(old(app), final(app)),
    {
        let mut rows: Vec<ListRow> = Vec::new();
        let mut i: usize = 0;
        while i < app.projects.len()
            invariant
                i <= app.projects@.len(),
                rows@ == project_rows(i as nat),
            decreases app.projects.len() - i,
        {
            rows.push(ListRow::Project(i));
            i = i + 1;
            assert(rows@ =~= project_rows(i as nat));
        }
        app.items = rows;
    }

    /// The selected project.
    pub fn get_current(app: &App) -> (r: &Project)
        requires
            app.project_ok(),
        ensures
            *r == app.projects@[app.pidx()],
    {
        &app.projects[app.selected_project_index.selected().unwrap()]
    }

    /// `b` is `a` after creating a project titled `value`.
    pub open spec fn created(a: &App, b: &App, value: Seq<char>) -> bool {
        &&& (value.len() == 0 ==> *b == *a)
        &&& (value.len() > 0 ==> exists|m: App| #[trigger] projects_listed(&m, b) && {
                &&& m.projects@.len() == a.projects@.len() + 1
                &&& m.projects@.take(a.projects@.len() as int) == a.projects@
                &&& m.projects@.last().title@ == value
                &&& m.projects@.last().tasks@.len() == 0
                &&& saved_projects_once(a, &m)
            })
    }

    /// Appends a project with the given title (an empty title does nothing),
    /// saves and shows the project list.
    pub fn create(app: &mut App, value: &str)
        ensures
            Project::created(old(app), final(app), value@),
    {
        if value.is_empty() {
            return;
        }
        app.projects.push(Project { title: string_of(value), tasks: Vec::new() });
        let ghost pushed = *app;
        app.save_projects();
        let ghost m = *app;
        Project::load_items(app);
        proof {
            assert(m.projects@.take(old(app).projects@.len() as int) =~= old(app).projects@);
            assert(projects_listed(&m, final(app)));
        }
    }

    /// `b` is `a` after renaming the selected project to `value`.
    pub open spec fn renamed(a: &App, b: &App, value: Seq<char>) -> bool {
        &&& (exists|m: App| #[trigger] projects_listed(&m, b) && {
                &&& m.projects@.len() == a.projects@.len()
                &&& forall|j: int| 0 <= j < a.projects@.len() && j != a.pidx() ==> m.projects@[j] == a.projects@[j]
                &&& m.projects@[a.pidx()].title@ == value
                &&& m.projects@[a.pidx()].tasks == a.projects@[a.pidx()].tasks
                &&& saved_projects_once(a, &m)
            })
    }

    /// Sets the selected project's title, saves and shows the project list.
    pub fn rename(app: &mut App, value: &str)
        requires
            old(app).project_ok(),
        ensures
            Project::renamed(old(app), final(app), value@),
    {
        let p = app.selected_project_index.selected().unwrap();
        app.projects[p].title = string_of(value);
        app.save_projects();
        let ghost m = *app;
        Project::load_items(app);
        assert(projects_listed(&m, final(app)));
    }

    /// `b` is `a` after deleting the selected project.
    pub open spec fn deleted(a: &App, b: &App) -> bool {
        &&& (exists|m: App| #[trigger] projects_listed(&m, b) && {
                &&& m.projects@ == a.projects@.remove(a.pidx())
                &&& saved_projects_once(a, &m)
            })
    }

    /// Removes the selected project, saves and shows the project list.
    pub fn delete(app: &mut App)
        requires
            old(app).project_ok(),
        ensures
            Project::deleted(old(app), final(app)),
    {
        let p = app.selected_project_index.selected().unwrap();
        app.projects.remove(p);
        app.save_projects();
        let ghost m = *app;
        Project::load_items(app);
        assert(projects_listed(&m, final(app)));
    }
}

/// `m` is `a` with its projects changed and saved once; the rest is as in `a`.
pub open spec fn saved_projects_once(a: &App, m: &App) -> bool {
    &&& m.saves@.len() == a.saves@.len() + 1
    &&& m.saves@.take(a.saves@.len() as int) == a.saves@
    &&& crate::task::saves_projects(m.saves@.last(), m.projects@)
    &&& m.items@ == a.items@
    &&& m.notes@ == a.notes@
    &&& m.selected_project_index == a.selected_project_index
    &&& m.selected_task_index == a.selected_task_index
    &&& m.selected_note_index == a.selected_note_index
    &&& m.selected_status_task_index == a.selected_status_task_index
    &&& m.selected_priority_task_index == a.selected_priority_task_index
    &&& m.delete_confirm_index == a.delete_confirm_index
    &&& m.view_mode == a.view_mode
    &&& m.previous_view_mode == a.previous_view_mode
    &&& m.hide_done_tasks == a.hide_done_tasks
    &&& m.timer == a.timer
    &&& m.board_view == a.board_view
    &&& m.board_lane == a.board_lane
    &&& m.board_lane_states == a.board_lane_states
    &&& m.note_scroll == a.note_scroll
}

} // verus!
