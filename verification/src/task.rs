//! Tasks: their data, the order they are listed in, and how one is shown.
use vstd::prelude::*;

use crate::project::Project;
use crate::selection::Selection;
use crate::seqs::{indices_where, lemma_filter_filter, lemma_filter_same};
use crate::state::{App, ListRow, Save};
use crate::style::{Look, Piece, Tint};
use crate::text::{push_char, push_decimal, push_str, same_text, string_of};
use crate::util::{indicator_text, Util};

verus! {

#[derive(Debug, Clone, PartialEq)]
pub struct Task {
    pub title: String,
    pub status: String,
    pub priority: u8,
    pub created_at: Option<u64>,
    pub completed_at: Option<u64>,
    pub note: String,
    pub time_spent_secs: u64,
    /// Estimated time the task is expected to take; 0 = no estimate.
    pub estimated_hours: u64,
}

pub const TASK_STATUS_DONE: &'static str = "Done";

pub const TASK_STATUS_ON_GOING: &'static str = "OnGoing";

pub const TASK_STATUS_UP_NEXT: &'static str = "UpNext";

/// Priority value of a task without priority.
pub const TASK_PRIORITY_NONE: u8 = 0;

/// Number of statuses, and of board lanes.
pub const TASK_STATUS_COUNT: usize = 3;

/// Number of priority choices (1, 2, 3 and none).
pub const TASK_PRIORITY_COUNT: usize = 4;

/// The status names in the order the status picker and the board lanes
/// show them: Up Next, On Going, Done.
pub open spec fn status_name(i: int) -> Seq<char> {
    if i == 0 {
        TASK_STATUS_UP_NEXT@
    } else if i == 1 {
        TASK_STATUS_ON_GOING@
    } else {
        TASK_STATUS_DONE@
    }
}

/// The priority values in the order the priority picker shows them:
/// 1 (highest), 2, 3, none.
pub open spec fn priority_value(i: int) -> u8 {
    if i == 0 {
        1
    } else if i == 1 {
        2
    } else if i == 2 {
        3
    } else {
        TASK_PRIORITY_NONE
    }
}

/// The status name at position `i < 3` of the status list.
pub fn task_status(i: usize) -> (r: &'static str)
    requires
        i < TASK_STATUS_COUNT,
    ensures
        r@ == status_name(i as int),
{
    if i == 0 {
        TASK_STATUS_UP_NEXT
    } else if i == 1 {
        TASK_STATUS_ON_GOING
    } else {
        TASK_STATUS_DONE
    }
}

/// The priority value at position `i < 4` of the priority list.
pub fn task_priority(i: usize) -> (r: u8)
    requires
        i < TASK_PRIORITY_COUNT,
    ensures
        r == priority_value(i as int),
{
    if i == 0 {
        1
    } else if i == 1 {
        2
    } else if i == 2 {
        3
    } else {
        TASK_PRIORITY_NONE
    }
}

/// Position of a status name in the status list, if it is one of them.
pub open spec fn status_position(s: Seq<char>) -> Option<nat> {
    if s == TASK_STATUS_UP_NEXT@ {
        Some(0)
    } else if s == TASK_STATUS_ON_GOING@ {
        Some(1)
    } else if s == TASK_STATUS_DONE@ {
        Some(2)
    } else {
        None
    }
}

/// Position of a priority value in the priority list, if it is one of them.
pub open spec fn priority_position(p: u8) -> Option<nat> {
    if p == 1 {
        Some(0)
    } else if p == 2 {
        Some(1)
    } else if p == 3 {
        Some(2)
    } else if p == TASK_PRIORITY_NONE {
        Some(3)
    } else {
        None
    }
}

/// Listing rank of a priority: unknown values first, then 1, 2, 3, and
/// tasks without priority last.
pub open spec fn priority_rank(p: u8) -> nat {
    match priority_position(p) {
        Some(i) => i + 1,
        None => 0,
    }
}

/// Listing rank of a status within a priority: unknown statuses first, then
/// On Going, Up Next, and Done last.
pub open spec fn status_rank(s: Seq<char>) -> nat {
    if s == TASK_STATUS_ON_GOING@ {
        1
    } else if s == TASK_STATUS_UP_NEXT@ {
        2
    } else if s == TASK_STATUS_DONE@ {
        3
    } else {
        0
    }
}

/// The key tasks are listed by: priority first, status second.
pub open spec fn sort_key(t: Task) -> nat {
    priority_rank(t.priority) * 4 + status_rank(t.status@)
}

/// Number of distinct listing keys.
pub open spec fn key_count() -> nat {
    20
}

pub open spec fn key_is(k: nat) -> spec_fn(Task) -> bool {
    |t: Task| sort_key(t) == k
}

pub open spec fn key_is_not(k: nat) -> spec_fn(Task) -> bool {
    |t: Task| sort_key(t) != k
}

pub open spec fn key_at_least(k: nat) -> spec_fn(Task) -> bool {
    |t: Task| sort_key(t) >= k
}

/// The tasks whose key is below `k`, grouped by key in ascending key order,
/// each group in its original order.
pub open spec fn sorted_below(s: Seq<Task>, k: nat) -> Seq<Task>
    decreases k,
{
    if k == 0 {
        Seq::empty()
    } else {
        sorted_below(s, (k - 1) as nat) + s.filter(key_is((k - 1) as nat))
    }
}

/// The stable sort of the tasks by listing key.
pub open spec fn sorted_tasks(s: Seq<Task>) -> Seq<Task> {
    sorted_below(s, key_count())
}

/// Keeps the task indices whose task has status `st`.
pub open spec fn has_status(tasks: Seq<Task>, st: Seq<char>) -> spec_fn(int) -> bool {
    |i: int| tasks[i].status@ == st
}

/// The position of a status name in the status list.
pub fn status_index(s: &String) -> (r: Option<usize>)
    ensures
        match status_position(s@) {
            Some(i) => r == Some(i as usize),
            None => r is None,
        },
{
    if status_is(s, TASK_STATUS_UP_NEXT) {
        Some(0)
    } else if status_is(s, TASK_STATUS_ON_GOING) {
        Some(1)
    } else if status_is(s, TASK_STATUS_DONE) {
        Some(2)
    } else {
        None
    }
}

/// The position of a priority value in the priority list.
pub fn priority_index(p: u8) -> (r: Option<usize>)
    ensures
        match priority_position(p) {
            Some(i) => r == Some(i as usize),
            None => r is None,
        },
{
    if p == 1 {
        Some(0)
    } else if p == 2 {
        Some(1)
    } else if p == 3 {
        Some(2)
    } else if p == TASK_PRIORITY_NONE {
        Some(3)
    } else {
        None
    }
}

pub open spec fn is_done(t: Task) -> bool {
    t.status@ == TASK_STATUS_DONE@
}

/// Whole percent of the estimate spent, rounded half up, for `spent`
/// seconds against `hours` (non-zero) hours; both saturate at `u64::MAX`.
pub open spec fn progress_percent(spent: nat, hours: nat) -> nat {
    let secs = if spent > u64::MAX {
        u64::MAX as nat
    } else {
        spent
    };
    let d = if hours * 3600 > u64::MAX {
        u64::MAX as nat
    } else {
        hours * 3600
    };
    (200 * secs + d) / (2 * d)
}

/// Foreground color of a status name.
pub open spec fn status_tint(s: Seq<char>) -> Tint {
    if s == TASK_STATUS_DONE@ {
        Tint::LightGreen
    } else if s == TASK_STATUS_ON_GOING@ {
        Tint::Yellow
    } else if s == TASK_STATUS_UP_NEXT@ {
        Tint::LightMagenta
    } else {
        Tint::Gray
    }
}

/// Whether a status name is the given one.
pub fn status_is(status: &String, name: &str) -> (r: bool)
    ensures
        r == (status@ == name@),
{
    same_text(status.as_str(), name)
}

/// A copy of a task, equal to it.
pub fn copy_task(t: &Task) -> (r: Task)
    ensures
        r == *t,
{
    Task {
        title: t.title.clone(),
        status: t.status.clone(),
        priority: t.priority,
        created_at: t.created_at,
        completed_at: t.completed_at,
        note: t.note.clone(),
        time_spent_secs: t.time_spent_secs,
        estimated_hours: t.estimated_hours,
    }
}

/// The listing key of a task.
pub fn task_key(t: &Task) -> (k: u8)
    ensures
        k as nat == sort_key(*t),
        k < 20,
{
    let p: u8 = if t.priority == 1 {
        1
    } else if t.priority == 2 {
        2
    } else if t.priority == 3 {
        3
    } else if t.priority == TASK_PRIORITY_NONE {
        4
    } else {
        0
    };
    let s: u8 = if status_is(&t.status, TASK_STATUS_ON_GOING) {
        1
    } else if status_is(&t.status, TASK_STATUS_UP_NEXT) {
        2
    } else if status_is(&t.status, TASK_STATUS_DONE) {
        3
    } else {
        0
    };
    p * 4 + s
}

/// Sorts tasks by priority (unknown, 1, 2, 3, none) and, within a priority,
/// by status (unknown, On Going, Up Next, Done), keeping the original order
/// of tasks with equal keys.
pub fn sort_tasks(tasks: Vec<Task>) -> (r: Vec<Task>)
    ensures
        r@ == sorted_tasks(tasks@),
{
    let ghost s = tasks@;
    let mut rest = tasks;
    let mut out: Vec<Task> = Vec::new();
    let mut k: u8 = 0;
    proof {
        lemma_filter_same(s, |t: Task| true, key_at_least(0));
        assert(s.filter(|t: Task| true) =~= s) by {
            reveal(Seq::filter);
            crate::seqs::lemma_filter_all_kept(s);
        }
    }
    while k < 20
        invariant
            k <= 20,
            out@ == sorted_below(s, k as nat),
            rest@ == s.filter(key_at_least(k as nat)),
        decreases 20 - k,
    {
        let ghost orig = rest@;
        let ghost out0 = out@;
        let mut keep: Vec<Task> = Vec::new();
        let ghost mut i: int = 0;
        while rest.len() > 0
            invariant
                0 <= i <= orig.len(),
                rest@ == orig.skip(i),
                out@ == out0 + orig.take(i).filter(key_is(k as nat)),
                keep@ == orig.take(i).filter(key_is_not(k as nat)),
            decreases rest.len(),
        {
            let t = rest.remove(0);
            proof {
                assert(orig.take(i + 1) =~= orig.take(i).push(t));
                orig.take(i).lemma_filter_push(t, key_is(k as nat));
                orig.take(i).lemma_filter_push(t, key_is_not(k as nat));
                assert(orig.skip(i + 1) =~= orig.skip(i).remove(0));
            }
            let kt = task_key(&t);
            if kt == k {
                out.push(t);
            } else {
                keep.push(t);
            }
            proof {
                i = i + 1;
            }
        }
        proof {
            assert(orig.take(i) =~= orig);
            lemma_filter_filter(s, key_at_least(k as nat), key_is(k as nat));
            lemma_filter_same(
                s,
                |x: Task| key_at_least(k as nat)(x) && key_is(k as nat)(x),
                key_is(k as nat),
            );
            lemma_filter_filter(s, key_at_least(k as nat), key_is_not(k as nat));
            lemma_filter_same(
                s,
                |x: Task| key_at_least(k as nat)(x) && key_is_not(k as nat)(x),
                key_at_least((k + 1) as nat),
            );
        }
        rest = keep;
        k = k + 1;
    }
    out
}

impl Task {
    /// Foreground color of a status name.
    pub fn get_status_color(status: &String) -> (r: Tint)
        ensures
            r == status_tint(status@),
    {
        if status_is(status, TASK_STATUS_DONE) {
            Tint::LightGreen
        } else if status_is(status, TASK_STATUS_ON_GOING) {
            Tint::Yellow
        } else if status_is(status, TASK_STATUS_UP_NEXT) {
            Tint::LightMagenta
        } else {
            Tint::Gray
        }
    }

    /// The rows of the status picker: each status name in its color, in
    /// picker order.
    pub fn load_statues_items() -> (r: Vec<Piece>)
        ensures
            r@.len() == TASK_STATUS_COUNT,
            forall|i: int| 0 <= i < TASK_STATUS_COUNT ==> #[trigger] r@[i].text@ == status_name(i)
                && r@[i].look == (Look { fg: Some(status_tint(status_name(i))), ..Look::spec_plain() }),
    {
        let mut r: Vec<Piece> = Vec::new();
        let mut i: usize = 0;
        while i < TASK_STATUS_COUNT
            invariant
                i <= TASK_STATUS_COUNT,
                r@.len() == i,
                forall|k: int| 0 <= k < i ==> #[trigger] r@[k].text@ == status_name(k)
                    && r@[k].look == (Look { fg: Some(status_tint(status_name(k))), ..Look::spec_plain() }),
            decreases TASK_STATUS_COUNT - i,
        {
            let name = string_of(task_status(i));
            let tint = Task::get_status_color(&name);
            r.push(Piece { text: name, look: Look::colored(tint) });
            i = i + 1;
        }
        r
    }

    /// The rows of the priority picker: each priority's `!` marks in red, in
    /// picker order (none last, with no marks).
    pub fn load_priority_items() -> (r: Vec<Piece>)
        ensures
            r@.len() == TASK_PRIORITY_COUNT,
            forall|i: int| 0 <= i < TASK_PRIORITY_COUNT ==> #[trigger] r@[i].text@ == indicator_text(priority_value(i))
                && r@[i].look == (Look { fg: Some(Tint::Red), ..Look::spec_plain() }),
    {
        let mut r: Vec<Piece> = Vec::new();
        let mut i: usize = 0;
        while i < TASK_PRIORITY_COUNT
            invariant
                i <= TASK_PRIORITY_COUNT,
                r@.len() == i,
                forall|k: int| 0 <= k < i ==> #[trigger] r@[k].text@ == indicator_text(priority_value(k))
                    && r@[k].look == (Look { fg: Some(Tint::Red), ..Look::spec_plain() }),
            decreases TASK_PRIORITY_COUNT - i,
        {
            let text = Util::get_priority_indicator(task_priority(i));
            r.push(Piece { text, look: Look::colored(Tint::Red) });
            i = i + 1;
        }
        r
    }

    /// Percentage of the estimate already spent, `None` when no estimate is
    /// set. `extra_secs` accounts for time not yet settled (a running timer).
    /// The percentage is rounded half up.
    pub fn estimate_progress(&self, extra_secs: u64) -> (r: Option<u64>)
        ensures
            self.estimated_hours == 0 ==> r is None,
            self.estimated_hours != 0 ==> r == Some(
                progress_percent(
                    (self.time_spent_secs + extra_secs) as nat,
                    self.estimated_hours as nat,
                ) as u64,
            ),
            self.estimated_hours != 0 ==> progress_percent(
                (self.time_spent_secs + extra_secs) as nat,
                self.estimated_hours as nat,
            ) <= u64::MAX,
    {
        if self.estimated_hours == 0 {
            return None;
        }
        let spent = self.time_spent_secs.saturating_add(extra_secs) as u128;
        let full = self.estimated_hours as u128 * 3600;
        let d: u128 = if full > u64::MAX as u128 {
            u64::MAX as u128
        } else {
            full
        };
        let pct = (200 * spent + d) / (2 * d);
        proof {
            assert(pct <= 200 * spent + d);
            assert((200 * spent + d) / (2 * d) <= (200 * spent + d) / 7200) by (nonlinear_arith)
                requires
                    d >= 3600,
                    spent >= 0,
            ;
        }
        Some(pct as u64)
    }

    /// The pieces a task line is drawn from: `[!] ` priority mark (if any),
    /// `[status] ` (when asked for), the title (crossed out when done), and
    /// the ` [x%]` estimate progress (when an estimate is set).
    pub fn repr_spans(task: &Task, with_status: bool) -> (r: Vec<Piece>)
        ensures
            r@.len() == (if task.priority != TASK_PRIORITY_NONE { 1int } else { 0 }) + (
            if with_status {
                1int
            } else {
                0
            }) + 1 + (if task.estimated_hours != 0 {
                1int
            } else {
                0
            }),
            ({
                let p = if task.priority != TASK_PRIORITY_NONE { 1int } else { 0 };
                let s = if with_status { 1int } else { 0 };
                let crossed = is_done(*task);
                &&& task.priority != TASK_PRIORITY_NONE ==> r@[0].text@ == seq!['['] + indicator_text(task.priority) + "] "@
                    && r@[0].look == (Look { fg: Some(Tint::Red), ..Look::spec_plain() })
                &&& with_status ==> r@[p].text@ == seq!['['] + task.status@ + "] "@
                    && r@[p].look == (Look { fg: Some(status_tint(task.status@)), crossed_out: crossed, ..Look::spec_plain() })
                &&& r@[p + s].text@ == task.title@
                &&& r@[p + s].look == (Look { crossed_out: crossed, ..Look::spec_plain() })
                &&& task.estimated_hours != 0 ==> {
                    let pct = progress_percent(task.time_spent_secs as nat, task.estimated_hours as nat);
                    &&& r@[p + s + 1].text@ == " ["@ + crate::text::decimal(pct) + "%]"@
                    &&& r@[p + s + 1].look == (Look { fg: Some(if pct >= 100 { Tint::Red } else { Tint::Cyan }), ..Look::spec_plain() })
                }
            }),
    {
        let crossed = status_is(&task.status, TASK_STATUS_DONE);
        let mut repr: Vec<Piece> = Vec::new();
        if task.priority != TASK_PRIORITY_NONE {
            let mut text = String::new();
            push_char(&mut text, '[');
            let mark = Util::get_priority_indicator(task.priority);
            push_str(&mut text, mark.as_str());
            push_str(&mut text, "] ");
            assert(text@ =~= seq!['['] + indicator_text(task.priority) + "] "@);
            repr.push(Piece { text, look: Look::colored(Tint::Red) });
        }
        if with_status {
            let mut text = String::new();
            push_char(&mut text, '[');
            push_str(&mut text, task.status.as_str());
            push_str(&mut text, "] ");
            assert(text@ =~= seq!['['] + task.status@ + "] "@);
            let mut look = Look::colored(Task::get_status_color(&task.status));
            look.crossed_out = crossed;
            repr.push(Piece { text, look });
        }
        let mut look = Look::plain();
        look.crossed_out = crossed;
        repr.push(Piece { text: task.title.clone(), look });
        match task.estimate_progress(0) {
            Some(pct) => {
                let mut text = string_of(" [");
                push_decimal(&mut text, pct);
                push_str(&mut text, "%]");
                assert(text@ =~= " ["@ + crate::text::decimal(pct as nat) + "%]"@);
                let tint = if pct >= 100 {
                    Tint::Red
                } else {
                    Tint::Cyan
                };
                repr.push(Piece { text, look: Look::colored(tint) });
            },
            None => {},
        }
        repr
    }
}

} // verus!

verus! {

/// The title of the task a selection points at (the first task when
/// nothing is selected), or the empty title when there is no such task.
pub open spec fn selected_title(ts: Seq<Task>, row: Option<usize>) -> Seq<char> {
    let i = match row {
        Some(x) => x as int,
        None => 0,
    };
    if i < ts.len() {
        ts[i].title@
    } else {
        Seq::empty()
    }
}

/// The first index below `n` whose task has the given title.
pub open spec fn first_titled(ts: Seq<Task>, title: Seq<char>, n: int) -> Option<int>
    decreases n,
{
    if n <= 0 {
        None
    } else {
        match first_titled(ts, title, n - 1) {
            Some(i) => Some(i),
            None => if ts[n - 1].title@ == title {
                Some(n - 1)
            } else {
                None
            },
        }
    }
}

/// The index of the first task with the given title, or 0.
pub open spec fn title_index(ts: Seq<Task>, title: Seq<char>) -> int {
    match first_titled(ts, title, ts.len() as int) {
        Some(i) => i,
        None => 0,
    }
}

/// Keeps the task indices the list shows: done tasks are left out when
/// `hide` holds.
pub open spec fn shown(ts: Seq<Task>, hide: bool) -> spec_fn(int) -> bool {
    |i: int| !(hide && is_done(ts[i]))
}

/// The list row selected after a reload: the row of the task with the
/// remembered title when it is shown, the first row otherwise.
pub open spec fn list_selection(ts: Seq<Task>, title: Seq<char>, hide: bool) -> int {
    let ni = title_index(ts, title);
    if 0 <= ni < ts.len() && shown(ts, hide)(ni) {
        indices_where(ni, shown(ts, hide)).len() as int
    } else {
        0
    }
}

/// The board focus after a move to `target`, from `a`'s focus.
pub open spec fn board_after(a: &App, target: Option<(int, int)>, b: &App) -> bool {
    match target {
        None => b.board_lane == a.board_lane && b.board_lane_states == a.board_lane_states,
        Some((lane, row)) => b.board_lane == lane && b.board_lane_states@
            == a.board_lane_states@.update(lane, Selection { row: Some(row as usize) }),
    }
}

/// Title and tasks of each project.
pub open spec fn projects_view(ps: Seq<Project>) -> Seq<(Seq<char>, Seq<Task>)> {
    ps.map_values(|p: Project| (p.title@, p.tasks@))
}

/// `s` is a save of projects equal to `ps`.
pub open spec fn saves_projects(s: Save, ps: Seq<Project>) -> bool {
    match s {
        Save::Projects(v) => projects_view(v@) == projects_view(ps),
        _ => false,
    }
}

/// A copy of the projects.
pub fn copy_projects(ps: &Vec<Project>) -> (r: Vec<Project>)
    ensures
        projects_view(r@) == projects_view(ps@),
{
    let mut out: Vec<Project> = Vec::new();
    let mut i: usize = 0;
    while i < ps.len()
        invariant
            i <= ps@.len(),
            projects_view(out@) == projects_view(ps@.take(i as int)),
        decreases ps.len() - i,
    {
        let mut tasks: Vec<Task> = Vec::new();
        let mut j: usize = 0;
        while j < ps[i].tasks.len()
            invariant
                i < ps@.len(),
                j <= ps@[i as int].tasks@.len(),
                tasks@ == ps@[i as int].tasks@.take(j as int),
            decreases ps[i as int].tasks@.len() - j,
        {
            tasks.push(copy_task(&ps[i].tasks[j]));
            j = j + 1;
            assert(tasks@ =~= ps@[i as int].tasks@.take(j as int));
        }
        assert(tasks@ =~= ps@[i as int].tasks@);
        let ghost before = out@;
        let np = Project { title: ps[i].title.clone(), tasks };
        let ghost npv = (np.title@, np.tasks@);
        out.push(np);
        proof {
            assert(projects_view(before.push(np)) =~= projects_view(before).push(npv));
            assert(ps@.take(i + 1) =~= ps@.take(i as int).push(ps@[i as int]));
            assert(projects_view(ps@.take(i as int).push(ps@[i as int])) =~= projects_view(
                ps@.take(i as int),
            ).push((ps@[i as int].title@, ps@[i as int].tasks@)));
        }
        i = i + 1;
    }
    assert(ps@.take(ps@.len() as int) =~= ps@);
    out
}

impl App {
    /// Records the projects for the data file.
    pub fn save_projects(&mut self)
        ensures
            final(self).saves@.len() == old(self).saves@.len() + 1,
            final(self).saves@.take(old(self).saves@.len() as int) == old(self).saves@,
            saves_projects(final(self).saves@.last(), old(self).projects@),
            final(self).projects@ == old(self).projects@,
            final(self).items@ == old(self).items@,
            final(self).notes@ == old(self).notes@,
            final(self).selected_project_index == old(self).selected_project_index,
            final(self).selected_task_index == old(self).selected_task_index,
            final(self).selected_note_index == old(self).selected_note_index,
            final(self).selected_status_task_index == old(self).selected_status_task_index,
            final(self).selected_priority_task_index == old(self).selected_priority_task_index,
            final(self).delete_confirm_index == old(self).delete_confirm_index,
            final(self).view_mode == old(self).view_mode,
            final(self).previous_view_mode == old(self).previous_view_mode,
            final(self).hide_done_tasks == old(self).hide_done_tasks,
            final(self).timer == old(self).timer,
            final(self).board_view == old(self).board_view,
            final(self).board_lane == old(self).board_lane,
            final(self).board_lane_states == old(self).board_lane_states,
            final(self).note_scroll == old(self).note_scroll,
    {
        let copy = copy_projects(&self.projects);
        self.saves.push(Save::Projects(copy));
        assert(final(self).saves@.take(old(self).saves@.len() as int) =~= old(self).saves@);
    }
}

impl Task {
    /// The current UNIX time in seconds.
    pub fn current_timestamp() -> u64 {
        crate::clock::unix_now()
    }

    /// Full-list indices of the tasks with the given status, in list order.
    /// The board always shows every lane, so hidden done tasks count too.
    pub fn lane_indices(app: &App, status: &str) -> (r: Vec<usize>)
        requires
            app.project_ok(),
        ensures
            r@ == indices_where(app.cur_tasks().len() as int, has_status(app.cur_tasks(), status@)),
    {
        let p = app.selected_project_index.selected().unwrap();
        let tasks = &app.projects[p].tasks;
        let ghost keep = has_status(app.cur_tasks(), status@);
        let mut out: Vec<usize> = Vec::new();
        let mut i: usize = 0;
        while i < tasks.len()
            invariant
                tasks@ == app.cur_tasks(),
                keep == has_status(app.cur_tasks(), status@),
                i <= tasks@.len(),
                out@ == indices_where(i as int, keep),
            decreases tasks.len() - i,
        {
            if status_is(&tasks[i].status, status) {
                out.push(i);
            }
            i = i + 1;
        }
        out
    }

    /// The selected task.
    pub fn get_current(app: &App) -> (r: &Task)
        requires
            app.task_ok(),
        ensures
            *r == app.cur_task(),
    {
        let p = app.selected_project_index.selected().unwrap();
        let t = app.selected_task_index.selected().unwrap();
        &app.projects[p].tasks[t]
    }
}

} // verus!

verus! {

impl Task {
    /// `b` is `a` after the selected project's tasks were set to `ts2` and
    /// the task list was reloaded: the tasks are sorted, the list shows the
    /// shown ones, the selection follows the previously selected task by
    /// title, and the board (when active) follows the selection. Saves are
    /// not covered.
    pub open spec fn reload_core(a: &App, ts2: Seq<Task>, b: &App) -> bool {
        let p = a.pidx();
        let ts = sorted_tasks(ts2);
        let hide = a.hide_done_tasks && !a.board_view;
        let title = selected_title(ts2, a.selected_task_index.row);
        let sel = list_selection(ts, title, hide);
        &&& b.projects@.len() == a.projects@.len()
        &&& forall|j: int| 0 <= j < a.projects@.len() && j != p ==> b.projects@[j] == a.projects@[j]
        &&& b.projects@[p].title == a.projects@[p].title
        &&& b.projects@[p].tasks@ == ts
        &&& b.items@ == crate::state::rows_of_tasks(indices_where(ts.len() as int, shown(ts, hide)))
        &&& b.selected_task_index == Selection { row: Some(sel as usize) }
        &&& if a.board_view {
            board_after(a, crate::state::sync_target(b.projects@, a.selected_project_index.row, Some(sel as usize)), b)
        } else {
            b.board_lane == a.board_lane && b.board_lane_states == a.board_lane_states
        }
        &&& b.selected_project_index == a.selected_project_index
        &&& b.selected_status_task_index == a.selected_status_task_index
        &&& b.selected_priority_task_index == a.selected_priority_task_index
        &&& b.delete_confirm_index == a.delete_confirm_index
        &&& b.view_mode == a.view_mode
        &&& b.previous_view_mode == a.previous_view_mode
        &&& b.hide_done_tasks == a.hide_done_tasks
        &&& b.timer == a.timer
        &&& b.board_view == a.board_view
        &&& b.notes@ == a.notes@
        &&& b.selected_note_index == a.selected_note_index
        &&& b.note_scroll == a.note_scroll
    }

    /// `b` is `a` after a reload of the task list (see `reload_core`).
    pub open spec fn loaded(a: &App, b: &App) -> bool {
        &&& Task::reload_core(a, a.cur_tasks(), b)
        &&& b.saves@ == a.saves@
    }

    /// `b` is `a` after the selected project's tasks were set to `ts2`, the
    /// projects were saved, and the task list was reloaded.
    pub open spec fn changed(a: &App, ts2: Seq<Task>, b: &App) -> bool {
        &&& Task::reload_core(a, ts2, b)
        &&& b.saves@.len() == a.saves@.len() + 1
        &&& b.saves@.take(a.saves@.len() as int) == a.saves@
        &&& match b.saves@.last() {
            Save::Projects(v) => projects_view(v@) == projects_view(a.projects@).update(
                a.pidx(),
                (a.projects@[a.pidx()].title@, ts2),
            ),
            _ => false,
        }
    }

    /// Sorts the selected project's tasks by priority, then status, rebuilds
    /// the list rows (done tasks are hidden when asked, except on the board),
    /// keeps the selection on the same task (by title), and keeps the board
    /// focus on it.
    pub fn load_items(app: &mut App)
        requires
            old(app).project_ok(),
        ensures
            Task::loaded(old(app), final(app)),
    {
        let p = app.selected_project_index.selected().unwrap();
        let ghost a = *app;
        let sel_i = match app.selected_task_index.selected() {
            Some(x) => x,
            None => 0,
        };
        let last_title: String = if sel_i < app.projects[p].tasks.len() {
            app.projects[p].tasks[sel_i].title.clone()
        } else {
            String::new()
        };
        let mut taken: Vec<Task> = Vec::new();
        std::mem::swap(&mut taken, &mut app.projects[p].tasks);
        let sorted = sort_tasks(taken);
        app.projects[p].tasks = sorted;
        let ghost ts = sorted_tasks(a.cur_tasks());
        let n = app.projects[p].tasks.len();
        // the first task with the remembered title
        let mut new_index: usize = 0;
        let mut k: usize = 0;
        let mut found = false;
        while k < n && !found
            invariant
                app.projects@[p as int].tasks@ == ts,
                p < app.projects@.len(),
                n == ts.len(),
                k <= n,
                found ==> first_titled(ts, last_title@, k as int) == Some(new_index as int),
                !found ==> first_titled(ts, last_title@, k as int) is None && new_index == 0,
            decreases n - k + (if found { 0int } else { 1 }),
        {
            if same_text(app.projects[p].tasks[k].title.as_str(), last_title.as_str()) {
                new_index = k;
                found = true;
            }
            k = k + 1;
        }
        proof {
            lemma_first_titled_stable(ts, last_title@, k as int, n as int);
        }
        assert(new_index as int == title_index(ts, last_title@));
        let hide = app.hide_done_tasks && !app.board_view;
        let ghost keep = shown(ts, hide);
        let mut rows: Vec<ListRow> = Vec::new();
        let mut visible_selected: usize = 0;
        let mut i: usize = 0;
        while i < n
            invariant
                app.projects@[p as int].tasks@ == ts,
                p < app.projects@.len(),
                n == ts.len(),
                i <= n,
                keep == shown(ts, hide),
                rows@ == crate::state::rows_of_tasks(indices_where(i as int, keep)),
                rows@.len() <= i,
                new_index < i && keep(new_index as int) ==> visible_selected as nat == indices_where(new_index as int, keep).len(),
                !(new_index < i && keep(new_index as int)) ==> visible_selected == 0,
            decreases n - i,
        {
            let hidden = hide && status_is(&app.projects[p].tasks[i].status, TASK_STATUS_DONE);
            if !hidden {
                if i == new_index {
                    visible_selected = rows.len();
                }
                rows.push(ListRow::Task(i));
            }
            proof {
                assert(crate::state::rows_of_tasks(indices_where(i as int + 1, keep)) =~= if keep(i as int) {
                    crate::state::rows_of_tasks(indices_where(i as int, keep)).push(ListRow::Task(i))
                } else {
                    crate::state::rows_of_tasks(indices_where(i as int, keep))
                });
            }
            i = i + 1;
        }
        app.items = rows;
        app.selected_task_index.select(Some(visible_selected));
        if app.board_view {
            app.board_sync();
        }
    }
}

/// A title found among the first `k` tasks is found at an index below `k`
/// whose task has that title.
pub proof fn lemma_first_titled_range(ts: Seq<Task>, title: Seq<char>, k: int)
    ensures
        first_titled(ts, title, k) matches Some(f) ==> 0 <= f < k && ts[f].title@ == title,
    decreases k,
{
    if k > 0 {
        lemma_first_titled_range(ts, title, k - 1);
    }
}

/// Once a title is found among the first `k` tasks, it is the first one
/// among any longer prefix too; and when it is not there and the whole list
/// was searched, it is nowhere.
pub proof fn lemma_first_titled_stable(ts: Seq<Task>, title: Seq<char>, k: int, n: int)
    requires
        0 <= k <= n,
    ensures
        first_titled(ts, title, k) is Some ==> first_titled(ts, title, n) == first_titled(ts, title, k),
    decreases n - k,
{
    if k < n {
        lemma_first_titled_stable(ts, title, k, n - 1);
    }
}

} // verus!

verus! {

/// `y` is `x` with another title.
pub open spec fn retitled(x: Task, y: Task, title: Seq<char>) -> bool {
    &&& y.title@ == title
    &&& y.status == x.status && y.priority == x.priority && y.created_at == x.created_at
    &&& y.completed_at == x.completed_at && y.note == x.note
    &&& y.time_spent_secs == x.time_spent_secs && y.estimated_hours == x.estimated_hours
}

/// `y` is `x` with another note.
pub open spec fn renoted(x: Task, y: Task, note: Seq<char>) -> bool {
    &&& y.note@ == note
    &&& y.title == x.title && y.status == x.status && y.priority == x.priority
    &&& y.created_at == x.created_at && y.completed_at == x.completed_at
    &&& y.time_spent_secs == x.time_spent_secs && y.estimated_hours == x.estimated_hours
}

/// `y` is `x` with another estimate.
pub open spec fn reestimated(x: Task, y: Task, hours: u64) -> bool {
    y == Task { estimated_hours: hours, ..x }
}

/// `y` is `x` with another priority.
pub open spec fn reprioritized(x: Task, y: Task, priority: u8) -> bool {
    y == Task { priority, ..x }
}

/// `y` is `x` moved to another status: a task moved to Done loses its
/// priority and gets a completion time (unless it has one), a task moved
/// elsewhere loses its completion time.
pub open spec fn restatused(x: Task, y: Task, status: Seq<char>) -> bool {
    &&& y.status@ == status
    &&& y.title == x.title && y.note == x.note && y.created_at == x.created_at
    &&& y.time_spent_secs == x.time_spent_secs && y.estimated_hours == x.estimated_hours
    &&& if status == TASK_STATUS_DONE@ {
        &&& y.priority == TASK_PRIORITY_NONE
        &&& x.completed_at is Some ==> y.completed_at == x.completed_at
        &&& y.completed_at is Some
    } else {
        &&& y.priority == x.priority
        &&& y.completed_at is None
    }
}

/// `t` is a task just created with the given title: Up Next, no priority,
/// created now, empty note, no time spent, no estimate.
pub open spec fn fresh_task(t: Task, title: Seq<char>) -> bool {
    &&& t.title@ == title
    &&& t.status@ == TASK_STATUS_UP_NEXT@
    &&& t.priority == TASK_PRIORITY_NONE
    &&& t.created_at is Some
    &&& t.completed_at is None
    &&& t.note@ == Seq::<char>::empty()
    &&& t.time_spent_secs == 0
    &&& t.estimated_hours == 0
}

impl App {
    /// Saves the projects and reloads the task list.
    fn save_and_reload(&mut self)
        requires
            old(self).project_ok(),
        ensures
            Task::changed(old(self), old(self).cur_tasks(), final(self)),
    {
        self.save_projects();
        let ghost mid = *self;
        Task::load_items(self);
        proof {
            assert(projects_view(old(self).projects@).update(
                old(self).pidx(),
                (old(self).projects@[old(self).pidx()].title@, old(self).cur_tasks()),
            ) =~= projects_view(old(self).projects@));
        }
    }
}

impl Task {
    /// `b` is `a` after creating a task titled `value` in the selected project.
    pub open spec fn created(a: &App, b: &App, value: Seq<char>) -> bool {
        &&& (value.len() == 0 ==> *b == *a)
        &&& (value.len() > 0 ==> exists|t: Task| #[trigger] fresh_task(t, value) && Task::changed(
                a,
                a.cur_tasks().push(t),
                b))
    }

    /// Appends a task with the given title to the selected project (an empty
    /// title does nothing), saves and reloads.
    pub fn create(app: &mut App, value: &str)
        requires
            value@.len() > 0 ==> old(app).project_ok(),
        ensures
            Task::created(old(app), final(app), value@),
    {
        if value.is_empty() {
            return;
        }
        let p = app.selected_project_index.selected().unwrap();
        let t = Task {
            title: string_of(value),
            status: string_of(TASK_STATUS_UP_NEXT),
            priority: TASK_PRIORITY_NONE,
            created_at: Some(Task::current_timestamp()),
            completed_at: None,
            note: String::new(),
            time_spent_secs: 0,
            estimated_hours: 0,
        };
        let ghost tg = t;
        app.projects[p].tasks.push(t);
        let ghost mid = *app;
        app.save_and_reload();
        proof {
            assert(fresh_task(tg, value@));
            assert(projects_view(mid.projects@).update(p as int, (mid.projects@[p as int].title@, old(app).cur_tasks().push(tg)))
                =~= projects_view(old(app).projects@).update(p as int, (old(app).projects@[p as int].title@, old(app).cur_tasks().push(tg))));
        }
    }

    /// `b` is `a` after retitling the selected task.
    pub open spec fn renamed(a: &App, b: &App, value: Seq<char>) -> bool {
        &&& (exists|t: Task| #[trigger] retitled(a.cur_task(), t, value) && Task::changed(
                a,
                a.cur_tasks().update(a.tidx(), t),
                b))
    }

    /// Sets the selected task's title, saves and reloads.
    pub fn rename(app: &mut App, value: &str)
        requires
            old(app).task_ok(),
        ensures
            Task::renamed(old(app), final(app), value@),
    {
        let p = app.selected_project_index.selected().unwrap();
        let i = app.selected_task_index.selected().unwrap();
        app.projects[p].tasks[i].title = string_of(value);
        let ghost tg = app.projects@[p as int].tasks@[i as int];
        let ghost mid = *app;
        app.save_and_reload();
        proof {
            assert(retitled(old(app).cur_task(), tg, value@));
            assert(mid.cur_tasks() =~= old(app).cur_tasks().update(i as int, tg));
            assert(projects_view(mid.projects@).update(p as int, (mid.projects@[p as int].title@, mid.cur_tasks()))
                =~= projects_view(old(app).projects@).update(p as int, (old(app).projects@[p as int].title@, mid.cur_tasks())));
        }
    }

    /// `b` is `a` after setting the selected task's note.
    pub open spec fn note_updated(a: &App, b: &App, value: Seq<char>) -> bool {
        &&& (exists|t: Task| #[trigger] renoted(a.cur_task(), t, value) && Task::changed(
                a,
                a.cur_tasks().update(a.tidx(), t),
                b))
    }

    /// Sets the selected task's note, saves and reloads.
    pub fn update_note(app: &mut App, value: &str)
        requires
            old(app).task_ok(),
        ensures
            Task::note_updated(old(app), final(app), value@),
    {
        let p = app.selected_project_index.selected().unwrap();
        let i = app.selected_task_index.selected().unwrap();
        app.projects[p].tasks[i].note = string_of(value);
        let ghost tg = app.projects@[p as int].tasks@[i as int];
        let ghost mid = *app;
        app.save_and_reload();
        proof {
            assert(renoted(old(app).cur_task(), tg, value@));
            assert(mid.cur_tasks() =~= old(app).cur_tasks().update(i as int, tg));
            assert(projects_view(mid.projects@).update(p as int, (mid.projects@[p as int].title@, mid.cur_tasks()))
                =~= projects_view(old(app).projects@).update(p as int, (old(app).projects@[p as int].title@, mid.cur_tasks())));
        }
    }

    /// `b` is `a` after setting the selected task's estimate.
    pub open spec fn estimate_updated(a: &App, b: &App, hours: u64) -> bool {
        &&& (exists|t: Task| #[trigger] reestimated(a.cur_task(), t, hours) && Task::changed(
                a,
                a.cur_tasks().update(a.tidx(), t),
                b))
    }

    /// Sets the selected task's estimate (in hours), saves and reloads.
    pub fn update_estimate(app: &mut App, hours: u64)
        requires
            old(app).task_ok(),
        ensures
            Task::estimate_updated(old(app), final(app), hours),
    {
        let p = app.selected_project_index.selected().unwrap();
        let i = app.selected_task_index.selected().unwrap();
        app.projects[p].tasks[i].estimated_hours = hours;
        let ghost tg = app.projects@[p as int].tasks@[i as int];
        let ghost mid = *app;
        app.save_and_reload();
        proof {
            assert(reestimated(old(app).cur_task(), tg, hours));
            assert(mid.cur_tasks() =~= old(app).cur_tasks().update(i as int, tg));
            assert(projects_view(mid.projects@).update(p as int, (mid.projects@[p as int].title@, mid.cur_tasks()))
                =~= projects_view(old(app).projects@).update(p as int, (old(app).projects@[p as int].title@, mid.cur_tasks())));
        }
    }

    /// `b` is `a` after setting the selected task's priority.
    pub open spec fn priority_changed(a: &App, b: &App, value: u8) -> bool {
        &&& (exists|t: Task| #[trigger] reprioritized(a.cur_task(), t, value) && Task::changed(
                a,
                a.cur_tasks().update(a.tidx(), t),
                b))
    }

    /// Sets the selected task's priority, saves and reloads.
    pub fn change_priority(app: &mut App, value: u8)
        requires
            old(app).task_ok(),
        ensures
            Task::priority_changed(old(app), final(app), value),
    {
        let p = app.selected_project_index.selected().unwrap();
        let i = app.selected_task_index.selected().unwrap();
        app.projects[p].tasks[i].priority = value;
        let ghost tg = app.projects@[p as int].tasks@[i as int];
        let ghost mid = *app;
        app.save_and_reload();
        proof {
            assert(reprioritized(old(app).cur_task(), tg, value));
            assert(mid.cur_tasks() =~= old(app).cur_tasks().update(i as int, tg));
            assert(projects_view(mid.projects@).update(p as int, (mid.projects@[p as int].title@, mid.cur_tasks()))
                =~= projects_view(old(app).projects@).update(p as int, (old(app).projects@[p as int].title@, mid.cur_tasks())));
        }
    }

    /// `b` is `a` after moving the selected task to status `value`.
    pub open spec fn status_changed(a: &App, b: &App, value: Seq<char>) -> bool {
        &&& (exists|t: Task| #[trigger] restatused(a.cur_task(), t, value) && Task::changed(
                a,
                a.cur_tasks().update(a.tidx(), t),
                b))
    }

    /// Moves the selected task to another status, saves and reloads. Done
    /// clears the priority and stamps the completion time (once); any other
    /// status clears the completion time.
    pub fn change_status(app: &mut App, value: &str)
        requires
            old(app).task_ok(),
        ensures
            Task::status_changed(old(app), final(app), value@),
    {
        let p = app.selected_project_index.selected().unwrap();
        let i = app.selected_task_index.selected().unwrap();
        app.projects[p].tasks[i].status = string_of(value);
        if same_text(value, TASK_STATUS_DONE) {
            app.projects[p].tasks[i].priority = TASK_PRIORITY_NONE;
            if app.projects[p].tasks[i].completed_at.is_none() {
                app.projects[p].tasks[i].completed_at = Some(Task::current_timestamp());
            }
        } else {
            app.projects[p].tasks[i].completed_at = None;
        }
        let ghost tg = app.projects@[p as int].tasks@[i as int];
        let ghost mid = *app;
        app.save_and_reload();
        proof {
            assert(restatused(old(app).cur_task(), tg, value@));
            assert(mid.cur_tasks() =~= old(app).cur_tasks().update(i as int, tg));
            assert(projects_view(mid.projects@).update(p as int, (mid.projects@[p as int].title@, mid.cur_tasks()))
                =~= projects_view(old(app).projects@).update(p as int, (old(app).projects@[p as int].title@, mid.cur_tasks())));
        }
    }

    /// `b` is `a` after deleting the selected task.
    pub open spec fn deleted(a: &App, b: &App) -> bool {
        &&& (Task::changed(a, a.cur_tasks().remove(a.tidx()), b))
    }

    /// Removes the selected task, saves and reloads.
    pub fn delete(app: &mut App)
        requires
            old(app).task_ok(),
        ensures
            Task::deleted(old(app), final(app)),
    {
        let p = app.selected_project_index.selected().unwrap();
        let i = app.selected_task_index.selected().unwrap();
        app.projects[p].tasks.remove(i);
        let ghost mid = *app;
        app.save_and_reload();
        proof {
            assert(projects_view(mid.projects@).update(p as int, (mid.projects@[p as int].title@, mid.cur_tasks()))
                =~= projects_view(old(app).projects@).update(p as int, (old(app).projects@[p as int].title@, mid.cur_tasks())));
        }
    }
}

} // verus!

verus! {

impl Task {
    /// `b` is `a` after `secs` seconds were added to the first task titled
    /// `title` of project `pi`, and the projects saved; nothing happens for
    /// zero seconds or when there is no such task.
    pub open spec fn time_added(a: &App, b: &App, pi: usize, title: Seq<char>, secs: u64) -> bool {
                let found = if pi < a.projects@.len() {
                    first_titled(a.projects@[pi as int].tasks@, title,
                        a.projects@[pi as int].tasks@.len() as int)
                } else {
                    None
                };
                if secs == 0 || found is None {
                    *b == *a
                } else {
                    let ts = a.projects@[pi as int].tasks@;
                    let i = found->0;
                    let t = ts[i];
                    let sum = if t.time_spent_secs + secs > u64::MAX { u64::MAX } else { (t.time_spent_secs + secs) as u64 };
                    &&& b.projects@.len() == a.projects@.len()
                    &&& forall|j: int| 0 <= j < a.projects@.len() && j != pi ==> b.projects@[j] == a.projects@[j]
                    &&& b.projects@[pi as int].title == a.projects@[pi as int].title
                    &&& b.projects@[pi as int].tasks@ == ts.update(i, Task { time_spent_secs: sum, ..t })
                    &&& b.saves@.len() == a.saves@.len() + 1
                    &&& b.saves@.take(a.saves@.len() as int) == a.saves@
                    &&& saves_projects(b.saves@.last(), b.projects@)
                    &&& b.items@ == a.items@
                    &&& b.notes@ == a.notes@
                    &&& b.selected_project_index == a.selected_project_index
                    &&& b.selected_task_index == a.selected_task_index
                    &&& b.selected_note_index == a.selected_note_index
                    &&& b.selected_status_task_index == a.selected_status_task_index
                    &&& b.selected_priority_task_index == a.selected_priority_task_index
                    &&& b.delete_confirm_index == a.delete_confirm_index
                    &&& b.view_mode == a.view_mode
                    &&& b.previous_view_mode == a.previous_view_mode
                    &&& b.hide_done_tasks == a.hide_done_tasks
                    &&& b.timer == a.timer
                    &&& b.board_view == a.board_view
                    &&& b.board_lane == a.board_lane
                    &&& b.board_lane_states == a.board_lane_states
                    &&& b.note_scroll == a.note_scroll
                }
            }

    /// Adds timer seconds to a task, found by project index and title (list
    /// indexes shift on sort, so the title is the stable identity), and saves.
    /// Zero seconds, a missing project and a missing task do nothing. The sum
    /// saturates at `u64::MAX`.
    pub fn add_time_spent(app: &mut App, project_index: usize, task_title: &str, secs: u64)
        ensures
            Task::time_added(old(app), final(app), project_index, task_title@, secs),
    {
        if secs == 0 {
            return;
        }
        if project_index >= app.projects.len() {
            return;
        }
        let n = app.projects[project_index].tasks.len();
        let ghost ts = app.projects@[project_index as int].tasks@;
        let mut k: usize = 0;
        let mut found: Option<usize> = None;
        while k < n && found.is_none()
            invariant
                ts == app.projects@[project_index as int].tasks@,
                project_index < app.projects@.len(),
                n == ts.len(),
                k <= n,
                found matches Some(f) ==> first_titled(ts, task_title@, k as int) == Some(f as int),
                found is None ==> first_titled(ts, task_title@, k as int) is None,
            decreases n - k + (if found is Some { 0int } else { 1 }),
        {
            if same_text(app.projects[project_index].tasks[k].title.as_str(), task_title) {
                found = Some(k);
            }
            k = k + 1;
        }
        proof {
            lemma_first_titled_stable(ts, task_title@, k as int, n as int);
            lemma_first_titled_range(ts, task_title@, k as int);
        }
        let i = match found {
            Some(i) => i,
            None => return,
        };
        let old_secs = app.projects[project_index].tasks[i].time_spent_secs;
        app.projects[project_index].tasks[i].time_spent_secs = old_secs.saturating_add(secs);
        proof {
            assert(app.projects@[project_index as int].tasks@ =~= ts.update(i as int, Task { time_spent_secs: old_secs.saturating_add(secs), ..ts[i as int] }));
        }
        app.save_projects();
    }
}

} // verus!
