//! Properties of the library that span its functions: how tasks are
//! ordered, what a reload selects, where the board focus points, and how
//! the lists and timers behave across calls.
use vstd::prelude::*;

use crate::note::notes_listed;
use crate::project::projects_listed;
use crate::selection::Selection;
use crate::seqs::{indices_where, lemma_filter_filter, lemma_filter_same, lemma_filter_split_multiset, lemma_indices_where_prefix};
use crate::state::{in_lane, lane_rows, step_down, step_up, sync_target, App};
use crate::task::{
    first_titled, key_is, lemma_first_titled_range, list_selection, selected_title, shown, sort_key, sorted_below,
    sorted_tasks, status_name, status_position, title_index, Task,
};
use crate::project::done_count;
use crate::state::{whole_secs, ListId};
use crate::style::Tint;
use crate::task::{priority_rank, status_rank, TASK_PRIORITY_NONE, TASK_STATUS_DONE, TASK_STATUS_ON_GOING, TASK_STATUS_UP_NEXT};
use crate::timer::{target_nanos, TimerKind, TimerState};
use crate::util::clock_text;
use crate::view::{hint_label, hint_of, HintReadout};
use crate::util::{duration_text, indicator_text};

verus! {

/// The tasks whose listing key is below `k`.
pub open spec fn key_below(k: nat) -> spec_fn(Task) -> bool {
    |t: Task| sort_key(t) < k
}

proof fn lemma_sort_key_bound(t: Task)
    ensures
        sort_key(t) < 20,
{
}

proof fn lemma_sorted_below(s: Seq<Task>, k: nat)
    ensures
        sorted_below(s, k).to_multiset() == s.filter(key_below(k)).to_multiset(),
        forall|i: int| 0 <= i < sorted_below(s, k).len() ==> sort_key(#[trigger] sorted_below(s, k)[i]) < k,
        forall|i: int, j: int| 0 <= i < j < sorted_below(s, k).len() ==> sort_key(sorted_below(s, k)[i])
            <= sort_key(sorted_below(s, k)[j]),
        forall|j: nat| #[trigger] sorted_below(s, k).filter(key_is(j)) == if j < k {
            s.filter(key_is(j))
        } else {
            Seq::<Task>::empty()
        },
    decreases k,
{
    broadcast use Seq::lemma_filter_len, Seq::lemma_filter_pred;

    if k == 0 {
        assert(sorted_below(s, 0) =~= Seq::<Task>::empty());
        assert(s.filter(key_below(0)) =~= Seq::<Task>::empty()) by {
            reveal(Seq::filter);
            lemma_filter_none(s, key_below(0));
        }
        assert forall|j: nat| #[trigger] sorted_below(s, k).filter(key_is(j)) == Seq::<Task>::empty() by {
            reveal(Seq::filter);
            assert(sorted_below(s, k).filter(key_is(j)) =~= Seq::<Task>::empty());
        }
    } else {
        let k1 = (k - 1) as nat;
        lemma_sorted_below(s, k1);
        let a = sorted_below(s, k1);
        let f = s.filter(key_is(k1));
        assert(sorted_below(s, k) == a + f);
        // multiset
        vstd::seq_lib::lemma_multiset_commutative(a, f);
        let w = s.filter(key_below(k));
        let np = |x: Task| !key_below(k1)(x);
        lemma_filter_split_multiset(w, key_below(k1));
        lemma_filter_filter(s, key_below(k), key_below(k1));
        lemma_filter_same(s, |x: Task| key_below(k)(x) && key_below(k1)(x), key_below(k1));
        lemma_filter_filter(s, key_below(k), np);
        lemma_filter_same(s, |x: Task| key_below(k)(x) && np(x), key_is(k1));
        assert(w.filter(np) == f);
        // order
        assert forall|i: int, j: int| 0 <= i < j < (a + f).len() implies sort_key((a + f)[i]) <= sort_key(
            (a + f)[j],
        ) by {
            if j < a.len() {
            } else if i < a.len() {
                assert(sort_key(a[i]) < k1);
                assert(key_is(k1)(f[j - a.len()]));
            } else {
                assert(key_is(k1)(f[i - a.len()]));
                assert(key_is(k1)(f[j - a.len()]));
            }
        }
        assert forall|i: int| 0 <= i < (a + f).len() implies sort_key(#[trigger] (a + f)[i]) < k by {
            if i >= a.len() {
                assert(key_is(k1)(f[i - a.len()]));
            }
        }
        // stability
        assert forall|j: nat| #[trigger] sorted_below(s, k).filter(key_is(j)) == if j < k {
            s.filter(key_is(j))
        } else {
            Seq::<Task>::empty()
        } by {
            Seq::filter_distributes_over_add(a, f, key_is(j));
            lemma_filter_filter(s, key_is(k1), key_is(j));
            if j == k1 {
                lemma_filter_same(s, |t: Task| key_is(k1)(t) && key_is(j)(t), key_is(k1));
                assert(a.filter(key_is(j)) =~= Seq::<Task>::empty());
                assert(Seq::<Task>::empty() + f =~= f);
            } else {
                lemma_filter_same(s, |t: Task| key_is(k1)(t) && key_is(j)(t), |t: Task| false);
                lemma_filter_none(s, |t: Task| false);
                assert(a.filter(key_is(j)) + Seq::<Task>::empty() =~= a.filter(key_is(j)));
            }
        }
    }
}

proof fn lemma_filter_none(s: Seq<Task>, p: spec_fn(Task) -> bool)
    requires
        forall|t: Task| !#[trigger] p(t),
    ensures
        s.filter(p) == Seq::<Task>::empty(),
    decreases s.len(),
{
    reveal(Seq::filter);
    if s.len() > 0 {
        lemma_filter_none(s.drop_last(), p);
    }
    assert(s.filter(p) =~= Seq::<Task>::empty());
}

/// Tasks are listed by priority, then status: the listing holds the same
/// tasks, in ascending listing key, and tasks with the same key keep their
/// order.
pub proof fn lemma_tasks_listed_in_order(s: Seq<Task>)
    ensures
        sorted_tasks(s).to_multiset() == s.to_multiset(),
        forall|i: int, j: int| 0 <= i < j < sorted_tasks(s).len() ==> sort_key(sorted_tasks(s)[i]) <= sort_key(
            sorted_tasks(s)[j],
        ),
        forall|k: nat| #[trigger] sorted_tasks(s).filter(key_is(k)) == s.filter(key_is(k)) || k >= 20,
{
    lemma_sorted_below(s, 20);
    assert forall|t: Task| #[trigger] key_below(20)(t) == (|t: Task| true)(t) by {
        lemma_sort_key_bound(t);
    }
    lemma_filter_same(s, key_below(20), |t: Task| true);
    crate::seqs::lemma_filter_all_kept(s);
}

/// A reload lists exactly the tasks that are not hidden, and a non-empty
/// list has its selection on one of its rows; when the previously selected
/// task is still listed, the selection stays on it.
pub proof fn lemma_reload_selection_in_range(a: &App, ts2: Seq<Task>, b: &App)
    requires
        Task::reload_core(a, ts2, b),
        ts2.len() <= usize::MAX,
    ensures
        ({
            let ts = sorted_tasks(ts2);
            let hide = a.hide_done_tasks && !a.board_view;
            &&& b.items@.len() == indices_where(ts.len() as int, shown(ts, hide)).len()
            &&& b.items@.len() > 0 ==> b.selected_task_index.row->0 < b.items@.len()
            &&& ({
                let title = selected_title(ts2, a.selected_task_index.row);
                let ni = title_index(ts, title);
                first_titled(ts, title, ts.len() as int) is Some && shown(ts, hide)(ni)
                    ==> b.items@[b.selected_task_index.row->0 as int] == crate::state::ListRow::Task(ni as usize)
                    && ts[ni].title@ == title
            })
        }),
{
    let ts = sorted_tasks(ts2);
    let hide = a.hide_done_tasks && !a.board_view;
    let keep = shown(ts, hide);
    lemma_tasks_listed_in_order(ts2);
    vstd::seq_lib::to_multiset_len(ts2);
    vstd::seq_lib::to_multiset_len(ts);
    let title = selected_title(ts2, a.selected_task_index.row);
    let ni = title_index(ts, title);
    lemma_first_titled_range(ts, title, ts.len() as int);
    let idx = indices_where(ts.len() as int, keep);
    assert(b.items@.len() == idx.len());
    let sel = list_selection(ts, title, hide);
    crate::seqs::lemma_indices_where_facts(ts.len() as int, keep);
    if 0 <= ni < ts.len() && keep(ni) {
        lemma_indices_where_prefix(ni, ts.len() as int, keep);
        assert(sel == indices_where(ni, keep).len());
        assert(sel < idx.len());
        assert(b.items@[sel] == crate::state::ListRow::Task(idx[sel]));
    } else {
        assert(sel == 0);
    }
}

/// The project list shows one row per project.
pub proof fn lemma_projects_listed_rows(a: &App, b: &App)
    requires
        projects_listed(a, b),
    ensures
        b.items@.len() == a.projects@.len(),
{
}

/// Showing the note list keeps the note selection on one of its notes.
pub proof fn lemma_notes_listed_selection(a: &App, b: &App)
    requires
        notes_listed(a, b),
    ensures
        b.items@.len() == a.notes@.len(),
        b.notes@.len() > 0 ==> b.note_ok(),
{
}

/// When the board follows the selection, its focus and the action target
/// agree: the focused lane is the selected task's status, and the lane's
/// remembered row holds the selected task.
pub proof fn lemma_board_focus_matches_selection(a: &App, b: &App)
    requires
        a.task_ok(),
        status_position(a.cur_task().status@) is Some,
        a.synced_board(b),
        a.cur_tasks().len() <= usize::MAX,
    ensures
        b.board_lane == status_position(a.cur_task().status@)->0,
        b.board_lane_states@[b.board_lane as int].row matches Some(r) && r < lane_rows(
            a.cur_tasks(),
            b.board_lane as int,
        ).len() && lane_rows(a.cur_tasks(), b.board_lane as int)[r as int] == a.tidx(),
{
    let ts = a.cur_tasks();
    let s = a.tidx();
    let lane = status_position(ts[s].status@)->0 as int;
    let keep = in_lane(ts, lane);
    assert(ts[s].status@ == status_name(lane));
    assert(keep(s));
    lemma_indices_where_prefix(s, ts.len() as int, keep);
    crate::seqs::lemma_indices_where_facts(s, keep);
    let row = indices_where(s, keep).len() as int;
    assert(sync_target(a.projects@, a.selected_project_index.row, a.selected_task_index.row) == Some((lane, row)));
    assert(b.board_lane_states@[lane] == Selection { row: Some(row as usize) });
    assert(lane_rows(ts, lane) == indices_where(ts.len() as int, keep));
}

/// The list keys stay in the list: a step down or up in a list of `len`
/// rows lands on a row, wrapping around at both ends.
pub proof fn lemma_list_steps_stay_in_range(cur: Option<usize>, len: nat)
    requires
        0 < len <= usize::MAX,
        cur matches Some(i) ==> i < len,
    ensures
        step_down(cur, len) < len,
        step_up(cur, len) < len,
        cur == Some((len - 1) as usize) ==> step_down(cur, len) == 0,
        cur == Some(0usize) ==> step_up(cur, len) == len - 1,
{
}

/// A time span is never shown as an empty text.
pub proof fn lemma_duration_text_nonempty(start: Option<u64>, end: Option<u64>)
    ensures
        duration_text(start, end).len() > 0,
{
    reveal_strlit("Invalid time range");
    reveal_strlit("Task not completed");
    reveal_strlit("s");
}

/// A priority mark has at most three `!`.
pub proof fn lemma_priority_mark_at_most_three(value: u8)
    ensures
        indicator_text(value).len() <= 3,
{
}

/// Pausing then resuming keeps the timer: it runs again with at least the
/// time it had (exactly that time when it was paused already), the same
/// kind, target and task.
pub proof fn lemma_pause_then_resume_keeps_time(t: TimerState, u: TimerState, v: TimerState)
    requires
        t.paused_to(u),
        u.resumed_to(v),
    ensures
        v.running(),
        v.accumulated_nanos >= t.accumulated_nanos,
        !t.running() ==> v.accumulated_nanos == t.accumulated_nanos,
        v.kind == t.kind,
        v.target_secs == t.target_secs,
        v.bound == t.bound,
        v.rung == t.rung,
{
}

/// A paused timer's time is frozen: after a pause at some reading, the
/// time shown is the time shown at that reading, whatever the clock reads
/// later.
pub proof fn lemma_pause_freezes_elapsed(t: TimerState, u: TimerState, n: u128, later: u128)
    requires
        t.paused_with(u, n),
    ensures
        u.elapsed_at(later) == t.elapsed_at(n),
        !u.running(),
{
}

/// A countdown rings once: a tick rings exactly when a countdown that has
/// not rung has reached its target, and after a tick that rang no later
/// tick rings until a new timer is set.
pub proof fn lemma_countdown_rings_once(a: &App, b: &App, c: &App, e1: u128, e2: u128, r1: bool, r2: bool)
    requires
        App::ticked_at(a, b, e1, r1),
        App::ticked_at(b, c, e2, r2),
    ensures
        r1 == (a.timer matches Some(t) && t.kind == crate::timer::TimerKind::Countdown && !t.rung
            && e1 >= crate::timer::target_nanos(t.target_secs)),
        r1 ==> !r2,
{
}

/// Stopping the timer twice is stopping it once: the second time changes
/// nothing.
pub proof fn lemma_settle_twice(a: &App, b: &App, c: &App)
    requires
        App::settled(a, b),
        App::settled(b, c),
    ensures
        *c == *b,
{
}

/// Deleting a task in board view keeps the board focus and the action
/// target in agreement: the focused lane's remembered row holds the newly
/// selected task.
pub proof fn lemma_delete_keeps_board_focus_on_selection(a: &App, b: &App)
    requires
        App::current_task_deleted(a, b),
        b.board_view,
        b.task_ok(),
        status_position(b.cur_task().status@) is Some,
        b.cur_tasks().len() <= usize::MAX,
    ensures
        b.board_lane == status_position(b.cur_task().status@)->0,
        b.board_lane_states@[b.board_lane as int].row matches Some(r) && r < lane_rows(
            b.cur_tasks(),
            b.board_lane as int,
        ).len() && lane_rows(b.cur_tasks(), b.board_lane as int)[r as int] == b.tidx(),
{
    let m = choose|m: App| #[trigger] Task::changed(a, a.cur_tasks().remove(a.tidx()), &m)
        && b.selected_task_index == Selection { row: Some(match m.selected_task_index.row {
            Some(i) => if i == 0 { 0usize } else { (i - 1) as usize },
            None => usize::MAX,
        }) }
        && (if m.board_view {
            crate::task::board_after(&m, sync_target(m.projects@, m.selected_project_index.row, b.selected_task_index.row), b)
        } else {
            b.board_lane == m.board_lane && b.board_lane_states == m.board_lane_states
        })
        && m.with_sel(crate::state::ListId::Tasks, b.selected_task_index, &App {
            board_lane: m.board_lane,
            board_lane_states: m.board_lane_states,
            ..*b
        });
    let pre = App { board_lane: m.board_lane, board_lane_states: m.board_lane_states, ..*b };
    assert(pre == App { selected_task_index: b.selected_task_index, ..m });
    assert(pre.synced_board(b));
    lemma_board_focus_matches_selection(&pre, b);
}

/// Listings built from tasks that agree on every key group below `k` agree.
proof fn lemma_sorted_below_same_groups(s: Seq<Task>, x: Seq<Task>, k: nat)
    requires
        forall|j: nat| j < k ==> #[trigger] x.filter(key_is(j)) == s.filter(key_is(j)),
    ensures
        sorted_below(x, k) == sorted_below(s, k),
    decreases k,
{
    if k > 0 {
        lemma_sorted_below_same_groups(s, x, (k - 1) as nat);
        assert(x.filter(key_is((k - 1) as nat)) == s.filter(key_is((k - 1) as nat)));
    }
}

/// Listing already listed tasks changes nothing.
pub proof fn lemma_listing_twice(s: Seq<Task>)
    ensures
        sorted_tasks(sorted_tasks(s)) == sorted_tasks(s),
{
    lemma_tasks_listed_in_order(s);
    let x = sorted_tasks(s);
    assert forall|j: nat| j < 20 implies #[trigger] x.filter(key_is(j)) == s.filter(key_is(j)) by {
        assert(x.filter(key_is(j)) == s.filter(key_is(j)) || j >= 20);
    }
    lemma_sorted_below_same_groups(s, x, 20);
}

/// `t` in the task list reloads it with the other setting for completed
/// tasks.
proof fn lemma_toggle_done(a: &App, b: &App, o: crate::state::KeyOutcome)
    requires
        !a.board_view,
        crate::handlers::tasks_key(a, b, crate::state::Key::Char('t'), o),
    ensures
        Task::loaded(&App { hide_done_tasks: !a.hide_done_tasks, ..*a }, b),
        !b.board_view,
        b.hide_done_tasks == !a.hide_done_tasks,
{
}

/// Pressing `t` twice in the task list shows completed tasks as before: the
/// flag is back, the tasks keep their order, and the rows are those of a
/// plain reload.
#[verifier::spinoff_prover]
#[verifier::rlimit(40)]
pub proof fn lemma_toggle_done_twice(
    a: &App,
    b: &App,
    c: &App,
    d: &App,
    o1: crate::state::KeyOutcome,
    o2: crate::state::KeyOutcome,
)
    requires
        !a.board_view,
        crate::handlers::tasks_key(a, b, crate::state::Key::Char('t'), o1),
        crate::handlers::tasks_key(b, c, crate::state::Key::Char('t'), o2),
        Task::loaded(a, d),
    ensures
        c.hide_done_tasks == a.hide_done_tasks,
        c.items@ == d.items@,
        crate::task::projects_view(c.projects@) == crate::task::projects_view(d.projects@),
{
    lemma_toggle_done(a, b, o1);
    lemma_toggle_done(b, c, o2);
    lemma_listing_twice(a.cur_tasks());
    assert(c.projects@[a.pidx()].tasks@ == d.projects@[a.pidx()].tasks@);
    assert(crate::task::projects_view(c.projects@) =~= crate::task::projects_view(d.projects@));
}

/// A reload lists the tasks by priority, in the order 1 (`!!!`), 2, 3, no
/// priority, with unknown values before them all; tasks of one priority
/// are listed On Going, then Up Next, then Done, with unknown statuses
/// first.
pub proof fn lemma_listing_follows_priority_then_status(a: &App, b: &App)
    requires
        Task::loaded(a, b),
    ensures
        forall|i: int, j: int|
            0 <= i < j < b.cur_tasks().len() ==> {
                let p = #[trigger] b.cur_tasks()[i].priority;
                let q = #[trigger] b.cur_tasks()[j].priority;
                let s1 = b.cur_tasks()[i].status@;
                let s2 = b.cur_tasks()[j].status@;
                &&& q == 1 ==> p != 2 && p != 3 && p != TASK_PRIORITY_NONE
                &&& q == 2 ==> p != 3 && p != TASK_PRIORITY_NONE
                &&& q == 3 ==> p != TASK_PRIORITY_NONE
                &&& (p == 1 || p == 2 || p == 3 || p == TASK_PRIORITY_NONE) ==> (q == 1 || q == 2 || q == 3 || q
                    == TASK_PRIORITY_NONE)
                &&& p == q ==> {
                    &&& s2 == TASK_STATUS_ON_GOING@ ==> s1 != TASK_STATUS_UP_NEXT@ && s1 != TASK_STATUS_DONE@
                    &&& s2 == TASK_STATUS_UP_NEXT@ ==> s1 != TASK_STATUS_DONE@
                    &&& (s1 == TASK_STATUS_ON_GOING@ || s1 == TASK_STATUS_UP_NEXT@ || s1 == TASK_STATUS_DONE@) ==> (s2
                        == TASK_STATUS_ON_GOING@ || s2 == TASK_STATUS_UP_NEXT@ || s2 == TASK_STATUS_DONE@)
                }
            },
{
    let l = b.cur_tasks();
    assert(l == sorted_tasks(a.cur_tasks()));
    lemma_tasks_listed_in_order(a.cur_tasks());
    assert forall|i: int, j: int| 0 <= i < j < l.len() implies {
        let p = #[trigger] l[i].priority;
        let q = #[trigger] l[j].priority;
        let s1 = l[i].status@;
        let s2 = l[j].status@;
        &&& q == 1 ==> p != 2 && p != 3 && p != TASK_PRIORITY_NONE
        &&& q == 2 ==> p != 3 && p != TASK_PRIORITY_NONE
        &&& q == 3 ==> p != TASK_PRIORITY_NONE
        &&& (p == 1 || p == 2 || p == 3 || p == TASK_PRIORITY_NONE) ==> (q == 1 || q == 2 || q == 3 || q
            == TASK_PRIORITY_NONE)
        &&& p == q ==> {
            &&& s2 == TASK_STATUS_ON_GOING@ ==> s1 != TASK_STATUS_UP_NEXT@ && s1 != TASK_STATUS_DONE@
            &&& s2 == TASK_STATUS_UP_NEXT@ ==> s1 != TASK_STATUS_DONE@
            &&& (s1 == TASK_STATUS_ON_GOING@ || s1 == TASK_STATUS_UP_NEXT@ || s1 == TASK_STATUS_DONE@) ==> (s2
                == TASK_STATUS_ON_GOING@ || s2 == TASK_STATUS_UP_NEXT@ || s2 == TASK_STATUS_DONE@)
        }
    } by {
        reveal_strlit("OnGoing");
        reveal_strlit("UpNext");
        reveal_strlit("Done");
        assert(TASK_STATUS_ON_GOING@.len() == 7);
        assert(TASK_STATUS_UP_NEXT@.len() == 6);
        assert(TASK_STATUS_DONE@.len() == 4);
        assert(sort_key(l[i]) <= sort_key(l[j]));
        assert(status_rank(l[i].status@) <= 3);
        assert(status_rank(l[j].status@) <= 3);
        assert(priority_rank(l[i].priority) <= priority_rank(l[j].priority));
    }
}

/// The list keys move one row: a step down from a row that is not the
/// last lands just below it, from the last row on the first; a step up is
/// its inverse, and the reverse.
pub proof fn lemma_list_steps_move_one_row(i: usize, len: nat)
    requires
        i < len,
        len <= usize::MAX,
    ensures
        i + 1 < len ==> step_down(Some(i), len) == i + 1,
        i + 1 == len ==> step_down(Some(i), len) == 0,
        step_up(Some(step_down(Some(i), len)), len) == i,
        step_down(Some(step_up(Some(i), len)), len) == i,
        step_down(None, len) == 0,
        step_up(None, len) == 0,
{
}

/// Moving down then up (or up then down) in a list comes back to the row
/// it started on.
pub proof fn lemma_next_then_previous_returns(a: &App, b: &App, c: &App, id: ListId, i: usize, len: usize)
    requires
        0 < len,
        a.sel_of(id).row == Some(i),
        i < len,
        a.with_sel(id, Selection { row: Some(step_down(a.sel_of(id).row, len as nat)) }, b),
        b.with_sel(id, Selection { row: Some(step_up(b.sel_of(id).row, len as nat)) }, c),
    ensures
        *c == *a,
{
    lemma_list_steps_move_one_row(i, len as nat);
}

/// The done counter of a project counts exactly its tasks whose status is
/// Done.
pub proof fn lemma_done_count_counts_done_tasks(ts: Seq<Task>)
    ensures
        done_count(ts) == ts.filter(|t: Task| t.status@ == TASK_STATUS_DONE@).len(),
        done_count(ts) <= ts.len(),
    decreases ts.len(),
{
    reveal(Seq::filter);
    if ts.len() > 0 {
        lemma_done_count_counts_done_tasks(ts.drop_last());
    }
}

/// The hint shows a countdown's time left, in whole seconds, zero once it
/// has run down, and turns red while running in its last ten seconds; a
/// stopwatch shows its elapsed whole seconds.
pub proof fn lemma_hint_shows_time_left(t: TimerState, e: u128, r: HintReadout)
    requires
        hint_of(t, e, r),
    ensures
        t.kind == TimerKind::Countdown && e < target_nanos(t.target_secs) ==> r.text@ == "▼"@ + " "@ + clock_text(
            whole_secs((target_nanos(t.target_secs) - e) as u128),
        ) + " "@ + hint_label(t),
        t.kind == TimerKind::Countdown && e >= target_nanos(t.target_secs) ==> r.text@ == "▼"@ + " "@ + clock_text(0)
            + " "@ + hint_label(t),
        t.kind == TimerKind::Countdown && t.running() && e < target_nanos(t.target_secs) ==> (r.tint == Tint::Red
            <==> whole_secs((target_nanos(t.target_secs) - e) as u128) <= 10),
        t.kind == TimerKind::Countdown && t.running() && e >= target_nanos(t.target_secs) ==> r.tint == Tint::Red,
        t.kind == TimerKind::Stopwatch ==> r.text@ == (if t.running() { "▶"@ } else { "❚❚"@ }) + " "@
            + clock_text(whole_secs(e)) + " "@ + hint_label(t),
{
    assert(whole_secs(0u128) == 0);
}

} // verus!
