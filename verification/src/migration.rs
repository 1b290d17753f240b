//! Versions of the data file and the migrations between them.
use vstd::prelude::*;

use crate::project::Project;
use crate::task::{copy_projects, copy_task, projects_view, Task, TASK_PRIORITY_NONE};
use crate::text::same_text;

verus! {

/// Number of data file versions.
pub const JSON_VERSION_COUNT: usize = 5;

/// The name of data file version `i`, oldest first: 0.1.0, 0.2.0, 0.2.2,
/// the timer fields, the notes.
pub open spec fn version_name(i: int) -> Seq<char> {
    if i == 0 {
        "6ad96"@
    } else if i == 1 {
        "911fc"@
    } else if i == 2 {
        "a4e1b"@
    } else if i == 3 {
        "c8f21"@
    } else {
        "e5a1c"@
    }
}

/// The position of a version name among the versions (the first one that
/// matches), if it is one.
pub open spec fn version_position(v: Seq<char>) -> Option<nat> {
    if v == version_name(0) {
        Some(0)
    } else if v == version_name(1) {
        Some(1)
    } else if v == version_name(2) {
        Some(2)
    } else if v == version_name(3) {
        Some(3)
    } else if v == version_name(4) {
        Some(4)
    } else {
        None
    }
}

/// `u` is task `t` after migration step `k`: step 1 adds the priority (none),
/// step 2 the note (empty), step 3 the timer fields (zero); the other steps
/// leave the task as it is.
pub open spec fn migrated_task(k: int, t: Task, u: Task) -> bool {
    if k == 1 {
        u == Task { priority: TASK_PRIORITY_NONE, ..t }
    } else if k == 2 {
        u.note@ == Seq::<char>::empty() && u == Task { note: u.note, ..t }
    } else if k == 3 {
        u == Task { time_spent_secs: 0, estimated_hours: 0, ..t }
    } else {
        u == t
    }
}

/// `qs` is `ps` after migration step `k`: the same projects with the same
/// titles, each task migrated.
pub open spec fn migration_step(k: int, ps: Seq<(Seq<char>, Seq<Task>)>, qs: Seq<(Seq<char>, Seq<Task>)>) -> bool {
    &&& qs.len() == ps.len()
    &&& forall|i: int| 0 <= i < ps.len() ==> #[trigger] qs[i].0 == ps[i].0
    &&& forall|i: int| 0 <= i < ps.len() ==> #[trigger] qs[i].1.len() == ps[i].1.len()
    &&& forall|i: int, j: int| 0 <= i < ps.len() && 0 <= j < ps[i].1.len() ==> migrated_task(k, ps[i].1[j], #[trigger] qs[i].1[j])
}

/// `r` is the migrations from the version at `start` on, applied to
/// `data`: one entry per later version, in order, each holding the
/// version's name and the data migrated up to it.
pub open spec fn migration_chain(start: int, data: Seq<(Seq<char>, Seq<Task>)>, r: Seq<(&'static str, Vec<Project>)>) -> bool {
    &&& r.len() == JSON_VERSION_COUNT - 1 - start
    &&& forall|j: int| 0 <= j < r.len() ==> #[trigger] r[j].0@ == version_name(start + 1 + j)
    &&& r.len() > 0 ==> migration_step(start + 1, data, projects_view(r[0].1@))
    &&& forall|j: int| 0 < j < r.len() ==> migration_step(start + 1 + j, projects_view(r[j - 1].1@), projects_view(#[trigger] r[j].1@))
}

/// The name of data file version `i`.
pub fn json_version(i: usize) -> (r: &'static str)
    requires
        i < JSON_VERSION_COUNT,
    ensures
        r@ == version_name(i as int),
{
    if i == 0 {
        "6ad96"
    } else if i == 1 {
        "911fc"
    } else if i == 2 {
        "a4e1b"
    } else if i == 3 {
        "c8f21"
    } else {
        "e5a1c"
    }
}

/// The names of all data file versions, oldest first.
pub fn json_versions() -> (r: Vec<&'static str>)
    ensures
        r@.len() == JSON_VERSION_COUNT,
        forall|i: int| 0 <= i < JSON_VERSION_COUNT ==> #[trigger] r@[i]@ == version_name(i),
{
    let mut r: Vec<&'static str> = Vec::new();
    let mut i: usize = 0;
    while i < JSON_VERSION_COUNT
        invariant
            i <= JSON_VERSION_COUNT,
            r@.len() == i,
            forall|k: int| 0 <= k < i ==> #[trigger] r@[k]@ == version_name(k),
        decreases JSON_VERSION_COUNT - i,
    {
        r.push(json_version(i));
        i = i + 1;
    }
    r
}

/// The position of a version name among the versions.
pub fn version_index(version: &str) -> (r: Option<usize>)
    ensures
        match version_position(version@) {
            Some(i) => r == Some(i as usize),
            None => r is None,
        },
{
    let mut i: usize = 0;
    while i < JSON_VERSION_COUNT
        invariant
            i <= JSON_VERSION_COUNT,
            forall|k: int| 0 <= k < i ==> version_name(k) != version@,
        decreases JSON_VERSION_COUNT - i,
    {
        if same_text(json_version(i), version) {
            return Some(i);
        }
        i = i + 1;
    }
    None
}

/// Task `t` after migration step `k`.
fn migrate_task(k: usize, t: &Task) -> (u: Task)
    ensures
        migrated_task(k as int, *t, u),
{
    let mut u = copy_task(t);
    if k == 1 {
        u.priority = TASK_PRIORITY_NONE;
    } else if k == 2 {
        u.note = String::new();
    } else if k == 3 {
        u.time_spent_secs = 0;
        u.estimated_hours = 0;
    }
    u
}

/// The projects after migration step `k`.
fn migrate(k: usize, data: &Vec<Project>) -> (r: Vec<Project>)
    ensures
        migration_step(k as int, projects_view(data@), projects_view(r@)),
{
    let ghost ps = projects_view(data@);
    let mut out: Vec<Project> = Vec::new();
    let mut i: usize = 0;
    while i < data.len()
        invariant
            i <= data@.len(),
            ps == projects_view(data@),
            out@.len() == i,
            forall|a: int| 0 <= a < i ==> #[trigger] projects_view(out@)[a].0 == ps[a].0,
            forall|a: int| 0 <= a < i ==> #[trigger] projects_view(out@)[a].1.len() == ps[a].1.len(),
            forall|a: int, b: int| 0 <= a < i && 0 <= b < ps[a].1.len() ==> migrated_task(
                k as int,
                ps[a].1[b],
                #[trigger] projects_view(out@)[a].1[b],
            ),
        decreases data.len() - i,
    {
        let mut tasks: Vec<Task> = Vec::new();
        let mut j: usize = 0;
        while j < data[i].tasks.len()
            invariant
                i < data@.len(),
                j <= data@[i as int].tasks@.len(),
                tasks@.len() == j,
                forall|b: int| 0 <= b < j ==> migrated_task(k as int, data@[i as int].tasks@[b], #[trigger] tasks@[b]),
            decreases data[i as int].tasks@.len() - j,
        {
            tasks.push(migrate_task(k, &data[i].tasks[j]));
            j = j + 1;
        }
        let ghost before = out@;
        out.push(Project { title: data[i].title.clone(), tasks });
        proof {
            assert forall|a: int| 0 <= a < before.len() implies #[trigger] projects_view(out@)[a] == projects_view(before)[a] by {
                assert(out@[a] == before[a]);
            }
        }
        i = i + 1;
    }
    out
}

impl Migration {
    /// Step 1: every task gets the priority field, set to none.
    fn add_priority(data: Vec<Project>) -> (r: Vec<Project>)
        ensures
            migration_step(1, projects_view(data@), projects_view(r@)),
    {
        migrate(1, &data)
    }

    /// Step 2: every task gets the note field, empty.
    fn add_note(data: Vec<Project>) -> (r: Vec<Project>)
        ensures
            migration_step(2, projects_view(data@), projects_view(r@)),
    {
        migrate(2, &data)
    }

    /// Step 3: every task gets the timer fields, zero.
    fn add_timer_fields(data: Vec<Project>) -> (r: Vec<Project>)
        ensures
            migration_step(3, projects_view(data@), projects_view(r@)),
    {
        migrate(3, &data)
    }

    /// The migration that leads to version `k`; the notes version only
    /// changes the stored version.
    fn migration_to(k: usize, data: Vec<Project>) -> (r: Vec<Project>)
        ensures
            migration_step(k as int, projects_view(data@), projects_view(r@)),
    {
        if k == 1 {
            Migration::add_priority(data)
        } else if k == 2 {
            Migration::add_note(data)
        } else if k == 3 {
            Migration::add_timer_fields(data)
        } else {
            let ghost ps = projects_view(data@);
            assert forall|i: int, j: int| 0 <= i < ps.len() && 0 <= j < ps[i].1.len() implies migrated_task(
                k as int,
                ps[i].1[j],
                #[trigger] ps[i].1[j],
            ) by {}
            data
        }
    }

    /// The migrations that bring data of version `version` up to the
    /// latest version: for each later version, in order, its name and the
    /// data migrated up to it. An unknown version gets none.
    pub fn get_migrations(version: &str, original_json: Vec<Project>) -> (r: Vec<(&'static str, Vec<Project>)>)
        ensures
            match version_position(version@) {
                Some(s) => migration_chain(s as int, projects_view(original_json@), r@),
                None => r@.len() == 0,
            },
    {
        let start = match version_index(version) {
            Some(s) => s,
            None => {
                return Vec::new();
            },
        };
        let ghost data = projects_view(original_json@);
        let mut results: Vec<(&'static str, Vec<Project>)> = Vec::new();
        let mut current = original_json;
        let mut k: usize = start + 1;
        while k < JSON_VERSION_COUNT
            invariant
                start < JSON_VERSION_COUNT,
                start + 1 <= k <= JSON_VERSION_COUNT,
                results@.len() == k - start - 1,
                forall|j: int| 0 <= j < results@.len() ==> #[trigger] results@[j].0@ == version_name(start + 1 + j),
                results@.len() > 0 ==> migration_step(start + 1, data, projects_view(results@[0].1@)),
                forall|j: int| 0 < j < results@.len() ==> migration_step(
                    start + 1 + j,
                    projects_view(results@[j - 1].1@),
                    projects_view(#[trigger] results@[j].1@),
                ),
                results@.len() == 0 ==> projects_view(current@) == data,
                results@.len() > 0 ==> projects_view(current@) == projects_view(results@.last().1@),
            decreases JSON_VERSION_COUNT - k,
        {
            let ghost before = projects_view(current@);
            current = Migration::migration_to(k, current);
            let copy = copy_projects(&current);
            let ghost prev = results@;
            results.push((json_version(k), copy));
            proof {
                assert forall|j: int| 0 <= j < prev.len() implies #[trigger] results@[j] == prev[j] by {}
                if prev.len() > 0 {
                    assert(results@[prev.len() - 1] == prev.last());
                }
            }
            k = k + 1;
        }
        results
    }
}

/// The migrations of the data file.
pub struct Migration;

/// The versions are told apart: the name of version `i` stands at position
/// `i`, so the migrations from it are the `JSON_VERSION_COUNT - 1 - i`
/// later ones, ending at the latest version.
pub proof fn lemma_version_names_distinct(i: int)
    requires
        0 <= i < JSON_VERSION_COUNT,
    ensures
        version_position(version_name(i)) == Some(i as nat),
{
    reveal_strlit("6ad96");
    reveal_strlit("911fc");
    reveal_strlit("a4e1b");
    reveal_strlit("c8f21");
    reveal_strlit("e5a1c");
    assert(version_name(0)[0] == '6');
    assert(version_name(1)[0] == '9');
    assert(version_name(2)[0] == 'a');
    assert(version_name(3)[0] == 'c');
    assert(version_name(4)[0] == 'e');
}

/// Migrating from version `i` yields one entry per later version, the last
/// of them the latest version.
pub proof fn lemma_migrations_reach_latest(i: int, data: Seq<(Seq<char>, Seq<Task>)>, r: Seq<(&'static str, Vec<Project>)>)
    requires
        0 <= i < JSON_VERSION_COUNT,
        migration_chain(i, data, r),
    ensures
        r.len() == JSON_VERSION_COUNT - 1 - i,
        r.len() > 0 ==> r.last().0@ == version_name(JSON_VERSION_COUNT - 1),
{
    if r.len() > 0 {
        assert(r[r.len() - 1].0@ == version_name(i + 1 + (r.len() - 1)));
    }
}

/// Migrations keep the projects: every migrated version of the data has the
/// same projects, with the same titles and the same number of tasks, and
/// the tasks keep their titles and statuses.
pub proof fn lemma_migrations_keep_projects(
    i: int,
    data: Seq<(Seq<char>, Seq<Task>)>,
    r: Seq<(&'static str, Vec<Project>)>,
    j: int,
)
    requires
        0 <= i < JSON_VERSION_COUNT,
        migration_chain(i, data, r),
        0 <= j < r.len(),
    ensures
        projects_view(r[j].1@).len() == data.len(),
        forall|p: int| 0 <= p < data.len() ==> #[trigger] projects_view(r[j].1@)[p].0 == data[p].0,
        forall|p: int| 0 <= p < data.len() ==> #[trigger] projects_view(r[j].1@)[p].1.len() == data[p].1.len(),
        forall|p: int, t: int| 0 <= p < data.len() && 0 <= t < data[p].1.len() ==> {
            let u = #[trigger] projects_view(r[j].1@)[p].1[t];
            u.title == data[p].1[t].title && u.status == data[p].1[t].status
        },
    decreases j,
{
    let prev = if j == 0 { data } else { projects_view(r[j - 1].1@) };
    let cur = projects_view(r[j].1@);
    assert(migration_step(i + 1 + j, prev, cur));
    if j > 0 {
        lemma_migrations_keep_projects(i, data, r, j - 1);
    }
    assert forall|p: int, t: int| 0 <= p < data.len() && 0 <= t < data[p].1.len() implies {
        let u = #[trigger] cur[p].1[t];
        u.title == data[p].1[t].title && u.status == data[p].1[t].status
    } by {
        assert(prev[p].1.len() == data[p].1.len());
        assert(migrated_task(i + 1 + j, prev[p].1[t], cur[p].1[t]));
    }
}

/// The number of tasks over all projects.
pub open spec fn task_total(ps: Seq<(Seq<char>, Seq<Task>)>) -> nat
    decreases ps.len(),
{
    if ps.len() == 0 {
        0
    } else {
        task_total(ps.drop_last()) + ps.last().1.len()
    }
}

proof fn lemma_task_total_same(ps: Seq<(Seq<char>, Seq<Task>)>, qs: Seq<(Seq<char>, Seq<Task>)>)
    requires
        ps.len() == qs.len(),
        forall|p: int| 0 <= p < ps.len() ==> #[trigger] qs[p].1.len() == ps[p].1.len(),
    ensures
        task_total(qs) == task_total(ps),
    decreases ps.len(),
{
    if ps.len() > 0 {
        assert forall|p: int| 0 <= p < ps.drop_last().len() implies #[trigger] qs.drop_last()[p].1.len()
            == ps.drop_last()[p].1.len() by {
            assert(qs[p].1.len() == ps[p].1.len());
        }
        lemma_task_total_same(ps.drop_last(), qs.drop_last());
        assert(qs[qs.len() - 1].1.len() == ps[ps.len() - 1].1.len());
    }
}

/// Migrations neither add nor lose tasks: every migrated version of the data
/// holds as many tasks as the data it started from.
pub proof fn lemma_migrations_keep_task_total(
    i: int,
    data: Seq<(Seq<char>, Seq<Task>)>,
    r: Seq<(&'static str, Vec<Project>)>,
    j: int,
)
    requires
        0 <= i < JSON_VERSION_COUNT,
        migration_chain(i, data, r),
        0 <= j < r.len(),
    ensures
        task_total(projects_view(r[j].1@)) == task_total(data),
{
    lemma_migrations_keep_projects(i, data, r, j);
    lemma_task_total_same(data, projects_view(r[j].1@));
}

} // verus!
