use basilk::project::Project;
use basilk::selection::Selection;
use basilk::state::{App, ListRow, Save, ViewMode};
use basilk::task::{Task, TASK_PRIORITY_NONE, TASK_STATUS_DONE, TASK_STATUS_ON_GOING, TASK_STATUS_UP_NEXT};

fn task_app(projects: Vec<Project>) -> App {
    App {
        selected_project_index: Selection::with_selected(Some(0)),
        selected_task_index: Selection::with_selected(Some(0)),
        selected_status_task_index: Selection::with_selected(Some(0)),
        selected_priority_task_index: Selection::with_selected(Some(0)),
        delete_confirm_index: Selection::with_selected(Some(0)),
        view_mode: ViewMode::default(),
        previous_view_mode: ViewMode::default(),
        projects,
        hide_done_tasks: true,
        timer: None,
        board_view: false,
        board_lane: 0,
        board_lane_states: [Selection::first(), Selection::first(), Selection::first()],
        notes: vec![],
        selected_note_index: Selection::with_selected(Some(0)),
        note_scroll: 0,
        items: vec![],
        saves: vec![],
    }
}

fn new_task(title: &str, status: &str, priority: u8) -> Task {
    Task {
        title: title.to_string(),
        status: status.to_string(),
        priority,
        created_at: Some(1_700_000_000),
        completed_at: None,
        note: String::new(),
        time_spent_secs: 0,
        estimated_hours: 0,
    }
}

fn app_with_tasks(tasks: Vec<Task>) -> App {
    task_app(vec![Project { title: "p".to_string(), tasks }])
}

fn last_saved_projects(app: &App) -> Vec<Project> {
    match app.saves.last() {
        Some(Save::Projects(v)) => v.clone(),
        _ => panic!("no projects saved"),
    }
}

#[test]
fn create_appends_task_and_persists() {
    let mut app = app_with_tasks(vec![]);

    Task::create(&mut app, "do it");

    let task = &app.projects[0].tasks[0];
    assert_eq!(task.title, "do it");
    assert_eq!(task.status, TASK_STATUS_UP_NEXT);
    assert_eq!(task.priority, TASK_PRIORITY_NONE);
    assert!(task.created_at.is_some());
    assert_eq!(app.items.len(), 1);
    assert_eq!(last_saved_projects(&app), app.projects);
}

#[test]
fn task_create_with_empty_value_is_a_no_op() {
    let mut app = app_with_tasks(vec![]);

    Task::create(&mut app, "");

    assert!(app.projects[0].tasks.is_empty());
}

#[test]
fn change_status_to_done_sets_completed_at_and_clears_priority() {
    let mut app = app_with_tasks(vec![new_task("t", TASK_STATUS_ON_GOING, 1)]);
    app.hide_done_tasks = false;

    Task::change_status(&mut app, TASK_STATUS_DONE);

    let task = &app.projects[0].tasks[0];
    assert_eq!(task.status, TASK_STATUS_DONE);
    assert_eq!(task.priority, TASK_PRIORITY_NONE);
    assert!(task.completed_at.is_some());
}

#[test]
fn change_status_away_from_done_clears_completed_at() {
    let mut task = new_task("t", TASK_STATUS_DONE, TASK_PRIORITY_NONE);
    task.completed_at = Some(1_700_000_100);
    let mut app = app_with_tasks(vec![task]);
    app.hide_done_tasks = false;

    Task::change_status(&mut app, TASK_STATUS_ON_GOING);

    let task = &app.projects[0].tasks[0];
    assert_eq!(task.status, TASK_STATUS_ON_GOING);
    assert_eq!(task.completed_at, None);
}

#[test]
fn change_priority_updates_selected_task() {
    let mut app = app_with_tasks(vec![new_task("t", TASK_STATUS_UP_NEXT, TASK_PRIORITY_NONE)]);

    Task::change_priority(&mut app, 2);

    assert_eq!(app.projects[0].tasks[0].priority, 2);
}

#[test]
fn rename_and_update_note_modify_selected_task() {
    let mut app = app_with_tasks(vec![new_task("old", TASK_STATUS_UP_NEXT, TASK_PRIORITY_NONE)]);

    Task::rename(&mut app, "new");
    Task::update_note(&mut app, "a note");

    let task = &app.projects[0].tasks[0];
    assert_eq!(task.title, "new");
    assert_eq!(task.note, "a note");
}

#[test]
fn delete_removes_selected_task() {
    let mut app = app_with_tasks(vec![
        new_task("t1", TASK_STATUS_UP_NEXT, TASK_PRIORITY_NONE),
        new_task("t2", TASK_STATUS_UP_NEXT, TASK_PRIORITY_NONE),
    ]);
    app.selected_task_index.select(Some(1));

    Task::delete(&mut app);

    assert_eq!(app.projects[0].tasks.len(), 1);
    assert_eq!(app.projects[0].tasks[0].title, "t1");
}

#[test]
fn add_time_spent_accumulates_and_persists() {
    let mut app = app_with_tasks(vec![new_task("t", TASK_STATUS_UP_NEXT, TASK_PRIORITY_NONE)]);

    Task::add_time_spent(&mut app, 0, "t", 120);
    Task::add_time_spent(&mut app, 0, "t", 30);

    assert_eq!(app.projects[0].tasks[0].time_spent_secs, 150);
    assert_eq!(last_saved_projects(&app)[0].tasks[0].time_spent_secs, 150);
}

#[test]
fn add_time_spent_ignores_zero_secs_and_missing_tasks() {
    let mut app = app_with_tasks(vec![new_task("t", TASK_STATUS_UP_NEXT, TASK_PRIORITY_NONE)]);

    Task::add_time_spent(&mut app, 0, "t", 0);
    Task::add_time_spent(&mut app, 0, "ghost", 60);
    Task::add_time_spent(&mut app, 9, "t", 60);

    assert_eq!(app.projects[0].tasks[0].time_spent_secs, 0);
}

#[test]
fn update_estimate_changes_selected_task_and_persists() {
    let mut app = app_with_tasks(vec![new_task("t", TASK_STATUS_UP_NEXT, TASK_PRIORITY_NONE)]);

    Task::update_estimate(&mut app, 500);

    assert_eq!(app.projects[0].tasks[0].estimated_hours, 500);
    assert_eq!(last_saved_projects(&app)[0].tasks[0].estimated_hours, 500);
}

#[test]
fn new_tasks_have_no_estimate() {
    let mut app = app_with_tasks(vec![]);

    Task::create(&mut app, "do it");

    assert_eq!(app.projects[0].tasks[0].estimated_hours, 0);
}

#[test]
fn estimate_progress_is_none_without_estimate() {
    let mut task = new_task("t", TASK_STATUS_UP_NEXT, TASK_PRIORITY_NONE);
    task.time_spent_secs = 3600;
    task.estimated_hours = 0;

    assert_eq!(task.estimate_progress(0), None);
}

#[test]
fn estimate_progress_rounds_and_includes_extra_secs() {
    let mut task = new_task("t", TASK_STATUS_UP_NEXT, TASK_PRIORITY_NONE);
    task.estimated_hours = 10; // 36000 secs

    task.time_spent_secs = 3600; // 10%
    assert_eq!(task.estimate_progress(0), Some(10));
    // extra (unsettled timer) time counts towards the progress
    assert_eq!(task.estimate_progress(1800), Some(15));

    task.time_spent_secs = 36360; // 101%
    assert_eq!(task.estimate_progress(0), Some(101));
}

#[test]
fn estimate_progress_rounds_half_up() {
    let mut task = new_task("t", TASK_STATUS_UP_NEXT, TASK_PRIORITY_NONE);
    task.estimated_hours = 1; // 3600 secs
    task.time_spent_secs = 18; // 0.5%
    assert_eq!(task.estimate_progress(0), Some(1));
    task.time_spent_secs = 17; // 0.47%
    assert_eq!(task.estimate_progress(0), Some(0));
}

#[test]
fn load_items_sorts_by_priority_then_status() {
    let mut app = app_with_tasks(vec![
        new_task("done-task", TASK_STATUS_DONE, TASK_PRIORITY_NONE),
        new_task("up-next-low", TASK_STATUS_UP_NEXT, 3),
        new_task("on-going", TASK_STATUS_ON_GOING, TASK_PRIORITY_NONE),
        new_task("up-next-high", TASK_STATUS_UP_NEXT, 1),
    ]);
    app.hide_done_tasks = false;

    Task::load_items(&mut app);

    let titles: Vec<&str> = app.projects[0].tasks.iter().map(|t| t.title.as_str()).collect();
    // Priority is the primary key (1, 3, then NONE); within the NONE
    // group the status order applies, so done tasks come last.
    assert_eq!(titles, vec!["up-next-high", "up-next-low", "on-going", "done-task"]);
}

#[test]
fn load_items_hides_done_tasks_when_enabled() {
    let mut app = app_with_tasks(vec![
        new_task("visible", TASK_STATUS_UP_NEXT, TASK_PRIORITY_NONE),
        new_task("hidden", TASK_STATUS_DONE, TASK_PRIORITY_NONE),
    ]);

    Task::load_items(&mut app);

    assert_eq!(app.items.len(), 1);
    assert_eq!(app.items[0], ListRow::Task(0));
}

#[test]
fn load_items_keeps_selection_on_the_same_task_after_resort() {
    let mut app = app_with_tasks(vec![
        new_task("a", TASK_STATUS_ON_GOING, TASK_PRIORITY_NONE),
        new_task("b", TASK_STATUS_UP_NEXT, TASK_PRIORITY_NONE),
    ]);
    app.selected_task_index.select(Some(0)); // task "a"

    Task::load_items(&mut app);

    let selected = Task::get_current(&app);
    assert_eq!(selected.title, "a");
}

#[test]
fn create_project_then_view_tasks_does_not_panic() {
    let mut app = task_app(vec![]);

    Project::create(&mut app, "todo");
    // This is what the fixed AddProject handler does: select the last index
    app.selected_project_index.select(Some(app.projects.len() - 1));

    Task::load_items(&mut app);

    assert!(app.items.is_empty());
}

#[test]
fn status_color_and_row_text() {
    assert_eq!(Task::get_status_color(&TASK_STATUS_UP_NEXT.to_string()), basilk::style::Tint::LightMagenta);
    assert_eq!(Task::get_status_color(&TASK_STATUS_ON_GOING.to_string()), basilk::style::Tint::Yellow);
    let mut task = new_task("t", TASK_STATUS_UP_NEXT, 1);
    task.estimated_hours = 1;
    task.time_spent_secs = 1800;
    let pieces = Task::repr_spans(&task, true);
    let text: String = pieces.iter().map(|p| p.text.as_str()).collect();
    assert!(text.contains("t"));
    assert!(text.contains("[50%]"));
}
