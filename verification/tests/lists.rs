use basilk::note::Note;
use basilk::project::Project;
use basilk::selection::{Board, Selection};
use basilk::state::{App, Save, ViewMode};
use basilk::style::Tint;
use basilk::task::{Task, TASK_PRIORITY_NONE, TASK_STATUS_DONE, TASK_STATUS_UP_NEXT};

fn list_app(projects: Vec<Project>) -> App {
    App {
        selected_project_index: Selection::with_selected(Some(0)),
        selected_task_index: Selection::with_selected(Some(0)),
        selected_status_task_index: Selection::with_selected(Some(0)),
        selected_priority_task_index: Selection::with_selected(Some(0)),
        delete_confirm_index: Selection::with_selected(Some(0)),
        view_mode: ViewMode::default(),
        previous_view_mode: ViewMode::default(),
        projects,
        hide_done_tasks: true,
        timer: None,
        board_view: false,
        board_lane: 0,
        board_lane_states: [Selection::first(), Selection::first(), Selection::first()],
        notes: vec![],
        selected_note_index: Selection::with_selected(Some(0)),
        note_scroll: 0,
        items: vec![],
        saves: vec![],
    }
}

fn list_task(title: &str, status: &str, priority: u8) -> Task {
    Task {
        title: title.to_string(),
        status: status.to_string(),
        priority,
        created_at: Some(1_700_000_000),
        completed_at: None,
        note: String::new(),
        time_spent_secs: 0,
        estimated_hours: 0,
    }
}

fn two_projects() -> Vec<Project> {
    vec![
        Project {
            title: "alpha".to_string(),
            tasks: vec![
                list_task("a1", TASK_STATUS_UP_NEXT, TASK_PRIORITY_NONE),
                list_task("a2", TASK_STATUS_UP_NEXT, 1),
            ],
        },
        Project { title: "beta".to_string(), tasks: vec![] },
    ]
}

fn make_note(title: &str, body: &str) -> Note {
    Note { title: title.to_string(), body: body.to_string(), created_at: Some(1_700_000_000), updated_at: None }
}

fn saved_projects(app: &App) -> Vec<Project> {
    match app.saves.last() {
        Some(Save::Projects(v)) => v.clone(),
        _ => panic!("no projects saved"),
    }
}

fn saved_notes(app: &App) -> Vec<Note> {
    match app.saves.last() {
        Some(Save::Notes(v)) => v.clone(),
        _ => panic!("no notes saved"),
    }
}

#[test]
fn move_next_wraps_and_ignores_empty() {
    let mut s = Selection::first();
    s.move_next(0);
    assert_eq!(s.selected(), Some(0));

    let mut s = Selection::with_selected(Some(1));
    s.move_next(2);
    assert_eq!(s.selected(), Some(0));
    s.move_next(2);
    assert_eq!(s.selected(), Some(1));
}

#[test]
fn move_prev_wraps_and_clamps_oob() {
    let mut s = Selection::first();
    s.move_prev(2);
    assert_eq!(s.selected(), Some(1));

    let mut s = Selection::with_selected(Some(9));
    s.move_prev(2);
    assert_eq!(s.selected(), Some(0));
}

#[test]
fn clamp_keeps_selection_in_bounds() {
    let mut s = Selection::with_selected(Some(5));
    s.clamp(2);
    assert_eq!(s.selected(), Some(1));

    let mut s = Selection::with_selected(Some(0));
    s.clamp(0);
    assert_eq!(s.selected(), Some(0));
}

#[test]
fn after_delete_selects_predecessor() {
    let mut s = Selection::first();
    s.after_delete(1, 2);
    assert_eq!(s.selected(), Some(0));

    let mut s = Selection::first();
    s.after_delete(2, 2);
    assert_eq!(s.selected(), Some(1));

    let mut s = Selection::first();
    s.after_delete(0, 0);
    assert_eq!(s.selected(), Some(0));
}

#[test]
fn board_rows_remember_a_row_per_lane() {
    let mut b = Board::new();
    assert_eq!(b.lane, 0);
    b.select_row(2, 4);
    assert_eq!(b.row(2), Some(4));
    b.clamp_row(2, 3);
    assert_eq!(b.row(2), Some(2));
    let mut s = Selection::first();
    s.select_last(3);
    assert_eq!(s.selected(), Some(2));
    s.select_first();
    assert_eq!(s.selected(), Some(0));
}

#[test]
fn create_appends_project_and_persists() {
    let mut app = list_app(vec![]);

    Project::create(&mut app, "todo");

    assert_eq!(app.projects.len(), 1);
    assert_eq!(app.projects[0].title, "todo");
    assert_eq!(app.items.len(), 1);
    assert_eq!(saved_projects(&app), app.projects);
}

#[test]
fn project_create_with_empty_value_is_a_no_op() {
    let mut app = list_app(vec![]);

    Project::create(&mut app, "");

    assert!(app.projects.is_empty());
    assert!(app.items.is_empty());
}

#[test]
fn rename_updates_selected_project() {
    let mut app = list_app(two_projects());
    app.selected_project_index.select(Some(1));

    Project::rename(&mut app, "renamed");

    assert_eq!(app.projects[1].title, "renamed");
    assert_eq!(app.projects[0].title, "alpha");
    assert_eq!(saved_projects(&app)[1].title, "renamed");
}

#[test]
fn delete_removes_selected_project() {
    let mut app = list_app(two_projects());

    Project::delete(&mut app);

    assert_eq!(app.projects.len(), 1);
    assert_eq!(app.projects[0].title, "beta");
    assert_eq!(app.items.len(), 1);
    assert_eq!(saved_projects(&app), app.projects);
}

#[test]
fn load_items_builds_one_item_per_project() {
    let mut app = list_app(two_projects());

    Project::load_items(&mut app);

    assert_eq!(app.items.len(), 2);
}

#[test]
fn done_tasks_color_thresholds() {
    assert_eq!(Project::get_indicator_done_tasks_color(0), Tint::DarkGray);
    assert_eq!(Project::get_indicator_done_tasks_color(25), Tint::LightMagenta);
    assert_eq!(Project::get_indicator_done_tasks_color(50), Tint::LightMagenta);
    assert_eq!(Project::get_indicator_done_tasks_color(75), Tint::LightYellow);
    assert_eq!(Project::get_indicator_done_tasks_color(100), Tint::LightGreen);
    // Values outside 0..=100 fall back to white
    assert_eq!(Project::get_indicator_done_tasks_color(1), Tint::White);
}

#[test]
fn project_row_shows_done_counts() {
    let p = Project {
        title: "p".to_string(),
        tasks: vec![list_task("a", TASK_STATUS_DONE, 0), list_task("b", TASK_STATUS_UP_NEXT, 0)],
    };
    assert_eq!(p.done_tasks(), 1);
    assert_eq!(p.done_percentage(), 50);
    let text: String = p.row_pieces().iter().map(|x| x.text.as_str()).collect();
    assert!(text.contains("p"));
    assert!(text.contains("1/2"));
}

#[test]
fn create_appends_note_and_persists() {
    let mut app = list_app(vec![]);

    Note::create(&mut app, "shopping");

    assert_eq!(app.notes.len(), 1);
    assert_eq!(app.notes[0].title, "shopping");
    assert!(app.notes[0].created_at.is_some());
    assert_eq!(app.items.len(), 1);
    assert_eq!(saved_notes(&app), app.notes);
}

#[test]
fn note_create_with_empty_value_is_a_no_op() {
    let mut app = list_app(vec![]);

    Note::create(&mut app, "");

    assert!(app.notes.is_empty());
}

#[test]
fn rename_updates_selected_note() {
    let mut app = list_app(vec![]);
    app.notes = vec![make_note("old", "")];

    Note::rename(&mut app, "new");

    assert_eq!(app.notes[0].title, "new");
    assert_eq!(saved_notes(&app)[0].title, "new");
}

#[test]
fn update_body_sets_body_and_updated_at() {
    let mut app = list_app(vec![]);
    app.notes = vec![make_note("n", "")];

    Note::update_body(&mut app, "# Hello\nworld");

    assert_eq!(app.notes[0].body, "# Hello\nworld");
    assert!(app.notes[0].updated_at.is_some());
    assert_eq!(saved_notes(&app)[0].body, "# Hello\nworld");
}

#[test]
fn delete_removes_selected_note() {
    let mut app = list_app(vec![]);
    app.notes = vec![make_note("n1", ""), make_note("n2", "")];
    app.selected_note_index.select(Some(1));

    Note::delete(&mut app);

    assert_eq!(app.notes.len(), 1);
    assert_eq!(app.notes[0].title, "n1");
    assert_eq!(saved_notes(&app).len(), 1);
}

#[test]
fn load_items_shows_first_body_line_as_snippet() {
    let mut app = list_app(vec![]);
    app.notes = vec![make_note("n", "\n# Title\nsecond line")];

    Note::load_items(&mut app);

    assert_eq!(app.items.len(), 1);
    assert_eq!(Note::snippet(&app.notes[0].body), "# Title");
}

#[test]
fn load_items_clamps_selection_into_bounds() {
    let mut app = list_app(vec![]);
    app.notes = vec![make_note("only", "")];
    app.selected_note_index.select(Some(5));

    Note::load_items(&mut app);

    assert_eq!(app.selected_note_index.selected(), Some(0));
}

#[test]
fn snippet_is_cut_to_forty_characters_and_editor_opens_on_a_line() {
    let body = format!("   \n{}", "x".repeat(50));
    assert_eq!(Note::snippet(&body), "x".repeat(40));
    assert_eq!(Note::snippet(""), "");
    assert_eq!(Note::editor_lines(""), vec![String::new()]);
    assert_eq!(Note::editor_lines("a\r\nb"), vec!["a".to_string(), "b".to_string()]);
}
