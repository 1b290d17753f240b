use basilk::note::Note;
use basilk::project::Project;
use basilk::state::{App, EditorEdit, InputEdit, Key, KeyAction, ViewMode};
use basilk::task::{Task, TASK_PRIORITY_NONE, TASK_STATUS_DONE, TASK_STATUS_UP_NEXT};
use basilk::timer::TimerKind;

fn key_task(title: &str) -> Task {
    Task {
        title: title.to_string(),
        status: TASK_STATUS_UP_NEXT.to_string(),
        priority: TASK_PRIORITY_NONE,
        created_at: Some(1_700_000_000),
        completed_at: None,
        note: "n".to_string(),
        time_spent_secs: 0,
        estimated_hours: 3,
    }
}

fn started_app() -> App {
    App::setup(
        vec![
            Project { title: "alpha".to_string(), tasks: vec![key_task("t1"), key_task("t2")] },
            Project { title: "beta".to_string(), tasks: vec![] },
        ],
        vec![Note { title: "n".to_string(), body: "line one\nline two".to_string(), created_at: None, updated_at: None }],
        false,
    )
}

fn press(app: &mut App, key: Key, input: &str) -> basilk::state::KeyOutcome {
    assert!(app.accepts(key, input, false));
    app.handle_key(key, input, None, 0)
}

#[test]
fn delete_confirmation_defaults_to_cancel() {
    let mut app = started_app();
    press(&mut app, Key::Char('d'), "");
    assert_eq!(app.view_mode, ViewMode::DeleteProject);
    // A reflexive Enter does not delete anything
    press(&mut app, Key::Enter, "");
    assert_eq!(app.view_mode, ViewMode::ViewProjects);
    assert_eq!(app.projects.len(), 2);

    // Moving to "Confirm" and pressing Enter deletes
    press(&mut app, Key::Char('d'), "");
    press(&mut app, Key::Up, "");
    assert_eq!(app.delete_confirm_index.selected(), Some(0));
    press(&mut app, Key::Enter, "");
    assert_eq!(app.projects.len(), 1);
    assert_eq!(app.projects[0].title, "beta");
    assert_eq!(app.delete_confirm_index.selected(), Some(1));
}

#[test]
fn delete_confirmation_answers_y_and_n() {
    let mut app = started_app();
    press(&mut app, Key::Char('d'), "");
    press(&mut app, Key::Char('n'), "");
    assert_eq!(app.view_mode, ViewMode::ViewProjects);
    assert_eq!(app.projects.len(), 2);

    press(&mut app, Key::Char('d'), "");
    press(&mut app, Key::Char('y'), "");
    assert_eq!(app.projects.len(), 1);

    // Esc leaves the confirmation on "Cancel" too
    press(&mut app, Key::Char('d'), "");
    press(&mut app, Key::Up, "");
    press(&mut app, Key::Esc, "");
    assert_eq!(app.delete_confirm_index.selected(), Some(1));
}

#[test]
fn opening_tasks_and_setting_an_estimate() {
    let mut app = started_app();
    press(&mut app, Key::Enter, "");
    assert_eq!(app.view_mode, ViewMode::ViewTasks);
    assert_eq!(app.items.len(), 2);

    press(&mut app, Key::Char('v'), "");
    assert_eq!(app.view_mode, ViewMode::ViewTaskDetails);
    let out = press(&mut app, Key::Char('g'), "");
    assert_eq!(out.input, InputEdit::Replace("3".to_string()));
    assert_eq!(app.view_mode, ViewMode::SetTaskEstimate);

    // Only digits are typed into the field
    let out = press(&mut app, Key::Char('x'), "3");
    assert_eq!(out.input, InputEdit::Keep);
    let out = press(&mut app, Key::Char('4'), "3");
    assert_eq!(out.input, InputEdit::Forward);

    // Text that is no number keeps the field open
    press(&mut app, Key::Enter, "4x");
    assert_eq!(app.view_mode, ViewMode::SetTaskEstimate);

    let out = press(&mut app, Key::Enter, " 12 ");
    assert_eq!(out.input, InputEdit::Reset);
    assert_eq!(app.view_mode, ViewMode::ViewTaskDetails);
    assert_eq!(Task::get_current(&app).estimated_hours, 12);

    // An empty field leaves the estimate as it is
    press(&mut app, Key::Char('g'), "");
    press(&mut app, Key::Enter, "  ");
    assert_eq!(app.view_mode, ViewMode::ViewTaskDetails);
    assert_eq!(Task::get_current(&app).estimated_hours, 12);

    press(&mut app, Key::Char('z'), "");
    assert_eq!(app.view_mode, ViewMode::ViewTasks);
}

#[test]
fn stopwatch_and_countdown_keys() {
    let mut app = started_app();
    press(&mut app, Key::Enter, "");
    press(&mut app, Key::Char('s'), "");
    assert_eq!(app.view_mode, ViewMode::TimerTask);
    let timer = app.timer.as_ref().unwrap();
    assert_eq!(timer.kind, TimerKind::Stopwatch);
    assert!(timer.is_bound_to(0, "t1"));

    press(&mut app, Key::Char(' '), "");
    assert!(!app.timer.as_ref().unwrap().is_running());
    press(&mut app, Key::Char(' '), "");
    assert!(app.timer.as_ref().unwrap().is_running());

    press(&mut app, Key::Esc, "");
    assert_eq!(app.view_mode, ViewMode::ViewTasks);
    assert!(app.timer.is_some());

    press(&mut app, Key::Char('s'), "");
    press(&mut app, Key::Enter, "");
    assert!(app.timer.is_none());
    assert_eq!(app.view_mode, ViewMode::ViewTasks);

    press(&mut app, Key::Char('c'), "");
    assert_eq!(app.view_mode, ViewMode::SetCountdown);
    let out = app.handle_key(Key::Char('a'), "", None, 0);
    assert_eq!(out.input, InputEdit::Keep);
    let out = app.handle_key(Key::Char('.'), "1", None, 0);
    assert_eq!(out.input, InputEdit::Forward);
    app.handle_key(Key::Enter, "0", None, 0);
    assert_eq!(app.view_mode, ViewMode::SetCountdown);
    app.handle_key(Key::Enter, "25", None, 1500);
    assert_eq!(app.view_mode, ViewMode::TimerTask);
    assert_eq!(app.timer.as_ref().unwrap().target_secs, 1500);
}

#[test]
fn note_preview_scrolls_and_edits() {
    let mut app = started_app();
    press(&mut app, Key::Char('m'), "");
    assert_eq!(app.view_mode, ViewMode::ViewNotes);
    press(&mut app, Key::Enter, "");
    assert_eq!(app.view_mode, ViewMode::ViewNote);

    press(&mut app, Key::Char('j'), "");
    assert_eq!(app.note_scroll, 1);
    press(&mut app, Key::PageUp, "");
    assert_eq!(app.note_scroll, 0);
    press(&mut app, Key::Char('G'), "");
    assert_eq!(app.note_scroll, u16::MAX);
    press(&mut app, Key::Down, "");
    assert_eq!(app.note_scroll, u16::MAX);
    press(&mut app, Key::Home, "");
    assert_eq!(app.note_scroll, 0);

    let out = press(&mut app, Key::Char('e'), "");
    assert_eq!(out.editor, EditorEdit::Open(vec!["line one".to_string(), "line two".to_string()]));
    assert_eq!(app.view_mode, ViewMode::EditNote);

    let out = app.handle_key(Key::Char('x'), "", Some(vec!["line one".to_string()]), 0);
    assert_eq!(out.editor, EditorEdit::Forward);

    let saves = app.saves.len();
    let lines = vec!["line one".to_string(), "line two".to_string()];
    assert!(app.accepts(Key::Esc, "", true));
    let out = app.handle_key(Key::Esc, "", Some(lines), 0);
    assert_eq!(out.editor, EditorEdit::Close);
    assert_eq!(app.view_mode, ViewMode::ViewNote);
    // Nothing changed: nothing saved
    assert_eq!(app.saves.len(), saves);

    press(&mut app, Key::Char('e'), "");
    app.handle_key(Key::Esc, "", Some(vec!["# new".to_string(), "body".to_string()]), 0);
    assert_eq!(app.notes[0].body, "# new\nbody");
    assert!(app.notes[0].updated_at.is_some());

    let out = press(&mut app, Key::Char('q'), "");
    assert_eq!(out.action, KeyAction::Quit);
}

#[test]
fn adding_and_renaming_notes_and_projects() {
    let mut app = started_app();
    press(&mut app, Key::Char('n'), "");
    assert_eq!(app.view_mode, ViewMode::AddProject);
    press(&mut app, Key::Char('x'), "");
    press(&mut app, Key::Enter, "gamma");
    assert_eq!(app.projects.len(), 3);
    assert_eq!(app.selected_project_index.selected(), Some(2));

    let out = press(&mut app, Key::Char('r'), "");
    assert_eq!(out.input, InputEdit::Replace("gamma".to_string()));
    press(&mut app, Key::Enter, "delta");
    assert_eq!(app.projects[2].title, "delta");

    press(&mut app, Key::Char('m'), "");
    press(&mut app, Key::Char('n'), "");
    press(&mut app, Key::Enter, "");
    assert_eq!(app.notes.len(), 1);
    assert_eq!(app.view_mode, ViewMode::ViewNotes);
    press(&mut app, Key::Char('n'), "");
    press(&mut app, Key::Enter, "second");
    assert_eq!(app.notes.len(), 2);
    assert_eq!(app.selected_note_index.selected(), Some(1));

    press(&mut app, Key::Char('h'), "");
    assert_eq!(app.view_mode, ViewMode::ViewHelp);
    press(&mut app, Key::Char('x'), "");
    assert_eq!(app.view_mode, ViewMode::ViewNotes);
    press(&mut app, Key::Esc, "");
    assert_eq!(app.view_mode, ViewMode::ViewProjects);
}

#[test]
fn task_keys_on_an_empty_list_are_skipped() {
    let mut app = started_app();
    app.selected_project_index.select(Some(1));
    press(&mut app, Key::Enter, "");
    assert_eq!(app.view_mode, ViewMode::ViewTasks);
    assert!(app.items.is_empty());
    let out = press(&mut app, Key::Char('d'), "");
    assert_eq!(out.action, KeyAction::Skip);
    let out = press(&mut app, Key::Char('e'), "");
    assert_eq!(out.action, KeyAction::Skip);
    // The migration notice goes to the project list on any key
    app.view_mode = ViewMode::InfoMigration;
    press(&mut app, Key::Char('x'), "");
    assert_eq!(app.view_mode, ViewMode::ViewProjects);
}

#[test]
fn accepts_refuses_keys_without_a_selection() {
    let mut app = started_app();
    app.selected_project_index.select(Some(7));
    assert!(!app.accepts(Key::Enter, "", false));
    assert!(app.accepts(Key::Char('n'), "", false));
}

#[test]
fn toggling_completed_tasks_twice_lists_them_as_before() {
    let mut done = key_task("finished");
    done.status = TASK_STATUS_DONE.to_string();
    let mut app = App::setup(
        vec![Project { title: "alpha".to_string(), tasks: vec![key_task("t1"), done, key_task("t2")] }],
        vec![],
        false,
    );
    press(&mut app, Key::Enter, "");
    let before = app.items.clone();
    assert_eq!(before.len(), 2);
    assert!(app.hide_done_tasks);

    press(&mut app, Key::Char('t'), "");
    assert!(!app.hide_done_tasks);
    assert_eq!(app.items.len(), 3);

    press(&mut app, Key::Char('t'), "");
    assert!(app.hide_done_tasks);
    assert_eq!(app.items, before);
}
