use basilk::project::Project;
use basilk::selection::Selection;
use basilk::state::{App, Key, KeyAction, ListId, ViewMode};
use basilk::task::{task_status, Task, TASK_PRIORITY_NONE, TASK_STATUS_DONE, TASK_STATUS_ON_GOING, TASK_STATUS_UP_NEXT};

fn make_app(projects: Vec<Project>) -> App {
    App {
        selected_project_index: Selection::with_selected(Some(0)),
        selected_task_index: Selection::with_selected(Some(0)),
        selected_status_task_index: Selection::with_selected(Some(0)),
        selected_priority_task_index: Selection::with_selected(Some(0)),
        delete_confirm_index: Selection::with_selected(Some(0)),
        view_mode: ViewMode::default(),
        previous_view_mode: ViewMode::default(),
        projects,
        hide_done_tasks: true,
        timer: None,
        board_view: false,
        board_lane: 0,
        board_lane_states: [Selection::first(), Selection::first(), Selection::first()],
        notes: vec![],
        selected_note_index: Selection::with_selected(Some(0)),
        note_scroll: 0,
        items: vec![],
        saves: vec![],
    }
}

fn make_task(title: &str, status: &str, priority: u8) -> Task {
    Task {
        title: title.to_string(),
        status: status.to_string(),
        priority,
        created_at: Some(1_700_000_000),
        completed_at: None,
        note: String::new(),
        time_spent_secs: 0,
        estimated_hours: 0,
    }
}

fn board_app() -> App {
    make_app(vec![Project {
        title: "p".to_string(),
        tasks: vec![
            make_task("ongoing", TASK_STATUS_ON_GOING, TASK_PRIORITY_NONE),
            make_task("upnext", TASK_STATUS_UP_NEXT, TASK_PRIORITY_NONE),
            make_task("done", TASK_STATUS_DONE, TASK_PRIORITY_NONE),
        ],
    }])
}

#[test]
fn next_on_empty_items_does_not_panic() {
    let mut app = make_app(vec![]);

    app.next(0);
    app.previous(0);

    assert_eq!(app.selected_project_index.selected(), Some(0));
}

#[test]
fn next_wraps_around_at_the_end() {
    let mut app = make_app(vec![]);

    app.next(2);
    assert_eq!(app.selected_project_index.selected(), Some(1));

    app.next(2);
    assert_eq!(app.selected_project_index.selected(), Some(0));
}

#[test]
fn previous_wraps_around_at_the_start() {
    let mut app = make_app(vec![]);

    app.previous(2);
    assert_eq!(app.selected_project_index.selected(), Some(1));
}

#[test]
fn use_state_maps_view_modes_to_the_right_list_state() {
    fn assert_state(app: &mut App, mode: ViewMode, expected: ListId) {
        app.view_mode = mode;
        assert_eq!(app.use_state(), expected);
    }

    let mut app = make_app(vec![]);

    assert_state(&mut app, ViewMode::ViewProjects, ListId::Projects);
    assert_state(&mut app, ViewMode::RenameProject, ListId::Projects);
    assert_state(&mut app, ViewMode::ViewTasks, ListId::Tasks);
    assert_state(&mut app, ViewMode::RenameTask, ListId::Tasks);
    assert_state(&mut app, ViewMode::ViewTaskDetails, ListId::Tasks);
    assert_state(&mut app, ViewMode::ChangeStatusTask, ListId::Statuses);
    assert_state(&mut app, ViewMode::ChangePriorityTask, ListId::Priorities);
    assert_state(&mut app, ViewMode::DeleteProject, ListId::DeleteConfirm);
    assert_state(&mut app, ViewMode::DeleteTask, ListId::DeleteConfirm);
    assert_state(&mut app, ViewMode::ViewNotes, ListId::Notes);
    assert_state(&mut app, ViewMode::AddNote, ListId::Notes);
    assert_state(&mut app, ViewMode::RenameNote, ListId::Notes);
    assert_state(&mut app, ViewMode::ViewNote, ListId::Notes);
    assert_state(&mut app, ViewMode::EditNote, ListId::Notes);
    assert_state(&mut app, ViewMode::DeleteNote, ListId::DeleteConfirm);

    // Help keeps the state of the view it was opened from
    app.previous_view_mode = ViewMode::ViewProjects;
    assert_state(&mut app, ViewMode::ViewHelp, ListId::Projects);
    app.previous_view_mode = ViewMode::ViewTasks;
    assert_state(&mut app, ViewMode::ViewHelp, ListId::Tasks);
    app.previous_view_mode = ViewMode::ViewNotes;
    assert_state(&mut app, ViewMode::ViewHelp, ListId::Notes);
}

#[test]
fn board_sync_focuses_the_lane_of_the_selected_task() {
    let mut app = board_app();
    app.selected_task_index.select(Some(0)); // "ongoing"

    app.board_sync();

    // Status order: UpNext = 0, OnGoing = 1, Done = 2
    assert_eq!(app.board_lane, 1);
    assert_eq!(app.board_lane_states[1].selected(), Some(0));
}

#[test]
fn board_sync_follows_a_task_that_changed_lane() {
    let mut app = board_app();
    app.board_view = true;
    app.selected_task_index.select(Some(0));
    app.projects[0].tasks[0].status = TASK_STATUS_DONE.to_string();

    Task::load_items(&mut app);

    // The selection follows the task into the Done lane instead of
    // jumping to the first still-visible list item
    assert_eq!(Task::get_current(&app).title, "ongoing");
    assert_eq!(app.board_lane, 2);
    assert_eq!(app.selected_task_index.selected(), Some(1));
    assert_eq!(app.board_lane_states[2].selected(), Some(0));
}

#[test]
fn lane_indices_groups_by_status_and_ignores_hide_done() {
    let app = board_app();
    assert!(app.hide_done_tasks);

    assert_eq!(Task::lane_indices(&app, TASK_STATUS_UP_NEXT), vec![1]);
    assert_eq!(Task::lane_indices(&app, TASK_STATUS_ON_GOING), vec![0]);
    assert_eq!(Task::lane_indices(&app, TASK_STATUS_DONE), vec![2]);
}

#[test]
fn board_switch_lane_wraps_and_moves_the_task_selection() {
    let mut app = board_app();
    app.selected_task_index.select(Some(0));
    app.board_sync(); // lane 1 (OnGoing)

    app.board_switch_lane(true); // lane 2 (Done)
    assert_eq!(app.board_lane, 2);
    assert_eq!(app.selected_task_index.selected(), Some(2));

    app.board_switch_lane(true); // wraps to lane 0 (UpNext)
    assert_eq!(app.board_lane, 0);
    assert_eq!(app.selected_task_index.selected(), Some(1));

    app.board_switch_lane(false); // back to lane 2 (Done)
    assert_eq!(app.board_lane, 2);
    assert_eq!(app.selected_task_index.selected(), Some(2));
}

#[test]
fn board_switch_lane_into_an_empty_lane_keeps_the_task_selection() {
    let mut app = board_app();
    app.projects[0].tasks.retain(|t| t.status != TASK_STATUS_ON_GOING);
    app.selected_task_index.select(Some(0)); // "upnext"
    app.board_sync();
    assert_eq!(app.board_lane, 0);

    app.board_switch_lane(true); // OnGoing lane, now empty

    assert_eq!(app.board_lane, 1);
    assert!(app.board_lane_is_empty());
    assert_eq!(app.selected_task_index.selected(), Some(0));
}

#[test]
fn board_move_wraps_within_the_lane() {
    let mut app = make_app(vec![Project {
        title: "p".to_string(),
        tasks: vec![
            make_task("a", TASK_STATUS_UP_NEXT, TASK_PRIORITY_NONE),
            make_task("b", TASK_STATUS_UP_NEXT, TASK_PRIORITY_NONE),
        ],
    }]);
    app.selected_task_index.select(Some(0));
    app.board_sync();

    app.board_move(true);
    assert_eq!(app.selected_task_index.selected(), Some(1));

    app.board_move(true); // wraps to the top
    assert_eq!(app.selected_task_index.selected(), Some(0));

    app.board_move(false); // wraps to the bottom
    assert_eq!(app.selected_task_index.selected(), Some(1));
}

#[test]
fn delete_in_board_mode_keeps_focus_and_action_target_consistent() {
    let mut app = make_app(vec![Project {
        title: "p".to_string(),
        tasks: vec![
            make_task("a", TASK_STATUS_UP_NEXT, TASK_PRIORITY_NONE),
            make_task("b", TASK_STATUS_UP_NEXT, TASK_PRIORITY_NONE),
            make_task("c", TASK_STATUS_ON_GOING, TASK_PRIORITY_NONE),
        ],
    }]);
    app.board_view = true;

    Task::load_items(&mut app); // sorted: [c, a, b]
    app.selected_task_index.select(Some(1)); // "a"
    app.board_sync();
    assert_eq!(Task::get_current(&app).title, "a");

    // Exercise the same code path as the DeleteTask handler
    app.delete_current_task();

    assert_eq!(Task::get_current(&app).title, "c");
    let lane = app.board_lane;
    let row = app.board_lane_states[lane].selected().unwrap();
    let lane_indices = Task::lane_indices(&app, task_status(lane));
    assert_eq!(
        lane_indices.get(row).copied(),
        app.selected_task_index.selected(),
        "board focus and action target diverged"
    );
}

#[test]
fn setup_starts_on_the_project_list_or_the_migration_notice() {
    let app = App::setup(vec![Project { title: "p".to_string(), tasks: vec![] }], vec![], false);
    assert_eq!(app.view_mode, ViewMode::ViewProjects);
    assert_eq!(app.items.len(), 1);
    assert_eq!(app.delete_confirm_index.selected(), Some(1));
    let app = App::setup(vec![], vec![], true);
    assert_eq!(app.view_mode, ViewMode::InfoMigration);
}

#[test]
fn settling_a_stopwatch_adds_its_whole_seconds_to_the_task() {
    let mut app = make_app(vec![Project {
        title: "p".to_string(),
        tasks: vec![make_task("t", TASK_STATUS_UP_NEXT, TASK_PRIORITY_NONE)],
    }]);
    app.timer = Some(basilk::timer::TimerState {
        kind: basilk::timer::TimerKind::Stopwatch,
        target_secs: 0,
        accumulated_nanos: 61_900_000_000,
        started_at: None,
        bound: Some(basilk::timer::TimerTaskBinding { project_index: 0, task_title: "t".to_string() }),
        rung: false,
    });
    app.settle_timer();
    assert!(app.timer.is_none());
    assert_eq!(app.projects[0].tasks[0].time_spent_secs, 61);
    // A second settle changes nothing
    app.settle_timer();
    assert_eq!(app.projects[0].tasks[0].time_spent_secs, 61);
}

#[test]
fn a_finished_countdown_rings_once() {
    let mut app = make_app(vec![]);
    app.timer = Some(basilk::timer::TimerState {
        kind: basilk::timer::TimerKind::Countdown,
        target_secs: 1,
        accumulated_nanos: 2_000_000_000,
        started_at: None,
        bound: None,
        rung: false,
    });
    assert!(app.tick_timer());
    assert!(!app.tick_timer());
    assert!(app.timer.as_ref().unwrap().rung);
}

#[test]
fn settle_given_adds_the_whole_seconds_of_the_reading() {
    let mut app = make_app(vec![Project {
        title: "p".to_string(),
        tasks: vec![make_task("t", TASK_STATUS_UP_NEXT, TASK_PRIORITY_NONE)],
    }]);
    app.timer = Some(basilk::timer::TimerState::new_stopwatch(0, "t".to_string()));
    app.settle_given(125_400_000_000);
    assert!(app.timer.is_none());
    assert_eq!(app.projects[0].tasks[0].time_spent_secs, 125);
}

#[test]
fn a_running_countdown_rings_once_at_its_target() {
    let mut app = make_app(vec![]);
    app.timer = Some(basilk::timer::TimerState::new_countdown(60));
    assert!(!app.tick_given(59_000_000_000));
    assert!(!app.timer.as_ref().unwrap().rung);
    assert!(app.tick_given(60_000_000_000));
    assert!(app.timer.as_ref().unwrap().rung);
    assert!(!app.tick_given(61_000_000_000));
}

#[test]
fn timer_screen_keys_at_a_reading() {
    let mut app = make_app(vec![Project {
        title: "p".to_string(),
        tasks: vec![make_task("t", TASK_STATUS_UP_NEXT, TASK_PRIORITY_NONE)],
    }]);
    app.timer = Some(basilk::timer::TimerState::new_stopwatch(0, "t".to_string()));
    app.previous_view_mode = ViewMode::ViewTasks;
    app.view_mode = ViewMode::TimerTask;
    // Space pauses a running stopwatch at the reading
    let out = app.handle_timer_task_given(Key::Char(' '), 3_000_000_000);
    assert_eq!(out.action, KeyAction::Proceed);
    assert_eq!(app.timer.as_ref().unwrap().accumulated_nanos, 3_000_000_000);
    assert!(!app.timer.as_ref().unwrap().is_running());
    // Enter settles its time into the task and goes back
    app.handle_timer_task_given(Key::Enter, 0);
    assert!(app.timer.is_none());
    assert_eq!(app.view_mode, ViewMode::ViewTasks);
    assert_eq!(app.projects[0].tasks[0].time_spent_secs, 3);

    // A running countdown at its target is dismissed by any key
    app.timer = Some(basilk::timer::TimerState::new_countdown(60));
    app.previous_view_mode = ViewMode::ViewProjects;
    app.view_mode = ViewMode::TimerTask;
    let out = app.handle_timer_task_given(Key::Char('x'), 60_000_000_000);
    assert_eq!(out.action, KeyAction::Skip);
    assert!(app.timer.is_none());
    assert_eq!(app.view_mode, ViewMode::ViewProjects);
}
