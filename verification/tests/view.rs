use basilk::project::Project;
use basilk::selection::Selection;
use basilk::state::{App, ViewMode};
use basilk::style::Tint;
use basilk::task::{Task, TASK_PRIORITY_NONE, TASK_STATUS_UP_NEXT};
use basilk::timer::{TimerKind, TimerState, TimerTaskBinding};
use basilk::ui::{Area, Ui};
use basilk::view::{big_digit_rows, clamp_note_scroll, digit_glyph, word_wrapped_height, ListSource, Screen};
use basilk::util::Util;

fn screen_app(projects: Vec<Project>) -> App {
    let mut app = App::setup(projects, vec![], false);
    app.items = vec![];
    app
}

#[test]
fn word_wrapped_height_matches_greedy_word_wrapping() {
    assert_eq!(word_wrapped_height("", 10), 1);
    assert_eq!(word_wrapped_height("short", 10), 1);
    // "aaaa bbbb" is 9 columns: fits; adding "cccc" needs a second line
    assert_eq!(word_wrapped_height("aaaa bbbb cccc", 10), 2);
    // A word longer than the width is broken across lines
    assert_eq!(word_wrapped_height(&"x".repeat(25), 10), 3);
    // Word wrapping never fits more than character wrapping would
    let text = "aaaaaa bbbbbb cccccc dddddd";
    assert!(word_wrapped_height(text, 10) >= text.len().div_ceil(10));
}

#[test]
fn word_wrapping_edge_cases() {
    // A long word after some text starts on a new line first
    assert_eq!(word_wrapped_height("ab xxxxxxxxxxxx", 5), 4);
    // Spaces only never wrap at width zero
    assert_eq!(word_wrapped_height("   ", 0), 1);
    // Exactly the width fits
    assert_eq!(word_wrapped_height("abcde", 5), 1);
    assert_eq!(word_wrapped_height("abc de", 5), 2);
}

#[test]
fn word_wrapping_holds_every_non_space_character() {
    // Four letters at one column each need four lines
    assert_eq!(word_wrapped_height("ab cd", 1), 4);
    // The space at a break is dropped, so this takes fewer lines than its
    // three characters would when wrapped character by character
    assert_eq!(word_wrapped_height("a b", 1), 2);
}

#[test]
fn digit_glyphs_and_big_rows() {
    assert_eq!(digit_glyph('1'), ["  █", "  █", "  █", "  █", "  █"]);
    assert_eq!(digit_glyph(':'), [" ", "█", " ", "█", " "]);
    assert_eq!(digit_glyph('x'), ["   ", "   ", "   ", "   ", "   "]);
    let rows = big_digit_rows("1:0");
    assert_eq!(rows.len(), 5);
    assert_eq!(rows[0], "  █   ███");
    assert_eq!(rows[1], "  █ █ █ █");
}

#[test]
fn note_scroll_is_clamped_into_the_content() {
    assert_eq!(clamp_note_scroll(u16::MAX, 30, 10), 20);
    assert_eq!(clamp_note_scroll(5, 30, 10), 5);
    assert_eq!(clamp_note_scroll(7, 3, 10), 0);
    // The overflow count is taken modulo 2^16, as the preview does
    assert_eq!(clamp_note_scroll(u16::MAX, 65_536 + 10 + 4, 10), 4);
}

#[test]
fn list_source_follows_the_view_a_modal_was_opened_from() {
    let mut app = screen_app(vec![]);
    app.view_mode = ViewMode::ViewHelp;
    app.previous_view_mode = ViewMode::ViewNotes;
    assert_eq!(Screen::list_source(&app), ListSource::Notes);
    app.previous_view_mode = ViewMode::ViewProjects;
    assert_eq!(Screen::list_source(&app), ListSource::Projects);
    app.previous_view_mode = ViewMode::ViewTasks;
    assert_eq!(Screen::list_source(&app), ListSource::Tasks);
    app.board_view = true;
    assert_eq!(Screen::list_source(&app), ListSource::Board);
    app.view_mode = ViewMode::TimerTask;
    app.previous_view_mode = ViewMode::ViewProjects;
    assert_eq!(Screen::list_source(&app), ListSource::Projects);
    assert!(!Screen::list_is_stateful(ViewMode::DeleteTask));
    assert!(Screen::list_is_stateful(ViewMode::ViewTasks));
}

#[test]
fn list_titles_and_lane_titles() {
    let mut app = screen_app(vec![Project { title: "alpha".to_string(), tasks: vec![] }]);
    assert_eq!(Screen::list_title(&app), None);
    app.view_mode = ViewMode::ViewNotes;
    assert_eq!(Screen::list_title(&app), Some(" Notes ".to_string()));
    app.view_mode = ViewMode::ViewTasks;
    assert_eq!(Screen::list_title(&app), Some(" alpha ".to_string()));
    assert_eq!(Screen::lane_title(1, 3), " On Going (3) ");
}

#[test]
fn help_lists_the_bindings_of_the_view() {
    let notes = Screen::help_bindings(ViewMode::ViewNotes, false);
    assert_eq!(notes.len(), 8);
    assert_eq!(notes[1], ("Enter  →  l  v", "preview"));
    assert_eq!(Screen::help_bindings(ViewMode::ViewTasks, true)[1], ("← →", "switch lane"));
    assert_eq!(Screen::help_bindings(ViewMode::ViewTasks, false)[1], ("b", "board view"));
    assert!(Screen::help_bindings(ViewMode::AddTask, false).is_empty());
    assert_eq!(Screen::help_key_cell("q"), format!("{:<16}", "q"));
    assert_eq!(Screen::help_key_cell("↑ ↓  k j"), format!("{:<16}", "↑ ↓  k j"));
    assert_eq!(Screen::help_key_cell("0123456789abcdefgh"), "0123456789abcdefgh");
}

#[test]
fn timer_panel_of_a_paused_countdown_and_stopwatch() {
    let mut task = Task {
        title: "t".to_string(),
        status: TASK_STATUS_UP_NEXT.to_string(),
        priority: TASK_PRIORITY_NONE,
        created_at: None,
        completed_at: None,
        note: String::new(),
        time_spent_secs: 0,
        estimated_hours: 1,
    };
    task.time_spent_secs = 3240;
    let mut app = screen_app(vec![Project { title: "p".to_string(), tasks: vec![task] }]);
    app.timer = Some(TimerState {
        kind: TimerKind::Countdown,
        target_secs: 1500,
        accumulated_nanos: 1_495_000_000_000,
        started_at: None,
        bound: None,
        rung: false,
    });
    let panel = Screen::timer_panel(&app).unwrap();
    assert_eq!(panel.title, " Pomodoro ");
    assert_eq!(panel.readout, "00:00:05");
    assert_eq!(panel.target, Some("00:25:00".to_string()));
    assert_eq!(panel.readout_tint, Tint::Yellow);
    assert_eq!(panel.status, "paused");
    assert!(panel.task_title.is_none());

    app.timer = Some(TimerState {
        kind: TimerKind::Stopwatch,
        target_secs: 0,
        accumulated_nanos: 360_000_000_000,
        started_at: None,
        bound: Some(TimerTaskBinding { project_index: 0, task_title: "t".to_string() }),
        rung: false,
    });
    let panel = Screen::timer_panel(&app).unwrap();
    assert_eq!(panel.title, " Timer ");
    assert_eq!(panel.readout, "00:06:00");
    assert_eq!(panel.task_title, Some("t".to_string()));
    // 3240 s spent plus 360 s on the clock: all of the hour
    assert_eq!(panel.estimate, Some((1, 100, Tint::Red)));

    let done = TimerState {
        kind: TimerKind::Countdown,
        target_secs: 60,
        accumulated_nanos: 61_000_000_000,
        started_at: None,
        bound: None,
        rung: false,
    };
    let panel = Screen::timer_panel_given(&app, &done, 61_000_000_000);
    assert_eq!(panel.status, "time's up!");
    assert_eq!(panel.readout_tint, Tint::Red);
    assert_eq!(panel.hint, "Press any key to close");
    app.timer = None;
    assert!(Screen::timer_panel(&app).is_none());
}

#[test]
fn modal_area_is_centered() {
    let r = Area { x: 0, y: 0, width: 100, height: 40 };
    let a = Ui::create_rect_area(50, 3, r);
    assert_eq!(a.height, 3);
    assert_eq!(a.y, 18);
    assert_eq!(a.width, 50);
    assert_eq!(a.x, 25);
    let _ = Selection::first();
}

#[test]
fn task_details_show_each_date_of_its_own_timestamp() {
    let task = Task {
        title: "t".to_string(),
        status: TASK_STATUS_UP_NEXT.to_string(),
        priority: 2,
        created_at: Some(0),
        completed_at: Some(90_061),
        note: String::new(),
        time_spent_secs: 3_725,
        estimated_hours: 0,
    };
    let d = Screen::task_details(&task);
    assert_eq!(d.created, Some(Util::format_timestamp(Some(0))));
    assert_eq!(d.completed, Some(Util::format_timestamp(Some(90_061))));
    assert_ne!(d.created, d.completed);
    assert_eq!(d.priority, "2 (!!)");
    assert_eq!(d.time_spent, "1h 2m (01:02:05)");

    let open = Task { created_at: None, completed_at: None, ..task };
    let d = Screen::task_details(&open);
    assert_eq!(d.created, None);
    assert_eq!(d.completed, None);
    assert_eq!(d.consumed, None);
}

#[test]
fn a_present_timestamp_is_never_shown_as_missing() {
    assert_eq!(Util::format_timestamp(None), "N/A");
    assert_ne!(Util::format_timestamp(Some(0)), "N/A");
    assert_ne!(Util::format_timestamp(Some(253_402_300_799)), "N/A");
}
