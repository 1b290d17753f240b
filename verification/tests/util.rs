use basilk::task::TASK_PRIORITY_NONE;
use basilk::util::Util;

#[test]
fn spaced_title_wraps_with_spaces() {
    assert_eq!(Util::get_spaced_title("hello"), " hello ");
}

#[test]
fn priority_indicator_mapping() {
    assert_eq!(Util::get_priority_indicator(TASK_PRIORITY_NONE), "");
    assert_eq!(Util::get_priority_indicator(1), "!!!");
    assert_eq!(Util::get_priority_indicator(2), "!!");
    assert_eq!(Util::get_priority_indicator(3), "!");
    // Unknown values fall back to an empty indicator
    assert_eq!(Util::get_priority_indicator(99), "");
}

#[test]
fn format_secs_renders_hh_mm_ss() {
    assert_eq!(Util::format_secs(0), "00:00:00");
    assert_eq!(Util::format_secs(59), "00:00:59");
    assert_eq!(Util::format_secs(60), "00:01:00");
    assert_eq!(Util::format_secs(3661), "01:01:01");
    assert_eq!(Util::format_secs(90_061), "25:01:01");
}

#[test]
fn format_timestamp_handles_none_and_epoch() {
    assert_eq!(Util::format_timestamp(None), "N/A");
    assert!(Util::format_timestamp(Some(0)).contains("1970-01-01"));
}

#[test]
fn format_timestamp_of_an_unrepresentable_instant_is_na() {
    assert_eq!(Util::format_timestamp(Some(u64::MAX / 2)), "N/A");
    assert_eq!(Util::timestamp_text(None), "N/A");
    assert_eq!(Util::timestamp_text(Some("x".to_string())), "x");
}

#[test]
fn format_duration_variants() {
    assert_eq!(Util::format_duration(None, Some(10)), "Task not completed");
    assert_eq!(Util::format_duration(Some(10), None), "Task not completed");
    assert_eq!(Util::format_duration(Some(10), Some(10)), "Invalid time range");
    assert_eq!(Util::format_duration(Some(0), Some(45)), "45s");
    assert_eq!(Util::format_duration(Some(0), Some(90)), "1m 30s");
    assert_eq!(Util::format_duration(Some(0), Some(3700)), "1h 1m 40s");
    assert_eq!(Util::format_duration(Some(0), Some(90061)), "1d 1h 1m 1s");
}

#[test]
fn format_duration_is_never_empty_and_marks_at_most_three() {
    for (a, b) in [(None, None), (Some(5), Some(1)), (Some(0), Some(86_400))] {
        assert!(!Util::format_duration(a, b).is_empty());
    }
    assert_eq!(Util::format_duration(Some(0), Some(86_400)), "1d 0h 0m 0s");
    for v in 0..=255u8 {
        assert!(Util::get_priority_indicator(v).chars().count() <= 3);
    }
}
