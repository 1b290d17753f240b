use basilk::json::{DataWrapper, Json};
use basilk::migration::{json_versions, Migration};
use basilk::project::Project;
use basilk::task::{Task, TASK_PRIORITY_NONE, TASK_STATUS_ON_GOING};

fn sample_data() -> Vec<Project> {
    vec![Project {
        title: "p".to_string(),
        tasks: vec![Task {
            title: "t".to_string(),
            status: TASK_STATUS_ON_GOING.to_string(),
            priority: 2,
            created_at: None,
            completed_at: None,
            note: "keep me".to_string(),
            time_spent_secs: 42,
            estimated_hours: 7,
        }],
    }]
}

#[test]
fn migrations_from_oldest_version_apply_all_steps() {
    let migrations = Migration::get_migrations("6ad96", sample_data());

    assert_eq!(migrations.len(), 4);
    assert_eq!(migrations[0].0, "911fc");
    assert_eq!(migrations[1].0, "a4e1b");
    assert_eq!(migrations[2].0, "c8f21");
    assert_eq!(migrations[3].0, "e5a1c");

    let task = &migrations[3].1[0].tasks[0];
    assert_eq!(task.priority, TASK_PRIORITY_NONE);
    assert_eq!(task.note, "");
    assert_eq!(task.time_spent_secs, 0);
    assert_eq!(task.estimated_hours, 0);
}

#[test]
fn migrations_from_middle_version_apply_remaining_steps() {
    let migrations = Migration::get_migrations("911fc", sample_data());

    assert_eq!(migrations.len(), 3);
    assert_eq!(migrations[0].0, "a4e1b");
    assert_eq!(migrations[1].0, "c8f21");
    assert_eq!(migrations[2].0, "e5a1c");
    // add_priority is not re-applied: priority is preserved
    assert_eq!(migrations[0].1[0].tasks[0].priority, 2);
}

#[test]
fn no_migrations_for_latest_or_unknown_version() {
    assert!(Migration::get_migrations("e5a1c", sample_data()).is_empty());
    assert!(Migration::get_migrations("unknown", sample_data()).is_empty());
}

#[test]
fn json_versions_are_chained_in_mapper_order() {
    // Every version except the last must produce migrations ending at the last version
    let versions = json_versions();
    for (i, version) in versions.iter().enumerate() {
        let migrations = Migration::get_migrations(version, vec![]);
        assert_eq!(migrations.len(), versions.len() - 1 - i);
    }
}

#[test]
fn migrations_keep_titles_and_task_counts() {
    let data = vec![
        Project { title: "a".to_string(), tasks: sample_data()[0].tasks.clone() },
        Project { title: "b".to_string(), tasks: vec![] },
    ];
    for version in json_versions() {
        for (_, migrated) in Migration::get_migrations(version, data.clone()) {
            assert_eq!(migrated.len(), 2);
            assert_eq!(migrated[0].title, "a");
            assert_eq!(migrated[0].tasks.len(), 1);
            assert_eq!(migrated[0].tasks[0].title, "t");
            assert_eq!(migrated[1].tasks.len(), 0);
        }
    }
}

#[test]
fn migrated_files_keep_the_notes_and_end_at_the_latest_version() {
    let wrapper = DataWrapper {
        version: "a4e1b".to_string(),
        data: sample_data(),
        notes: vec![basilk::note::Note {
            title: "n".to_string(),
            body: "b".to_string(),
            created_at: Some(1),
            updated_at: None,
        }],
    };
    let files = Json::migrated_files(&wrapper);
    assert_eq!(files.len(), 2);
    assert_eq!(files[0].version, "c8f21");
    assert_eq!(files[1].version, "e5a1c");
    assert_eq!(files[1].notes, wrapper.notes);
    assert_eq!(files[1].data[0].tasks[0].time_spent_secs, 0);
    assert_eq!(files[1].data[0].tasks[0].note, "keep me");
}

#[test]
fn unknown_or_latest_data_files_need_no_migration() {
    let latest = DataWrapper { version: "e5a1c".to_string(), data: sample_data(), notes: vec![] };
    assert!(Json::migrated_files(&latest).is_empty());
    let unknown = DataWrapper { version: "zzz".to_string(), data: sample_data(), notes: vec![] };
    assert!(Json::migrated_files(&unknown).is_empty());
}

#[test]
fn fresh_and_legacy_files() {
    let fresh = Json::fresh_file();
    assert_eq!(fresh.version, "e5a1c");
    assert!(fresh.data.is_empty() && fresh.notes.is_empty());
    assert_eq!(Json::latest_version(), "e5a1c");

    assert_eq!(Json::legacy_version(&vec![false, true, true]), Some(1));
    assert_eq!(Json::legacy_version(&vec![false, false]), None);
    let legacy = Json::legacy_file(0, sample_data());
    assert_eq!(legacy.version, "6ad96");
    assert!(legacy.notes.is_empty());
    assert_eq!(Json::json_file_name("6ad96"), "6ad96.json");
    assert!(Json::is_blank("  \n\t"));
    assert!(!Json::is_blank(" {} "));
}

#[test]
fn write_keeps_the_other_half_of_the_file() {
    let notes = vec![basilk::note::Note {
        title: "n".to_string(),
        body: "# hi".to_string(),
        created_at: Some(1_700_000_000),
        updated_at: None,
    }];
    let file = Json::write("e5a1c", sample_data(), notes.clone());
    assert_eq!(file.version, "e5a1c");
    assert_eq!(file.data, sample_data());
    assert_eq!(file.notes, notes);

    let file = Json::write_notes("e5a1c", sample_data(), vec![]);
    assert_eq!(file.data, sample_data());
    assert!(file.notes.is_empty());
}
