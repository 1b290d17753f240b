//! The content of the data file and the decisions taken when it is checked
//! at startup; reading and writing the file is left to the caller.
use vstd::prelude::*;

use crate::migration::{
    json_version, migration_step, version_name, version_position, Migration, JSON_VERSION_COUNT,
};
use crate::note::{copy_note, Note};
use crate::project::Project;
use crate::task::{copy_projects, projects_view};
use crate::text::{blank, is_blank, push_str, string_of};

verus! {

/// Name of the data file in the configuration directory.
pub const DATA_FILE_NAME: &'static str = "basilk_data.json";

/// The content of the data file: its version, the projects and the notes.
pub struct DataWrapper {
    pub version: String,
    pub data: Vec<Project>,
    pub notes: Vec<Note>,
}

/// Access to the data file.
pub struct Json;

/// `r` is the files written to bring `w` up to date from the version at
/// `start`: one per later version, in order, each with that version, the
/// data migrated up to it and `w`'s notes.
pub open spec fn files_chain(start: int, w: &DataWrapper, r: Seq<DataWrapper>) -> bool {
    &&& r.len() == JSON_VERSION_COUNT - 1 - start
    &&& forall|j: int| 0 <= j < r.len() ==> #[trigger] r[j].version@ == version_name(start + 1 + j)
    &&& forall|j: int| 0 <= j < r.len() ==> #[trigger] r[j].notes@ == w.notes@
    &&& r.len() > 0 ==> migration_step(start + 1, projects_view(w.data@), projects_view(r[0].data@))
    &&& forall|j: int| 0 < j < r.len() ==> migration_step(start + 1 + j, projects_view(r[j - 1].data@), projects_view(#[trigger] r[j].data@))
}

/// A copy of the notes.
pub fn copy_notes(notes: &Vec<Note>) -> (r: Vec<Note>)
    ensures
        r@ == notes@,
{
    let mut r: Vec<Note> = Vec::new();
    let mut i: usize = 0;
    while i < notes.len()
        invariant
            i <= notes@.len(),
            r@ == notes@.take(i as int),
        decreases notes.len() - i,
    {
        r.push(copy_note(&notes[i]));
        i = i + 1;
        assert(r@ =~= notes@.take(i as int));
    }
    assert(notes@.take(notes@.len() as int) =~= notes@);
    r
}

impl Json {
    /// The name of the legacy data file of a version: the version and
    /// `.json`.
    pub fn json_file_name(version: &str) -> (r: String)
        ensures
            r@ == version@ + ".json"@,
    {
        let mut s = string_of(version);
        push_str(&mut s, ".json");
        s
    }

    /// The name of the latest data file version.
    pub fn latest_version() -> (r: &'static str)
        ensures
            r@ == version_name(JSON_VERSION_COUNT - 1),
    {
        json_version(JSON_VERSION_COUNT - 1)
    }

    /// Whether a data file's text holds nothing but whitespace; such a file
    /// is reset.
    pub fn is_blank(raw: &str) -> (r: bool)
        ensures
            r == is_blank(raw@),
    {
        blank(raw)
    }

    /// The content of a new data file: the latest version, no projects and
    /// no notes.
    pub fn fresh_file() -> (r: DataWrapper)
        ensures
            r.version@ == version_name(JSON_VERSION_COUNT - 1),
            r.data@.len() == 0,
            r.notes@.len() == 0,
    {
        DataWrapper { version: string_of(Json::latest_version()), data: Vec::new(), notes: Vec::new() }
    }

    /// The data file for a project list: the current version, the projects
    /// and the notes already stored.
    pub fn write(version: &str, projects: Vec<Project>, stored_notes: Vec<Note>) -> (r: DataWrapper)
        ensures
            r.version@ == version@,
            r.data@ == projects@,
            r.notes@ == stored_notes@,
    {
        DataWrapper { version: string_of(version), data: projects, notes: stored_notes }
    }

    /// The data file for a note list: the current version, the projects
    /// already stored and the notes.
    pub fn write_notes(version: &str, stored_projects: Vec<Project>, notes: Vec<Note>) -> (r: DataWrapper)
        ensures
            r.version@ == version@,
            r.data@ == stored_projects@,
            r.notes@ == notes@,
    {
        DataWrapper { version: string_of(version), data: stored_projects, notes }
    }

    /// The files to write, in order, to bring a data file up to date: one
    /// per pending migration, each keeping the file's notes. None for a file
    /// of the latest or of an unknown version.
    pub fn migrated_files(w: &DataWrapper) -> (r: Vec<DataWrapper>)
        ensures
            match version_position(w.version@) {
                Some(s) => files_chain(s as int, w, r@),
                None => r@.len() == 0,
            },
    {
        let data = copy_projects(&w.data);
        let migrations = Migration::get_migrations(w.version.as_str(), data);
        let ghost s = version_position(w.version@);
        let mut r: Vec<DataWrapper> = Vec::new();
        let mut j: usize = 0;
        while j < migrations.len()
            invariant
                j <= migrations@.len(),
                r@.len() == j,
                forall|k: int| #![trigger r@[k]] 0 <= k < j ==> r@[k].version@ == migrations@[k].0@,
                forall|k: int| 0 <= k < j ==> #[trigger] projects_view(r@[k].data@) == projects_view(migrations@[k].1@),
                forall|k: int| 0 <= k < j ==> #[trigger] r@[k].notes@ == w.notes@,
            decreases migrations.len() - j,
        {
            let name: &str = migrations[j].0;
            assert(name@ == migrations@[j as int].0@);
            let file = DataWrapper {
                version: string_of(name),
                data: copy_projects(&migrations[j].1),
                notes: copy_notes(&w.notes),
            };
            let ghost prev = r@;
            r.push(file);
            assert forall|k: int| 0 <= k < prev.len() implies #[trigger] r@[k] == prev[k] by {}
            j = j + 1;
        }
        proof {
            match s {
                Some(st) => {
                    assert forall|k: int| 0 < k < r@.len() implies migration_step(
                        st + 1 + k,
                        projects_view(r@[k - 1].data@),
                        projects_view(#[trigger] r@[k].data@),
                    ) by {
                        assert(projects_view(r@[k - 1].data@) == projects_view(migrations@[k - 1].1@));
                        assert(migration_step(st + 1 + k, projects_view(migrations@[k - 1].1@), projects_view(migrations@[k].1@)));
                    }
                    if r@.len() > 0 {
                        assert(projects_view(r@[0].data@) == projects_view(migrations@[0].1@));
                    }
                },
                None => {},
            }
        }
        r
    }

    /// The oldest legacy versioned file among those found (`found[i]` tells
    /// whether the file of version `i` exists).
    pub fn legacy_version(found: &Vec<bool>) -> (r: Option<usize>)
        ensures
            match r {
                Some(i) => i < found@.len() && i < JSON_VERSION_COUNT && found@[i as int]
                    && forall|k: int| 0 <= k < i ==> !found@[k],
                None => forall|k: int| 0 <= k < found@.len() && k < JSON_VERSION_COUNT ==> !found@[k],
            },
    {
        let mut i: usize = 0;
        while i < found.len() && i < JSON_VERSION_COUNT
            invariant
                i <= found@.len(),
                i <= JSON_VERSION_COUNT,
                forall|k: int| 0 <= k < i ==> !found@[k],
            decreases JSON_VERSION_COUNT - i,
        {
            if found[i] {
                return Some(i);
            }
            i = i + 1;
        }
        None
    }

    /// The data file made from the legacy file of version `i`: that version,
    /// its projects and no notes.
    pub fn legacy_file(i: usize, data: Vec<Project>) -> (r: DataWrapper)
        requires
            i < JSON_VERSION_COUNT,
        ensures
            r.version@ == version_name(i as int),
            r.data@ == data@,
            r.notes@.len() == 0,
    {
        DataWrapper { version: string_of(json_version(i)), data, notes: Vec::new() }
    }
}

} // verus!
