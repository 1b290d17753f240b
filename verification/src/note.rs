//! Notes: global, project-independent Markdown notes.
use vstd::prelude::*;

use crate::state::{App, ListRow, Save};
use crate::style::{Look, Piece, Tint};
use crate::text::{blank, is_blank, lines_of, split_lines, string_of, views};

verus! {

/// A global note; `body` holds Markdown source.
#[derive(Debug, Clone, PartialEq)]
pub struct Note {
    pub title: String,
    pub body: String,
    pub created_at: Option<u64>,
    pub updated_at: Option<u64>,
}

/// The first line that is not blank, or nothing.
pub open spec fn first_content_line(ls: Seq<Seq<char>>) -> Seq<char>
    decreases ls.len(),
{
    if ls.len() == 0 {
        Seq::empty()
    } else if !is_blank(ls[0]) {
        ls[0]
    } else {
        first_content_line(ls.drop_first())
    }
}

/// The one-line preview of a note body: its first non-blank line, cut to
/// 40 characters.
pub open spec fn snippet_text(body: Seq<char>) -> Seq<char> {
    let l = first_content_line(lines_of(body));
    if l.len() <= 40 {
        l
    } else {
        l.take(40)
    }
}

/// The lines the note editor opens on: the body's lines, or one empty line
/// for an empty body.
pub open spec fn editor_text(body: Seq<char>) -> Seq<Seq<char>> {
    if lines_of(body).len() == 0 {
        seq![Seq::empty()]
    } else {
        lines_of(body)
    }
}

/// The rows of a list showing `n` notes.
pub open spec fn note_rows(n: nat) -> Seq<ListRow> {
    Seq::new(n, |i: int| ListRow::Note(i as usize))
}

/// `b` is `a` with the note list shown and the note selection clamped into
/// it; nothing else changes.
pub open spec fn notes_listed(a: &App, b: &App) -> bool {
    let n = a.notes@.len();
    let cur = match a.selected_note_index.row {
        Some(i) => i as int,
        None => 0,
    };
    let last = if n == 0 {
        0
    } else {
        n - 1
    };
    &&& b.items@ == note_rows(n)
    &&& b.selected_note_index.row == Some((if cur < last { cur } else { last }) as usize)
    &&& b.selected_project_index == a.selected_project_index
    &&& b.selected_task_index == a.selected_task_index
    &&& b.selected_status_task_index == a.selected_status_task_index
    &&& b.selected_priority_task_index == a.selected_priority_task_index
    &&& b.delete_confirm_index == a.delete_confirm_index
    &&& b.view_mode == a.view_mode
    &&& b.previous_view_mode == a.previous_view_mode
    &&& b.projects@ == a.projects@
    &&& b.hide_done_tasks == a.hide_done_tasks
    &&& b.timer == a.timer
    &&& b.board_view == a.board_view
    &&& b.board_lane == a.board_lane
    &&& b.board_lane_states == a.board_lane_states
    &&& b.notes@ == a.notes@
    &&& b.note_scroll == a.note_scroll
    &&& b.saves@ == a.saves@
}

/// `m` is `a` with its notes changed and saved once; the rest is as in `a`.
pub open spec fn saved_notes_once(a: &App, m: &App) -> bool {
    &&& m.saves@.len() == a.saves@.len() + 1
    &&& m.saves@.take(a.saves@.len() as int) == a.saves@
    &&& match m.saves@.last() {
        Save::Notes(v) => v@ == m.notes@,
        _ => false,
    }
    &&& m.items@ == a.items@
    &&& m.projects@ == a.projects@
    &&& m.selected_project_index == a.selected_project_index
    &&& m.selected_task_index == a.selected_task_index
    &&& m.selected_note_index == a.selected_note_index
    &&& m.selected_status_task_index == a.selected_status_task_index
    &&& m.selected_priority_task_index == a.selected_priority_task_index
    &&& m.delete_confirm_index == a.delete_confirm_index
    &&& m.view_mode == a.view_mode
    &&& m.previous_view_mode == a.previous_view_mode
    &&& m.hide_done_tasks == a.hide_done_tasks
    &&& m.timer == a.timer
    &&& m.board_view == a.board_view
    &&& m.board_lane == a.board_lane
    &&& m.board_lane_states == a.board_lane_states
    &&& m.note_scroll == a.note_scroll
}

/// A copy of a note, equal to it.
pub fn copy_note(n: &Note) -> (r: Note)
    ensures
        r == *n,
{
    Note {
        title: n.title.clone(),
        body: n.body.clone(),
        created_at: n.created_at,
        updated_at: n.updated_at,
    }
}

impl App {
    /// Records the notes for the data file.
    pub fn save_notes(&mut self)
        ensures
            saved_notes_once(old(self), final(self)),
            final(self).notes@ == old(self).notes@,
    {
        let mut copy: Vec<Note> = Vec::new();
        let mut i: usize = 0;
        while i < self.notes.len()
            invariant
                i <= self.notes@.len(),
                copy@ == self.notes@.take(i as int),
            decreases self.notes.len() - i,
        {
            copy.push(copy_note(&self.notes[i]));
            i = i + 1;
            assert(copy@ =~= self.notes@.take(i as int));
        }
        assert(copy@ =~= self.notes@);
        self.saves.push(Save::Notes(copy));
        assert(final(self).saves@.take(old(self).saves@.len() as int) =~= old(self).saves@);
    }
}

impl Note {
    /// The current UNIX time in seconds.
    pub fn current_timestamp() -> u64 {
        crate::clock::unix_now()
    }

    /// The one-line preview of a note body: its first non-blank line, cut
    /// to 40 characters.
    pub fn snippet(body: &str) -> (r: String)
        ensures
            r@ == snippet_text(body@),
    {
        let lines = split_lines(body);
        let ghost ls = lines_of(body@);
        let mut k: usize = 0;
        assert(ls.skip(0) =~= ls);
        while k < lines.len() && blank(lines[k].as_str())
            invariant
                views(lines@) == ls,
                k <= lines@.len(),
                first_content_line(ls) == first_content_line(ls.skip(k as int)),
            decreases lines.len() - k,
        {
            proof {
                assert(ls.skip(k as int)[0] == lines@[k as int]@);
                assert(ls.skip(k as int).drop_first() =~= ls.skip(k + 1));
            }
            k = k + 1;
        }
        if k == lines.len() {
            assert(ls.skip(k as int) =~= Seq::<Seq<char>>::empty());
            return String::new();
        }
        assert(ls.skip(k as int)[0] == lines@[k as int]@);
        let cs = crate::text::chars_of(lines[k].as_str());
        let end = if cs.len() <= 40 {
            cs.len()
        } else {
            40
        };
        let r = crate::text::string_from_chars(&cs, 0, end);
        assert(r@ =~= snippet_text(body@));
        r
    }

    /// The pieces of a note's list line: the title, then its snippet two
    /// spaces on in dark gray when the body has one.
    pub fn row_pieces(&self) -> (r: Vec<Piece>)
        ensures
            r@.len() == (if snippet_text(self.body@).len() > 0 { 2int } else { 1 }),
            r@[0].text@ == self.title@,
            r@[0].look == Look::spec_plain(),
            snippet_text(self.body@).len() > 0 ==> r@[1].text@ == "  "@ + snippet_text(self.body@)
                && r@[1].look == (Look { fg: Some(Tint::DarkGray), ..Look::spec_plain() }),
    {
        let mut r: Vec<Piece> = Vec::new();
        r.push(Piece { text: string_of(self.title.as_str()), look: Look::plain() });
        let snippet = Note::snippet(self.body.as_str());
        if !snippet.as_str().is_empty() {
            let mut text = string_of("  ");
            crate::text::push_str(&mut text, snippet.as_str());
            r.push(Piece { text, look: Look::colored(Tint::DarkGray) });
        }
        r
    }

    /// The lines the editor opens on: the body's lines, or one empty line.
    pub fn editor_lines(body: &str) -> (r: Vec<String>)
        ensures
            views(r@) == editor_text(body@),
    {
        let mut lines = split_lines(body);
        if lines.len() == 0 {
            lines.push(String::new());
            assert(views(lines@) =~= seq![Seq::<char>::empty()]);
        }
        lines
    }

    /// Shows the note list and clamps the note selection into it.
    pub fn load_items(app: &mut App)
        ensures
            notes_listed(old(app), final(app)),
    {
        let mut rows: Vec<ListRow> = Vec::new();
        let mut i: usize = 0;
        while i < app.notes.len()
            invariant
                i <= app.notes@.len(),
                rows@ == note_rows(i as nat),
            decreases app.notes.len() - i,
        {
            rows.push(ListRow::Note(i));
            i = i + 1;
            assert(rows@ =~= note_rows(i as nat));
        }
        app.items = rows;
        let cur = match app.selected_note_index.selected() {
            Some(i) => i,
            None => 0,
        };
        let last = if app.notes.len() == 0 {
            0
        } else {
            app.notes.len() - 1
        };
        app.selected_note_index.select(Some(if cur < last { cur } else { last }));
    }

    /// The selected note.
    pub fn get_current(app: &App) -> (r: &Note)
        requires
            app.note_ok(),
        ensures
            *r == app.notes@[app.nidx()],
    {
        &app.notes[app.selected_note_index.selected().unwrap()]
    }

    /// `b` is `a` after creating a note titled `value`.
    pub open spec fn created(a: &App, b: &App, value: Seq<char>) -> bool {
        &&& (value.len() == 0 ==> *b == *a)
        &&& (value.len() > 0 ==> exists|m: App| #[trigger] notes_listed(&m, b) && {
                &&& m.notes@.len() == a.notes@.len() + 1
                &&& m.notes@.take(a.notes@.len() as int) == a.notes@
                &&& m.notes@.last().title@ == value
                &&& m.notes@.last().body@ == Seq::<char>::empty()
                &&& m.notes@.last().created_at is Some
                &&& m.notes@.last().updated_at is None
                &&& saved_notes_once(a, &m)
            })
    }

    /// Appends a note with the given title and an empty body (an empty title
    /// does nothing), saves and shows the note list.
    pub fn create(app: &mut App, value: &str)
        ensures
            Note::created(old(app), final(app), value@),
    {
        if value.is_empty() {
            return;
        }
        app.notes.push(
            Note {
                title: string_of(value),
                body: String::new(),
                created_at: Some(Note::current_timestamp()),
                updated_at: None,
            },
        );
        let ghost pushed = *app;
        app.save_notes();
        let ghost m = *app;
        Note::load_items(app);
        proof {
            assert(m.notes@.take(old(app).notes@.len() as int) =~= old(app).notes@);
            assert(notes_listed(&m, final(app)));
        }
    }

    /// `b` is `a` after renaming the selected note to `value`.
    pub open spec fn renamed(a: &App, b: &App, value: Seq<char>) -> bool {
        &&& (exists|m: App| #[trigger] notes_listed(&m, b) && {
                &&& m.notes@.len() == a.notes@.len()
                &&& forall|j: int| 0 <= j < a.notes@.len() && j != a.nidx() ==> m.notes@[j] == a.notes@[j]
                &&& m.notes@[a.nidx()].title@ == value
                &&& m.notes@[a.nidx()].body == a.notes@[a.nidx()].body
                &&& m.notes@[a.nidx()].created_at == a.notes@[a.nidx()].created_at
                &&& m.notes@[a.nidx()].updated_at == a.notes@[a.nidx()].updated_at
                &&& saved_notes_once(a, &m)
            })
    }

    /// Sets the selected note's title, saves and shows the note list.
    pub fn rename(app: &mut App, value: &str)
        requires
            old(app).note_ok(),
        ensures
            Note::renamed(old(app), final(app), value@),
    {
        let i = app.selected_note_index.selected().unwrap();
        app.notes[i].title = string_of(value);
        app.save_notes();
        let ghost m = *app;
        Note::load_items(app);
        assert(notes_listed(&m, final(app)));
    }

    /// `b` is `a` after setting the selected note's body to `value`.
    pub open spec fn body_updated(a: &App, b: &App, value: Seq<char>) -> bool {
        &&& (b.notes@.len() == a.notes@.len())
        &&& (forall|j: int| 0 <= j < a.notes@.len() && j != a.nidx() ==> b.notes@[j] == a.notes@[j])
        &&& (b.notes@[a.nidx()].body@ == value)
        &&& (b.notes@[a.nidx()].title == a.notes@[a.nidx()].title)
        &&& (b.notes@[a.nidx()].created_at == a.notes@[a.nidx()].created_at)
        &&& (b.notes@[a.nidx()].updated_at is Some)
        &&& (saved_notes_once(a, b))
    }

    /// Sets the selected note's body and edit time, and saves.
    pub fn update_body(app: &mut App, value: &str)
        requires
            old(app).note_ok(),
        ensures
            Note::body_updated(old(app), final(app), value@),
    {
        let i = app.selected_note_index.selected().unwrap();
        app.notes[i].body = string_of(value);
        app.notes[i].updated_at = Some(Note::current_timestamp());
        app.save_notes();
    }

    /// `b` is `a` after deleting the selected note.
    pub open spec fn deleted(a: &App, b: &App) -> bool {
        &&& (exists|m: App| #[trigger] notes_listed(&m, b) && {
                &&& m.notes@ == a.notes@.remove(a.nidx())
                &&& saved_notes_once(a, &m)
            })
    }

    /// Removes the selected note, saves and shows the note list.
    pub fn delete(app: &mut App)
        requires
            old(app).note_ok(),
        ensures
            Note::deleted(old(app), final(app)),
    {
        let i = app.selected_note_index.selected().unwrap();
        app.notes.remove(i);
        app.save_notes();
        let ghost m = *app;
        Note::load_items(app);
        assert(notes_listed(&m, final(app)));
    }
}

} // verus!
