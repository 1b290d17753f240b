//! The key handlers of the note list, its fields, the note preview and the
//! note editor.
use vstd::prelude::*;

use crate::handlers::{
    back_to_projects, cancel_row, confirms_delete, delete_answer, delete_confirmed, input_set, is_down, is_up, outcome,
    outcome_input, plain, with_input,
};
use crate::note::{editor_text, Note};
use crate::project::{projects_listed, Project};
use crate::selection::Selection;
use crate::state::{App, EditorEdit, InputEdit, Key, KeyAction, KeyOutcome, ListId, ViewMode, step_down, step_up};
use crate::text::{join_lines, joined, same_text, views};

verus! {

/// What the note list does with a key.
pub open spec fn notes_key(a: &App, b: &App, key: Key, out: KeyOutcome) -> bool {
    let empty = a.items@.len() == 0;
    if key == Key::Char('h') {
        plain(out, KeyAction::Proceed) && *b == (App { previous_view_mode: ViewMode::ViewNotes, view_mode: ViewMode::ViewHelp, ..*a })
    } else if key == Key::Esc || key == Key::Left {
        plain(out, KeyAction::Proceed) && back_to_projects(a, b)
    } else if key == Key::Enter || key == Key::Right || key == Key::Char('l') || key == Key::Char('v') {
        if empty {
            plain(out, KeyAction::Skip) && *b == *a
        } else {
            plain(out, KeyAction::Proceed) && *b == (App { note_scroll: 0, view_mode: ViewMode::ViewNote, ..*a })
        }
    } else if key == Key::Char('n') {
        with_input(out, InputEdit::Reset) && *b == (App { view_mode: ViewMode::AddNote, ..*a })
    } else if key == Key::Char('r') {
        if empty {
            plain(out, KeyAction::Skip) && *b == *a
        } else {
            input_set(out, a.notes@[a.nidx()].title@) && *b == (App { view_mode: ViewMode::RenameNote, ..*a })
        }
    } else if key == Key::Char('d') {
        if empty {
            plain(out, KeyAction::Skip) && *b == *a
        } else {
            plain(out, KeyAction::Proceed) && *b == (App { view_mode: ViewMode::DeleteNote, ..*a })
        }
    } else if is_down(key) {
        plain(out, KeyAction::Proceed) && (if empty { *b == *a } else {
            a.with_sel(ListId::Notes, Selection { row: Some(step_down(a.selected_note_index.row, a.items@.len())) }, b)
        })
    } else if is_up(key) {
        plain(out, KeyAction::Proceed) && (if empty { *b == *a } else {
            a.with_sel(ListId::Notes, Selection { row: Some(step_up(a.selected_note_index.row, a.items@.len())) }, b)
        })
    } else if key == Key::Char('q') {
        plain(out, KeyAction::Quit) && *b == *a
    } else {
        plain(out, KeyAction::Proceed) && *b == *a
    }
}

/// What the new note field does with a key: a non-empty title creates the
/// note and selects it.
pub open spec fn add_note_key(a: &App, b: &App, key: Key, input: Seq<char>, out: KeyOutcome) -> bool {
    if key == Key::Enter {
        if input.len() > 0 {
            with_input(out, InputEdit::Reset) && exists|m: App| #[trigger] Note::created(a, &m, input) && *b == (App {
                view_mode: ViewMode::ViewNotes,
                selected_note_index: Selection { row: Some((m.notes@.len() - 1) as usize) },
                ..m
            })
        } else {
            plain(out, KeyAction::Proceed) && *b == (App { view_mode: ViewMode::ViewNotes, ..*a })
        }
    } else if key == Key::Esc {
        with_input(out, InputEdit::Reset) && *b == (App { view_mode: ViewMode::ViewNotes, ..*a })
    } else {
        with_input(out, InputEdit::Forward) && *b == *a
    }
}

/// What the note rename field does with a key.
pub open spec fn rename_note_key(a: &App, b: &App, key: Key, input: Seq<char>, out: KeyOutcome) -> bool {
    if key == Key::Enter {
        with_input(out, InputEdit::Reset) && exists|m: App| #[trigger] Note::renamed(a, &m, input)
            && *b == (App { view_mode: ViewMode::ViewNotes, ..m })
    } else if key == Key::Esc {
        with_input(out, InputEdit::Reset) && *b == (App { view_mode: ViewMode::ViewNotes, ..*a })
    } else {
        with_input(out, InputEdit::Forward) && *b == *a
    }
}

/// What the note delete confirmation does with a key.
pub open spec fn delete_note_key(a: &App, b: &App, key: Key, out: KeyOutcome) -> bool {
    if App::modal_nav(a, b, key, 2, ViewMode::ViewNotes, true) {
        plain(out, KeyAction::Skip)
    } else if delete_answer(key) {
        plain(out, KeyAction::Proceed) && if delete_confirmed(a, key) {
            exists|m: App| #[trigger] Note::deleted(a, &m) && *b == (App {
                view_mode: ViewMode::ViewNotes,
                delete_confirm_index: cancel_row(),
                ..m
            })
        } else {
            *b == (App { view_mode: ViewMode::ViewNotes, delete_confirm_index: cancel_row(), ..*a })
        }
    } else {
        plain(out, KeyAction::Proceed) && *b == *a
    }
}

/// The scroll offset of the note preview after a scroll key, saturating
/// at both ends; `None` for keys that do not scroll.
pub open spec fn scrolled(scroll: u16, key: Key) -> Option<u16> {
    let up = |d: int| if scroll + d > u16::MAX { u16::MAX } else { (scroll + d) as u16 };
    let down = |d: int| if scroll < d { 0u16 } else { (scroll - d) as u16 };
    if key == Key::Down || key == Key::Char('j') {
        Some(up(1))
    } else if key == Key::Up || key == Key::Char('k') {
        Some(down(1))
    } else if key == Key::PageDown {
        Some(up(10))
    } else if key == Key::PageUp {
        Some(down(10))
    } else if key == Key::Home || key == Key::Char('g') {
        Some(0)
    } else if key == Key::End || key == Key::Char('G') {
        Some(u16::MAX)
    } else {
        None
    }
}

/// What the note preview does with a key: scroll keys move the view, `e`
/// opens the editor on the note's lines, Esc and Enter go back to the
/// list.
pub open spec fn view_note_key(a: &App, b: &App, key: Key, out: KeyOutcome) -> bool {
    if key == Key::Char('h') {
        plain(out, KeyAction::Proceed) && *b == (App { previous_view_mode: ViewMode::ViewNote, view_mode: ViewMode::ViewHelp, ..*a })
    } else if key == Key::Char('e') {
        &&& out.action == KeyAction::Proceed
        &&& out.input == InputEdit::Keep
        &&& (out.editor matches EditorEdit::Open(lines) && views(lines@) == editor_text(a.notes@[a.nidx()].body@))
        &&& *b == (App { view_mode: ViewMode::EditNote, ..*a })
    } else if scrolled(a.note_scroll, key) is Some {
        plain(out, KeyAction::Proceed) && *b == (App { note_scroll: scrolled(a.note_scroll, key)->0, ..*a })
    } else if key == Key::Esc || key == Key::Enter {
        plain(out, KeyAction::Proceed) && exists|m: App| #[trigger] crate::note::notes_listed(a, &m)
            && *b == (App { view_mode: ViewMode::ViewNotes, ..m })
    } else if key == Key::Char('q') {
        plain(out, KeyAction::Quit) && *b == *a
    } else {
        plain(out, KeyAction::Proceed) && *b == *a
    }
}

/// What the note editor does with a key, given the editor's lines when it
/// is open: Esc saves the joined lines as the body (when they differ from
/// it) and closes the editor; any other key goes to the editor.
pub open spec fn edit_note_key(a: &App, b: &App, key: Key, editor: Option<Seq<Seq<char>>>, out: KeyOutcome) -> bool {
    if key == Key::Esc {
        &&& out == (KeyOutcome { action: KeyAction::Proceed, input: InputEdit::Keep, editor: EditorEdit::Close })
        &&& match editor {
            Some(lines) => if joined(lines) != a.notes@[a.nidx()].body@ {
                exists|m: App| #[trigger] Note::body_updated(a, &m, joined(lines))
                    && *b == (App { view_mode: ViewMode::ViewNote, ..m })
            } else {
                *b == (App { view_mode: ViewMode::ViewNote, ..*a })
            },
            None => *b == (App { view_mode: ViewMode::ViewNote, ..*a }),
        }
    } else {
        &&& out == (KeyOutcome { action: KeyAction::Proceed, input: InputEdit::Keep, editor: EditorEdit::Forward })
        &&& *b == *a
    }
}

/// The scroll offset after a scroll key (`None` for other keys).
pub fn scroll_after(scroll: u16, key: Key) -> (r: Option<u16>)
    ensures
        r == scrolled(scroll, key),
{
    match key {
        Key::Down | Key::Char('j') => Some(scroll.saturating_add(1)),
        Key::Up | Key::Char('k') => Some(scroll.saturating_sub(1)),
        Key::PageDown => Some(scroll.saturating_add(10)),
        Key::PageUp => Some(scroll.saturating_sub(10)),
        Key::Home | Key::Char('g') => Some(0),
        Key::End | Key::Char('G') => Some(u16::MAX),
        _ => None,
    }
}

impl App {
    /// Keys of the note list.
    pub fn handle_view_notes(&mut self, key: Key) -> (out: KeyOutcome)
        requires
            old(self).view_mode == ViewMode::ViewNotes,
            old(self).items@.len() > 0 && key == Key::Char('r') ==> old(self).note_ok(),
        ensures
            notes_key(old(self), final(self), key, out),
    {
        let empty = self.items.len() == 0;
        match key {
            Key::Char('h') => {
                self.previous_view_mode = ViewMode::ViewNotes;
                self.change_view(ViewMode::ViewHelp);
                outcome(KeyAction::Proceed)
            },
            Key::Esc | Key::Left => {
                Project::load_items(self);
                let ghost m = *self;
                self.change_view(ViewMode::ViewProjects);
                assert(projects_listed(old(self), &m));
                outcome(KeyAction::Proceed)
            },
            Key::Enter | Key::Right | Key::Char('l') | Key::Char('v') => {
                if empty {
                    return outcome(KeyAction::Skip);
                }
                self.note_scroll = 0;
                self.change_view(ViewMode::ViewNote);
                outcome(KeyAction::Proceed)
            },
            Key::Char('n') => {
                self.change_view(ViewMode::AddNote);
                outcome_input(InputEdit::Reset)
            },
            Key::Char('r') => {
                if empty {
                    return outcome(KeyAction::Skip);
                }
                let title = Note::get_current(self).title.clone();
                self.change_view(ViewMode::RenameNote);
                outcome_input(InputEdit::Replace(title))
            },
            Key::Char('d') => {
                if empty {
                    return outcome(KeyAction::Skip);
                }
                self.change_view(ViewMode::DeleteNote);
                outcome(KeyAction::Proceed)
            },
            Key::Down | Key::Tab | Key::Char('j') => {
                let n = self.items.len();
                self.next(n);
                outcome(KeyAction::Proceed)
            },
            Key::Up | Key::BackTab | Key::Char('k') => {
                let n = self.items.len();
                self.previous(n);
                outcome(KeyAction::Proceed)
            },
            Key::Char('q') => outcome(KeyAction::Quit),
            _ => outcome(KeyAction::Proceed),
        }
    }

    /// Keys of the new note field.
    pub fn handle_add_note(&mut self, key: Key, input: &str) -> (out: KeyOutcome)
        ensures
            add_note_key(old(self), final(self), key, input@, out),
    {
        match key {
            Key::Enter => {
                if !input.is_empty() {
                    Note::create(self, input);
                    let ghost m = *self;
                    proof {
                        assert(m.notes@.len() == old(self).notes@.len() + 1) by {
                            let w = choose|w: App| #[trigger] crate::note::notes_listed(&w, &m)
                                && w.notes@.len() == old(self).notes@.len() + 1;
                        }
                    }
                    let n = self.notes.len();
                    self.selected_note_index.select(Some(n - 1));
                    self.change_view(ViewMode::ViewNotes);
                    assert(Note::created(old(self), &m, input@));
                    outcome_input(InputEdit::Reset)
                } else {
                    self.change_view(ViewMode::ViewNotes);
                    outcome(KeyAction::Proceed)
                }
            },
            Key::Esc => {
                self.change_view(ViewMode::ViewNotes);
                outcome_input(InputEdit::Reset)
            },
            _ => outcome_input(InputEdit::Forward),
        }
    }

    /// Keys of the note rename field.
    pub fn handle_rename_note(&mut self, key: Key, input: &str) -> (out: KeyOutcome)
        requires
            key == Key::Enter ==> old(self).note_ok(),
        ensures
            rename_note_key(old(self), final(self), key, input@, out),
    {
        match key {
            Key::Enter => {
                Note::rename(self, input);
                let ghost m = *self;
                self.change_view(ViewMode::ViewNotes);
                assert(Note::renamed(old(self), &m, input@));
                outcome_input(InputEdit::Reset)
            },
            Key::Esc => {
                self.change_view(ViewMode::ViewNotes);
                outcome_input(InputEdit::Reset)
            },
            _ => outcome_input(InputEdit::Forward),
        }
    }

    /// Keys of the note delete confirmation.
    pub fn handle_delete_note(&mut self, key: Key) -> (out: KeyOutcome)
        requires
            old(self).view_mode == ViewMode::DeleteNote,
            delete_confirmed(old(self), key) ==> old(self).note_ok(),
        ensures
            delete_note_key(old(self), final(self), key, out),
    {
        if self.handle_modal_nav(key, 2, ViewMode::ViewNotes) {
            return outcome(KeyAction::Skip);
        }
        if key == Key::Enter || key == Key::Char('y') || key == Key::Char('n') {
            if confirms_delete(self, key) {
                Note::delete(self);
                let ghost m = *self;
                self.delete_confirm_index.select(Some(crate::ui::DELETE_CANCEL_INDEX));
                self.change_view(ViewMode::ViewNotes);
                assert(Note::deleted(old(self), &m));
            } else {
                self.delete_confirm_index.select(Some(crate::ui::DELETE_CANCEL_INDEX));
                self.change_view(ViewMode::ViewNotes);
            }
        }
        outcome(KeyAction::Proceed)
    }

    /// Keys of the note preview.
    pub fn handle_view_note(&mut self, key: Key) -> (out: KeyOutcome)
        requires
            key == Key::Char('e') ==> old(self).note_ok(),
        ensures
            view_note_key(old(self), final(self), key, out),
    {
        if key == Key::Char('h') {
            self.previous_view_mode = ViewMode::ViewNote;
            self.change_view(ViewMode::ViewHelp);
            return outcome(KeyAction::Proceed);
        }
        if key == Key::Char('e') {
            let lines = Note::editor_lines(Note::get_current(self).body.as_str());
            self.change_view(ViewMode::EditNote);
            return KeyOutcome { action: KeyAction::Proceed, input: InputEdit::Keep, editor: EditorEdit::Open(lines) };
        }
        match scroll_after(self.note_scroll, key) {
            Some(s) => {
                self.note_scroll = s;
                outcome(KeyAction::Proceed)
            },
            None => match key {
                Key::Esc | Key::Enter => {
                    Note::load_items(self);
                    let ghost m = *self;
                    self.change_view(ViewMode::ViewNotes);
                    assert(crate::note::notes_listed(old(self), &m));
                    outcome(KeyAction::Proceed)
                },
                Key::Char('q') => outcome(KeyAction::Quit),
                _ => outcome(KeyAction::Proceed),
            },
        }
    }

    /// Keys of the note editor; `editor` holds the editor's lines when it
    /// is open.
    pub fn handle_edit_note(&mut self, key: Key, editor: Option<Vec<String>>) -> (out: KeyOutcome)
        requires
            key == Key::Esc && editor is Some ==> old(self).note_ok(),
        ensures
            edit_note_key(old(self), final(self), key, editor_view(editor), out),
    {
        if key == Key::Esc {
            match editor {
                Some(lines) => {
                    let body = join_lines(&lines);
                    if !same_text(body.as_str(), Note::get_current(self).body.as_str()) {
                        Note::update_body(self, body.as_str());
                        let ghost m = *self;
                        self.change_view(ViewMode::ViewNote);
                        assert(Note::body_updated(old(self), &m, body@));
                    } else {
                        self.change_view(ViewMode::ViewNote);
                    }
                },
                None => {
                    self.change_view(ViewMode::ViewNote);
                },
            }
            return KeyOutcome { action: KeyAction::Proceed, input: InputEdit::Keep, editor: EditorEdit::Close };
        }
        KeyOutcome { action: KeyAction::Proceed, input: InputEdit::Keep, editor: EditorEdit::Forward }
    }
}

/// The text of the editor's lines, when it is open.
pub open spec fn editor_view(editor: Option<Vec<String>>) -> Option<Seq<Seq<char>>> {
    match editor {
        Some(lines) => Some(views(lines@)),
        None => None,
    }
}

} // verus!
