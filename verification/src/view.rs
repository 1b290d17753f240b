//! What the screens show, computed from the application state: line
//! wrapping of the note preview, the big timer digits, the timer and task
//! panels, the help table and the list titles.
use vstd::prelude::*;

use crate::state::{whole_secs, App, ViewMode};
use crate::style::Tint;
use crate::task::{first_titled, progress_percent, Task};
use crate::text::{chars_of, decimal, push_char, push_decimal, push_str, string_of};
use crate::timer::{target_nanos, TimerKind, TimerState, TimerTaskBinding};
use crate::util::{clock_text, Util};

verus! {

/// Where a word of `ww` columns lands when greedily wrapped to lines of
/// `width` columns, given `lines` lines so far with `used` columns taken on
/// the last one: the lines and the used columns after it. A word that does
/// not fit starts a new line; a word wider than a line fills the rest of the
/// current line and then as many whole lines as it needs.
pub open spec fn place_word(lines: nat, used: nat, ww: nat, width: nat) -> (nat, nat) {
    let needed = if used == 0 { ww } else { ww + 1 };
    if used + needed <= width {
        (lines, used + needed)
    } else if ww > width {
        let extra: nat = if used > 0 { 1 } else { 0 };
        let q = ((ww - 1) as nat / width) as nat;
        (lines + extra + q, (ww - q * width) as nat)
    } else {
        (lines + 1, ww)
    }
}

/// The wrapping state after the characters of `s`, words being separated by
/// single spaces: (lines, used columns, width of the word being read).
pub open spec fn wrap_scan(s: Seq<char>, width: nat) -> (nat, nat, nat)
    decreases s.len(),
{
    if s.len() == 0 {
        (1, 0, 0)
    } else {
        let st = wrap_scan(s.drop_last(), width);
        if s.last() == ' ' {
            let p = place_word(st.0, st.1, st.2, width);
            (p.0, p.1, 0)
        } else {
            (st.0, st.1, st.2 + 1)
        }
    }
}

/// Lines a logical line takes when its space-separated words are greedily
/// wrapped to `width` columns.
pub open spec fn wrapped_height(s: Seq<char>, width: nat) -> nat {
    let st = wrap_scan(s, width);
    place_word(st.0, st.1, st.2, width).0
}

/// All characters are spaces.
pub open spec fn only_spaces(s: Seq<char>) -> bool {
    forall|i: int| 0 <= i < s.len() ==> s[i] == ' '
}

proof fn lemma_place_word_bounds(lines: nat, used: nat, ww: nat, width: nat)
    requires
        width > 0,
        used <= width,
    ensures
        place_word(lines, used, ww, width).0 >= lines,
        place_word(lines, used, ww, width).0 <= lines + (if ww > 0 { ww } else { 1 }),
        place_word(lines, used, ww, width).1 <= width,
{
    let needed = if used == 0 { ww } else { ww + 1 };
    if used + needed <= width {
    } else if ww > width {
        let q = ((ww - 1) as nat / width) as nat;
        assert(q <= ww - 1) by (nonlinear_arith)
            requires
                q == (ww - 1) as nat / width,
                width >= 1,
                ww >= 1,
        ;
        assert(q * width <= ww - 1) by (nonlinear_arith)
            requires
                q == (ww - 1) as nat / width,
                width >= 1,
                ww >= 1,
        ;
        assert(ww - q * width <= width) by (nonlinear_arith)
            requires
                q == (ww - 1) as nat / width,
                width >= 1,
                ww >= 1,
        ;
        if used > 0 {
            assert(used + ww + 1 > width);
        }
    } else {
    }
}

proof fn lemma_wrap_scan_bounds(s: Seq<char>, width: nat)
    requires
        width > 0 || only_spaces(s),
    ensures
        wrap_scan(s, width).0 >= 1,
        wrap_scan(s, width).0 + wrap_scan(s, width).2 <= s.len() + 1,
        wrap_scan(s, width).1 <= width,
    decreases s.len(),
{
    if s.len() > 0 {
        let p = s.drop_last();
        assert(width > 0 || only_spaces(p)) by {
            if width == 0 {
                assert forall|i: int| 0 <= i < p.len() implies p[i] == ' ' by {
                    assert(p[i] == s[i]);
                }
            }
        }
        lemma_wrap_scan_bounds(p, width);
        let st = wrap_scan(p, width);
        if s.last() == ' ' {
            if width > 0 {
                lemma_place_word_bounds(st.0, st.1, st.2, width);
            } else {
                assert(st.2 == 0) by {
                    lemma_spaces_scan_word(p, width);
                }
            }
        } else {
            assert(s[s.len() - 1] == s.last());
        }
    }
}

proof fn lemma_spaces_scan_word(s: Seq<char>, width: nat)
    requires
        only_spaces(s),
    ensures
        wrap_scan(s, width).2 == 0,
        wrap_scan(s, width).1 == 0,
        wrap_scan(s, width).0 == 1,
    decreases s.len(),
{
    if s.len() > 0 {
        let p = s.drop_last();
        assert(only_spaces(p)) by {
            assert forall|i: int| 0 <= i < p.len() implies p[i] == ' ' by {
                assert(p[i] == s[i]);
            }
        }
        lemma_spaces_scan_word(p, width);
        assert(s.last() == s[s.len() - 1]);
    }
}

/// A logical line takes at least one line.
pub proof fn lemma_wrapped_height_positive(s: Seq<char>, width: nat)
    requires
        width > 0,
    ensures
        wrapped_height(s, width) >= 1,
{
    lemma_wrap_scan_bounds(s, width);
    let st = wrap_scan(s, width);
    lemma_place_word_bounds(st.0, st.1, st.2, width);
}

/// `used` columns taken and the word being read fit in the characters read.
spec fn fits_prefix(st: (nat, nat, nat), k: nat) -> bool {
    &&& st.0 == 1
    &&& st.1 + st.2 + (if st.1 > 0 { 1nat } else { 0 }) <= k
}

proof fn lemma_short_scan(s: Seq<char>, width: nat)
    requires
        s.len() <= width,
    ensures
        fits_prefix(wrap_scan(s, width), s.len()),
    decreases s.len(),
{
    if s.len() > 0 {
        lemma_short_scan(s.drop_last(), width);
    }
}

/// A line no wider than the width is not wrapped.
pub proof fn lemma_short_line_is_not_wrapped(s: Seq<char>, width: nat)
    requires
        s.len() <= width,
    ensures
        wrapped_height(s, width) == 1,
{
    lemma_short_scan(s, width);
}

/// The characters of `s` that are not spaces.
pub open spec fn word_chars(s: Seq<char>) -> nat
    decreases s.len(),
{
    if s.len() == 0 {
        0
    } else {
        word_chars(s.drop_last()) + if s.last() == ' ' { 0nat } else { 1nat }
    }
}

/// The room taken before a word is placed, plus the word, fits in the room
/// taken after it.
proof fn lemma_place_word_room(lines: nat, used: nat, ww: nat, width: nat)
    requires
        width > 0,
        used <= width,
        lines >= 1,
    ensures
        ({
            let p = place_word(lines, used, ww, width);
            (p.0 - 1) * width + p.1 >= (lines - 1) * width + used + ww
        }),
{
    let needed = if used == 0 { ww } else { ww + 1 };
    if used + needed <= width {
    } else if ww > width {
        let extra: nat = if used > 0 { 1 } else { 0 };
        let q = ((ww - 1) as nat / width) as nat;
        lemma_place_word_bounds(lines, used, ww, width);
        assert((lines + extra + q - 1) * width == (lines - 1) * width + extra * width + q * width)
            by (nonlinear_arith);
        assert(extra * width >= used) by (nonlinear_arith)
            requires
                extra == (if used > 0 { 1nat } else { 0nat }),
                used <= width,
        ;
    } else {
        assert(lines * width == (lines - 1) * width + width) by (nonlinear_arith);
    }
}

/// Every non-space character read is in the room taken or in the word being
/// read.
proof fn lemma_wrap_scan_room(s: Seq<char>, width: nat)
    requires
        width > 0,
    ensures
        ({
            let st = wrap_scan(s, width);
            st.0 >= 1 && st.1 <= width && (st.0 - 1) * width + st.1 + st.2 >= word_chars(s)
        }),
    decreases s.len(),
{
    if s.len() > 0 {
        let p = s.drop_last();
        lemma_wrap_scan_room(p, width);
        let st = wrap_scan(p, width);
        if s.last() == ' ' {
            lemma_place_word_room(st.0, st.1, st.2, width);
            lemma_place_word_bounds(st.0, st.1, st.2, width);
        }
    }
}

/// Word wrapping puts at most `width` of the text's non-space characters on
/// a line: the height is at least what those characters take when wrapped
/// character by character.
pub proof fn lemma_wrapped_height_holds_the_words(s: Seq<char>, width: nat)
    requires
        width > 0,
    ensures
        wrapped_height(s, width) * width >= word_chars(s),
{
    lemma_wrap_scan_room(s, width);
    let st = wrap_scan(s, width);
    lemma_place_word_room(st.0, st.1, st.2, width);
    lemma_place_word_bounds(st.0, st.1, st.2, width);
    let p = place_word(st.0, st.1, st.2, width);
    assert(p.0 * width == (p.0 - 1) * width + width) by (nonlinear_arith)
        requires
            p.0 >= 1,
    ;
}

/// Greedy word wrapping of one step: `place_word` on machine integers.
fn place(lines: usize, used: usize, ww: usize, width: usize) -> (r: (usize, usize))
    requires
        width > 0 || ww == 0,
        used <= width,
        ww < usize::MAX,
        lines + (if ww > 0 { ww as int } else { 1 }) <= usize::MAX,
    ensures
        r.0 == place_word(lines as nat, used as nat, ww as nat, width as nat).0,
        r.1 == place_word(lines as nat, used as nat, ww as nat, width as nat).1,
{
    proof {
        if width > 0 {
            lemma_place_word_bounds(lines as nat, used as nat, ww as nat, width as nat);
        }
    }
    let needed = if used == 0 {
        ww
    } else {
        ww + 1
    };
    if used <= width && needed <= width - used {
        (lines, used + needed)
    } else if ww > width {
        let extra: usize = if used > 0 {
            1
        } else {
            0
        };
        let q = (ww - 1) / width;
        proof {
            assert(q * width <= ww - 1) by (nonlinear_arith)
                requires
                    q == (ww - 1) as nat / width as nat,
                    width >= 1,
                    ww >= 1,
            ;
        }
        (lines + extra + q, ww - q * width)
    } else {
        (lines + 1, ww)
    }
}

/// Lines a single logical line takes when greedily word-wrapped to
/// `width` columns; a word longer than `width` is broken across lines.
pub fn word_wrapped_height(content: &str, width: usize) -> (r: usize)
    requires
        width > 0 || only_spaces(content@),
        content@.len() + 1 < usize::MAX,
    ensures
        r == wrapped_height(content@, width as nat),
{
    let cs = chars_of(content);
    let mut lines: usize = 1;
    let mut used: usize = 0;
    let mut word: usize = 0;
    let mut k: usize = 0;
    while k < cs.len()
        invariant
            cs@ == content@,
            content@.len() + 1 < usize::MAX,
            width > 0 || only_spaces(content@),
            k <= cs@.len(),
            (lines as nat, used as nat, word as nat) == wrap_scan(content@.take(k as int), width as nat),
        decreases cs.len() - k,
    {
        let ghost pre = content@.take(k as int);
        proof {
            assert(content@.take(k + 1).drop_last() =~= pre);
            assert(width > 0 || only_spaces(pre)) by {
                if width == 0 {
                    assert forall|i: int| 0 <= i < pre.len() implies pre[i] == ' ' by {
                        assert(pre[i] == content@[i]);
                    }
                }
            }
            lemma_wrap_scan_bounds(pre, width as nat);
            assert(k < content@.len());
        }
        if cs[k] == ' ' {
            proof {
                if width == 0 {
                    lemma_spaces_scan_word(pre, width as nat);
                }
            }
            let p = place(lines, used, word, width);
            lines = p.0;
            used = p.1;
            word = 0;
        } else {
            proof {
                if width == 0 {
                    assert(content@[k as int] == ' ');
                }
            }
            word = word + 1;
        }
        k = k + 1;
    }
    proof {
        assert(content@.take(k as int) =~= content@);
        lemma_wrap_scan_bounds(content@, width as nat);
        if width == 0 {
            lemma_spaces_scan_word(content@, width as nat);
        }
    }
    let p = place(lines, used, word, width);
    p.0
}

/// The five rows of the block glyph of a digit or a colon in the big
/// timer readout; other characters are blank.
pub open spec fn glyph(c: char) -> Seq<Seq<char>> {
    if c == '0' {
        seq!["███"@, "█ █"@, "█ █"@, "█ █"@, "███"@]
    } else if c == '1' {
        seq!["  █"@, "  █"@, "  █"@, "  █"@, "  █"@]
    } else if c == '2' {
        seq!["███"@, "  █"@, "███"@, "█  "@, "███"@]
    } else if c == '3' {
        seq!["███"@, "  █"@, "███"@, "  █"@, "███"@]
    } else if c == '4' {
        seq!["█ █"@, "█ █"@, "███"@, "  █"@, "  █"@]
    } else if c == '5' {
        seq!["███"@, "█  "@, "███"@, "  █"@, "███"@]
    } else if c == '6' {
        seq!["███"@, "█  "@, "███"@, "█ █"@, "███"@]
    } else if c == '7' {
        seq!["███"@, "  █"@, "  █"@, "  █"@, "  █"@]
    } else if c == '8' {
        seq!["███"@, "█ █"@, "███"@, "█ █"@, "███"@]
    } else if c == '9' {
        seq!["███"@, "█ █"@, "███"@, "  █"@, "███"@]
    } else if c == ':' {
        seq![" "@, "█"@, " "@, "█"@, " "@]
    } else {
        seq!["   "@, "   "@, "   "@, "   "@, "   "@]
    }
}

/// Row `row` of the big readout of `cs`: the glyph rows of the characters,
/// one space apart.
pub open spec fn digit_row(cs: Seq<char>, row: int) -> Seq<char>
    decreases cs.len(),
{
    if cs.len() == 0 {
        Seq::empty()
    } else if cs.len() == 1 {
        glyph(cs[0])[row]
    } else {
        digit_row(cs.drop_last(), row) + " "@ + glyph(cs.last())[row]
    }
}

/// The five-row block glyph of a digit or colon.
pub fn digit_glyph(c: char) -> (r: [&'static str; 5])
    ensures
        forall|i: int| 0 <= i < 5 ==> #[trigger] r@[i]@ == glyph(c)[i],
{
    let r = if c == '0' {
        ["███", "█ █", "█ █", "█ █", "███"]
    } else if c == '1' {
        ["  █", "  █", "  █", "  █", "  █"]
    } else if c == '2' {
        ["███", "  █", "███", "█  ", "███"]
    } else if c == '3' {
        ["███", "  █", "███", "  █", "███"]
    } else if c == '4' {
        ["█ █", "█ █", "███", "  █", "  █"]
    } else if c == '5' {
        ["███", "█  ", "███", "  █", "███"]
    } else if c == '6' {
        ["███", "█  ", "███", "█ █", "███"]
    } else if c == '7' {
        ["███", "  █", "  █", "  █", "  █"]
    } else if c == '8' {
        ["███", "█ █", "███", "█ █", "███"]
    } else if c == '9' {
        ["███", "█ █", "███", "  █", "███"]
    } else if c == ':' {
        [" ", "█", " ", "█", " "]
    } else {
        ["   ", "   ", "   ", "   ", "   "]
    };
    r
}

/// The five text rows of the big readout of an `HH:MM:SS` text.
pub fn big_digit_rows(readout: &str) -> (r: Vec<String>)
    ensures
        r@.len() == 5,
        forall|row: int| 0 <= row < 5 ==> #[trigger] r@[row]@ == digit_row(readout@, row),
{
    let cs = chars_of(readout);
    let mut rows: Vec<String> = Vec::new();
    let mut row: usize = 0;
    while row < 5
        invariant
            cs@ == readout@,
            row <= 5,
            rows@.len() == row,
            forall|k: int| 0 <= k < row ==> #[trigger] rows@[k]@ == digit_row(readout@, k),
        decreases 5 - row,
    {
        let mut text = String::new();
        let mut i: usize = 0;
        while i < cs.len()
            invariant
                cs@ == readout@,
                row < 5,
                i <= cs@.len(),
                text@ == digit_row(readout@.take(i as int), row as int),
            decreases cs.len() - i,
        {
            let g = digit_glyph(cs[i]);
            proof {
                assert(readout@.take(i + 1).drop_last() =~= readout@.take(i as int));
                assert(readout@.take(i + 1).last() == cs@[i as int]);
                if i == 0 {
                    assert(readout@.take(0) =~= Seq::<char>::empty());
                }
            }
            if i > 0 {
                push_char(&mut text, ' ');
            }
            push_str(&mut text, g[row]);
            proof {
                if i == 0 {
                    assert(text@ =~= digit_row(readout@.take(1), row as int));
                } else {
                    reveal_strlit(" ");
                    assert(text@ =~= digit_row(readout@.take(i + 1), row as int));
                }
            }
            i = i + 1;
        }
        assert(readout@.take(cs@.len() as int) =~= readout@);
        let ghost prev = rows@;
        rows.push(text);
        assert forall|k: int| 0 <= k < prev.len() implies #[trigger] rows@[k] == prev[k] by {}
        row = row + 1;
    }
    rows
}

/// The scroll offset of the note preview kept inside the content: at most
/// the content lines that do not fit the page, that count taken modulo
/// 2^16 as the preview does.
pub open spec fn clamped_scroll(scroll: u16, content_lines: nat, inner_height: nat) -> u16 {
    let over = if content_lines > inner_height { content_lines - inner_height } else { 0 };
    let limit = (over % 65536) as u16;
    if scroll < limit { scroll } else { limit }
}

/// Keeps the note preview's scroll offset inside its content.
pub fn clamp_note_scroll(scroll: u16, content_lines: usize, inner_height: usize) -> (r: u16)
    ensures
        r == clamped_scroll(scroll, content_lines as nat, inner_height as nat),
{
    let over = content_lines.saturating_sub(inner_height);
    let limit = #[verifier::truncate] (over as u16);
    assert(limit == over % 65536) by (bit_vector)
        requires
            limit == #[verifier::truncate] (over as u16),
    ;
    if scroll < limit {
        scroll
    } else {
        limit
    }
}

/// The screens that render the lists.
pub struct Screen;

/// What the main list area shows.
#[derive(Debug, Clone, Copy, PartialEq, Eq, Structural)]
pub enum ListSource {
    Projects,
    Notes,
    Tasks,
    Board,
}

/// What the main list area shows in a mode: modals and the help show the
/// list of the view they were opened from; the task list is a board in
/// board view.
pub open spec fn list_source(mode: ViewMode, prev: ViewMode, board: bool) -> ListSource {
    let from_projects = mode == ViewMode::ViewProjects || mode == ViewMode::AddProject
        || mode == ViewMode::RenameProject || mode == ViewMode::DeleteProject
        || mode == ViewMode::InfoMigration
        || ((mode == ViewMode::TimerTask || mode == ViewMode::SetCountdown) && prev == ViewMode::ViewProjects)
        || (mode == ViewMode::ViewHelp && prev == ViewMode::ViewProjects);
    let from_notes = mode == ViewMode::ViewNotes || mode == ViewMode::AddNote || mode == ViewMode::RenameNote
        || mode == ViewMode::DeleteNote || (mode == ViewMode::ViewHelp && (prev == ViewMode::ViewNotes
        || prev == ViewMode::ViewNote || prev == ViewMode::EditNote));
    if from_projects {
        ListSource::Projects
    } else if from_notes {
        ListSource::Notes
    } else if board {
        ListSource::Board
    } else {
        ListSource::Tasks
    }
}

/// The modes whose pick list hides the main list's selection.
pub open spec fn list_plain(mode: ViewMode) -> bool {
    mode == ViewMode::ChangeStatusTask || mode == ViewMode::ChangePriorityTask || mode == ViewMode::DeleteTask
        || mode == ViewMode::DeleteProject || mode == ViewMode::DeleteNote
}

/// The board lane names, in lane order.
pub open spec fn lane_name(lane: int) -> Seq<char> {
    if lane == 0 {
        "Up Next"@
    } else if lane == 1 {
        "On Going"@
    } else {
        "Done"@
    }
}

/// The key bindings the help lists for the view it was opened from.
pub open spec fn help_table(prev: ViewMode, board: bool) -> Seq<(&'static str, &'static str)> {
    if prev == ViewMode::ViewProjects {
        seq![
            ("↑ ↓  k j", "next/prev"),
            ("Enter  →  l", "go to tasks"),
            ("m", "notes"),
            ("n", "new"),
            ("r", "rename"),
            ("d", "delete"),
            ("c", "pomodoro timer"),
            ("h", "help"),
            ("q", "quit"),
        ]
    } else if prev == ViewMode::ViewNotes {
        seq![
            ("↑ ↓  k j", "next/prev"),
            ("Enter  →  l  v", "preview"),
            ("n", "new"),
            ("r", "rename"),
            ("d", "delete"),
            ("Esc  ←", "back"),
            ("h", "help"),
            ("q", "quit"),
        ]
    } else if prev == ViewMode::ViewNote {
        seq![
            ("↑ ↓  k j", "scroll"),
            ("PgUp  PgDn", "page up/down"),
            ("g  G", "top/bottom"),
            ("e", "edit (Esc saves)"),
            ("Esc  Enter", "back"),
            ("h", "help"),
            ("q", "quit"),
        ]
    } else if prev == ViewMode::ViewTasks && board {
        seq![
            ("↑ ↓  k j", "next/prev in lane"),
            ("← →", "switch lane"),
            ("b", "list view"),
            ("Esc", "back"),
            ("Enter", "change status"),
            ("p", "change priority"),
            ("n", "new"),
            ("r", "rename"),
            ("v", "details"),
            ("e", "note"),
            ("v → g", "details: edit estimate"),
            ("d", "delete"),
            ("s", "stopwatch timer"),
            ("c", "pomodoro timer"),
            ("h", "help"),
            ("q", "quit"),
        ]
    } else if prev == ViewMode::ViewTasks {
        seq![
            ("↑ ↓  k j", "next/prev"),
            ("b", "board view"),
            ("Esc  ←", "back"),
            ("Enter", "change status"),
            ("p", "change priority"),
            ("n", "new"),
            ("r", "rename"),
            ("v", "details"),
            ("e", "note"),
            ("v → g", "details: edit estimate"),
            ("d", "delete"),
            ("t", "toggle done"),
            ("s", "stopwatch timer"),
            ("c", "pomodoro timer"),
            ("h", "help"),
            ("q", "quit"),
        ]
    } else {
        Seq::empty()
    }
}

/// The text padded with spaces to at least 16 characters.
pub open spec fn key_cell(keys: Seq<char>) -> Seq<char> {
    if keys.len() < 16 {
        keys + Seq::new((16 - keys.len()) as nat, |i: int| ' ')
    } else {
        keys
    }
}

/// The readout, colors and texts of the timer screen.
#[derive(Debug)]
pub struct TimerPanel {
    /// The frame title.
    pub title: &'static str,
    /// The `HH:MM:SS` readout: the elapsed time, or the time left of a
    /// countdown.
    pub readout: String,
    pub readout_tint: Tint,
    /// A countdown's target, `HH:MM:SS`.
    pub target: Option<String>,
    /// The bound task's title (`None` for a countdown).
    pub task_title: Option<String>,
    /// The bound task's estimate in hours, the percentage spent counting the
    /// running time, and the percentage's color.
    pub estimate: Option<(u64, u64, Tint)>,
    pub status: &'static str,
    pub hint: &'static str,
}

/// The estimate line of a bound task: its estimate and the percentage
/// spent with `secs` more seconds, when the task is there and has an
/// estimate.
pub open spec fn timer_estimate(app: &App, b: TimerTaskBinding, secs: nat) -> Option<(u64, u64, Tint)> {
    if b.project_index < app.projects@.len() {
        let ts = app.projects@[b.project_index as int].tasks@;
        match first_titled(ts, b.task_title@, ts.len() as int) {
            Some(i) => if ts[i].estimated_hours == 0 {
                None
            } else {
                let pct = progress_percent((ts[i].time_spent_secs + secs) as nat, ts[i].estimated_hours as nat) as u64;
                Some((ts[i].estimated_hours, pct, if pct >= 100 { Tint::Red } else { Tint::DarkGray }))
            },
            None => None,
        }
    } else {
        None
    }
}

/// `p` is the timer screen of timer `t` after `elapsed` nanoseconds: a
/// countdown shows the time left and its target, a stopwatch the elapsed
/// time and its task; the readout is red once a countdown is done or in
/// its last ten seconds, green while running, yellow while paused.
pub open spec fn timer_panel_of(app: &App, t: TimerState, elapsed: u128, p: TimerPanel) -> bool {
    let countdown = t.kind == TimerKind::Countdown;
    let finished = countdown && elapsed >= target_nanos(t.target_secs);
    let left = match t.remaining_after(elapsed) {
        Some(n) => whole_secs(n),
        None => 0,
    };
    let low = t.running() && countdown && left <= 10;
    &&& p.title@ == (if countdown { " Pomodoro "@ } else { " Timer "@ })
    &&& p.readout@ == (if countdown { clock_text(left) } else { clock_text(whole_secs(elapsed)) })
    &&& p.readout_tint == (if finished || low { Tint::Red } else if t.running() { Tint::Green } else { Tint::Yellow })
    &&& (if countdown { p.target matches Some(s) && s@ == clock_text(t.target_secs as nat) } else { p.target is None })
    &&& match t.bound {
        Some(b) => (p.task_title matches Some(s) && s@ == b.task_title@) && p.estimate == timer_estimate(app, b, whole_secs(elapsed)),
        None => p.task_title is None && p.estimate is None,
    }
    &&& p.status@ == (if finished { "time's up!"@ } else if t.running() { "running"@ } else { "paused"@ })
    &&& p.hint@ == (if finished { "Press any key to close"@ } else { "Space pause/resume · Enter stop · Esc background"@ })
}

/// Whole seconds of `nanos`, saturating at `u64::MAX`.
fn secs_of(nanos: u128) -> (r: u64)
    ensures
        r as nat == whole_secs(nanos),
{
    let s = nanos / 1_000_000_000;
    if s > u64::MAX as u128 {
        u64::MAX
    } else {
        s as u64
    }
}

/// The first task with the given title.
pub fn find_task(ts: &Vec<Task>, title: &str) -> (r: Option<usize>)
    ensures
        match first_titled(ts@, title@, ts@.len() as int) {
            Some(i) => r == Some(i as usize),
            None => r is None,
        },
        r matches Some(i) ==> i < ts@.len() && ts@[i as int].title@ == title@,
{
    let mut k: usize = 0;
    while k < ts.len()
        invariant
            k <= ts@.len(),
            first_titled(ts@, title@, k as int) is None,
        decreases ts.len() - k,
    {
        if crate::text::same_text(ts[k].title.as_str(), title) {
            proof {
                crate::task::lemma_first_titled_stable(ts@, title@, k + 1, ts@.len() as int);
            }
            return Some(k);
        }
        k = k + 1;
    }
    None
}

impl Screen {
    /// What the main list area shows.
    pub fn list_source(app: &App) -> (r: ListSource)
        ensures
            r == list_source(app.view_mode, app.previous_view_mode, app.board_view),
    {
        let mode = app.view_mode;
        let prev = app.previous_view_mode;
        let from_projects = match mode {
            ViewMode::ViewProjects | ViewMode::AddProject | ViewMode::RenameProject | ViewMode::DeleteProject
            | ViewMode::InfoMigration => true,
            ViewMode::TimerTask | ViewMode::SetCountdown | ViewMode::ViewHelp => prev == ViewMode::ViewProjects,
            _ => false,
        };
        let from_notes = match mode {
            ViewMode::ViewNotes | ViewMode::AddNote | ViewMode::RenameNote | ViewMode::DeleteNote => true,
            ViewMode::ViewHelp => prev == ViewMode::ViewNotes || prev == ViewMode::ViewNote || prev == ViewMode::EditNote,
            _ => false,
        };
        if from_projects {
            ListSource::Projects
        } else if from_notes {
            ListSource::Notes
        } else if app.board_view {
            ListSource::Board
        } else {
            ListSource::Tasks
        }
    }

    /// Whether the main list shows its selection (the pick-list modals
    /// show the list without one).
    pub fn list_is_stateful(mode: ViewMode) -> (r: bool)
        ensures
            r == !list_plain(mode),
    {
        match mode {
            ViewMode::ChangeStatusTask | ViewMode::ChangePriorityTask | ViewMode::DeleteTask
            | ViewMode::DeleteProject | ViewMode::DeleteNote => false,
            _ => true,
        }
    }

    /// The title of the main list's frame: none for projects, " Notes "
    /// for notes, the selected project's spaced title for its tasks.
    pub fn list_title(app: &App) -> (r: Option<String>)
        requires
            list_source(app.view_mode, app.previous_view_mode, app.board_view) == ListSource::Tasks
                || list_source(app.view_mode, app.previous_view_mode, app.board_view) == ListSource::Board
                ==> app.project_ok(),
        ensures
            match list_source(app.view_mode, app.previous_view_mode, app.board_view) {
                ListSource::Projects => r is None,
                ListSource::Notes => r matches Some(s) && s@ == " Notes "@,
                _ => r matches Some(s) && s@ == seq![' '] + app.projects@[app.pidx()].title@ + seq![' '],
            },
    {
        match Screen::list_source(app) {
            ListSource::Projects => None,
            ListSource::Notes => Some(string_of(" Notes ")),
            _ => {
                let p = app.selected_project_index.selected().unwrap();
                Some(Util::get_spaced_title(app.projects[p].title.as_str()))
            },
        }
    }

    /// The title of a board lane: its name and its number of tasks.
    pub fn lane_title(lane: usize, count: usize) -> (r: String)
        requires
            lane < 3,
        ensures
            r@ == " "@ + lane_name(lane as int) + " ("@ + decimal(count as nat) + ") "@,
    {
        let mut s = string_of(" ");
        if lane == 0 {
            push_str(&mut s, "Up Next");
        } else if lane == 1 {
            push_str(&mut s, "On Going");
        } else {
            push_str(&mut s, "Done");
        }
        push_str(&mut s, " (");
        push_decimal(&mut s, count as u64);
        push_str(&mut s, ") ");
        s
    }

    /// The key bindings the help lists for the view it was opened from.
    pub fn help_bindings(prev: ViewMode, board: bool) -> (r: Vec<(&'static str, &'static str)>)
        ensures
            r@ == help_table(prev, board),
    {
        if prev == ViewMode::ViewProjects {
            vec![
                ("↑ ↓  k j", "next/prev"),
                ("Enter  →  l", "go to tasks"),
                ("m", "notes"),
                ("n", "new"),
                ("r", "rename"),
                ("d", "delete"),
                ("c", "pomodoro timer"),
                ("h", "help"),
                ("q", "quit"),
            ]
        } else if prev == ViewMode::ViewNotes {
            vec![
                ("↑ ↓  k j", "next/prev"),
                ("Enter  →  l  v", "preview"),
                ("n", "new"),
                ("r", "rename"),
                ("d", "delete"),
                ("Esc  ←", "back"),
                ("h", "help"),
                ("q", "quit"),
            ]
        } else if prev == ViewMode::ViewNote {
            vec![
                ("↑ ↓  k j", "scroll"),
                ("PgUp  PgDn", "page up/down"),
                ("g  G", "top/bottom"),
                ("e", "edit (Esc saves)"),
                ("Esc  Enter", "back"),
                ("h", "help"),
                ("q", "quit"),
            ]
        } else if prev == ViewMode::ViewTasks && board {
            vec![
                ("↑ ↓  k j", "next/prev in lane"),
                ("← →", "switch lane"),
                ("b", "list view"),
                ("Esc", "back"),
                ("Enter", "change status"),
                ("p", "change priority"),
                ("n", "new"),
                ("r", "rename"),
                ("v", "details"),
                ("e", "note"),
                ("v → g", "details: edit estimate"),
                ("d", "delete"),
                ("s", "stopwatch timer"),
                ("c", "pomodoro timer"),
                ("h", "help"),
                ("q", "quit"),
            ]
        } else if prev == ViewMode::ViewTasks {
            vec![
                ("↑ ↓  k j", "next/prev"),
                ("b", "board view"),
                ("Esc  ←", "back"),
                ("Enter", "change status"),
                ("p", "change priority"),
                ("n", "new"),
                ("r", "rename"),
                ("v", "details"),
                ("e", "note"),
                ("v → g", "details: edit estimate"),
                ("d", "delete"),
                ("t", "toggle done"),
                ("s", "stopwatch timer"),
                ("c", "pomodoro timer"),
                ("h", "help"),
                ("q", "quit"),
            ]
        } else {
            Vec::new()
        }
    }

    /// The keys column of a help row: the keys padded to 16 characters.
    pub fn help_key_cell(keys: &str) -> (r: String)
        ensures
            r@ == key_cell(keys@),
    {
        let cs = chars_of(keys);
        let mut s = string_of(keys);
        let mut n: usize = cs.len();
        while n < 16
            invariant
                cs@ == keys@,
                cs@.len() <= n <= 16 || (n == cs@.len() && n >= 16),
                s@ == keys@ + Seq::new((n - cs@.len()) as nat, |i: int| ' '),
            decreases 16 - n,
        {
            push_char(&mut s, ' ');
            n = n + 1;
            assert(s@ =~= keys@ + Seq::new((n - cs@.len()) as nat, |i: int| ' '));
        }
        assert(s@ =~= key_cell(keys@));
        s
    }

    /// The timer screen after `elapsed` nanoseconds.
    pub fn timer_panel_given(app: &App, t: &TimerState, elapsed: u128) -> (p: TimerPanel)
        ensures
            timer_panel_of(app, *t, elapsed, p),
    {
        let countdown = t.kind == TimerKind::Countdown;
        let left = match t.remaining_given(elapsed) {
            Some(n) => secs_of(n),
            None => 0,
        };
        let finished = countdown && left == 0 && t.remaining_given(elapsed) == Some(0u128);
        proof {
            if countdown {
                assert(finished == (elapsed >= target_nanos(t.target_secs))) by {
                    if elapsed < target_nanos(t.target_secs) {
                        assert(t.remaining_after(elapsed)->0 > 0);
                    }
                }
            }
        }
        let running = t.is_running();
        let low = running && countdown && left <= 10;
        let readout = if countdown {
            Util::format_secs(left)
        } else {
            Util::format_secs(secs_of(elapsed))
        };
        let readout_tint = if finished || low {
            Tint::Red
        } else if running {
            Tint::Green
        } else {
            Tint::Yellow
        };
        let target = if countdown {
            Some(Util::format_secs(t.target_secs))
        } else {
            None
        };
        let (task_title, estimate) = match &t.bound {
            Some(b) => (Some(string_of(b.task_title.as_str())), Screen::timer_estimate(app, b, secs_of(elapsed))),
            None => (None, None),
        };
        TimerPanel {
            title: if countdown {
                " Pomodoro "
            } else {
                " Timer "
            },
            readout,
            readout_tint,
            target,
            task_title,
            estimate,
            status: if finished {
                "time's up!"
            } else if running {
                "running"
            } else {
                "paused"
            },
            hint: if finished {
                "Press any key to close"
            } else {
                "Space pause/resume · Enter stop · Esc background"
            },
        }
    }

    /// The estimate line of the timer screen.
    fn timer_estimate(app: &App, b: &TimerTaskBinding, secs: u64) -> (r: Option<(u64, u64, Tint)>)
        ensures
            r == timer_estimate(app, *b, secs as nat),
    {
        if b.project_index >= app.projects.len() {
            return None;
        }
        let ts = &app.projects[b.project_index].tasks;
        let n = ts.len();
        assert(ts@ == app.projects@[b.project_index as int].tasks@);
        let found = find_task(ts, b.task_title.as_str());
        assert(found == match first_titled(ts@, b.task_title@, ts@.len() as int) {
            Some(i) => Some(i as usize),
            None => None,
        });
        match found {
            Some(i) => {
                let t = &ts[i];
                proof {
                    let spec_i = first_titled(ts@, b.task_title@, ts@.len() as int)->0;
                    crate::task::lemma_first_titled_range(ts@, b.task_title@, ts@.len() as int);
                    assert(spec_i == i as int);
                    assert(*t == ts@[spec_i]);
                }
                match t.estimate_progress(secs) {
                    Some(pct) => {
                        let tint = if pct >= 100 {
                            Tint::Red
                        } else {
                            Tint::DarkGray
                        };
                        Some((t.estimated_hours, pct, tint))
                    },
                    None => None,
                }
            },
            None => None,
        }
    }

    /// The timer screen now: `None` without a timer. The elapsed time is
    /// read once from the clock (exactly the accumulated time while
    /// paused).
    pub fn timer_panel(app: &App) -> (r: Option<TimerPanel>)
        ensures
            match app.timer {
                Some(t) => r is Some && exists|e: u128| #![trigger timer_panel_of(app, t, e, r->0)]
                    e >= t.accumulated_nanos && (!t.running() ==> e == t.accumulated_nanos)
                    && timer_panel_of(app, t, e, r->0),
                None => r is None,
            },
    {
        match &app.timer {
            Some(t) => {
                let e = t.elapsed();
                let p = Screen::timer_panel_given(app, t, e);
                assert(timer_panel_of(app, *t, e, p));
                let r = Some(p);
                assert(app.timer->0 == *t);
                assert(r->0 == p);
                assert(timer_panel_of(app, app.timer->0, e, r->0));
                assert(exists|e2: u128| #![trigger timer_panel_of(app, app.timer->0, e2, r->0)]
                    e2 >= t.accumulated_nanos && (!t.running() ==> e2 == t.accumulated_nanos)
                    && timer_panel_of(app, app.timer->0, e2, r->0));
                r
            },
            None => None,
        }
    }
}

/// The timer readout at the right of the hint line.
#[derive(Debug)]
pub struct HintReadout {
    pub text: String,
    pub tint: Tint,
}

/// The label of the hint readout: the bound task's title, cut to 20
/// characters with an ellipsis, or `pomodoro` for a countdown.
pub open spec fn hint_label(t: TimerState) -> Seq<char> {
    match t.bound {
        Some(b) => if b.task_title@.len() > 20 { b.task_title@.take(20) + "…"@ } else { b.task_title@ },
        None => "pomodoro"@,
    }
}

/// The seconds the hint shows: elapsed for a stopwatch, left for a
/// countdown.
pub open spec fn hint_secs(t: TimerState, elapsed: u128) -> nat {
    match t.remaining_after(elapsed) {
        Some(left) => whole_secs(left),
        None => whole_secs(elapsed),
    }
}

/// `r` is the hint readout of timer `t` after `elapsed` nanoseconds: a
/// play or pause mark for a stopwatch, a down arrow for a countdown, the
/// `HH:MM:SS` time and the label; yellow while paused, red in a countdown's
/// last ten seconds, green otherwise.
pub open spec fn hint_of(t: TimerState, elapsed: u128, r: HintReadout) -> bool {
    let countdown = t.kind == TimerKind::Countdown;
    let icon = if countdown { "▼"@ } else if t.running() { "▶"@ } else { "❚❚"@ };
    let secs = hint_secs(t, elapsed);
    &&& r.text@ == icon + " "@ + clock_text(secs) + " "@ + hint_label(t)
    &&& r.tint == (if !t.running() { Tint::Yellow } else if countdown && secs <= 10 { Tint::Red } else { Tint::Green })
}

/// The texts of the task details beside the task's own fields.
#[derive(Debug)]
pub struct TaskDetails {
    /// `None`, or the priority and its marks.
    pub priority: String,
    /// When it was created, if known.
    pub created: Option<String>,
    /// When it was completed, if known.
    pub completed: Option<String>,
    /// The time between creation and completion, when the creation is known.
    pub consumed: Option<String>,
    /// The timer time spent, in hours and minutes and as `HH:MM:SS`.
    pub time_spent: String,
}

/// The priority text of the task details.
pub open spec fn priority_text(p: u8) -> Seq<char> {
    if p == crate::task::TASK_PRIORITY_NONE {
        "None"@
    } else {
        decimal(p as nat) + " ("@ + crate::util::indicator_text(p) + ")"@
    }
}

/// The time spent text of the task details: whole hours, the minutes
/// beyond them, and the clock text.
pub open spec fn time_spent_text(secs: u64) -> Seq<char> {
    decimal(secs as nat / 3600) + "h "@ + decimal((secs as nat % 3600) / 60) + "m ("@ + clock_text(secs as nat) + ")"@
}

impl Screen {
    /// The hint readout of a timer after `elapsed` nanoseconds.
    pub fn hint_given(t: &TimerState, elapsed: u128) -> (r: HintReadout)
        ensures
            hint_of(*t, elapsed, r),
    {
        let countdown = t.kind == TimerKind::Countdown;
        let secs = match t.remaining_given(elapsed) {
            Some(left) => secs_of(left),
            None => secs_of(elapsed),
        };
        let mut text = if countdown {
            string_of("▼")
        } else if t.is_running() {
            string_of("▶")
        } else {
            string_of("❚❚")
        };
        push_str(&mut text, " ");
        let clock = Util::format_secs(secs);
        push_str(&mut text, clock.as_str());
        push_str(&mut text, " ");
        match &t.bound {
            Some(b) => {
                let cs = chars_of(b.task_title.as_str());
                if cs.len() > 20 {
                    let head = crate::text::string_from_chars(&cs, 0, 20);
                    push_str(&mut text, head.as_str());
                    push_str(&mut text, "…");
                } else {
                    push_str(&mut text, b.task_title.as_str());
                }
            },
            None => push_str(&mut text, "pomodoro"),
        }
        proof {
            let icon = if countdown { "▼"@ } else if t.running() { "▶"@ } else { "❚❚"@ };
            assert(text@ =~= icon + " "@ + clock_text(secs as nat) + " "@ + hint_label(*t));
        }
        let tint = if !t.is_running() {
            Tint::Yellow
        } else if countdown && secs <= 10 {
            Tint::Red
        } else {
            Tint::Green
        };
        HintReadout { text, tint }
    }

    /// The hint readout now: `None` without a timer; the clock is read once
    /// (a paused timer shows exactly its accumulated time).
    pub fn hint(app: &App) -> (r: Option<HintReadout>)
        ensures
            match app.timer {
                Some(t) => r is Some && exists|e: u128| #![trigger hint_of(t, e, r->0)]
                    e >= t.accumulated_nanos && (!t.running() ==> e == t.accumulated_nanos)
                    && hint_of(t, e, r->0),
                None => r is None,
            },
    {
        match &app.timer {
            Some(t) => {
                let e = t.elapsed();
                let h = Screen::hint_given(t, e);
                let r = Some(h);
                assert(app.timer->0 == *t);
                assert(r->0 == h);
                assert(hint_of(app.timer->0, e, r->0));
                r
            },
            None => None,
        }
    }

    /// The texts of the task details.
    pub fn task_details(task: &Task) -> (r: TaskDetails)
        ensures
            r.priority@ == priority_text(task.priority),
            r.time_spent@ == time_spent_text(task.time_spent_secs),
            task.created_at is None ==> r.created is None && r.consumed is None,
            task.created_at is Some ==> (r.consumed matches Some(c) && c@
                == crate::util::duration_text(task.created_at, task.completed_at)),
            task.created_at is Some ==> (r.created matches Some(c) && call_ensures(
                Util::format_timestamp,
                (task.created_at,),
                c,
            )),
            task.completed_at is None ==> r.completed is None,
            task.completed_at is Some ==> (r.completed matches Some(c) && call_ensures(
                Util::format_timestamp,
                (task.completed_at,),
                c,
            )),
    {
        let priority = if task.priority == crate::task::TASK_PRIORITY_NONE {
            string_of("None")
        } else {
            let mut s = String::new();
            push_decimal(&mut s, task.priority as u64);
            push_str(&mut s, " (");
            let mark = Util::get_priority_indicator(task.priority);
            push_str(&mut s, mark.as_str());
            push_str(&mut s, ")");
            s
        };
        let secs = task.time_spent_secs;
        let mut spent = String::new();
        push_decimal(&mut spent, secs / 3600);
        push_str(&mut spent, "h ");
        push_decimal(&mut spent, (secs % 3600) / 60);
        push_str(&mut spent, "m (");
        let clock = Util::format_secs(secs);
        push_str(&mut spent, clock.as_str());
        push_str(&mut spent, ")");
        let created = if task.created_at.is_some() {
            Some(Util::format_timestamp(task.created_at))
        } else {
            None
        };
        let completed = if task.completed_at.is_some() {
            Some(Util::format_timestamp(task.completed_at))
        } else {
            None
        };
        let consumed = if task.created_at.is_some() {
            Some(Util::format_duration(task.created_at, task.completed_at))
        } else {
            None
        };
        TaskDetails { priority, created, completed, consumed, time_spent: spent }
    }
}

/// The lines the wrapped logical lines take, in total.
pub open spec fn wrapped_total(ls: Seq<Seq<char>>, width: nat) -> nat
    decreases ls.len(),
{
    if ls.len() == 0 {
        0
    } else {
        wrapped_total(ls.drop_last(), width) + wrapped_height(ls.last(), width)
    }
}

/// The text of each rendered line: its pieces' texts one after the other.
pub open spec fn line_text(ps: Seq<crate::style::Piece>) -> Seq<char>
    decreases ps.len(),
{
    if ps.len() == 0 {
        Seq::empty()
    } else {
        line_text(ps.drop_last()) + ps.last().text@
    }
}

impl Screen {
    /// The text of a rendered line.
    pub fn line_content(line: &Vec<crate::style::Piece>) -> (r: String)
        ensures
            r@ == line_text(line@),
    {
        let mut s = String::new();
        let mut i: usize = 0;
        while i < line.len()
            invariant
                i <= line@.len(),
                s@ == line_text(line@.take(i as int)),
            decreases line.len() - i,
        {
            assert(line@.take(i + 1).drop_last() =~= line@.take(i as int));
            push_str(&mut s, line[i].text.as_str());
            i = i + 1;
        }
        assert(line@.take(line@.len() as int) =~= line@);
        s
    }

    /// The number of lines the logical lines take when word-wrapped to
    /// `width` columns (at least one); `None` when the count does not fit
    /// in a `usize`.
    pub fn wrapped_line_count(lines: &Vec<String>, width: u16) -> (r: Option<usize>)
        requires
            forall|i: int| 0 <= i < lines@.len() ==> #[trigger] lines@[i]@.len() + 1 < usize::MAX,
        ensures
            ({
                let w = if width == 0 { 1nat } else { width as nat };
                match r {
                    Some(n) => n == wrapped_total(crate::text::views(lines@), w),
                    None => wrapped_total(crate::text::views(lines@), w) > usize::MAX,
                }
            }),
    {
        let w: usize = if width == 0 {
            1
        } else {
            width as usize
        };
        let ghost ls = crate::text::views(lines@);
        let mut total: usize = 0;
        let mut i: usize = 0;
        while i < lines.len()
            invariant
                i <= lines@.len(),
                ls == crate::text::views(lines@),
                w >= 1,
                w as nat == (if width == 0 { 1nat } else { width as nat }),
                forall|k: int| 0 <= k < lines@.len() ==> #[trigger] lines@[k]@.len() + 1 < usize::MAX,
                total == wrapped_total(ls.take(i as int), w as nat),
            decreases lines.len() - i,
        {
            assert(ls.take(i + 1).drop_last() =~= ls.take(i as int));
            assert(ls[i as int] == lines@[i as int]@);
            let h = word_wrapped_height(lines[i].as_str(), w);
            assert(ls.take(i + 1).last() == lines@[i as int]@);
            assert(wrapped_total(ls.take(i + 1), w as nat) == total + h);
            if total > usize::MAX - h {
                proof {
                    lemma_wrapped_total_prefix(ls, w as nat, i + 1, ls.len() as int);
                    assert(ls.take(ls.len() as int) =~= ls);
                }
                return None;
            }
            total = total + h;
            i = i + 1;
        }
        assert(ls.take(ls.len() as int) =~= ls);
        Some(total)
    }
}

proof fn lemma_wrapped_total_prefix(ls: Seq<Seq<char>>, w: nat, i: int, j: int)
    requires
        0 <= i <= j <= ls.len(),
    ensures
        wrapped_total(ls.take(i), w) <= wrapped_total(ls.take(j), w),
    decreases j - i,
{
    if i < j {
        lemma_wrapped_total_prefix(ls, w, i, j - 1);
        assert(ls.take(j).drop_last() =~= ls.take(j - 1));
    }
}

} // verus!
