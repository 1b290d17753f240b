//! List selection with wrap-around navigation, and the kanban board focus.
use vstd::prelude::*;

verus! {

/// Single-list selection: the selected row, if any.
///
/// Every list of the application shares this one implementation of
/// wrap-around navigation, clamping after mutations and delete handling.
/// The scroll offset of a rendered list is render state and lives with the
/// widget, not here.
#[derive(Debug, Clone, Copy, PartialEq, Eq, Structural)]
pub struct Selection {
    pub row: Option<usize>,
}

impl Default for Selection {
    fn default() -> (r: Self)
        ensures
            r.row is None,
    {
        Selection { row: None }
    }
}

/// The row a wrap-around step down from `cur` lands on in a list of `len`
/// rows (an out-of-range or missing selection counts as the last/first row).
pub open spec fn next_row(cur: Option<usize>, len: nat) -> nat {
    let c = match cur {
        Some(i) => if i < len { i as nat } else { (len - 1) as nat },
        None => 0,
    };
    (c + 1) % len
}

/// The row a wrap-around step up from `cur` lands on in a list of `len` rows.
pub open spec fn prev_row(cur: Option<usize>, len: nat) -> nat {
    let c = match cur {
        Some(i) => if i < len { i as nat } else { (len - 1) as nat },
        None => 0,
    };
    if c == 0 {
        (len - 1) as nat
    } else {
        (c - 1) as nat
    }
}

impl Selection {
    pub fn with_selected(index: Option<usize>) -> (r: Self)
        ensures
            r.row == index,
    {
        Selection { row: index }
    }

    /// Default selection: first row (also used for empty lists).
    pub fn first() -> (r: Self)
        ensures
            r.row == Some(0usize),
    {
        Self::with_selected(Some(0))
    }

    pub fn selected(&self) -> (r: Option<usize>)
        ensures
            r == self.row,
    {
        self.row
    }

    pub fn select(&mut self, index: Option<usize>)
        ensures
            final(self).row == index,
    {
        self.row = index;
    }

    /// Steps the selection one row up, stopping at the first row; with
    /// nothing selected the selection goes to the end (`usize::MAX`, which a
    /// rendered list clamps to its last row).
    pub fn select_previous(&mut self)
        ensures
            final(self).row == Some(match old(self).row {
                Some(i) => if i == 0 { 0usize } else { (i - 1) as usize },
                None => usize::MAX,
            }),
    {
        let previous = match self.row {
            Some(i) => if i == 0 {
                0
            } else {
                i - 1
            },
            None => usize::MAX,
        };
        self.select(Some(previous));
    }

    pub fn select_first(&mut self)
        ensures
            final(self).row == Some(0usize),
    {
        self.select(Some(0));
    }

    /// Selects the last of `len` rows (row 0 for an empty list).
    pub fn select_last(&mut self, len: usize)
        ensures
            final(self).row == Some(if len == 0 { 0 } else { (len - 1) as usize }),
    {
        if len == 0 {
            self.select(Some(0));
        } else {
            self.select(Some(len - 1));
        }
    }

    /// Clamps the selection into `0..len` (empty lists keep `Some(0)`).
    pub fn clamp(&mut self, len: usize)
        ensures
            final(self).row == Some(
                if len == 0 {
                    0usize
                } else {
                    match old(self).row {
                        Some(i) => if i < len { i } else { (len - 1) as usize },
                        None => 0usize,
                    }
                },
            ),
    {
        if len == 0 {
            self.select(Some(0));
            return;
        }
        let cur = match self.selected() {
            Some(i) => i,
            None => 0,
        };
        let clamped = if cur < len - 1 { cur } else { len - 1 };
        self.select(Some(clamped));
    }

    /// Wrap-around step down; an empty list keeps its selection.
    pub fn move_next(&mut self, len: usize)
        ensures
            len == 0 ==> final(self).row == old(self).row,
            len > 0 ==> final(self).row == Some(next_row(old(self).row, len as nat) as usize),
    {
        if len == 0 {
            return;
        }
        let c = match self.selected() {
            Some(i) => i,
            None => 0,
        };
        let cur = if c < len - 1 { c } else { len - 1 };
        self.select(Some((cur + 1) % len));
    }

    /// Wrap-around step up; an empty list keeps its selection.
    pub fn move_prev(&mut self, len: usize)
        ensures
            len == 0 ==> final(self).row == old(self).row,
            len > 0 ==> final(self).row == Some(prev_row(old(self).row, len as nat) as usize),
    {
        if len == 0 {
            return;
        }
        let c = match self.selected() {
            Some(i) => i,
            None => 0,
        };
        let cur = if c < len - 1 { c } else { len - 1 };
        self.select(Some(if cur == 0 { len - 1 } else { cur - 1 }));
    }

    /// Selection after deleting row `deleted` from a list that now has `len`
    /// rows: the predecessor, the new first row when the first row was
    /// deleted, or the new last row when the old last row was deleted.
    pub fn after_delete(&mut self, deleted: usize, len: usize)
        ensures
            final(self).row == Some(
                if len == 0 || deleted == 0 {
                    0usize
                } else if deleted - 1 < len {
                    (deleted - 1) as usize
                } else {
                    (len - 1) as usize
                },
            ),
    {
        if len == 0 {
            self.select(Some(0));
        } else if deleted == 0 {
            self.select(Some(0));
        } else {
            let d = deleted - 1;
            self.select(Some(if d < len - 1 { d } else { len - 1 }));
        }
    }
}

/// Kanban board focus: the focused lane plus one remembered row per lane.
#[derive(Debug, Clone)]
pub struct Board {
    pub lane: usize,
    pub rows: [Selection; 5],
}

impl Default for Board {
    fn default() -> (r: Self)
        ensures
            r.lane == 0,
            forall|i: int| 0 <= i < 5 ==> r.rows[i].row == Some(0usize),
    {
        Self::new()
    }
}

impl Board {
    pub fn new() -> (r: Self)
        ensures
            r.lane == 0,
            forall|i: int| 0 <= i < 5 ==> r.rows[i].row == Some(0usize),
    {
        Self {
            lane: 0,
            rows: [
                Selection::first(),
                Selection::first(),
                Selection::first(),
                Selection::first(),
                Selection::first(),
            ],
        }
    }

    pub fn row(&self, lane: usize) -> (r: Option<usize>)
        requires
            lane < 5,
        ensures
            r == self.rows[lane as int].row,
    {
        self.rows[lane].selected()
    }

    pub fn select_row(&mut self, lane: usize, row: usize)
        requires
            lane < 5,
        ensures
            final(self).lane == old(self).lane,
            final(self).rows@ == old(self).rows@.update(lane as int, Selection { row: Some(row) }),
    {
        self.rows[lane] = Selection::with_selected(Some(row));
    }

    pub fn clamp_row(&mut self, lane: usize, len: usize)
        requires
            lane < 5,
        ensures
            final(self).lane == old(self).lane,
            final(self).rows@.len() == 5,
            forall|i: int| 0 <= i < 5 && i != lane ==> final(self).rows[i] == old(self).rows[i],
            final(self).rows[lane as int].row == Some(
                if len == 0 {
                    0usize
                } else {
                    match old(self).rows[lane as int].row {
                        Some(i) => if i < len { i } else { (len - 1) as usize },
                        None => 0usize,
                    }
                },
            ),
    {
        let mut s = self.rows[lane];
        s.clamp(len);
        self.rows[lane] = s;
    }
}

} // verus!
