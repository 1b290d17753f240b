//! Placement of the modal windows on the screen.
use vstd::prelude::*;

use ratatui::layout::{Constraint, Layout, Rect};

use crate::style::{Look, Piece, Tint};
use crate::text::string_of;

verus! {

/// A rectangle of the terminal, in cells.
#[derive(Debug, Clone, Copy, PartialEq, Eq, Structural)]
pub struct Area {
    pub x: u16,
    pub y: u16,
    pub width: u16,
    pub height: u16,
}

/// The modal windows.
pub struct Ui;

/// Row indexes of the delete confirmation modal. "Cancel" is the default
/// selection so a reflexive Enter never deletes anything.
pub const DELETE_CONFIRM_INDEX: usize = 0;

pub const DELETE_CANCEL_INDEX: usize = 1;

/// The middle row of ratatui's vertical split of `area` into a row of
/// `margin` cells, one of `content` cells and one of at least `margin`.
pub uninterp spec fn middle_row(area: Area, margin: u16, content: u16) -> Area;

/// `Layout::vertical([Length(margin), Length(content), Min(margin)])
/// .split(area)[1]` of ratatui: a function of its arguments (the layout
/// solver is deterministic; its cache only keeps earlier results). The
/// source's `expect` on a solver error is not characterized here.
#[verifier::external_body]
fn split_middle_row(area: Area, margin: u16, content: u16) -> (r: Area)
    ensures
        r == middle_row(area, margin, content),
{
    let rect = Rect { x: area.x, y: area.y, width: area.width, height: area.height };
    let rows = Layout::vertical([Constraint::Length(margin), Constraint::Length(content), Constraint::Min(margin)])
        .split(rect);
    Area { x: rows[1].x, y: rows[1].y, width: rows[1].width, height: rows[1].height }
}

/// `Layout::horizontal([Percentage(side), Min(min), Percentage(side)])
/// .split(area)[1]` of ratatui. Every solution keeps the columns inside the
/// area (the solver's required constraints bound every edge by the area's
/// left and right edges, and the rows are the area's). Where the column
/// starts and how wide it is are not stated: when `min` cells and the two
/// percentages do not fit, the solver's optimum ties, and which of the tied
/// solutions it returns depends on the iteration order of its hash maps.
#[verifier::external_body]
fn split_middle_column(area: Area, side: u16, min: u16) -> (r: Area)
    ensures
        r.y == area.y,
        r.height == area.height,
        area.x <= r.x,
        r.x + r.width <= area.x + area.width,
{
    let rect = Rect { x: area.x, y: area.y, width: area.width, height: area.height };
    let cols = Layout::horizontal([Constraint::Percentage(side), Constraint::Min(min), Constraint::Percentage(side)])
        .split(rect);
    Area { x: cols[1].x, y: cols[1].y, width: cols[1].width, height: cols[1].height }
}

/// The height of a modal `percent_y` rows high in an area `height` rows
/// high: at most two rows less than the area.
pub open spec fn modal_height(percent_y: u16, height: u16) -> u16 {
    let room = if height >= 2 { (height - 2) as u16 } else { 0u16 };
    if percent_y < room { percent_y } else { room }
}

/// The rows above a modal: half of what it leaves free.
pub open spec fn modal_margin(percent_y: u16, height: u16) -> u16 {
    ((height - modal_height(percent_y, height)) / 2) as u16
}

impl Ui {
    /// The rows of the delete confirmation: "Confirm" in red, "Cancel" in
    /// gray.
    pub fn load_delete_confirm_items() -> (r: Vec<Piece>)
        ensures
            r@.len() == 2,
            r@[DELETE_CONFIRM_INDEX as int].text@ == "Confirm"@,
            r@[DELETE_CONFIRM_INDEX as int].look == (Look { fg: Some(Tint::Red), ..Look::spec_plain() }),
            r@[DELETE_CANCEL_INDEX as int].text@ == "Cancel"@,
            r@[DELETE_CANCEL_INDEX as int].look == (Look { fg: Some(Tint::Gray), ..Look::spec_plain() }),
    {
        let mut r: Vec<Piece> = Vec::new();
        r.push(Piece { text: string_of("Confirm"), look: Look::colored(Tint::Red) });
        r.push(Piece { text: string_of("Cancel"), look: Look::colored(Tint::Gray) });
        r
    }

    /// The area of a modal `percent_x` percent wide and `percent_y` rows
    /// high, centered in `r`: the middle row of the vertical split, narrowed
    /// to its middle column.
    pub fn create_rect_area(percent_x: u16, percent_y: u16, r: Area) -> (a: Area)
        requires
            percent_x <= 100,
        ensures
            ({
                let row = middle_row(r, modal_margin(percent_y, r.height), modal_height(percent_y, r.height));
                &&& a.y == row.y
                &&& a.height == row.height
                &&& row.x <= a.x
                &&& a.x + a.width <= row.x + row.width
            }),
    {
        let room = r.height.saturating_sub(2);
        let content_height = if percent_y < room {
            percent_y
        } else {
            room
        };
        let vertical_margin = (r.height - content_height) / 2;
        let row = split_middle_row(r, vertical_margin, content_height);
        split_middle_column(row, (100 - percent_x) / 2, percent_x)
    }
}

} // verus!
