//! Terminal colors and text looks, as plain values the views turn into
//! widget styles.
use vstd::prelude::*;

verus! {

/// The foreground colors the application uses.
#[derive(Debug, Clone, Copy, PartialEq, Eq, Structural)]
pub enum Tint {
    Gray,
    DarkGray,
    White,
    Red,
    Green,
    Yellow,
    Cyan,
    LightGreen,
    LightYellow,
    LightMagenta,
}

/// A text style: an optional foreground color and text modifiers.
#[derive(Debug, Clone, Copy, PartialEq, Eq, Structural)]
pub struct Look {
    pub fg: Option<Tint>,
    pub bold: bool,
    pub italic: bool,
    pub underlined: bool,
    pub crossed_out: bool,
}

/// A run of text in one look.
#[derive(Debug, Clone)]
pub struct Piece {
    pub text: String,
    pub look: Look,
}

impl Look {
    /// The unstyled look.
    pub open spec fn spec_plain() -> Look {
        Look { fg: None, bold: false, italic: false, underlined: false, crossed_out: false }
    }

    pub fn plain() -> (r: Look)
        ensures
            r == Look::spec_plain(),
    {
        Look { fg: None, bold: false, italic: false, underlined: false, crossed_out: false }
    }

    /// The unstyled look in the given color.
    pub fn colored(t: Tint) -> (r: Look)
        ensures
            r == (Look { fg: Some(t), ..Look::spec_plain() }),
    {
        Look { fg: Some(t), bold: false, italic: false, underlined: false, crossed_out: false }
    }
}

} // verus!
