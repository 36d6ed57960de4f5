//! The style model the row logic works on: which colors and modifiers a row
//! is painted with. Only the handful of values this widget actually uses are
//! ever built; the hosting application may pass any value it likes for the
//! selection highlight.

use vstd::prelude::*;

verus! {

/// ANSI color index for black.
pub const ANSI_BLACK: u8 = 0;

/// ANSI color index for green.
pub const ANSI_GREEN: u8 = 2;

/// A terminal text style as the row logic reads it: optional ANSI foreground
/// and background color indices, plus a modifier bitmask (bold and friends).
#[derive(Clone, Copy, PartialEq, Eq, Debug)]
pub struct RowStyle {
    pub fg: Option<u8>,
    pub bg: Option<u8>,
    pub modifiers: u16,
}

/// No highlight at all: terminal default colors, no modifiers.
pub open spec fn default_row_style() -> RowStyle {
    RowStyle { fg: None, bg: None, modifiers: 0 }
}

/// The bookmark highlight: black text on a green background.
pub open spec fn bookmarked_row_style() -> RowStyle {
    RowStyle { fg: Some(ANSI_BLACK), bg: Some(ANSI_GREEN), modifiers: 0 }
}

impl RowStyle {
    /// The style a bookmarked row is painted with.
    pub fn bookmarked() -> (r: RowStyle)
        ensures
            r == bookmarked_row_style(),
    {
        RowStyle { fg: Some(ANSI_BLACK), bg: Some(ANSI_GREEN), modifiers: 0 }
    }
}

impl Default for RowStyle {
    /// The style of a row that carries no highlight.
    fn default() -> (r: RowStyle)
        ensures
            r == default_row_style(),
    {
        RowStyle { fg: None, bg: None, modifiers: 0 }
    }
}

} // verus!
