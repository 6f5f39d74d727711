//! The unit of the character grid.

use crate::style::Style;
use crate::width::{char_columns, display_width};
use vstd::prelude::*;

verus! {

/// A character as it stands in the grid.
#[derive(Debug, Clone, Copy, PartialEq, Eq, Structural)]
pub struct CellContent {
    pub character: char,
    /// The number of columns that the character takes.
    pub width: u8,
    pub style: Style,
}

/// One slot of the grid.
///
/// A character that is wider than one column stands in the first of its
/// columns; the others hold `PlaceHolder`.
#[derive(Debug, Clone, Copy, PartialEq, Eq, Structural)]
pub enum Cell {
    /// A column that the character to its left takes up.
    PlaceHolder,
    /// A character with its width and style.
    Content(CellContent),
}

impl Cell {
    /// The cell that holds `c` in style `s`, as wide as `c` is displayed.
    pub open spec fn spec_styled(c: char, s: Style) -> Cell {
        Cell::Content(CellContent { character: c, width: display_width(c) as u8, style: s })
    }

    /// The empty cell: a space in the plain style.
    pub open spec fn blank() -> Cell {
        Cell::spec_styled(' ', Style::plain())
    }

    /// The cell that holds `c` in style `s` as a character `width` columns wide.
    pub fn with_width(c: char, width: u8, s: Style) -> (cell: Self)
        ensures
            cell == Cell::Content(CellContent { character: c, width, style: s }),
    {
        Cell::Content(CellContent { character: c, width, style: s })
    }

    /// The cell that holds `c` in style `s`, as wide as `c` is displayed.
    pub fn styled(c: char, s: Style) -> (cell: Self)
        ensures
            cell == Cell::spec_styled(c, s),
    {
        Cell::with_width(c, char_columns(c), s)
    }

    /// The cell that holds `c` in the plain style.
    pub fn new(c: char) -> (cell: Self)
        ensures
            cell == Cell::spec_styled(c, Style::plain()),
    {
        Cell::styled(c, Style::default())
    }
}

impl Default for Cell {
    fn default() -> (cell: Self)
        ensures
            cell == Cell::PlaceHolder,
    {
        Cell::PlaceHolder
    }
}

impl Default for CellContent {
    fn default() -> (content: Self)
        ensures
            content == (CellContent { character: '\0', width: 0, style: Style::plain() }),
    {
        CellContent { character: '\0', width: 0, style: Style::default() }
    }
}

} // verus!
