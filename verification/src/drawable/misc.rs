//! Text that places itself within the width of its target.

use super::core_impl::{draw_text_from, text_writes};
use super::Drawable;
use crate::canvas::{CanvasLike, CellWrite};
use crate::layout::pos::half;
use crate::layout::Dims;
use crate::style::Style;
use crate::width::{str_columns, unicode_str_width};
use vstd::prelude::*;

verus! {

/// The width of a string as a signed number, as layout works with it.
pub open spec fn text_width(s: Seq<char>) -> i32 {
    unicode_str_width(s) as i32
}

/// A string that is drawn in the middle of the width of its target.
#[derive(Clone, Copy)]
pub struct CenteredString<'a>(pub &'a str);

impl<'a> CenteredString<'a> {
    pub fn new(s: &'a str) -> (centered: Self)
        ensures
            centered.0 == s,
    {
        Self(s)
    }

    /// The column that the string starts at on a target `width` columns
    /// wide: half of what the string leaves, rounded towards zero.
    pub open spec fn start(&self, width: i32) -> int {
        half(width - text_width(self.0@))
    }
}

/// Draws in row `pos.y`; the column of `pos` plays no part.
impl<'a> Drawable for CenteredString<'a> {
    open spec fn writes(&self, pos: Dims, size: Dims) -> Seq<CellWrite> {
        text_writes(self.0@, self.start(size.x), pos.y, size, Style::plain())
    }

    open spec fn styled_writes(&self, pos: Dims, size: Dims, style: Style) -> Seq<CellWrite> {
        text_writes(self.0@, self.start(size.x), pos.y, size, style)
    }

    fn draw<F: CanvasLike>(&self, pos: Dims, frame: &mut F) {
        self.draw_styled(pos, frame, Style::default())
    }

    fn draw_styled<F: CanvasLike>(&self, pos: Dims, frame: &mut F, style: Style) {
        let width: i32 = str_columns(self.0) as i32;
        let x: i64 = (frame.size().x as i64 - width as i64) / 2;
        draw_text_from(self.0, x, pos.y, frame, style)
    }
}

/// Strings can be centered.
pub trait CenteredStringExt<'a> {
    /// The string, to be drawn in the middle of the width of its target.
    fn center(self) -> CenteredString<'a>;
}

impl<'a> CenteredStringExt<'a> for &'a str {
    fn center(self) -> (centered: CenteredString<'a>)
        ensures
            centered.0 == self,
    {
        CenteredString::new(self)
    }
}

/// A string that is drawn so that it ends at the right bound of its target.
#[derive(Clone, Copy)]
pub struct RightAlignedString<'a>(pub &'a str);

impl<'a> RightAlignedString<'a> {
    pub fn new(s: &'a str) -> (aligned: Self)
        ensures
            aligned.0 == s,
    {
        Self(s)
    }

    /// The column that the string starts at on a target `width` columns
    /// wide: what the string leaves of the width.
    pub open spec fn start(&self, width: i32) -> int {
        width - text_width(self.0@)
    }
}

/// Draws in row `pos.y`; the column of `pos` plays no part.
impl<'a> Drawable for RightAlignedString<'a> {
    open spec fn writes(&self, pos: Dims, size: Dims) -> Seq<CellWrite> {
        text_writes(self.0@, self.start(size.x), pos.y, size, Style::plain())
    }

    open spec fn styled_writes(&self, pos: Dims, size: Dims, style: Style) -> Seq<CellWrite> {
        text_writes(self.0@, self.start(size.x), pos.y, size, style)
    }

    fn draw<F: CanvasLike>(&self, pos: Dims, frame: &mut F) {
        self.draw_styled(pos, frame, Style::default())
    }

    fn draw_styled<F: CanvasLike>(&self, pos: Dims, frame: &mut F, style: Style) {
        let width: i32 = str_columns(self.0) as i32;
        let x: i64 = frame.size().x as i64 - width as i64;
        draw_text_from(self.0, x, pos.y, frame, style)
    }
}

/// Strings can be aligned to the right.
pub trait RightAlignedStringExt<'a> {
    /// The string, to be drawn so that it ends at the right bound of its target.
    fn right(self) -> RightAlignedString<'a>;
}

impl<'a> RightAlignedStringExt<'a> for &'a str {
    fn right(self) -> (aligned: RightAlignedString<'a>)
        ensures
            aligned.0 == self,
    {
        RightAlignedString::new(self)
    }
}

} // verus!
