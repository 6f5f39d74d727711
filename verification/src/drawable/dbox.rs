//! A box of line-drawing characters.

use super::core_impl::{draw_text_from, glyph_writes, text_writes};
use super::Drawable;
use crate::canvas::{
    lemma_painted_concat, lemma_painted_empty, lemma_painted_same_target, painted, same_shape,
    CanvasLike, CellWrite,
};
use crate::frame::fits_i32;
use crate::layout::strings::push_char;
use crate::layout::{Dims, Pos};
use crate::style::Style;
use vstd::prelude::*;

verus! {

/// The outline of a rectangle, drawn with rounded corners.
///
/// A box is at least two columns wide: one for each of its sides.
#[derive(Clone, Copy)]
pub struct Dbox {
    size: Dims,
}

/// A horizontal line of the box: a corner, the line between, a corner.
pub open spec fn border(left: char, fill: char, right: char, width: int) -> Seq<char> {
    seq![left] + Seq::new((width - 2) as nat, |i: int| fill) + seq![right]
}

/// The cells of a character in a row that may lie outside the range of
/// the coordinates, where nothing is drawn.
pub open spec fn glyph_row_writes(c: char, x: int, y: int, size: Dims, style: Style) -> Seq<CellWrite> {
    if fits_i32(y) {
        glyph_writes(c, x, y as i32, size, style)
    } else {
        Seq::empty()
    }
}

/// The cells of a run of characters in a row that may lie outside the
/// range of the coordinates, where nothing is drawn.
pub open spec fn text_row_writes(s: Seq<char>, x: int, y: int, size: Dims, style: Style) -> Seq<
    CellWrite,
> {
    if fits_i32(y) {
        text_writes(s, x, y as i32, size, style)
    } else {
        Seq::empty()
    }
}

/// The cells of the two sides of a box in the `rows` rows below row `y`:
/// row by row, the left side and then the right one.
pub open spec fn side_writes(x: int, y: int, width: int, rows: nat, size: Dims, style: Style) -> Seq<
    CellWrite,
>
    decreases rows,
{
    if rows == 0 {
        Seq::empty()
    } else {
        side_writes(x, y, width, (rows - 1) as nat, size, style) + glyph_row_writes(
            '│',
            x,
            y + rows,
            size,
            style,
        ) + glyph_row_writes('│', x + width - 1, y + rows, size, style)
    }
}

/// The number of rows between the top and the bottom line of a box.
pub open spec fn inner_rows(height: int) -> nat {
    if height > 2 {
        (height - 2) as nat
    } else {
        0
    }
}

/// The cells of a box of the given extent with its upper left corner at
/// `pos`: the top line, the sides from the top down, the bottom line.
pub open spec fn box_writes(extent: Dims, pos: Dims, size: Dims, style: Style) -> Seq<CellWrite> {
    text_writes(border('╭', '─', '╮', extent.x as int), pos.x as int, pos.y, size, style)
        + side_writes(
        pos.x as int,
        pos.y as int,
        extent.x as int,
        inner_rows(extent.y as int),
        size,
        style,
    ) + text_row_writes(
        border('╰', '─', '╯', extent.x as int),
        pos.x as int,
        pos.y + extent.y - 1,
        size,
        style,
    )
}

/// A horizontal line of a box as a string.
fn border_line(left: char, fill: char, right: char, width: i32) -> (line: String)
    requires
        width >= 2,
    ensures
        line@ == border(left, fill, right, width as int),
{
    let mut line = String::new();
    push_char(&mut line, left);
    let mut i: i32 = 2;
    while i < width
        invariant
            2 <= i <= width,
            line@ == seq![left] + Seq::new((i - 2) as nat, |k: int| fill),
        decreases width - i,
    {
        push_char(&mut line, fill);
        i = i + 1;
    }
    push_char(&mut line, right);
    line
}

impl Dbox {
    #[verifier::type_invariant]
    spec fn wide_enough(self) -> bool {
        self.size.x >= 2
    }

    /// The extent of the box.
    pub closed spec fn spec_size(self) -> Dims {
        self.size
    }

    /// A box of the given extent.
    pub fn new(size: Dims) -> (dbox: Self)
        requires
            size.x >= 2,
        ensures
            dbox.spec_size() == size,
    {
        Self { size }
    }

    /// The extent of the box.
    pub fn size(&self) -> (size: Dims)
        ensures
            size == self.spec_size(),
            size.x >= 2,
    {
        proof {
            use_type_invariant(self);
        }
        self.size
    }
}

impl Drawable for Dbox {
    open spec fn writes(&self, pos: Dims, size: Dims) -> Seq<CellWrite> {
        box_writes(self.spec_size(), pos, size, Style::plain())
    }

    open spec fn styled_writes(&self, pos: Dims, size: Dims, style: Style) -> Seq<CellWrite> {
        box_writes(self.spec_size(), pos, size, style)
    }

    fn draw<F: CanvasLike>(&self, pos: Dims, frame: &mut F) {
        self.draw_styled(pos, frame, Style::default())
    }

    fn draw_styled<F: CanvasLike>(&self, pos: Dims, frame: &mut F, style: Style) {
        let extent = self.size();
        let size = frame.size();
        let ghost top = text_writes(
            border('╭', '─', '╮', extent.x as int),
            pos.x as int,
            pos.y,
            size,
            style,
        );
        let ghost start = (*old(frame)).cells();
        draw_text_from(
            border_line('╭', '─', '╮', extent.x).as_str(),
            pos.x as i64,
            pos.y,
            frame,
            style,
        );
        let right: i64 = pos.x as i64 + extent.x as i64 - 1;
        let rows: i64 = if extent.y > 2 {
            extent.y as i64 - 2
        } else {
            0
        };
        let mut k: i64 = 0;
        proof {
            lemma_painted_concat(
                &*old(frame),
                start,
                top,
                side_writes(pos.x as int, pos.y as int, extent.x as int, 0, size, style),
            );
            lemma_painted_empty(&*old(frame), frame.cells());
        }
        while k < rows
            invariant
                0 <= k <= rows,
                rows == inner_rows(extent.y as int),
                right == pos.x + extent.x - 1,
                size == (*old(frame)).spec_size(),
                start == (*old(frame)).cells(),
                same_shape(&*frame, &*old(frame)),
                frame.cells() == painted(
                    &*old(frame),
                    start,
                    top + side_writes(
                        pos.x as int,
                        pos.y as int,
                        extent.x as int,
                        k as nat,
                        size,
                        style,
                    ),
                ),
            decreases rows - k,
        {
            let row: i64 = pos.y as i64 + k + 1;
            let ghost sides = side_writes(
                pos.x as int,
                pos.y as int,
                extent.x as int,
                k as nat,
                size,
                style,
            );
            let ghost left_side = glyph_row_writes('│', pos.x as int, row as int, size, style);
            let ghost right_side = glyph_row_writes('│', right as int, row as int, size, style);
            let ghost before = *frame;
            if row <= i32::MAX as i64 {
                '│'.draw_styled(Pos::new(pos.x, row as i32), frame, style);
                let ghost between = *frame;
                proof {
                    lemma_painted_same_target(&before, &*old(frame), before.cells(), left_side);
                }
                if right >= i32::MIN as i64 && right <= i32::MAX as i64 {
                    '│'.draw_styled(Pos::new(right as i32, row as i32), frame, style);
                    proof {
                        lemma_painted_same_target(
                            &between,
                            &*old(frame),
                            between.cells(),
                            right_side,
                        );
                    }
                } else {
                    proof {
                        lemma_painted_empty(&*old(frame), frame.cells());
                    }
                }
            } else {
                proof {
                    lemma_painted_empty(&*old(frame), frame.cells());
                }
            }
            proof {
                lemma_painted_concat(&*old(frame), start, top + sides, left_side);
                lemma_painted_concat(&*old(frame), start, top + sides + left_side, right_side);
                assert(top + side_writes(
                    pos.x as int,
                    pos.y as int,
                    extent.x as int,
                    (k + 1) as nat,
                    size,
                    style,
                ) =~= top + sides + left_side + right_side);
            }
            k = k + 1;
        }
        let bottom: i64 = pos.y as i64 + extent.y as i64 - 1;
        let ghost sides = side_writes(
            pos.x as int,
            pos.y as int,
            extent.x as int,
            inner_rows(extent.y as int),
            size,
            style,
        );
        let ghost last = text_row_writes(
            border('╰', '─', '╯', extent.x as int),
            pos.x as int,
            bottom as int,
            size,
            style,
        );
        let ghost before = *frame;
        if bottom >= i32::MIN as i64 && bottom <= i32::MAX as i64 {
            draw_text_from(
                border_line('╰', '─', '╯', extent.x).as_str(),
                pos.x as i64,
                bottom as i32,
                frame,
                style,
            );
            proof {
                lemma_painted_same_target(&before, &*old(frame), before.cells(), last);
            }
        } else {
            proof {
                lemma_painted_empty(&*old(frame), frame.cells());
            }
        }
        proof {
            lemma_painted_concat(&*old(frame), start, top + sides, last);
        }
    }
}

} // verus!
