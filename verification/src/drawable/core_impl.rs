//! Drawing characters, strings and single cells.

use super::Drawable;
use crate::canvas::{
    grid_get, lemma_grid_get_after_put, lemma_painted_concat, lemma_painted_empty,
    lemma_painted_push, lemma_painted_same_target, painted, same_shape, Canvas, CanvasLike, CellWrite,
};
use crate::cell::{Cell, CellContent};
use crate::layout::{Dims, Pos};
use crate::style::Style;
use crate::width::{char_columns, display_width};
use vstd::prelude::*;

verus! {

/// The cell that holds the character `c`, `width` columns wide.
pub open spec fn glyph_cell(c: char, width: u8, style: Style) -> Cell {
    Cell::Content(CellContent { character: c, width, style })
}

/// The cells that a character of the given width hands to a target of
/// extent `size` when it is drawn with its first column at column `x` of
/// row `y`.
///
/// Nothing is drawn where the first column lies at or beyond the right or the
/// lower bound of the target, and nothing for a character without width.
/// Otherwise the character goes to its first column and a placeholder to
/// each further column that it takes. Each of these cells is handed over by
/// itself: the target drops those that it has no place for.
pub open spec fn wide_writes(c: char, width: u8, x: int, y: i32, size: Dims, style: Style) -> Seq<
    CellWrite,
> {
    if x >= size.x || y >= size.y || width == 0 || x < i32::MIN {
        Seq::empty()
    } else {
        Seq::new(
            trail_end(x, width as int) as nat,
            |i: int|
                CellWrite {
                    pos: Pos { x: (x + i) as i32, y },
                    cell: if i == 0 {
                        glyph_cell(c, width, style)
                    } else {
                        Cell::PlaceHolder
                    },
                },
        )
    }
}

/// How many of the `width` columns from `x` on have a coordinate.
pub open spec fn trail_end(x: int, width: int) -> int {
    if x + width - 1 <= i32::MAX {
        width
    } else {
        i32::MAX - x + 1
    }
}

/// The cells that the character `c` hands to a target when it is drawn:
/// those of a character as wide as `c` is displayed.
pub open spec fn glyph_writes(c: char, x: int, y: i32, size: Dims, style: Style) -> Seq<CellWrite> {
    wide_writes(c, display_width(c) as u8, x, y, size, style)
}

/// What a canvas holds after the first `count` cells of a character were
/// handed to it: the character in its first column, a placeholder in each
/// further column that was reached and that the canvas has, and everywhere
/// else what was there before.
proof fn lemma_wide_prefix_on_canvas(
    canvas: Canvas,
    c: char,
    width: u8,
    pos: Dims,
    style: Style,
    count: int,
)
    requires
        0 <= pos.x < canvas.spec_size().x,
        0 <= pos.y < canvas.spec_size().y,
        width > 0,
        0 <= count <= wide_writes(c, width, pos.x as int, pos.y, canvas.spec_size(), style).len(),
    ensures
        forall|i: int, j: int|
            #![trigger grid_get(
                painted(
                    &canvas,
                    canvas.cells(),
                    wide_writes(c, width, pos.x as int, pos.y, canvas.spec_size(), style).take(count),
                ),
                i,
                j,
            )]
            grid_get(
                painted(
                    &canvas,
                    canvas.cells(),
                    wide_writes(c, width, pos.x as int, pos.y, canvas.spec_size(), style).take(count),
                ),
                i,
                j,
            ) == (if j == pos.y && pos.x <= i < pos.x + count && grid_get(canvas.cells(), i, j)
                is Some {
                if i == pos.x {
                    Some(glyph_cell(c, width, style))
                } else {
                    Some(Cell::PlaceHolder)
                }
            } else {
                grid_get(canvas.cells(), i, j)
            }),
    decreases count,
{
    let all = wide_writes(c, width, pos.x as int, pos.y, canvas.spec_size(), style);
    if count > 0 {
        lemma_wide_prefix_on_canvas(canvas, c, width, pos, style, count - 1);
        let before = painted(&canvas, canvas.cells(), all.take(count - 1));
        let last = all[count - 1];
        lemma_painted_push(&canvas, canvas.cells(), all.take(count - 1), last);
        assert(all.take(count) =~= all.take(count - 1).push(last));
        let after = painted(&canvas, canvas.cells(), all.take(count));
        assert forall|i: int, j: int| #[trigger]
            grid_get(after, i, j) == (if j == pos.y && pos.x <= i < pos.x + count && grid_get(
                canvas.cells(),
                i,
                j,
            ) is Some {
                if i == pos.x {
                    Some(glyph_cell(c, width, style))
                } else {
                    Some(Cell::PlaceHolder)
                }
            } else {
                grid_get(canvas.cells(), i, j)
            }) by {
            lemma_grid_get_after_put(before, last.pos.x as int, last.pos.y as int, last.cell, i, j);
        }
    }
}

/// A character that is `width` columns wide and is drawn at a position of
/// a canvas takes that position itself and fills each of the `width - 1`
/// columns after it with a placeholder, as far as the row of the canvas
/// reaches. No other cell of the canvas changes.
pub proof fn lemma_wide_on_canvas(canvas: Canvas, c: char, width: u8, pos: Dims, style: Style)
    requires
        canvas.buffer.wf(),
        0 <= pos.x < canvas.spec_size().x,
        0 <= pos.y < canvas.spec_size().y,
        width > 0,
    ensures
        forall|i: int, j: int|
            #![trigger grid_get(
                painted(
                    &canvas,
                    canvas.cells(),
                    wide_writes(c, width, pos.x as int, pos.y, canvas.spec_size(), style),
                ),
                i,
                j,
            )]
            grid_get(
                painted(
                    &canvas,
                    canvas.cells(),
                    wide_writes(c, width, pos.x as int, pos.y, canvas.spec_size(), style),
                ),
                i,
                j,
            ) == (if j == pos.y && i == pos.x {
                Some(glyph_cell(c, width, style))
            } else if j == pos.y && pos.x < i < pos.x + width && i < canvas.spec_size().x {
                Some(Cell::PlaceHolder)
            } else {
                grid_get(canvas.cells(), i, j)
            }),
{
    let all = wide_writes(c, width, pos.x as int, pos.y, canvas.spec_size(), style);
    lemma_wide_prefix_on_canvas(canvas, c, width, pos, style, all.len() as int);
    assert(all.take(all.len() as int) =~= all);
    let after = painted(&canvas, canvas.cells(), all);
    assert forall|i: int, j: int| #[trigger]
        grid_get(after, i, j) == (if j == pos.y && i == pos.x {
            Some(glyph_cell(c, width, style))
        } else if j == pos.y && pos.x < i < pos.x + width && i < canvas.spec_size().x {
            Some(Cell::PlaceHolder)
        } else {
            grid_get(canvas.cells(), i, j)
        }) by {
        if j == pos.y && pos.x <= i < canvas.spec_size().x {
            assert(canvas.cells()[j].len() == canvas.spec_size().x);
        }
    }
}

/// Draws the character `c` as a character `width` columns wide: the
/// character at `pos` and a placeholder in each of the `width - 1` columns
/// after it. Nothing is drawn for a width of 0, nor where `pos` lies at or
/// beyond the right or the lower bound of the target.
pub fn draw_wide<F: CanvasLike>(c: char, width: u8, pos: Dims, frame: &mut F, style: Style)
    ensures
        (*final(frame)).cells() == painted(
            &*old(frame),
            (*old(frame)).cells(),
            wide_writes(c, width, pos.x as int, pos.y, (*old(frame)).spec_size(), style),
        ),
        same_shape(&*final(frame), &*old(frame)),
{
    let size = frame.size();
    proof {
        lemma_painted_empty(&*old(frame), (*old(frame)).cells());
    }
    if pos.x >= size.x || pos.y >= size.y {
        return ;
    }
    if width == 0 {
        return ;
    }
    let ghost all = wide_writes(c, width, pos.x as int, pos.y, size, style);
    frame.set(pos, Cell::Content(CellContent { character: c, width, style }));
    proof {
        lemma_painted_push(&*old(frame), (*old(frame)).cells(), Seq::empty(), all[0]);
        assert(all.take(1) =~= Seq::<CellWrite>::empty().push(all[0]));
    }
    let mut i: i32 = 1;
    while i < width as i32 && pos.x <= i32::MAX - i
        invariant
            1 <= i <= width,
            pos.x < size.x,
            pos.y < size.y,
            size == (*old(frame)).spec_size(),
            all == wide_writes(c, width, pos.x as int, pos.y, size, style),
            i <= all.len(),
            i < width && pos.x <= i32::MAX - i ==> i < all.len(),
            !(i < width && pos.x <= i32::MAX - i) ==> i == all.len(),
            same_shape(&*frame, &*old(frame)),
            frame.cells() == painted(&*old(frame), (*old(frame)).cells(), all.take(i as int)),
        decreases width - i,
    {
        frame.set(Pos::new(pos.x + i, pos.y), Cell::PlaceHolder);
        proof {
            lemma_painted_push(
                &*old(frame),
                (*old(frame)).cells(),
                all.take(i as int),
                all[i as int],
            );
            assert(all.take(i + 1) =~= all.take(i as int).push(all[i as int]));
        }
        i = i + 1;
    }
    assert(all.take(i as int) =~= all);
}

impl Drawable for char {
    open spec fn writes(&self, pos: Dims, size: Dims) -> Seq<CellWrite> {
        glyph_writes(*self, pos.x as int, pos.y, size, Style::plain())
    }

    open spec fn styled_writes(&self, pos: Dims, size: Dims, style: Style) -> Seq<CellWrite> {
        glyph_writes(*self, pos.x as int, pos.y, size, style)
    }

    fn draw<F: CanvasLike>(&self, pos: Dims, frame: &mut F) {
        draw_wide(*self, char_columns(*self), pos, frame, Style::default())
    }

    fn draw_styled<F: CanvasLike>(&self, pos: Dims, frame: &mut F, style: Style) {
        draw_wide(*self, char_columns(*self), pos, frame, style)
    }
}

/// The number of columns that the characters of `s` take when they are
/// drawn one after the other.
pub open spec fn advance(s: Seq<char>) -> int
    decreases s.len(),
{
    if s.len() == 0 {
        0
    } else {
        advance(s.drop_last()) + display_width(s.last())
    }
}

/// The cells that a run of characters hands to a target of extent `size`
/// when it is drawn to the right from column `x` of row `y`: each character
/// as `glyph_writes` says, at the column that the characters before it leave.
pub open spec fn text_writes(s: Seq<char>, x: int, y: i32, size: Dims, style: Style) -> Seq<CellWrite>
    decreases s.len(),
{
    if s.len() == 0 {
        Seq::empty()
    } else {
        text_writes(s.drop_last(), x, y, size, style) + glyph_writes(
            s.last(),
            x + advance(s.drop_last()),
            y,
            size,
            style,
        )
    }
}

/// A run of characters takes no less than no column.
pub proof fn lemma_advance_nonnegative(s: Seq<char>)
    ensures
        advance(s) >= 0,
    decreases s.len(),
{
    if s.len() > 0 {
        lemma_advance_nonnegative(s.drop_last());
    }
}

/// Draws the characters of `text` to the right from column `x` of row `y`
/// in the given style, each at the column that the characters before it
/// leave. The column may lie outside the range of the coordinates: the
/// characters that come to lie within it are drawn.
pub fn draw_text_from<F: CanvasLike>(text: &str, x: i64, y: i32, frame: &mut F, style: Style)
    ensures
        (*final(frame)).cells() == painted(
            &*old(frame),
            (*old(frame)).cells(),
            text_writes(text@, x as int, y, (*old(frame)).spec_size(), style),
        ),
        same_shape(&*final(frame), &*old(frame)),
{
    let size = frame.size();
    // The column of the next character, as long as it lies left of the
    // right bound. Beyond that bound nothing is drawn any more.
    let mut cursor: i64 = x;
    let mut live: bool = x < size.x as i64;
    proof {
        lemma_painted_empty(&*old(frame), (*old(frame)).cells());
    }
    for c in it: text.chars()
        invariant
            it.seq() == text@,
            size == (*old(frame)).spec_size(),
            live ==> cursor == x + advance(text@.take(it.index())) && cursor < size.x,
            !live ==> x + advance(text@.take(it.index())) >= size.x,
            same_shape(&*frame, &*old(frame)),
            frame.cells() == painted(
                &*old(frame),
                (*old(frame)).cells(),
                text_writes(text@.take(it.index()), x as int, y, size, style),
            ),
    {
        let ghost before = *frame;
        let ghost done = text@.take(it.index());
        let ghost next = text@.take(it.index() + 1);
        proof {
            assert(next.drop_last() =~= done);
            lemma_advance_nonnegative(done);
            lemma_painted_concat(
                &*old(frame),
                (*old(frame)).cells(),
                text_writes(done, x as int, y, size, style),
                glyph_writes(c, x + advance(done), y, size, style),
            );
            lemma_painted_empty(&*old(frame), frame.cells());
        }
        if live {
            if cursor >= i32::MIN as i64 {
                c.draw_styled(Pos::new(cursor as i32, y), frame, style);
                proof {
                    lemma_painted_same_target(
                        &before,
                        &*old(frame),
                        before.cells(),
                        glyph_writes(c, cursor as int, y, size, style),
                    );
                }
            }
            cursor = cursor + char_columns(c) as i64;
            live = cursor < size.x as i64;
        }
    }
    assert(text@.take(text@.len() as int) =~= text@);
}

/// Draws the characters of `text` from `pos` to the right in the given style.
pub fn draw_text<F: CanvasLike>(text: &str, pos: Dims, frame: &mut F, style: Style)
    ensures
        (*final(frame)).cells() == painted(
            &*old(frame),
            (*old(frame)).cells(),
            text_writes(text@, pos.x as int, pos.y, (*old(frame)).spec_size(), style),
        ),
        same_shape(&*final(frame), &*old(frame)),
{
    draw_text_from(text, pos.x as i64, pos.y, frame, style)
}

impl Drawable for str {
    open spec fn writes(&self, pos: Dims, size: Dims) -> Seq<CellWrite> {
        text_writes(self@, pos.x as int, pos.y, size, Style::plain())
    }

    open spec fn styled_writes(&self, pos: Dims, size: Dims, style: Style) -> Seq<CellWrite> {
        text_writes(self@, pos.x as int, pos.y, size, style)
    }

    fn draw<F: CanvasLike>(&self, pos: Dims, frame: &mut F) {
        draw_text(self, pos, frame, Style::default())
    }

    fn draw_styled<F: CanvasLike>(&self, pos: Dims, frame: &mut F, style: Style) {
        draw_text(self, pos, frame, style)
    }
}

impl Drawable for String {
    open spec fn writes(&self, pos: Dims, size: Dims) -> Seq<CellWrite> {
        text_writes(self@, pos.x as int, pos.y, size, Style::plain())
    }

    open spec fn styled_writes(&self, pos: Dims, size: Dims, style: Style) -> Seq<CellWrite> {
        text_writes(self@, pos.x as int, pos.y, size, style)
    }

    fn draw<F: CanvasLike>(&self, pos: Dims, frame: &mut F) {
        draw_text(self.as_str(), pos, frame, Style::default())
    }

    fn draw_styled<F: CanvasLike>(&self, pos: Dims, frame: &mut F, style: Style) {
        draw_text(self.as_str(), pos, frame, style)
    }
}

impl Cell {
    /// The cell in another style. A placeholder has no style and stays as it is.
    pub open spec fn spec_restyled(self, style: Style) -> Cell {
        match self {
            Cell::Content(content) => Cell::Content(CellContent { style, ..content }),
            Cell::PlaceHolder => Cell::PlaceHolder,
        }
    }

    /// The cell in another style. A placeholder has no style and stays as it is.
    pub fn restyled(self, style: Style) -> (cell: Cell)
        ensures
            cell == self.spec_restyled(style),
    {
        match self {
            Cell::Content(content) => Cell::Content(
                CellContent { character: content.character, width: content.width, style },
            ),
            Cell::PlaceHolder => Cell::PlaceHolder,
        }
    }
}

impl Drawable for Cell {
    open spec fn writes(&self, pos: Dims, size: Dims) -> Seq<CellWrite> {
        seq![CellWrite { pos, cell: *self }]
    }

    open spec fn styled_writes(&self, pos: Dims, size: Dims, style: Style) -> Seq<CellWrite> {
        seq![CellWrite { pos, cell: self.spec_restyled(style) }]
    }

    fn draw<F: CanvasLike>(&self, pos: Dims, frame: &mut F) {
        frame.set(pos, *self);
        proof {
            let w = CellWrite { pos, cell: *self };
            lemma_painted_push(&*old(frame), (*old(frame)).cells(), Seq::empty(), w);
        }
    }

    fn draw_styled<F: CanvasLike>(&self, pos: Dims, frame: &mut F, style: Style) {
        let cell = self.restyled(style);
        frame.set(pos, cell);
        proof {
            let w = CellWrite { pos, cell };
            lemma_painted_push(&*old(frame), (*old(frame)).cells(), Seq::empty(), w);
        }
    }
}

impl<D: Drawable + ?Sized> Drawable for &D {
    open spec fn writes(&self, pos: Dims, size: Dims) -> Seq<CellWrite> {
        (**self).writes(pos, size)
    }

    open spec fn styled_writes(&self, pos: Dims, size: Dims, style: Style) -> Seq<CellWrite> {
        (**self).styled_writes(pos, size, style)
    }

    fn draw<F: CanvasLike>(&self, pos: Dims, frame: &mut F) {
        (**self).draw(pos, frame)
    }

    fn draw_styled<F: CanvasLike>(&self, pos: Dims, frame: &mut F, style: Style) {
        (**self).draw_styled(pos, frame, style)
    }
}

} // verus!
