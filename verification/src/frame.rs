//! A window onto another drawing target.

use crate::canvas::{written, CanvasLike};
use crate::cell::Cell;
use crate::layout::pos::half;
use crate::layout::{Dims, Pos};
use vstd::prelude::*;

verus! {

/// Whether `v` is a value of `i32`.
pub open spec fn fits_i32(v: int) -> bool {
    i32::MIN <= v <= i32::MAX
}

/// A window onto a parent target: it has an offset in the parent and an
/// extent, and it may clip what is written outside that extent.
///
/// A write at `pos` goes to the parent at `pos + rel_pos`. A frame that clips
/// drops the writes that lie outside `[0, size)`; it decides this for its own
/// writes only, whatever the frames above it do. A write that would go to a
/// coordinate outside the range of `i32` is dropped: no cell lies there.
///
/// A frame holds its parent for as long as it lives, and `into_parent`
/// gives the parent back. A frame over `&mut P` borrows its parent instead.
pub struct Frame<P: CanvasLike> {
    /// Where the frame lies in its parent.
    pub rel_pos: Dims,
    /// The extent of the frame.
    pub size: Dims,
    /// Whether writes outside the extent are dropped.
    pub clip: bool,
    /// The target that the frame writes to.
    pub parent: P,
}

impl<P: CanvasLike> Frame<P> {
    /// Whether `pos` lies within the extent of the frame.
    pub open spec fn contains(&self, pos: Dims) -> bool {
        0 <= pos.x < self.size.x && 0 <= pos.y < self.size.y
    }

    /// Whether the frame hands a write at `pos` to its parent.
    pub open spec fn forwards(&self, pos: Dims) -> bool {
        &&& self.clip ==> self.contains(pos)
        &&& fits_i32(pos.x + self.rel_pos.x)
        &&& fits_i32(pos.y + self.rel_pos.y)
    }

    /// The position in the parent that belongs to `pos`.
    pub open spec fn in_parent(&self, pos: Dims) -> Dims {
        Pos { x: (pos.x + self.rel_pos.x) as i32, y: (pos.y + self.rel_pos.y) as i32 }
    }

    /// The clipping frame that covers the whole of `p`.
    pub open spec fn spec_new(p: P) -> Self {
        Frame { rel_pos: Pos { x: 0, y: 0 }, size: p.spec_size(), clip: true, parent: p }
    }

    /// A clipping frame that covers the whole of `p`.
    pub fn new(p: P) -> (frame: Self)
        ensures
            frame == Self::spec_new(p),
    {
        let size = p.size();
        Self { rel_pos: Pos::new(0, 0), size, clip: true, parent: p }
    }

    /// The frame with the extent `size`.
    pub fn with_size(self, size: Dims) -> (frame: Self)
        ensures
            frame == (Frame { size, ..self }),
    {
        let mut frame = self;
        frame.size = size;
        frame
    }

    /// The frame at the offset `pos`.
    pub fn with_pos(self, pos: Dims) -> (frame: Self)
        ensures
            frame == (Frame { rel_pos: pos, ..self }),
    {
        let mut frame = self;
        frame.rel_pos = pos;
        frame
    }

    /// The frame without clipping: every write goes on to the parent, moved
    /// by the offset, also outside the extent.
    pub fn no_clip(self) -> (frame: Self)
        ensures
            frame == (Frame { clip: false, ..self }),
    {
        let mut frame = self;
        frame.clip = false;
        frame
    }

    /// The offset of the frame, added to the position that the parent reports.
    pub fn abs_pos(&self) -> (p: Dims)
        requires
            fits_i32(self.rel_pos.x + self.parent.spec_pos().x),
            fits_i32(self.rel_pos.y + self.parent.spec_pos().y),
        ensures
            p.x == self.rel_pos.x + self.parent.spec_pos().x,
            p.y == self.rel_pos.y + self.parent.spec_pos().y,
    {
        let parent_pos = self.parent.pos();
        Pos::new(self.rel_pos.x + parent_pos.x, self.rel_pos.y + parent_pos.y)
    }

    /// The frame of extent `size` whose offset is half of what `size` leaves
    /// of the present extent, rounded towards zero.
    pub fn centered(self, size: Dims) -> (frame: Self)
        requires
            fits_i32(self.size.x - size.x),
            fits_i32(self.size.y - size.y),
        ensures
            frame == (Frame {
                rel_pos: Pos {
                    x: half(self.size.x - size.x) as i32,
                    y: half(self.size.y - size.y) as i32,
                },
                size,
                ..self
            }),
    {
        let mut frame = self;
        frame.rel_pos = Pos::new((frame.size.x - size.x) / 2, (frame.size.y - size.y) / 2);
        frame.size = size;
        frame
    }

    /// The leftmost `width` columns.
    pub fn l(self, width: i32) -> (frame: Self)
        ensures
            frame == (Frame { size: Pos { x: width, y: self.size.y }, ..self }),
    {
        let mut frame = self;
        frame.size.x = width;
        frame
    }

    /// The rightmost `width` columns: the offset becomes the present width less `width`.
    pub fn r(self, width: i32) -> (frame: Self)
        requires
            fits_i32(self.size.x - width),
        ensures
            frame == (Frame {
                rel_pos: Pos { x: (self.size.x - width) as i32, y: self.rel_pos.y },
                size: Pos { x: width, y: self.size.y },
                ..self
            }),
    {
        let mut frame = self;
        frame.rel_pos.x = frame.size.x - width;
        frame.size.x = width;
        frame
    }

    /// The topmost `height` rows.
    pub fn t(self, height: i32) -> (frame: Self)
        ensures
            frame == (Frame { size: Pos { x: self.size.x, y: height }, ..self }),
    {
        let mut frame = self;
        frame.size.y = height;
        frame
    }

    /// The lowest `height` rows: the offset becomes the present height less `height`.
    pub fn b(self, height: i32) -> (frame: Self)
        requires
            fits_i32(self.size.y - height),
        ensures
            frame == (Frame {
                rel_pos: Pos { x: self.rel_pos.x, y: (self.size.y - height) as i32 },
                size: Pos { x: self.size.x, y: height },
                ..self
            }),
    {
        let mut frame = self;
        frame.rel_pos.y = frame.size.y - height;
        frame.size.y = height;
        frame
    }

    /// The frame without a margin of `m` columns on the left and on the right.
    pub fn mx(self, m: i32) -> (frame: Self)
        requires
            fits_i32(self.rel_pos.x + m),
            fits_i32(2 * m),
            fits_i32(self.size.x - 2 * m),
        ensures
            frame == (Frame {
                rel_pos: Pos { x: (self.rel_pos.x + m) as i32, y: self.rel_pos.y },
                size: Pos { x: (self.size.x - 2 * m) as i32, y: self.size.y },
                ..self
            }),
    {
        let mut frame = self;
        frame.rel_pos.x = frame.rel_pos.x + m;
        frame.size.x = frame.size.x - 2 * m;
        frame
    }

    /// The frame without a margin of `m` rows at the top and at the bottom.
    pub fn my(self, m: i32) -> (frame: Self)
        requires
            fits_i32(self.rel_pos.y + m),
            fits_i32(2 * m),
            fits_i32(self.size.y - 2 * m),
        ensures
            frame == (Frame {
                rel_pos: Pos { x: self.rel_pos.x, y: (self.rel_pos.y + m) as i32 },
                size: Pos { x: self.size.x, y: (self.size.y - 2 * m) as i32 },
                ..self
            }),
    {
        let mut frame = self;
        frame.rel_pos.y = frame.rel_pos.y + m;
        frame.size.y = frame.size.y - 2 * m;
        frame
    }

    /// The frame without a margin of `m` columns on the left.
    pub fn ml(self, m: i32) -> (frame: Self)
        requires
            fits_i32(self.rel_pos.x + m),
            fits_i32(self.size.x - m),
        ensures
            frame == (Frame {
                rel_pos: Pos { x: (self.rel_pos.x + m) as i32, y: self.rel_pos.y },
                size: Pos { x: (self.size.x - m) as i32, y: self.size.y },
                ..self
            }),
    {
        let mut frame = self;
        frame.rel_pos.x = frame.rel_pos.x + m;
        frame.size.x = frame.size.x - m;
        frame
    }

    /// The frame without a margin of `m` columns on the right.
    pub fn mr(self, m: i32) -> (frame: Self)
        requires
            fits_i32(self.size.x - m),
        ensures
            frame == (Frame { size: Pos { x: (self.size.x - m) as i32, y: self.size.y }, ..self }),
    {
        let mut frame = self;
        frame.size.x = frame.size.x - m;
        frame
    }

    /// The frame without a margin of `m` rows at the top.
    pub fn mt(self, m: i32) -> (frame: Self)
        requires
            fits_i32(self.rel_pos.y + m),
            fits_i32(self.size.y - m),
        ensures
            frame == (Frame {
                rel_pos: Pos { x: self.rel_pos.x, y: (self.rel_pos.y + m) as i32 },
                size: Pos { x: self.size.x, y: (self.size.y - m) as i32 },
                ..self
            }),
    {
        let mut frame = self;
        frame.rel_pos.y = frame.rel_pos.y + m;
        frame.size.y = frame.size.y - m;
        frame
    }

    /// The frame without a margin of `m` rows at the bottom.
    pub fn mb(self, m: i32) -> (frame: Self)
        requires
            fits_i32(self.size.y - m),
        ensures
            frame == (Frame { size: Pos { x: self.size.x, y: (self.size.y - m) as i32 }, ..self }),
    {
        let mut frame = self;
        frame.size.y = frame.size.y - m;
        frame
    }

    /// The target that the frame writes to.
    pub fn parent_ref(&self) -> (parent: &P)
        ensures
            *parent == self.parent,
    {
        &self.parent
    }

    /// The target that the frame writes to, to work on it directly.
    pub fn parent_mut(&mut self) -> (parent: &mut P)
        ensures
            *parent == old(self).parent,
            final(self).parent == *final(parent),
            final(self).rel_pos == old(self).rel_pos,
            final(self).size == old(self).size,
            final(self).clip == old(self).clip,
    {
        &mut self.parent
    }

    /// Ends the frame and gives its parent back.
    pub fn into_parent(self) -> (parent: P)
        ensures
            parent == self.parent,
    {
        self.parent
    }
}

impl<P: CanvasLike> CanvasLike for Frame<P> {
    type Shape = (Dims, Dims, bool, P::Shape);

    open spec fn cells(&self) -> Seq<Seq<Cell>> {
        self.parent.cells()
    }

    open spec fn shape(&self) -> (Dims, Dims, bool, P::Shape) {
        (self.rel_pos, self.size, self.clip, self.parent.shape())
    }

    open spec fn landing(&self, pos: Dims) -> Option<Dims> {
        if self.forwards(pos) {
            self.parent.landing(self.in_parent(pos))
        } else {
            None
        }
    }

    open spec fn spec_pos(&self) -> Dims {
        self.rel_pos
    }

    open spec fn spec_size(&self) -> Dims {
        self.size
    }

    proof fn lemma_shape_decides(&self, other: &Self) {
        self.parent.lemma_shape_decides(&other.parent);
    }

    /// Writes `cell` at `pos`, seen from the frame. What the frame does not
    /// forward leaves the parent as it was.
    fn set(&mut self, pos: Dims, cell: Cell)
        ensures
            final(self).rel_pos == old(self).rel_pos,
            final(self).size == old(self).size,
            final(self).clip == old(self).clip,
            !old(self).forwards(pos) ==> final(self).parent == old(self).parent,
            old(self).forwards(pos) ==> final(self).parent.cells() == written(
                old(self).parent.cells(),
                old(self).parent.landing(old(self).in_parent(pos)),
                cell,
            ),
    {
        if self.clip && (pos.x < 0 || pos.y < 0 || pos.x >= self.size.x || pos.y >= self.size.y) {
            return ;
        }
        match (pos.x.checked_add(self.rel_pos.x), pos.y.checked_add(self.rel_pos.y)) {
            (Some(x), Some(y)) => {
                self.parent.set(Pos::new(x, y), cell);
            },
            _ => {},
        }
    }

    fn pos(&self) -> (p: Dims) {
        self.rel_pos
    }

    fn size(&self) -> (s: Dims) {
        self.size
    }
}

/// A frame that clips hands no write outside its extent to its parent: such
/// a write reaches no cell.
pub proof fn lemma_clipping_frame_drops<P: CanvasLike>(frame: Frame<P>, pos: Dims)
    requires
        frame.clip,
        !frame.contains(pos),
    ensures
        !frame.forwards(pos),
        frame.landing(pos) is None,
        forall|cell: Cell| #[trigger] written(frame.cells(), frame.landing(pos), cell) == frame.cells(),
{
}

/// A frame that does not clip hands every write to its parent, moved by its
/// offset, whatever its own extent is. The one limit is the range of the
/// coordinates themselves.
pub proof fn lemma_open_frame_forwards<P: CanvasLike>(frame: Frame<P>, pos: Dims)
    requires
        !frame.clip,
        fits_i32(pos.x + frame.rel_pos.x),
        fits_i32(pos.y + frame.rel_pos.y),
    ensures
        frame.forwards(pos),
        frame.landing(pos) == frame.parent.landing(
            Pos { x: (pos.x + frame.rel_pos.x) as i32, y: (pos.y + frame.rel_pos.y) as i32 },
        ),
{
}

/// Frames within frames add their offsets: where both frames hand the write
/// on, a write at `pos` in the inner frame reaches the outermost target at
/// `pos` plus the offset of the inner frame plus the offset of the outer one.
pub proof fn lemma_nested_frames_add_offsets<P: CanvasLike>(inner: Frame<Frame<P>>, pos: Dims)
    requires
        inner.forwards(pos),
        inner.parent.forwards(inner.in_parent(pos)),
    ensures
        fits_i32(pos.x + inner.rel_pos.x + inner.parent.rel_pos.x),
        fits_i32(pos.y + inner.rel_pos.y + inner.parent.rel_pos.y),
        inner.landing(pos) == inner.parent.parent.landing(
            Pos {
                x: (pos.x + inner.rel_pos.x + inner.parent.rel_pos.x) as i32,
                y: (pos.y + inner.rel_pos.y + inner.parent.rel_pos.y) as i32,
            },
        ),
{
}

} // verus!
