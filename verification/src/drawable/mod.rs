//! Content that can draw itself on a target.

pub mod core_impl;
pub mod dbox;
pub mod misc;
pub mod multiline;
pub mod styled;

use crate::canvas::{painted, same_shape, CanvasLike, CellWrite};
use crate::layout::Dims;
use crate::style::Style;
use vstd::prelude::*;

verus! {

/// Content that can draw itself at a position of a target.
///
/// To draw is to hand the target a sequence of cells, one `set` for each,
/// and nothing else: the two spec functions say which cells, in which order.
pub trait Drawable {
    /// The cells that `draw` hands to a target of extent `size`, in order.
    spec fn writes(&self, pos: Dims, size: Dims) -> Seq<CellWrite>;

    /// The cells that `draw_styled` hands to a target of extent `size`, in order.
    spec fn styled_writes(&self, pos: Dims, size: Dims, style: Style) -> Seq<CellWrite>;

    /// Draws the content at `pos` of `frame`, in the content's own style.
    fn draw<F: CanvasLike>(&self, pos: Dims, frame: &mut F)
        ensures
            (*final(frame)).cells() == painted(
                &*old(frame),
                (*old(frame)).cells(),
                self.writes(pos, (*old(frame)).spec_size()),
            ),
            same_shape(&*final(frame), &*old(frame)),
    ;

    /// Draws the content at `pos` of `frame` in the given style.
    fn draw_styled<F: CanvasLike>(&self, pos: Dims, frame: &mut F, style: Style)
        ensures
            (*final(frame)).cells() == painted(
                &*old(frame),
                (*old(frame)).cells(),
                self.styled_writes(pos, (*old(frame)).spec_size(), style),
            ),
            same_shape(&*final(frame), &*old(frame)),
    ;
}

} // verus!
