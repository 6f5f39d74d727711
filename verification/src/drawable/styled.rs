//! Content together with the style to draw it in.

use super::Drawable;
use crate::canvas::{CanvasLike, CellWrite};
use crate::layout::Dims;
use crate::style::Style;
use vstd::prelude::*;

verus! {

/// A style with content: the content is drawn in that style, whatever its own.
impl<D: Drawable> Drawable for (Style, D) {
    open spec fn writes(&self, pos: Dims, size: Dims) -> Seq<CellWrite> {
        self.1.styled_writes(pos, size, self.0)
    }

    open spec fn styled_writes(&self, pos: Dims, size: Dims, style: Style) -> Seq<CellWrite> {
        self.1.styled_writes(pos, size, style)
    }

    fn draw<F: CanvasLike>(&self, pos: Dims, frame: &mut F) {
        self.1.draw_styled(pos, frame, self.0)
    }

    fn draw_styled<F: CanvasLike>(&self, pos: Dims, frame: &mut F, style: Style) {
        self.1.draw_styled(pos, frame, style)
    }
}

/// Content that can be paired with a style.
pub trait Stylable: Drawable {
    /// The content with the style to draw it in.
    fn styled(&self, style: Style) -> (pair: (Style, &Self))
        ensures
            pair.0 == style,
            pair.1 == self,
    ;
}

impl<D: Drawable + ?Sized> Stylable for D {
    fn styled(&self, style: Style) -> (pair: (Style, &Self)) {
        (style, self)
    }
}

} // verus!
