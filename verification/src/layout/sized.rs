//! Content whose extent is known before it is drawn.

use crate::canvas::{Canvas, CanvasLike};
use crate::frame::Frame;
use crate::layout::{Dims, Pos};
use crate::renderer::RenderSpace;
use crate::width::{char_layout_columns, layout_width, str_columns, unicode_str_width};
use vstd::prelude::*;

verus! {

/// Something that knows how many columns it takes.
pub trait KnownWidth {
    /// The number of columns.
    spec fn spec_w(&self) -> i32;

    /// The number of columns.
    fn w(&self) -> (w: i32)
        ensures
            w == self.spec_w(),
    ;
}

/// Something that knows how many rows it takes.
pub trait KnownHeight {
    /// The number of rows.
    spec fn spec_h(&self) -> i32;

    /// The number of rows.
    fn h(&self) -> (h: i32)
        ensures
            h == self.spec_h(),
    ;
}

/// Something that knows both its width and its height.
pub trait FullyKnown: KnownWidth + KnownHeight {
    /// The width and the height.
    fn dims(&self) -> (dims: Dims)
        ensures
            dims == (Pos { x: self.spec_w(), y: self.spec_h() }),
    ;
}

impl<T: KnownWidth + KnownHeight + ?Sized> FullyKnown for T {
    fn dims(&self) -> (dims: Dims) {
        Pos::new(self.w(), self.h())
    }
}

/// A string is as wide as it is displayed as a whole.
impl KnownWidth for str {
    open spec fn spec_w(&self) -> i32 {
        unicode_str_width(self@) as i32
    }

    fn w(&self) -> (w: i32) {
        str_columns(self) as i32
    }
}

impl KnownWidth for &str {
    open spec fn spec_w(&self) -> i32 {
        unicode_str_width(self@) as i32
    }

    fn w(&self) -> (w: i32) {
        str_columns(*self) as i32
    }
}

impl KnownWidth for String {
    open spec fn spec_w(&self) -> i32 {
        unicode_str_width(self@) as i32
    }

    fn w(&self) -> (w: i32) {
        str_columns(self.as_str()) as i32
    }
}

/// A character is as wide as it is displayed; a control character has no width.
impl KnownWidth for char {
    open spec fn spec_w(&self) -> i32 {
        layout_width(*self) as i32
    }

    fn w(&self) -> (w: i32) {
        char_layout_columns(*self) as i32
    }
}

impl KnownHeight for str {
    open spec fn spec_h(&self) -> i32 {
        1
    }

    fn h(&self) -> (h: i32) {
        1
    }
}

impl KnownHeight for &str {
    open spec fn spec_h(&self) -> i32 {
        1
    }

    fn h(&self) -> (h: i32) {
        1
    }
}

impl KnownHeight for String {
    open spec fn spec_h(&self) -> i32 {
        1
    }

    fn h(&self) -> (h: i32) {
        1
    }
}

impl KnownHeight for char {
    open spec fn spec_h(&self) -> i32 {
        1
    }

    fn h(&self) -> (h: i32) {
        1
    }
}

/// A target is as wide as its extent says.
impl KnownWidth for Canvas {
    open spec fn spec_w(&self) -> i32 {
        self.spec_size().x
    }

    fn w(&self) -> (w: i32) {
        CanvasLike::size(self).x
    }
}

impl KnownHeight for Canvas {
    open spec fn spec_h(&self) -> i32 {
        self.spec_size().y
    }

    fn h(&self) -> (h: i32) {
        CanvasLike::size(self).y
    }
}

impl<P: CanvasLike> KnownWidth for Frame<P> {
    open spec fn spec_w(&self) -> i32 {
        self.size.x
    }

    fn w(&self) -> (w: i32) {
        self.size.x
    }
}

impl<P: CanvasLike> KnownHeight for Frame<P> {
    open spec fn spec_h(&self) -> i32 {
        self.size.y
    }

    fn h(&self) -> (h: i32) {
        self.size.y
    }
}

impl KnownWidth for RenderSpace {
    open spec fn spec_w(&self) -> i32 {
        self.spec_size().x
    }

    fn w(&self) -> (w: i32) {
        self.size().x
    }
}

impl KnownHeight for RenderSpace {
    open spec fn spec_h(&self) -> i32 {
        self.spec_size().y
    }

    fn h(&self) -> (h: i32) {
        self.size().y
    }
}

} // verus!
