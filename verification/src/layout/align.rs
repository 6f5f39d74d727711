//! Positions given as an alignment within the target.

use super::axis::{in_i32, Axis};
use super::pos::half;
use super::sized::{KnownHeight, KnownWidth};
use super::{Dims, Pos};
use crate::canvas::{lemma_same_shape, painted, same_shape, CanvasLike};
use crate::drawable::Drawable;
use crate::style::Style;
use vstd::prelude::*;

verus! {

/// Where an item lies along one axis of its container.
#[derive(Debug, Clone, Copy, PartialEq, Eq, Structural)]
pub enum Align {
    /// At the start of the container.
    Start,
    /// In the middle of the container.
    Center,
    /// At the end of the container.
    End,
}

/// The coordinate is 0 at the start, what the item leaves at the end,
/// and half of that, rounded towards zero, in the middle.
impl Axis for Align {
    open spec fn defined(&self, item: i32, container: i32) -> bool {
        *self == Align::Start || in_i32(container - item)
    }

    open spec fn spec_calc(&self, item: i32, container: i32) -> int {
        match *self {
            Align::Start => 0,
            Align::Center => half(container - item),
            Align::End => container - item,
        }
    }

    fn calc(&self, item: i32, container: i32) -> (at: i32) {
        match self {
            Align::Start => 0,
            Align::Center => (container - item) / 2,
            Align::End => container - item,
        }
    }
}

impl Align {
    /// The coordinate of an item `item` long in a container `container`
    /// long, or `None` where a number on the way to it is no value of `i32`.
    pub fn checked_calc(&self, item: i32, container: i32) -> (at: Option<i32>)
        ensures
            at == (if self.defined(item, container) {
                Some(self.spec_calc(item, container) as i32)
            } else {
                None
            }),
    {
        match self {
            Align::Start => Some(0),
            _ => match container.checked_sub(item) {
                Some(_) => Some(self.calc(item, container)),
                None => None,
            },
        }
    }
}

impl Pos<Align, Align> {
    /// Whether both coordinates of an item of extent `item` in a container
    /// of extent `container` are values of `i32`.
    pub open spec fn both_defined(&self, item: Dims, container: Dims) -> bool {
        self.x.defined(item.x, container.x) && self.y.defined(item.y, container.y)
    }

    /// The position of an item of extent `item` in a container of extent `container`.
    pub open spec fn spec_calc_both(&self, item: Dims, container: Dims) -> Dims {
        Pos {
            x: self.x.spec_calc(item.x, container.x) as i32,
            y: self.y.spec_calc(item.y, container.y) as i32,
        }
    }

    /// The position of an item of extent `item` in a container of extent
    /// `container`, or `None` where a number on the way to it is no value of `i32`.
    pub fn checked_calc_both(&self, item: Dims, container: Dims) -> (at: Option<Dims>)
        ensures
            at == (if self.both_defined(item, container) {
                Some(self.spec_calc_both(item, container))
            } else {
                None
            }),
    {
        match (self.x.checked_calc(item.x, container.x), self.y.checked_calc(item.y, container.y)) {
            (Some(x), Some(y)) => Some(Pos::new(x, y)),
            _ => None,
        }
    }
}

impl<X: Axis, Y: Axis> Pos<X, Y> {
    /// The position of an item of extent `item` in a container of extent
    /// `container`, each coordinate from its own axis.
    pub fn calc_both(self, item: Dims, container: Dims) -> (at: Dims)
        requires
            self.x.defined(item.x, container.x),
            self.y.defined(item.y, container.y),
        ensures
            at.x == self.x.spec_calc(item.x, container.x),
            at.y == self.y.spec_calc(item.y, container.y),
    {
        Pos::new(self.x.calc(item.x, container.x), self.y.calc(item.y, container.y))
    }
}

/// Content that is placed along the horizontal axis by an alignment.
#[derive(Clone)]
pub struct AlignedOnX<T>(pub T);

impl<D: Drawable + KnownWidth> AlignedOnX<D> {
    /// The position that the content is drawn at on a target of extent `size`.
    pub open spec fn place(&self, pos: Pos<Align, i32>, size: Dims) -> Dims {
        Pos { x: pos.x.spec_calc(self.0.spec_w(), size.x) as i32, y: pos.y }
    }

    /// Draws the content in row `pos.y`, at the column that the alignment
    /// gives for its width in the width of `frame`.
    pub fn draw<F: CanvasLike>(&self, pos: Pos<Align, i32>, frame: &mut F)
        requires
            pos.x.defined(self.0.spec_w(), (*old(frame)).spec_size().x),
        ensures
            (*final(frame)).cells() == painted(
                &*old(frame),
                (*old(frame)).cells(),
                self.0.writes(
                    self.place(pos, (*old(frame)).spec_size()),
                    (*old(frame)).spec_size(),
                ),
            ),
            same_shape(&*final(frame), &*old(frame)),
    {
        let x = pos.x.calc(self.0.w(), frame.size().x);
        self.0.draw(Pos::new(x, pos.y), frame)
    }

    /// Draws the content in the given style, placed as `draw` places it.
    pub fn draw_styled<F: CanvasLike>(&self, pos: Pos<Align, i32>, frame: &mut F, style: Style)
        requires
            pos.x.defined(self.0.spec_w(), (*old(frame)).spec_size().x),
        ensures
            (*final(frame)).cells() == painted(
                &*old(frame),
                (*old(frame)).cells(),
                self.0.styled_writes(
                    self.place(pos, (*old(frame)).spec_size()),
                    (*old(frame)).spec_size(),
                    style,
                ),
            ),
            same_shape(&*final(frame), &*old(frame)),
    {
        let x = pos.x.calc(self.0.w(), frame.size().x);
        self.0.draw_styled(Pos::new(x, pos.y), frame, style)
    }

    /// Draws the content as `draw` does, and says that it did; or leaves
    /// `frame` as it is, and says so, where the position that the alignment
    /// gives is no value of `i32`.
    pub fn try_draw<F: CanvasLike>(&self, pos: Pos<Align, i32>, frame: &mut F) -> (drawn: bool)
        ensures
            drawn == (pos.x.defined(self.0.spec_w(), (*old(frame)).spec_size().x)),
            drawn ==> (*final(frame)).cells() == painted(
                &*old(frame),
                (*old(frame)).cells(),
                self.0.writes(
                    self.place(pos, (*old(frame)).spec_size()),
                    (*old(frame)).spec_size(),
                ),
            ),
            !drawn ==> *final(frame) == *old(frame),
            same_shape(&*final(frame), &*old(frame)),
    {
        proof {
            lemma_same_shape(&*frame, &*frame);
        }
        if pos.x.checked_calc(self.0.w(), frame.size().x).is_some() {
            self.draw(pos, frame);
            true
        } else {
            false
        }
    }

    /// Draws the content in the given style as `draw_styled` does, and says
    /// that it did; or leaves `frame` as it is, and says so, where the
    /// position that the alignment gives is no value of `i32`.
    pub fn try_draw_styled<F: CanvasLike>(
        &self,
        pos: Pos<Align, i32>,
        frame: &mut F,
        style: Style,
    ) -> (drawn: bool)
        ensures
            drawn == (pos.x.defined(self.0.spec_w(), (*old(frame)).spec_size().x)),
            drawn ==> (*final(frame)).cells() == painted(
                &*old(frame),
                (*old(frame)).cells(),
                self.0.styled_writes(
                    self.place(pos, (*old(frame)).spec_size()),
                    (*old(frame)).spec_size(),
                    style,
                ),
            ),
            !drawn ==> *final(frame) == *old(frame),
            same_shape(&*final(frame), &*old(frame)),
    {
        proof {
            lemma_same_shape(&*frame, &*frame);
        }
        if pos.x.checked_calc(self.0.w(), frame.size().x).is_some() {
            self.draw_styled(pos, frame, style);
            true
        } else {
            false
        }
    }
}

/// Content that is placed along the vertical axis by an alignment.
#[derive(Clone)]
pub struct AlignedOnY<T>(pub T);

impl<D: Drawable + KnownHeight> AlignedOnY<D> {
    /// The position that the content is drawn at on a target of extent `size`.
    pub open spec fn place(&self, pos: Pos<i32, Align>, size: Dims) -> Dims {
        Pos { x: pos.x, y: pos.y.spec_calc(self.0.spec_h(), size.y) as i32 }
    }

    /// Draws the content in column `pos.x`, at the row that the alignment
    /// gives for its height in the height of `frame`.
    pub fn draw<F: CanvasLike>(&self, pos: Pos<i32, Align>, frame: &mut F)
        requires
            pos.y.defined(self.0.spec_h(), (*old(frame)).spec_size().y),
        ensures
            (*final(frame)).cells() == painted(
                &*old(frame),
                (*old(frame)).cells(),
                self.0.writes(
                    self.place(pos, (*old(frame)).spec_size()),
                    (*old(frame)).spec_size(),
                ),
            ),
            same_shape(&*final(frame), &*old(frame)),
    {
        let y = pos.y.calc(self.0.h(), frame.size().y);
        self.0.draw(Pos::new(pos.x, y), frame)
    }

    /// Draws the content in the given style, placed as `draw` places it.
    pub fn draw_styled<F: CanvasLike>(&self, pos: Pos<i32, Align>, frame: &mut F, style: Style)
        requires
            pos.y.defined(self.0.spec_h(), (*old(frame)).spec_size().y),
        ensures
            (*final(frame)).cells() == painted(
                &*old(frame),
                (*old(frame)).cells(),
                self.0.styled_writes(
                    self.place(pos, (*old(frame)).spec_size()),
                    (*old(frame)).spec_size(),
                    style,
                ),
            ),
            same_shape(&*final(frame), &*old(frame)),
    {
        let y = pos.y.calc(self.0.h(), frame.size().y);
        self.0.draw_styled(Pos::new(pos.x, y), frame, style)
    }

    /// Draws the content as `draw` does, and says that it did; or leaves
    /// `frame` as it is, and says so, where the position that the alignment
    /// gives is no value of `i32`.
    pub fn try_draw<F: CanvasLike>(&self, pos: Pos<i32, Align>, frame: &mut F) -> (drawn: bool)
        ensures
            drawn == (pos.y.defined(self.0.spec_h(), (*old(frame)).spec_size().y)),
            drawn ==> (*final(frame)).cells() == painted(
                &*old(frame),
                (*old(frame)).cells(),
                self.0.writes(
                    self.place(pos, (*old(frame)).spec_size()),
                    (*old(frame)).spec_size(),
                ),
            ),
            !drawn ==> *final(frame) == *old(frame),
            same_shape(&*final(frame), &*old(frame)),
    {
        proof {
            lemma_same_shape(&*frame, &*frame);
        }
        if pos.y.checked_calc(self.0.h(), frame.size().y).is_some() {
            self.draw(pos, frame);
            true
        } else {
            false
        }
    }

    /// Draws the content in the given style as `draw_styled` does, and says
    /// that it did; or leaves `frame` as it is, and says so, where the
    /// position that the alignment gives is no value of `i32`.
    pub fn try_draw_styled<F: CanvasLike>(
        &self,
        pos: Pos<i32, Align>,
        frame: &mut F,
        style: Style,
    ) -> (drawn: bool)
        ensures
            drawn == (pos.y.defined(self.0.spec_h(), (*old(frame)).spec_size().y)),
            drawn ==> (*final(frame)).cells() == painted(
                &*old(frame),
                (*old(frame)).cells(),
                self.0.styled_writes(
                    self.place(pos, (*old(frame)).spec_size()),
                    (*old(frame)).spec_size(),
                    style,
                ),
            ),
            !drawn ==> *final(frame) == *old(frame),
            same_shape(&*final(frame), &*old(frame)),
    {
        proof {
            lemma_same_shape(&*frame, &*frame);
        }
        if pos.y.checked_calc(self.0.h(), frame.size().y).is_some() {
            self.draw_styled(pos, frame, style);
            true
        } else {
            false
        }
    }
}

/// Content that is placed along both axes by alignments.
#[derive(Clone)]
pub struct Aligned<T>(pub T);

impl<D: Drawable + KnownWidth + KnownHeight> Aligned<D> {
    /// The position that the content is drawn at on a target of extent `size`.
    pub open spec fn place(&self, pos: Pos<Align, Align>, size: Dims) -> Dims {
        Pos {
            x: pos.x.spec_calc(self.0.spec_w(), size.x) as i32,
            y: pos.y.spec_calc(self.0.spec_h(), size.y) as i32,
        }
    }

    /// Draws the content where the two alignments place its extent in the
    /// extent of `frame`.
    pub fn draw<F: CanvasLike>(&self, pos: Pos<Align, Align>, frame: &mut F)
        requires
            pos.x.defined(self.0.spec_w(), (*old(frame)).spec_size().x),
            pos.y.defined(self.0.spec_h(), (*old(frame)).spec_size().y),
        ensures
            (*final(frame)).cells() == painted(
                &*old(frame),
                (*old(frame)).cells(),
                self.0.writes(
                    self.place(pos, (*old(frame)).spec_size()),
                    (*old(frame)).spec_size(),
                ),
            ),
            same_shape(&*final(frame), &*old(frame)),
    {
        let at = pos.calc_both(Pos::new(self.0.w(), self.0.h()), frame.size());
        self.0.draw(at, frame)
    }

    /// Draws the content in the given style, placed as `draw` places it.
    pub fn draw_styled<F: CanvasLike>(&self, pos: Pos<Align, Align>, frame: &mut F, style: Style)
        requires
            pos.x.defined(self.0.spec_w(), (*old(frame)).spec_size().x),
            pos.y.defined(self.0.spec_h(), (*old(frame)).spec_size().y),
        ensures
            (*final(frame)).cells() == painted(
                &*old(frame),
                (*old(frame)).cells(),
                self.0.styled_writes(
                    self.place(pos, (*old(frame)).spec_size()),
                    (*old(frame)).spec_size(),
                    style,
                ),
            ),
            same_shape(&*final(frame), &*old(frame)),
    {
        let at = pos.calc_both(Pos::new(self.0.w(), self.0.h()), frame.size());
        self.0.draw_styled(at, frame, style)
    }

    /// Draws the content as `draw` does, and says that it did; or leaves
    /// `frame` as it is, and says so, where the position that the alignment
    /// gives is no value of `i32`.
    pub fn try_draw<F: CanvasLike>(&self, pos: Pos<Align, Align>, frame: &mut F) -> (drawn: bool)
        ensures
            drawn == (pos.both_defined(
                Pos { x: self.0.spec_w(), y: self.0.spec_h() },
                (*old(frame)).spec_size(),
            )),
            drawn ==> (*final(frame)).cells() == painted(
                &*old(frame),
                (*old(frame)).cells(),
                self.0.writes(
                    self.place(pos, (*old(frame)).spec_size()),
                    (*old(frame)).spec_size(),
                ),
            ),
            !drawn ==> *final(frame) == *old(frame),
            same_shape(&*final(frame), &*old(frame)),
    {
        proof {
            lemma_same_shape(&*frame, &*frame);
        }
        if pos.checked_calc_both(Pos::new(self.0.w(), self.0.h()), frame.size()).is_some() {
            self.draw(pos, frame);
            true
        } else {
            false
        }
    }

    /// Draws the content in the given style as `draw_styled` does, and says
    /// that it did; or leaves `frame` as it is, and says so, where the
    /// position that the alignment gives is no value of `i32`.
    pub fn try_draw_styled<F: CanvasLike>(
        &self,
        pos: Pos<Align, Align>,
        frame: &mut F,
        style: Style,
    ) -> (drawn: bool)
        ensures
            drawn == (pos.both_defined(
                Pos { x: self.0.spec_w(), y: self.0.spec_h() },
                (*old(frame)).spec_size(),
            )),
            drawn ==> (*final(frame)).cells() == painted(
                &*old(frame),
                (*old(frame)).cells(),
                self.0.styled_writes(
                    self.place(pos, (*old(frame)).spec_size()),
                    (*old(frame)).spec_size(),
                    style,
                ),
            ),
            !drawn ==> *final(frame) == *old(frame),
            same_shape(&*final(frame), &*old(frame)),
    {
        proof {
            lemma_same_shape(&*frame, &*frame);
        }
        if pos.checked_calc_both(Pos::new(self.0.w(), self.0.h()), frame.size()).is_some() {
            self.draw_styled(pos, frame, style);
            true
        } else {
            false
        }
    }
}

} // verus!
