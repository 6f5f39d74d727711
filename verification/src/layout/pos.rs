//! A pair of coordinates.

use vstd::prelude::*;
use vstd::std_specs::convert::FromSpec;

verus! {

/// A position or a size: a value for each of the two axes.
#[derive(Debug, Clone, Copy, PartialEq, Eq, Structural)]
pub struct Pos<X, Y> {
    /// The horizontal part: a column or a width.
    pub x: X,
    /// The vertical part: a row or a height.
    pub y: Y,
}

/// A position or a size on the character grid.
pub type Dims = Pos<i32, i32>;

impl<X, Y> Pos<X, Y> {
    pub fn new(x: X, y: Y) -> (p: Self)
        ensures
            p.x == x,
            p.y == y,
    {
        Self { x, y }
    }

    /// The same pair with another horizontal part.
    pub fn with_x<X2>(self, x: X2) -> (p: Pos<X2, Y>)
        ensures
            p.x == x,
            p.y == self.y,
    {
        Pos { x, y: self.y }
    }

    /// The same pair with another vertical part.
    pub fn with_y<Y2>(self, y: Y2) -> (p: Pos<X, Y2>)
        ensures
            p.x == self.x,
            p.y == y,
    {
        Pos { x: self.x, y }
    }

    /// The pair with its two parts exchanged.
    pub fn transmute(self) -> (p: Pos<Y, X>)
        ensures
            p.x == self.y,
            p.y == self.x,
    {
        Pos { x: self.y, y: self.x }
    }
}

impl<X> Pos<X, ()> {
    /// A pair that only has a horizontal part.
    pub fn new_x(x: X) -> (p: Pos<X, ()>)
        ensures
            p.x == x,
    {
        Pos { x, y: () }
    }
}

impl<Y> Pos<(), Y> {
    /// A pair that only has a vertical part.
    pub fn new_y(y: Y) -> (p: Pos<(), Y>)
        ensures
            p.y == y,
    {
        Pos { x: (), y }
    }
}

impl<A: Copy> Pos<A, A> {
    /// The pair that has `a` on both axes.
    pub fn sq(a: A) -> (p: Self)
        ensures
            p.x == a,
            p.y == a,
    {
        Pos { x: a, y: a }
    }
}

impl<X: Copy, Y> Pos<X, Y> {
    /// The horizontal part.
    pub fn x(&self) -> (x: X)
        ensures
            x == self.x,
    {
        self.x
    }
}

impl<X, Y: Copy> Pos<X, Y> {
    /// The vertical part.
    pub fn y(&self) -> (y: Y)
        ensures
            y == self.y,
    {
        self.y
    }
}

impl<X, Y> Pos<X, Y> {
    /// The pair with each part converted to another type.
    pub fn to<X2: From<X>, Y2: From<Y>>(self) -> (p: Pos<X2, Y2>)
        ensures
            X2::obeys_from_spec() ==> p.x == X2::from_spec(self.x),
            Y2::obeys_from_spec() ==> p.y == Y2::from_spec(self.y),
    {
        Pos { x: X2::from(self.x), y: Y2::from(self.y) }
    }
}

impl<X, Y> From<(X, Y)> for Pos<X, Y> {
    fn from(pair: (X, Y)) -> (p: Self) {
        Pos { x: pair.0, y: pair.1 }
    }
}

impl<X, Y> vstd::std_specs::convert::FromSpecImpl<(X, Y)> for Pos<X, Y> {
    open spec fn obeys_from_spec() -> bool {
        true
    }

    open spec fn from_spec(pair: (X, Y)) -> Self {
        Pos { x: pair.0, y: pair.1 }
    }
}

/// The quotient of `a` by 2, rounded towards zero.
pub open spec fn half(a: int) -> int {
    if a >= 0 {
        a / 2
    } else {
        -((-a) / 2)
    }
}

} // verus!
