//! Arithmetic on pairs, axis by axis.
//!
//! Each operation is that of the parts, with the limits of the parts: two
//! pairs of `i32` can be added where neither sum overflows.

use super::pos::Pos;
use core::ops::{Add, Div, Mul, Sub};
use vstd::prelude::*;
use vstd::std_specs::ops::{
    AddSpec, AddSpecImpl, DivSpec, DivSpecImpl, MulSpec, MulSpecImpl, SubSpec, SubSpecImpl,
};

verus! {

/// A pair + a pair: each part with the part of the same axis.
impl<X: Add, Y: Add> Add for Pos<X, Y> {
    type Output = Pos<X::Output, Y::Output>;

    fn add(self, rhs: Self) -> (sum: Self::Output) {
        Pos { x: self.x + rhs.x, y: self.y + rhs.y }
    }
}

impl<X: Add, Y: Add> AddSpecImpl for Pos<X, Y> {
    open spec fn obeys_add_spec() -> bool {
        X::obeys_add_spec() && Y::obeys_add_spec()
    }

    open spec fn add_req(self, rhs: Self) -> bool {
        self.x.add_req(rhs.x) && self.y.add_req(rhs.y)
    }

    open spec fn add_spec(self, rhs: Self) -> Pos<X::Output, Y::Output> {
        Pos { x: self.x.add_spec(rhs.x), y: self.y.add_spec(rhs.y) }
    }
}

/// A pair + a single value: each part with that value.
impl<A: Add + Copy> Add<A> for Pos<A, A> {
    type Output = Pos<A::Output, A::Output>;

    fn add(self, rhs: A) -> (sum: Self::Output) {
        Pos { x: self.x + rhs, y: self.y + rhs }
    }
}

impl<A: Add + Copy> AddSpecImpl<A> for Pos<A, A> {
    open spec fn obeys_add_spec() -> bool {
        A::obeys_add_spec()
    }

    open spec fn add_req(self, rhs: A) -> bool {
        self.x.add_req(rhs) && self.y.add_req(rhs)
    }

    open spec fn add_spec(self, rhs: A) -> Pos<A::Output, A::Output> {
        Pos { x: self.x.add_spec(rhs), y: self.y.add_spec(rhs) }
    }
}

/// A pair - a pair: each part with the part of the same axis.
impl<X: Sub, Y: Sub> Sub for Pos<X, Y> {
    type Output = Pos<X::Output, Y::Output>;

    fn sub(self, rhs: Self) -> (difference: Self::Output) {
        Pos { x: self.x - rhs.x, y: self.y - rhs.y }
    }
}

impl<X: Sub, Y: Sub> SubSpecImpl for Pos<X, Y> {
    open spec fn obeys_sub_spec() -> bool {
        X::obeys_sub_spec() && Y::obeys_sub_spec()
    }

    open spec fn sub_req(self, rhs: Self) -> bool {
        self.x.sub_req(rhs.x) && self.y.sub_req(rhs.y)
    }

    open spec fn sub_spec(self, rhs: Self) -> Pos<X::Output, Y::Output> {
        Pos { x: self.x.sub_spec(rhs.x), y: self.y.sub_spec(rhs.y) }
    }
}

/// A pair - a single value: each part with that value.
impl<A: Sub + Copy> Sub<A> for Pos<A, A> {
    type Output = Pos<A::Output, A::Output>;

    fn sub(self, rhs: A) -> (difference: Self::Output) {
        Pos { x: self.x - rhs, y: self.y - rhs }
    }
}

impl<A: Sub + Copy> SubSpecImpl<A> for Pos<A, A> {
    open spec fn obeys_sub_spec() -> bool {
        A::obeys_sub_spec()
    }

    open spec fn sub_req(self, rhs: A) -> bool {
        self.x.sub_req(rhs) && self.y.sub_req(rhs)
    }

    open spec fn sub_spec(self, rhs: A) -> Pos<A::Output, A::Output> {
        Pos { x: self.x.sub_spec(rhs), y: self.y.sub_spec(rhs) }
    }
}

/// A pair * a pair: each part with the part of the same axis.
impl<X: Mul, Y: Mul> Mul for Pos<X, Y> {
    type Output = Pos<X::Output, Y::Output>;

    fn mul(self, rhs: Self) -> (product: Self::Output) {
        Pos { x: self.x * rhs.x, y: self.y * rhs.y }
    }
}

impl<X: Mul, Y: Mul> MulSpecImpl for Pos<X, Y> {
    open spec fn obeys_mul_spec() -> bool {
        X::obeys_mul_spec() && Y::obeys_mul_spec()
    }

    open spec fn mul_req(self, rhs: Self) -> bool {
        self.x.mul_req(rhs.x) && self.y.mul_req(rhs.y)
    }

    open spec fn mul_spec(self, rhs: Self) -> Pos<X::Output, Y::Output> {
        Pos { x: self.x.mul_spec(rhs.x), y: self.y.mul_spec(rhs.y) }
    }
}

/// A pair * a single value: each part with that value.
impl<A: Mul + Copy> Mul<A> for Pos<A, A> {
    type Output = Pos<A::Output, A::Output>;

    fn mul(self, rhs: A) -> (product: Self::Output) {
        Pos { x: self.x * rhs, y: self.y * rhs }
    }
}

impl<A: Mul + Copy> MulSpecImpl<A> for Pos<A, A> {
    open spec fn obeys_mul_spec() -> bool {
        A::obeys_mul_spec()
    }

    open spec fn mul_req(self, rhs: A) -> bool {
        self.x.mul_req(rhs) && self.y.mul_req(rhs)
    }

    open spec fn mul_spec(self, rhs: A) -> Pos<A::Output, A::Output> {
        Pos { x: self.x.mul_spec(rhs), y: self.y.mul_spec(rhs) }
    }
}

/// A pair / a pair: each part with the part of the same axis.
impl<X: Div, Y: Div> Div for Pos<X, Y> {
    type Output = Pos<X::Output, Y::Output>;

    fn div(self, rhs: Self) -> (quotient: Self::Output) {
        Pos { x: self.x / rhs.x, y: self.y / rhs.y }
    }
}

impl<X: Div, Y: Div> DivSpecImpl for Pos<X, Y> {
    open spec fn obeys_div_spec() -> bool {
        X::obeys_div_spec() && Y::obeys_div_spec()
    }

    open spec fn div_req(self, rhs: Self) -> bool {
        self.x.div_req(rhs.x) && self.y.div_req(rhs.y)
    }

    open spec fn div_spec(self, rhs: Self) -> Pos<X::Output, Y::Output> {
        Pos { x: self.x.div_spec(rhs.x), y: self.y.div_spec(rhs.y) }
    }
}

/// A pair / a single value: each part with that value.
impl<A: Div + Copy> Div<A> for Pos<A, A> {
    type Output = Pos<A::Output, A::Output>;

    fn div(self, rhs: A) -> (quotient: Self::Output) {
        Pos { x: self.x / rhs, y: self.y / rhs }
    }
}

impl<A: Div + Copy> DivSpecImpl<A> for Pos<A, A> {
    open spec fn obeys_div_spec() -> bool {
        A::obeys_div_spec()
    }

    open spec fn div_req(self, rhs: A) -> bool {
        self.x.div_req(rhs) && self.y.div_req(rhs)
    }

    open spec fn div_spec(self, rhs: A) -> Pos<A::Output, A::Output> {
        Pos { x: self.x.div_spec(rhs), y: self.y.div_spec(rhs) }
    }
}

} // verus!
