//! One coordinate of a position, given outright or worked out from extents.

use vstd::prelude::*;

verus! {

/// Something that gives a coordinate along one axis, for an item of a known
/// extent in a container of a known extent.
pub trait Axis {
    /// Whether the coordinate, and each number on the way to it, is a value of `i32`.
    spec fn defined(&self, item: i32, container: i32) -> bool;

    /// The coordinate.
    spec fn spec_calc(&self, item: i32, container: i32) -> int;

    /// The coordinate of an item `item` long in a container `container` long.
    fn calc(&self, item: i32, container: i32) -> (at: i32)
        requires
            self.defined(item, container),
        ensures
            at == self.spec_calc(item, container),
    ;
}

/// Whether `v` is a value of `i32`.
pub open spec fn in_i32(v: int) -> bool {
    i32::MIN <= v <= i32::MAX
}

impl Axis for i32 {
    open spec fn defined(&self, item: i32, container: i32) -> bool {
        true
    }

    open spec fn spec_calc(&self, item: i32, container: i32) -> int {
        *self as int
    }

    fn calc(&self, item: i32, container: i32) -> (at: i32) {
        *self
    }
}

impl Axis for u32 {
    open spec fn defined(&self, item: i32, container: i32) -> bool {
        in_i32(*self as int)
    }

    open spec fn spec_calc(&self, item: i32, container: i32) -> int {
        *self as int
    }

    fn calc(&self, item: i32, container: i32) -> (at: i32) {
        *self as i32
    }
}

impl Axis for i64 {
    open spec fn defined(&self, item: i32, container: i32) -> bool {
        in_i32(*self as int)
    }

    open spec fn spec_calc(&self, item: i32, container: i32) -> int {
        *self as int
    }

    fn calc(&self, item: i32, container: i32) -> (at: i32) {
        *self as i32
    }
}

impl Axis for u64 {
    open spec fn defined(&self, item: i32, container: i32) -> bool {
        in_i32(*self as int)
    }

    open spec fn spec_calc(&self, item: i32, container: i32) -> int {
        *self as int
    }

    fn calc(&self, item: i32, container: i32) -> (at: i32) {
        *self as i32
    }
}

impl Axis for i128 {
    open spec fn defined(&self, item: i32, container: i32) -> bool {
        in_i32(*self as int)
    }

    open spec fn spec_calc(&self, item: i32, container: i32) -> int {
        *self as int
    }

    fn calc(&self, item: i32, container: i32) -> (at: i32) {
        *self as i32
    }
}

impl Axis for u128 {
    open spec fn defined(&self, item: i32, container: i32) -> bool {
        in_i32(*self as int)
    }

    open spec fn spec_calc(&self, item: i32, container: i32) -> int {
        *self as int
    }

    fn calc(&self, item: i32, container: i32) -> (at: i32) {
        *self as i32
    }
}

impl Axis for i16 {
    open spec fn defined(&self, item: i32, container: i32) -> bool {
        true
    }

    open spec fn spec_calc(&self, item: i32, container: i32) -> int {
        *self as int
    }

    fn calc(&self, item: i32, container: i32) -> (at: i32) {
        *self as i32
    }
}

impl Axis for u16 {
    open spec fn defined(&self, item: i32, container: i32) -> bool {
        true
    }

    open spec fn spec_calc(&self, item: i32, container: i32) -> int {
        *self as int
    }

    fn calc(&self, item: i32, container: i32) -> (at: i32) {
        *self as i32
    }
}

impl Axis for i8 {
    open spec fn defined(&self, item: i32, container: i32) -> bool {
        true
    }

    open spec fn spec_calc(&self, item: i32, container: i32) -> int {
        *self as int
    }

    fn calc(&self, item: i32, container: i32) -> (at: i32) {
        *self as i32
    }
}

impl Axis for u8 {
    open spec fn defined(&self, item: i32, container: i32) -> bool {
        true
    }

    open spec fn spec_calc(&self, item: i32, container: i32) -> int {
        *self as int
    }

    fn calc(&self, item: i32, container: i32) -> (at: i32) {
        *self as i32
    }
}

impl Axis for usize {
    open spec fn defined(&self, item: i32, container: i32) -> bool {
        in_i32(*self as int)
    }

    open spec fn spec_calc(&self, item: i32, container: i32) -> int {
        *self as int
    }

    fn calc(&self, item: i32, container: i32) -> (at: i32) {
        *self as i32
    }
}

impl Axis for isize {
    open spec fn defined(&self, item: i32, container: i32) -> bool {
        in_i32(*self as int)
    }

    open spec fn spec_calc(&self, item: i32, container: i32) -> int {
        *self as int
    }

    fn calc(&self, item: i32, container: i32) -> (at: i32) {
        *self as i32
    }
}

} // verus!
