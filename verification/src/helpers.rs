//! Small helpers for sizes and centering.

use crate::frame::fits_i32;
use crate::layout::pos::half;
use crate::layout::{Dims, Pos};
use vstd::prelude::*;

verus! {

/// The extent to work with when the terminal does not tell its own.
pub open spec fn default_term_size() -> Dims {
    Pos { x: 80, y: 24 }
}

/// The extent of the terminal, from the answer to a query for it: the
/// columns and rows of the answer, or 80 by 24 where the query failed.
pub fn term_size(answer: Option<(u16, u16)>) -> (size: Dims)
    ensures
        size == (match answer {
            Some((w, h)) => Pos { x: w as i32, y: h as i32 },
            None => default_term_size(),
        }),
        size.x >= 0,
        size.y >= 0,
{
    match answer {
        Some((w, h)) => Pos::new(w as i32, h as i32),
        None => Pos::new(80, 24),
    }
}

/// The coordinate at which an item lies in the middle of a container.
pub open spec fn spec_line_center(container_start: int, container_end: int, item_width: int) -> int {
    half(container_end - container_start - item_width) + container_start
}

/// Whether the numbers on the way to `spec_line_center` are values of `i32`.
pub open spec fn line_center_defined(container_start: int, container_end: int, item_width: int) -> bool {
    &&& fits_i32(container_end - container_start)
    &&& fits_i32(container_end - container_start - item_width)
    &&& fits_i32(spec_line_center(container_start, container_end, item_width))
}

/// The coordinate at which an item `item_width` long lies in the middle
/// of the container from `container_start` to `container_end`: the start of
/// the container plus half of what the item leaves, rounded towards zero.
pub fn line_center(container_start: i32, container_end: i32, item_width: i32) -> (at: i32)
    requires
        line_center_defined(container_start as int, container_end as int, item_width as int),
    ensures
        at == spec_line_center(container_start as int, container_end as int, item_width as int),
{
    (container_end - container_start - item_width) / 2 + container_start
}

/// The position at which a box of extent `box_dims` lies in the middle of
/// the container from `container_start` to `container_end`, on each axis as
/// `line_center` says.
pub fn box_center(container_start: Dims, container_end: Dims, box_dims: Dims) -> (at: Dims)
    requires
        line_center_defined(container_start.x as int, container_end.x as int, box_dims.x as int),
        line_center_defined(container_start.y as int, container_end.y as int, box_dims.y as int),
    ensures
        at.x == spec_line_center(container_start.x as int, container_end.x as int, box_dims.x as int),
        at.y == spec_line_center(container_start.y as int, container_end.y as int, box_dims.y as int),
{
    Pos::new(
        line_center(container_start.x, container_end.x, box_dims.x),
        line_center(container_start.y, container_end.y, box_dims.y),
    )
}

/// The position at which a box of extent `box_dims` lies in the middle of
/// a screen of extent `screen`.
pub fn box_center_screen(screen: Dims, box_dims: Dims) -> (at: Dims)
    requires
        line_center_defined(0, screen.x as int, box_dims.x as int),
        line_center_defined(0, screen.y as int, box_dims.y as int),
    ensures
        at.x == spec_line_center(0, screen.x as int, box_dims.x as int),
        at.y == spec_line_center(0, screen.y as int, box_dims.y as int),
{
    box_center(Pos::new(0, 0), screen, box_dims)
}

} // verus!
