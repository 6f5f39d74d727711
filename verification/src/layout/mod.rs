//! Positions, sizes and alignment.

pub mod align;
pub mod axis;
pub mod ops;
pub mod pos;
pub mod sized;
pub mod strings;

pub use pos::{Dims, Pos};
