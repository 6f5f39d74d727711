//! A double-buffered renderer of styled character grids for the terminal.
//!
//! Content is drawn cell by cell on a hidden canvas, directly or through
//! frames that offset and clip. The renderer compares the hidden canvas with
//! the one that the terminal shows and says which terminal commands bring
//! the terminal up to date.

pub mod canvas;
pub mod cell;
pub mod drawable;
pub mod frame;
pub mod helpers;
pub mod input;
pub mod layout;
pub mod renderer;
pub mod style;
pub mod ui;
pub mod width;

pub use canvas::{Canvas, CanvasLike, CanvasLikeExt};
pub use cell::{Cell, CellContent};
pub use drawable::Drawable;
pub use frame::Frame;
pub use layout::Dims;
pub use renderer::Renderer;
pub use style::{Attribute, Attributes, Color, Style};
