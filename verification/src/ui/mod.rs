//! Menus and popups: what they hold and how they answer to keys.

pub mod fullscreen_menu;
pub mod fullscreen_popup;
pub mod menu;
pub mod popup;
