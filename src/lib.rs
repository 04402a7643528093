//! Core of a declarative UI toolkit: alignment configuration for containers,
//! colors written in hexadecimal, the index lists and glyph-atlas placement
//! that drawing rectangles and text needs, and observable state holders that
//! notify registered listeners.

pub mod atlas;
pub mod color;
pub mod layout;
pub mod shape;
pub mod state;

pub use layout::{CrossAxisAlignment, MainAxisAlignment};
