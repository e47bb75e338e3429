//! What can be drawn on the text grid.

pub mod face;
