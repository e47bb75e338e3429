//! Cat faces for the terminal: a face is described by its eyes, eyebrows and
//! mouth, written out as a small SVG document, rasterized to the size of the
//! viewport, cached, and drawn with upper-half-block glyphs so that every
//! text cell shows two stacked pixels.

pub mod face;
pub mod grid;
pub mod layout;
pub mod raster;
pub mod store;
pub mod widget;
