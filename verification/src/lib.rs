//! Conversion of raster images into dot art: one filled circle for every
//! pixel of the brightness class that the caller selects.
//!
//! The conversion itself is `pipeline::ndot`: it takes a decoded `PixelGrid`
//! and yields a `VectorDocument`, which `render::to_svg` turns into an SVG
//! tree. `laws` states what holds of every conversion. The remaining modules
//! serve the front ends: where the document is stored, how a dialog's URI
//! becomes a path, and the state of the graphical front end.

pub mod decimal;
pub mod destination;
pub mod document;
pub mod error;
pub mod front;
pub mod geometry;
pub mod grid;
pub mod laws;
pub mod pipeline;
pub mod pixel;
pub mod render;
pub mod uri;
pub mod widget;
pub mod widgets;
