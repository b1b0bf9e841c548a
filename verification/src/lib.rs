//! Text-on-image front end: the data model of a draw request (colours,
//! paints, emoji policy, canvases) and the decisions taken around the
//! rasteriser, each with a machine-checked contract.
//!
//! Rasterising glyphs, measuring with a font and fetching emoji bitmaps are
//! done by the engine behind this crate; what is decided before such a call
//! and what is done with its result lives here.

pub mod canvas;
pub mod drawing;
pub mod emoji;
pub mod font;
pub mod error;
pub mod objects;
pub mod paint;
pub mod scalar;
pub mod utils;
