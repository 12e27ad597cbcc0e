//! A software renderer for animated, texture-mapped cards on a 160×160
//! screen of 2-bit pixels, with the card game that drives it.
//!
//! Arithmetic is fixed point throughout (see `linalg::ONE`): affine
//! transforms are interpolated, composed and applied exactly on that grid,
//! and triangles are rasterized with integer barycentric weights.
pub mod linalg;
pub mod transform;
pub mod util;
pub mod animation;
pub mod animator;
pub mod gfx;
pub mod raster;
pub mod card;
pub mod glyph;
pub mod deck;
pub mod hand;
pub mod message;
pub mod poker;
pub mod scene;
