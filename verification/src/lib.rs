//! Perceptual image comparison: a pixel-scan engine that classifies pixel
//! pairs with a configurable comparison strategy (exact channel match, or a
//! perceptual color-distance threshold), reports whether two images are
//! visually equivalent, computes the bounding rectangle of the differing
//! pixels, and renders a highlighted diff raster.

pub mod color;
pub mod diff;
