//! Coordinate algebra and bulk placement primitives for hexagonal grids.
pub mod base;
pub mod hex;
