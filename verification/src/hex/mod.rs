//! Hexagonal grids: cells, their corners and sides, shapes and the grid itself.
pub mod coordinate;
pub mod edge;
pub mod shape;
pub mod vertex;
pub mod grid;
