//! Items shared by every grid geometry.
pub mod grid;
pub mod misc;
