//! Small shared definitions.
use vstd::prelude::*;

verus! {

/// The three axes of a cube coordinate system.
#[derive(PartialEq, Eq, Structural, Copy, Clone, Hash, Debug)]
pub enum Axes3D {
    /// The axis along which `q` is constant.
    X,
    /// The axis along which `r` is constant.
    Y,
    /// The axis along which `s = -q - r` is constant.
    Z,
}

} // verus!
