//! Sides of hex cells.
use vstd::prelude::*;
use crate::hex::coordinate::Axial;

verus! {

/// The three sides of a cell that the cell itself names. The other three
/// sides are named by the neighbouring cells, so that every side of the grid
/// has exactly one coordinate.
#[derive(PartialEq, Eq, Structural, Copy, Clone, Hash, Debug)]
pub enum EdgeDirection {
    /// The side on the left.
    West,
    /// The side on the upper right.
    NorthEast,
    /// The side on the upper left.
    NorthWest,
}

/// Coordinate of one side: the cell that names it and which of its sides it is.
#[derive(PartialEq, Eq, Structural, Copy, Clone, Hash, Debug)]
pub struct Edge {
    /// Column coordinate of the naming cell.
    pub q: i32,
    /// Row coordinate of the naming cell.
    pub r: i32,
    /// Which side of the naming cell.
    pub dir: EdgeDirection,
}

impl Edge {
    /// The cell that names this side.
    pub open spec fn cell(self) -> Axial {
        Axial { q: self.q, r: self.r }
    }

    /// The cell on the other side, as a pair of unbounded integers.
    pub open spec fn spec_far_cell(self) -> (int, int) {
        match self.dir {
            EdgeDirection::West => (self.q - 1, self.r as int),
            EdgeDirection::NorthEast => (self.q + 1, self.r - 1),
            EdgeDirection::NorthWest => (self.q as int, self.r - 1),
        }
    }

    /// True when the cell on the other side has a coordinate in the range of `i32`.
    pub open spec fn far_cell_fits(self) -> bool {
        match self.dir {
            EdgeDirection::West => self.q > i32::MIN,
            EdgeDirection::NorthEast => self.q < i32::MAX && self.r > i32::MIN,
            EdgeDirection::NorthWest => self.r > i32::MIN,
        }
    }

    /// The two cells that this side separates: the naming cell first.
    pub fn adjacent_hexes(&self) -> (cells: [Axial; 2])
        requires
            self.far_cell_fits(),
        ensures
            cells[0] == self.cell(),
            (cells[1].q as int, cells[1].r as int) == self.spec_far_cell(),
    {
        let near = Axial { q: self.q, r: self.r };
        match self.dir {
            EdgeDirection::West => [near, Axial { q: self.q - 1, r: self.r }],
            EdgeDirection::NorthEast => [near, Axial { q: self.q + 1, r: self.r - 1 }],
            EdgeDirection::NorthWest => [near, Axial { q: self.q, r: self.r - 1 }],
        }
    }
}

/// Every side has one coordinate only: two sides that separate the same two
/// cells, in whatever order, are the same side.
pub proof fn lemma_side_named_once(e: Edge, f: Edge)
    requires
        ({
            let near_e = (e.q as int, e.r as int);
            let near_f = (f.q as int, f.r as int);
            ||| (near_e == near_f && e.spec_far_cell() == f.spec_far_cell())
            ||| (near_e == f.spec_far_cell() && e.spec_far_cell() == near_f)
        }),
    ensures
        e == f,
{
}

} // verus!
