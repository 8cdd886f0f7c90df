//! Corners of hex cells, their neighbourhood and the distance between them.
use vstd::prelude::*;
use vstd::std_specs::convert::FromSpecImpl;
use crate::hex::coordinate::{cell_distance, direction_sector, lies_on_axis, Axial};
use crate::hex::edge::{Edge, EdgeDirection};

verus! {

/// Which of the two corners that share a cell's coordinate is meant.
#[derive(PartialEq, Eq, Structural, Copy, Clone, Hash, Debug)]
pub enum VertexSpin {
    /// The corner at the top of the cell.
    Up,
    /// The corner at the bottom of the cell.
    Down,
}

/// The six corners of a pointy-top cell, clockwise from the top.
#[derive(PartialEq, Eq, Structural, Copy, Clone, Debug)]
pub enum VertexDirection {
    /// The corner at the top.
    Up,
    /// The corner at the top right.
    UpRight,
    /// The corner at the bottom right.
    DownRight,
    /// The corner at the bottom.
    Down,
    /// The corner at the bottom left.
    DownLeft,
    /// The corner at the top left.
    UpLeft,
}

/// Coordinate of one corner: a cell and the spin that picks its top or bottom corner.
#[derive(PartialEq, Eq, Structural, Copy, Clone, Hash, Debug)]
pub struct Vertex {
    /// Column coordinate of the cell.
    pub q: i32,
    /// Row coordinate of the cell.
    pub r: i32,
    /// Top or bottom corner of that cell.
    pub spin: VertexSpin,
}

/// How the spins of two corners relate.
pub enum SpinParity {
    /// Both corners have the same spin.
    Same,
    /// From an `Up` corner to a `Down` corner.
    UpDown,
    /// From a `Down` corner to an `Up` corner.
    DownUp,
}

/// The parity of the spin pair `(from, to)`.
pub open spec fn spin_parity(from: VertexSpin, to: VertexSpin) -> SpinParity {
    if from == to {
        SpinParity::Same
    } else if from == VertexSpin::Up {
        SpinParity::UpDown
    } else {
        SpinParity::DownUp
    }
}

/// The corner `index mod 6` steps clockwise from the top.
pub open spec fn direction_of_index(index: int) -> VertexDirection {
    let k = index % 6;
    if k == 0 {
        VertexDirection::Up
    } else if k == 1 {
        VertexDirection::UpRight
    } else if k == 2 {
        VertexDirection::DownRight
    } else if k == 3 {
        VertexDirection::Down
    } else if k == 4 {
        VertexDirection::DownLeft
    } else {
        VertexDirection::UpLeft
    }
}

/// The number of clockwise steps from the top to the corner, in `0..6`.
pub open spec fn index_of_direction(dir: VertexDirection) -> int {
    match dir {
        VertexDirection::Up => 0,
        VertexDirection::UpRight => 1,
        VertexDirection::DownRight => 2,
        VertexDirection::Down => 3,
        VertexDirection::DownLeft => 4,
        VertexDirection::UpLeft => 5,
    }
}

/// The corner of the cell at the origin that lies in the given direction.
pub open spec fn vertex_of_direction(dir: VertexDirection) -> Vertex {
    match dir {
        VertexDirection::Up => Vertex { q: 0, r: 0, spin: VertexSpin::Up },
        VertexDirection::UpRight => Vertex { q: 1, r: -1i32, spin: VertexSpin::Down },
        VertexDirection::DownRight => Vertex { q: 0, r: 1, spin: VertexSpin::Up },
        VertexDirection::Down => Vertex { q: 0, r: 0, spin: VertexSpin::Down },
        VertexDirection::DownLeft => Vertex { q: -1i32, r: 1, spin: VertexSpin::Up },
        VertexDirection::UpLeft => Vertex { q: 0, r: -1i32, spin: VertexSpin::Down },
    }
}

/// The corrections for a direction that follows a cell-to-cell axis, by sector.
pub open spec fn aligned_row(parity: SpinParity) -> Seq<int> {
    match parity {
        SpinParity::Same => seq![0, 0, 0, 0, 0, 0],
        SpinParity::UpDown => seq![1, 3, 3, 1, -1, -1],
        SpinParity::DownUp => seq![1, -1, -1, 1, 3, 3],
    }
}

/// The corrections for a direction that lies between two axes, by sector.
pub open spec fn oblique_row(parity: SpinParity) -> Seq<int> {
    match parity {
        SpinParity::Same => seq![0, 0, 0, 0, 0, 0],
        SpinParity::UpDown => seq![1, 3, 1, -1, -1, -1],
        SpinParity::DownUp => seq![-1, -1, -1, 1, 3, 1],
    }
}

/// The half-step correction added to twice the cell distance, for a sector in `0..6`.
pub open spec fn parity_adjustment(aligned: bool, parity: SpinParity, sector: int) -> int {
    if aligned {
        aligned_row(parity)[sector]
    } else {
        oblique_row(parity)[sector]
    }
}

impl From<i32> for VertexDirection {
    /// The corner `value mod 6` steps clockwise from the top; any integer is accepted.
    fn from(value: i32) -> (dir: Self) {
        let k: i64 = (value as i64 + 4294967298) % 6;
        if k == 0 {
            VertexDirection::Up
        } else if k == 1 {
            VertexDirection::UpRight
        } else if k == 2 {
            VertexDirection::DownRight
        } else if k == 3 {
            VertexDirection::Down
        } else if k == 4 {
            VertexDirection::DownLeft
        } else {
            VertexDirection::UpLeft
        }
    }
}

impl FromSpecImpl<i32> for VertexDirection {
    open spec fn obeys_from_spec() -> bool {
        true
    }

    open spec fn from_spec(value: i32) -> Self {
        direction_of_index(value as int)
    }
}

impl From<VertexDirection> for i32 {
    /// The number of clockwise steps from the top to the corner.
    fn from(value: VertexDirection) -> (index: Self) {
        match value {
            VertexDirection::Up => 0,
            VertexDirection::UpRight => 1,
            VertexDirection::DownRight => 2,
            VertexDirection::Down => 3,
            VertexDirection::DownLeft => 4,
            VertexDirection::UpLeft => 5,
        }
    }
}

impl FromSpecImpl<VertexDirection> for i32 {
    open spec fn obeys_from_spec() -> bool {
        true
    }

    open spec fn from_spec(value: VertexDirection) -> Self {
        index_of_direction(value) as i32
    }
}

impl From<VertexDirection> for Vertex {
    /// The corner of the cell at the origin that lies in the given direction.
    fn from(value: VertexDirection) -> (v: Self) {
        match value {
            VertexDirection::Up => Vertex { q: 0, r: 0, spin: VertexSpin::Up },
            VertexDirection::UpRight => Vertex { q: 1, r: -1, spin: VertexSpin::Down },
            VertexDirection::DownRight => Vertex { q: 0, r: 1, spin: VertexSpin::Up },
            VertexDirection::Down => Vertex { q: 0, r: 0, spin: VertexSpin::Down },
            VertexDirection::DownLeft => Vertex { q: -1, r: 1, spin: VertexSpin::Up },
            VertexDirection::UpLeft => Vertex { q: 0, r: -1, spin: VertexSpin::Down },
        }
    }
}

impl FromSpecImpl<VertexDirection> for Vertex {
    open spec fn obeys_from_spec() -> bool {
        true
    }

    open spec fn from_spec(value: VertexDirection) -> Self {
        vertex_of_direction(value)
    }
}

impl From<(Axial, VertexSpin)> for Vertex {
    /// The corner of the given cell with the given spin.
    fn from(value: (Axial, VertexSpin)) -> (v: Self) {
        Vertex { q: value.0.q, r: value.0.r, spin: value.1 }
    }
}

impl FromSpecImpl<(Axial, VertexSpin)> for Vertex {
    open spec fn obeys_from_spec() -> bool {
        true
    }

    open spec fn from_spec(value: (Axial, VertexSpin)) -> Self {
        Vertex { q: value.0.q, r: value.0.r, spin: value.1 }
    }
}

impl Default for Vertex {
    /// The top corner of the cell at the origin.
    fn default() -> (v: Self)
        ensures
            v == (Vertex { q: 0, r: 0, spin: VertexSpin::Up }),
    {
        Vertex { q: 0, r: 0, spin: VertexSpin::Up }
    }
}

fn adjustment(aligned: bool, from: VertexSpin, to: VertexSpin, sector: usize) -> (delta: i64)
    requires
        sector < 6,
    ensures
        delta == parity_adjustment(aligned, spin_parity(from, to), sector as int),
        -1 <= delta <= 3,
{
    if from == to {
        0
    } else {
        let from_up = from == VertexSpin::Up;
        if aligned {
            if sector == 0 || sector == 3 {
                1
            } else if (sector == 1 || sector == 2) == from_up {
                3
            } else {
                -1
            }
        } else if from_up {
            if sector == 0 || sector == 2 {
                1
            } else if sector == 1 {
                3
            } else {
                -1
            }
        } else if sector == 3 || sector == 5 {
            1
        } else if sector == 4 {
            3
        } else {
            -1
        }
    }
}

impl Vertex {
    /// The cell whose top or bottom corner this is.
    pub open spec fn cell(self) -> Axial {
        Axial { q: self.q, r: self.r }
    }

    /// True when the coordinates of the cells and sides at this corner lie in the range of `i32`.
    pub open spec fn cells_fit(self) -> bool {
        match self.spin {
            VertexSpin::Up => self.q < i32::MAX && self.r > i32::MIN,
            VertexSpin::Down => self.q > i32::MIN && self.r < i32::MAX,
        }
    }

    /// True when the coordinates of the neighbouring corners lie in the range of `i32`.
    pub open spec fn corners_fit(self) -> bool {
        match self.spin {
            VertexSpin::Up => self.q < i32::MAX && self.r > i32::MIN + 1,
            VertexSpin::Down => self.q > i32::MIN && self.r < i32::MAX - 1,
        }
    }

    /// The three cells that meet at this corner, as values.
    pub open spec fn spec_adjacent_hexes(self) -> Seq<Axial> {
        match self.spin {
            VertexSpin::Up => seq![
                Axial { q: self.q, r: self.r },
                Axial { q: self.q, r: (self.r - 1) as i32 },
                Axial { q: (self.q + 1) as i32, r: (self.r - 1) as i32 },
            ],
            VertexSpin::Down => seq![
                Axial { q: self.q, r: self.r },
                Axial { q: self.q, r: (self.r + 1) as i32 },
                Axial { q: (self.q - 1) as i32, r: (self.r + 1) as i32 },
            ],
        }
    }

    /// The three corners joined to this one by a side, as values.
    pub open spec fn spec_adjacent_vertices(self) -> Seq<Vertex> {
        match self.spin {
            VertexSpin::Up => seq![
                Vertex { q: (self.q + 1) as i32, r: (self.r - 1) as i32, spin: VertexSpin::Down },
                Vertex { q: self.q, r: (self.r - 1) as i32, spin: VertexSpin::Down },
                Vertex { q: (self.q + 1) as i32, r: (self.r - 2) as i32, spin: VertexSpin::Down },
            ],
            VertexSpin::Down => seq![
                Vertex { q: self.q, r: (self.r + 1) as i32, spin: VertexSpin::Up },
                Vertex { q: (self.q - 1) as i32, r: (self.r + 2) as i32, spin: VertexSpin::Up },
                Vertex { q: (self.q - 1) as i32, r: (self.r + 1) as i32, spin: VertexSpin::Up },
            ],
        }
    }

    /// The three sides that end at this corner, as values.
    pub open spec fn spec_adjacent_edges(self) -> Seq<Edge> {
        match self.spin {
            VertexSpin::Up => seq![
                Edge { q: (self.q + 1) as i32, r: (self.r - 1) as i32, dir: EdgeDirection::West },
                Edge { q: self.q, r: self.r, dir: EdgeDirection::NorthEast },
                Edge { q: self.q, r: self.r, dir: EdgeDirection::NorthWest },
            ],
            VertexSpin::Down => seq![
                Edge { q: self.q, r: (self.r + 1) as i32, dir: EdgeDirection::NorthWest },
                Edge { q: self.q, r: (self.r + 1) as i32, dir: EdgeDirection::West },
                Edge { q: (self.q - 1) as i32, r: (self.r + 1) as i32, dir: EdgeDirection::NorthEast },
            ],
        }
    }

    /// The corner distance from `self` to `b`, as a value: zero or three
    /// within one cell, else twice the cell distance plus the table's correction.
    pub open spec fn spec_distance(self, b: Vertex) -> int {
        if self.q == b.q && self.r == b.r {
            if self.spin == b.spin { 0 } else { 3 }
        } else {
            2 * cell_distance(self.q - b.q, self.r - b.r) + parity_adjustment(
                lies_on_axis(b.q - self.q, b.r - self.r),
                spin_parity(self.spin, b.spin),
                direction_sector(b.q - self.q, b.r - self.r),
            )
        }
    }

    /// The three cells that meet at this corner.
    pub fn adjacent_hexes(&self) -> (cells: [Axial; 3])
        requires
            self.cells_fit(),
        ensures
            cells@ == self.spec_adjacent_hexes(),
            cells[0] == self.cell(),
    {
        if self.spin == VertexSpin::Up {
            [
                Axial { q: self.q, r: self.r },
                Axial { q: self.q, r: self.r - 1 },
                Axial { q: self.q + 1, r: self.r - 1 },
            ]
        } else {
            [
                Axial { q: self.q, r: self.r },
                Axial { q: self.q, r: self.r + 1 },
                Axial { q: self.q - 1, r: self.r + 1 },
            ]
        }
    }

    /// The three corners joined to this one by a side. Each has the opposite spin.
    pub fn adjacent_vertices(&self) -> (corners: [Vertex; 3])
        requires
            self.corners_fit(),
        ensures
            corners@ == self.spec_adjacent_vertices(),
            forall|i: int| 0 <= i < 3 ==> (#[trigger] corners[i]).spin != self.spin,
    {
        if self.spin == VertexSpin::Up {
            [
                Vertex { q: self.q + 1, r: self.r - 1, spin: VertexSpin::Down },
                Vertex { q: self.q, r: self.r - 1, spin: VertexSpin::Down },
                Vertex { q: self.q + 1, r: self.r - 2, spin: VertexSpin::Down },
            ]
        } else {
            [
                Vertex { q: self.q, r: self.r + 1, spin: VertexSpin::Up },
                Vertex { q: self.q - 1, r: self.r + 2, spin: VertexSpin::Up },
                Vertex { q: self.q - 1, r: self.r + 1, spin: VertexSpin::Up },
            ]
        }
    }

    /// The three sides that end at this corner, each under its one coordinate.
    pub fn adjacent_edges(&self) -> (sides: [Edge; 3])
        requires
            self.cells_fit(),
        ensures
            sides@ == self.spec_adjacent_edges(),
    {
        match self.spin {
            VertexSpin::Up => [
                Edge { q: self.q + 1, r: self.r - 1, dir: EdgeDirection::West },
                Edge { q: self.q, r: self.r, dir: EdgeDirection::NorthEast },
                Edge { q: self.q, r: self.r, dir: EdgeDirection::NorthWest },
            ],
            VertexSpin::Down => [
                Edge { q: self.q, r: self.r + 1, dir: EdgeDirection::NorthWest },
                Edge { q: self.q, r: self.r + 1, dir: EdgeDirection::West },
                Edge { q: self.q - 1, r: self.r + 1, dir: EdgeDirection::NorthEast },
            ],
        }
    }

    /// The corner distance from `self` to `b`.
    pub fn distance(&self, b: Vertex) -> (d: i32)
        requires
            self.spec_distance(b) <= i32::MAX,
        ensures
            d == self.spec_distance(b),
            d >= 0,
    {
        if self.q == b.q && self.r == b.r {
            return if self.spin == b.spin { 0 } else { 3 };
        }
        let from = Axial { q: self.q, r: self.r };
        let to = Axial { q: b.q, r: b.r };
        let dist: i32 = from.distance(to);
        let sector: usize = from.sector_towards(to);
        let aligned = from.is_axis_aligned(to);
        let delta: i64 = adjustment(aligned, self.spin, b.spin, sector);
        (2 * (dist as i64) + delta) as i32
    }
}

/// A corner is at distance zero from itself, and the two corners that share
/// a cell's coordinate are exactly three apart.
pub proof fn lemma_distance_within_cell(v: Vertex, w: Vertex)
    requires
        v.q == w.q,
        v.r == w.r,
    ensures
        v.spec_distance(v) == 0,
        v.spin == w.spin ==> v.spec_distance(w) == 0,
        v.spin != w.spin ==> v.spec_distance(w) == 3,
{
}

/// Being joined by a side is mutual: a corner is among the neighbours of
/// each of its neighbours.
pub proof fn lemma_adjacency_is_mutual(v: Vertex, k: int)
    requires
        v.corners_fit(),
        0 <= k < 3,
    ensures
        ({
            let back = v.spec_adjacent_vertices()[k].spec_adjacent_vertices();
            back[0] == v || back[1] == v || back[2] == v
        }),
{
}

/// Each side that ends at a corner separates two of the three cells that
/// meet at that corner.
pub proof fn lemma_sides_separate_adjacent_cells(v: Vertex, k: int)
    requires
        v.cells_fit(),
        0 <= k < 3,
    ensures
        ({
            let side = v.spec_adjacent_edges()[k];
            let cells = v.spec_adjacent_hexes();
            let far = Axial { q: side.spec_far_cell().0 as i32, r: side.spec_far_cell().1 as i32 };
            &&& side.far_cell_fits()
            &&& (cells[0] == side.cell() || cells[1] == side.cell() || cells[2] == side.cell())
            &&& (cells[0] == far || cells[1] == far || cells[2] == far)
            &&& far != side.cell()
        }),
{
}

/// The three cells at a corner are pairwise neighbours, and so are distinct.
pub proof fn lemma_adjacent_cells_touch(v: Vertex)
    requires
        v.cells_fit(),
    ensures
        ({
            let cells = v.spec_adjacent_hexes();
            &&& cells[0].spec_distance(cells[1]) == 1
            &&& cells[1].spec_distance(cells[2]) == 1
            &&& cells[0].spec_distance(cells[2]) == 1
        }),
{
}

/// Between corners of different cells the distance is positive, and it is
/// even exactly when the two spins agree.
pub proof fn lemma_distance_parity(v: Vertex, w: Vertex)
    requires
        v.cell() != w.cell(),
    ensures
        v.spec_distance(w) >= 1,
        (v.spec_distance(w) % 2 == 0) <==> v.spin == w.spin,
{
}

} // verus!
