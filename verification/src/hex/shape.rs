//! Reusable local patterns of cells that can be stamped onto a grid.
use vstd::prelude::*;
use crate::hex::coordinate::{fits_i32, transformed, Axial, Transform};

verus! {

/// The geometric patterns that a shape can be made in.
#[derive(PartialEq, Eq, Structural, Copy, Clone, Debug)]
pub enum Pattern {
    /// Half of the square of slots, cut along its diagonal.
    Triangle,
    /// The whole square of slots, or only its rim.
    Rhombus,
}

/// Whether slot `(i, j)` of a `size` by `size` array belongs to the pattern.
/// For a triangle, `flag` picks the half that holds slot `(0, 0)` over the
/// half that holds the opposite corner. For a rhombus, `flag` picks the
/// filled rhombus over its outline.
pub open spec fn in_pattern(kind: Pattern, size: int, flag: bool, i: int, j: int) -> bool {
    &&& 0 <= i < size
    &&& 0 <= j < size
    &&& match kind {
        Pattern::Triangle => if flag { i + j < size } else { i + j >= size - 1 },
        Pattern::Rhombus => flag || i == 0 || j == 0 || i == size - 1 || j == size - 1,
    }
}

/// A local two-dimensional array of optional payloads with a transform that
/// places it on a grid. Slot `(i, j)` stands for the local cell `(i, j)`; a
/// slot that holds a payload is populated, and only populated slots take part
/// when the shape is applied to a grid or filled from one.
#[derive(Debug, Clone)]
pub struct HexShape<T> {
    /// The slots, row by row.
    pub hexes: Vec<Vec<Option<T>>>,
    /// Maps a local cell to the grid cell that it stands for.
    pub transform: Transform,
}

fn pattern_holds(kind: Pattern, size: usize, flag: bool, i: usize, j: usize) -> (inside: bool)
    requires
        i < size,
        j < size,
        size <= u32::MAX,
    ensures
        inside == in_pattern(kind, size as int, flag, i as int, j as int),
{
    let sum: u64 = i as u64 + j as u64;
    match kind {
        Pattern::Triangle => if flag { sum < size as u64 } else { sum + 1 >= size as u64 },
        Pattern::Rhombus => flag || i == 0 || j == 0 || i + 1 == size || j + 1 == size,
    }
}

impl<T> View for HexShape<T> {
    type V = Seq<Seq<Option<T>>>;

    /// The slots as a sequence of rows.
    open spec fn view(&self) -> Seq<Seq<Option<T>>> {
        Seq::new(self.hexes@.len(), |i: int| self.hexes@[i]@)
    }
}

impl<T> HexShape<T> {
    /// True when `(i, j)` is the index of a slot.
    pub open spec fn has_slot(&self, i: int, j: int) -> bool {
        0 <= i < self@.len() && 0 <= j < self@[i].len()
    }

    /// True when `(i, j)` is the index of a slot that holds a payload.
    pub open spec fn populated(&self, i: int, j: int) -> bool {
        self.has_slot(i, j) && self@[i][j].is_some()
    }

    /// True when every row has `cols` slots and there are `rows` rows.
    pub open spec fn has_dimensions(&self, rows: int, cols: int) -> bool {
        &&& self@.len() == rows
        &&& forall|i: int| 0 <= i < rows ==> (#[trigger] self@[i]).len() == cols
    }

    /// The grid cell that slot `(i, j)` stands for, as a pair of unbounded integers.
    pub open spec fn global_of(&self, i: int, j: int) -> (int, int) {
        transformed(i, j, self.transform)
    }

    /// The grid cell that slot `(i, j)` stands for.
    pub open spec fn target(&self, i: int, j: int) -> Axial {
        Axial { q: self.global_of(i, j).0 as i32, r: self.global_of(i, j).1 as i32 }
    }

    /// True when every populated slot stands for a representable grid cell.
    pub open spec fn placement_fits(&self) -> bool {
        forall|i: int, j: int| #[trigger]
            self.populated(i, j) ==> fits_i32((i, j)) && fits_i32(self.global_of(i, j))
    }

    /// True when some populated slot stands for the grid cell `c`.
    pub open spec fn covers(&self, c: Axial) -> bool {
        exists|i: int, j: int| #[trigger]
            self.populated(i, j) && self.global_of(i, j) == (c.q as int, c.r as int)
    }

    /// True when this shape was made in the given pattern by calls of
    /// `constructor`: a square of `size` by `size` slots, turned by `rot_dir`
    /// steps, in which exactly the slots of the pattern hold a payload, each
    /// one a value that a call of `constructor` returned.
    pub open spec fn made_by<F: Fn() -> T>(
        &self,
        kind: Pattern,
        size: int,
        rot_dir: i32,
        flag: bool,
        constructor: F,
    ) -> bool {
        &&& self.has_dimensions(size, size)
        &&& self.transform == (Transform {
            translation: Axial { q: 0, r: 0 },
            rotation: rot_dir,
            mirror: false,
        })
        &&& forall|i: int, j: int|
            0 <= i < size && 0 <= j < size ==> match #[trigger] self@[i][j] {
                Some(v) => in_pattern(kind, size, flag, i, j) && constructor.ensures((), v),
                None => !in_pattern(kind, size, flag, i, j),
            }
    }

    /// Wraps the given slots and transform as a shape.
    pub fn new(hexes: Vec<Vec<Option<T>>>, transform: Transform) -> (shape: Self)
        ensures
            shape.hexes == hexes,
            shape.transform == transform,
    {
        HexShape { hexes, transform }
    }

    /// Makes a `size` by `size` shape in the given pattern, calling
    /// `constructor` once for each slot of the pattern, row by row.
    fn make_pattern<F: Fn() -> T>(
        kind: Pattern,
        size: u32,
        rot_dir: i32,
        flag: bool,
        constructor: F,
    ) -> (shape: Self)
        requires
            constructor.requires(()),
        ensures
            shape.made_by(kind, size as int, rot_dir, flag, constructor),
    {
        let n: usize = size as usize;
        let mut rows: Vec<Vec<Option<T>>> = Vec::new();
        let mut i: usize = 0;
        while i < n
            invariant
                i <= n,
                n == size,
                constructor.requires(()),
                rows@.len() == i,
                forall|a: int| 0 <= a < i ==> (#[trigger] rows@[a])@.len() == n,
                forall|a: int, b: int|
                    0 <= a < i && 0 <= b < n ==> match #[trigger] rows@[a]@[b] {
                        Some(v) => in_pattern(kind, n as int, flag, a, b) && constructor.ensures(
                            (),
                            v,
                        ),
                        None => !in_pattern(kind, n as int, flag, a, b),
                    },
            decreases n - i,
        {
            let mut row: Vec<Option<T>> = Vec::new();
            let mut j: usize = 0;
            while j < n
                invariant
                    i < n,
                    j <= n,
                    n == size,
                    constructor.requires(()),
                    row@.len() == j,
                    forall|b: int|
                        0 <= b < j ==> match #[trigger] row@[b] {
                            Some(v) => in_pattern(kind, n as int, flag, i as int, b)
                                && constructor.ensures((), v),
                            None => !in_pattern(kind, n as int, flag, i as int, b),
                        },
                decreases n - j,
            {
                if pattern_holds(kind, n, flag, i, j) {
                    row.push(Some(constructor()));
                } else {
                    row.push(None);
                }
                j += 1;
            }
            rows.push(row);
            i += 1;
        }
        HexShape {
            hexes: rows,
            transform: Transform { translation: Axial { q: 0, r: 0 }, rotation: rot_dir, mirror: false },
        }
    }

    /// Makes a triangle with `size` cells along each side. With `point_up`
    /// the triangle holds slot `(0, 0)`; without it, the opposite corner.
    pub fn make_triangle<F: Fn() -> T>(size: u32, rot_dir: i32, point_up: bool, constructor: F) -> (shape: Self)
        requires
            constructor.requires(()),
        ensures
            shape.made_by(Pattern::Triangle, size as int, rot_dir, point_up, constructor),
    {
        Self::make_pattern(Pattern::Triangle, size, rot_dir, point_up, constructor)
    }

    /// Makes a rhombus with `size` cells along each side. With `filled` every
    /// slot is populated; without it, only the slots on the rim.
    pub fn make_rhombus<F: Fn() -> T>(size: u32, rot_dir: i32, filled: bool, constructor: F) -> (shape: Self)
        requires
            constructor.requires(()),
        ensures
            shape.made_by(Pattern::Rhombus, size as int, rot_dir, filled, constructor),
    {
        Self::make_pattern(Pattern::Rhombus, size, rot_dir, filled, constructor)
    }

    /// All slots, populated or not, row by row: slot `(i, j)` is element `j` of row `i`.
    pub fn get_hexes(&self) -> (slots: &Vec<Vec<Option<T>>>)
        ensures
            *slots == self.hexes,
    {
        &self.hexes
    }

    /// Whether every populated slot stands for a representable grid cell.
    pub fn placement_is_valid(&self) -> (ok: bool)
        ensures
            ok == self.placement_fits(),
    {
        let rows: usize = self.hexes.len();
        let mut i: usize = 0;
        while i < rows
            invariant
                i <= rows,
                rows == self@.len(),
                forall|a: int, b: int| #[trigger]
                    self.populated(a, b) && a < i ==> fits_i32((a, b)) && fits_i32(
                        self.global_of(a, b),
                    ),
            decreases rows - i,
        {
            let cols: usize = self.hexes[i].len();
            let mut j: usize = 0;
            while j < cols
                invariant
                    i < rows,
                    j <= cols,
                    rows == self@.len(),
                    cols == self@[i as int].len(),
                    forall|a: int, b: int| #[trigger]
                        self.populated(a, b) && (a < i || (a == i && b < j)) ==> fits_i32((a, b))
                            && fits_i32(self.global_of(a, b)),
                decreases cols - j,
            {
                if self.hexes[i][j].is_some() {
                    assert(self.populated(i as int, j as int));
                    if i > 2147483647 || j > 2147483647 {
                        return false;
                    }
                    let local = Axial { q: i as i32, r: j as i32 };
                    if local.checked_apply_transform(self.transform).is_none() {
                        return false;
                    }
                }
                j += 1;
            }
            i += 1;
        }
        true
    }

    /// All slots, populated or not, for change in place.
    pub fn get_hexes_mut(&mut self) -> (slots: &mut Vec<Vec<Option<T>>>)
        ensures
            *slots == old(self).hexes,
            final(self).hexes == *final(slots),
            final(self).transform == old(self).transform,
    {
        &mut self.hexes
    }

    /// The payload of slot `(i, j)`; `None` for an empty slot and for an index without a slot.
    pub fn get_hex(&self, i: usize, j: usize) -> (payload: Option<&T>)
        ensures
            self.populated(i as int, j as int) ==> payload == Some(&self@[i as int][j as int].unwrap()),
            !self.populated(i as int, j as int) ==> payload.is_none(),
    {
        if i < self.hexes.len() && j < self.hexes[i].len() {
            self.hexes[i][j].as_ref()
        } else {
            None
        }
    }
}

} // verus!
