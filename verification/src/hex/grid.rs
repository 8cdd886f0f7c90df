//! The grid: three keyed collections and the transfer of shapes to and from them.
use std::collections::HashMap;
use vstd::prelude::*;
use vstd::std_specs::hash::*;
use crate::hex::coordinate::{lemma_transform_injective, Axial};
use crate::hex::edge::{Edge, EdgeDirection};
use crate::hex::shape::HexShape;
use crate::hex::vertex::{Vertex, VertexSpin};

verus! {

/// How the hexagons of a grid are turned.
#[derive(PartialEq, Eq, Structural, Copy, Clone, Debug)]
pub enum HexOrientation {
    /// A side of each hexagon points up.
    FlatTop,
    /// A corner of each hexagon points up.
    PointyTop,
}

/// Bit pattern of the single-precision number 32, the cell size of a new grid.
pub const DEFAULT_HEX_SIZE_BITS: u32 = 0x4200_0000;

/// A grid of hexagons. It owns one collection of payloads for cells, one for
/// corners and one for sides. Each collection is keyed by an integer that
/// stands for exactly one coordinate.
#[derive(Debug, Clone)]
pub struct HexGrid<T: Clone, V, E> {
    /// How the hexagons are turned.
    pub orientation: HexOrientation,
    /// The size of one hexagon, as the bit pattern of a single-precision number.
    pub hex_size_bits: u32,
    /// Payloads of cells, by `cell_key`.
    pub tiles: HashMap<u64, T>,
    /// Payloads of corners, by `vertex_key`.
    pub vertices: HashMap<u128, V>,
    /// Payloads of sides, by `edge_key`.
    pub edges: HashMap<u128, E>,
}

/// The key of a cell: both coordinates shifted to be non-negative, `q` in
/// the upper 32 bits and `r` in the lower.
pub open spec fn cell_key(c: Axial) -> u64 {
    ((c.q - i32::MIN) * 0x1_0000_0000 + (c.r - i32::MIN)) as u64
}

/// The key of a corner: the key of its cell, plus `2^64` for a `Down` spin.
pub open spec fn vertex_key(v: Vertex) -> u128 {
    let spin: int = match v.spin {
        VertexSpin::Up => 0,
        VertexSpin::Down => 1,
    };
    (spin * 0x1_0000_0000_0000_0000 + cell_key(v.cell())) as u128
}

/// The key of a side: the key of its cell, plus a multiple of `2^64` that tells the direction.
pub open spec fn edge_key(e: Edge) -> u128 {
    let dir: int = match e.dir {
        EdgeDirection::West => 0,
        EdgeDirection::NorthEast => 1,
        EdgeDirection::NorthWest => 2,
    };
    (dir * 0x1_0000_0000_0000_0000 + cell_key(Axial { q: e.q, r: e.r })) as u128
}

/// Different cells have different keys.
pub proof fn lemma_cell_key_injective()
    ensures
        forall|a: Axial, b: Axial| #[trigger] cell_key(a) == #[trigger] cell_key(b) ==> a == b,
{
}

/// Different corners have different keys.
pub proof fn lemma_vertex_key_injective(v: Vertex, w: Vertex)
    requires
        vertex_key(v) == vertex_key(w),
    ensures
        v == w,
{
}

/// Different sides have different keys.
pub proof fn lemma_edge_key_injective(e: Edge, f: Edge)
    requires
        edge_key(e) == edge_key(f),
    ensures
        e == f,
{
}

/// What a lookup in a keyed collection gives.
pub open spec fn entry<K, P>(m: Map<K, P>, k: K) -> Option<P> {
    if m.contains_key(k) { Some(m[k]) } else { None }
}

/// What a slot holds after it was filled from a grid: an empty slot stays
/// empty, a populated one takes a clone of what the grid holds at its cell,
/// or becomes empty where the grid holds nothing.
pub open spec fn drawn<T: Clone>(mask: Option<T>, source: Option<T>, result: Option<T>) -> bool {
    match (mask, source) {
        (Some(_), Some(v)) => result.is_some() && cloned(v, result.unwrap()),
        _ => result.is_none(),
    }
}

/// What applying `shape` does to a grid: the cell of every populated slot
/// holds a clone of the slot's payload, every cell that no populated slot
/// stands for holds what it held, and nothing else of the grid changes.
pub open spec fn applied<T: Clone, V, E>(
    before: HexGrid<T, V, E>,
    shape: HexShape<T>,
    after: HexGrid<T, V, E>,
) -> bool {
    &&& forall|i: int, j: int| #[trigger]
        shape.populated(i, j) ==> {
            &&& after.tile_at(shape.target(i, j)).is_some()
            &&& cloned(shape@[i][j].unwrap(), after.tile_at(shape.target(i, j)).unwrap())
        }
    &&& forall|c: Axial| !shape.covers(c) ==> #[trigger] after.tile_at(c) == before.tile_at(c)
    &&& after.orientation == before.orientation
    &&& after.hex_size_bits == before.hex_size_bits
    &&& after.vertices == before.vertices
    &&& after.edges == before.edges
}

/// What filling `mask` from a grid gives: a shape of the same transform and
/// dimensions in which every slot is `drawn` from the grid's cell for it.
pub open spec fn extracted<T: Clone, V, E>(
    grid: HexGrid<T, V, E>,
    mask: HexShape<T>,
    result: HexShape<T>,
) -> bool {
    &&& result.transform == mask.transform
    &&& result@.len() == mask@.len()
    &&& forall|i: int| 0 <= i < mask@.len() ==> (#[trigger] result@[i]).len() == mask@[i].len()
    &&& forall|i: int, j: int| #[trigger]
        mask.has_slot(i, j) ==> drawn(
            mask@[i][j],
            grid.tile_at(mask.target(i, j)),
            result@[i][j],
        )
}

/// Filling a shape from a grid, right after a shape with the same populated
/// slots and the same transform was applied to it, gives back the applied
/// payloads: every populated slot holds a clone of the grid's clone of the
/// payload that was applied from that slot.
pub proof fn lemma_extract_returns_applied<T: Clone, V, E>(
    before: HexGrid<T, V, E>,
    stamp: HexShape<T>,
    after: HexGrid<T, V, E>,
    mask: HexShape<T>,
    result: HexShape<T>,
)
    requires
        applied(before, stamp, after),
        extracted(after, mask, result),
        mask.transform == stamp.transform,
        forall|i: int, j: int| #[trigger] mask.populated(i, j) == stamp.populated(i, j),
    ensures
        forall|i: int, j: int| #[trigger]
            stamp.populated(i, j) ==> {
                &&& result.populated(i, j)
                &&& cloned(stamp@[i][j].unwrap(), after.tile_at(stamp.target(i, j)).unwrap())
                &&& cloned(after.tile_at(stamp.target(i, j)).unwrap(), result@[i][j].unwrap())
            },
{
    assert forall|i: int, j: int| #[trigger] stamp.populated(i, j) implies {
        &&& result.populated(i, j)
        &&& cloned(stamp@[i][j].unwrap(), after.tile_at(stamp.target(i, j)).unwrap())
        &&& cloned(after.tile_at(stamp.target(i, j)).unwrap(), result@[i][j].unwrap())
    } by {
        assert(mask.populated(i, j));
        assert(mask.has_slot(i, j));
        assert(mask.target(i, j) == stamp.target(i, j));
    }
}

spec fn done(a: int, b: int, i: int, j: int) -> bool {
    a < i || (a == i && b < j)
}

spec fn written<T>(shape: &HexShape<T>, k: u64, i: int, j: int) -> bool {
    exists|a: int, b: int| #[trigger]
        shape.populated(a, b) && done(a, b, i, j) && cell_key(shape.target(a, b)) == k
}

spec fn stamped<T: Clone>(
    now: Map<u64, T>,
    before: Map<u64, T>,
    shape: &HexShape<T>,
    i: int,
    j: int,
) -> bool {
    &&& forall|a: int, b: int| #[trigger]
        shape.populated(a, b) && done(a, b, i, j) ==> {
            &&& now.contains_key(cell_key(shape.target(a, b)))
            &&& cloned(shape@[a][b].unwrap(), now[cell_key(shape.target(a, b))])
        }
    &&& forall|k: u64| !written(shape, k, i, j) ==> #[trigger] entry(now, k) == entry(before, k)
}

proof fn lemma_targets_differ<T>(shape: &HexShape<T>, a: int, b: int, i: int, j: int)
    requires
        shape.placement_fits(),
        shape.populated(a, b),
        shape.populated(i, j),
        (a, b) != (i, j),
    ensures
        cell_key(shape.target(a, b)) != cell_key(shape.target(i, j)),
{
    lemma_cell_key_injective();
    if shape.target(a, b) == shape.target(i, j) {
        lemma_transform_injective(shape.transform, a, b, i, j);
    }
}

proof fn lemma_stamp_one<T: Clone>(
    now: Map<u64, T>,
    before: Map<u64, T>,
    shape: &HexShape<T>,
    i: int,
    j: int,
    payload: T,
)
    requires
        shape.placement_fits(),
        shape.populated(i, j),
        stamped(now, before, shape, i, j),
        cloned(shape@[i][j].unwrap(), payload),
    ensures
        stamped(now.insert(cell_key(shape.target(i, j)), payload), before, shape, i, j + 1),
{
    let key = cell_key(shape.target(i, j));
    let next = now.insert(key, payload);
    assert forall|a: int, b: int| #[trigger]
        shape.populated(a, b) && done(a, b, i, j + 1) implies {
        &&& next.contains_key(cell_key(shape.target(a, b)))
        &&& cloned(shape@[a][b].unwrap(), next[cell_key(shape.target(a, b))])
    } by {
        if (a, b) != (i, j) {
            lemma_targets_differ(shape, a, b, i, j);
            assert(done(a, b, i, j));
        }
    }
    assert forall|k: u64| !written(shape, k, i, j + 1) implies #[trigger] entry(next, k) == entry(
        before,
        k,
    ) by {
        if k == key {
            assert(shape.populated(i, j) && done(i, j, i, j + 1));
        }
        if written(shape, k, i, j) {
            let (a, b) = choose|a: int, b: int| #[trigger]
                shape.populated(a, b) && done(a, b, i, j) && cell_key(shape.target(a, b)) == k;
            assert(shape.populated(a, b) && done(a, b, i, j + 1));
        }
        assert(entry(now, k) == entry(before, k));
    }
}

proof fn lemma_stamp_skip<T: Clone>(
    now: Map<u64, T>,
    before: Map<u64, T>,
    shape: &HexShape<T>,
    i: int,
    j: int,
    i2: int,
    j2: int,
)
    requires
        stamped(now, before, shape, i, j),
        forall|a: int, b: int| #[trigger]
            shape.populated(a, b) ==> (done(a, b, i, j) <==> done(a, b, i2, j2)),
    ensures
        stamped(now, before, shape, i2, j2),
{
    assert forall|k: u64| !written(shape, k, i2, j2) implies #[trigger] entry(now, k) == entry(
        before,
        k,
    ) by {
        if written(shape, k, i, j) {
            let (a, b) = choose|a: int, b: int| #[trigger]
                shape.populated(a, b) && done(a, b, i, j) && cell_key(shape.target(a, b)) == k;
            assert(shape.populated(a, b) && done(a, b, i2, j2));
        }
        assert(entry(now, k) == entry(before, k));
    }
}

/// The key under which the grid stores the payload of a cell.
pub fn key_of_cell(c: Axial) -> (k: u64)
    ensures
        k == cell_key(c),
{
    let high: u64 = (c.q as i64 + 2147483648) as u64;
    let low: u64 = (c.r as i64 + 2147483648) as u64;
    high * 4294967296 + low
}

/// The key under which the grid stores the payload of a corner.
pub fn key_of_vertex(v: Vertex) -> (k: u128)
    ensures
        k == vertex_key(v),
{
    let cell: u128 = key_of_cell(Axial { q: v.q, r: v.r }) as u128;
    match v.spin {
        VertexSpin::Up => cell,
        VertexSpin::Down => 18446744073709551616 + cell,
    }
}

/// The key under which the grid stores the payload of a side.
pub fn key_of_edge(e: Edge) -> (k: u128)
    ensures
        k == edge_key(e),
{
    let cell: u128 = key_of_cell(Axial { q: e.q, r: e.r }) as u128;
    match e.dir {
        EdgeDirection::West => cell,
        EdgeDirection::NorthEast => 18446744073709551616 + cell,
        EdgeDirection::NorthWest => 36893488147419103232 + cell,
    }
}

/// The cell that a key stands for. Every key stands for a cell.
pub fn cell_of_key(k: u64) -> (c: Axial)
    ensures
        cell_key(c) == k,
{
    let high: i64 = (k / 4294967296) as i64;
    let low: i64 = (k % 4294967296) as i64;
    Axial { q: (high - 2147483648) as i32, r: (low - 2147483648) as i32 }
}

/// The corner that a key stands for, if it stands for one.
pub fn vertex_of_key(k: u128) -> (found: Option<Vertex>)
    ensures
        match found {
            Some(v) => vertex_key(v) == k,
            None => forall|v: Vertex| vertex_key(v) != k,
        },
{
    if k >= 36893488147419103232 {
        return None;
    }
    let c = cell_of_key((k % 18446744073709551616) as u64);
    let spin = if k < 18446744073709551616 { VertexSpin::Up } else { VertexSpin::Down };
    Some(Vertex { q: c.q, r: c.r, spin })
}

/// The side that a key stands for, if it stands for one.
pub fn edge_of_key(k: u128) -> (found: Option<Edge>)
    ensures
        match found {
            Some(e) => edge_key(e) == k,
            None => forall|e: Edge| edge_key(e) != k,
        },
{
    if k >= 55340232221128654848 {
        return None;
    }
    let c = cell_of_key((k % 18446744073709551616) as u64);
    let dir = if k < 18446744073709551616 {
        EdgeDirection::West
    } else if k < 36893488147419103232 {
        EdgeDirection::NorthEast
    } else {
        EdgeDirection::NorthWest
    };
    Some(Edge { q: c.q, r: c.r, dir })
}

impl<T: Clone, V, E> Default for HexGrid<T, V, E> {
    /// An empty pointy-top grid with cells of size 32.
    fn default() -> (grid: Self)
        ensures
            grid.orientation == HexOrientation::PointyTop,
            grid.hex_size_bits == DEFAULT_HEX_SIZE_BITS,
            grid.tiles@ == Map::<u64, T>::empty(),
            grid.vertices@ == Map::<u128, V>::empty(),
            grid.edges@ == Map::<u128, E>::empty(),
    {
        HexGrid {
            orientation: HexOrientation::PointyTop,
            hex_size_bits: DEFAULT_HEX_SIZE_BITS,
            tiles: HashMap::new(),
            vertices: HashMap::new(),
            edges: HashMap::new(),
        }
    }
}

impl<T: Clone, V, E> HexGrid<T, V, E> {
    /// The payload of the cell `c`, if the grid holds one.
    pub open spec fn tile_at(&self, c: Axial) -> Option<T> {
        entry(self.tiles@, cell_key(c))
    }

    /// The payload of the corner `v`, if the grid holds one.
    pub open spec fn vertex_at(&self, v: Vertex) -> Option<V> {
        entry(self.vertices@, vertex_key(v))
    }

    /// The payload of the side `e`, if the grid holds one.
    pub open spec fn edge_at(&self, e: Edge) -> Option<E> {
        entry(self.edges@, edge_key(e))
    }

    /// True when the cell size is a positive finite number.
    pub open spec fn size_is_valid(&self) -> bool {
        0 < self.hex_size_bits < 0x7F80_0000
    }

    /// Whether the cell size is a positive finite number.
    pub fn has_valid_size(&self) -> (valid: bool)
        ensures
            valid == self.size_is_valid(),
    {
        0 < self.hex_size_bits && self.hex_size_bits < 0x7F80_0000
    }

    /// Looks up the payload of a cell.
    pub fn get_tile(&self, c: Axial) -> (found: Option<&T>)
        ensures
            match found {
                Some(t) => self.tile_at(c) == Some(*t),
                None => self.tile_at(c).is_none(),
            },
    {
        broadcast use group_hash_axioms;

        let key: u64 = key_of_cell(c);
        self.tiles.get(&key)
    }

    /// Stores the payload of a cell and returns the one that it replaces.
    /// No other cell changes.
    pub fn insert_tile(&mut self, c: Axial, tile: T) -> (replaced: Option<T>)
        ensures
            replaced == old(self).tile_at(c),
            final(self).tile_at(c) == Some(tile),
            forall|d: Axial| d != c ==> #[trigger] final(self).tile_at(d) == old(self).tile_at(d),
            final(self).tiles@ == old(self).tiles@.insert(cell_key(c), tile),
            final(self).orientation == old(self).orientation,
            final(self).hex_size_bits == old(self).hex_size_bits,
            final(self).vertices == old(self).vertices,
            final(self).edges == old(self).edges,
    {
        broadcast use group_hash_axioms;

        proof {
            lemma_cell_key_injective();
        }
        let key: u64 = key_of_cell(c);
        self.tiles.insert(key, tile)
    }

    /// Looks up the payload of a corner.
    pub fn get_vertex(&self, v: Vertex) -> (found: Option<&V>)
        ensures
            match found {
                Some(p) => self.vertex_at(v) == Some(*p),
                None => self.vertex_at(v).is_none(),
            },
    {
        broadcast use group_hash_axioms;

        let key: u128 = key_of_vertex(v);
        self.vertices.get(&key)
    }

    /// Stores the payload of a corner and returns the one that it replaces.
    /// No other corner changes.
    pub fn insert_vertex(&mut self, v: Vertex, payload: V) -> (replaced: Option<V>)
        ensures
            replaced == old(self).vertex_at(v),
            final(self).vertex_at(v) == Some(payload),
            forall|w: Vertex| w != v ==> #[trigger] final(self).vertex_at(w) == old(self).vertex_at(w),
            final(self).orientation == old(self).orientation,
            final(self).hex_size_bits == old(self).hex_size_bits,
            final(self).tiles == old(self).tiles,
            final(self).edges == old(self).edges,
    {
        broadcast use group_hash_axioms;

        proof {
            assert forall|w: Vertex| w != v implies vertex_key(w) != vertex_key(v) by {
                if vertex_key(w) == vertex_key(v) {
                    lemma_vertex_key_injective(w, v);
                }
            }
        }
        let key: u128 = key_of_vertex(v);
        self.vertices.insert(key, payload)
    }

    /// Looks up the payload of a side.
    pub fn get_edge(&self, e: Edge) -> (found: Option<&E>)
        ensures
            match found {
                Some(p) => self.edge_at(e) == Some(*p),
                None => self.edge_at(e).is_none(),
            },
    {
        broadcast use group_hash_axioms;

        let key: u128 = key_of_edge(e);
        self.edges.get(&key)
    }

    /// Stores the payload of a side and returns the one that it replaces.
    /// No other side changes.
    pub fn insert_edge(&mut self, e: Edge, payload: E) -> (replaced: Option<E>)
        ensures
            replaced == old(self).edge_at(e),
            final(self).edge_at(e) == Some(payload),
            forall|f: Edge| f != e ==> #[trigger] final(self).edge_at(f) == old(self).edge_at(f),
            final(self).orientation == old(self).orientation,
            final(self).hex_size_bits == old(self).hex_size_bits,
            final(self).tiles == old(self).tiles,
            final(self).vertices == old(self).vertices,
    {
        broadcast use group_hash_axioms;

        proof {
            assert forall|f: Edge| f != e implies edge_key(f) != edge_key(e) by {
                if edge_key(f) == edge_key(e) {
                    lemma_edge_key_injective(f, e);
                }
            }
        }
        let key: u128 = key_of_edge(e);
        self.edges.insert(key, payload)
    }

    /// Writes a clone of the payload of every populated slot of `shape` to
    /// the cell that the slot stands for, over whatever the grid held there.
    /// Empty slots write nothing, and no other cell of the grid changes.
    pub fn apply_shape(&mut self, shape: &HexShape<T>) -> (grid: &Self)
        requires
            shape.placement_fits(),
        ensures
            applied(*old(self), *shape, *final(self)),
            *grid == *final(self),
    {
        broadcast use group_hash_axioms;

        let ghost before = self.tiles@;
        let rows: usize = shape.hexes.len();
        let mut i: usize = 0;
        while i < rows
            invariant
                i <= rows,
                rows == shape@.len(),
                shape.placement_fits(),
                stamped(self.tiles@, before, shape, i as int, 0),
                self.orientation == old(self).orientation,
                self.hex_size_bits == old(self).hex_size_bits,
                self.vertices == old(self).vertices,
                self.edges == old(self).edges,
            decreases rows - i,
        {
            let row = &shape.hexes[i];
            let cols: usize = row.len();
            let mut j: usize = 0;
            while j < cols
                invariant
                    i < rows,
                    j <= cols,
                    rows == shape@.len(),
                    *row == shape.hexes@[i as int],
                    cols == shape@[i as int].len(),
                    shape.placement_fits(),
                    stamped(self.tiles@, before, shape, i as int, j as int),
                    self.orientation == old(self).orientation,
                    self.hex_size_bits == old(self).hex_size_bits,
                    self.vertices == old(self).vertices,
                    self.edges == old(self).edges,
                decreases cols - j,
            {
                match &row[j] {
                    Some(value) => {
                        assert(shape.populated(i as int, j as int));
                        let local = Axial { q: i as i32, r: j as i32 };
                        let coord = local.apply_transform(shape.transform);
                        let key: u64 = key_of_cell(coord);
                        let payload = value.clone();
                        proof {
                            assert(coord == shape.target(i as int, j as int));
                            lemma_stamp_one(self.tiles@, before, shape, i as int, j as int, payload);
                        }
                        self.tiles.insert(key, payload);
                    },
                    None => {
                        proof {
                            lemma_stamp_skip(
                                self.tiles@,
                                before,
                                shape,
                                i as int,
                                j as int,
                                i as int,
                                j as int + 1,
                            );
                        }
                    },
                }
                j += 1;
            }
            proof {
                lemma_stamp_skip(self.tiles@, before, shape, i as int, j as int, i as int + 1, 0);
            }
            i += 1;
        }
        proof {
            lemma_cell_key_injective();
            assert forall|c: Axial| !shape.covers(c) implies #[trigger] self.tile_at(c) == old(
                self,
            ).tile_at(c) by {
                let k = cell_key(c);
                if written(shape, k, rows as int, 0) {
                    let (a, b) = choose|a: int, b: int| #[trigger]
                        shape.populated(a, b) && done(a, b, rows as int, 0) && cell_key(
                            shape.target(a, b),
                        ) == k;
                    assert(shape.target(a, b) == c);
                    assert(shape.populated(a, b) && shape.global_of(a, b) == (c.q as int, c.r as int));
                }
                assert(entry(self.tiles@, k) == entry(before, k));
            }
        }
        self
    }

    /// Fills every populated slot of `shape` with a clone of what the grid
    /// holds at the cell that the slot stands for, and empties it where the
    /// grid holds nothing. Empty slots stay empty.
    pub fn extract_shape(&self, shape: &mut HexShape<T>)
        requires
            old(shape).placement_fits(),
        ensures
            extracted(*self, *old(shape), *final(shape)),
    {
        broadcast use group_hash_axioms;

        let transform = shape.transform;
        let rows: usize = shape.hexes.len();
        let mut fresh: Vec<Vec<Option<T>>> = Vec::new();
        let mut i: usize = 0;
        while i < rows
            invariant
                i <= rows,
                *shape == *old(shape),
                rows == shape@.len(),
                transform == shape.transform,
                shape.placement_fits(),
                fresh@.len() == i,
                forall|a: int| 0 <= a < i ==> (#[trigger] fresh@[a])@.len() == shape@[a].len(),
                forall|a: int, b: int|
                    0 <= a < i && #[trigger] shape.has_slot(a, b) ==> drawn(
                        shape@[a][b],
                        self.tile_at(shape.target(a, b)),
                        fresh@[a]@[b],
                    ),
            decreases rows - i,
        {
            let cols: usize = shape.hexes[i].len();
            let mut row: Vec<Option<T>> = Vec::new();
            let mut j: usize = 0;
            while j < cols
                invariant
                    i < rows,
                    j <= cols,
                    *shape == *old(shape),
                    rows == shape@.len(),
                    cols == shape@[i as int].len(),
                    transform == shape.transform,
                    shape.placement_fits(),
                    row@.len() == j,
                    forall|b: int|
                        0 <= b < j ==> drawn(
                            shape@[i as int][b],
                            self.tile_at(shape.target(i as int, b)),
                            #[trigger] row@[b],
                        ),
                decreases cols - j,
            {
                if shape.hexes[i][j].is_some() {
                    assert(shape.populated(i as int, j as int));
                    let local = Axial { q: i as i32, r: j as i32 };
                    let coord = local.apply_transform(transform);
                    let key: u64 = key_of_cell(coord);
                    assert(coord == shape.target(i as int, j as int));
                    row.push(self.tiles.get(&key).cloned());
                } else {
                    row.push(None);
                }
                j += 1;
            }
            fresh.push(row);
            i += 1;
        }
        shape.hexes = fresh;
    }
}

} // verus!
