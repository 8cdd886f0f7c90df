use gridava::base::grid::{Grid, GridError, Tile, TileCollection};
use gridava::hex::coordinate::{Axial, Transform};
use gridava::hex::edge::{Edge, EdgeDirection};
use gridava::hex::grid::{
    cell_of_key, edge_of_key, key_of_cell, key_of_edge, key_of_vertex, vertex_of_key, HexGrid,
    HexOrientation,
};
use gridava::hex::shape::HexShape;
use gridava::hex::vertex::{Vertex, VertexSpin};

fn axial(q: i32, r: i32) -> Axial {
    Axial { q, r }
}

#[test]
fn grid_default() {
    let def = HexGrid::<(), (), ()>::default();

    assert_eq!(def.orientation, HexOrientation::PointyTop);
    assert_eq!(f32::from_bits(def.hex_size_bits), 32.0);
    assert!(def.tiles.is_empty());
}

#[test]
fn apply_shape() {
    let shape = HexShape::make_rhombus(1, 0, true, || 1);
    let mut grid = HexGrid::<i32, (), ()>::default();

    grid.apply_shape(&shape);

    for (i, row) in shape.get_hexes().iter().enumerate() {
        for (j, ele) in row.iter().enumerate() {
            assert_eq!(
                *grid.get_tile(axial(i as i32, j as i32)).unwrap(),
                ele.unwrap()
            );
        }
    }
}

#[test]
fn extract_shape() {
    let shape = HexShape::make_rhombus(1, 0, true, || 2);
    let mut grid = HexGrid::<i32, (), ()>::default();

    grid.apply_shape(&shape);

    let mut shape = HexShape::make_rhombus(1, 0, true, || 0);
    grid.extract_shape(&mut shape);

    let mut seen = 0;
    for row in shape.get_hexes() {
        for ele in row {
            assert_eq!(ele.unwrap(), 2);
            seen += 1;
        }
    }
    assert_eq!(seen, 1);
}

#[test]
fn default_grid_is_empty_and_valid() {
    let grid = HexGrid::<i32, i32, i32>::default();
    assert!(grid.vertices.is_empty());
    assert!(grid.edges.is_empty());
    assert!(grid.has_valid_size());
    assert_eq!(grid.get_tile(axial(0, 0)), None);
}

#[test]
fn size_must_be_positive_and_finite() {
    let mut grid = HexGrid::<i32, i32, i32>::default();
    grid.hex_size_bits = 10.5f32.to_bits();
    assert!(grid.has_valid_size());
    grid.hex_size_bits = 0.0f32.to_bits();
    assert!(!grid.has_valid_size());
    grid.hex_size_bits = (-1.0f32).to_bits();
    assert!(!grid.has_valid_size());
    grid.hex_size_bits = f32::INFINITY.to_bits();
    assert!(!grid.has_valid_size());
    grid.hex_size_bits = f32::NAN.to_bits();
    assert!(!grid.has_valid_size());
}

#[test]
fn apply_writes_through_the_transform_and_nowhere_else() {
    let mut shape = HexShape::make_triangle(3, 1, true, || 8);
    shape.transform.translation = axial(10, 20);
    let mut grid = HexGrid::<i32, (), ()>::default();
    grid.insert_tile(axial(100, 100), 1);
    grid.insert_tile(axial(10, 20), 1);

    let returned = grid.apply_shape(&shape).tiles.len();
    assert_eq!(returned, 7);

    // Slot (i, j) turns one step to (-j, i + j) and then moves by (10, 20).
    let mut written = Vec::new();
    for i in 0..3 {
        for j in 0..3 {
            if i + j < 3 {
                written.push(axial(10 - j, 20 + i + j));
            }
        }
    }
    assert_eq!(written.len(), 6);
    for q in -5..30 {
        for r in -5..40 {
            let c = axial(q, r);
            if written.contains(&c) {
                assert_eq!(grid.get_tile(c), Some(&8));
            } else {
                assert_eq!(grid.get_tile(c), None);
            }
        }
    }
    assert_eq!(grid.get_tile(axial(100, 100)), Some(&1));
}

#[test]
fn apply_skips_empty_slots() {
    let shape = HexShape::new(
        vec![vec![Some(4), None], vec![None, Some(5)]],
        Transform::identity(),
    );
    let mut grid = HexGrid::<i32, (), ()>::default();
    grid.insert_tile(axial(0, 1), 9);
    grid.apply_shape(&shape);
    assert_eq!(grid.get_tile(axial(0, 0)), Some(&4));
    assert_eq!(grid.get_tile(axial(0, 1)), Some(&9));
    assert_eq!(grid.get_tile(axial(1, 0)), None);
    assert_eq!(grid.get_tile(axial(1, 1)), Some(&5));
    assert_eq!(grid.tiles.len(), 3);
}

#[test]
fn extract_reads_only_through_populated_slots() {
    let mut grid = HexGrid::<i32, (), ()>::default();
    grid.insert_tile(axial(0, 0), 10);
    grid.insert_tile(axial(0, 1), 11);
    grid.insert_tile(axial(1, 0), 12);
    let mut shape = HexShape::new(
        vec![vec![Some(0), None], vec![Some(0), Some(0)]],
        Transform::identity(),
    );
    grid.extract_shape(&mut shape);
    assert_eq!(
        *shape.get_hexes(),
        vec![vec![Some(10), None], vec![Some(12), None]]
    );
    assert_eq!(shape.transform, Transform::identity());
    assert_eq!(grid.tiles.len(), 3);
}

#[test]
fn extract_after_apply_returns_the_payloads() {
    let mut stamp = HexShape::make_rhombus(4, 5, false, || 3);
    stamp.transform.translation = axial(-7, 2);
    stamp.transform.mirror = true;
    let mut grid = HexGrid::<i32, (), ()>::default();
    grid.apply_shape(&stamp);
    assert_eq!(grid.tiles.len(), 12);
    let mut out = HexShape::make_rhombus(4, 5, false, || 0);
    out.transform = stamp.transform;
    grid.extract_shape(&mut out);
    assert_eq!(out.get_hexes(), stamp.get_hexes());
}

#[test]
fn later_insert_replaces_earlier() {
    let mut grid = HexGrid::<i32, (), ()>::default();
    assert_eq!(grid.insert_tile(axial(-1, -1), 1), None);
    assert_eq!(grid.insert_tile(axial(-1, -1), 2), Some(1));
    assert_eq!(grid.get_tile(axial(-1, -1)), Some(&2));
    assert_eq!(grid.get_tile(axial(-1, 0)), None);
    assert_eq!(grid.insert_tile(axial(i32::MIN, i32::MAX), 3), None);
    assert_eq!(grid.insert_tile(axial(i32::MAX, i32::MIN), 4), None);
    assert_eq!(grid.get_tile(axial(i32::MIN, i32::MAX)), Some(&3));
    assert_eq!(grid.get_tile(axial(i32::MAX, i32::MIN)), Some(&4));
    assert_eq!(grid.tiles.len(), 3);
}

#[test]
fn corners_and_sides_are_keyed_apart() {
    let mut grid = HexGrid::<(), i32, i32>::default();
    let up = Vertex { q: 1, r: 2, spin: VertexSpin::Up };
    let down = Vertex { q: 1, r: 2, spin: VertexSpin::Down };
    assert_eq!(grid.insert_vertex(up, 1), None);
    assert_eq!(grid.insert_vertex(down, 2), None);
    assert_eq!(grid.insert_vertex(up, 3), Some(1));
    assert_eq!(grid.get_vertex(up), Some(&3));
    assert_eq!(grid.get_vertex(down), Some(&2));
    assert_eq!(grid.get_vertex(Vertex { q: 2, r: 1, spin: VertexSpin::Up }), None);

    let west = Edge { q: -3, r: 4, dir: EdgeDirection::West };
    let north_east = Edge { q: -3, r: 4, dir: EdgeDirection::NorthEast };
    let north_west = Edge { q: -3, r: 4, dir: EdgeDirection::NorthWest };
    assert_eq!(grid.insert_edge(west, 1), None);
    assert_eq!(grid.insert_edge(north_east, 2), None);
    assert_eq!(grid.insert_edge(north_west, 3), None);
    assert_eq!(grid.get_edge(west), Some(&1));
    assert_eq!(grid.get_edge(north_east), Some(&2));
    assert_eq!(grid.get_edge(north_west), Some(&3));
    assert_eq!(grid.insert_edge(west, 4), Some(1));
    assert_eq!(grid.edges.len(), 3);
    assert_eq!(grid.vertices.len(), 2);
}

#[test]
fn access_error_text() {
    assert_eq!(GridError::AccessError.message(), "Could not access the collection");
}

#[test]
fn keys_stand_for_coordinates() {
    let mut grid = HexGrid::<i32, i32, i32>::default();
    let cells = [axial(0, 0), axial(-1, 5), axial(i32::MIN, i32::MAX), axial(i32::MAX, i32::MIN)];
    for (n, c) in cells.iter().enumerate() {
        grid.insert_tile(*c, n as i32);
    }
    let mut seen: Vec<Axial> = grid.tiles.keys().map(|k| cell_of_key(*k)).collect();
    seen.sort_by_key(|c| (c.q, c.r));
    assert_eq!(seen, vec![axial(i32::MIN, i32::MAX), axial(-1, 5), axial(0, 0), axial(i32::MAX, i32::MIN)]);
    assert_eq!(cell_of_key(0), axial(i32::MIN, i32::MIN));
    assert_eq!(cell_of_key(u64::MAX), axial(i32::MAX, i32::MAX));

    let down = Vertex { q: 3, r: -4, spin: VertexSpin::Down };
    grid.insert_vertex(down, 1);
    let corners: Vec<Option<Vertex>> = grid.vertices.keys().map(|k| vertex_of_key(*k)).collect();
    assert_eq!(corners, vec![Some(down)]);
    assert_eq!(vertex_of_key(1u128 << 65), None);

    let side = Edge { q: 3, r: -4, dir: EdgeDirection::NorthWest };
    grid.insert_edge(side, 1);
    let sides: Vec<Option<Edge>> = grid.edges.keys().map(|k| edge_of_key(*k)).collect();
    assert_eq!(sides, vec![Some(side)]);
    assert_eq!(edge_of_key(3u128 << 64), None);
}

struct Stone;

impl Tile for Stone {}

struct Stones(Vec<Stone>);

impl TileCollection<Stone> for Stones {}

struct Board {
    reachable: bool,
}

impl Grid<Stone> for Board {
    fn get_collection<T: TileCollection<Stone>>(&self) -> Result<T, GridError> {
        Err(GridError::AccessError)
    }
}

#[test]
fn unreachable_collection_is_an_access_error() {
    let board = Board { reachable: false };
    assert!(!board.reachable);
    let got: Result<Stones, GridError> = board.get_collection();
    assert_eq!(got.err(), Some(GridError::AccessError));
    assert!(Stones(vec![Stone]).0.len() == 1);
}

#[test]
fn keys_and_coordinates_convert_both_ways() {
    assert_eq!(key_of_cell(axial(i32::MIN, i32::MIN)), 0);
    assert_eq!(key_of_cell(axial(0, 0)), 0x8000_0000_8000_0000);
    assert_eq!(key_of_cell(axial(-1, 1)), 0x7FFF_FFFF_8000_0001);
    for c in [axial(0, 0), axial(-1, 1), axial(i32::MAX, i32::MIN), axial(12, -40)] {
        assert_eq!(cell_of_key(key_of_cell(c)), c);
        for spin in [VertexSpin::Up, VertexSpin::Down] {
            let v = Vertex { q: c.q, r: c.r, spin };
            assert_eq!(vertex_of_key(key_of_vertex(v)), Some(v));
        }
        for dir in [EdgeDirection::West, EdgeDirection::NorthEast, EdgeDirection::NorthWest] {
            let e = Edge { q: c.q, r: c.r, dir };
            assert_eq!(edge_of_key(key_of_edge(e)), Some(e));
        }
    }
    let mut grid = HexGrid::<i32, (), ()>::default();
    grid.insert_tile(axial(3, 4), 5);
    assert_eq!(grid.tiles.get(&key_of_cell(axial(3, 4))), Some(&5));
}
