use platformer::merger::TileMerger;
use platformer::tiles::{Rectangle, TileCoords, TileSet};

fn set_of(points: &[(i64, i64)]) -> TileSet {
    let mut tiles = TileSet::new();
    for &(x, y) in points {
        tiles.insert(TileCoords { x, y });
    }
    tiles
}

fn assert_exact_cover(tiles: &TileSet, rectangles: &[Rectangle]) {
    for i in 0..tiles.len() {
        let t = tiles.get(i);
        let n = rectangles.iter().filter(|r| r.contains_tile(&t)).count();
        assert_eq!(n, 1, "tile {:?} covered {} times", t, n);
    }
    for r in rectangles {
        assert!(r.width >= 1 && r.height >= 1);
        for t in r.get_covered_tiles() {
            assert!(tiles.contains(&t), "{:?} is not a solid tile", t);
        }
    }
    let total: i64 = rectangles.iter().map(|r| r.area()).sum();
    assert_eq!(total, tiles.len() as i64);
}

#[test]
fn merge_of_empty_set_is_empty() {
    let merger = TileMerger::new(16);
    let tiles = TileSet::new();
    assert!(merger.merge_tiles(&tiles).is_empty());
    assert!(merger.create_collider_data(&tiles).is_empty());
}

#[test]
fn merge_covers_each_tile_once() {
    let merger = TileMerger::new(16);
    let tiles = set_of(&[
        (0, 0), (1, 0), (2, 0), (3, 0),
        (0, 1), (1, 1), (3, 1),
        (1, 2), (2, 2), (3, 2),
        (-4, -4), (-3, -4), (-4, -3),
        (7, 9),
    ]);
    let rectangles = merger.merge_tiles(&tiles);
    assert_exact_cover(&tiles, &rectangles);
}

#[test]
fn merge_takes_largest_rectangle_first() {
    // A 3x3 block with a one-tile tail to the right of its top row.
    let merger = TileMerger::new(16);
    let mut points = Vec::new();
    for x in 0..3 {
        for y in 0..3 {
            points.push((x, y));
        }
    }
    points.push((3, 0));
    let tiles = set_of(&points);
    let rectangles = merger.merge_tiles(&tiles);
    assert_eq!(rectangles.len(), 2);
    assert_eq!(rectangles[0], Rectangle::new(0, 0, 3, 3));
    assert_eq!(rectangles[1], Rectangle::new(3, 0, 1, 1));
}

#[test]
fn merge_at_extreme_coordinates() {
    let merger = TileMerger::new(16);
    let tiles = set_of(&[(i64::MAX, 0), (i64::MAX - 1, 0), (i64::MIN, i64::MAX)]);
    let rectangles = merger.merge_tiles(&tiles);
    assert_eq!(rectangles.len(), 2);
    assert_eq!(rectangles[0], Rectangle::new(i64::MAX - 1, 0, 2, 1));
    assert_eq!(rectangles[1], Rectangle::new(i64::MIN, i64::MAX, 1, 1));
}

#[test]
fn tile_set_insert_and_remove() {
    let mut tiles = TileSet::new();
    assert!(tiles.is_empty());
    assert!(tiles.insert(TileCoords { x: 2, y: 1 }));
    assert!(tiles.insert(TileCoords { x: 0, y: 1 }));
    assert!(tiles.insert(TileCoords { x: 5, y: 0 }));
    assert!(!tiles.insert(TileCoords { x: 0, y: 1 }));
    assert_eq!(tiles.len(), 3);
    // Row-major order
    assert_eq!(tiles.get(0), TileCoords { x: 5, y: 0 });
    assert_eq!(tiles.get(1), TileCoords { x: 0, y: 1 });
    assert_eq!(tiles.get(2), TileCoords { x: 2, y: 1 });
    assert!(tiles.contains(&TileCoords { x: 2, y: 1 }));
    assert!(!tiles.contains(&TileCoords { x: 1, y: 2 }));
    assert!(tiles.remove(&TileCoords { x: 0, y: 1 }));
    assert!(!tiles.remove(&TileCoords { x: 0, y: 1 }));
    assert_eq!(tiles.len(), 2);
    assert!(!tiles.contains(&TileCoords { x: 0, y: 1 }));
    let copy = tiles.duplicate();
    assert_eq!(copy.len(), 2);
    assert!(copy.contains(&TileCoords { x: 5, y: 0 }));
}

#[test]
fn grid_cells_of_value_one_are_solid() {
    // 4 wide, 3 rows, the last row short by one cell.
    let cells: Vec<i64> = vec![
        1, 1, 0, 2,
        0, 1, 1, 1,
        1, 0, 1,
    ];
    let tiles = TileSet::from_grid(&cells, 4);
    assert_eq!(tiles.len(), 7);
    for (x, y) in [(0, 0), (1, 0), (1, 1), (2, 1), (3, 1), (0, 2), (2, 2)] {
        assert!(tiles.contains(&TileCoords { x, y }));
    }
    assert!(!tiles.contains(&TileCoords { x: 3, y: 0 }));
    assert!(!tiles.contains(&TileCoords { x: 3, y: 2 }));
}

#[test]
fn rectangle_queries() {
    let r = Rectangle::new(-1, 2, 3, 2);
    assert_eq!(r.area(), 6);
    assert!(r.contains_tile(&TileCoords { x: -1, y: 2 }));
    assert!(r.contains_tile(&TileCoords { x: 1, y: 3 }));
    assert!(!r.contains_tile(&TileCoords { x: 2, y: 3 }));
    assert!(!r.contains_tile(&TileCoords { x: 0, y: 4 }));
    let covered = r.get_covered_tiles();
    assert_eq!(covered.len(), 6);
    assert_eq!(covered[0], TileCoords { x: -1, y: 2 });
    assert_eq!(covered[1], TileCoords { x: -1, y: 3 });
    assert_eq!(covered[5], TileCoords { x: 1, y: 3 });
    assert!(Rectangle::new(0, 0, 0, 5).get_covered_tiles().is_empty());
}

#[test]
fn world_placements_scale_and_centre() {
    let merger = TileMerger::new(16);
    let rects = vec![Rectangle::new(2, -3, 4, 1), Rectangle::new(-1, 0, 3, 3)];
    let placed = merger.rectangles_to_world_coords(&rects);
    assert_eq!(placed, vec![(64, -40, 64, 16), (8, 24, 48, 48)]);
    // An odd extent puts the centre on a half unit, rounded toward zero.
    let odd = TileMerger::new(3);
    assert_eq!(odd.rectangles_to_world_coords(&vec![Rectangle::new(0, -1, 1, 1)]), vec![(1, -2, 3, 3)]);
}

#[test]
fn collider_data_of_a_level() {
    let cells: Vec<i64> = vec![
        1, 1, 1, 1,
        1, 0, 0, 1,
        1, 1, 1, 1,
    ];
    let tiles = TileSet::from_grid(&cells, 4);
    let merger = TileMerger::new(10);
    let placed = merger.create_collider_data(&tiles);
    let rects = merger.merge_tiles(&tiles);
    assert_eq!(placed, merger.rectangles_to_world_coords(&rects));
    let area: i64 = placed.iter().map(|p| p.2 * p.3).sum();
    assert_eq!(area, 10 * 10 * 10);
}

#[test]
fn equal_areas_go_to_first_corner_then_narrowest() {
    let merger = TileMerger::new(16);
    // Two runs of two: the one in the earlier row comes first.
    let runs = set_of(&[(5, 0), (6, 0), (0, 1), (1, 1)]);
    let rectangles = merger.merge_tiles(&runs);
    assert_eq!(rectangles, vec![Rectangle::new(5, 0, 2, 1), Rectangle::new(0, 1, 2, 1)]);
    // At one corner a column and a row of two tie: the column is narrower.
    let corner = set_of(&[(0, 0), (1, 0), (0, 1)]);
    let rectangles = merger.merge_tiles(&corner);
    assert_eq!(rectangles, vec![Rectangle::new(0, 0, 1, 2), Rectangle::new(1, 0, 1, 1)]);
}
