use platformer::merger::TileMerger;
use platformer::tiles::{TileCoords, TileSet};

#[test]
fn test_single_tile() {
    let merger = TileMerger::new(32);
    let mut tiles = TileSet::new();
    tiles.insert(TileCoords { x: 0, y: 0 });

    let rectangles = merger.merge_tiles(&tiles);
    assert_eq!(rectangles.len(), 1);
    assert_eq!(rectangles[0].width, 1);
    assert_eq!(rectangles[0].height, 1);
}

#[test]
fn test_horizontal_line() {
    let merger = TileMerger::new(32);
    let mut tiles = TileSet::new();

    // A horizontal line of 4 tiles
    for x in 0..4 {
        tiles.insert(TileCoords { x, y: 0 });
    }

    let rectangles = merger.merge_tiles(&tiles);
    assert_eq!(rectangles.len(), 1);
    assert_eq!(rectangles[0].width, 4);
    assert_eq!(rectangles[0].height, 1);
}

#[test]
fn test_vertical_line() {
    let merger = TileMerger::new(32);
    let mut tiles = TileSet::new();

    // A vertical line of 3 tiles
    for y in 0..3 {
        tiles.insert(TileCoords { x: 0, y });
    }

    let rectangles = merger.merge_tiles(&tiles);
    assert_eq!(rectangles.len(), 1);
    assert_eq!(rectangles[0].width, 1);
    assert_eq!(rectangles[0].height, 3);
}

#[test]
fn test_rectangle_formation() {
    let merger = TileMerger::new(32);
    let mut tiles = TileSet::new();

    // A 3x2 rectangle
    for x in 0..3 {
        for y in 0..2 {
            tiles.insert(TileCoords { x, y });
        }
    }

    let rectangles = merger.merge_tiles(&tiles);
    assert_eq!(rectangles.len(), 1);
    assert_eq!(rectangles[0].area(), 6);
}

#[test]
fn test_l_shape() {
    let merger = TileMerger::new(32);
    let mut tiles = TileSet::new();

    // An L-shape:
    // XXX
    // X
    // X
    tiles.insert(TileCoords { x: 0, y: 0 });
    tiles.insert(TileCoords { x: 1, y: 0 });
    tiles.insert(TileCoords { x: 2, y: 0 });
    tiles.insert(TileCoords { x: 0, y: 1 });
    tiles.insert(TileCoords { x: 0, y: 2 });

    let rectangles = merger.merge_tiles(&tiles);

    // Several rectangles are needed
    assert!(rectangles.len() >= 2);

    // Their areas add up to the number of tiles
    let total_area: i64 = rectangles.iter().map(|r| r.area()).sum();
    assert_eq!(total_area, 5);
}

#[test]
fn test_scattered_tiles() {
    let merger = TileMerger::new(32);
    let mut tiles = TileSet::new();

    // Scattered single tiles
    tiles.insert(TileCoords { x: 0, y: 0 });
    tiles.insert(TileCoords { x: 2, y: 2 });
    tiles.insert(TileCoords { x: 5, y: 5 });

    let rectangles = merger.merge_tiles(&tiles);

    // One rectangle per tile
    assert_eq!(rectangles.len(), 3);

    // Each of them 1x1
    for rect in rectangles {
        assert_eq!(rect.area(), 1);
    }
}

#[test]
fn test_world_coordinates() {
    let merger = TileMerger::new(32);
    let mut tiles = TileSet::new();

    // A single tile at the origin
    tiles.insert(TileCoords { x: 0, y: 0 });

    let rectangles = merger.merge_tiles(&tiles);
    let world_coords = merger.rectangles_to_world_coords(&rectangles);

    assert_eq!(world_coords.len(), 1);
    let (center_x, center_y, width, height) = world_coords[0];

    // The centre is half a tile in
    assert_eq!(center_x, 16);
    assert_eq!(center_y, 16);
    assert_eq!(width, 32);
    assert_eq!(height, 32);
}

#[test]
fn test_efficiency_improvement() {
    let merger = TileMerger::new(32);
    let mut tiles = TileSet::new();

    // A solid 10x10 block
    for x in 0..10 {
        for y in 0..10 {
            tiles.insert(TileCoords { x, y });
        }
    }

    let rectangles = merger.merge_tiles(&tiles);

    // The 100 tiles become one rectangle
    assert_eq!(rectangles.len(), 1);
    assert_eq!(rectangles[0].width, 10);
    assert_eq!(rectangles[0].height, 10);
    assert_eq!(rectangles[0].area(), 100);

    println!(
        "Efficiency test: {} tiles merged into {} colliders ({}% reduction)",
        tiles.len(),
        rectangles.len(),
        ((tiles.len() - rectangles.len()) as f32 / tiles.len() as f32 * 100.0) as i32
    );
}

#[test]
fn test_complex_level_layout() {
    let merger = TileMerger::new(32);
    let mut tiles = TileSet::new();

    // Ground platform, 20 tiles wide
    for x in 0..20 {
        tiles.insert(TileCoords { x, y: 0 });
    }

    // Left wall, 5 tiles high
    for y in 1..6 {
        tiles.insert(TileCoords { x: 0, y });
    }

    // Right wall, 5 tiles high
    for y in 1..6 {
        tiles.insert(TileCoords { x: 19, y });
    }

    // Middle platform, 8 tiles wide
    for x in 6..14 {
        tiles.insert(TileCoords { x, y: 3 });
    }

    let rectangles = merger.merge_tiles(&tiles);

    let original_count = tiles.len();
    let optimized_count = rectangles.len();

    println!(
        "Complex level test: {} tiles merged into {} colliders",
        original_count, optimized_count
    );

    // Every tile is covered
    let total_area: i64 = rectangles.iter().map(|r| r.area()).sum();
    assert_eq!(total_area, original_count as i64);

    // Far fewer colliders than tiles
    assert!(optimized_count < original_count);
    assert!(optimized_count <= 4);
}
