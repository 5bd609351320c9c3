//! Tests of the world grid drawing: segment counts, ordering, endpoint
//! geometry and configuration handling.

use hexgrid::Color;
use hexgrid::GridError;
use hexgrid::MeshBuilder;
use hexgrid::Point;
use hexgrid::WorldGridManager;
use hexgrid::MAX_GRID_RADIUS;

fn origin() -> Point {
    Point::new(0, 0, 0, 0)
}

fn white() -> Color {
    Color::new(1000, 1000, 1000, 1000)
}

fn green() -> Color {
    Color::new(0, 1000, 0, 1000)
}

#[test]
fn new_accepts_radius_up_to_bound() {
    assert!(WorldGridManager::new(0).is_ok());
    assert!(WorldGridManager::new(MAX_GRID_RADIUS).is_ok());
    let mgr = WorldGridManager::new(5).unwrap();
    assert_eq!(mgr.get_grid_size(), 5);
}

#[test]
fn new_refuses_radius_over_bound() {
    match WorldGridManager::new(MAX_GRID_RADIUS + 1) {
        Err(GridError::InvalidConfiguration) => {}
        _ => panic!("an oversized radius must be refused"),
    }
}

#[test]
fn draw_grid_zero_radius_emits_nothing() {
    let mgr = WorldGridManager::new(0).unwrap();
    let mut mb = MeshBuilder::new();
    mgr.draw_grid(origin(), &mut mb);
    assert_eq!(mb.line_count(), 0);
    assert_eq!(mb.hex_count(), 0);
}

#[test]
fn hex_draw_emits_six_segments_per_ring() {
    let mgr = WorldGridManager::new(3).unwrap();
    let mut mb = MeshBuilder::new();
    mgr.recursive_hex_draw(white(), origin(), 0, &mut mb);
    assert_eq!(mb.line_count(), 6 * 3);
}

#[test]
fn hex_draw_from_inner_level_emits_remaining_rings() {
    let mgr = WorldGridManager::new(4).unwrap();
    let mut mb = MeshBuilder::new();
    mgr.recursive_hex_draw(white(), origin(), 1, &mut mb);
    assert_eq!(mb.line_count(), 6 * 3);
}

#[test]
fn spoke_draw_emits_binary_tree_of_segments() {
    let mgr = WorldGridManager::new(3).unwrap();
    let mut mb = MeshBuilder::new();
    mgr.recursive_spoke_draw(green(), origin(), 0, 0, &mut mb);
    // 3 segments per node of a full binary tree of depth 3
    assert_eq!(mb.line_count(), 3 * ((1 << 3) - 1));
}

#[test]
fn spoke_draw_all_directions_total() {
    let radius = 4u32;
    let mgr = WorldGridManager::new(radius).unwrap();
    let mut mb = MeshBuilder::new();
    for theta in [0u8, 2, 4, 6, 8, 10] {
        let o = origin();
        mgr.recursive_spoke_draw(green(), o, theta, 0, &mut mb);
    }
    assert_eq!(mb.line_count(), 6 * 3 * ((1usize << radius) - 1));
}

#[test]
fn draw_grid_total_segment_count() {
    let radius = 3u32;
    let mgr = WorldGridManager::new(radius).unwrap();
    let mut mb = MeshBuilder::new();
    mgr.draw_grid(origin(), &mut mb);
    let expected = 6 * (radius as usize) + 6 * 3 * ((1usize << radius) - 1);
    assert_eq!(mb.line_count(), expected);
    assert_eq!(mb.hex_count(), 0);
}

#[test]
fn draw_grid_appends_after_existing_lines() {
    let mgr = WorldGridManager::new(1).unwrap();
    let mut mb = MeshBuilder::new();
    mb.line(origin(), Point::new(1, 0, 0, 0), 1000, white());
    mgr.draw_grid(origin(), &mut mb);
    assert_eq!(mb.line_count(), 1 + 6 + 18);
    assert_eq!(mb.line_at(0).b, Point::new(1, 0, 0, 0));
}

#[test]
fn first_ring_side_segment_coordinates() {
    // Ring 0, northeast side: endpoints one cell size from the center at 0
    // and 60 degrees, y measured downward.
    let mgr = WorldGridManager::new(1).unwrap();
    let mut mb = MeshBuilder::new();
    mgr.recursive_hex_draw(white(), origin(), 0, &mut mb);
    let s = mb.line_at(0);
    assert_eq!(s.a, Point::new(30, 0, 0, 0));
    assert_eq!(s.b, Point::new(15, 0, 0, -15));
    assert_eq!(s.width, 1000);
    assert_eq!(s.color, white());
}

#[test]
fn translated_ring_side_segment_coordinates() {
    // Ring 2, northeast side: both endpoints moved two hex widths along the
    // 30-degree direction, which adds (90, 0) to x and (0, -30) to y.
    let mgr = WorldGridManager::new(3).unwrap();
    let mut mb = MeshBuilder::new();
    mgr.recursive_hex_draw(white(), origin(), 0, &mut mb);
    let s = mb.line_at(12);
    assert_eq!(s.a, Point::new(120, 0, 0, -30));
    assert_eq!(s.b, Point::new(105, 0, 0, -45));
}

fn norm_sq(dxr: i64, dxs: i64, dyr: i64, dys: i64) -> (i64, i64) {
    (
        dxr * dxr + 3 * dxs * dxs + dyr * dyr + 3 * dys * dys,
        2 * dxr * dxs + 2 * dyr * dys,
    )
}

#[test]
fn ring_side_endpoints_are_equidistant_from_translated_center() {
    // Every side segment of rings 0..3: both endpoints sit at squared
    // distance 900 from the ring center translated for that side and level.
    let mgr = WorldGridManager::new(3).unwrap();
    let mut mb = MeshBuilder::new();
    mgr.recursive_hex_draw(white(), origin(), 0, &mut mb);
    // Doubled cosine/sine parts of the side angles 30, 90, ..., 330 degrees.
    let cos2: [(i64, i64); 6] = [(0, 1), (0, 0), (0, -1), (0, -1), (0, 0), (0, 1)];
    let sin2: [(i64, i64); 6] = [(1, 0), (2, 0), (1, 0), (-1, 0), (-2, 0), (-1, 0)];
    for level in 0..3i64 {
        for side in 0..6usize {
            let s = mb.line_at((level as usize) * 6 + side);
            let cx_r = 45 * level * cos2[side].1;
            let cx_s = 15 * level * cos2[side].0;
            let cy_r = -45 * level * sin2[side].1;
            let cy_s = -15 * level * sin2[side].0;
            let na = norm_sq(s.a.xr - cx_r, s.a.xs - cx_s, s.a.yr - cy_r, s.a.ys - cy_s);
            let nb = norm_sq(s.b.xr - cx_r, s.b.xs - cx_s, s.b.yr - cy_r, s.b.ys - cy_s);
            assert_eq!(na, (900, 0));
            assert_eq!(nb, (900, 0));
            assert_eq!(na, nb);
        }
    }
}

#[test]
fn spoke_segments_coordinates_east() {
    // One spoke level heading east: stem one cell size along x, branches at
    // 60 degrees above and below it.
    let mgr = WorldGridManager::new(1).unwrap();
    let mut mb = MeshBuilder::new();
    mgr.recursive_spoke_draw(green(), origin(), 0, 0, &mut mb);
    assert_eq!(mb.line_count(), 3);
    let stem = mb.line_at(0);
    assert_eq!(stem.a, Point::new(0, 0, 0, 0));
    assert_eq!(stem.b, Point::new(30, 0, 0, 0));
    let up = mb.line_at(1);
    assert_eq!(up.a, Point::new(30, 0, 0, 0));
    assert_eq!(up.b, Point::new(45, 0, 0, -15));
    let down = mb.line_at(2);
    assert_eq!(down.a, Point::new(30, 0, 0, 0));
    assert_eq!(down.b, Point::new(45, 0, 0, 15));
    // The grid's strokes are white regardless of the threaded shade.
    assert_eq!(stem.color, white());
    assert_eq!(up.color, white());
    assert_eq!(down.color, white());
}

#[test]
fn mesh_build_keeps_primitives() {
    let mgr = WorldGridManager::new(2).unwrap();
    let mut mb = MeshBuilder::new();
    mgr.draw_grid(origin(), &mut mb);
    let n = mb.line_count();
    let first = mb.line_at(0);
    let mesh = mb.build();
    assert_eq!(mesh.line_count(), n);
    assert_eq!(mesh.hex_count(), 0);
    assert_eq!(mesh.line_at(0), first);
}
