//! Tests of the element color table and the obstacle and resource managers.

use hexgrid::Color;
use hexgrid::ColorError;
use hexgrid::Coords;
use hexgrid::Element;
use hexgrid::HexGridCell;
use hexgrid::MeshBuilder;
use hexgrid::Obstacle;
use hexgrid::ObstacleErrorKind;
use hexgrid::ObstacleManager;
use hexgrid::Point;
use hexgrid::Resource;
use hexgrid::ResourceErrorKind;
use hexgrid::ResourceManager;
use hexgrid::Direction;
use hexgrid::from_element;
use hexgrid::side_angle;
use hexgrid::vertex_angle;

fn wc() -> Point {
    Point::new(400, 0, 300, 0)
}

fn coords(x: i64, y: i64, z: i64) -> Coords {
    Coords::new(x, y, z).unwrap()
}

#[test]
fn element_colors_are_complete_except_unset() {
    // Every element but the sentinel maps to exactly one color constant.
    let cases = [
        (Element::Fire, Color::new(1000, 0, 0, 1000)),
        (Element::Ice, Color::new(0, 1000, 1000, 1000)),
        (Element::Wind, Color::new(0, 1000, 0, 1000)),
        (Element::Water, Color::new(0, 0, 1000, 1000)),
        (Element::Electric, Color::new(1000, 1000, 0, 1000)),
        (Element::Earth, Color::new(547, 273, 78, 1000)),
        (Element::Light, Color::new(1000, 1000, 941, 1000)),
        (Element::Dark, Color::new(180, 168, 371, 1000)),
    ];
    for (elem, expected) in cases {
        assert_eq!(from_element(elem).unwrap(), expected);
    }
}

#[test]
fn unset_element_has_no_color() {
    match from_element(Element::Unset) {
        Err(ColorError::UnknownElement) => {}
        _ => panic!("the unset sentinel must be refused"),
    }
}

#[test]
fn coords_require_zero_sum() {
    assert!(Coords::new(1, 0, -1).is_some());
    assert!(Coords::new(1, 1, 1).is_none());
    assert!(Coords::new(2_000_000, -2_000_000, 0).is_none());
    let c = coords(2, -1, -1);
    assert_eq!((c.x(), c.y(), c.z()), (2, -1, -1));
}

#[test]
fn hex_cell_vertices() {
    let cell = HexGridCell::new(Point::new(0, 0, 0, 0));
    assert_eq!(cell.vertex(0), Point::new(30, 0, 0, 0));
    assert_eq!(cell.vertex(1), Point::new(15, 0, 0, -15));
    assert_eq!(cell.vertex(2), Point::new(-15, 0, 0, -15));
    assert_eq!(cell.vertex(3), Point::new(-30, 0, 0, 0));
    assert_eq!(cell.vertex(4), Point::new(-15, 0, 0, 15));
    assert_eq!(cell.vertex(5), Point::new(15, 0, 0, 15));
}

#[test]
fn obstacle_path_renders_cells_and_links() {
    // A three-cell path: 3 hex cells plus 2 shared-side override lines.
    let path = vec![coords(0, 0, 0), coords(1, 0, -1), coords(1, 1, -2)];
    let ob = Obstacle::new(path, Element::Fire);
    let mut mb = MeshBuilder::new();
    ObstacleManager::add_instance_to_mesh_builder(&ob, &mut mb, wc()).unwrap();
    assert_eq!(mb.hex_count(), 3);
    assert_eq!(mb.line_count(), 2);
    let red = Color::new(1000, 0, 0, 1000);
    let dark_grey = Color::new(250, 250, 250, 1000);
    for i in 0..3 {
        let h = mb.hex_at(i);
        assert_eq!(h.fill, red);
        assert_eq!(h.border, dark_grey);
    }
    for i in 0..2 {
        assert_eq!(mb.line_at(i).color, red);
    }
    // The first cell sits at the window center plus (90, 15*sqrt(3)) per
    // axial step: coordinate (0,0,0) is the window center itself.
    assert_eq!(mb.hex_at(0).center, wc());
    assert_eq!(mb.hex_at(1).center, Point::new(490, 0, 300, -15));
}

#[test]
fn obstacle_single_cell_has_no_links() {
    let ob = Obstacle::new(vec![coords(0, 0, 0)], Element::Ice);
    let mut mb = MeshBuilder::new();
    ObstacleManager::add_instance_to_mesh_builder(&ob, &mut mb, wc()).unwrap();
    assert_eq!(mb.hex_count(), 1);
    assert_eq!(mb.line_count(), 0);
}

#[test]
fn obstacle_unset_element_is_refused() {
    let ob = Obstacle::new(vec![coords(0, 0, 0)], Element::Unset);
    let mut mb = MeshBuilder::new();
    match ObstacleManager::add_instance_to_mesh_builder(&ob, &mut mb, wc()) {
        Err(e) if e.kind == ObstacleErrorKind::UnknownElement => {}
        _ => panic!("an unset element must be refused"),
    }
    assert_eq!(mb.hex_count(), 0);
    assert_eq!(mb.line_count(), 0);
}

#[test]
fn obstacle_non_adjacent_path_is_refused() {
    let ob = Obstacle::new(vec![coords(0, 0, 0), coords(2, 0, -2)], Element::Fire);
    let mut mb = MeshBuilder::new();
    match ObstacleManager::add_instance_to_mesh_builder(&ob, &mut mb, wc()) {
        Err(e) if e.kind == ObstacleErrorKind::NonAdjacentPath => {}
        _ => panic!("a broken path must be refused"),
    }
    assert_eq!(mb.hex_count(), 0);
    assert_eq!(mb.line_count(), 0);
}

#[test]
fn obstacle_manager_rebuild() {
    let mut mgr = ObstacleManager::new();
    assert_eq!(mgr.instances().len(), 0);
    assert_eq!(mgr.mesh().hex_count(), 0);
    mgr.push_instance(Obstacle::new(vec![coords(0, 0, 0), coords(0, 1, -1)], Element::Wind));
    mgr.push_instance(Obstacle::new(vec![coords(1, 0, -1)], Element::Earth));
    assert_eq!(mgr.instances().len(), 2);
    // Pushing does not touch the mesh; rebuilding reflects the collection.
    assert_eq!(mgr.mesh().hex_count(), 0);
    mgr.rebuild_mesh(wc()).unwrap();
    assert_eq!(mgr.mesh().hex_count(), 3);
    assert_eq!(mgr.mesh().line_count(), 1);
}

#[test]
fn obstacle_manager_rebuild_keeps_mesh_on_error() {
    let mut mgr = ObstacleManager::new();
    mgr.push_instance(Obstacle::new(vec![coords(0, 0, 0)], Element::Dark));
    mgr.rebuild_mesh(wc()).unwrap();
    assert_eq!(mgr.mesh().hex_count(), 1);
    mgr.push_instance(Obstacle::new(vec![coords(0, 0, 0)], Element::Unset));
    match mgr.rebuild_mesh(wc()) {
        Err(e) if e.kind == ObstacleErrorKind::UnknownElement => {}
        _ => panic!("a collection with an unset element must be refused"),
    }
    assert_eq!(mgr.mesh().hex_count(), 1);
    assert_eq!(mgr.instances().len(), 2);
}

#[test]
fn resource_renders_origin_plus_radials() {
    // Radius 2: the origin cell plus 3*2*(2+1) = 18 ring cells.
    let res = Resource::new(coords(0, 0, 0), 2, Element::Water);
    let mut mb = MeshBuilder::new();
    ResourceManager::add_instance_to_mesh_builder(&res, &mut mb, wc()).unwrap();
    assert_eq!(mb.hex_count(), 1 + 18);
    assert_eq!(mb.line_count(), 0);
    let blue = Color::new(0, 0, 1000, 1000);
    let white = Color::new(1000, 1000, 1000, 1000);
    for i in 0..19 {
        let h = mb.hex_at(i);
        assert_eq!(h.fill, blue);
        assert_eq!(h.border, white);
    }
    assert_eq!(mb.hex_at(0).center, wc());
}

#[test]
fn resource_zero_radius_renders_single_cell() {
    let res = Resource::new(coords(1, -1, 0), 0, Element::Light);
    let mut mb = MeshBuilder::new();
    ResourceManager::add_instance_to_mesh_builder(&res, &mut mb, wc()).unwrap();
    assert_eq!(mb.hex_count(), 1);
    assert_eq!(mb.hex_at(0).center, Point::new(490, 0, 300, 15));
}

#[test]
fn resource_unset_element_is_refused() {
    let res = Resource::new(coords(0, 0, 0), 1, Element::Unset);
    let mut mb = MeshBuilder::new();
    match ResourceManager::add_instance_to_mesh_builder(&res, &mut mb, wc()) {
        Err(e) if e.kind == ResourceErrorKind::UnknownElement => {}
        _ => panic!("an unset element must be refused"),
    }
    assert_eq!(mb.hex_count(), 0);
}

#[test]
fn resource_manager_rebuild() {
    let mut mgr = ResourceManager::new();
    mgr.push_instance(Resource::new(coords(0, 0, 0), 1, Element::Electric));
    mgr.push_instance(Resource::new(coords(0, 1, -1), 0, Element::Fire));
    assert_eq!(mgr.instances().len(), 2);
    assert_eq!(mgr.mesh().hex_count(), 0);
    mgr.rebuild_mesh(wc()).unwrap();
    // 1 + 3*1*2 = 7 cells for the first resource, 1 for the second.
    assert_eq!(mgr.mesh().hex_count(), 8);
    assert_eq!(mgr.mesh().line_count(), 0);
    assert_eq!(mgr.instances()[0].element, Element::Electric);
}

#[test]
fn resource_manager_rebuild_keeps_mesh_on_error() {
    let mut mgr = ResourceManager::new();
    mgr.push_instance(Resource::new(coords(0, 0, 0), 0, Element::Ice));
    mgr.rebuild_mesh(wc()).unwrap();
    assert_eq!(mgr.mesh().hex_count(), 1);
    mgr.push_instance(Resource::new(coords(0, 0, 0), 0, Element::Unset));
    match mgr.rebuild_mesh(wc()) {
        Err(e) if e.kind == ResourceErrorKind::UnknownElement => {}
        _ => panic!("a collection with an unset element must be refused"),
    }
    assert_eq!(mgr.mesh().hex_count(), 1);
}

#[test]
fn direction_equality_and_angle_tables() {
    assert_eq!(Direction::NORTHEAST, Direction::NORTHEAST);
    assert_ne!(Direction::NORTH, Direction::SOUTH);
    // Sides sit at the odd multiples of 30 degrees, vertices at the even.
    assert_eq!(side_angle(Direction::NORTHEAST), Some(1));
    assert_eq!(side_angle(Direction::SOUTHEAST), Some(11));
    assert_eq!(side_angle(Direction::EAST), None);
    assert_eq!(side_angle(Direction::WEST), None);
    assert_eq!(vertex_angle(Direction::EAST), Some(0));
    assert_eq!(vertex_angle(Direction::WEST), Some(6));
    assert_eq!(vertex_angle(Direction::NORTH), None);
    assert_eq!(vertex_angle(Direction::SOUTH), None);
}
