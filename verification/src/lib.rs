//! Hex-grid geometry and mesh construction for a tactical game world.
//!
//! The library builds the line and polygon geometry of a hexagonal world
//! grid — concentric hex rings, radiating fractal spokes, obstacle paths
//! and resource fields — into a mesh model that a rendering front end can
//! translate into engine primitives.
//!
//! Every angle that occurs in the grid is a multiple of 30 degrees, so all
//! coordinates live in the ring of numbers `a + b*sqrt(3)` with integer
//! `a` and `b`. Points are kept in that exact form, which lets the geometry
//! be stated and proved without any floating-point arithmetic; a front end
//! converts to screen floats at the boundary.

mod colors;
mod coords;
mod geometry;
mod hex_grid_cell;
mod mesh;
mod obstacle_manager;
mod resource_manager;
mod world_grid_manager;

pub use colors::Color;
pub use colors::ColorError;
pub use colors::Element;
pub use colors::from_element;
pub use coords::Coords;
pub use geometry::GRID_CELL_SIZE;
pub use geometry::Point;
pub use hex_grid_cell::HexGridCell;
pub use mesh::DEFAULT_LINE_WIDTH;
pub use mesh::HexCellPoly;
pub use mesh::Mesh;
pub use mesh::MeshBuilder;
pub use mesh::Segment;
pub use obstacle_manager::Obstacle;
pub use obstacle_manager::ObstacleError;
pub use obstacle_manager::ObstacleErrorKind;
pub use obstacle_manager::ObstacleManager;
pub use resource_manager::Resource;
pub use resource_manager::ResourceError;
pub use resource_manager::ResourceErrorKind;
pub use resource_manager::ResourceManager;
pub use world_grid_manager::Direction;
pub use world_grid_manager::MAX_GRID_RADIUS;
pub use world_grid_manager::side_angle;
pub use world_grid_manager::vertex_angle;
pub use world_grid_manager::GridError;
pub use world_grid_manager::WorldGridManager;
