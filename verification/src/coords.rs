//! Hex-axial coordinates and their mapping onto the drawing plane.
//!
//! A cell is addressed by three axial components that always sum to zero;
//! the third is redundant but kept, as the mechanics layer keeps it. The
//! conversion to a screen-space cell center and the offset-to-direction
//! lookup used for path adjacency live here.

use vstd::prelude::*;

use crate::geometry::GPoint;
use crate::geometry::Point;
use crate::geometry::in_bounds;
use crate::world_grid_manager::CENTER_LIMIT;
use crate::world_grid_manager::Direction;

verus! {

/// Largest axial component magnitude a coordinate may carry: a sanity bound
/// that keeps every derived screen coordinate far inside `i64`.
pub const COORD_RANGE: i64 = 1_000_000;

/// Coordinate magnitude within which every cell center derived from a grid
/// center within `CENTER_LIMIT` stays.
pub const CELL_LIMIT: i64 = CENTER_LIMIT + 100_000_000;

/// Mathematical model of an axial coordinate.
pub ghost struct GCoords {
    pub x: int,
    pub y: int,
    pub z: int,
}

/// A hex-axial coordinate: three components summing to zero, each within
/// `COORD_RANGE`.
#[derive(Clone, Copy, Debug, PartialEq, Eq, Structural)]
pub struct Coords {
    x: i64,
    y: i64,
    z: i64,
}

impl View for Coords {
    type V = GCoords;

    closed spec fn view(&self) -> GCoords {
        GCoords { x: self.x as int, y: self.y as int, z: self.z as int }
    }
}

/// The components form a valid axial coordinate: they sum to zero and each
/// lies within the sanity bound.
pub open spec fn coords_ok(x: int, y: int, z: int) -> bool {
    &&& x + y + z == 0
    &&& -COORD_RANGE <= x <= COORD_RANGE
    &&& -COORD_RANGE <= y <= COORD_RANGE
    &&& -COORD_RANGE <= z <= COORD_RANGE
}

impl Coords {
    /// Holds of every value of the type: the components are a valid axial
    /// coordinate.
    #[verifier::type_invariant]
    pub open spec fn wf(&self) -> bool {
        coords_ok(self@.x, self@.y, self@.z)
    }

    /// Builds the coordinate `(x, y, z)`; refused unless the components sum
    /// to zero and each lies within `COORD_RANGE`.
    pub fn new(x: i64, y: i64, z: i64) -> (r: Option<Coords>)
        ensures
            r is Some <==> coords_ok(x as int, y as int, z as int),
            r is Some ==> r->0@ == (GCoords { x: x as int, y: y as int, z: z as int }),
    {
        if -COORD_RANGE <= x && x <= COORD_RANGE && -COORD_RANGE <= y && y <= COORD_RANGE
            && -COORD_RANGE <= z && z <= COORD_RANGE && x + y + z == 0 {
            Some(Coords { x, y, z })
        } else {
            None
        }
    }

    /// The first axial component.
    pub fn x(&self) -> (r: i64)
        ensures
            r == self@.x,
    {
        self.x
    }

    /// The second axial component.
    pub fn y(&self) -> (r: i64)
        ensures
            r == self@.y,
    {
        self.y
    }

    /// The third, redundant axial component.
    pub fn z(&self) -> (r: i64)
        ensures
            r == self@.z,
    {
        self.z
    }
}

/// The compass direction whose hex side a cell shares with the neighbor at
/// axial offset `(dx, dy, dz)`, if the offset is one of the six unit steps.
pub open spec fn spec_offset_direction(dx: int, dy: int, dz: int) -> Option<Direction> {
    if dx == 0 && dy == 1 && dz == -1 {
        Some(Direction::NORTH)
    } else if dx == 1 && dy == 0 && dz == -1 {
        Some(Direction::NORTHEAST)
    } else if dx == 1 && dy == -1 && dz == 0 {
        Some(Direction::SOUTHEAST)
    } else if dx == 0 && dy == -1 && dz == 1 {
        Some(Direction::SOUTH)
    } else if dx == -1 && dy == 0 && dz == 1 {
        Some(Direction::SOUTHWEST)
    } else if dx == -1 && dy == 1 && dz == 0 {
        Some(Direction::NORTHWEST)
    } else {
        None
    }
}

/// The direction of the side that the cell at `cur` shares with the cell at
/// `prev`, looked up from the axial offset `prev - cur`; `None` when the
/// two cells are not adjacent.
pub fn shared_side_direction(prev: &Coords, cur: &Coords) -> (r: Option<Direction>)
    ensures
        r == spec_offset_direction(prev@.x - cur@.x, prev@.y - cur@.y, prev@.z - cur@.z),
{
    proof {
        use_type_invariant(*prev);
        use_type_invariant(*cur);
    }
    let dx = prev.x - cur.x;
    let dy = prev.y - cur.y;
    let dz = prev.z - cur.z;
    if dx == 0 && dy == 1 && dz == -1 {
        Some(Direction::NORTH)
    } else if dx == 1 && dy == 0 && dz == -1 {
        Some(Direction::NORTHEAST)
    } else if dx == 1 && dy == -1 && dz == 0 {
        Some(Direction::SOUTHEAST)
    } else if dx == 0 && dy == -1 && dz == 1 {
        Some(Direction::SOUTH)
    } else if dx == -1 && dy == 0 && dz == 1 {
        Some(Direction::SOUTHWEST)
    } else if dx == -1 && dy == 1 && dz == 0 {
        Some(Direction::NORTHWEST)
    } else {
        None
    }
}

/// The screen-space center of the cell at `c`, relative to the window
/// center: the first axial component moves the point three vertex radii
/// along x, the other two move it along y by the height of a cell side's
/// projection, exactly as the renderer places cells.
pub open spec fn spec_cell_center(wc: GPoint, c: GCoords) -> GPoint {
    GPoint { xr: wc.xr + 90 * c.x, xs: wc.xs, yr: wc.yr, ys: wc.ys + 15 * (c.z - c.y) }
}

/// Computes the screen-space center of the cell at `c` around the window
/// center `wc`.
pub fn cell_center(wc: &Point, c: &Coords) -> (r: Point)
    requires
        in_bounds(wc@, CENTER_LIMIT as int),
    ensures
        r@ == spec_cell_center(wc@, c@),
        in_bounds(r@, CELL_LIMIT as int),
{
    proof {
        use_type_invariant(*c);
    }
    Point { xr: wc.xr + 90 * c.x, xs: wc.xs, yr: wc.yr, ys: wc.ys + 15 * (c.z - c.y) }
}

} // verus!
