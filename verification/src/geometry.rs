//! Exact plane geometry over the ring `a + b*sqrt(3)`.
//!
//! Every direction the grid uses is a multiple of 30 degrees, and both the
//! cosine and the sine of such an angle are of the form `(a + b*sqrt(3)) / 2`
//! with small integers `a` and `b`. Scaling by the even cell size keeps every
//! coordinate an integer pair `(a, b)` standing for `a + b*sqrt(3)`, so all
//! point arithmetic is exact integer arithmetic.

use vstd::prelude::*;

verus! {

/// Distance from a hex cell's center to each of its six vertices, in pixels.
pub const GRID_CELL_SIZE: i64 = 30;

/// Half the cell size; the scale factor applied to doubled cosines.
pub const HALF_CELL: i64 = 15;

/// Mathematical model of a point: `x = xr + xs*sqrt(3)`, `y = yr + ys*sqrt(3)`.
pub ghost struct GPoint {
    pub xr: int,
    pub xs: int,
    pub yr: int,
    pub ys: int,
}

/// A point of the drawing plane, in exact `a + b*sqrt(3)` coordinates.
///
/// `x = xr + xs*sqrt(3)` and `y = yr + ys*sqrt(3)`, with the y axis pointing
/// down the screen as the renderer has it.
#[derive(Clone, Copy, Debug, PartialEq, Eq, Structural)]
pub struct Point {
    pub xr: i64,
    pub xs: i64,
    pub yr: i64,
    pub ys: i64,
}

impl View for Point {
    type V = GPoint;

    open spec fn view(&self) -> GPoint {
        GPoint { xr: self.xr as int, xs: self.xs as int, yr: self.yr as int, ys: self.ys as int }
    }
}

impl Point {
    /// Builds the point `(xr + xs*sqrt(3), yr + ys*sqrt(3))`.
    pub fn new(xr: i64, xs: i64, yr: i64, ys: i64) -> (p: Point)
        ensures
            p@ == (GPoint { xr: xr as int, xs: xs as int, yr: yr as int, ys: ys as int }),
    {
        Point { xr, xs, yr, ys }
    }
}

/// Twice the cosine of `k * 30` degrees, as the pair `(a, b)` with
/// `2*cos = a + b*sqrt(3)`.
pub open spec fn cos_parts(k: int) -> (int, int) {
    if k == 0 {
        (2, 0)
    } else if k == 1 {
        (0, 1)
    } else if k == 2 {
        (1, 0)
    } else if k == 3 {
        (0, 0)
    } else if k == 4 {
        (-1, 0)
    } else if k == 5 {
        (0, -1)
    } else if k == 6 {
        (-2, 0)
    } else if k == 7 {
        (0, -1)
    } else if k == 8 {
        (-1, 0)
    } else if k == 9 {
        (0, 0)
    } else if k == 10 {
        (1, 0)
    } else {
        (0, 1)
    }
}

/// Twice the sine of `k * 30` degrees, as the pair `(a, b)` with
/// `2*sin = a + b*sqrt(3)`.
pub open spec fn sin_parts(k: int) -> (int, int) {
    if k == 0 {
        (0, 0)
    } else if k == 1 {
        (1, 0)
    } else if k == 2 {
        (0, 1)
    } else if k == 3 {
        (2, 0)
    } else if k == 4 {
        (0, 1)
    } else if k == 5 {
        (1, 0)
    } else if k == 6 {
        (0, 0)
    } else if k == 7 {
        (-1, 0)
    } else if k == 8 {
        (0, -1)
    } else if k == 9 {
        (-2, 0)
    } else if k == 10 {
        (0, -1)
    } else {
        (-1, 0)
    }
}

/// All doubled cosine and sine parts are within `[-2, 2]`.
pub proof fn lemma_parts_bounded(k: int)
    ensures
        -2 <= cos_parts(k).0 <= 2,
        -2 <= cos_parts(k).1 <= 2,
        -2 <= sin_parts(k).0 <= 2,
        -2 <= sin_parts(k).1 <= 2,
{
}

/// Vector sum of two points.
pub open spec fn gpt_add(p: GPoint, q: GPoint) -> GPoint {
    GPoint { xr: p.xr + q.xr, xs: p.xs + q.xs, yr: p.yr + q.yr, ys: p.ys + q.ys }
}

/// Vector difference of two points.
pub open spec fn gpt_sub(p: GPoint, q: GPoint) -> GPoint {
    GPoint { xr: p.xr - q.xr, xs: p.xs - q.xs, yr: p.yr - q.yr, ys: p.ys - q.ys }
}

/// Squared euclidean length of the vector `v`, as the exact pair `(a, b)`
/// standing for `a + b*sqrt(3)`.
pub open spec fn norm_sq(v: GPoint) -> (int, int) {
    (
        v.xr * v.xr + 3 * v.xs * v.xs + v.yr * v.yr + 3 * v.ys * v.ys,
        2 * v.xr * v.xs + 2 * v.yr * v.ys,
    )
}

/// The angle index one step of 30 degrees below `k`, wrapped into `[0, 12)`.
pub open spec fn turn_back_1(k: int) -> int
    recommends
        0 <= k < 12,
{
    if k == 0 {
        11
    } else {
        k - 1
    }
}

/// The angle index one step of 30 degrees above `k`, wrapped into `[0, 12)`.
pub open spec fn turn_fwd_1(k: int) -> int
    recommends
        0 <= k < 12,
{
    if k == 11 {
        0
    } else {
        k + 1
    }
}

/// The angle index two steps of 30 degrees above `k` (60 degrees), wrapped.
pub open spec fn turn_fwd_2(k: int) -> int
    recommends
        0 <= k < 12,
{
    if k >= 10 {
        k - 10
    } else {
        k + 2
    }
}

/// The angle index two steps of 30 degrees below `k` (60 degrees), wrapped.
pub open spec fn turn_back_2(k: int) -> int
    recommends
        0 <= k < 12,
{
    if k < 2 {
        k + 10
    } else {
        k - 2
    }
}

/// Every coordinate part of `p` lies within `[-m, m]`.
pub open spec fn in_bounds(p: GPoint, m: int) -> bool {
    &&& -m <= p.xr <= m
    &&& -m <= p.xs <= m
    &&& -m <= p.yr <= m
    &&& -m <= p.ys <= m
}

/// The model of stepping one cell size from `p` along the angle `k * 30`
/// degrees, with the screen's y axis pointing down.
pub open spec fn cell_offset(p: GPoint, k: int) -> GPoint {
    GPoint {
        xr: p.xr + HALF_CELL * cos_parts(k).0,
        xs: p.xs + HALF_CELL * cos_parts(k).1,
        yr: p.yr - HALF_CELL * sin_parts(k).0,
        ys: p.ys - HALF_CELL * sin_parts(k).1,
    }
}

/// Doubled cosine of `k * 30` degrees as exact integer parts.
pub fn cos_parts_exec(k: u8) -> (r: (i64, i64))
    requires
        k < 12,
    ensures
        (r.0 as int, r.1 as int) == cos_parts(k as int),
{
    match k {
        0 => (2, 0),
        1 => (0, 1),
        2 => (1, 0),
        3 => (0, 0),
        4 => (-1, 0),
        5 => (0, -1),
        6 => (-2, 0),
        7 => (0, -1),
        8 => (-1, 0),
        9 => (0, 0),
        10 => (1, 0),
        _ => (0, 1),
    }
}

/// Doubled sine of `k * 30` degrees as exact integer parts.
pub fn sin_parts_exec(k: u8) -> (r: (i64, i64))
    requires
        k < 12,
    ensures
        (r.0 as int, r.1 as int) == sin_parts(k as int),
{
    match k {
        0 => (0, 0),
        1 => (1, 0),
        2 => (0, 1),
        3 => (2, 0),
        4 => (0, 1),
        5 => (1, 0),
        6 => (0, 0),
        7 => (-1, 0),
        8 => (0, -1),
        9 => (-2, 0),
        10 => (0, -1),
        _ => (-1, 0),
    }
}

/// Steps one cell size from `p` along the angle `k * 30` degrees.
pub fn cell_offset_exec(p: &Point, k: u8) -> (r: Point)
    requires
        k < 12,
        in_bounds(p@, i64::MAX - 30),
    ensures
        r@ == cell_offset(p@, k as int),
{
    let c = cos_parts_exec(k);
    let s = sin_parts_exec(k);
    Point {
        xr: p.xr + HALF_CELL * c.0,
        xs: p.xs + HALF_CELL * c.1,
        yr: p.yr - HALF_CELL * s.0,
        ys: p.ys - HALF_CELL * s.1,
    }
}

} // verus!
