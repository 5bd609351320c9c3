//! The world grid: concentric hex rings and radiating fractal spokes.
//!
//! `WorldGridManager` holds the number of rings to draw and emits, into a
//! caller-supplied mesh builder, the line segments of the grid: six side
//! segments per ring level, and a binary branching spoke in each of the six
//! vertex directions. The exact sequence of emitted segments is pinned down
//! by the spec functions below, and the counting laws over them are proved
//! at the end of the module.

use vstd::prelude::*;

use crate::colors::Color;
use crate::colors::GColor;
use crate::colors::spec_green;
use crate::colors::spec_white;
use crate::colors::green;
use crate::colors::white;
use crate::geometry::GPoint;
use crate::geometry::Point;
use crate::geometry::gpt_add;
use crate::geometry::gpt_sub;
use crate::geometry::norm_sq;
use crate::geometry::cell_offset;
use crate::geometry::cell_offset_exec;
use crate::geometry::cos_parts;
use crate::geometry::cos_parts_exec;
use crate::geometry::in_bounds;
use crate::geometry::lemma_parts_bounded;
use crate::geometry::sin_parts;
use crate::geometry::sin_parts_exec;
use crate::geometry::turn_back_1;
use crate::geometry::turn_back_2;
use crate::geometry::turn_fwd_1;
use crate::geometry::turn_fwd_2;
use crate::mesh::DEFAULT_LINE_WIDTH;
use crate::mesh::GSegment;
use crate::mesh::MeshBuilder;

verus! {

/// The largest ring count a `WorldGridManager` accepts. The spoke fractal
/// emits on the order of `2^rings` segments, so larger counts are refused
/// as an invalid configuration rather than allowed to explode the mesh.
pub const MAX_GRID_RADIUS: u32 = 16;

/// Coordinate magnitude up to which a grid center may be placed. Every
/// point the drawing derives from such a center stays far inside `i64`.
pub const CENTER_LIMIT: i64 = 1_000_000_000_000;

/// Channel magnitude up to which a spoke shade may start. The shading
/// arithmetic moves a channel by at most 100 per level.
pub const SHADE_LIMIT: i32 = 1_000_000;

/// An eight-way compass direction over the hex grid.
///
/// The six intercardinal and north/south directions index the midpoints of a
/// hex cell's sides; east, the four diagonals and west index its vertices.
#[derive(Clone, Copy, Debug, Hash, PartialEq, Eq, Structural)]
pub enum Direction {
    EAST,
    NORTHEAST,
    NORTH,
    NORTHWEST,
    WEST,
    SOUTHWEST,
    SOUTH,
    SOUTHEAST,
}

/// The angle of the hex side midpoint in direction `d`, in steps of 30
/// degrees counterclockwise from east, for the six directions that name a
/// side.
pub open spec fn spec_side_angle(d: Direction) -> Option<int> {
    match d {
        Direction::NORTHEAST => Some(1int),
        Direction::NORTH => Some(3int),
        Direction::NORTHWEST => Some(5int),
        Direction::SOUTHWEST => Some(7int),
        Direction::SOUTH => Some(9int),
        Direction::SOUTHEAST => Some(11int),
        _ => None,
    }
}

/// The angle of the hex vertex in direction `d`, in steps of 30 degrees
/// counterclockwise from east, for the six directions that name a vertex.
pub open spec fn spec_vertex_angle(d: Direction) -> Option<int> {
    match d {
        Direction::EAST => Some(0int),
        Direction::NORTHEAST => Some(2int),
        Direction::NORTHWEST => Some(4int),
        Direction::WEST => Some(6int),
        Direction::SOUTHWEST => Some(8int),
        Direction::SOUTHEAST => Some(10int),
        _ => None,
    }
}

/// The angle index of the hex side midpoint in direction `d`, if `d` names
/// a side.
pub fn side_angle(d: Direction) -> (r: Option<u8>)
    ensures
        r is Some <==> spec_side_angle(d) is Some,
        r is Some ==> r->0 as int == spec_side_angle(d)->0 && r->0 < 12,
{
    match d {
        Direction::NORTHEAST => Some(1),
        Direction::NORTH => Some(3),
        Direction::NORTHWEST => Some(5),
        Direction::SOUTHWEST => Some(7),
        Direction::SOUTH => Some(9),
        Direction::SOUTHEAST => Some(11),
        _ => None,
    }
}

/// The angle index of the hex vertex in direction `d`, if `d` names a
/// vertex.
pub fn vertex_angle(d: Direction) -> (r: Option<u8>)
    ensures
        r is Some <==> spec_vertex_angle(d) is Some,
        r is Some ==> r->0 as int == spec_vertex_angle(d)->0 && r->0 < 12,
{
    match d {
        Direction::EAST => Some(0),
        Direction::NORTHEAST => Some(2),
        Direction::NORTHWEST => Some(4),
        Direction::WEST => Some(6),
        Direction::SOUTHWEST => Some(8),
        Direction::SOUTHEAST => Some(10),
        _ => None,
    }
}

/// A grid configuration the manager refuses.
#[derive(Clone, Copy, Debug, PartialEq, Eq, Structural)]
pub enum GridError {
    /// The requested ring count is over `MAX_GRID_RADIUS`.
    InvalidConfiguration,
}

/// Draws the world grid: `max_radial_distance` concentric hex rings plus
/// the six vertex spokes, all radiating from a caller-given center.
pub struct WorldGridManager {
    max_radial_distance: u32,
}

/// The center of the ring at `level`, for the side in angle direction `k`:
/// the grid center translated `level` hex widths (a hex width is
/// `2 * GRID_CELL_SIZE * sin(60 degrees)`, i.e. `GRID_CELL_SIZE * sqrt(3)`)
/// along the angle `k * 30` degrees.
pub open spec fn level_center(center: GPoint, k: int, level: int) -> GPoint {
    GPoint {
        xr: center.xr + 45 * level * cos_parts(k).1,
        xs: center.xs + 15 * level * cos_parts(k).0,
        yr: center.yr - 45 * level * sin_parts(k).1,
        ys: center.ys - 15 * level * sin_parts(k).0,
    }
}

/// The side segment of ring `level` whose midpoint lies in angle direction
/// `k`: its endpoints sit one cell size from the translated ring center, at
/// 30 degrees to either side of `k`, and it is stroked white at the default
/// width.
pub open spec fn hex_side_segment(center: GPoint, k: int, level: int) -> GSegment {
    let c = level_center(center, k, level);
    GSegment {
        a: cell_offset(c, turn_back_1(k)),
        b: cell_offset(c, turn_fwd_1(k)),
        width: DEFAULT_LINE_WIDTH as int,
        color: spec_white(),
    }
}

/// The six side segments of ring `level`, in the side table's order:
/// northeast, north, northwest, southwest, south, southeast.
pub open spec fn hex_level_segments(center: GPoint, level: int) -> Seq<GSegment> {
    seq![
        hex_side_segment(center, 1, level),
        hex_side_segment(center, 3, level),
        hex_side_segment(center, 5, level),
        hex_side_segment(center, 7, level),
        hex_side_segment(center, 9, level),
        hex_side_segment(center, 11, level),
    ]
}

/// The segments of rings `level` up to (not including) `max`, level by
/// level from the inside out.
pub open spec fn grid_ring_seq(center: GPoint, level: nat, max: nat) -> Seq<GSegment>
    decreases max - level,
{
    if level >= max {
        Seq::empty()
    } else {
        hex_level_segments(center, level as int) + grid_ring_seq(center, (level + 1) as nat, max)
    }
}

/// The shade handed to the first branch of a spoke node: red gains a tenth,
/// green loses a tenth.
pub open spec fn branch_shade_fst(c: GColor) -> GColor {
    GColor { r: c.r + 100, g: c.g - 100, b: c.b, a: c.a }
}

/// The shade handed to the second branch of a spoke node: green loses a
/// tenth, and red is reassigned from the current blue channel plus a tenth.
/// The asymmetry against the first branch is long-standing drawing behavior
/// and is kept as it is.
pub open spec fn branch_shade_snd(c: GColor) -> GColor {
    GColor { r: c.b + 100, g: c.g - 100, b: c.b, a: c.a }
}

/// The segments of one spoke subtree rooted at `origin` heading along the
/// angle `k * 30` degrees at depth `level`: a stem one cell size long, two
/// branches at 60 degrees to either side of the stem, then the two subtrees
/// under the branch tips. Every segment is stroked white; the `shade`
/// parameter is threaded through the recursion with its per-level decay,
/// but the stroke color does not read it.
pub open spec fn spoke_seq(origin: GPoint, k: int, shade: GColor, level: nat, max: nat) -> Seq<
    GSegment,
>
    decreases max - level,
{
    if level >= max {
        Seq::empty()
    } else {
        let stem = cell_offset(origin, k);
        let tip_fst = cell_offset(stem, turn_fwd_2(k));
        let tip_snd = cell_offset(stem, turn_back_2(k));
        seq![
            GSegment { a: origin, b: stem, width: DEFAULT_LINE_WIDTH as int, color: spec_white() },
            GSegment { a: stem, b: tip_fst, width: DEFAULT_LINE_WIDTH as int, color: spec_white() },
            GSegment { a: stem, b: tip_snd, width: DEFAULT_LINE_WIDTH as int, color: spec_white() },
        ] + spoke_seq(tip_fst, k, branch_shade_fst(shade), (level + 1) as nat, max)
            + spoke_seq(tip_snd, k, branch_shade_snd(shade), (level + 1) as nat, max)
    }
}

/// The whole grid drawing: the ring segments from level 0 outward, then one
/// spoke per vertex direction in the vertex table's order (east, northeast,
/// northwest, west, southwest, southeast), each starting one cell size from
/// the center along its vertex angle.
pub open spec fn draw_grid_seq(center: GPoint, max: nat) -> Seq<GSegment> {
    grid_ring_seq(center, 0, max) + spoke_seq(cell_offset(center, 0), 0, spec_green(), 0, max)
        + spoke_seq(cell_offset(center, 2), 2, spec_green(), 0, max)
        + spoke_seq(cell_offset(center, 4), 4, spec_green(), 0, max)
        + spoke_seq(cell_offset(center, 6), 6, spec_green(), 0, max)
        + spoke_seq(cell_offset(center, 8), 8, spec_green(), 0, max)
        + spoke_seq(cell_offset(center, 10), 10, spec_green(), 0, max)
}

/// Every channel of `c` lies within `[-m, m]`.
pub open spec fn shade_in_range(c: GColor, m: int) -> bool {
    &&& -m <= c.r <= m
    &&& -m <= c.g <= m
    &&& -m <= c.b <= m
    &&& -m <= c.a <= m
}

/// A spoke origin at depth `level` stays within this coordinate magnitude:
/// the drawing moves an origin by at most 60 units per level from a center
/// within `CENTER_LIMIT`.
pub open spec fn spoke_origin_in_range(p: GPoint, level: int) -> bool {
    in_bounds(p, CENTER_LIMIT + 60 + 60 * level)
}

/// A spoke shade at depth `level` stays within this channel magnitude.
pub open spec fn spoke_shade_in_range(c: GColor, level: int) -> bool {
    shade_in_range(c, SHADE_LIMIT + 100 * level)
}

impl WorldGridManager {
    /// The configured ring count.
    pub closed spec fn grid_size(&self) -> nat {
        self.max_radial_distance as nat
    }

    /// The configured ring count is within the accepted bound.
    pub closed spec fn wf(&self) -> bool {
        self.max_radial_distance <= MAX_GRID_RADIUS
    }

    /// Accepts a ring count up to `MAX_GRID_RADIUS` and refuses anything
    /// larger as an invalid configuration.
    pub fn new(max_radial_distance: u32) -> (r: Result<WorldGridManager, GridError>)
        ensures
            r is Ok <==> max_radial_distance <= MAX_GRID_RADIUS,
            r is Ok ==> r->Ok_0.grid_size() == max_radial_distance && r->Ok_0.wf(),
            r is Err ==> r->Err_0 == GridError::InvalidConfiguration,
    {
        if max_radial_distance <= MAX_GRID_RADIUS {
            Ok(WorldGridManager { max_radial_distance })
        } else {
            Err(GridError::InvalidConfiguration)
        }
    }

    /// The configured ring count.
    pub fn get_grid_size(&self) -> (n: u32)
        ensures
            n == self.grid_size(),
    {
        self.max_radial_distance
    }

    /// Draws the baseline hex grid around `center` into `mesh_builder`:
    /// the concentric rings, then the six vertex spokes, exactly the
    /// segments of `draw_grid_seq`. Polygons already in the builder are
    /// untouched.
    pub fn draw_grid(&self, center: Point, mesh_builder: &mut MeshBuilder)
        requires
            self.wf(),
            in_bounds(center@, CENTER_LIMIT as int),
        ensures
            final(mesh_builder)@.lines == old(mesh_builder)@.lines + draw_grid_seq(
                center@,
                self.grid_size(),
            ),
            final(mesh_builder)@.hexes == old(mesh_builder)@.hexes,
    {
        self.recursive_hex_draw(white(), center, 0, mesh_builder);
        let origin_e = cell_offset_exec(&center, 0);
        proof {
            lemma_parts_bounded(0);
        }
        self.recursive_spoke_draw(green(), origin_e, 0, 0, mesh_builder);
        let origin_ne = cell_offset_exec(&center, 2);
        proof {
            lemma_parts_bounded(2);
        }
        self.recursive_spoke_draw(green(), origin_ne, 2, 0, mesh_builder);
        let origin_nw = cell_offset_exec(&center, 4);
        proof {
            lemma_parts_bounded(4);
        }
        self.recursive_spoke_draw(green(), origin_nw, 4, 0, mesh_builder);
        let origin_w = cell_offset_exec(&center, 6);
        proof {
            lemma_parts_bounded(6);
        }
        self.recursive_spoke_draw(green(), origin_w, 6, 0, mesh_builder);
        let origin_sw = cell_offset_exec(&center, 8);
        proof {
            lemma_parts_bounded(8);
        }
        self.recursive_spoke_draw(green(), origin_sw, 8, 0, mesh_builder);
        let origin_se = cell_offset_exec(&center, 10);
        proof {
            lemma_parts_bounded(10);
        }
        self.recursive_spoke_draw(green(), origin_se, 10, 0, mesh_builder);
        proof {
            assert(mesh_builder@.lines =~= old(mesh_builder)@.lines + draw_grid_seq(
                center@,
                self.grid_size(),
            ));
        }
    }

    /// Emits the side segments of rings `level` up to the configured ring
    /// count, six per level from the inside out: exactly the segments of
    /// `grid_ring_seq`. The rings are independent of `shade`; every side is
    /// stroked white.
    pub fn recursive_hex_draw(
        &self,
        shade: Color,
        center: Point,
        level: u32,
        input_mesh: &mut MeshBuilder,
    )
        requires
            self.wf(),
            level <= self.grid_size(),
            in_bounds(center@, CENTER_LIMIT as int),
        ensures
            final(input_mesh)@.lines == old(input_mesh)@.lines + grid_ring_seq(
                center@,
                level as nat,
                self.grid_size(),
            ),
            final(input_mesh)@.hexes == old(input_mesh)@.hexes,
    {
        let max = self.max_radial_distance;
        let mut cur = level;
        proof {
            assert(old(input_mesh)@.lines + grid_ring_seq(center@, level as nat, level as nat)
                =~= old(input_mesh)@.lines);
        }
        while cur < max
            invariant
                self.wf(),
                max == self.grid_size(),
                level <= cur <= max,
                in_bounds(center@, CENTER_LIMIT as int),
                input_mesh@.lines == old(input_mesh)@.lines + grid_ring_seq(
                    center@,
                    level as nat,
                    cur as nat,
                ),
                input_mesh@.hexes == old(input_mesh)@.hexes,
            decreases max - cur,
        {
            let ghost before = input_mesh@.lines;
            emit_hex_side(&center, 1, cur, input_mesh);
            emit_hex_side(&center, 3, cur, input_mesh);
            emit_hex_side(&center, 5, cur, input_mesh);
            emit_hex_side(&center, 7, cur, input_mesh);
            emit_hex_side(&center, 9, cur, input_mesh);
            emit_hex_side(&center, 11, cur, input_mesh);
            proof {
                assert(input_mesh@.lines =~= before + hex_level_segments(center@, cur as int));
                lemma_grid_ring_snoc(center@, level as nat, cur as nat);
                assert(input_mesh@.lines =~= old(input_mesh)@.lines + grid_ring_seq(
                    center@,
                    level as nat,
                    (cur + 1) as nat,
                ));
            }
            cur = cur + 1;
        }
    }

    /// Emits one spoke subtree: the stem from `origin` along the angle
    /// `theta * 30` degrees, its two branches at 60 degrees to either side,
    /// then both subtrees under the branch tips, to the configured depth —
    /// exactly the segments of `spoke_seq`. The recursion is bounded by
    /// `MAX_GRID_RADIUS` levels.
    pub fn recursive_spoke_draw(
        &self,
        shade: Color,
        origin: Point,
        theta: u8,
        level: u32,
        input_mesh: &mut MeshBuilder,
    )
        requires
            self.wf(),
            theta < 12,
            level <= self.grid_size(),
            spoke_origin_in_range(origin@, level as int),
            spoke_shade_in_range(shade@, level as int),
        ensures
            final(input_mesh)@.lines == old(input_mesh)@.lines + spoke_seq(
                origin@,
                theta as int,
                shade@,
                level as nat,
                self.grid_size(),
            ),
            final(input_mesh)@.hexes == old(input_mesh)@.hexes,
        decreases self.grid_size() - level,
    {
        if level == self.max_radial_distance {
            proof {
                assert(old(input_mesh)@.lines + spoke_seq(
                    origin@,
                    theta as int,
                    shade@,
                    level as nat,
                    self.grid_size(),
                ) =~= old(input_mesh)@.lines);
            }
            return ;
        }
        proof {
            lemma_parts_bounded(theta as int);
            lemma_parts_bounded(turn_fwd_2(theta as int));
            lemma_parts_bounded(turn_back_2(theta as int));
        }
        let stem = cell_offset_exec(&origin, theta);
        let theta_fwd = if theta >= 10 {
            theta - 10
        } else {
            theta + 2
        };
        let theta_back = if theta < 2 {
            theta + 10
        } else {
            theta - 2
        };
        let tip_fst = cell_offset_exec(&stem, theta_fwd);
        let tip_snd = cell_offset_exec(&stem, theta_back);
        let stroke = white();
        input_mesh.line(origin, stem, DEFAULT_LINE_WIDTH, stroke);
        input_mesh.line(stem, tip_fst, DEFAULT_LINE_WIDTH, stroke);
        input_mesh.line(stem, tip_snd, DEFAULT_LINE_WIDTH, stroke);
        let shade_fst = Color { r: shade.r + 100, g: shade.g - 100, b: shade.b, a: shade.a };
        let shade_snd = Color { r: shade.b + 100, g: shade.g - 100, b: shade.b, a: shade.a };
        self.recursive_spoke_draw(shade_fst, tip_fst, theta, level + 1, input_mesh);
        self.recursive_spoke_draw(shade_snd, tip_snd, theta, level + 1, input_mesh);
        proof {
            assert(input_mesh@.lines =~= old(input_mesh)@.lines + spoke_seq(
                origin@,
                theta as int,
                shade@,
                level as nat,
                self.grid_size(),
            ));
        }
    }
}

/// Emits the single side segment of ring `level` in angle direction `k`.
fn emit_hex_side(center: &Point, k: u8, level: u32, input_mesh: &mut MeshBuilder)
    requires
        k < 12,
        level <= MAX_GRID_RADIUS,
        in_bounds(center@, CENTER_LIMIT as int),
    ensures
        final(input_mesh)@.lines == old(input_mesh)@.lines.push(
            hex_side_segment(center@, k as int, level as int),
        ),
        final(input_mesh)@.hexes == old(input_mesh)@.hexes,
{
    proof {
        lemma_parts_bounded(k as int);
        lemma_parts_bounded(turn_back_1(k as int));
        lemma_parts_bounded(turn_fwd_1(k as int));
    }
    let c = cos_parts_exec(k);
    let s = sin_parts_exec(k);
    let lvl = level as i64;
    proof {
        assert(c.0 as int == cos_parts(k as int).0);
        assert(c.1 as int == cos_parts(k as int).1);
        assert(s.0 as int == sin_parts(k as int).0);
        assert(s.1 as int == sin_parts(k as int).1);
        assert(0 <= lvl <= MAX_GRID_RADIUS);
        assert(-1440 <= 45 * lvl * c.1 <= 1440 && -1440 <= 15 * lvl * c.0 <= 1440 && -1440 <= 45
            * lvl * s.1 <= 1440 && -1440 <= 15 * lvl * s.0 <= 1440) by (nonlinear_arith)
            requires
                0 <= lvl <= 16,
                -2 <= c.0 <= 2,
                -2 <= c.1 <= 2,
                -2 <= s.0 <= 2,
                -2 <= s.1 <= 2,
        ;
    }
    let translated = Point {
        xr: center.xr + 45 * lvl * c.1,
        xs: center.xs + 15 * lvl * c.0,
        yr: center.yr - 45 * lvl * s.1,
        ys: center.ys - 15 * lvl * s.0,
    };
    let k_back = if k == 0 {
        11
    } else {
        k - 1
    };
    let k_fwd = if k == 11 {
        0
    } else {
        k + 1
    };
    let endpt_a = cell_offset_exec(&translated, k_back);
    let endpt_b = cell_offset_exec(&translated, k_fwd);
    input_mesh.line(endpt_a, endpt_b, DEFAULT_LINE_WIDTH, white());
}

/// Relates rings `level..max+1` to rings `level..max` plus the outermost
/// level: peeling the last ring off the recursion that peels the first.
proof fn lemma_grid_ring_snoc(center: GPoint, level: nat, max: nat)
    requires
        level <= max,
    ensures
        grid_ring_seq(center, level, max + 1) == grid_ring_seq(center, level, max)
            + hex_level_segments(center, max as int),
    decreases max - level,
{
    if level == max {
        assert(grid_ring_seq(center, (level + 1) as nat, max + 1) =~= Seq::<GSegment>::empty());
        assert(grid_ring_seq(center, level, max + 1) =~= hex_level_segments(center, level as int)
            + grid_ring_seq(center, (level + 1) as nat, max + 1));
        assert(grid_ring_seq(center, level, max) =~= Seq::<GSegment>::empty());
        assert(grid_ring_seq(center, level, max + 1) =~= grid_ring_seq(center, level, max)
            + hex_level_segments(center, max as int));
    } else {
        lemma_grid_ring_snoc(center, (level + 1) as nat, max);
        assert(grid_ring_seq(center, level, max + 1) =~= hex_level_segments(center, level as int)
            + grid_ring_seq(center, (level + 1) as nat, max + 1));
        assert(grid_ring_seq(center, level, max) =~= hex_level_segments(center, level as int)
            + grid_ring_seq(center, (level + 1) as nat, max));
        assert(grid_ring_seq(center, level, max + 1) =~= grid_ring_seq(center, level, max)
            + hex_level_segments(center, max as int));
    }
}

/// Two to the power `n`.
pub open spec fn two_pow(n: nat) -> nat
    decreases n,
{
    if n == 0 {
        1
    } else {
        2 * two_pow((n - 1) as nat)
    }
}

/// Two to any power is at least one.
pub proof fn lemma_two_pow_pos(n: nat)
    ensures
        two_pow(n) >= 1,
    decreases n,
{
    if n > 0 {
        lemma_two_pow_pos((n - 1) as nat);
    }
}

/// Law: the rings from `level` to `max` hold exactly six side segments per
/// level, `6 * (max - level)` in all. In particular a full hex draw from
/// level 0 emits exactly six segments per configured ring.
pub proof fn lemma_grid_ring_count(center: GPoint, level: nat, max: nat)
    requires
        level <= max,
    ensures
        grid_ring_seq(center, level, max).len() == 6 * (max - level),
    decreases max - level,
{
    if level < max {
        lemma_grid_ring_count(center, (level + 1) as nat, max);
    }
}

/// Law: one spoke subtree entered at `level` emits exactly
/// `3 * (2^(max - level) - 1)` segments — three per node of a full binary
/// tree of depth `max - level`.
pub proof fn lemma_spoke_count(origin: GPoint, k: int, shade: GColor, level: nat, max: nat)
    requires
        level <= max,
    ensures
        spoke_seq(origin, k, shade, level, max).len() == 3 * (two_pow((max - level) as nat) - 1),
    decreases max - level,
{
    lemma_two_pow_pos((max - level) as nat);
    if level < max {
        let stem = cell_offset(origin, k);
        let tip_fst = cell_offset(stem, turn_fwd_2(k));
        let tip_snd = cell_offset(stem, turn_back_2(k));
        lemma_spoke_count(tip_fst, k, branch_shade_fst(shade), (level + 1) as nat, max);
        lemma_spoke_count(tip_snd, k, branch_shade_snd(shade), (level + 1) as nat, max);
        lemma_two_pow_pos((max - level - 1) as nat);
        assert(two_pow((max - level) as nat) == 2 * two_pow((max - level - 1) as nat));
    }
}

/// Law: with a ring count of zero, the grid drawing emits no segments at
/// all.
pub proof fn lemma_draw_grid_zero(center: GPoint)
    ensures
        draw_grid_seq(center, 0).len() == 0,
{
    lemma_grid_ring_count(center, 0, 0);
    lemma_spoke_count(cell_offset(center, 0), 0, spec_green(), 0, 0);
    lemma_spoke_count(cell_offset(center, 2), 2, spec_green(), 0, 0);
    lemma_spoke_count(cell_offset(center, 4), 4, spec_green(), 0, 0);
    lemma_spoke_count(cell_offset(center, 6), 6, spec_green(), 0, 0);
    lemma_spoke_count(cell_offset(center, 8), 8, spec_green(), 0, 0);
    lemma_spoke_count(cell_offset(center, 10), 10, spec_green(), 0, 0);
}

/// Law: the whole grid drawing emits `6 * max` ring segments plus
/// `6 * 3 * (2^max - 1)` spoke segments — one spoke of `3 * (2^max - 1)`
/// segments per vertex direction.
pub proof fn lemma_draw_grid_count(center: GPoint, max: nat)
    ensures
        draw_grid_seq(center, max).len() == 6 * max + 18 * (two_pow(max) - 1),
{
    lemma_two_pow_pos(max);
    lemma_grid_ring_count(center, 0, max);
    lemma_spoke_count(cell_offset(center, 0), 0, spec_green(), 0, max);
    lemma_spoke_count(cell_offset(center, 2), 2, spec_green(), 0, max);
    lemma_spoke_count(cell_offset(center, 4), 4, spec_green(), 0, max);
    lemma_spoke_count(cell_offset(center, 6), 6, spec_green(), 0, max);
    lemma_spoke_count(cell_offset(center, 8), 8, spec_green(), 0, max);
    lemma_spoke_count(cell_offset(center, 10), 10, spec_green(), 0, max);
}

/// Law: the two endpoints of each ring side segment lie symmetrically about
/// the segment's midpoint ray. Both endpoints are at squared distance
/// `GRID_CELL_SIZE^2` from the translated ring center, and their doubled
/// midpoint offset from that center points exactly one hex width along the
/// side's angle direction.
pub proof fn lemma_side_segment_symmetry(center: GPoint, k: int, level: int)
    requires
        k == 1 || k == 3 || k == 5 || k == 7 || k == 9 || k == 11,
    ensures
        norm_sq(
            gpt_sub(hex_side_segment(center, k, level).a, level_center(center, k, level)),
        ) == (900int, 0int),
        norm_sq(
            gpt_sub(hex_side_segment(center, k, level).b, level_center(center, k, level)),
        ) == (900int, 0int),
        gpt_add(
            gpt_sub(hex_side_segment(center, k, level).a, level_center(center, k, level)),
            gpt_sub(hex_side_segment(center, k, level).b, level_center(center, k, level)),
        ) == gpt_sub(level_center(center, k, 1), center),
{
    let va = gpt_sub(hex_side_segment(center, k, level).a, level_center(center, k, level));
    let vb = gpt_sub(hex_side_segment(center, k, level).b, level_center(center, k, level));
    assert(norm_sq((GPoint { xr: 30, xs: 0, yr: 0, ys: 0 })) == (900int, 0int));
    assert(norm_sq((GPoint { xr: -30, xs: 0, yr: 0, ys: 0 })) == (900int, 0int));
    assert(norm_sq((GPoint { xr: 15, xs: 0, yr: 0, ys: -15 })) == (900int, 0int));
    assert(norm_sq((GPoint { xr: -15, xs: 0, yr: 0, ys: -15 })) == (900int, 0int));
    assert(norm_sq((GPoint { xr: 15, xs: 0, yr: 0, ys: 15 })) == (900int, 0int));
    assert(norm_sq((GPoint { xr: -15, xs: 0, yr: 0, ys: 15 })) == (900int, 0int));
    if k == 1 {
        assert(va == (GPoint { xr: 30, xs: 0, yr: 0, ys: 0 }));
        assert(vb == (GPoint { xr: 15, xs: 0, yr: 0, ys: -15 }));
    } else if k == 3 {
        assert(va == (GPoint { xr: 15, xs: 0, yr: 0, ys: -15 }));
        assert(vb == (GPoint { xr: -15, xs: 0, yr: 0, ys: -15 }));
    } else if k == 5 {
        assert(va == (GPoint { xr: -15, xs: 0, yr: 0, ys: -15 }));
        assert(vb == (GPoint { xr: -30, xs: 0, yr: 0, ys: 0 }));
    } else if k == 7 {
        assert(va == (GPoint { xr: -30, xs: 0, yr: 0, ys: 0 }));
        assert(vb == (GPoint { xr: -15, xs: 0, yr: 0, ys: 15 }));
    } else if k == 9 {
        assert(va == (GPoint { xr: -15, xs: 0, yr: 0, ys: 15 }));
        assert(vb == (GPoint { xr: 15, xs: 0, yr: 0, ys: 15 }));
    } else {
        assert(va == (GPoint { xr: 15, xs: 0, yr: 0, ys: 15 }));
        assert(vb == (GPoint { xr: 30, xs: 0, yr: 0, ys: 0 }));
    }
    assert(norm_sq(va) == (900int, 0int));
    assert(norm_sq(vb) == (900int, 0int));
}

} // verus!
