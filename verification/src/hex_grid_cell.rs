//! One hexagonal grid cell: its vertices, its polygon, and the concentric
//! rings of cells around it.
//!
//! A cell is determined by its screen-space center; its six vertices sit one
//! cell size away at the even multiples of 30 degrees. The radial rings a
//! resource covers are generated by the classic ring walk: start at the
//! southern corner of ring `k` and walk `k` steps along each of the six
//! directions in turn, visiting the `6 * k` cells of the ring.

use vstd::prelude::*;

use crate::colors::Color;
use crate::colors::GColor;
use crate::coords::CELL_LIMIT;
use crate::coords::Coords;
use crate::coords::GCoords;
use crate::coords::spec_cell_center;
use crate::coords::cell_center;
use crate::geometry::GPoint;
use crate::geometry::Point;
use crate::geometry::cell_offset;
use crate::geometry::cell_offset_exec;
use crate::geometry::in_bounds;
use crate::mesh::GHexCell;
use crate::mesh::MeshBuilder;
use crate::world_grid_manager::CENTER_LIMIT;

verus! {

/// A hexagonal cell of the world grid, fixed at the grid cell size.
#[derive(Clone, Copy, Debug, PartialEq, Eq, Structural)]
pub struct HexGridCell {
    center: Point,
}

impl View for HexGridCell {
    type V = GPoint;

    closed spec fn view(&self) -> GPoint {
        self.center@
    }
}

/// The vertex of the cell centered at `c` in vertex direction `i` (of six,
/// counterclockwise from east): one cell size away at angle `i * 60`
/// degrees.
pub open spec fn spec_vertex(c: GPoint, i: int) -> GPoint {
    cell_offset(c, 2 * i)
}

impl HexGridCell {
    /// Builds the cell centered at `center`.
    pub fn new(center: Point) -> (r: HexGridCell)
        ensures
            r@ == center@,
    {
        HexGridCell { center }
    }

    /// Builds the cell of the hex coordinate `coords`, placed around the
    /// window center `wc`.
    pub fn new_from_hex_coords(wc: &Point, coords: &Coords) -> (r: HexGridCell)
        requires
            in_bounds(wc@, CENTER_LIMIT as int),
        ensures
            r@ == spec_cell_center(wc@, coords@),
            in_bounds(r@, CELL_LIMIT as int),
    {
        HexGridCell { center: cell_center(wc, coords) }
    }

    /// The cell's center.
    pub fn center(&self) -> (r: Point)
        ensures
            r@ == self@,
    {
        self.center
    }

    /// The cell's vertex in vertex direction `i` of six, counterclockwise
    /// from east.
    pub fn vertex(&self, i: u8) -> (r: Point)
        requires
            i < 6,
            in_bounds(self@, CELL_LIMIT as int),
        ensures
            r@ == spec_vertex(self@, i as int),
    {
        cell_offset_exec(&self.center, 2 * i)
    }

    /// Appends this cell's polygon to the mesh builder.
    pub fn add_to_mesh(&self, fill: Color, border: Color, mesh: &mut MeshBuilder)
        ensures
            final(mesh)@.hexes == old(mesh)@.hexes.push(
                (GHexCell { center: self@, fill: fill@, border: border@ }),
            ),
            final(mesh)@.lines == old(mesh)@.lines,
    {
        mesh.hex_cell(self.center, fill, border);
    }

    /// Appends the cells of rings 1 through `radius` around this cell to
    /// the mesh builder, ring by ring from the inside out — exactly the
    /// polygons of `radial_hexes`.
    pub fn add_radials_to_mesh(&self, fill: Color, border: Color, radius: u8, mesh: &mut MeshBuilder)
        requires
            in_bounds(self@, CELL_LIMIT as int),
        ensures
            final(mesh)@.hexes == old(mesh)@.hexes + radial_hexes(
                self@,
                fill@,
                border@,
                radius as nat,
            ),
            final(mesh)@.lines == old(mesh)@.lines,
    {
        proof {
            assert(old(mesh)@.hexes + radial_hexes(self@, fill@, border@, 0) =~= old(mesh)@.hexes);
        }
        let mut k: u8 = 0;
        while k < radius
            invariant
                k <= radius,
                in_bounds(self@, CELL_LIMIT as int),
                mesh@.hexes == old(mesh)@.hexes + radial_hexes(self@, fill@, border@, k as nat),
                mesh@.lines == old(mesh)@.lines,
            decreases radius - k,
        {
            self.emit_ring(fill, border, k + 1, mesh);
            k = k + 1;
            proof {
                assert(mesh@.hexes =~= old(mesh)@.hexes + radial_hexes(
                    self@,
                    fill@,
                    border@,
                    k as nat,
                ));
            }
        }
    }

    /// Appends the `6 * k` cells of ring `k` around this cell, walking the
    /// six sectors of the ring from its southern corner.
    fn emit_ring(&self, fill: Color, border: Color, k: u8, mesh: &mut MeshBuilder)
        requires
            1 <= k,
            in_bounds(self@, CELL_LIMIT as int),
        ensures
            final(mesh)@.hexes == old(mesh)@.hexes + ring_hexes(self@, fill@, border@, k as int),
            final(mesh)@.lines == old(mesh)@.lines,
    {
        let kk = k as i64;
        let c0 = self.emit_sector(fill, border, 0, -kk, kk, 1, 0, -1, k, mesh);
        let c1 = self.emit_sector(fill, border, c0.0, c0.1, c0.2, 0, 1, -1, k, mesh);
        let c2 = self.emit_sector(fill, border, c1.0, c1.1, c1.2, -1, 1, 0, k, mesh);
        let c3 = self.emit_sector(fill, border, c2.0, c2.1, c2.2, -1, 0, 1, k, mesh);
        let c4 = self.emit_sector(fill, border, c3.0, c3.1, c3.2, 0, -1, 1, k, mesh);
        let c5 = self.emit_sector(fill, border, c4.0, c4.1, c4.2, 1, -1, 0, k, mesh);
        proof {
            assert(mesh@.hexes =~= old(mesh)@.hexes + ring_hexes(self@, fill@, border@, k as int));
        }
    }

    /// Appends the `n` cells of one ring sector: starting at the axial
    /// offset `(sx, sy, sz)` from this cell and stepping by the unit offset
    /// `(ux, uy, uz)`. Returns the axial offset one step past the sector.
    fn emit_sector(
        &self,
        fill: Color,
        border: Color,
        sx: i64,
        sy: i64,
        sz: i64,
        ux: i64,
        uy: i64,
        uz: i64,
        n: u8,
        mesh: &mut MeshBuilder,
    ) -> (end: (i64, i64, i64))
        requires
            in_bounds(self@, CELL_LIMIT as int),
            -1000 <= sx <= 1000,
            -1000 <= sy <= 1000,
            -1000 <= sz <= 1000,
            -1 <= ux <= 1,
            -1 <= uy <= 1,
            -1 <= uz <= 1,
        ensures
            final(mesh)@.hexes == old(mesh)@.hexes + sector_hexes(
                self@,
                fill@,
                border@,
                (GCoords { x: sx as int, y: sy as int, z: sz as int }),
                (GCoords { x: ux as int, y: uy as int, z: uz as int }),
                n as nat,
            ),
            final(mesh)@.lines == old(mesh)@.lines,
            end.0 == sx + n * ux && end.1 == sy + n * uy && end.2 == sz + n * uz,
    {
        let ghost start = GCoords { x: sx as int, y: sy as int, z: sz as int };
        let ghost unit = GCoords { x: ux as int, y: uy as int, z: uz as int };
        let mut cx = sx;
        let mut cy = sy;
        let mut cz = sz;
        let mut j: u8 = 0;
        proof {
            assert(old(mesh)@.hexes + sector_hexes(self@, fill@, border@, start, unit, 0)
                =~= old(mesh)@.hexes);
        }
        while j < n
            invariant
                j <= n,
                in_bounds(self@, CELL_LIMIT as int),
                unit.x == ux && unit.y == uy && unit.z == uz,
                cx == start.x + j * unit.x,
                cy == start.y + j * unit.y,
                cz == start.z + j * unit.z,
                -1000 - j <= cx <= 1000 + j,
                -1000 - j <= cy <= 1000 + j,
                -1000 - j <= cz <= 1000 + j,
                -1000 <= start.x <= 1000 && -1 <= unit.x <= 1,
                -1000 <= start.y <= 1000 && -1 <= unit.y <= 1,
                -1000 <= start.z <= 1000 && -1 <= unit.z <= 1,
                mesh@.hexes == old(mesh)@.hexes + sector_hexes(
                    self@,
                    fill@,
                    border@,
                    start,
                    unit,
                    j as nat,
                ),
                mesh@.lines == old(mesh)@.lines,
            decreases n - j,
        {
            let cell = Point {
                xr: self.center.xr + 90 * cx,
                xs: self.center.xs,
                yr: self.center.yr,
                ys: self.center.ys + 15 * (cz - cy),
            };
            mesh.hex_cell(cell, fill, border);
            proof {
                lemma_sector_snoc(start, unit, j as nat);
                assert(cell@ == spec_cell_center(
                    self@,
                    gc_add(start, gc_scale(j as int, unit)),
                ));
                assert(mesh@.hexes =~= old(mesh)@.hexes + sector_hexes(
                    self@,
                    fill@,
                    border@,
                    start,
                    unit,
                    (j + 1) as nat,
                ));
            }
            proof {
                assert((j + 1) * unit.x == j * unit.x + unit.x) by (nonlinear_arith);
                assert((j + 1) * unit.y == j * unit.y + unit.y) by (nonlinear_arith);
                assert((j + 1) * unit.z == j * unit.z + unit.z) by (nonlinear_arith);
            }
            cx = cx + ux;
            cy = cy + uy;
            cz = cz + uz;
            j = j + 1;
        }
        (cx, cy, cz)
    }
}

/// Componentwise sum of two axial offsets.
pub open spec fn gc_add(a: GCoords, b: GCoords) -> GCoords {
    GCoords { x: a.x + b.x, y: a.y + b.y, z: a.z + b.z }
}

/// An axial offset scaled by `m`.
pub open spec fn gc_scale(m: int, u: GCoords) -> GCoords {
    GCoords { x: m * u.x, y: m * u.y, z: m * u.z }
}

/// The unit axial step of ring-walk sector `i`, of six counterclockwise
/// sectors starting northeast.
pub open spec fn ring_unit(i: int) -> GCoords {
    if i == 0 {
        GCoords { x: 1, y: 0, z: -1 }
    } else if i == 1 {
        GCoords { x: 0, y: 1, z: -1 }
    } else if i == 2 {
        GCoords { x: -1, y: 1, z: 0 }
    } else if i == 3 {
        GCoords { x: -1, y: 0, z: 1 }
    } else if i == 4 {
        GCoords { x: 0, y: -1, z: 1 }
    } else {
        GCoords { x: 1, y: -1, z: 0 }
    }
}

/// The axial offset of the corner where ring-walk sector `i` of ring `k`
/// starts; sector 0 starts at the ring's southern corner.
pub open spec fn ring_corner(k: int, i: int) -> GCoords
    decreases i,
{
    if i <= 0 {
        GCoords { x: 0, y: -k, z: k }
    } else {
        gc_add(ring_corner(k, i - 1), gc_scale(k, ring_unit(i - 1)))
    }
}

/// The axial offsets of `n` cells from `start`, stepping by `unit`.
pub open spec fn sector_cells(start: GCoords, unit: GCoords, n: nat) -> Seq<GCoords>
    decreases n,
{
    if n == 0 {
        Seq::empty()
    } else {
        seq![start] + sector_cells(gc_add(start, unit), unit, (n - 1) as nat)
    }
}

/// The axial offsets of the `6 * k` cells of ring `k`, sector by sector.
pub open spec fn ring_cells(k: int) -> Seq<GCoords> {
    sector_cells(ring_corner(k, 0), ring_unit(0), k as nat) + sector_cells(
        ring_corner(k, 1),
        ring_unit(1),
        k as nat,
    ) + sector_cells(ring_corner(k, 2), ring_unit(2), k as nat) + sector_cells(
        ring_corner(k, 3),
        ring_unit(3),
        k as nat,
    ) + sector_cells(ring_corner(k, 4), ring_unit(4), k as nat) + sector_cells(
        ring_corner(k, 5),
        ring_unit(5),
        k as nat,
    )
}

/// The axial offsets of every cell of rings 1 through `r`, ring by ring
/// from the inside out.
pub open spec fn radial_cells(r: nat) -> Seq<GCoords>
    decreases r,
{
    if r == 0 {
        Seq::empty()
    } else {
        radial_cells((r - 1) as nat) + ring_cells(r as int)
    }
}

/// The hex polygon of the cell at axial offset `o` around the center `cc`.
pub open spec fn offset_hex(cc: GPoint, fill: GColor, border: GColor, o: GCoords) -> GHexCell {
    GHexCell { center: spec_cell_center(cc, o), fill, border }
}

/// The polygons of one ring-walk sector.
pub open spec fn sector_hexes(
    cc: GPoint,
    fill: GColor,
    border: GColor,
    start: GCoords,
    unit: GCoords,
    n: nat,
) -> Seq<GHexCell> {
    sector_cells(start, unit, n).map_values(|o: GCoords| offset_hex(cc, fill, border, o))
}

/// The polygons of ring `k`.
pub open spec fn ring_hexes(cc: GPoint, fill: GColor, border: GColor, k: int) -> Seq<GHexCell> {
    ring_cells(k).map_values(|o: GCoords| offset_hex(cc, fill, border, o))
}

/// The polygons of rings 1 through `r`: the cells a resource of radius `r`
/// covers beyond its own.
pub open spec fn radial_hexes(cc: GPoint, fill: GColor, border: GColor, r: nat) -> Seq<GHexCell> {
    radial_cells(r).map_values(|o: GCoords| offset_hex(cc, fill, border, o))
}

/// A sector of `n + 1` cells is the sector of `n` cells plus the cell `n`
/// steps from the start.
proof fn lemma_sector_snoc(start: GCoords, unit: GCoords, n: nat)
    ensures
        sector_cells(start, unit, n + 1) == sector_cells(start, unit, n).push(
            gc_add(start, gc_scale(n as int, unit)),
        ),
    decreases n,
{
    if n == 0 {
        assert(sector_cells(gc_add(start, unit), unit, 0) =~= Seq::<GCoords>::empty());
        assert(sector_cells(start, unit, 0) =~= Seq::<GCoords>::empty());
        assert(gc_add(start, gc_scale(0, unit)) == start);
        assert(sector_cells(start, unit, 1) =~= sector_cells(start, unit, 0).push(
            gc_add(start, gc_scale(0, unit)),
        ));
    } else {
        lemma_sector_snoc(gc_add(start, unit), unit, (n - 1) as nat);
        assert(gc_add(gc_add(start, unit), gc_scale(n - 1, unit)) == gc_add(
            start,
            gc_scale(n as int, unit),
        )) by {
            assert((n - 1) * unit.x + unit.x == n * unit.x) by (nonlinear_arith);
            assert((n - 1) * unit.y + unit.y == n * unit.y) by (nonlinear_arith);
            assert((n - 1) * unit.z + unit.z == n * unit.z) by (nonlinear_arith);
        }
        assert(sector_cells(start, unit, n + 1) =~= sector_cells(start, unit, n).push(
            gc_add(start, gc_scale(n as int, unit)),
        ));
    }
}

/// The number of cells in rings 1 through `r` — the radial cell count of a
/// resource of radius `r` — is exactly `3 * r * (r + 1)`.
pub proof fn lemma_radial_count(r: nat)
    ensures
        radial_cells(r).len() == 3 * r * (r + 1),
    decreases r,
{
    lemma_sector_len_all();
    if r == 0 {
        assert(3 * r * (r + 1) == 0) by (nonlinear_arith)
            requires
                r == 0nat,
        ;
    } else {
        let rm = (r - 1) as nat;
        lemma_radial_count(rm);
        assert(ring_cells(r as int).len() == 6 * r);
        assert(radial_cells(r).len() == 3 * rm * (rm + 1) + 6 * r);
        assert(3 * rm * (rm + 1) + 6 * r == 3 * r * (r + 1)) by (nonlinear_arith)
            requires
                rm + 1 == r,
        ;
    }
}

/// Every ring-walk sector of `n` steps holds exactly `n` cells.
proof fn lemma_sector_len(start: GCoords, unit: GCoords, n: nat)
    ensures
        sector_cells(start, unit, n).len() == n,
    decreases n,
{
    if n > 0 {
        lemma_sector_len(gc_add(start, unit), unit, (n - 1) as nat);
    }
}

/// Sector lengths, quantified for use at every start and unit at once.
proof fn lemma_sector_len_all()
    ensures
        forall|start: GCoords, unit: GCoords, n: nat|
            #[trigger] sector_cells(start, unit, n).len() == n,
{
    assert forall|start: GCoords, unit: GCoords, n: nat|
        #[trigger] sector_cells(start, unit, n).len() == n by {
        lemma_sector_len(start, unit, n);
    }
}

/// The number of polygons a radius-`r` radial emission appends, and their
/// colors: `3 * r * (r + 1)` cells, every one filled and bordered with the
/// given colors.
pub proof fn lemma_radial_hexes_shape(cc: GPoint, fill: GColor, border: GColor, r: nat)
    ensures
        radial_hexes(cc, fill, border, r).len() == 3 * r * (r + 1),
        forall|i: int|
            0 <= i < radial_hexes(cc, fill, border, r).len() ==> #[trigger] radial_hexes(
                cc,
                fill,
                border,
                r,
            )[i].fill == fill && radial_hexes(cc, fill, border, r)[i].border == border,
{
    lemma_radial_count(r);
}

} // verus!
