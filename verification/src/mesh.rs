//! The mesh model: an accumulator of line segments and hex-cell polygons.
//!
//! This is the library's picture of the engine's mesh builder. A front end
//! walks the accumulated primitives and replays them against the real
//! renderer; the library proves exactly which primitives are emitted.

use vstd::prelude::*;

use crate::colors::Color;
use crate::colors::GColor;
use crate::geometry::GPoint;
use crate::geometry::Point;

verus! {

/// The stroke width of every grid line, in thousandths of a pixel.
pub const DEFAULT_LINE_WIDTH: i32 = 1000;

/// Mathematical model of one line segment.
pub ghost struct GSegment {
    pub a: GPoint,
    pub b: GPoint,
    pub width: int,
    pub color: GColor,
}

/// Mathematical model of one hex-cell polygon: the regular hexagon of the
/// grid cell size centered at `center`.
pub ghost struct GHexCell {
    pub center: GPoint,
    pub fill: GColor,
    pub border: GColor,
}

/// Mathematical model of a mesh: the emitted primitives in emission order.
pub ghost struct GMesh {
    pub lines: Seq<GSegment>,
    pub hexes: Seq<GHexCell>,
}

/// One line segment of a mesh, with stroke width in thousandths of a pixel.
#[derive(Clone, Copy, Debug, PartialEq, Eq, Structural)]
pub struct Segment {
    pub a: Point,
    pub b: Point,
    pub width: i32,
    pub color: Color,
}

impl View for Segment {
    type V = GSegment;

    open spec fn view(&self) -> GSegment {
        GSegment { a: self.a@, b: self.b@, width: self.width as int, color: self.color@ }
    }
}

/// One hex-cell polygon of a mesh.
#[derive(Clone, Copy, Debug, PartialEq, Eq, Structural)]
pub struct HexCellPoly {
    pub center: Point,
    pub fill: Color,
    pub border: Color,
}

impl View for HexCellPoly {
    type V = GHexCell;

    open spec fn view(&self) -> GHexCell {
        GHexCell { center: self.center@, fill: self.fill@, border: self.border@ }
    }
}

/// The models of the segments in `lines`, in order.
pub open spec fn lines_view(lines: Seq<Segment>) -> Seq<GSegment> {
    lines.map_values(|s: Segment| s@)
}

/// The models of the hex cells in `hexes`, in order.
pub open spec fn hexes_view(hexes: Seq<HexCellPoly>) -> Seq<GHexCell> {
    hexes.map_values(|h: HexCellPoly| h@)
}

/// An accumulator of line segments and hex-cell polygons, in emission order.
pub struct MeshBuilder {
    lines: Vec<Segment>,
    hexes: Vec<HexCellPoly>,
}

impl View for MeshBuilder {
    type V = GMesh;

    closed spec fn view(&self) -> GMesh {
        GMesh { lines: lines_view(self.lines@), hexes: hexes_view(self.hexes@) }
    }
}

impl MeshBuilder {
    /// Starts an empty accumulator.
    pub fn new() -> (m: MeshBuilder)
        ensures
            m@.lines == Seq::<GSegment>::empty(),
            m@.hexes == Seq::<GHexCell>::empty(),
    {
        let m = MeshBuilder { lines: Vec::new(), hexes: Vec::new() };
        proof {
            assert(m@.lines =~= Seq::<GSegment>::empty());
            assert(m@.hexes =~= Seq::<GHexCell>::empty());
        }
        m
    }

    /// Appends the line segment from `a` to `b`.
    pub fn line(&mut self, a: Point, b: Point, width: i32, color: Color)
        ensures
            final(self)@.lines == old(self)@.lines.push(
                (GSegment { a: a@, b: b@, width: width as int, color: color@ }),
            ),
            final(self)@.hexes == old(self)@.hexes,
    {
        let seg = Segment { a, b, width, color };
        self.lines.push(seg);
        proof {
            assert(self@.lines =~= old(self)@.lines.push(seg@));
            assert(self@.hexes =~= old(self)@.hexes);
        }
    }

    /// Appends the hex-cell polygon centered at `center`.
    pub fn hex_cell(&mut self, center: Point, fill: Color, border: Color)
        ensures
            final(self)@.hexes == old(self)@.hexes.push(
                (GHexCell { center: center@, fill: fill@, border: border@ }),
            ),
            final(self)@.lines == old(self)@.lines,
    {
        let poly = HexCellPoly { center, fill, border };
        self.hexes.push(poly);
        proof {
            assert(self@.hexes =~= old(self)@.hexes.push(poly@));
            assert(self@.lines =~= old(self)@.lines);
        }
    }

    /// The number of accumulated line segments.
    pub fn line_count(&self) -> (n: usize)
        ensures
            n == self@.lines.len(),
    {
        self.lines.len()
    }

    /// The number of accumulated hex-cell polygons.
    pub fn hex_count(&self) -> (n: usize)
        ensures
            n == self@.hexes.len(),
    {
        self.hexes.len()
    }

    /// The accumulated line segment at position `i`.
    pub fn line_at(&self, i: usize) -> (s: Segment)
        requires
            i < self@.lines.len(),
        ensures
            s@ == self@.lines[i as int],
    {
        self.lines[i]
    }

    /// The accumulated hex-cell polygon at position `i`.
    pub fn hex_at(&self, i: usize) -> (h: HexCellPoly)
        requires
            i < self@.hexes.len(),
        ensures
            h@ == self@.hexes[i as int],
    {
        self.hexes[i]
    }

    /// Compiles the accumulator into a finished mesh holding exactly the
    /// accumulated primitives.
    pub fn build(self) -> (m: Mesh)
        ensures
            m@ == self@,
    {
        Mesh { lines: self.lines, hexes: self.hexes }
    }
}

/// A finished mesh: the primitives a builder had accumulated when it was
/// built.
pub struct Mesh {
    lines: Vec<Segment>,
    hexes: Vec<HexCellPoly>,
}

impl View for Mesh {
    type V = GMesh;

    closed spec fn view(&self) -> GMesh {
        GMesh { lines: lines_view(self.lines@), hexes: hexes_view(self.hexes@) }
    }
}

impl Mesh {
    /// A mesh with no primitives.
    pub fn new_empty() -> (m: Mesh)
        ensures
            m@.lines == Seq::<GSegment>::empty(),
            m@.hexes == Seq::<GHexCell>::empty(),
    {
        let m = Mesh { lines: Vec::new(), hexes: Vec::new() };
        proof {
            assert(m@.lines =~= Seq::<GSegment>::empty());
            assert(m@.hexes =~= Seq::<GHexCell>::empty());
        }
        m
    }

    /// The number of line segments in the mesh.
    pub fn line_count(&self) -> (n: usize)
        ensures
            n == self@.lines.len(),
    {
        self.lines.len()
    }

    /// The number of hex-cell polygons in the mesh.
    pub fn hex_count(&self) -> (n: usize)
        ensures
            n == self@.hexes.len(),
    {
        self.hexes.len()
    }

    /// The line segment at position `i`.
    pub fn line_at(&self, i: usize) -> (s: Segment)
        requires
            i < self@.lines.len(),
        ensures
            s@ == self@.lines[i as int],
    {
        self.lines[i]
    }

    /// The hex-cell polygon at position `i`.
    pub fn hex_at(&self, i: usize) -> (h: HexCellPoly)
        requires
            i < self@.hexes.len(),
        ensures
            h@ == self@.hexes[i as int],
    {
        self.hexes[i]
    }
}

} // verus!
