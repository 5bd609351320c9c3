//! Obstacles: multi-cell paths drawn as filled hex cells joined by colored
//! side lines.
//!
//! The manager owns the placed obstacles and one mesh that is rebuilt, not
//! patched, from the full collection. Each obstacle contributes one hex cell
//! per path coordinate plus, for every coordinate after the first, a line
//! over the side shared with the previous cell, in the obstacle's element
//! color — the visual effect of a continuous colored path.

use vstd::prelude::*;

use crate::colors::Color;
use crate::colors::Element;
use crate::colors::dark_grey;
use crate::colors::from_element;
use crate::colors::spec_dark_grey;
use crate::colors::spec_element_color;
use crate::coords::Coords;
use crate::coords::GCoords;
use crate::coords::spec_cell_center;
use crate::coords::cell_center;
use crate::coords::shared_side_direction;
use crate::coords::spec_offset_direction;
use crate::geometry::GPoint;
use crate::geometry::Point;
use crate::geometry::cell_offset;
use crate::geometry::cell_offset_exec;
use crate::geometry::in_bounds;
use crate::geometry::turn_back_1;
use crate::geometry::turn_fwd_1;
use crate::hex_grid_cell::HexGridCell;
use crate::mesh::DEFAULT_LINE_WIDTH;
use crate::mesh::GHexCell;
use crate::mesh::GMesh;
use crate::mesh::GSegment;
use crate::mesh::Mesh;
use crate::mesh::MeshBuilder;
use crate::world_grid_manager::CENTER_LIMIT;
use crate::world_grid_manager::spec_side_angle;
use crate::world_grid_manager::side_angle;

verus! {

/// Why an obstacle could not be rendered.
#[derive(Clone, Copy, Debug, PartialEq, Eq, Structural)]
pub enum ObstacleErrorKind {
    /// The obstacle's element is the `Unset` sentinel and has no color.
    UnknownElement,
    /// Two consecutive path coordinates are not adjacent cells, so no
    /// shared side exists to draw over.
    NonAdjacentPath,
}

/// The error an obstacle rendering reports, with why it failed.
#[derive(Clone, Copy, Debug, PartialEq, Eq, Structural)]
pub struct ObstacleError {
    pub kind: ObstacleErrorKind,
}

/// Mathematical model of an obstacle.
pub ghost struct GObstacle {
    pub path: Seq<GCoords>,
    pub element: Element,
}

/// An obstacle: a path of hex cells and the element that colors it.
#[derive(Clone, Debug)]
pub struct Obstacle {
    pub path: Vec<Coords>,
    pub element: Element,
}

impl View for Obstacle {
    type V = GObstacle;

    open spec fn view(&self) -> GObstacle {
        GObstacle { path: self.path@.map_values(|c: Coords| c@), element: self.element }
    }
}

impl Obstacle {
    /// Builds an obstacle from its path and element.
    pub fn new(path: Vec<Coords>, element: Element) -> (r: Obstacle)
        ensures
            r@.path == path@.map_values(|c: Coords| c@),
            r@.element == element,
    {
        Obstacle { path, element }
    }

    /// The path's coordinates, first cell first.
    pub fn all_coords(&self) -> (r: &Vec<Coords>)
        ensures
            r@.map_values(|c: Coords| c@) == self@.path,
    {
        &self.path
    }

    /// The obstacle's element.
    pub fn element(&self) -> (r: Element)
        ensures
            r == self@.element,
    {
        self.element
    }
}

/// The side direction from path cell `i` toward path cell `i - 1`, looked
/// up from the axial offset between them.
pub open spec fn path_step_dir(path: Seq<GCoords>, i: int) -> Option<crate::Direction> {
    spec_offset_direction(
        path[i - 1].x - path[i].x,
        path[i - 1].y - path[i].y,
        path[i - 1].z - path[i].z,
    )
}

/// Every consecutive pair of path coordinates names adjacent cells.
pub open spec fn path_adjacent(path: Seq<GCoords>) -> bool {
    forall|i: int| 1 <= i < path.len() ==> (#[trigger] path_step_dir(path, i)) is Some
}

/// The obstacle's element has a color and its path is connected, so it can
/// be rendered.
pub open spec fn obstacle_ok(ob: GObstacle) -> bool {
    ob.element != Element::Unset && path_adjacent(ob.path)
}

/// The hex cell polygon of path coordinate `c`: filled in the obstacle's
/// element color with a dark grey border.
pub open spec fn obstacle_cell(wc: GPoint, ob: GObstacle, c: GCoords) -> GHexCell {
    GHexCell {
        center: spec_cell_center(wc, c),
        fill: spec_element_color(ob.element),
        border: spec_dark_grey(),
    }
}

/// The hex cell polygons of an obstacle, one per path coordinate in path
/// order.
pub open spec fn obstacle_hexes(wc: GPoint, ob: GObstacle) -> Seq<GHexCell> {
    ob.path.map_values(|c: GCoords| obstacle_cell(wc, ob, c))
}

/// The line drawn over the side that path cell `i` shares with path cell
/// `i - 1`: the side segment of cell `i` in the shared direction, stroked
/// in the obstacle's element color.
pub open spec fn path_link(wc: GPoint, ob: GObstacle, i: int) -> GSegment {
    let k = spec_side_angle(path_step_dir(ob.path, i)->0)->0;
    let cc = spec_cell_center(wc, ob.path[i]);
    GSegment {
        a: cell_offset(cc, turn_back_1(k)),
        b: cell_offset(cc, turn_fwd_1(k)),
        width: DEFAULT_LINE_WIDTH as int,
        color: spec_element_color(ob.element),
    }
}

/// The shared-side override lines of an obstacle: one per path coordinate
/// after the first, in path order.
pub open spec fn obstacle_links(wc: GPoint, ob: GObstacle) -> Seq<GSegment> {
    if ob.path.len() == 0 {
        Seq::empty()
    } else {
        Seq::new((ob.path.len() - 1) as nat, |t: int| path_link(wc, ob, t + 1))
    }
}

/// Law: an obstacle of `N` path coordinates renders as exactly `N` hex
/// cells plus exactly `N - 1` shared-side override lines (none when the
/// path is empty).
pub proof fn lemma_obstacle_counts(wc: GPoint, ob: GObstacle)
    ensures
        obstacle_hexes(wc, ob).len() == ob.path.len(),
        ob.path.len() == 0 ==> obstacle_links(wc, ob).len() == 0,
        ob.path.len() > 0 ==> obstacle_links(wc, ob).len() == ob.path.len() - 1,
{
}

/// Mathematical model of the obstacle manager: its obstacles and its mesh.
pub ghost struct GObstacleManager {
    pub obstacles: Seq<GObstacle>,
    pub mesh: GMesh,
}

/// Owns the placed obstacles and the mesh rebuilt from them.
pub struct ObstacleManager {
    obstacles: Vec<Obstacle>,
    obstacle_mesh: Mesh,
}

impl View for ObstacleManager {
    type V = GObstacleManager;

    closed spec fn view(&self) -> GObstacleManager {
        GObstacleManager {
            obstacles: self.obstacles@.map_values(|o: Obstacle| o@),
            mesh: self.obstacle_mesh@,
        }
    }
}

/// The concatenated hex cells of the obstacles in `obs`, in order.
pub open spec fn obstacles_hexes(wc: GPoint, obs: Seq<GObstacle>) -> Seq<GHexCell>
    decreases obs.len(),
{
    if obs.len() == 0 {
        Seq::empty()
    } else {
        obstacles_hexes(wc, obs.drop_last()) + obstacle_hexes(wc, obs.last())
    }
}

/// The concatenated override lines of the obstacles in `obs`, in order.
pub open spec fn obstacles_links(wc: GPoint, obs: Seq<GObstacle>) -> Seq<GSegment>
    decreases obs.len(),
{
    if obs.len() == 0 {
        Seq::empty()
    } else {
        obstacles_links(wc, obs.drop_last()) + obstacle_links(wc, obs.last())
    }
}

/// The error of the first obstacle in `obs` from position `i` on that
/// cannot be rendered, if any: an unset element is reported before a broken
/// path.
pub open spec fn first_obstacle_error_from(obs: Seq<GObstacle>, i: int) -> Option<ObstacleError>
    decreases obs.len() - i,
{
    if i < 0 || i >= obs.len() {
        None
    } else if obs[i].element == Element::Unset {
        Some(ObstacleError { kind: ObstacleErrorKind::UnknownElement })
    } else if !path_adjacent(obs[i].path) {
        Some(ObstacleError { kind: ObstacleErrorKind::NonAdjacentPath })
    } else {
        first_obstacle_error_from(obs, i + 1)
    }
}

/// The error of the first obstacle in `obs` that cannot be rendered, if
/// any.
pub open spec fn first_obstacle_error(obs: Seq<GObstacle>) -> Option<ObstacleError> {
    first_obstacle_error_from(obs, 0)
}

/// Skipping a renderable prefix does not change the first error found.
proof fn lemma_first_obstacle_error_skip(obs: Seq<GObstacle>, i: int)
    requires
        0 <= i <= obs.len(),
        forall|t: int| 0 <= t < i ==> obstacle_ok(#[trigger] obs[t]),
    ensures
        first_obstacle_error_from(obs, 0) == first_obstacle_error_from(obs, i),
    decreases i,
{
    if i > 0 {
        lemma_first_obstacle_error_skip(obs, i - 1);
    }
}

impl ObstacleManager {
    /// Creates an empty manager: no obstacles, an empty mesh.
    pub fn new() -> (r: ObstacleManager)
        ensures
            r@.obstacles == Seq::<GObstacle>::empty(),
            r@.mesh.lines == Seq::<GSegment>::empty(),
            r@.mesh.hexes == Seq::<GHexCell>::empty(),
    {
        let r = ObstacleManager { obstacles: Vec::new(), obstacle_mesh: Mesh::new_empty() };
        proof {
            assert(r@.obstacles =~= Seq::<GObstacle>::empty());
        }
        r
    }

    /// The placed obstacles, in placement order.
    pub fn instances(&self) -> (r: &Vec<Obstacle>)
        ensures
            r@.map_values(|o: Obstacle| o@) == self@.obstacles,
    {
        &self.obstacles
    }

    /// Appends an obstacle to the collection. The mesh is not touched; it
    /// reflects the new collection only after the next rebuild.
    pub fn push_instance(&mut self, instance: Obstacle)
        ensures
            final(self)@.obstacles == old(self)@.obstacles.push(instance@),
            final(self)@.mesh == old(self)@.mesh,
    {
        let ghost inst = instance@;
        self.obstacles.push(instance);
        proof {
            assert(self@.obstacles =~= old(self)@.obstacles.push(inst));
        }
    }

    /// The current obstacle mesh.
    pub fn mesh(&self) -> (r: &Mesh)
        ensures
            r@ == self@.mesh,
    {
        &self.obstacle_mesh
    }

    /// Replaces the obstacle mesh.
    pub fn set_mesh(&mut self, mesh: Mesh)
        ensures
            final(self)@.mesh == mesh@,
            final(self)@.obstacles == old(self)@.obstacles,
    {
        self.obstacle_mesh = mesh;
    }

    /// Renders one obstacle into the mesh builder: a hex cell per path
    /// coordinate, and over every side shared with the previous cell a line
    /// in the element color. Fails, leaving the builder untouched, when the
    /// element has no color or the path is not connected.
    pub fn add_instance_to_mesh_builder(
        instance: &Obstacle,
        mesh_builder: &mut MeshBuilder,
        window_center: Point,
    ) -> (r: Result<(), ObstacleError>)
        requires
            in_bounds(window_center@, CENTER_LIMIT as int),
        ensures
            r is Ok <==> obstacle_ok(instance@),
            r is Ok ==> final(mesh_builder)@.hexes == old(mesh_builder)@.hexes + obstacle_hexes(
                window_center@,
                instance@,
            ) && final(mesh_builder)@.lines == old(mesh_builder)@.lines + obstacle_links(
                window_center@,
                instance@,
            ),
            r is Err ==> final(mesh_builder)@ == old(mesh_builder)@,
            instance@.element == Element::Unset ==> r == Err::<(), ObstacleError>(
                (ObstacleError { kind: ObstacleErrorKind::UnknownElement }),
            ),
            instance@.element != Element::Unset && !path_adjacent(instance@.path) ==> r == Err::<
                (),
                ObstacleError,
            >((ObstacleError { kind: ObstacleErrorKind::NonAdjacentPath })),
    {
        let ghost pv = instance@.path;
        let fill = match from_element(instance.element) {
            Ok(c) => c,
            Err(_) => {
                return Err(ObstacleError { kind: ObstacleErrorKind::UnknownElement });
            },
        };
        let n = instance.path.len();
        let mut i: usize = 1;
        while i < n
            invariant
                1 <= i,
                n == pv.len(),
                pv == instance@.path,
                instance@.element != Element::Unset,
                forall|t: int| 1 <= t < i ==> (#[trigger] path_step_dir(pv, t)) is Some,
            decreases n - i,
        {
            let prev = instance.path[i - 1];
            let cur = instance.path[i];
            if shared_side_direction(&prev, &cur).is_none() {
                proof {
                    assert(pv[i - 1] == prev@);
                    assert(pv[i as int] == cur@);
                    assert(path_step_dir(pv, i as int) is None);
                    assert(!path_adjacent(pv));
                }
                return Err(ObstacleError { kind: ObstacleErrorKind::NonAdjacentPath });
            }
            i = i + 1;
        }
        proof {
            assert(path_adjacent(pv));
        }
        let mut i: usize = 0;
        while i < n
            invariant
                i <= n,
                n == pv.len(),
                pv == instance@.path,
                path_adjacent(pv),
                instance@.element != Element::Unset,
                fill@ == spec_element_color(instance@.element),
                in_bounds(window_center@, CENTER_LIMIT as int),
                mesh_builder@.hexes == old(mesh_builder)@.hexes + obstacle_hexes(
                    window_center@,
                    instance@,
                ).subrange(0, i as int),
                mesh_builder@.lines == old(mesh_builder)@.lines + obstacle_links(
                    window_center@,
                    instance@,
                ).subrange(
                    0,
                    if i == 0 {
                        0int
                    } else {
                        i - 1
                    },
                ),
            decreases n - i,
        {
            let coord = instance.path[i];
            let cc = cell_center(&window_center, &coord);
            let cur_hex = HexGridCell::new(cc);
            cur_hex.add_to_mesh(fill, dark_grey(), mesh_builder);
            proof {
                assert(obstacle_hexes(window_center@, instance@).subrange(0, i + 1)
                    =~= obstacle_hexes(window_center@, instance@).subrange(0, i as int).push(
                    obstacle_cell(window_center@, instance@, pv[i as int]),
                ));
                assert(mesh_builder@.hexes =~= old(mesh_builder)@.hexes + obstacle_hexes(
                    window_center@,
                    instance@,
                ).subrange(0, i + 1));
            }
            if i > 0 {
                let prev = instance.path[i - 1];
                proof {
                    assert(path_step_dir(pv, i as int) is Some);
                }
                let direction = shared_side_direction(&prev, &coord).unwrap();
                proof {
                    assert(spec_side_angle(direction) is Some);
                }
                let k = side_angle(direction).unwrap();
                let k_back = if k == 0 {
                    11
                } else {
                    k - 1
                };
                let k_fwd = if k == 11 {
                    0
                } else {
                    k + 1
                };
                let endpt_a = cell_offset_exec(&cc, k_back);
                let endpt_b = cell_offset_exec(&cc, k_fwd);
                mesh_builder.line(endpt_a, endpt_b, DEFAULT_LINE_WIDTH, fill);
                proof {
                    assert(obstacle_links(window_center@, instance@)[i - 1] == path_link(
                        window_center@,
                        instance@,
                        i as int,
                    ));
                    assert(obstacle_links(window_center@, instance@).subrange(0, i as int)
                        =~= obstacle_links(window_center@, instance@).subrange(0, i - 1).push(
                        path_link(window_center@, instance@, i as int),
                    ));
                    assert(mesh_builder@.lines =~= old(mesh_builder)@.lines + obstacle_links(
                        window_center@,
                        instance@,
                    ).subrange(0, i as int));
                }
            }
            i = i + 1;
        }
        proof {
            assert(obstacle_hexes(window_center@, instance@).subrange(0, n as int)
                =~= obstacle_hexes(window_center@, instance@));
            if n == 0 {
                assert(obstacle_links(window_center@, instance@).subrange(0, 0int)
                    =~= obstacle_links(window_center@, instance@));
            } else {
                assert(obstacle_links(window_center@, instance@).subrange(0, n - 1)
                    =~= obstacle_links(window_center@, instance@));
            }
        }
        Ok(())
    }

    /// Rebuilds the obstacle mesh from the full collection, one obstacle
    /// after another in placement order. On the first obstacle that cannot
    /// be rendered, reports its error and leaves the manager unchanged.
    pub fn rebuild_mesh(&mut self, window_center: Point) -> (r: Result<(), ObstacleError>)
        requires
            in_bounds(window_center@, CENTER_LIMIT as int),
        ensures
            r is Ok <==> first_obstacle_error(old(self)@.obstacles) is None,
            r is Err ==> r->Err_0 == first_obstacle_error(old(self)@.obstacles)->0 && final(self)@
                == old(self)@,
            r is Ok ==> final(self)@.obstacles == old(self)@.obstacles && final(self)@.mesh.hexes
                == obstacles_hexes(window_center@, old(self)@.obstacles)
                && final(self)@.mesh.lines == obstacles_links(window_center@, old(self)@.obstacles),
    {
        let ghost obs = self@.obstacles;
        let mut builder = MeshBuilder::new();
        let n = self.obstacles.len();
        let mut i: usize = 0;
        proof {
            assert(obstacles_hexes(window_center@, obs.subrange(0, 0)) =~= Seq::<
                GHexCell,
            >::empty());
            assert(obstacles_links(window_center@, obs.subrange(0, 0)) =~= Seq::<
                GSegment,
            >::empty());
        }
        while i < n
            invariant
                i <= n,
                n == obs.len(),
                obs == self@.obstacles,
                self@ == old(self)@,
                in_bounds(window_center@, CENTER_LIMIT as int),
                forall|t: int| 0 <= t < i ==> obstacle_ok(#[trigger] obs[t]),
                builder@.hexes == obstacles_hexes(window_center@, obs.subrange(0, i as int)),
                builder@.lines == obstacles_links(window_center@, obs.subrange(0, i as int)),
            decreases n - i,
        {
            let outcome = Self::add_instance_to_mesh_builder(
                &self.obstacles[i],
                &mut builder,
                window_center,
            );
            match outcome {
                Ok(_) => {},
                Err(e) => {
                    proof {
                        lemma_first_obstacle_error_skip(obs, i as int);
                    }
                    return Err(e);
                },
            }
            proof {
                assert(obs.subrange(0, i + 1).drop_last() =~= obs.subrange(0, i as int));
                assert(obs.subrange(0, i + 1).last() == obs[i as int]);
                assert(builder@.hexes =~= obstacles_hexes(window_center@, obs.subrange(0, i + 1)));
                assert(builder@.lines =~= obstacles_links(window_center@, obs.subrange(0, i + 1)));
            }
            i = i + 1;
        }
        proof {
            lemma_first_obstacle_error_skip(obs, n as int);
            assert(obs.subrange(0, n as int) =~= obs);
        }
        self.set_mesh(builder.build());
        Ok(())
    }
}

} // verus!
