//! Resources: an origin cell plus concentric radial rings, all in the
//! resource's element color.
//!
//! The manager owns the placed resources and one mesh that is rebuilt, not
//! patched, from the full collection. Each resource contributes the hex cell
//! of its origin and the cells of rings 1 through its radius, every one
//! filled in the element color with a white border.

use vstd::prelude::*;

use crate::colors::Element;
use crate::colors::from_element;
use crate::colors::spec_element_color;
use crate::colors::spec_white;
use crate::colors::white;
use crate::coords::Coords;
use crate::coords::GCoords;
use crate::coords::spec_cell_center;
use crate::geometry::GPoint;
use crate::geometry::Point;
use crate::geometry::in_bounds;
use crate::hex_grid_cell::HexGridCell;
use crate::hex_grid_cell::lemma_radial_hexes_shape;
use crate::hex_grid_cell::radial_hexes;
use crate::mesh::GHexCell;
use crate::mesh::GMesh;
use crate::mesh::GSegment;
use crate::mesh::Mesh;
use crate::mesh::MeshBuilder;
use crate::world_grid_manager::CENTER_LIMIT;

verus! {

/// Why a resource could not be rendered.
#[derive(Clone, Copy, Debug, PartialEq, Eq, Structural)]
pub enum ResourceErrorKind {
    /// The resource's element is the `Unset` sentinel and has no color.
    UnknownElement,
}

/// The error a resource rendering reports, with why it failed.
#[derive(Clone, Copy, Debug, PartialEq, Eq, Structural)]
pub struct ResourceError {
    pub kind: ResourceErrorKind,
}

/// Mathematical model of a resource.
pub ghost struct GResource {
    pub origin: GCoords,
    pub radius: int,
    pub element: Element,
}

/// A resource: an origin cell, the radius of the rings it covers, and the
/// element that colors it.
#[derive(Clone, Copy, Debug)]
pub struct Resource {
    pub origin: Coords,
    pub radius: u8,
    pub element: Element,
}

impl View for Resource {
    type V = GResource;

    open spec fn view(&self) -> GResource {
        GResource { origin: self.origin@, radius: self.radius as int, element: self.element }
    }
}

impl Resource {
    /// Builds a resource from its origin, radius and element.
    pub fn new(origin: Coords, radius: u8, element: Element) -> (r: Resource)
        ensures
            r@ == (GResource { origin: origin@, radius: radius as int, element }),
    {
        Resource { origin, radius, element }
    }

    /// The origin cell's coordinate.
    pub fn origin(&self) -> (r: Coords)
        ensures
            r@ == self@.origin,
    {
        self.origin
    }

    /// The covered ring radius.
    pub fn radius(&self) -> (r: u8)
        ensures
            r as int == self@.radius,
    {
        self.radius
    }

    /// The resource's element.
    pub fn element(&self) -> (r: Element)
        ensures
            r == self@.element,
    {
        self.element
    }
}

/// The resource's element has a color, so it can be rendered.
pub open spec fn resource_ok(res: GResource) -> bool {
    res.element != Element::Unset
}

/// The hex cell polygons of a resource: its origin cell, then the cells of
/// rings 1 through its radius, all filled in the element color with a white
/// border.
pub open spec fn resource_hexes(wc: GPoint, res: GResource) -> Seq<GHexCell> {
    seq![
        GHexCell {
            center: spec_cell_center(wc, res.origin),
            fill: spec_element_color(res.element),
            border: spec_white(),
        },
    ] + radial_hexes(
        spec_cell_center(wc, res.origin),
        spec_element_color(res.element),
        spec_white(),
        res.radius as nat,
    )
}

/// Law: a resource of radius `r` renders as `1 + 3 * r * (r + 1)` hex cells
/// — its origin plus the radial cell count for `r` — every one filled in
/// the resource's element color.
pub proof fn lemma_resource_hexes_shape(wc: GPoint, res: GResource)
    requires
        res.radius >= 0,
    ensures
        resource_hexes(wc, res).len() == 1 + 3 * res.radius * (res.radius + 1),
        forall|i: int|
            0 <= i < resource_hexes(wc, res).len() ==> (#[trigger] resource_hexes(wc, res)[i]).fill
                == spec_element_color(res.element),
{
    lemma_radial_hexes_shape(
        spec_cell_center(wc, res.origin),
        spec_element_color(res.element),
        spec_white(),
        res.radius as nat,
    );
}

/// Mathematical model of the resource manager: its resources and its mesh.
pub ghost struct GResourceManager {
    pub resources: Seq<GResource>,
    pub mesh: GMesh,
}

/// Owns the placed resources and the mesh rebuilt from them.
pub struct ResourceManager {
    resources: Vec<Resource>,
    resource_mesh: Mesh,
}

impl View for ResourceManager {
    type V = GResourceManager;

    closed spec fn view(&self) -> GResourceManager {
        GResourceManager {
            resources: self.resources@.map_values(|r: Resource| r@),
            mesh: self.resource_mesh@,
        }
    }
}

/// The concatenated hex cells of the resources in `rs`, in order.
pub open spec fn resources_hexes(wc: GPoint, rs: Seq<GResource>) -> Seq<GHexCell>
    decreases rs.len(),
{
    if rs.len() == 0 {
        Seq::empty()
    } else {
        resources_hexes(wc, rs.drop_last()) + resource_hexes(wc, rs.last())
    }
}

/// The position of the first resource in `rs` from `i` on whose element has
/// no color, if any.
pub open spec fn first_resource_error_from(rs: Seq<GResource>, i: int) -> Option<ResourceError>
    decreases rs.len() - i,
{
    if i < 0 || i >= rs.len() {
        None
    } else if rs[i].element == Element::Unset {
        Some(ResourceError { kind: ResourceErrorKind::UnknownElement })
    } else {
        first_resource_error_from(rs, i + 1)
    }
}

/// The error of the first resource in `rs` that cannot be rendered, if any.
pub open spec fn first_resource_error(rs: Seq<GResource>) -> Option<ResourceError> {
    first_resource_error_from(rs, 0)
}

/// Skipping a renderable prefix does not change the first error found.
proof fn lemma_first_resource_error_skip(rs: Seq<GResource>, i: int)
    requires
        0 <= i <= rs.len(),
        forall|t: int| 0 <= t < i ==> resource_ok(#[trigger] rs[t]),
    ensures
        first_resource_error_from(rs, 0) == first_resource_error_from(rs, i),
    decreases i,
{
    if i > 0 {
        lemma_first_resource_error_skip(rs, i - 1);
    }
}

impl ResourceManager {
    /// Creates an empty manager: no resources, an empty mesh.
    pub fn new() -> (r: ResourceManager)
        ensures
            r@.resources == Seq::<GResource>::empty(),
            r@.mesh.lines == Seq::<GSegment>::empty(),
            r@.mesh.hexes == Seq::<GHexCell>::empty(),
    {
        let r = ResourceManager { resources: Vec::new(), resource_mesh: Mesh::new_empty() };
        proof {
            assert(r@.resources =~= Seq::<GResource>::empty());
        }
        r
    }

    /// The placed resources, in placement order.
    pub fn instances(&self) -> (r: &Vec<Resource>)
        ensures
            r@.map_values(|x: Resource| x@) == self@.resources,
    {
        &self.resources
    }

    /// Appends a resource to the collection. The mesh is not touched; it
    /// reflects the new collection only after the next rebuild.
    pub fn push_instance(&mut self, instance: Resource)
        ensures
            final(self)@.resources == old(self)@.resources.push(instance@),
            final(self)@.mesh == old(self)@.mesh,
    {
        let ghost inst = instance@;
        self.resources.push(instance);
        proof {
            assert(self@.resources =~= old(self)@.resources.push(inst));
        }
    }

    /// The current resource mesh.
    pub fn mesh(&self) -> (r: &Mesh)
        ensures
            r@ == self@.mesh,
    {
        &self.resource_mesh
    }

    /// Replaces the resource mesh.
    pub fn set_mesh(&mut self, mesh: Mesh)
        ensures
            final(self)@.mesh == mesh@,
            final(self)@.resources == old(self)@.resources,
    {
        self.resource_mesh = mesh;
    }

    /// Renders one resource into the mesh builder: the origin hex cell,
    /// then the radial rings out to the resource's radius, all in the
    /// element color. Fails, leaving the builder untouched, when the
    /// element has no color.
    pub fn add_instance_to_mesh_builder(
        instance: &Resource,
        mesh_builder: &mut MeshBuilder,
        window_center: Point,
    ) -> (r: Result<(), ResourceError>)
        requires
            in_bounds(window_center@, CENTER_LIMIT as int),
        ensures
            r is Ok <==> resource_ok(instance@),
            r is Ok ==> final(mesh_builder)@.hexes == old(mesh_builder)@.hexes + resource_hexes(
                window_center@,
                instance@,
            ) && final(mesh_builder)@.lines == old(mesh_builder)@.lines,
            r is Err ==> final(mesh_builder)@ == old(mesh_builder)@ && r->Err_0 == (ResourceError {
                kind: ResourceErrorKind::UnknownElement,
            }),
    {
        let fill = match from_element(instance.element) {
            Ok(c) => c,
            Err(_) => {
                return Err(ResourceError { kind: ResourceErrorKind::UnknownElement });
            },
        };
        let border = white();
        let cur_hex = HexGridCell::new_from_hex_coords(&window_center, &instance.origin);
        cur_hex.add_to_mesh(fill, border, mesh_builder);
        cur_hex.add_radials_to_mesh(fill, border, instance.radius, mesh_builder);
        proof {
            assert(mesh_builder@.hexes =~= old(mesh_builder)@.hexes + resource_hexes(
                window_center@,
                instance@,
            ));
        }
        Ok(())
    }

    /// Rebuilds the resource mesh from the full collection, one resource
    /// after another in placement order. On the first resource that cannot
    /// be rendered, reports its error and leaves the manager unchanged.
    pub fn rebuild_mesh(&mut self, window_center: Point) -> (r: Result<(), ResourceError>)
        requires
            in_bounds(window_center@, CENTER_LIMIT as int),
        ensures
            r is Ok <==> first_resource_error(old(self)@.resources) is None,
            r is Err ==> r->Err_0 == first_resource_error(old(self)@.resources)->0 && final(self)@
                == old(self)@,
            r is Ok ==> final(self)@.resources == old(self)@.resources && final(self)@.mesh.hexes
                == resources_hexes(window_center@, old(self)@.resources)
                && final(self)@.mesh.lines == Seq::<GSegment>::empty(),
    {
        let ghost rs = self@.resources;
        let mut builder = MeshBuilder::new();
        let n = self.resources.len();
        let mut i: usize = 0;
        proof {
            assert(resources_hexes(window_center@, rs.subrange(0, 0)) =~= Seq::<
                GHexCell,
            >::empty());
        }
        while i < n
            invariant
                i <= n,
                n == rs.len(),
                rs == self@.resources,
                self@ == old(self)@,
                in_bounds(window_center@, CENTER_LIMIT as int),
                forall|t: int| 0 <= t < i ==> resource_ok(#[trigger] rs[t]),
                builder@.hexes == resources_hexes(window_center@, rs.subrange(0, i as int)),
                builder@.lines == Seq::<GSegment>::empty(),
            decreases n - i,
        {
            let outcome = Self::add_instance_to_mesh_builder(
                &self.resources[i],
                &mut builder,
                window_center,
            );
            match outcome {
                Ok(_) => {},
                Err(e) => {
                    proof {
                        lemma_first_resource_error_skip(rs, i as int);
                    }
                    return Err(e);
                },
            }
            proof {
                assert(rs.subrange(0, i + 1).drop_last() =~= rs.subrange(0, i as int));
                assert(rs.subrange(0, i + 1).last() == rs[i as int]);
                assert(builder@.hexes =~= resources_hexes(window_center@, rs.subrange(0, i + 1)));
            }
            i = i + 1;
        }
        proof {
            lemma_first_resource_error_skip(rs, n as int);
            assert(rs.subrange(0, n as int) =~= rs);
        }
        self.set_mesh(builder.build());
        Ok(())
    }
}

} // verus!
