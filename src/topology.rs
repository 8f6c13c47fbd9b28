//! The topological objects and their construction invariants.

use crate::geometry::SurfacePath;
use crate::storage::Handle;
use vstd::prelude::*;

verus! {

/// The RGBA color that a region may carry.
#[verifier::external_type_specification]
#[verifier::external_body]
pub struct ExColor(fj_interop::Color);

/// A curve, identified independently of any surface.
pub struct GlobalCurve {}

/// A vertex, identified independently of any curve or surface.
pub struct GlobalVertex {}

/// A surface; its geometry lives in the geometry layer.
pub struct Surface {}

/// A curve as it lies on one surface.
#[derive(Clone, Copy, Debug, PartialEq, Eq, Structural)]
pub struct Curve {
    /// The path of the curve in the surface's coordinates
    pub path: SurfacePath,
    /// The surface that the curve lies on
    pub surface: Handle,
    /// The curve's identity, shared by its forms on all surfaces
    pub global_form: Handle,
}

/// A vertex as it lies on a curve.
#[derive(Clone, Copy, Debug, PartialEq, Eq, Structural)]
pub struct Vertex {
    /// The vertex's coordinate on its curve
    pub position: i64,
    /// The curve that the vertex lies on
    pub curve: Curve,
    /// The vertex's global identity
    pub global_form: Handle,
}

/// An edge, defined in global (3D) terms.
#[derive(Clone, Copy, Debug, PartialEq, Eq)]
pub struct GlobalEdge {
    curve: Handle,
    vertices: [Handle; 2],
}

impl GlobalEdge {
    pub closed spec fn curve_spec(&self) -> Handle {
        self.curve
    }

    pub closed spec fn vertices_spec(&self) -> [Handle; 2] {
        self.vertices
    }

    /// Create a new instance
    pub fn new(curve: Handle, vertices: [Handle; 2]) -> (r: Self)
        ensures
            r.curve_spec() == curve,
            r.vertices_spec() == vertices,
    {
        GlobalEdge { curve, vertices }
    }

    /// Access the curve that defines the edge's geometry
    pub fn curve(&self) -> (r: &Handle)
        ensures
            *r == self.curve_spec(),
    {
        &self.curve
    }

    /// Access the vertices that bound the edge on the curve
    pub fn vertices(&self) -> (r: &[Handle; 2])
        ensures
            *r == self.vertices_spec(),
    {
        &self.vertices
    }
}

/// A half-edge: a directed, bounded segment of a curve.
#[derive(Clone, Copy, Debug, PartialEq, Eq)]
pub struct HalfEdge {
    curve: Curve,
    vertices: [Vertex; 2],
    global_form: GlobalEdge,
}

/// The invariants that tie a half-edge's parts together: its vertices lie
/// on its curve, its global form refers to the global forms of its curve
/// and vertices, and its vertices are not coincident on the curve.
pub open spec fn half_edge_parts_agree(curve: Curve, vertices: [Vertex; 2], global_form: GlobalEdge) -> bool {
    &&& vertices[0].curve == curve
    &&& vertices[1].curve == curve
    &&& curve.global_form == global_form.curve_spec()
    &&& vertices[0].global_form == global_form.vertices_spec()[0]
    &&& vertices[1].global_form == global_form.vertices_spec()[1]
    &&& vertices[0].position != vertices[1].position
}

impl HalfEdge {
    pub closed spec fn curve_spec(&self) -> Curve {
        self.curve
    }

    pub closed spec fn vertices_spec(&self) -> [Vertex; 2] {
        self.vertices
    }

    pub closed spec fn global_form_spec(&self) -> GlobalEdge {
        self.global_form
    }

    pub open spec fn wf(&self) -> bool {
        half_edge_parts_agree(self.curve_spec(), self.vertices_spec(), self.global_form_spec())
    }

    /// Create a new half-edge from parts that agree with each other.
    pub fn new(curve: Curve, vertices: [Vertex; 2], global_form: GlobalEdge) -> (r: Self)
        requires
            half_edge_parts_agree(curve, vertices, global_form),
        ensures
            r.curve_spec() == curve,
            r.vertices_spec() == vertices,
            r.global_form_spec() == global_form,
            r.wf(),
    {
        HalfEdge { curve, vertices, global_form }
    }

    /// Access the curve that defines the half-edge's geometry
    pub fn curve(&self) -> (r: &Curve)
        ensures
            *r == self.curve_spec(),
    {
        &self.curve
    }

    /// Access the vertices that bound the half-edge on the curve
    pub fn vertices(&self) -> (r: &[Vertex; 2])
        ensures
            *r == self.vertices_spec(),
    {
        &self.vertices
    }

    /// Access the global form of this half-edge
    pub fn global_form(&self) -> (r: &GlobalEdge)
        ensures
            *r == self.global_form_spec(),
    {
        &self.global_form
    }
}

/// A closed, ordered loop of half-edges.
pub struct Cycle {
    pub half_edges: Vec<Handle>,
}

/// The area of a face: one exterior cycle and any number of holes.
pub struct Region {
    pub exterior: Handle,
    pub interiors: Vec<Handle>,
    pub color: Option<fj_interop::Color>,
}

/// A bounded piece of a surface.
#[derive(Clone, Copy, Debug, PartialEq, Eq, Structural)]
pub struct Face {
    pub surface: Handle,
    pub region: Handle,
}

/// A collection of faces.
pub struct Shell {
    pub faces: Vec<Handle>,
}

/// A volume bounded by shells.
pub struct Solid {
    pub shells: Vec<Handle>,
}

} // verus!
