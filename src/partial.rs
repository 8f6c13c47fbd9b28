//! Partial objects: topological objects assembled field by field, with
//! omitted fields inferred from the others when they are built.

use crate::geometry::SurfacePath;
use crate::instance::Stores;
use crate::math::Point2;
use crate::storage::Handle;
use crate::topology::{Curve, GlobalEdge, HalfEdge, Vertex};
use vstd::prelude::*;

verus! {

/// Implemented for objects that a partial object variant exists for
pub trait HasPartial {
    /// The type representing the partial variant of this object
    type Partial;
}

/// A partial curve.
#[derive(Clone, Copy, Debug, PartialEq, Eq, Structural)]
pub struct PartialCurve {
    /// The path of the curve on its surface
    pub path: Option<SurfacePath>,
    /// The surface that the curve lies on
    pub surface: Option<Handle>,
    /// The global form of the curve
    pub global_form: Option<Handle>,
}

/// A partial vertex.
#[derive(Clone, Copy, Debug, PartialEq, Eq, Structural)]
pub struct PartialVertex {
    /// The coordinate of the vertex on its curve
    pub position: Option<i64>,
    /// The position of the vertex in the coordinates of its surface
    pub surface_position: Option<Point2>,
    /// The surface that the vertex lies on
    pub surface: Option<Handle>,
    /// The global form of the vertex
    pub global_form: Option<Handle>,
}

impl PartialCurve {
    pub open spec fn empty_spec() -> Self {
        PartialCurve { path: None, surface: None, global_form: None }
    }
}

impl PartialVertex {
    pub open spec fn empty_spec() -> Self {
        PartialVertex { position: None, surface_position: None, surface: None, global_form: None }
    }

    pub fn empty() -> (r: Self)
        ensures
            r == Self::empty_spec(),
    {
        PartialVertex { position: None, surface_position: None, surface: None, global_form: None }
    }
}

/// A partial [`GlobalEdge`]
#[derive(Clone, Copy, Debug, PartialEq, Eq)]
pub struct PartialGlobalEdge {
    /// The curve that the edge is defined in
    pub curve: Option<Handle>,
    /// The vertices that bound the edge in the curve
    pub vertices: Option<[Handle; 2]>,
}

impl HasPartial for GlobalEdge {
    type Partial = PartialGlobalEdge;
}

impl HasPartial for HalfEdge {
    type Partial = PartialHalfEdge;
}

impl HasPartial for Curve {
    type Partial = PartialCurve;
}

impl HasPartial for Vertex {
    type Partial = PartialVertex;
}

/// Builder API for [`PartialGlobalEdge`]
pub trait GlobalEdgeBuilder {}

impl GlobalEdgeBuilder for PartialGlobalEdge {}

impl PartialGlobalEdge {
    /// Update partial global edge from the given curve and vertices
    pub fn from_curve_and_vertices(self, curve: &Curve, vertices: &[Vertex; 2]) -> (r: Self)
        ensures
            r.curve == Some(curve.global_form),
            r.vertices == Some([vertices[0].global_form, vertices[1].global_form]),
    {
        PartialGlobalEdge { curve: Some(curve.global_form), vertices: Some([vertices[0].global_form, vertices[1].global_form]) }
    }

    /// Build a full [`GlobalEdge`] from the partial global edge; both fields
    /// must have been supplied.
    pub fn build(self, _stores: &Stores) -> (r: GlobalEdge)
        requires
            self.curve is Some,
            self.vertices is Some,
        ensures
            r.curve_spec() == self.curve.unwrap(),
            r.vertices_spec() == self.vertices.unwrap(),
    {
        match (self.curve, self.vertices) {
            (Some(curve), Some(vertices)) => GlobalEdge::new(curve, vertices),
            _ => {
                proof {
                    assert(false);
                }
                GlobalEdge::new(Handle { id: 0 }, [Handle { id: 0 }, Handle { id: 0 }])
            },
        }
    }
}

impl Default for PartialGlobalEdge {
    fn default() -> (r: Self)
        ensures
            r.curve is None,
            r.vertices is None,
    {
        PartialGlobalEdge { curve: None, vertices: None }
    }
}

/// A partial [`HalfEdge`]
#[derive(Clone, Copy, Debug, PartialEq, Eq)]
pub struct PartialHalfEdge {
    /// The curve that the half-edge is defined in
    pub curve: Option<PartialCurve>,
    /// The vertices that bound the half-edge in the curve
    pub vertices: Option<[PartialVertex; 2]>,
    /// The global form of the half-edge; built from the curve and the
    /// vertices where it is not supplied
    pub global_form: Option<PartialGlobalEdge>,
}

impl Default for PartialHalfEdge {
    fn default() -> (r: Self)
        ensures
            r.curve is None,
            r.vertices is None,
            r.global_form is None,
    {
        PartialHalfEdge { curve: None, vertices: None, global_form: None }
    }
}

/// The global curve that a partial half-edge already knows of: that of its
/// curve, else that of its global form.
pub open spec fn known_global_curve(p: PartialHalfEdge) -> Option<Handle> {
    match p.curve {
        Some(c) if c.global_form is Some => c.global_form,
        _ => match p.global_form {
            Some(g) => g.curve,
            None => None,
        },
    }
}

/// The global form that a partial half-edge already knows of for its
/// vertex `i`: that of the vertex, else that of its global form.
pub open spec fn known_global_vertex(p: PartialHalfEdge, i: int) -> Option<Handle> {
    match p.vertices {
        Some(vs) if vs[i].global_form is Some => vs[i].global_form,
        _ => match p.global_form {
            Some(g) => match g.vertices {
                Some(gv) => Some(gv[i]),
                None => None,
            },
            None => None,
        },
    }
}

/// Whether the partial half-edge's curve is closed (a circle).
pub open spec fn closed_curve(p: PartialHalfEdge) -> bool {
    p.curve matches Some(c) && c.path matches Some(path) && path is Circle
}

/// The global curve that building gives: the known one, else `fresh`.
pub open spec fn resolved_curve(p: PartialHalfEdge, fresh: Handle) -> Handle {
    match known_global_curve(p) {
        Some(h) => h,
        None => fresh,
    }
}

/// The global vertices that building gives. Unknown ones are new, taken in
/// order from `next` on; on a closed curve the end vertex is the start
/// vertex, as the curve has no second endpoint.
pub open spec fn resolved_vertices(p: PartialHalfEdge, next: u64) -> [Handle; 2] {
    let first = match known_global_vertex(p, 0) {
        Some(h) => h,
        None => Handle { id: next },
    };
    let after = if known_global_vertex(p, 0) is Some { next } else { (next + 1) as u64 };
    let second = match known_global_vertex(p, 1) {
        Some(h) => h,
        None => if closed_curve(p) { first } else { Handle { id: after } },
    };
    [first, second]
}

/// The full curve that building gives.
pub open spec fn built_curve(p: PartialHalfEdge, fresh: Handle) -> Curve {
    Curve {
        path: p.curve.unwrap().path.unwrap(),
        surface: p.curve.unwrap().surface.unwrap(),
        global_form: resolved_curve(p, fresh),
    }
}

/// The full vertices that building gives.
pub open spec fn built_vertices(p: PartialHalfEdge, fresh: Handle, next: u64) -> [Vertex; 2] {
    let c = built_curve(p, fresh);
    let g = resolved_vertices(p, next);
    [
        Vertex { position: p.vertices.unwrap()[0].position.unwrap(), curve: c, global_form: g[0] },
        Vertex { position: p.vertices.unwrap()[1].position.unwrap(), curve: c, global_form: g[1] },
    ]
}

/// Whether the partial half-edge has every field that building needs and
/// nothing that contradicts itself: a curve with path and surface, two
/// vertices with distinct positions, and global forms that agree.
pub open spec fn buildable(p: PartialHalfEdge) -> bool {
    &&& p.curve matches Some(c) && c.path is Some && c.surface is Some
    &&& p.vertices matches Some(vs) && vs[0].position is Some && vs[1].position is Some
        && vs[0].position != vs[1].position
    &&& p.global_form matches Some(g) ==> {
        &&& (g.curve is Some && p.curve.unwrap().global_form is Some) ==> g.curve == p.curve.unwrap().global_form
        &&& g.vertices matches Some(gv) ==> {
            &&& p.vertices.unwrap()[0].global_form matches Some(h) ==> h == gv[0]
            &&& p.vertices.unwrap()[1].global_form matches Some(h) ==> h == gv[1]
        }
    }
}

/// Whether every global form is already known, so that building allocates
/// nothing.
pub open spec fn fully_known(p: PartialHalfEdge) -> bool {
    &&& known_global_curve(p) is Some
    &&& known_global_vertex(p, 0) is Some
    &&& known_global_vertex(p, 1) is Some
}

} // verus!

verus! {

impl PartialHalfEdge {
    /// Update the partial half-edge with the given curve
    pub fn with_curve(self, curve: PartialCurve) -> (r: Self)
        ensures
            r == (PartialHalfEdge { curve: Some(curve), ..self }),
    {
        PartialHalfEdge { curve: Some(curve), ..self }
    }

    /// Update the partial half-edge with the given vertices
    pub fn with_vertices(self, vertices: [PartialVertex; 2]) -> (r: Self)
        ensures
            r == (PartialHalfEdge { vertices: Some(vertices), ..self }),
    {
        PartialHalfEdge { vertices: Some(vertices), ..self }
    }

    /// Update the partial half-edge with the given global form
    pub fn with_global_form(self, global_form: PartialGlobalEdge) -> (r: Self)
        ensures
            r == (PartialHalfEdge { global_form: Some(global_form), ..self }),
    {
        PartialHalfEdge { global_form: Some(global_form), ..self }
    }

    /// The global curve that the half-edge already knows of: that of its
    /// curve, else that of its global form.
    pub fn extract_global_curve(&self) -> (r: Option<Handle>)
        ensures
            r == known_global_curve(*self),
    {
        let from_curve = match self.curve {
            Some(c) => c.global_form,
            None => None,
        };
        match from_curve {
            Some(h) => Some(h),
            None => match self.global_form {
                Some(g) => g.curve,
                None => None,
            },
        }
    }

    pub fn extract_global_vertex(&self, i: usize) -> (r: Option<Handle>)
        requires
            i < 2,
        ensures
            r == known_global_vertex(*self, i as int),
    {
        let from_vertex = match self.vertices {
            Some(vs) => vs[i].global_form,
            None => None,
        };
        match from_vertex {
            Some(h) => Some(h),
            None => match self.global_form {
                Some(g) => match g.vertices {
                    Some(gv) => Some(gv[i]),
                    None => None,
                },
                None => None,
            },
        }
    }

    /// Update partial half-edge as a circle around the surface's origin.
    ///
    /// The curve is new and closed; both vertices lie at its one point at
    /// coordinate 0 (the start and the end after one full turn) and share a
    /// single global vertex when built.
    pub fn as_circle_from_radius(self, surface: Handle, radius: i64) -> (r: Self)
        ensures
            r.curve == Some(PartialCurve {
                path: Some(SurfacePath::Circle { center: Point2 { u: 0, v: 0 }, radius }),
                surface: Some(surface),
                global_form: None,
            }),
            r.vertices == Some([
                PartialVertex { position: Some(0i64), surface_position: Some(Point2 { u: radius, v: 0 }), surface: Some(surface), global_form: None },
                PartialVertex { position: Some(1i64), surface_position: Some(Point2 { u: radius, v: 0 }), surface: Some(surface), global_form: None },
            ]),
            r.global_form == self.global_form,
            closed_curve(r),
    {
        let path = SurfacePath::circle_from_radius(radius);
        let curve = PartialCurve { path: Some(path), surface: Some(surface), global_form: None };
        let point = Point2 { u: radius, v: 0 };
        let vertices = [
            PartialVertex { position: Some(0), surface_position: Some(point), surface: Some(surface), global_form: None },
            PartialVertex { position: Some(1), surface_position: Some(point), surface: Some(surface), global_form: None },
        ];
        PartialHalfEdge { curve: Some(curve), vertices: Some(vertices), ..self }
    }

    /// Update partial half-edge as a line segment from `points[0]` (at curve
    /// coordinate 0) to `points[1]` (at coordinate 1), on `surface`.
    ///
    /// The global curve that the half-edge already knows of is kept; the
    /// vertices are new.
    pub fn as_line_segment_from_points(self, surface: Handle, points: [Point2; 2]) -> (r: Self)
        requires
            points[0].in_range(),
            points[1].in_range(),
        ensures
            r == line_segment_from_points(self, surface, points),
    {
        let path = SurfacePath::line_from_points(points[0], points[1]);
        let curve = PartialCurve { path: Some(path), surface: Some(surface), global_form: self.extract_global_curve() };
        let vertices = [
            PartialVertex { position: Some(0), surface_position: Some(points[0]), surface: Some(surface), global_form: None },
            PartialVertex { position: Some(1), surface_position: Some(points[1]), surface: Some(surface), global_form: None },
        ];
        PartialHalfEdge { curve: Some(curve), vertices: Some(vertices), ..self }
    }

    /// Update partial half-edge as a line segment between its vertices'
    /// surface positions, reusing the vertices.
    ///
    /// The surface is that of the first vertex, else that of the second.
    /// The vertices are attached to the new line as they are: they keep
    /// their curve coordinates, surface positions and global forms.
    pub fn as_line_segment(self) -> (r: Self)
        requires
            self.vertices matches Some(vs) && {
                &&& vs[0].surface_position matches Some(p) && p.in_range()
                &&& vs[1].surface_position matches Some(p) && p.in_range()
                &&& (vs[0].surface is Some || vs[1].surface is Some)
            },
        ensures
            ({
                let vs = self.vertices.unwrap();
                let a = vs[0].surface_position.unwrap();
                let b = vs[1].surface_position.unwrap();
                let surface = if vs[0].surface is Some { vs[0].surface } else { vs[1].surface };
                &&& r.curve == Some(PartialCurve {
                    path: Some(SurfacePath::Line {
                        origin: a,
                        direction: Point2 { u: (b.u - a.u) as i64, v: (b.v - a.v) as i64 },
                    }),
                    surface,
                    global_form: known_global_curve(self),
                })
                &&& r.vertices == self.vertices
                &&& r.global_form == self.global_form
            }),
    {
        let vs = match self.vertices {
            Some(vs) => vs,
            None => {
                proof {
                    assert(false);
                }
                return self;
            },
        };
        let from = vs[0];
        let to = vs[1];
        let surface = match from.surface {
            Some(s) => Some(s),
            None => to.surface,
        };
        let (a, b) = match (from.surface_position, to.surface_position) {
            (Some(a), Some(b)) => (a, b),
            _ => {
                proof {
                    assert(false);
                }
                return self;
            },
        };
        let path = SurfacePath::line_from_points(a, b);
        let curve = PartialCurve { path: Some(path), surface, global_form: self.extract_global_curve() };
        PartialHalfEdge { curve: Some(curve), ..self }
    }

    /// Build a full [`HalfEdge`] from the partial half-edge.
    ///
    /// Global forms that are not known yet are allocated in `stores`: first
    /// the curve, then the start vertex, then the end vertex (the start
    /// vertex again, on a closed curve). The global form of the half-edge
    /// is built from those of its curve and vertices.
    pub fn build(self, stores: &mut Stores) -> (r: HalfEdge)
        requires
            buildable(self),
            old(stores).has_room(3),
        ensures
            r.curve_spec() == built_curve(self, old(stores).curves.next_handle()),
            r.vertices_spec() == built_vertices(self, old(stores).curves.next_handle(), old(stores).vertices@.len() as u64),
            r.global_form_spec().curve_spec() == r.curve_spec().global_form,
            r.global_form_spec().vertices_spec() == [r.vertices_spec()[0].global_form, r.vertices_spec()[1].global_form],
            r.wf(),
            fully_known(self) ==> *final(stores) == *old(stores),
            final(stores).half_edges == old(stores).half_edges,
            final(stores).surfaces == old(stores).surfaces,
            final(stores).cycles == old(stores).cycles,
            final(stores).regions == old(stores).regions,
            final(stores).faces == old(stores).faces,
    {
        let pc = match self.curve {
            Some(c) => c,
            None => {
                proof {
                    assert(false);
                }
                return HalfEdge::new(
                    Curve { path: SurfacePath::circle_from_radius(0), surface: Handle { id: 0 }, global_form: Handle { id: 0 } },
                    [
                        Vertex { position: 0, curve: Curve { path: SurfacePath::circle_from_radius(0), surface: Handle { id: 0 }, global_form: Handle { id: 0 } }, global_form: Handle { id: 0 } },
                        Vertex { position: 1, curve: Curve { path: SurfacePath::circle_from_radius(0), surface: Handle { id: 0 }, global_form: Handle { id: 0 } }, global_form: Handle { id: 0 } },
                    ],
                    GlobalEdge::new(Handle { id: 0 }, [Handle { id: 0 }, Handle { id: 0 }]),
                );
            },
        };
        let path = pc.path.unwrap();
        let surface = pc.surface.unwrap();
        let vs = self.vertices.unwrap();
        let a = vs[0].position.unwrap();
        let b = vs[1].position.unwrap();

        let ghost fresh = stores.curves.next_handle();
        let ghost next = stores.vertices@.len() as u64;
        let global_curve = match self.extract_global_curve() {
            Some(h) => h,
            None => stores.new_curve(),
        };
        let start = match self.extract_global_vertex(0) {
            Some(h) => h,
            None => stores.new_vertex(),
        };
        let closed = match path {
            SurfacePath::Circle { .. } => true,
            SurfacePath::Line { .. } => false,
        };
        let end = match self.extract_global_vertex(1) {
            Some(h) => h,
            None => if closed {
                start
            } else {
                stores.new_vertex()
            },
        };
        let curve = Curve { path, surface, global_form: global_curve };
        let vertices = [
            Vertex { position: a, curve, global_form: start },
            Vertex { position: b, curve, global_form: end },
        ];
        let global_form = PartialGlobalEdge::default().from_curve_and_vertices(&curve, &vertices).build(stores);
        proof {
            assert(curve == built_curve(self, fresh));
            assert(vertices == built_vertices(self, fresh, next));
        }
        HalfEdge::new(curve, vertices, global_form)
    }
}

/// The partial half-edge made a line segment from `points[0]` to
/// `points[1]` on `surface`.
pub open spec fn line_segment_from_points(p: PartialHalfEdge, surface: Handle, points: [Point2; 2]) -> PartialHalfEdge {
    PartialHalfEdge {
        curve: Some(PartialCurve {
            path: Some(SurfacePath::Line {
                origin: points[0],
                direction: Point2 { u: (points[1].u - points[0].u) as i64, v: (points[1].v - points[0].v) as i64 },
            }),
            surface: Some(surface),
            global_form: known_global_curve(p),
        }),
        vertices: Some([
            PartialVertex { position: Some(0i64), surface_position: Some(points[0]), surface: Some(surface), global_form: None },
            PartialVertex { position: Some(1i64), surface_position: Some(points[1]), surface: Some(surface), global_form: None },
        ]),
        global_form: p.global_form,
    }
}

/// Whether the global curve given by the curve agrees with that of the
/// global form, where both give one.
pub open spec fn global_forms_agree(p: PartialHalfEdge) -> bool {
    match (p.global_form, p.curve) {
        (Some(g), Some(c)) => (g.curve is Some && c.global_form is Some) ==> g.curve == c.global_form,
        _ => true,
    }
}

/// A half-edge built as a line segment from `P` to `Q` can be built (where
/// the global forms it already knows agree), is bounded at the
/// curve coordinates 0 and 1, in that order, and its curve maps them back
/// to `P` and `Q`.
pub proof fn lemma_line_segment_round_trip(p: PartialHalfEdge, surface: Handle, points: [Point2; 2], fresh: Handle, next: u64)
    requires
        points[0].in_range(),
        points[1].in_range(),
    ensures
        ({
            let q = line_segment_from_points(p, surface, points);
            let vs = built_vertices(q, fresh, next);
            let c = built_curve(q, fresh);
            &&& global_forms_agree(p) ==> buildable(q)
            &&& vs[0].position == 0
            &&& vs[1].position == 1
            &&& c.path.point_at(vs[0].position as int) == points[0]@
            &&& c.path.point_at(vs[1].position as int) == points[1]@
        }),
{
    let q = line_segment_from_points(p, surface, points);
    let d = Point2 { u: (points[1].u - points[0].u) as i64, v: (points[1].v - points[0].v) as i64 };
    assert(d.u * 0int == 0 && d.v * 0int == 0 && d.u * 1int == d.u && d.v * 1int == d.v) by (nonlinear_arith);
}

/// Building a partial half-edge whose global forms are all known depends on
/// nothing but the partial half-edge: two builds of it agree in every field.
pub proof fn lemma_build_fully_known_is_deterministic(p: PartialHalfEdge, fresh1: Handle, next1: u64, fresh2: Handle, next2: u64)
    requires
        fully_known(p),
    ensures
        built_curve(p, fresh1) == built_curve(p, fresh2),
        built_vertices(p, fresh1, next1) == built_vertices(p, fresh2, next2),
{
    assert(resolved_vertices(p, next1) == resolved_vertices(p, next2));
}

} // verus!

verus! {

/// The partial half-edge with its global form inferred: its curve taken
/// from the curve's global form and its vertices from the vertices' global
/// forms, where those are known; what is not known is left as it was.
pub open spec fn inferred_global_form(p: PartialHalfEdge) -> PartialHalfEdge {
    let g = match p.global_form {
        Some(g) => g,
        None => PartialGlobalEdge { curve: None, vertices: None },
    };
    let curve = match p.curve {
        Some(c) if c.global_form is Some => c.global_form,
        _ => g.curve,
    };
    let vertices = match p.vertices {
        Some(vs) if vs[0].global_form is Some && vs[1].global_form is Some =>
            Some([vs[0].global_form.unwrap(), vs[1].global_form.unwrap()]),
        _ => g.vertices,
    };
    PartialHalfEdge { global_form: Some(PartialGlobalEdge { curve, vertices }), ..p }
}

/// Inferring the global form a second time, with nothing else changed,
/// changes nothing.
pub proof fn lemma_infer_global_form_idempotent(p: PartialHalfEdge)
    ensures
        inferred_global_form(inferred_global_form(p)) == inferred_global_form(p),
{
}

impl PartialHalfEdge {
    /// Infers the global form from the curve and the vertices, stores it
    /// and returns it.
    pub fn infer_global_form(&mut self) -> (r: PartialGlobalEdge)
        ensures
            *final(self) == inferred_global_form(*old(self)),
            final(self).global_form == Some(r),
    {
        let g = match self.global_form {
            Some(g) => g,
            None => PartialGlobalEdge::default(),
        };
        let from_curve = match self.curve {
            Some(c) => c.global_form,
            None => None,
        };
        let curve = match from_curve {
            Some(h) => Some(h),
            None => g.curve,
        };
        let vertices = match self.vertices {
            Some(vs) => match (vs[0].global_form, vs[1].global_form) {
                (Some(a), Some(b)) => Some([a, b]),
                _ => g.vertices,
            },
            None => g.vertices,
        };
        let r = PartialGlobalEdge { curve, vertices };
        self.global_form = Some(r);
        r
    }

    /// Makes the half-edge a circle (see `as_circle_from_radius`) and
    /// infers its global form.
    pub fn update_as_circle_from_radius(&mut self, surface: Handle, radius: i64)
        ensures
            final(self).curve == old(self).as_circle_spec(surface, radius).curve,
            final(self).vertices == old(self).as_circle_spec(surface, radius).vertices,
            *final(self) == inferred_global_form(old(self).as_circle_spec(surface, radius)),
    {
        *self = self.as_circle_from_radius(surface, radius);
        self.infer_global_form();
    }

    /// Makes the half-edge a line segment from `points[0]` to `points[1]`
    /// (see `as_line_segment_from_points`) and infers its global form.
    pub fn update_as_line_segment_from_points(&mut self, surface: Handle, points: [Point2; 2])
        requires
            points[0].in_range(),
            points[1].in_range(),
        ensures
            *final(self) == inferred_global_form(line_segment_from_points(*old(self), surface, points)),
    {
        *self = self.as_line_segment_from_points(surface, points);
        self.infer_global_form();
    }

    /// Makes the half-edge a line segment between its vertices' surface
    /// positions (see `as_line_segment`) and infers its global form.
    pub fn update_as_line_segment(&mut self)
        requires
            old(self).vertices matches Some(vs) && {
                &&& vs[0].surface_position matches Some(p) && p.in_range()
                &&& vs[1].surface_position matches Some(p) && p.in_range()
            },
        ensures
            ({
                let vs = old(self).vertices.unwrap();
                let a = vs[0].surface_position.unwrap();
                let b = vs[1].surface_position.unwrap();
                let surface = if vs[0].surface is Some {
                    vs[0].surface
                } else if vs[1].surface is Some {
                    vs[1].surface
                } else {
                    match old(self).curve {
                        Some(c) => c.surface,
                        None => None,
                    }
                };
                &&& final(self).curve == Some(PartialCurve {
                    path: Some(SurfacePath::Line {
                        origin: a,
                        direction: Point2 { u: (b.u - a.u) as i64, v: (b.v - a.v) as i64 },
                    }),
                    surface,
                    global_form: known_global_curve(*old(self)),
                })
                &&& final(self).vertices == Some([
                    PartialVertex { position: Some(0i64), ..vs[0] },
                    PartialVertex { position: Some(1i64), ..vs[1] },
                ])
                &&& *final(self) == inferred_global_form(PartialHalfEdge { curve: final(self).curve, vertices: final(self).vertices, global_form: old(self).global_form })
            }),
    {
        let vs = self.vertices.unwrap();
        let from = vs[0];
        let to = vs[1];
        let surface = match from.surface {
            Some(s) => Some(s),
            None => match to.surface {
                Some(s) => Some(s),
                None => match self.curve {
                    Some(c) => c.surface,
                    None => None,
                },
            },
        };
        let a = from.surface_position.unwrap();
        let b = to.surface_position.unwrap();
        let path = SurfacePath::line_from_points(a, b);
        let curve = PartialCurve { path: Some(path), surface, global_form: self.extract_global_curve() };
        let vertices = [PartialVertex { position: Some(0), ..from }, PartialVertex { position: Some(1), ..to }];
        *self = PartialHalfEdge { curve: Some(curve), vertices: Some(vertices), ..*self };
        self.infer_global_form();
    }

    /// The partial half-edge made a circle of `radius` on `surface`.
    pub open spec fn as_circle_spec(&self, surface: Handle, radius: i64) -> PartialHalfEdge {
        PartialHalfEdge {
            curve: Some(PartialCurve {
                path: Some(SurfacePath::Circle { center: Point2 { u: 0, v: 0 }, radius }),
                surface: Some(surface),
                global_form: None,
            }),
            vertices: Some([
                PartialVertex { position: Some(0i64), surface_position: Some(Point2 { u: radius, v: 0 }), surface: Some(surface), global_form: None },
                PartialVertex { position: Some(1i64), surface_position: Some(Point2 { u: radius, v: 0 }), surface: Some(surface), global_form: None },
            ]),
            global_form: self.global_form,
        }
    }
}

/// The partial form of a full half-edge: every field known.
pub open spec fn partial_of(h: HalfEdge) -> PartialHalfEdge {
    let c = h.curve_spec();
    let vs = h.vertices_spec();
    let vertex = |v: Vertex| PartialVertex {
        position: Some(v.position),
        surface_position: None,
        surface: Some(v.curve.surface),
        global_form: Some(v.global_form),
    };
    PartialHalfEdge {
        curve: Some(PartialCurve { path: Some(c.path), surface: Some(c.surface), global_form: Some(c.global_form) }),
        vertices: Some([vertex(vs[0]), vertex(vs[1])]),
        global_form: Some(PartialGlobalEdge {
            curve: Some(h.global_form_spec().curve_spec()),
            vertices: Some(h.global_form_spec().vertices_spec()),
        }),
    }
}

impl From<HalfEdge> for PartialHalfEdge {
    fn from(half_edge: HalfEdge) -> (r: Self)
        ensures
            r == partial_of(half_edge),
    {
        let c = *half_edge.curve();
        let vs = *half_edge.vertices();
        let g = *half_edge.global_form();
        PartialHalfEdge {
            curve: Some(PartialCurve { path: Some(c.path), surface: Some(c.surface), global_form: Some(c.global_form) }),
            vertices: Some([
                PartialVertex { position: Some(vs[0].position), surface_position: None, surface: Some(vs[0].curve.surface), global_form: Some(vs[0].global_form) },
                PartialVertex { position: Some(vs[1].position), surface_position: None, surface: Some(vs[1].curve.surface), global_form: Some(vs[1].global_form) },
            ]),
            global_form: Some(PartialGlobalEdge { curve: Some(*g.curve()), vertices: Some(*g.vertices()) }),
        }
    }
}

impl vstd::std_specs::convert::FromSpecImpl<HalfEdge> for PartialHalfEdge {
    open spec fn obeys_from_spec() -> bool {
        true
    }

    open spec fn from_spec(v: HalfEdge) -> Self {
        partial_of(v)
    }
}

impl From<GlobalEdge> for PartialGlobalEdge {
    fn from(global_edge: GlobalEdge) -> (r: Self)
        ensures
            r.curve == Some(global_edge.curve_spec()),
            r.vertices == Some(global_edge.vertices_spec()),
    {
        PartialGlobalEdge { curve: Some(*global_edge.curve()), vertices: Some(*global_edge.vertices()) }
    }
}

impl vstd::std_specs::convert::FromSpecImpl<GlobalEdge> for PartialGlobalEdge {
    open spec fn obeys_from_spec() -> bool {
        true
    }

    open spec fn from_spec(v: GlobalEdge) -> Self {
        PartialGlobalEdge { curve: Some(v.curve_spec()), vertices: Some(v.vertices_spec()) }
    }
}

/// A full half-edge turned partial and built again is the same half-edge.
pub proof fn lemma_partial_of_builds_back(h: HalfEdge, fresh: Handle, next: u64)
    requires
        h.wf(),
    ensures
        fully_known(partial_of(h)),
        buildable(partial_of(h)),
        built_curve(partial_of(h), fresh) == h.curve_spec(),
        built_vertices(partial_of(h), fresh, next) == h.vertices_spec(),
{
    let vs = h.vertices_spec();
    assert(built_vertices(partial_of(h), fresh, next) =~= vs);
}

} // verus!
