//! Sweeping: a vertex into an edge, a half-edge into a face.

use crate::geometry::{lemma_defined_has_curve, GlobalPath, HalfEdgeGeometry, HandleMap, LocalCurveGeom, SurfaceGeom, SurfacePath};
use crate::instance::{Instance, Stores};
use crate::math::{Point2, Vector3, V3, add3, scale3, COORD_MAX};
use crate::storage::Handle;
use crate::topology::{Curve, Cycle, Face, GlobalEdge, HalfEdge, Region, Surface, Vertex};
use vstd::prelude::*;

verus! {

/// What sweeping each vertex produced within one sweep operation: the
/// curve that the vertex swept out, and the vertex at its far end.
pub struct SweepCache {
    vertices: HandleMap<(Handle, Handle)>,
}

impl SweepCache {
    /// The curve and vertex that sweeping `vertex` produced, if it was swept.
    pub closed spec fn swept(&self, vertex: Handle) -> Option<(Handle, Handle)> {
        self.vertices.spec_get(vertex)
    }

    /// An empty cache, for the start of a sweep operation.
    pub fn new() -> (r: Self)
        ensures
            forall|v: Handle| r.swept(v) is None,
    {
        SweepCache { vertices: HandleMap::new() }
    }
}

/// Whether `after` keeps every entry of `before`.
pub open spec fn cache_extends(before: &SweepCache, after: &SweepCache) -> bool {
    forall|v: Handle| before.swept(v) is Some ==> #[trigger] after.swept(v) == before.swept(v)
}

/// Within one sweep operation a vertex is swept once: after it was swept,
/// every later sweep in the operation (a half-edge that shares it as an
/// endpoint) gets the same curve and the same far vertex for it.
pub proof fn lemma_vertex_swept_once(before: SweepCache, after: SweepCache, vertex: Handle)
    requires
        cache_extends(&before, &after),
        before.swept(vertex) is Some,
    ensures
        after.swept(vertex) == before.swept(vertex),
{
}

/// Sweeps a vertex into an edge: a new curve and a new vertex at its far
/// end. A vertex that was swept before in the same operation gives the
/// same curve and vertex again.
pub fn sweep_vertex(vertex: Handle, cache: &mut SweepCache, stores: &mut Stores) -> (r: (Handle, Handle))
    requires
        old(stores).has_room(1),
    ensures
        final(cache).swept(vertex) == Some(r),
        forall|v: Handle| v != vertex ==> #[trigger] final(cache).swept(v) == old(cache).swept(v),
        old(cache).swept(vertex) matches Some(p) ==> r == p && *final(stores) == *old(stores),
        old(cache).swept(vertex) is None ==> {
            &&& r == (old(stores).curves.next_handle(), old(stores).vertices.next_handle())
            &&& final(stores).curves@.len() == old(stores).curves@.len() + 1
            &&& final(stores).vertices@.len() == old(stores).vertices@.len() + 1
        },
        final(stores).surfaces == old(stores).surfaces,
        final(stores).half_edges == old(stores).half_edges,
        final(stores).cycles == old(stores).cycles,
        final(stores).regions == old(stores).regions,
        final(stores).faces == old(stores).faces,
        final(stores).shells == old(stores).shells,
        final(stores).solids == old(stores).solids,
        final(stores).has_room(0),
        old(stores).curves@.len() <= final(stores).curves@.len() <= old(stores).curves@.len() + 1,
        old(stores).vertices@.len() <= final(stores).vertices@.len() <= old(stores).vertices@.len() + 1,
{
    match cache.vertices.get(vertex) {
        Some(p) => *p,
        None => {
            let curve = stores.new_curve();
            let swept = stores.new_vertex();
            cache.vertices.insert(vertex, (curve, swept));
            (curve, swept)
        },
    }
}

/// The 3D point of a plane at surface coordinates `p`.
pub open spec fn plane_point_of(surface: SurfaceGeom, p: Point2) -> V3 {
    surface.plane_point(p.u as int, p.v as int)
}

/// The 3D vector of a plane for surface-coordinate vector `d`.
pub open spec fn plane_vector_of(surface: SurfaceGeom, d: Point2) -> V3 {
    match surface.u {
        GlobalPath::Line { direction, .. } => add3(scale3(direction@, d.u as int), scale3(surface.v@, d.v as int)),
        GlobalPath::Circle { .. } => (0, 0, 0),
    }
}

/// The surface that a path on a plane sweeps when moved along `path`: the
/// path's image in 3D, translated along `path`.
pub open spec fn swept_surface(curve: SurfacePath, surface: SurfaceGeom, path: Vector3) -> (SurfaceGeom) {
    SurfaceGeom {
        u: match curve {
            SurfacePath::Line { origin, direction } => GlobalPath::Line {
                origin: vector_of(plane_point_of(surface, origin)),
                direction: vector_of(plane_vector_of(surface, direction)),
            },
            SurfacePath::Circle { center, radius } => GlobalPath::Circle {
                center: vector_of(plane_point_of(surface, center)),
                a: vector_of(plane_vector_of(surface, Point2 { u: radius, v: 0 })),
                b: vector_of(plane_vector_of(surface, Point2 { u: 0, v: radius })),
            },
        },
        v: path,
    }
}

pub open spec fn vector_of(a: V3) -> Vector3 {
    Vector3 { x: a.0 as i64, y: a.1 as i64, z: a.2 as i64 }
}

fn plane_point(origin: Vector3, u: Vector3, v: Vector3, p: Point2) -> (r: Vector3)
    requires
        origin.in_range(),
        u.in_range(),
        v.in_range(),
        p.in_double_range(),
    ensures
        r@ == add3(add3(origin@, scale3(u@, p.u as int)), scale3(v@, p.v as int)),
{
    proof {
        let b = COORD_MAX as int;
        crate::math::lemma_mul_bound(u.x as int, p.u as int, b, 2 * b);
        crate::math::lemma_mul_bound(u.y as int, p.u as int, b, 2 * b);
        crate::math::lemma_mul_bound(u.z as int, p.u as int, b, 2 * b);
        crate::math::lemma_mul_bound(v.x as int, p.v as int, b, 2 * b);
        crate::math::lemma_mul_bound(v.y as int, p.v as int, b, 2 * b);
        crate::math::lemma_mul_bound(v.z as int, p.v as int, b, 2 * b);
    }
    Vector3 {
        x: origin.x + u.x * p.u + v.x * p.v,
        y: origin.y + u.y * p.u + v.y * p.v,
        z: origin.z + u.z * p.u + v.z * p.v,
    }
}

/// Sweeps a path on a plane along `path` into a new surface.
pub fn sweep_surface_path(curve: SurfacePath, surface: SurfaceGeom, path: Vector3) -> (r: SurfaceGeom)
    requires
        curve.in_range(),
        surface.is_plane(),
        surface.in_range(),
    ensures
        r == swept_surface(curve, surface, path),
{
    let zero = Vector3 { x: 0, y: 0, z: 0 };
    match surface.u {
        GlobalPath::Line { origin, direction } => {
            let u = match curve {
                SurfacePath::Line { origin: o, direction: d } => GlobalPath::Line {
                    origin: plane_point(origin, direction, surface.v, o),
                    direction: plane_point(zero, direction, surface.v, d),
                },
                SurfacePath::Circle { center, radius } => GlobalPath::Circle {
                    center: plane_point(origin, direction, surface.v, center),
                    a: plane_point(zero, direction, surface.v, Point2 { u: radius, v: 0 }),
                    b: plane_point(zero, direction, surface.v, Point2 { u: 0, v: radius }),
                },
            };
            SurfaceGeom { u, v: path }
        },
        GlobalPath::Circle { .. } => {
            proof {
                assert(false);
            }
            surface
        },
    }
}

/// Whether `e` is the half-edge on `curve` (with the local form `path` on
/// `surface`), bounded at `boundary`, from vertex `start` to vertex `end`.
pub open spec fn is_side(e: HalfEdge, curve: Handle, surface: Handle, path: SurfacePath, boundary: (i64, i64), start: Handle, end: Handle) -> bool {
    let local = Curve { path, surface, global_form: curve };
    &&& e.curve_spec() == local
    &&& e.vertices_spec()[0] == (Vertex { position: boundary.0, curve: local, global_form: start })
    &&& e.vertices_spec()[1] == (Vertex { position: boundary.1, curve: local, global_form: end })
    &&& e.global_form_spec().curve_spec() == curve
    &&& e.global_form_spec().vertices_spec() == [start, end]
    &&& e.wf()
}

/// Whether the half-edges form a closed loop: each ends at the global
/// vertex at which the next one (the first, after the last) starts.
pub open spec fn closes(edges: Seq<HalfEdge>) -> bool {
    forall|i: int| 0 <= i < edges.len() ==>
        (#[trigger] edges[i]).vertices_spec()[1].global_form == edges[(i + 1) % edges.len() as int].vertices_spec()[0].global_form
}

/// The four sides of a swept face close: each side, as `sweep_half_edge`
/// describes it, ends at the vertex at which the next one starts.
pub proof fn lemma_swept_sides_close(
    edges: Seq<HalfEdge>,
    curves: Seq<Handle>,
    surface: Handle,
    a: i64,
    b: i64,
    vertices: Seq<Handle>,
)
    requires
        edges.len() == 4,
        forall|i: int| 0 <= i < 4 ==> is_side(
            #[trigger] edges[i],
            curves[i],
            surface,
            side_paths(a, b)[i],
            side_boundaries(a, b)[i],
            vertices[i],
            vertices[(i + 1) % 4],
        ),
    ensures
        closes(edges),
{
    assert forall|i: int| 0 <= i < edges.len() implies
        (#[trigger] edges[i]).vertices_spec()[1].global_form == edges[(i + 1) % edges.len() as int].vertices_spec()[0].global_form by {
        let j = (i + 1) % 4;
        assert(0 <= j < 4);
        if i == 3 {
            assert(j == 0);
            assert((j + 1) % 4 == 1);
        } else {
            assert(j == i + 1);
            assert((j + 1) % 4 == (i + 2) % 4);
        }
        assert(is_side(edges[j], curves[j], surface, side_paths(a, b)[j], side_boundaries(a, b)[j], vertices[j], vertices[(j + 1) % 4]));
    }
}

/// Builds one boundary half-edge of a swept face: registers the curve's
/// local form on the new surface, stores the half-edge, and records its
/// path, read back from the curve's geometry.
fn build_side(
    core: &mut Instance,
    curve: Handle,
    surface: Handle,
    path: SurfacePath,
    boundary: (i64, i64),
    start: Handle,
    end: Handle,
) -> (h: Handle)
    requires
        old(core).layers.objects.has_room(1),
        boundary.0 != boundary.1,
    ensures
        h == old(core).layers.objects.half_edges.next_handle(),
        final(core).layers.objects.half_edges@ == old(core).layers.objects.half_edges@.push(final(core).layers.objects.half_edges@.last()),
        is_side(final(core).layers.objects.half_edges@.last(), curve, surface, path, boundary, start, end),
        final(core).layers.objects.curves == old(core).layers.objects.curves,
        final(core).layers.objects.vertices == old(core).layers.objects.vertices,
        final(core).layers.objects.surfaces == old(core).layers.objects.surfaces,
        final(core).layers.objects.cycles == old(core).layers.objects.cycles,
        final(core).layers.objects.regions == old(core).layers.objects.regions,
        final(core).layers.objects.faces == old(core).layers.objects.faces,
        final(core).layers.objects.shells == old(core).layers.objects.shells,
        final(core).layers.objects.solids == old(core).layers.objects.solids,
        final(core).layers.validation == old(core).layers.validation,
        final(core).layers.geometry.curve_on(curve, surface) == Some(LocalCurveGeom { path }),
        forall|c: Handle, s: Handle| !(c == curve && s == surface) ==> final(core).layers.geometry.curve_on(c, s) == old(core).layers.geometry.curve_on(c, s),
        forall|c: Handle| final(core).layers.geometry.has_curve(c) == (old(core).layers.geometry.has_curve(c) || c == curve),
        forall|s: Handle| final(core).layers.geometry.surface_geom(s) == old(core).layers.geometry.surface_geom(s),
        final(core).layers.geometry.half_edge_geom(h) == Some(HalfEdgeGeometry { path }),
        forall|k: Handle| k != h ==> final(core).layers.geometry.half_edge_geom(k) == old(core).layers.geometry.half_edge_geom(k),
        final(core).layers.objects.half_edges@.len() == old(core).layers.objects.half_edges@.len() + 1,
{
    core.layers.geometry.define_curve(curve, surface, LocalCurveGeom { path });
    let local = Curve { path, surface, global_form: curve };
    let vertices = [
        Vertex { position: boundary.0, curve: local, global_form: start },
        Vertex { position: boundary.1, curve: local, global_form: end },
    ];
    let global_form = GlobalEdge::new(curve, [start, end]);
    let half_edge = HalfEdge::new(local, vertices, global_form);
    let h = core.layers.objects.half_edges.insert(half_edge);
    let geom = core.layers.geometry.of_curve(curve);
    let recorded = match geom {
        Some(g) => match g.local_on(surface) {
            Some(l) => l.path,
            None => {
                proof {
                    assert(false);
                }
                path
            },
        },
        None => {
            proof {
                assert(false);
            }
            path
        },
    };
    core.layers.geometry.define_half_edge(h, HalfEdgeGeometry { path: recorded });
    h
}

} // verus!

verus! {

/// The boundaries, in curve coordinates, of the four sides of the face
/// that sweeping a half-edge bounded at `(a, b)` gives: bottom, up, top,
/// down.
pub open spec fn side_boundaries(a: i64, b: i64) -> Seq<(i64, i64)> {
    seq![(a, b), (0i64, 1i64), (b, a), (1i64, 0i64)]
}

/// The local paths of the four sides on the swept surface, whose
/// coordinates are the curve coordinate and the sweep's progress (0 at the
/// swept edge, 1 at its translated copy).
pub open spec fn side_paths(a: i64, b: i64) -> Seq<SurfacePath> {
    seq![
        SurfacePath::Line { origin: Point2 { u: 0, v: 0 }, direction: Point2 { u: 1, v: 0 } },
        SurfacePath::Line { origin: Point2 { u: b, v: 0 }, direction: Point2 { u: 0, v: 1 } },
        SurfacePath::Line { origin: Point2 { u: 0, v: 1 }, direction: Point2 { u: 1, v: 0 } },
        SurfacePath::Line { origin: Point2 { u: a, v: 0 }, direction: Point2 { u: 0, v: 1 } },
    ]
}

/// The corners of the swept face in surface coordinates.
pub open spec fn face_corners(a: i64, b: i64) -> Seq<(int, int)> {
    seq![(a as int, 0int), (b as int, 0int), (b as int, 1int), (a as int, 1int)]
}

/// Each side path runs from its corner to the next one between its two
/// boundary coordinates.
pub proof fn lemma_side_paths_meet_corners(a: i64, b: i64)
    ensures
        forall|i: int| 0 <= i < 4 ==> {
            &&& #[trigger] side_paths(a, b)[i].point_at(side_boundaries(a, b)[i].0 as int) == face_corners(a, b)[i]
            &&& side_paths(a, b)[i].point_at(side_boundaries(a, b)[i].1 as int) == face_corners(a, b)[(i + 1) % 4]
        },
{
    assert forall|i: int| 0 <= i < 4 implies {
        &&& #[trigger] side_paths(a, b)[i].point_at(side_boundaries(a, b)[i].0 as int) == face_corners(a, b)[i]
        &&& side_paths(a, b)[i].point_at(side_boundaries(a, b)[i].1 as int) == face_corners(a, b)[(i + 1) % 4]
    } by {
        let p = side_paths(a, b);
        let bd = side_boundaries(a, b);
        let c = face_corners(a, b);
        assert(1 * (a as int) == a as int && 0 * (a as int) == 0 && 1 * (b as int) == b as int && 0 * (b as int) == 0) by (nonlinear_arith);
        if i == 0 {
            assert(p[0].point_at(a as int) == (a as int, 0int));
            assert(p[0].point_at(b as int) == (b as int, 0int));
        } else if i == 1 {
            assert(p[1].point_at(0) == (b as int, 0int));
            assert(p[1].point_at(1) == (b as int, 1int));
        } else if i == 2 {
            assert(p[2].point_at(b as int) == (b as int, 1int));
            assert(p[2].point_at(a as int) == (a as int, 1int));
        } else {
            assert(p[3].point_at(1) == (a as int, 1int));
            assert(p[3].point_at(0) == (a as int, 0int));
        }
    }
}

/// Sweeps a half-edge that lies on `surface` along `path` into a face.
///
/// Returns the face and its top half-edge, the translated copy of the
/// swept half-edge. The face's surface is new: the swept image of the half-edge's
/// curve. Its region holds a single exterior cycle of four half-edges,
/// no interior cycles, and the given color. The sides come from sweeping
/// the half-edge's start vertex and `end_vertex`; a vertex already in
/// `cache` is not swept again, so that adjacent faces share their sides.
pub fn sweep_half_edge(
    half_edge: Handle,
    end_vertex: Handle,
    surface: Handle,
    color: Option<fj_interop::Color>,
    path: Vector3,
    cache: &mut SweepCache,
    core: &mut Instance,
) -> (r: (Face, Handle))
    requires
        old(core).layers.objects.half_edges.holds(half_edge),
        old(core).layers.objects.half_edges.at(half_edge).wf(),
        old(core).layers.objects.surfaces.holds(surface),
        old(core).layers.objects.has_room(6),
        old(core).layers.geometry.surface_geom(surface) matches Some(g) && g.is_plane() && g.in_range(),
        old(core).layers.geometry.curve_on(old(core).layers.objects.half_edges.at(half_edge).curve_spec().global_form, surface) matches Some(l) && l.path.in_range(),
    ensures
        ({
            let old_objects = old(core).layers.objects;
            let objects = final(core).layers.objects;
            let geometry = final(core).layers.geometry;
            let e = old_objects.half_edges.at(half_edge);
            let a = e.vertices_spec()[0].position;
            let b = e.vertices_spec()[1].position;
            let start = e.vertices_spec()[0].global_form;
            let curve = e.curve_spec().global_form;
            let up = final(cache).swept(end_vertex).unwrap();
            let down = final(cache).swept(start).unwrap();
            let vertices = seq![start, end_vertex, up.1, down.1];
            let top = Handle { id: (objects.curves@.len() - 1) as u64 };
            let curves = seq![curve, up.0, top, down.0];
            let first = old_objects.half_edges.next_handle().id;
            let sides = seq![Handle { id: first }, Handle { id: (first + 1) as u64 }, Handle { id: (first + 2) as u64 }, Handle { id: (first + 3) as u64 }];
            &&& r.0.surface == old_objects.surfaces.next_handle()
            &&& geometry.surface_geom(r.0.surface) == Some(swept_surface(
                old(core).layers.geometry.curve_on(curve, surface).unwrap().path,
                old(core).layers.geometry.surface_geom(surface).unwrap(),
                path,
            ))
            &&& r.0.region == old_objects.regions.next_handle()
            &&& objects.regions.holds(r.0.region)
            &&& objects.regions.at(r.0.region).exterior == old_objects.cycles.next_handle()
            &&& objects.regions.at(r.0.region).interiors@.len() == 0
            &&& objects.regions.at(r.0.region).color == color
            &&& objects.cycles.holds(old_objects.cycles.next_handle())
            &&& objects.cycles.at(old_objects.cycles.next_handle()).half_edges@ == sides
            &&& r.1 == sides[2]
            &&& objects.half_edges@.len() == old_objects.half_edges@.len() + 4
            &&& objects.half_edges@.subrange(0, old_objects.half_edges@.len() as int) == old_objects.half_edges@
            &&& forall|i: int| 0 <= i < 4 ==> is_side(
                #[trigger] objects.half_edges.at(sides[i]),
                curves[i],
                r.0.surface,
                side_paths(a, b)[i],
                side_boundaries(a, b)[i],
                vertices[i],
                vertices[(i + 1) % 4],
            )
            &&& forall|i: int| 0 <= i < 4 ==> geometry.half_edge_geom(#[trigger] sides[i]) == Some(HalfEdgeGeometry { path: side_paths(a, b)[i] })
            &&& forall|i: int| 0 <= i < 4 && (forall|j: int| i < j < 4 ==> curves[j] != curves[i])
                ==> geometry.curve_on(#[trigger] curves[i], r.0.surface) == Some(LocalCurveGeom { path: side_paths(a, b)[i] })
            &&& top.id >= old_objects.curves@.len()
        }),
        forall|s: Handle| s != r.0.surface ==> #[trigger] final(core).layers.geometry.surface_geom(s) == old(core).layers.geometry.surface_geom(s),
        forall|c: Handle, s: Handle| s != r.0.surface ==> #[trigger] final(core).layers.geometry.curve_on(c, s) == old(core).layers.geometry.curve_on(c, s),
        forall|c: Handle| old(core).layers.geometry.has_curve(c) ==> #[trigger] final(core).layers.geometry.has_curve(c),
        forall|h: Handle| h.id < old(core).layers.objects.half_edges@.len() ==>
            #[trigger] final(core).layers.geometry.half_edge_geom(h) == old(core).layers.geometry.half_edge_geom(h),
        final(core).layers.objects.surfaces@.len() == old(core).layers.objects.surfaces@.len() + 1,
        old(core).layers.objects.curves@.len() < final(core).layers.objects.curves@.len() <= old(core).layers.objects.curves@.len() + 3,
        old(core).layers.objects.vertices@.len() <= final(core).layers.objects.vertices@.len() <= old(core).layers.objects.vertices@.len() + 2,
        final(core).layers.objects.cycles@.len() == old(core).layers.objects.cycles@.len() + 1,
        final(core).layers.objects.cycles@.subrange(0, old(core).layers.objects.cycles@.len() as int) == old(core).layers.objects.cycles@,
        final(core).layers.objects.regions@.len() == old(core).layers.objects.regions@.len() + 1,
        final(core).layers.objects.regions@.subrange(0, old(core).layers.objects.regions@.len() as int) == old(core).layers.objects.regions@,
        final(core).layers.objects.faces == old(core).layers.objects.faces,
        final(core).layers.objects.shells == old(core).layers.objects.shells,
        final(core).layers.objects.solids == old(core).layers.objects.solids,
        final(core).layers.validation == old(core).layers.validation,
        final(cache).swept(old(core).layers.objects.half_edges.at(half_edge).vertices_spec()[0].global_form) is Some,
        final(cache).swept(end_vertex) is Some,
        cache_extends(old(cache), final(cache)),
{
    let e = *core.layers.objects.half_edges.get(half_edge);
    let curve = e.curve().global_form;
    let vs = *e.vertices();
    let va = vs[0];
    let vb = vs[1];
    let a = va.position;
    let b = vb.position;
    proof {
        assert(core.layers.geometry.has_curve(curve) || core.layers.geometry.curve_on(curve, surface) is None) by {
            lemma_defined_has_curve(core.layers.geometry, curve, surface);
        }
    }
    let curve_geom = match core.layers.geometry.of_curve(curve) {
        Some(g) => match g.local_on(surface) {
            Some(l) => l,
            None => {
                proof {
                    assert(false);
                }
                return (Face { surface, region: surface }, half_edge);
            },
        },
        None => {
            proof {
                assert(false);
            }
            return (Face { surface, region: surface }, half_edge);
        },
    };
    let surface_geom = core.layers.geometry.of_surface(surface);
    let swept = sweep_surface_path(curve_geom.path, surface_geom, path);
    let new_surface = core.layers.objects.surfaces.insert(Surface {});
    core.layers.geometry.define_surface(new_surface, swept);

    // The vertices at the corners of the face, and the curves of its sides.
    let start = va.global_form;
    let (curve_up, c) = sweep_vertex(end_vertex, cache, &mut core.layers.objects);
    let ghost cache_mid = *cache;
    let ghost g0 = core.layers.geometry;
    let ghost curves0 = old(core).layers.objects.curves@.len();
    let (curve_down, d) = sweep_vertex(start, cache, &mut core.layers.objects);
    let curve_top = core.layers.objects.new_curve();

    let ghost first = core.layers.objects.half_edges@.len();
    let ghost c0 = core.layers.objects.curves@.len();
    let edge_bottom = build_side(
        core,
        curve,
        new_surface,
        SurfacePath::Line { origin: Point2 { u: 0, v: 0 }, direction: Point2 { u: 1, v: 0 } },
        (a, b),
        start,
        end_vertex,
    );
    let ghost s1 = core.layers.objects.half_edges@;
    let ghost g1 = core.layers.geometry;
    let edge_up = build_side(
        core,
        curve_up,
        new_surface,
        SurfacePath::Line { origin: Point2 { u: b, v: 0 }, direction: Point2 { u: 0, v: 1 } },
        (0, 1),
        end_vertex,
        c,
    );
    let ghost s2 = core.layers.objects.half_edges@;
    let ghost g2 = core.layers.geometry;
    let edge_top = build_side(
        core,
        curve_top,
        new_surface,
        SurfacePath::Line { origin: Point2 { u: 0, v: 1 }, direction: Point2 { u: 1, v: 0 } },
        (b, a),
        c,
        d,
    );
    let ghost s3 = core.layers.objects.half_edges@;
    let ghost g3 = core.layers.geometry;
    let edge_down = build_side(
        core,
        curve_down,
        new_surface,
        SurfacePath::Line { origin: Point2 { u: a, v: 0 }, direction: Point2 { u: 0, v: 1 } },
        (1, 0),
        d,
        start,
    );

    let exterior = core.layers.objects.cycles.insert(Cycle { half_edges: vec![edge_bottom, edge_up, edge_top, edge_down] });
    let region = core.layers.objects.regions.insert(Region { exterior, interiors: Vec::new(), color });
    let face = Face { surface: new_surface, region };
    proof {
        let objects = core.layers.objects;
        let s4 = objects.half_edges@;
        let old_len = old(core).layers.objects.half_edges@.len();
        assert(s4.subrange(0, old_len as int) =~= old(core).layers.objects.half_edges@);
        assert(s4[first as int] == s1.last());
        assert(s4[first as int + 1] == s2.last());
        assert(s4[first as int + 2] == s3.last());
        assert(cache_extends(old(cache), &cache_mid));
        assert(objects.cycles.at(exterior).half_edges@ == seq![edge_bottom, edge_up, edge_top, edge_down]);
        assert(curve_top.id == objects.curves@.len() - 1);
        assert(cache.swept(end_vertex) == Some((curve_up, c)));
        assert(cache.swept(start) == Some((curve_down, d)));
        lemma_side_paths_meet_corners(a, b);
        let g4 = core.layers.geometry;
        assert(core.layers.objects.cycles@.subrange(0, old(core).layers.objects.cycles@.len() as int) =~= old(core).layers.objects.cycles@);
        assert(core.layers.objects.regions@.subrange(0, old(core).layers.objects.regions@.len() as int) =~= old(core).layers.objects.regions@);
        assert(curve_top.id >= curves0);
        assert forall|c: Handle, s: Handle| s != new_surface implies #[trigger] g4.curve_on(c, s) == old(core).layers.geometry.curve_on(c, s) by {
            assert(g1.curve_on(c, s) == g0.curve_on(c, s));
            assert(g2.curve_on(c, s) == g1.curve_on(c, s));
            assert(g3.curve_on(c, s) == g2.curve_on(c, s));
        }
        assert forall|h: Handle| h.id < first implies #[trigger] g4.half_edge_geom(h) == old(core).layers.geometry.half_edge_geom(h) by {
            assert(g1.half_edge_geom(h) == g0.half_edge_geom(h));
            assert(g2.half_edge_geom(h) == g1.half_edge_geom(h));
            assert(g3.half_edge_geom(h) == g2.half_edge_geom(h));
        }
        assert forall|s: Handle| s != new_surface implies #[trigger] g4.surface_geom(s) == old(core).layers.geometry.surface_geom(s) by {
            assert(g1.surface_geom(s) == g0.surface_geom(s));
            assert(g2.surface_geom(s) == g1.surface_geom(s));
            assert(g3.surface_geom(s) == g2.surface_geom(s));
        }
        assert forall|c: Handle| old(core).layers.geometry.has_curve(c) implies #[trigger] g4.has_curve(c) by {
            assert(g1.has_curve(c));
            assert(g2.has_curve(c));
            assert(g3.has_curve(c));
        }
        let curves = seq![curve, curve_up, curve_top, curve_down];
        assert(g4.curve_on(curve_down, new_surface) == Some(LocalCurveGeom { path: side_paths(a, b)[3] }));
        if curve_top != curve_down {
            assert(g4.curve_on(curve_top, new_surface) == g3.curve_on(curve_top, new_surface));
        }
        if curve_up != curve_down && curve_up != curve_top {
            assert(g4.curve_on(curve_up, new_surface) == g2.curve_on(curve_up, new_surface));
        }
        if curve != curve_down && curve != curve_top && curve != curve_up {
            assert(g4.curve_on(curve, new_surface) == g1.curve_on(curve, new_surface));
        }
        assert forall|i: int| 0 <= i < 4 && (forall|j: int| i < j < 4 ==> curves[j] != curves[i])
            implies g4.curve_on(#[trigger] curves[i], new_surface) == Some(LocalCurveGeom { path: side_paths(a, b)[i] }) by {
            if i == 0 {
                assert(curves[1] != curves[0] && curves[2] != curves[0] && curves[3] != curves[0]);
            } else if i == 1 {
                assert(curves[2] != curves[1] && curves[3] != curves[1]);
            } else if i == 2 {
                assert(curves[3] != curves[2]);
            }
        }
    }
    (face, edge_top)
}

} // verus!
