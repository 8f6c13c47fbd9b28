//! Operations that derive updated objects from stored ones.

use crate::geometry::{Geometry, HalfEdgeGeometry, LocalCurveGeom, SurfacePath, defines_curve};
use crate::instance::Instance;
use crate::storage::Handle;
use crate::topology::{Curve, HalfEdge, Vertex};
use vstd::prelude::*;

verus! {

/// Defines the geometry of `curve` as `path` on `surface`, and hands the
/// curve back.
pub fn make_path_on_surface(curve: Handle, path: SurfacePath, surface: Handle, geometry: &mut Geometry) -> (r: Handle)
    ensures
        r == curve,
        defines_curve(*old(geometry), *final(geometry), curve, surface, LocalCurveGeom { path }),
        forall|h: Handle| final(geometry).half_edge_geom(h) == old(geometry).half_edge_geom(h),
        forall|h: Handle| final(geometry).surface_geom(h) == old(geometry).surface_geom(h),
{
    geometry.define_curve(curve, surface, LocalCurveGeom { path });
    curve
}

/// `e` with its curve's path replaced by `path`.
pub open spec fn with_path(e: HalfEdge, path: SurfacePath) -> Curve {
    Curve { path, ..e.curve_spec() }
}

/// Stores a copy of the half-edge `half_edge` whose path is `update`
/// applied to its path, records that path as the copy's geometry, and
/// returns the copy's handle. The stored half-edge stays as it is.
pub fn update_path<F: FnOnce(SurfacePath) -> SurfacePath>(half_edge: Handle, update: F, core: &mut Instance) -> (r: Handle)
    requires
        old(core).layers.objects.half_edges.holds(half_edge),
        old(core).layers.objects.half_edges.at(half_edge).wf(),
        old(core).layers.objects.half_edges.has_room(1),
        update.requires((old(core).layers.objects.half_edges.at(half_edge).curve_spec().path,)),
    ensures
        ({
            let e = old(core).layers.objects.half_edges.at(half_edge);
            let n = final(core).layers.objects.half_edges.at(r);
            &&& r == old(core).layers.objects.half_edges.next_handle()
            &&& final(core).layers.objects.half_edges@ == old(core).layers.objects.half_edges@.push(n)
            &&& update.ensures((e.curve_spec().path,), n.curve_spec().path)
            &&& n.curve_spec() == with_path(e, n.curve_spec().path)
            &&& n.vertices_spec()[0] == (Vertex { curve: n.curve_spec(), ..e.vertices_spec()[0] })
            &&& n.vertices_spec()[1] == (Vertex { curve: n.curve_spec(), ..e.vertices_spec()[1] })
            &&& n.global_form_spec() == e.global_form_spec()
            &&& n.wf()
            &&& final(core).layers.geometry.half_edge_geom(r) == Some(HalfEdgeGeometry { path: n.curve_spec().path })
        }),
        forall|h: Handle| h != r ==> #[trigger] final(core).layers.geometry.half_edge_geom(h) == old(core).layers.geometry.half_edge_geom(h),
        forall|c: Handle, s: Handle| #[trigger] final(core).layers.geometry.curve_on(c, s) == old(core).layers.geometry.curve_on(c, s),
        forall|c: Handle| #[trigger] final(core).layers.geometry.has_curve(c) == old(core).layers.geometry.has_curve(c),
        forall|s: Handle| #[trigger] final(core).layers.geometry.surface_geom(s) == old(core).layers.geometry.surface_geom(s),
        final(core).layers.objects.curves == old(core).layers.objects.curves,
        final(core).layers.objects.vertices == old(core).layers.objects.vertices,
        final(core).layers.objects.surfaces == old(core).layers.objects.surfaces,
        final(core).layers.objects.cycles == old(core).layers.objects.cycles,
        final(core).layers.objects.regions == old(core).layers.objects.regions,
        final(core).layers.objects.faces == old(core).layers.objects.faces,
        final(core).layers.validation == old(core).layers.validation,
{
    let e = *core.layers.objects.half_edges.get(half_edge);
    let path = update(e.curve().path);
    let curve = Curve { path, ..*e.curve() };
    let vs = *e.vertices();
    let vertices = [Vertex { curve, ..vs[0] }, Vertex { curve, ..vs[1] }];
    let updated = HalfEdge::new(curve, vertices, *e.global_form());
    let h = core.layers.objects.half_edges.insert(updated);
    core.layers.geometry.define_half_edge(h, HalfEdgeGeometry { path });
    h
}

/// Stores a copy of the half-edge `half_edge` whose boundary (the curve
/// coordinates of its two vertices) is `update` applied to its boundary,
/// records the path of the half-edge as the copy's geometry, and returns
/// the copy's handle. The stored half-edge stays as it is.
pub fn update_boundary<F: FnOnce((i64, i64)) -> (i64, i64)>(half_edge: Handle, update: F, core: &mut Instance) -> (r: Handle)
    requires
        old(core).layers.objects.half_edges.holds(half_edge),
        old(core).layers.objects.half_edges.at(half_edge).wf(),
        old(core).layers.objects.half_edges.has_room(1),
        ({
            let vs = old(core).layers.objects.half_edges.at(half_edge).vertices_spec();
            let boundary = (vs[0].position, vs[1].position);
            &&& update.requires((boundary,))
            &&& forall|b: (i64, i64)| update.ensures((boundary,), b) ==> b.0 != b.1
        }),
    ensures
        ({
            let e = old(core).layers.objects.half_edges.at(half_edge);
            let n = final(core).layers.objects.half_edges.at(r);
            let vs = e.vertices_spec();
            &&& r == old(core).layers.objects.half_edges.next_handle()
            &&& final(core).layers.objects.half_edges@ == old(core).layers.objects.half_edges@.push(n)
            &&& update.ensures(((vs[0].position, vs[1].position),), (n.vertices_spec()[0].position, n.vertices_spec()[1].position))
            &&& n.curve_spec() == e.curve_spec()
            &&& n.vertices_spec()[0] == (Vertex { position: n.vertices_spec()[0].position, ..vs[0] })
            &&& n.vertices_spec()[1] == (Vertex { position: n.vertices_spec()[1].position, ..vs[1] })
            &&& n.global_form_spec() == e.global_form_spec()
            &&& n.wf()
            &&& final(core).layers.geometry.half_edge_geom(r) == Some(HalfEdgeGeometry { path: e.curve_spec().path })
        }),
        forall|h: Handle| h != r ==> #[trigger] final(core).layers.geometry.half_edge_geom(h) == old(core).layers.geometry.half_edge_geom(h),
        forall|c: Handle, s: Handle| #[trigger] final(core).layers.geometry.curve_on(c, s) == old(core).layers.geometry.curve_on(c, s),
        forall|c: Handle| #[trigger] final(core).layers.geometry.has_curve(c) == old(core).layers.geometry.has_curve(c),
        forall|s: Handle| #[trigger] final(core).layers.geometry.surface_geom(s) == old(core).layers.geometry.surface_geom(s),
        final(core).layers.objects.curves == old(core).layers.objects.curves,
        final(core).layers.objects.vertices == old(core).layers.objects.vertices,
        final(core).layers.objects.surfaces == old(core).layers.objects.surfaces,
        final(core).layers.objects.cycles == old(core).layers.objects.cycles,
        final(core).layers.objects.regions == old(core).layers.objects.regions,
        final(core).layers.objects.faces == old(core).layers.objects.faces,
        final(core).layers.validation == old(core).layers.validation,
{
    let e = *core.layers.objects.half_edges.get(half_edge);
    let vs = *e.vertices();
    let (a, b) = update((vs[0].position, vs[1].position));
    let vertices = [Vertex { position: a, ..vs[0] }, Vertex { position: b, ..vs[1] }];
    let updated = HalfEdge::new(*e.curve(), vertices, *e.global_form());
    let h = core.layers.objects.half_edges.insert(updated);
    core.layers.geometry.define_half_edge(h, HalfEdgeGeometry { path: e.curve().path });
    h
}

} // verus!
