//! The geometry layer: geometric attributes kept apart from topology and
//! keyed by the handles of topological objects.

use crate::math::{coord_ok, Point2, Vector3, V3, add3, scale3, COORD_MAX};
use crate::storage::Handle;
use vstd::prelude::*;

verus! {

/// A path in the 2D coordinates of a surface.
#[derive(Clone, Copy, Debug, PartialEq, Eq, Structural)]
pub enum SurfacePath {
    /// The points `origin + direction * t`.
    Line { origin: Point2, direction: Point2 },
    /// A circle around `center`; its coordinate counts full turns, starting
    /// at `center + (radius, 0)`.
    Circle { center: Point2, radius: i64 },
}

impl SurfacePath {
    /// The point at curve coordinate `t`.
    pub open spec fn point_at(&self, t: int) -> (int, int) {
        match *self {
            SurfacePath::Line { origin, direction } => (
                origin.u + direction.u * t,
                origin.v + direction.v * t,
            ),
            SurfacePath::Circle { center, radius } => (center.u + radius, center.v as int),
        }
    }

    /// Whether the path's numbers lie within the coordinate bound.
    pub open spec fn in_range(&self) -> bool {
        match *self {
            SurfacePath::Line { origin, direction } => origin.in_range() && direction.in_double_range(),
            SurfacePath::Circle { center, radius } => center.in_range() && coord_ok(radius as int),
        }
    }

    /// The line through `a` (at coordinate 0) and `b` (at coordinate 1).
    pub fn line_from_points(a: Point2, b: Point2) -> (r: Self)
        requires
            a.in_range(),
            b.in_range(),
        ensures
            r.point_at(0) == a@,
            r.point_at(1) == b@,
            r.in_range(),
            r == (SurfacePath::Line { origin: a, direction: Point2 { u: (b.u - a.u) as i64, v: (b.v - a.v) as i64 } }),
    {
        SurfacePath::Line { origin: a, direction: Point2 { u: b.u - a.u, v: b.v - a.v } }
    }

    /// The circle of the given radius around the surface's origin.
    pub fn circle_from_radius(radius: i64) -> (r: Self)
        ensures
            r == (SurfacePath::Circle { center: Point2 { u: 0, v: 0 }, radius }),
    {
        SurfacePath::Circle { center: Point2 { u: 0, v: 0 }, radius }
    }

    /// The point at curve coordinate `t`.
    pub fn point_from_path_coords(&self, t: i64) -> (r: Point2)
        requires
            self.in_range(),
            coord_ok(t as int),
        ensures
            r@ == self.point_at(t as int),
    {
        match *self {
            SurfacePath::Line { origin, direction } => {
                proof {
                    crate::math::lemma_mul_bound(direction.u as int, t as int, 2 * COORD_MAX, COORD_MAX as int);
                    crate::math::lemma_mul_bound(direction.v as int, t as int, 2 * COORD_MAX, COORD_MAX as int);
                }
                Point2 { u: origin.u + direction.u * t, v: origin.v + direction.v * t }
            },
            SurfacePath::Circle { center, radius } => Point2 { u: center.u + radius, v: center.v },
        }
    }
}

/// `p` moved by `offset`.
pub open spec fn moved(p: Vector3, offset: V3) -> Vector3 {
    Vector3 { x: (p.x + offset.0) as i64, y: (p.y + offset.1) as i64, z: (p.z + offset.2) as i64 }
}

/// A path in 3D space.
#[derive(Clone, Copy, Debug, PartialEq, Eq, Structural)]
pub enum GlobalPath {
    /// The points `origin + direction * t`.
    Line { origin: Vector3, direction: Vector3 },
    /// The points `center + a * cos(t) + b * sin(t)`.
    Circle { center: Vector3, a: Vector3, b: Vector3 },
}

/// The geometry of a surface: the surface that `u` sweeps when it is
/// translated along `v`.
#[derive(Clone, Copy, Debug, PartialEq, Eq, Structural)]
pub struct SurfaceGeom {
    pub u: GlobalPath,
    pub v: Vector3,
}

impl SurfaceGeom {
    /// Whether the surface is a plane: its swept curve is a line.
    pub open spec fn is_plane(&self) -> bool {
        self.u is Line
    }

    /// Whether the surface's numbers lie within the coordinate bound.
    pub open spec fn in_range(&self) -> bool {
        self.v.in_range() && match self.u {
            GlobalPath::Line { origin, direction } => origin.in_range() && direction.in_range(),
            GlobalPath::Circle { center, a, b } => center.in_range() && a.in_range() && b.in_range(),
        }
    }

    /// The surface moved by `offset`: its swept curve is moved, the sweep
    /// vector stays.
    pub open spec fn translated(&self, offset: V3) -> SurfaceGeom {
        SurfaceGeom {
            u: match self.u {
                GlobalPath::Line { origin, direction } => GlobalPath::Line {
                    origin: moved(origin, offset),
                    direction,
                },
                GlobalPath::Circle { center, a, b } => GlobalPath::Circle {
                    center: moved(center, offset),
                    a,
                    b,
                },
            },
            v: self.v,
        }
    }

    /// Moves the surface by `offset`.
    pub fn translate(&self, offset: Vector3) -> (r: Self)
        requires
            self.in_range(),
            offset.in_range(),
            moved(self.anchor(), offset@).in_range(),
        ensures
            r == self.translated(offset@),
            r.in_range(),
    {
        let u = match self.u {
            GlobalPath::Line { origin, direction } => GlobalPath::Line {
                origin: Vector3 { x: origin.x + offset.x, y: origin.y + offset.y, z: origin.z + offset.z },
                direction,
            },
            GlobalPath::Circle { center, a, b } => GlobalPath::Circle {
                center: Vector3 { x: center.x + offset.x, y: center.y + offset.y, z: center.z + offset.z },
                a,
                b,
            },
        };
        SurfaceGeom { u, v: self.v }
    }

    /// The point that the swept curve is anchored at.
    pub open spec fn anchor(&self) -> Vector3 {
        match self.u {
            GlobalPath::Line { origin, .. } => origin,
            GlobalPath::Circle { center, .. } => center,
        }
    }

    /// The point of a plane at surface coordinates `(s, t)`.
    pub open spec fn plane_point(&self, s: int, t: int) -> V3 {
        match self.u {
            GlobalPath::Line { origin, direction } =>
                add3(add3(origin@, scale3(direction@, s)), scale3(self.v@, t)),
            GlobalPath::Circle { center, .. } => center@,
        }
    }

    /// The plane through the x and y axes.
    pub fn xy_plane() -> (r: Self)
        ensures
            r.is_plane(),
            r.in_range(),
            r == (SurfaceGeom {
                u: GlobalPath::Line { origin: Vector3 { x: 0, y: 0, z: 0 }, direction: Vector3 { x: 1, y: 0, z: 0 } },
                v: Vector3 { x: 0, y: 1, z: 0 },
            }),
    {
        SurfaceGeom {
            u: GlobalPath::Line { origin: Vector3 { x: 0, y: 0, z: 0 }, direction: Vector3 { x: 1, y: 0, z: 0 } },
            v: Vector3 { x: 0, y: 1, z: 0 },
        }
    }

    /// The plane through the x and z axes.
    pub fn xz_plane() -> (r: Self)
        ensures
            r.is_plane(),
            r.in_range(),
            r == (SurfaceGeom {
                u: GlobalPath::Line { origin: Vector3 { x: 0, y: 0, z: 0 }, direction: Vector3 { x: 1, y: 0, z: 0 } },
                v: Vector3 { x: 0, y: 0, z: 1 },
            }),
    {
        SurfaceGeom {
            u: GlobalPath::Line { origin: Vector3 { x: 0, y: 0, z: 0 }, direction: Vector3 { x: 1, y: 0, z: 0 } },
            v: Vector3 { x: 0, y: 0, z: 1 },
        }
    }

    /// The plane through the y and z axes.
    pub fn yz_plane() -> (r: Self)
        ensures
            r.is_plane(),
            r.in_range(),
            r == (SurfaceGeom {
                u: GlobalPath::Line { origin: Vector3 { x: 0, y: 0, z: 0 }, direction: Vector3 { x: 0, y: 1, z: 0 } },
                v: Vector3 { x: 0, y: 0, z: 1 },
            }),
    {
        SurfaceGeom {
            u: GlobalPath::Line { origin: Vector3 { x: 0, y: 0, z: 0 }, direction: Vector3 { x: 0, y: 1, z: 0 } },
            v: Vector3 { x: 0, y: 0, z: 1 },
        }
    }
}

/// The geometric definition of a curve in 2D surface coordinates.
#[derive(Clone, Copy, Debug, PartialEq, Eq, Structural)]
pub struct LocalCurveGeom {
    /// The path that defines the curve on its surface
    pub path: SurfacePath,
}

/// The geometry of a half-edge: its path on the surface it is built on.
#[derive(Clone, Copy, Debug, PartialEq, Eq, Structural)]
pub struct HalfEdgeGeometry {
    /// The path of the half-edge
    pub path: SurfacePath,
}

} // verus!

verus! {

/// The value recorded last for `h` in `entries`, if any.
pub open spec fn lookup<V>(entries: Seq<(Handle, V)>, h: Handle) -> Option<V>
    decreases entries.len(),
{
    if entries.len() == 0 {
        None
    } else if entries.last().0 == h {
        Some(entries.last().1)
    } else {
        lookup(entries.drop_last(), h)
    }
}

/// A mapping from handles to values; a later definition replaces an
/// earlier one.
pub struct HandleMap<V> {
    entries: Vec<(Handle, V)>,
}

impl<V> HandleMap<V> {
    /// The value that `h` maps to, if any.
    pub closed spec fn spec_get(&self, h: Handle) -> Option<V> {
        lookup(self.entries@, h)
    }

    pub fn new() -> (r: Self)
        ensures
            forall|h: Handle| r.spec_get(h) is None,
    {
        HandleMap { entries: Vec::new() }
    }

    /// Maps `h` to `value`, replacing what `h` mapped to before.
    pub fn insert(&mut self, h: Handle, value: V)
        ensures
            final(self).spec_get(h) == Some(value),
            forall|k: Handle| k != h ==> final(self).spec_get(k) == old(self).spec_get(k),
    {
        self.entries.push((h, value));
        proof {
            assert(self.entries@.drop_last() =~= old(self).entries@);
        }
    }

    /// The value that `h` maps to, if any.
    pub fn get(&self, h: Handle) -> (r: Option<&V>)
        ensures
            r is None <==> self.spec_get(h) is None,
            r matches Some(v) ==> self.spec_get(h) == Some(*v),
    {
        let mut found: Option<usize> = None;
        let n = self.entries.len();
        let mut i: usize = 0;
        while i < n
            invariant
                n == self.entries@.len(),
                i <= n,
                found is None <==> lookup(self.entries@.subrange(0, i as int), h) is None,
                found matches Some(j) ==> j < i && lookup(self.entries@.subrange(0, i as int), h) == Some(self.entries@[j as int].1),
            decreases n - i,
        {
            proof {
                assert(self.entries@.subrange(0, i + 1).drop_last() =~= self.entries@.subrange(0, i as int));
            }
            if self.entries[i].0 == h {
                found = Some(i);
            }
            i = i + 1;
        }
        proof {
            assert(self.entries@.subrange(0, n as int) =~= self.entries@);
        }
        match found {
            Some(j) => Some(&self.entries[j].1),
            None => None,
        }
    }
}

/// The geometric definition of a curve: its local definitions, one per
/// surface that it lies on.
pub struct CurveGeom {
    /// The local definitions, keyed by surface
    pub definitions: HandleMap<LocalCurveGeom>,
}

impl CurveGeom {
    /// The definition on `surface`, if there is one.
    pub open spec fn spec_local_on(&self, surface: Handle) -> Option<LocalCurveGeom> {
        self.definitions.spec_get(surface)
    }

    /// A curve geometry without definitions.
    pub fn new() -> (r: Self)
        ensures
            forall|s: Handle| r.spec_local_on(s) is None,
    {
        CurveGeom { definitions: HandleMap::new() }
    }

    /// The definition of the curve on `surface`, or `None` where the curve
    /// is not defined on it.
    pub fn local_on(&self, surface: Handle) -> (r: Option<LocalCurveGeom>)
        ensures
            r == self.spec_local_on(surface),
    {
        match self.definitions.get(surface) {
            Some(g) => Some(*g),
            None => None,
        }
    }
}

/// The local definition recorded last for `curve` on `surface`.
pub open spec fn curve_lookup(entries: Seq<(Handle, Handle, LocalCurveGeom)>, curve: Handle, surface: Handle) -> Option<LocalCurveGeom>
    decreases entries.len(),
{
    if entries.len() == 0 {
        None
    } else if entries.last().0 == curve && entries.last().1 == surface {
        Some(entries.last().2)
    } else {
        curve_lookup(entries.drop_last(), curve, surface)
    }
}

/// Whether anything was recorded for `curve`.
pub open spec fn curve_defined(entries: Seq<(Handle, Handle, LocalCurveGeom)>, curve: Handle) -> bool {
    exists|i: int| 0 <= i < entries.len() && #[trigger] entries[i].0 == curve
}

/// A curve with a definition on some surface has a geometry record.
pub proof fn lemma_defined_has_curve(g: Geometry, curve: Handle, surface: Handle)
    ensures
        g.curve_on(curve, surface) is Some ==> g.has_curve(curve),
{
    lemma_lookup_defined(g.curves@, curve, surface);
}

proof fn lemma_lookup_defined(entries: Seq<(Handle, Handle, LocalCurveGeom)>, curve: Handle, surface: Handle)
    ensures
        curve_lookup(entries, curve, surface) is Some ==> curve_defined(entries, curve),
    decreases entries.len(),
{
    if entries.len() > 0 {
        let last = entries.len() - 1;
        if entries.last().0 == curve && entries.last().1 == surface {
            assert(entries[last].0 == curve);
        } else {
            lemma_lookup_defined(entries.drop_last(), curve, surface);
            if curve_defined(entries.drop_last(), curve) {
                let k = choose|k: int| 0 <= k < entries.drop_last().len() && #[trigger] entries.drop_last()[k].0 == curve;
                assert(entries[k].0 == curve);
            }
        }
    }
}

/// Whether `after` is `before` with `curve` defined as `local` on `surface`.
pub open spec fn defines_curve(before: Geometry, after: Geometry, curve: Handle, surface: Handle, local: LocalCurveGeom) -> bool {
    &&& after.curve_on(curve, surface) == Some(local)
    &&& forall|c: Handle, s: Handle| !(c == curve && s == surface) ==> #[trigger] after.curve_on(c, s) == before.curve_on(c, s)
}

/// A curve defined on two different surfaces keeps an independent
/// definition for each of them, and stays undefined on any third surface
/// that it was not defined on.
pub proof fn lemma_curve_on_two_surfaces(
    g0: Geometry,
    g1: Geometry,
    g2: Geometry,
    curve: Handle,
    surfaces: (Handle, Handle, Handle),
    l1: LocalCurveGeom,
    l2: LocalCurveGeom,
)
    requires
        defines_curve(g0, g1, curve, surfaces.0, l1),
        defines_curve(g1, g2, curve, surfaces.1, l2),
        surfaces.0 != surfaces.1,
        surfaces.2 != surfaces.0,
        surfaces.2 != surfaces.1,
        g0.curve_on(curve, surfaces.2) is None,
    ensures
        g2.curve_on(curve, surfaces.0) == Some(l1),
        g2.curve_on(curve, surfaces.1) == Some(l2),
        g2.curve_on(curve, surfaces.2) is None,
{
    assert(g2.curve_on(curve, surfaces.0) == g1.curve_on(curve, surfaces.0));
    assert(g2.curve_on(curve, surfaces.2) == g1.curve_on(curve, surfaces.2));
    assert(g1.curve_on(curve, surfaces.2) == g0.curve_on(curve, surfaces.2));
}

/// The geometry layer: the geometry of curves, half-edges and surfaces,
/// keyed by their handles.
pub struct Geometry {
    curves: Vec<(Handle, Handle, LocalCurveGeom)>,
    half_edges: HandleMap<HalfEdgeGeometry>,
    surfaces: HandleMap<SurfaceGeom>,
}

impl Geometry {
    /// The definition of `curve` on `surface`, if any.
    pub closed spec fn curve_on(&self, curve: Handle, surface: Handle) -> Option<LocalCurveGeom> {
        curve_lookup(self.curves@, curve, surface)
    }

    /// Whether `curve` has a definition on any surface.
    pub closed spec fn has_curve(&self, curve: Handle) -> bool {
        curve_defined(self.curves@, curve)
    }

    /// The geometry of a half-edge, if defined.
    pub closed spec fn half_edge_geom(&self, h: Handle) -> Option<HalfEdgeGeometry> {
        self.half_edges.spec_get(h)
    }

    /// The geometry of a surface, if defined.
    pub closed spec fn surface_geom(&self, h: Handle) -> Option<SurfaceGeom> {
        self.surfaces.spec_get(h)
    }

    /// A layer without any geometry.
    pub fn new() -> (r: Self)
        ensures
            forall|c: Handle, s: Handle| r.curve_on(c, s) is None,
            forall|c: Handle| !r.has_curve(c),
            forall|h: Handle| r.half_edge_geom(h) is None,
            forall|h: Handle| r.surface_geom(h) is None,
    {
        Geometry { curves: Vec::new(), half_edges: HandleMap::new(), surfaces: HandleMap::new() }
    }

    /// Records (or replaces) the definition of `curve` on `surface`.
    pub fn define_curve(&mut self, curve: Handle, surface: Handle, local: LocalCurveGeom)
        ensures
            defines_curve(*old(self), *final(self), curve, surface, local),
            final(self).curve_on(curve, surface) == Some(local),
            final(self).has_curve(curve),
            forall|c: Handle, s: Handle| !(c == curve && s == surface) ==> final(self).curve_on(c, s) == old(self).curve_on(c, s),
            forall|c: Handle| c != curve ==> (final(self).has_curve(c) == old(self).has_curve(c)),
            forall|h: Handle| final(self).half_edge_geom(h) == old(self).half_edge_geom(h),
            forall|h: Handle| final(self).surface_geom(h) == old(self).surface_geom(h),
    {
        self.curves.push((curve, surface, local));
        proof {
            assert(self.curves@.drop_last() =~= old(self).curves@);
            assert(self.curves@[self.curves@.len() - 1].0 == curve);
            assert forall|c: Handle| c != curve implies (curve_defined(self.curves@, c) == curve_defined(old(self).curves@, c)) by {
                if curve_defined(self.curves@, c) {
                    let i = choose|i: int| 0 <= i < self.curves@.len() && #[trigger] self.curves@[i].0 == c;
                    assert(old(self).curves@[i].0 == c);
                }
                if curve_defined(old(self).curves@, c) {
                    let i = choose|i: int| 0 <= i < old(self).curves@.len() && #[trigger] old(self).curves@[i].0 == c;
                    assert(self.curves@[i].0 == c);
                }
            }
        }
    }

    /// The full geometry record of `curve`, or `None` where it has none.
    pub fn of_curve(&self, curve: Handle) -> (r: Option<CurveGeom>)
        ensures
            r is None <==> !self.has_curve(curve),
            r matches Some(g) ==> forall|s: Handle| g.spec_local_on(s) == self.curve_on(curve, s),
    {
        let mut geom = CurveGeom::new();
        let mut any = false;
        let n = self.curves.len();
        let mut i: usize = 0;
        while i < n
            invariant
                n == self.curves@.len(),
                i <= n,
                forall|s: Handle| geom.spec_local_on(s) == curve_lookup(self.curves@.subrange(0, i as int), curve, s),
                any <==> curve_defined(self.curves@.subrange(0, i as int), curve),
            decreases n - i,
        {
            let ghost prefix = self.curves@.subrange(0, i as int);
            let ghost next = self.curves@.subrange(0, i + 1);
            proof {
                assert(next.drop_last() =~= prefix);
            }
            let ghost before = |s: Handle| geom.spec_local_on(s);
            let entry = self.curves[i];
            if entry.0 == curve {
                geom.definitions.insert(entry.1, entry.2);
                any = true;
            }
            proof {
                assert(next.last() == entry);
                if curve_defined(next, curve) && entry.0 != curve {
                    let k = choose|k: int| 0 <= k < next.len() && #[trigger] next[k].0 == curve;
                    assert(prefix[k].0 == curve);
                }
                if curve_defined(prefix, curve) {
                    let k = choose|k: int| 0 <= k < prefix.len() && #[trigger] prefix[k].0 == curve;
                    assert(next[k].0 == curve);
                }
                if entry.0 == curve {
                    assert(next[i as int].0 == curve);
                }
                assert forall|s: Handle| geom.spec_local_on(s) == curve_lookup(next, curve, s) by {
                    assert(before(s) == curve_lookup(prefix, curve, s));
                    assert(curve_lookup(next, curve, s) == (if entry.0 == curve && entry.1 == s {
                        Some(entry.2)
                    } else {
                        curve_lookup(prefix, curve, s)
                    }));
                }
            }
            i = i + 1;
        }
        proof {
            assert(self.curves@.subrange(0, n as int) =~= self.curves@);
        }
        if any {
            Some(geom)
        } else {
            None
        }
    }

    /// Records (or replaces) the geometry of a half-edge.
    pub fn define_half_edge(&mut self, half_edge: Handle, geometry: HalfEdgeGeometry)
        ensures
            final(self).half_edge_geom(half_edge) == Some(geometry),
            forall|h: Handle| h != half_edge ==> final(self).half_edge_geom(h) == old(self).half_edge_geom(h),
            forall|c: Handle, s: Handle| final(self).curve_on(c, s) == old(self).curve_on(c, s),
            forall|c: Handle| final(self).has_curve(c) == old(self).has_curve(c),
            forall|h: Handle| final(self).surface_geom(h) == old(self).surface_geom(h),
    {
        self.half_edges.insert(half_edge, geometry);
    }

    /// The geometry of a half-edge; every half-edge has one.
    pub fn of_half_edge(&self, half_edge: Handle) -> (r: HalfEdgeGeometry)
        requires
            self.half_edge_geom(half_edge) is Some,
        ensures
            self.half_edge_geom(half_edge) == Some(r),
    {
        match self.half_edges.get(half_edge) {
            Some(g) => *g,
            None => {
                proof {
                    assert(false);
                }
                HalfEdgeGeometry { path: SurfacePath::Circle { center: Point2 { u: 0, v: 0 }, radius: 0 } }
            },
        }
    }

    /// Records (or replaces) the geometry of a surface.
    pub fn define_surface(&mut self, surface: Handle, geometry: SurfaceGeom)
        ensures
            final(self).surface_geom(surface) == Some(geometry),
            forall|h: Handle| h != surface ==> final(self).surface_geom(h) == old(self).surface_geom(h),
            forall|c: Handle, s: Handle| final(self).curve_on(c, s) == old(self).curve_on(c, s),
            forall|c: Handle| final(self).has_curve(c) == old(self).has_curve(c),
            forall|h: Handle| final(self).half_edge_geom(h) == old(self).half_edge_geom(h),
    {
        self.surfaces.insert(surface, geometry);
    }

    /// The geometry of a surface; every surface has one.
    pub fn of_surface(&self, surface: Handle) -> (r: SurfaceGeom)
        requires
            self.surface_geom(surface) is Some,
        ensures
            self.surface_geom(surface) == Some(r),
    {
        match self.surfaces.get(surface) {
            Some(g) => *g,
            None => {
                proof {
                    assert(false);
                }
                SurfaceGeom::xy_plane()
            },
        }
    }
}

} // verus!
