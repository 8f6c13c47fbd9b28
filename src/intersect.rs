//! Intersection of two planar surfaces.

use crate::geometry::{GlobalPath, SurfaceGeom};
use crate::math::{cross3, dot3, scale3, sub3, zero3, cross_wide, dot_wide, scale_wide, sub_wide, Vector3, Wide3, V3, COORD_MAX};
use vstd::prelude::*;

verus! {

/// A line in 3D space, with an origin in homogeneous coordinates.
///
/// The origin is the point `origin / origin_denom`; `origin_denom` is
/// positive. The line runs along `direction`.
#[derive(Clone, Copy, Debug, PartialEq, Eq, Structural)]
pub struct Line3 {
    pub origin: Wide3,
    pub origin_denom: i128,
    pub direction: Wide3,
}

impl Line3 {
    /// The x axis: through the origin, along `(1, 0, 0)`.
    pub fn x_axis() -> (r: Self)
        ensures
            r.origin@ == zero3(),
            r.origin_denom == 1,
            r.direction@ == (1int, 0int, 0int),
    {
        Line3 {
            origin: Wide3 { x: 0, y: 0, z: 0 },
            origin_denom: 1,
            direction: Wide3 { x: 1, y: 0, z: 0 },
        }
    }
}

/// A plane in parametric form
pub struct PlaneParametric {
    pub origin: Vector3,
    pub u: Vector3,
    pub v: Vector3,
}

/// A plane in constant-normal form: the points `p` with
/// `normal · p == distance`.
///
/// The normal is not normalized; coordinates being exact integers, it is
/// kept as the cross product that defines it, and the distance is scaled
/// with it.
pub struct PlaneConstantNormal {
    pub distance: i128,
    pub normal: Wide3,
}

/// The normal of a plane: the cross product of its two spanning vectors.
pub open spec fn plane_normal(s: SurfaceGeom) -> V3 {
    match s.u {
        GlobalPath::Line { direction, .. } => cross3(direction@, s.v@),
        GlobalPath::Circle { .. } => zero3(),
    }
}

/// The (scaled) distance of a plane from the origin: its normal's dot
/// product with a point of the plane.
pub open spec fn plane_distance(s: SurfaceGeom) -> int {
    match s.u {
        GlobalPath::Line { origin, .. } => dot3(plane_normal(s), origin@),
        GlobalPath::Circle { .. } => 0,
    }
}

/// The direction of the line where two planes meet.
pub open spec fn intersection_direction(a: SurfaceGeom, b: SurfaceGeom) -> V3 {
    cross3(plane_normal(a), plane_normal(b))
}

/// The numerator of the intersection line's origin; its denominator is the
/// squared length of the direction.
pub open spec fn intersection_origin(a: SurfaceGeom, b: SurfaceGeom) -> V3 {
    cross3(
        sub3(scale3(plane_normal(b), plane_distance(a)), scale3(plane_normal(a), plane_distance(b))),
        intersection_direction(a, b),
    )
}

/// Whether two planes are parallel (identical planes included).
pub open spec fn planes_parallel(a: SurfaceGeom, b: SurfaceGeom) -> bool {
    intersection_direction(a, b) == zero3()
}

impl PlaneParametric {
    /// The plane spanned by a surface whose swept curve is a line.
    pub fn extract_from_surface(surface: &SurfaceGeom) -> (r: Self)
        requires
            surface.is_plane(),
        ensures
            surface.u == (GlobalPath::Line { origin: r.origin, direction: r.u }),
            r.v == surface.v,
    {
        match surface.u {
            GlobalPath::Line { origin, direction } => PlaneParametric { origin, u: direction, v: surface.v },
            GlobalPath::Circle { .. } => {
                proof {
                    assert(false);
                }
                PlaneParametric { origin: surface.v, u: surface.v, v: surface.v }
            },
        }
    }
}

pub open spec fn parametric_in_range(p: &PlaneParametric) -> bool {
    p.origin.in_range() && p.u.in_range() && p.v.in_range()
}

/// Bound of a normal's coordinates: `2 * COORD_MAX * COORD_MAX`.
pub open spec fn normal_bound() -> int {
    33554432
}

/// Bound of a distance: `3 * normal_bound() * COORD_MAX`.
pub open spec fn distance_bound() -> int {
    412316860416
}

impl PlaneConstantNormal {
    /// Converts a plane from parametric to constant-normal form.
    ///
    /// The plane's three points `origin`, `origin + u` and `origin + v` span
    /// the edge vectors `u` and `v`, whose cross product is the normal.
    pub fn from_parametric_plane(plane: &PlaneParametric) -> (r: Self)
        requires
            parametric_in_range(plane),
        ensures
            r.normal@ == cross3(plane.u@, plane.v@),
            r.distance == dot3(r.normal@, plane.origin@),
            r.normal.bounded(normal_bound()),
            -distance_bound() <= r.distance <= distance_bound(),
    {
        let u = Wide3::from_vector(&plane.u);
        let v = Wide3::from_vector(&plane.v);
        let a = Wide3::from_vector(&plane.origin);
        let normal = cross_wide(&u, &v, Ghost(COORD_MAX as int), Ghost(COORD_MAX as int));
        let distance = dot_wide(&normal, &a, Ghost(normal_bound()), Ghost(COORD_MAX as int));
        PlaneConstantNormal { distance, normal }
    }
}

/// Intersects two planar surfaces.
///
/// Parallel or identical planes do not meet in a line: the result is
/// `None` exactly when the cross product of the normals is zero. This is an
/// exact comparison. Otherwise the result is the line along that cross
/// product through the point
/// `(normal_b * distance_a - normal_a * distance_b) × direction / (direction · direction)`.
pub fn surface_surface(a: &SurfaceGeom, b: &SurfaceGeom) -> (r: Option<Line3>)
    requires
        a.is_plane(),
        b.is_plane(),
        a.in_range(),
        b.in_range(),
    ensures
        r is None <==> planes_parallel(*a, *b),
        r matches Some(line) ==> {
            &&& line.direction@ == intersection_direction(*a, *b)
            &&& line.origin@ == intersection_origin(*a, *b)
            &&& line.origin_denom == dot3(line.direction@, line.direction@)
            &&& line.origin_denom > 0
        },
{
    let a_parametric = PlaneParametric::extract_from_surface(a);
    let b_parametric = PlaneParametric::extract_from_surface(b);

    let pa = PlaneConstantNormal::from_parametric_plane(&a_parametric);
    let pb = PlaneConstantNormal::from_parametric_plane(&b_parametric);

    let direction = cross_wide(&pa.normal, &pb.normal, Ghost(normal_bound()), Ghost(normal_bound()));
    let ghost db: int = 2251799813685248;
    let denom = dot_wide(&direction, &direction, Ghost(db), Ghost(db));
    if denom == 0 {
        proof {
            lemma_dot_self_zero(direction@);
        }
        return None;
    }
    proof {
        lemma_dot_self_nonneg(direction@);
        assert(plane_normal(*a) == pa.normal@);
        assert(plane_normal(*b) == pb.normal@);
        assert(direction@ == intersection_direction(*a, *b));
        if direction@ == zero3() {
            let d = direction@;
            assert(d.0 * d.0 + d.1 * d.1 + d.2 * d.2 == 0) by (nonlinear_arith)
                requires
                    d.0 == 0,
                    d.1 == 0,
                    d.2 == 0,
            ;
        }
    }
    let ghost sb: int = 13835058055282163712;
    let first = scale_wide(&pb.normal, pa.distance, Ghost(normal_bound()), Ghost(distance_bound()));
    let second = scale_wide(&pa.normal, pb.distance, Ghost(normal_bound()), Ghost(distance_bound()));
    let w = sub_wide(&first, &second, Ghost(sb), Ghost(sb));
    let origin = cross_wide(&w, &direction, Ghost(sb + sb), Ghost(db));
    Some(Line3 { origin, origin_denom: denom, direction })
}

proof fn lemma_dot_self_zero(d: V3)
    requires
        dot3(d, d) == 0,
    ensures
        d == zero3(),
{
    assert(d.0 * d.0 >= 0 && d.1 * d.1 >= 0 && d.2 * d.2 >= 0) by (nonlinear_arith);
    assert(d.0 == 0 && d.1 == 0 && d.2 == 0) by (nonlinear_arith)
        requires
            d.0 * d.0 + d.1 * d.1 + d.2 * d.2 == 0,
            d.0 * d.0 >= 0,
            d.1 * d.1 >= 0,
            d.2 * d.2 >= 0,
    ;
}

proof fn lemma_dot_self_nonneg(d: V3)
    ensures
        dot3(d, d) >= 0,
{
    assert(d.0 * d.0 >= 0 && d.1 * d.1 >= 0 && d.2 * d.2 >= 0) by (nonlinear_arith);
}

/// Parallel planes never meet in a line: the intersection of a plane with
/// itself, or with any translation of itself, is empty.
pub proof fn lemma_translated_plane_is_parallel(a: SurfaceGeom, offset: V3)
    requires
        a.is_plane(),
    ensures
        planes_parallel(a, a),
        planes_parallel(a, a.translated(offset)),
{
    let n = plane_normal(a);
    assert(plane_normal(a.translated(offset)) == n);
    assert(cross3(n, n) == zero3()) by (nonlinear_arith);
}

} // verus!

verus! {

/// The direction of the intersection line lies in both planes: it is
/// orthogonal to both normals.
pub proof fn lemma_intersection_direction_in_both_planes(a: SurfaceGeom, b: SurfaceGeom)
    ensures
        dot3(plane_normal(a), intersection_direction(a, b)) == 0,
        dot3(plane_normal(b), intersection_direction(a, b)) == 0,
{
    let na = plane_normal(a);
    let nb = plane_normal(b);
    assert(dot3(na, cross3(na, nb)) == 0) by (nonlinear_arith);
    assert(dot3(nb, cross3(na, nb)) == 0) by (nonlinear_arith);
}

} // verus!
