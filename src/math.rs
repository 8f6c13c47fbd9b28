//! Exact integer points and vectors, and the vector algebra over them.

use vstd::prelude::*;

verus! {

/// The largest magnitude of an input coordinate.
///
/// Coordinates are exact integers; this bound keeps every derived quantity
/// (normals, distances, intersection lines) within 128-bit arithmetic.
pub const COORD_MAX: i64 = 4096;

/// A vector (or point) in mathematical form.
pub type V3 = (int, int, int);

pub open spec fn add3(a: V3, b: V3) -> V3 {
    (a.0 + b.0, a.1 + b.1, a.2 + b.2)
}

pub open spec fn sub3(a: V3, b: V3) -> V3 {
    (a.0 - b.0, a.1 - b.1, a.2 - b.2)
}

pub open spec fn scale3(a: V3, k: int) -> V3 {
    (a.0 * k, a.1 * k, a.2 * k)
}

pub open spec fn dot3(a: V3, b: V3) -> int {
    a.0 * b.0 + a.1 * b.1 + a.2 * b.2
}

pub open spec fn cross3(a: V3, b: V3) -> V3 {
    (a.1 * b.2 - a.2 * b.1, a.2 * b.0 - a.0 * b.2, a.0 * b.1 - a.1 * b.0)
}

pub open spec fn zero3() -> V3 {
    (0, 0, 0)
}

pub open spec fn coord_ok(c: int) -> bool {
    -(COORD_MAX as int) <= c <= COORD_MAX as int
}

/// A point in the 2D coordinates of a surface.
#[derive(Clone, Copy, Debug, PartialEq, Eq, Structural)]
pub struct Point2 {
    pub u: i64,
    pub v: i64,
}

impl Point2 {
    pub open spec fn view(&self) -> (int, int) {
        (self.u as int, self.v as int)
    }

    pub open spec fn in_range(&self) -> bool {
        coord_ok(self.u as int) && coord_ok(self.v as int)
    }

    /// Whether the point lies within twice the coordinate bound, as the
    /// difference of two points in range does.
    pub open spec fn in_double_range(&self) -> bool {
        within(self.u as int, 2 * COORD_MAX) && within(self.v as int, 2 * COORD_MAX)
    }

    pub fn new(u: i64, v: i64) -> (r: Self)
        ensures
            r.u == u,
            r.v == v,
    {
        Point2 { u, v }
    }
}

/// A point or vector in 3D space.
#[derive(Clone, Copy, Debug, PartialEq, Eq, Structural)]
pub struct Vector3 {
    pub x: i64,
    pub y: i64,
    pub z: i64,
}

impl Vector3 {
    pub open spec fn view(&self) -> V3 {
        (self.x as int, self.y as int, self.z as int)
    }

    pub open spec fn in_range(&self) -> bool {
        coord_ok(self.x as int) && coord_ok(self.y as int) && coord_ok(self.z as int)
    }

    pub fn new(x: i64, y: i64, z: i64) -> (r: Self)
        ensures
            r.x == x,
            r.y == y,
            r.z == z,
    {
        Vector3 { x, y, z }
    }
}

/// A vector of wide integers, for quantities derived from coordinates.
#[derive(Clone, Copy, Debug, PartialEq, Eq, Structural)]
pub struct Wide3 {
    pub x: i128,
    pub y: i128,
    pub z: i128,
}

pub open spec fn within(c: int, b: int) -> bool {
    -b <= c <= b
}

impl Wide3 {
    pub open spec fn view(&self) -> V3 {
        (self.x as int, self.y as int, self.z as int)
    }

    pub open spec fn bounded(&self, b: int) -> bool {
        within(self.x as int, b) && within(self.y as int, b) && within(self.z as int, b)
    }

    pub fn from_vector(a: &Vector3) -> (r: Self)
        ensures
            r@ == a@,
    {
        Wide3 { x: a.x as i128, y: a.y as i128, z: a.z as i128 }
    }
}

pub proof fn lemma_mul_bound(a: int, b: int, ba: int, bb: int)
    requires
        within(a, ba),
        within(b, bb),
    ensures
        within(a * b, ba * bb),
{
    assert(-(ba * bb) <= a * b <= ba * bb) by (nonlinear_arith)
        requires
            -ba <= a <= ba,
            -bb <= b <= bb,
    ;
}

pub fn cross_wide(a: &Wide3, b: &Wide3, Ghost(ba): Ghost<int>, Ghost(bb): Ghost<int>) -> (r: Wide3)
    requires
        a.bounded(ba),
        b.bounded(bb),
        2 * (ba * bb) <= i128::MAX,
    ensures
        r@ == cross3(a@, b@),
        r.bounded(2 * (ba * bb)),
{
    proof {
        lemma_mul_bound(a.y as int, b.z as int, ba, bb);
        lemma_mul_bound(a.z as int, b.y as int, ba, bb);
        lemma_mul_bound(a.z as int, b.x as int, ba, bb);
        lemma_mul_bound(a.x as int, b.z as int, ba, bb);
        lemma_mul_bound(a.x as int, b.y as int, ba, bb);
        lemma_mul_bound(a.y as int, b.x as int, ba, bb);
    }
    Wide3 {
        x: a.y * b.z - a.z * b.y,
        y: a.z * b.x - a.x * b.z,
        z: a.x * b.y - a.y * b.x,
    }
}

pub fn dot_wide(a: &Wide3, b: &Wide3, Ghost(ba): Ghost<int>, Ghost(bb): Ghost<int>) -> (r: i128)
    requires
        a.bounded(ba),
        b.bounded(bb),
        3 * (ba * bb) <= i128::MAX,
    ensures
        r == dot3(a@, b@),
        within(r as int, 3 * (ba * bb)),
{
    proof {
        lemma_mul_bound(a.x as int, b.x as int, ba, bb);
        lemma_mul_bound(a.y as int, b.y as int, ba, bb);
        lemma_mul_bound(a.z as int, b.z as int, ba, bb);
    }
    a.x * b.x + a.y * b.y + a.z * b.z
}

pub fn scale_wide(a: &Wide3, k: i128, Ghost(ba): Ghost<int>, Ghost(bk): Ghost<int>) -> (r: Wide3)
    requires
        a.bounded(ba),
        within(k as int, bk),
        ba * bk <= i128::MAX,
    ensures
        r@ == scale3(a@, k as int),
        r.bounded(ba * bk),
{
    proof {
        lemma_mul_bound(a.x as int, k as int, ba, bk);
        lemma_mul_bound(a.y as int, k as int, ba, bk);
        lemma_mul_bound(a.z as int, k as int, ba, bk);
    }
    Wide3 { x: a.x * k, y: a.y * k, z: a.z * k }
}

pub fn sub_wide(a: &Wide3, b: &Wide3, Ghost(ba): Ghost<int>, Ghost(bb): Ghost<int>) -> (r: Wide3)
    requires
        a.bounded(ba),
        b.bounded(bb),
        ba + bb <= i128::MAX,
    ensures
        r@ == sub3(a@, b@),
        r.bounded(ba + bb),
{
    Wide3 { x: a.x - b.x, y: a.y - b.y, z: a.z - b.z }
}

} // verus!
