//! Building cycles of partial half-edges.

use crate::math::Point2;
use crate::partial::{known_global_curve, known_global_vertex, line_segment_from_points, PartialCurve, PartialHalfEdge, PartialVertex};
use crate::storage::Handle;
use itertools::Itertools;
use vstd::arithmetic::div_mod::{lemma_mod_add_multiples_vanish, lemma_mod_self_0, lemma_small_mod};
use vstd::prelude::*;

verus! {

/// Relies on `itertools::Itertools::circular_tuple_windows`: for `n` items,
/// the `n` pairs of each item with the one after it, the last item paired
/// with the first.
#[verifier::external_body]
fn circular_pairs(points: &Vec<Point2>) -> (r: Vec<(Point2, Point2)>)
    ensures
        r@.len() == points@.len(),
        forall|i: int| 0 <= i < points@.len() ==> #[trigger] r@[i] == (points@[i], points@[(i + 1) % (points@.len() as int)]),
{
    points.iter().copied().circular_tuple_windows().collect()
}

/// A partial cycle: an ordered sequence of partial half-edges.
pub struct PartialCycle {
    pub half_edges: Vec<PartialHalfEdge>,
}

pub open spec fn empty_half_edge() -> PartialHalfEdge {
    PartialHalfEdge { curve: None, vertices: None, global_form: None }
}

/// The half-edge of a second cycle that corresponds to `other`, on
/// `surface`: it runs along the same global curve, starts at the end vertex
/// of `prev` (the half-edge before `other`) and ends where `other` ends.
pub open spec fn connected_edge(other: PartialHalfEdge, prev: PartialHalfEdge, surface: Handle) -> PartialHalfEdge {
    PartialHalfEdge {
        curve: Some(PartialCurve { path: None, surface: Some(surface), global_form: known_global_curve(other) }),
        vertices: Some([
            PartialVertex { position: None, surface_position: None, surface: Some(surface), global_form: known_global_vertex(prev, 1) },
            PartialVertex { position: None, surface_position: None, surface: Some(surface), global_form: known_global_vertex(other, 1) },
        ]),
        global_form: None,
    }
}

/// The end vertex of a half-edge, with what it lacks taken from `next`,
/// the start vertex of the half-edge after it.
pub open spec fn inferred_end(end: PartialVertex, next: PartialVertex) -> PartialVertex {
    PartialVertex {
        position: end.position,
        surface_position: if end.surface_position is Some { end.surface_position } else { next.surface_position },
        surface: if end.surface is Some { end.surface } else { next.surface },
        global_form: if end.global_form is Some { end.global_form } else { next.global_form },
    }
}

/// The half-edge `e` with its end vertex completed from the start vertex
/// of `next`, where both have vertices.
pub open spec fn inferred_edge(e: PartialHalfEdge, next: PartialHalfEdge) -> PartialHalfEdge {
    match (e.vertices, next.vertices) {
        (Some(vs), Some(ns)) => PartialHalfEdge { vertices: Some([vs[0], inferred_end(vs[1], ns[0])]), ..e },
        _ => e,
    }
}

fn infer_end(end: PartialVertex, next: PartialVertex) -> (r: PartialVertex)
    ensures
        r == inferred_end(end, next),
{
    PartialVertex {
        position: end.position,
        surface_position: if end.surface_position.is_some() { end.surface_position } else { next.surface_position },
        surface: if end.surface.is_some() { end.surface } else { next.surface },
        global_form: if end.global_form.is_some() { end.global_form } else { next.global_form },
    }
}

impl PartialCycle {
    /// An empty cycle.
    pub fn new() -> (r: Self)
        ensures
            r.half_edges@.len() == 0,
    {
        PartialCycle { half_edges: Vec::new() }
    }

    /// Adds an empty half-edge and returns its index.
    pub fn add_half_edge(&mut self) -> (r: usize)
        requires
            old(self).half_edges@.len() < usize::MAX,
        ensures
            r == old(self).half_edges@.len(),
            final(self).half_edges@ == old(self).half_edges@.push(empty_half_edge()),
    {
        let r = self.half_edges.len();
        self.half_edges.push(PartialHalfEdge::default());
        r
    }

    /// Adds a closed polygon through `points`: one line segment from each
    /// point to the next, the last one back to the first. Returns the
    /// indices of the new half-edges.
    pub fn update_as_polygon_from_points(&mut self, surface: Handle, points: &Vec<Point2>) -> (r: Vec<usize>)
        requires
            forall|i: int| 0 <= i < points@.len() ==> (#[trigger] points@[i]).in_range(),
            old(self).half_edges@.len() + points@.len() <= usize::MAX,
        ensures
            ({
                let n = points@.len() as int;
                let start = old(self).half_edges@.len() as int;
                &&& final(self).half_edges@.len() == start + n
                &&& final(self).half_edges@.subrange(0, start) == old(self).half_edges@
                &&& r@.len() == n
                &&& forall|i: int| 0 <= i < n ==> #[trigger] r@[i] == start + i
                &&& forall|i: int| 0 <= i < n ==> #[trigger] final(self).half_edges@[start + i]
                    == line_segment_from_points(empty_half_edge(), surface, [points@[i], points@[(i + 1) % n]])
            }),
    {
        let pairs = circular_pairs(points);
        let n = pairs.len();
        let start = self.half_edges.len();
        let mut indices: Vec<usize> = Vec::new();
        let mut i: usize = 0;
        while i < n
            invariant
                n == points@.len(),
                pairs@.len() == n,
                forall|k: int| 0 <= k < n ==> #[trigger] pairs@[k] == (points@[k], points@[(k + 1) % (n as int)]),
                forall|k: int| 0 <= k < n ==> (#[trigger] points@[k]).in_range(),
                start == old(self).half_edges@.len(),
                start + n <= usize::MAX,
                i <= n,
                self.half_edges@.len() == start + i,
                self.half_edges@.subrange(0, start as int) == old(self).half_edges@,
                indices@.len() == i,
                forall|k: int| 0 <= k < i ==> #[trigger] indices@[k] == start + k,
                forall|k: int| 0 <= k < i ==> #[trigger] self.half_edges@[start + k]
                    == line_segment_from_points(empty_half_edge(), surface, [points@[k], points@[(k + 1) % (n as int)]]),
            decreases n - i,
        {
            let (a, b) = pairs[i];
            proof {
                assert(pairs@[i as int] == (points@[i as int], points@[(i + 1) % (n as int)]));
                assert(0 <= (i + 1) % (n as int) < n);
            }
            let edge = PartialHalfEdge::default().as_line_segment_from_points(surface, [a, b]);
            let ghost before = self.half_edges@;
            self.half_edges.push(edge);
            indices.push(start + i);
            proof {
                assert(self.half_edges@.subrange(0, start as int) =~= before.subrange(0, start as int));
                assert forall|k: int| 0 <= k < i + 1 implies #[trigger] self.half_edges@[start + k]
                    == line_segment_from_points(empty_half_edge(), surface, [points@[k], points@[(k + 1) % (n as int)]]) by {
                    if k < i {
                        assert(self.half_edges@[start + k] == before[start + k]);
                    }
                }
            }
            i = i + 1;
        }
        indices
    }

    /// Adds the half-edges of this cycle that correspond to `edges`, the
    /// half-edges of another cycle, on `surface`. Each new half-edge runs
    /// along the global curve of its counterpart and starts at the end
    /// vertex of the one before it, so that the new half-edges close.
    /// Returns the indices of the new half-edges.
    pub fn connect_to_closed_edges(&mut self, edges: &Vec<PartialHalfEdge>, surface: Handle) -> (r: Vec<usize>)
        requires
            old(self).half_edges@.len() + edges@.len() <= usize::MAX,
        ensures
            ({
                let n = edges@.len() as int;
                let start = old(self).half_edges@.len() as int;
                &&& final(self).half_edges@.len() == start + n
                &&& final(self).half_edges@.subrange(0, start) == old(self).half_edges@
                &&& r@.len() == n
                &&& forall|i: int| 0 <= i < n ==> #[trigger] r@[i] == start + i
                &&& forall|i: int| 0 <= i < n ==> #[trigger] final(self).half_edges@[start + i]
                    == connected_edge(edges@[i], edges@[(i + n - 1) % n], surface)
            }),
    {
        let n = edges.len();
        let start = self.half_edges.len();
        let mut indices: Vec<usize> = Vec::new();
        let mut i: usize = 0;
        while i < n
            invariant
                n == edges@.len(),
                start == old(self).half_edges@.len(),
                start + n <= usize::MAX,
                i <= n,
                self.half_edges@.len() == start + i,
                self.half_edges@.subrange(0, start as int) == old(self).half_edges@,
                indices@.len() == i,
                forall|k: int| 0 <= k < i ==> #[trigger] indices@[k] == start + k,
                forall|k: int| 0 <= k < i ==> #[trigger] self.half_edges@[start + k]
                    == connected_edge(edges@[k], edges@[(k + n - 1) % (n as int)], surface),
            decreases n - i,
        {
            let p = if i == 0 { n - 1 } else { i - 1 };
            proof {
                if i == 0 {
                    lemma_small_mod((n - 1) as nat, n as nat);
                } else {
                    lemma_mod_add_multiples_vanish(i - 1, n as int);
                    lemma_small_mod((i - 1) as nat, n as nat);
                }
                assert(p as int == (i + n - 1) % (n as int));
            }
            let other = edges[i];
            let prev = edges[p];
            let edge = PartialHalfEdge {
                curve: Some(PartialCurve { path: None, surface: Some(surface), global_form: other.extract_global_curve() }),
                vertices: Some([
                    PartialVertex { position: None, surface_position: None, surface: Some(surface), global_form: prev.extract_global_vertex(1) },
                    PartialVertex { position: None, surface_position: None, surface: Some(surface), global_form: other.extract_global_vertex(1) },
                ]),
                global_form: None,
            };
            let ghost before = self.half_edges@;
            self.half_edges.push(edge);
            indices.push(start + i);
            proof {
                assert(self.half_edges@.subrange(0, start as int) =~= before.subrange(0, start as int));
                assert forall|k: int| 0 <= k < i + 1 implies #[trigger] self.half_edges@[start + k]
                    == connected_edge(edges@[k], edges@[(k + n - 1) % (n as int)], surface) by {
                    if k < i {
                        assert(self.half_edges@[start + k] == before[start + k]);
                    }
                }
            }
            i = i + 1;
        }
        indices
    }

    /// Completes the end vertex of each half-edge from the start vertex of
    /// the half-edge after it (the last from the first): a surface
    /// position, surface or global form that the end vertex lacks is taken
    /// from there.
    pub fn infer_vertex_positions_if_necessary(&mut self)
        ensures
            ({
                let n = old(self).half_edges@.len() as int;
                &&& final(self).half_edges@.len() == n
                &&& forall|i: int| 0 <= i < n ==> #[trigger] final(self).half_edges@[i]
                    == inferred_edge(old(self).half_edges@[i], old(self).half_edges@[(i + 1) % n])
            }),
    {
        let n = self.half_edges.len();
        let ghost orig = self.half_edges@;
        let mut i: usize = 0;
        while i < n
            invariant
                n == orig.len(),
                self.half_edges@.len() == n,
                i <= n,
                forall|k: int| 0 <= k < i ==> #[trigger] self.half_edges@[k] == inferred_edge(orig[k], orig[(k + 1) % (n as int)]),
                forall|k: int| i <= k < n ==> #[trigger] self.half_edges@[k] == orig[k],
            decreases n - i,
        {
            let j = if i + 1 == n { 0 } else { i + 1 };
            proof {
                if i + 1 == n {
                    lemma_mod_self_0(n as int);
                } else {
                    lemma_small_mod((i + 1) as nat, n as nat);
                }
                assert(j as int == (i + 1) % (n as int));
            }
            let e = self.half_edges[i];
            // The start vertex of a half-edge is never changed here, so the
            // updated first half-edge still has the start vertex it began with.
            let next = self.half_edges[j];
            proof {
                if j < i {
                    let o = orig[j as int];
                    assert(next == inferred_edge(o, orig[(j + 1) % (n as int)]));
                }
            }
            let ghost want = inferred_edge(orig[i as int], orig[j as int]);
            let updated = match (e.vertices, next.vertices) {
                (Some(vs), Some(ns)) => PartialHalfEdge { vertices: Some([vs[0], infer_end(vs[1], ns[0])]), ..e },
                _ => e,
            };
            proof {
                assert(updated == want);
            }
            self.half_edges.set(i, updated);
            i = i + 1;
        }
    }
}

} // verus!
