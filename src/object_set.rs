//! Traversal of the object graph: every object reachable from a set of
//! faces, each once.

use crate::instance::Stores;
use crate::storage::Handle;
use crate::topology::HalfEdge;
use vstd::prelude::*;

verus! {

/// A reference to a stored object of any kind.
#[derive(Clone, Copy, Debug, PartialEq, Eq, Structural)]
pub enum Object {
    Surface(Handle),
    Region(Handle),
    Cycle(Handle),
    HalfEdge(Handle),
    Vertex(Handle),
    /// A global edge, which is a value: its curve and its two vertices.
    GlobalEdge { curve: Handle, start: Handle, end: Handle },
}

/// The object that stands for the global form of a half-edge.
pub open spec fn global_edge_object(e: HalfEdge) -> Object {
    let g = e.global_form_spec();
    Object::GlobalEdge { curve: g.curve_spec(), start: g.vertices_spec()[0], end: g.vertices_spec()[1] }
}

/// A half-edge, then its start vertex and its global form.
pub open spec fn walk_half_edge(stores: &Stores, h: Handle) -> Seq<Object> {
    let e = stores.half_edges.at(h);
    seq![Object::HalfEdge(h), Object::Vertex(e.vertices_spec()[0].global_form), global_edge_object(e)]
}

/// The walks of the half-edges `hs`, one after the other.
pub open spec fn walk_half_edges(stores: &Stores, hs: Seq<Handle>) -> Seq<Object>
    decreases hs.len(),
{
    if hs.len() == 0 {
        Seq::empty()
    } else {
        walk_half_edges(stores, hs.drop_last()) + walk_half_edge(stores, hs.last())
    }
}

/// A cycle, then the walks of its half-edges.
pub open spec fn walk_cycle(stores: &Stores, c: Handle) -> Seq<Object> {
    seq![Object::Cycle(c)] + walk_half_edges(stores, stores.cycles.at(c).half_edges@)
}

/// The walks of the cycles `cs`, one after the other.
pub open spec fn walk_cycles(stores: &Stores, cs: Seq<Handle>) -> Seq<Object>
    decreases cs.len(),
{
    if cs.len() == 0 {
        Seq::empty()
    } else {
        walk_cycles(stores, cs.drop_last()) + walk_cycle(stores, cs.last())
    }
}

/// The objects below a face: its surface and its region, then the walks
/// of its exterior cycle and of its interior cycles.
pub open spec fn walk_face(stores: &Stores, f: Handle) -> Seq<Object> {
    let face = stores.faces.at(f);
    let region = stores.regions.at(face.region);
    seq![Object::Surface(face.surface), Object::Region(face.region)]
        + walk_cycle(stores, region.exterior)
        + walk_cycles(stores, region.interiors@)
}

/// The walks of the faces `fs`, one after the other.
pub open spec fn walk_faces(stores: &Stores, fs: Seq<Handle>) -> Seq<Object>
    decreases fs.len(),
{
    if fs.len() == 0 {
        Seq::empty()
    } else {
        walk_faces(stores, fs.drop_last()) + walk_face(stores, fs.last())
    }
}

/// Whether every handle that a face reachable from the stores holds belongs
/// to its store.
pub open spec fn faces_wf(stores: &Stores, faces: Seq<Handle>) -> bool {
    &&& forall|i: int| 0 <= i < faces.len() ==> stores.faces.holds(#[trigger] faces[i])
    &&& forall|f: Handle| stores.faces.holds(f) ==> stores.regions.holds(#[trigger] stores.faces.at(f).region)
    &&& forall|r: Handle| stores.regions.holds(r) ==> stores.cycles.holds(#[trigger] stores.regions.at(r).exterior)
    &&& forall|r: Handle, i: int| stores.regions.holds(r) && 0 <= i < stores.regions.at(r).interiors@.len()
        ==> stores.cycles.holds(#[trigger] stores.regions.at(r).interiors@[i])
    &&& forall|c: Handle, i: int| stores.cycles.holds(c) && 0 <= i < stores.cycles.at(c).half_edges@.len()
        ==> stores.half_edges.holds(#[trigger] stores.cycles.at(c).half_edges@[i])
}

/// The objects reachable from some faces (the faces themselves not
/// included), each once, in the order in which they are first reached:
/// a face's surface and region before its cycles, each cycle before its
/// half-edges, each half-edge before its start vertex and its global form.
pub struct ObjectSet {
    inner: Vec<Object>,
}

impl ObjectSet {
    pub closed spec fn view(&self) -> Seq<Object> {
        self.inner@
    }

    /// An empty set.
    pub fn new() -> (r: Self)
        ensures
            r@ == Seq::<Object>::empty(),
    {
        ObjectSet { inner: Vec::new() }
    }

    /// Whether `object` is in the set.
    pub fn contains(&self, object: Object) -> (r: bool)
        ensures
            r == self@.contains(object),
    {
        let mut i: usize = 0;
        while i < self.inner.len()
            invariant
                i <= self.inner@.len(),
                forall|k: int| 0 <= k < i ==> self.inner@[k] != object,
            decreases self.inner@.len() - i,
        {
            if self.inner[i] == object {
                assert(self.inner@[i as int] == object);
                return true;
            }
            i = i + 1;
        }
        false
    }

    /// Adds each of `objects` that is not in the set yet, in order.
    fn insert_all(&mut self, objects: &Vec<Object>)
        ensures
            final(self)@ == first_occurrences_after(old(self)@, objects@),
    {
        let mut i: usize = 0;
        while i < objects.len()
            invariant
                i <= objects@.len(),
                self@ == first_occurrences_after(old(self)@, objects@.subrange(0, i as int)),
            decreases objects@.len() - i,
        {
            proof {
                assert(objects@.subrange(0, i + 1).drop_last() =~= objects@.subrange(0, i as int));
            }
            let o = objects[i];
            if !self.contains(o) {
                self.inner.push(o);
            }
            i = i + 1;
        }
        proof {
            assert(objects@.subrange(0, objects@.len() as int) =~= objects@);
        }
    }

    /// The objects reachable from `faces`, each once, in the order in which
    /// the walk from each face in turn first reaches them.
    pub fn from_faces(stores: &Stores, faces: &Vec<Handle>) -> (r: Self)
        requires
            faces_wf(stores, faces@),
        ensures
            r@ == first_occurrences_after(Seq::empty(), walk_faces(stores, faces@)),
    {
        let mut walk: Vec<Object> = Vec::new();
        let mut i: usize = 0;
        while i < faces.len()
            invariant
                faces_wf(stores, faces@),
                i <= faces@.len(),
                walk@ == walk_faces(stores, faces@.subrange(0, i as int)),
            decreases faces@.len() - i,
        {
            proof {
                assert(faces@.subrange(0, i + 1).drop_last() =~= faces@.subrange(0, i as int));
            }
            push_face_walk(stores, faces[i], &mut walk);
            i = i + 1;
        }
        proof {
            assert(faces@.subrange(0, faces@.len() as int) =~= faces@);
        }
        let mut set = ObjectSet::new();
        set.insert_all(&walk);
        set
    }

    /// The objects in the set, in order.
    pub fn objects(&self) -> (r: &Vec<Object>)
        ensures
            r@ == self@,
    {
        &self.inner
    }
}

fn push_half_edge_walk(stores: &Stores, h: Handle, out: &mut Vec<Object>)
    requires
        stores.half_edges.holds(h),
    ensures
        final(out)@ == old(out)@ + walk_half_edge(stores, h),
{
    let e = stores.half_edges.get(h);
    out.push(Object::HalfEdge(h));
    out.push(Object::Vertex(e.vertices()[0].global_form));
    let g = e.global_form();
    let vs = *g.vertices();
    out.push(Object::GlobalEdge { curve: *g.curve(), start: vs[0], end: vs[1] });
    proof {
        assert(final(out)@ =~= old(out)@ + walk_half_edge(stores, h));
    }
}

fn push_cycle_walk(stores: &Stores, c: Handle, out: &mut Vec<Object>)
    requires
        stores.cycles.holds(c),
        forall|i: int| 0 <= i < stores.cycles.at(c).half_edges@.len()
            ==> stores.half_edges.holds(#[trigger] stores.cycles.at(c).half_edges@[i]),
    ensures
        final(out)@ == old(out)@ + walk_cycle(stores, c),
{
    let cycle = stores.cycles.get(c);
    out.push(Object::Cycle(c));
    let ghost base = out@;
    let mut i: usize = 0;
    while i < cycle.half_edges.len()
        invariant
            cycle == stores.cycles.at(c),
            forall|i: int| 0 <= i < cycle.half_edges@.len() ==> stores.half_edges.holds(#[trigger] cycle.half_edges@[i]),
            i <= cycle.half_edges@.len(),
            out@ == base + walk_half_edges(stores, cycle.half_edges@.subrange(0, i as int)),
        decreases cycle.half_edges@.len() - i,
    {
        let ghost prefix = cycle.half_edges@.subrange(0, i as int);
        proof {
            assert(cycle.half_edges@.subrange(0, i + 1).drop_last() =~= prefix);
        }
        push_half_edge_walk(stores, cycle.half_edges[i], out);
        proof {
            assert(out@ =~= base + walk_half_edges(stores, cycle.half_edges@.subrange(0, i + 1)));
        }
        i = i + 1;
    }
    proof {
        assert(cycle.half_edges@.subrange(0, i as int) =~= cycle.half_edges@);
        assert(out@ =~= old(out)@ + walk_cycle(stores, c));
    }
}

fn push_face_walk(stores: &Stores, f: Handle, out: &mut Vec<Object>)
    requires
        faces_wf(stores, seq![f]),
    ensures
        final(out)@ == old(out)@ + walk_face(stores, f),
{
    proof {
        assert(seq![f][0] == f);
    }
    let face = stores.faces.get(f);
    let region = stores.regions.get(face.region);
    out.push(Object::Surface(face.surface));
    out.push(Object::Region(face.region));
    let ghost start = out@;
    push_cycle_walk(stores, region.exterior, out);
    let ghost base = out@;
    let mut i: usize = 0;
    while i < region.interiors.len()
        invariant
            faces_wf(stores, seq![f]),
            region == stores.regions.at(face.region),
            stores.regions.holds(face.region),
            i <= region.interiors@.len(),
            out@ == base + walk_cycles(stores, region.interiors@.subrange(0, i as int)),
        decreases region.interiors@.len() - i,
    {
        let ghost prefix = region.interiors@.subrange(0, i as int);
        proof {
            assert(region.interiors@.subrange(0, i + 1).drop_last() =~= prefix);
        }
        let c = region.interiors[i];
        push_cycle_walk(stores, c, out);
        proof {
            assert(out@ =~= base + walk_cycles(stores, region.interiors@.subrange(0, i + 1)));
        }
        i = i + 1;
    }
    proof {
        assert(region.interiors@.subrange(0, i as int) =~= region.interiors@);
        assert(out@ =~= old(out)@ + walk_face(stores, f));
    }
}

/// `base` followed by each of `s` that neither `base` nor an earlier
/// element of `s` holds.
pub open spec fn first_occurrences_after(base: Seq<Object>, s: Seq<Object>) -> Seq<Object>
    decreases s.len(),
{
    if s.len() == 0 {
        base
    } else if first_occurrences_after(base, s.drop_last()).contains(s.last()) {
        first_occurrences_after(base, s.drop_last())
    } else {
        first_occurrences_after(base, s.drop_last()).push(s.last())
    }
}

} // verus!
