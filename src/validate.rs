//! The validation engine: exclusivity checks over the object graph.

use crate::instance::Stores;
use crate::storage::Handle;
use vstd::prelude::*;

verus! {

/// Configuration of validation checks.
#[derive(Clone, Copy, Debug, PartialEq, Eq, Structural)]
pub struct ValidationConfig {
    /// The smallest distance at which two points count as distinct
    pub distinct_min_distance: i64,
    /// The largest distance at which two points count as identical
    pub identical_max_distance: i64,
}

impl ValidationConfig {
    pub open spec fn default_spec() -> Self {
        ValidationConfig { distinct_min_distance: 1, identical_max_distance: 0 }
    }
}

impl Default for ValidationConfig {
    fn default() -> (r: Self)
        ensures
            r == Self::default_spec(),
    {
        ValidationConfig { distinct_min_distance: 1, identical_max_distance: 0 }
    }
}

} // verus!

verus! {

/// The references recorded to each object, in the order in which the
/// objects were first referenced.
pub type References = Seq<(Handle, Seq<Handle>)>;

/// `s` with the reference from `reference` to `referenced` added: appended
/// to the list of `referenced`, or a new entry where it had none.
pub open spec fn add_ref(s: References, referenced: Handle, reference: Handle) -> References {
    if exists|i: int| 0 <= i < s.len() && #[trigger] s[i].0 == referenced {
        let i = choose|i: int| 0 <= i < s.len() && #[trigger] s[i].0 == referenced;
        s.update(i, (referenced, s[i].1.push(reference)))
    } else {
        s.push((referenced, seq![reference]))
    }
}

/// Whether the references come from at least two different objects.
pub open spec fn distinct_parents(refs: Seq<Handle>) -> bool {
    exists|i: int, j: int| 0 <= i < refs.len() && 0 <= j < refs.len() && refs[i] != refs[j]
}

/// The entries of `s` referenced by more than one distinct object, in
/// order, each with its full list of references.
pub open spec fn multiples(s: References) -> References
    decreases s.len(),
{
    if s.len() == 0 {
        s
    } else if distinct_parents(s.last().1) {
        multiples(s.drop_last()).push(s.last())
    } else {
        multiples(s.drop_last())
    }
}

/// Whether no object has two entries.
pub open spec fn keys_unique(s: References) -> bool {
    forall|i: int, j: int| 0 <= i < s.len() && 0 <= j < s.len() && i != j ==> s[i].0 != s[j].0
}

/// Counts the references to objects that must be owned by one object only.
pub struct ReferenceCounter {
    entries: Vec<(Handle, Vec<Handle>)>,
}

/// An object together with all objects that reference it.
#[derive(Debug)]
pub struct MultipleReferences {
    referenced: Handle,
    references: Vec<Handle>,
}

impl MultipleReferences {
    pub closed spec fn view(&self) -> (Handle, Seq<Handle>) {
        (self.referenced, self.references@)
    }

    /// The references of `references` to `referenced`.
    pub fn new(referenced: Handle, references: Vec<Handle>) -> (r: Self)
        ensures
            r@ == (referenced, references@),
    {
        MultipleReferences { referenced, references }
    }

    /// The object that is referenced
    pub fn referenced(&self) -> (r: Handle)
        ensures
            r == self@.0,
    {
        self.referenced
    }

    /// The objects that reference it, in the order of their references
    pub fn references(&self) -> (r: &Vec<Handle>)
        ensures
            r@ == self@.1,
    {
        &self.references
    }

    /// A copy of these references.
    pub fn duplicate(&self) -> (r: Self)
        ensures
            r@ == self@,
    {
        MultipleReferences { referenced: self.referenced, references: copy_handles(&self.references) }
    }
}

fn has_distinct(v: &Vec<Handle>) -> (r: bool)
    ensures
        r == distinct_parents(v@),
{
    let n = v.len();
    if n == 0 {
        return false;
    }
    let first = v[0];
    let mut k: usize = 1;
    while k < n
        invariant
            n == v@.len(),
            n > 0,
            first == v@[0],
            1 <= k <= n,
            forall|i: int| 0 <= i < k ==> v@[i] == first,
        decreases n - k,
    {
        if v[k] != first {
            assert(v@[k as int] != v@[0]);
            return true;
        }
        k = k + 1;
    }
    false
}

fn copy_handles(v: &Vec<Handle>) -> (r: Vec<Handle>)
    ensures
        r@ == v@,
{
    let mut r: Vec<Handle> = Vec::new();
    let mut i: usize = 0;
    while i < v.len()
        invariant
            i <= v@.len(),
            r@ == v@.subrange(0, i as int),
        decreases v@.len() - i,
    {
        r.push(v[i]);
        proof {
            assert(r@ =~= v@.subrange(0, i + 1));
        }
        i = i + 1;
    }
    proof {
        assert(r@ =~= v@);
    }
    r
}

impl ReferenceCounter {
    pub closed spec fn view(&self) -> References {
        Seq::new(self.entries@.len(), |i: int| (self.entries@[i].0, self.entries@[i].1@))
    }

    pub open spec fn wf(&self) -> bool {
        keys_unique(self@)
    }

    /// A counter without references.
    pub fn new() -> (r: Self)
        ensures
            r@ == Seq::<(Handle, Seq<Handle>)>::empty(),
            r.wf(),
    {
        ReferenceCounter { entries: Vec::new() }
    }

    /// Whether anything referenced `referenced` yet.
    pub fn contains(&self, referenced: Handle) -> (r: bool)
        ensures
            r == exists|i: int| 0 <= i < self@.len() && #[trigger] self@[i].0 == referenced,
    {
        let mut i: usize = 0;
        while i < self.entries.len()
            invariant
                i <= self.entries@.len(),
                forall|k: int| 0 <= k < i ==> #[trigger] self@[k].0 != referenced,
            decreases self.entries@.len() - i,
        {
            if self.entries[i].0 == referenced {
                assert(self@[i as int].0 == referenced);
                return true;
            }
            i = i + 1;
        }
        false
    }

    /// Records that `reference` refers to `referenced`.
    pub fn add_reference(&mut self, referenced: Handle, reference: Handle)
        requires
            old(self).wf(),
        ensures
            final(self).wf(),
            final(self)@ == add_ref(old(self)@, referenced, reference),
    {
        let n = self.entries.len();
        let mut i: usize = 0;
        while i < n
            invariant
                n == self.entries@.len(),
                *self == *old(self),
                self.wf(),
                i <= n,
                forall|k: int| 0 <= k < i ==> #[trigger] self@[k].0 != referenced,
            decreases n - i,
        {
            if self.entries[i].0 == referenced {
                let mut list = copy_handles(&self.entries[i].1);
                list.push(reference);
                let ghost before = self@;
                self.entries.set(i, (referenced, list));
                proof {
                    assert(before[i as int].0 == referenced);
                    let j = choose|j: int| 0 <= j < before.len() && #[trigger] before[j].0 == referenced;
                    assert(j == i);
                    assert(self@ =~= before.update(i as int, (referenced, before[i as int].1.push(reference))));
                    assert forall|x: int, y: int| 0 <= x < self@.len() && 0 <= y < self@.len() && x != y implies self@[x].0 != self@[y].0 by {
                        assert(self@[x].0 == before[x].0);
                        assert(self@[y].0 == before[y].0);
                    }
                }
                return;
            }
            i = i + 1;
        }
        let ghost before = self@;
        let mut list: Vec<Handle> = Vec::new();
        list.push(reference);
        self.entries.push((referenced, list));
        proof {
            assert(list@ =~= seq![reference]);
            assert(self@ =~= before.push((referenced, seq![reference])));
            assert(!exists|k: int| 0 <= k < before.len() && #[trigger] before[k].0 == referenced);
        }
    }

    /// The objects with more than one reference, with their references, in
    /// the order in which the objects were first referenced.
    pub fn get_multiples(&self) -> (r: Vec<MultipleReferences>)
        ensures
            r@.len() == multiples(self@).len(),
            forall|i: int| 0 <= i < r@.len() ==> (#[trigger] r@[i])@ == multiples(self@)[i],
    {
        let mut r: Vec<MultipleReferences> = Vec::new();
        let n = self.entries.len();
        let mut i: usize = 0;
        while i < n
            invariant
                n == self@.len(),
                i <= n,
                r@.len() == multiples(self@.subrange(0, i as int)).len(),
                forall|k: int| 0 <= k < r@.len() ==> (#[trigger] r@[k])@ == multiples(self@.subrange(0, i as int))[k],
            decreases n - i,
        {
            proof {
                assert(self@.subrange(0, i + 1).drop_last() =~= self@.subrange(0, i as int));
            }
            if has_distinct(&self.entries[i].1) {
                let m = MultipleReferences { referenced: self.entries[i].0, references: copy_handles(&self.entries[i].1) };
                r.push(m);
            }
            i = i + 1;
        }
        proof {
            assert(self@.subrange(0, n as int) =~= self@);
        }
        r
    }
}

/// A reference to more than one object that should be owned by one object only
pub enum ObjectNotExclusivelyOwned {
    /// A region referenced by more than one face
    Region { references: MultipleReferences },
    /// A face referenced by more than one shell
    Face { references: MultipleReferences },
    /// A half-edge referenced by more than one cycle
    HalfEdge { references: MultipleReferences },
    /// A cycle referenced by more than one region
    Cycle { references: MultipleReferences },
}

/// The kinds of exclusive ownership.
#[derive(Clone, Copy, Debug, PartialEq, Eq, Structural)]
pub enum OwnershipKind {
    Region,
    Face,
    HalfEdge,
    Cycle,
}

impl ObjectNotExclusivelyOwned {
    pub open spec fn kind(&self) -> OwnershipKind {
        match self {
            ObjectNotExclusivelyOwned::Region { .. } => OwnershipKind::Region,
            ObjectNotExclusivelyOwned::Face { .. } => OwnershipKind::Face,
            ObjectNotExclusivelyOwned::HalfEdge { .. } => OwnershipKind::HalfEdge,
            ObjectNotExclusivelyOwned::Cycle { .. } => OwnershipKind::Cycle,
        }
    }

    pub open spec fn references_spec(&self) -> (Handle, Seq<Handle>) {
        match self {
            ObjectNotExclusivelyOwned::Region { references } => references@,
            ObjectNotExclusivelyOwned::Face { references } => references@,
            ObjectNotExclusivelyOwned::HalfEdge { references } => references@,
            ObjectNotExclusivelyOwned::Cycle { references } => references@,
        }
    }

    /// The object and the objects that all reference it.
    pub fn references(&self) -> (r: &MultipleReferences)
        ensures
            r@ == self.references_spec(),
    {
        match self {
            ObjectNotExclusivelyOwned::Region { references } => references,
            ObjectNotExclusivelyOwned::Face { references } => references,
            ObjectNotExclusivelyOwned::HalfEdge { references } => references,
            ObjectNotExclusivelyOwned::Cycle { references } => references,
        }
    }

    /// A description of the error.
    pub fn message(&self) -> (r: String)
        ensures
            r@ == match self.kind() {
                OwnershipKind::Region => "Region referenced by more than one Face"@,
                OwnershipKind::Face => "Face referenced by more than one Shell"@,
                OwnershipKind::HalfEdge => "HalfEdge referenced by more than one Cycle"@,
                OwnershipKind::Cycle => "Cycle referenced by more than one Region"@,
            },
    {
        match self {
            ObjectNotExclusivelyOwned::Region { .. } => String::from_str("Region referenced by more than one Face"),
            ObjectNotExclusivelyOwned::Face { .. } => String::from_str("Face referenced by more than one Shell"),
            ObjectNotExclusivelyOwned::HalfEdge { .. } => String::from_str("HalfEdge referenced by more than one Cycle"),
            ObjectNotExclusivelyOwned::Cycle { .. } => String::from_str("Cycle referenced by more than one Region"),
        }
    }
}

/// Turns each multiple reference into an error of the given kind, in order.
pub fn errors_of_kind(multiples: Vec<MultipleReferences>, kind: OwnershipKind, errors: &mut Vec<ObjectNotExclusivelyOwned>)
    ensures
        final(errors)@.len() == old(errors)@.len() + multiples@.len(),
        final(errors)@.subrange(0, old(errors)@.len() as int) == old(errors)@,
        forall|i: int| 0 <= i < multiples@.len() ==> {
            &&& (#[trigger] final(errors)@[old(errors)@.len() + i]).kind() == kind
            &&& final(errors)@[old(errors)@.len() + i].references_spec() == multiples@[i]@
        },
{
    let n = multiples.len();
    let start = errors.len();
    let mut i: usize = 0;
    while i < n
        invariant
            n == multiples@.len(),
            start == old(errors)@.len(),
            i <= n,
            errors@.len() == start + i,
            errors@.subrange(0, start as int) == old(errors)@,
            forall|k: int| 0 <= k < i ==> {
                &&& (#[trigger] errors@[start + k]).kind() == kind
                &&& errors@[start + k].references_spec() == multiples@[k]@
            },
        decreases n - i,
    {
        let references = multiples[i].duplicate();
        let e = match kind {
            OwnershipKind::Region => ObjectNotExclusivelyOwned::Region { references },
            OwnershipKind::Face => ObjectNotExclusivelyOwned::Face { references },
            OwnershipKind::HalfEdge => ObjectNotExclusivelyOwned::HalfEdge { references },
            OwnershipKind::Cycle => ObjectNotExclusivelyOwned::Cycle { references },
        };
        let ghost before = errors@;
        errors.push(e);
        proof {
            assert(errors@.subrange(0, start as int) =~= before.subrange(0, start as int));
            assert forall|k: int| 0 <= k < i + 1 implies {
                &&& (#[trigger] errors@[start + k]).kind() == kind
                &&& errors@[start + k].references_spec() == multiples@[k]@
            } by {
                if k < i {
                    assert(errors@[start + k] == before[start + k]);
                }
            }
        }
        i = i + 1;
    }
}

/// A region referenced by two distinct faces is reported exactly once,
/// naming both faces; a region referenced by one face, once or twice, is
/// not reported.
pub proof fn lemma_region_of_two_faces(region: Handle, a: Handle, b: Handle)
    requires
        a != b,
    ensures
        multiples(add_ref(add_ref(Seq::empty(), region, a), region, a)) == Seq::<(Handle, Seq<Handle>)>::empty(),
        multiples(add_ref(Seq::empty(), region, a)) == Seq::<(Handle, Seq<Handle>)>::empty(),
        multiples(add_ref(add_ref(Seq::empty(), region, a), region, b)) == seq![(region, seq![a, b])],
{
    let empty = Seq::<(Handle, Seq<Handle>)>::empty();
    let one = add_ref(empty, region, a);
    assert(one =~= seq![(region, seq![a])]);
    assert(one.drop_last() =~= empty);
    assert(one[0].0 == region);
    let two = add_ref(one, region, b);
    let i = choose|i: int| 0 <= i < one.len() && #[trigger] one[i].0 == region;
    assert(i == 0);
    assert(seq![a].push(b) =~= seq![a, b]);
    assert(two =~= seq![(region, seq![a, b])]);
    assert(two.drop_last() =~= empty);
    assert(two.last() == (region, seq![a, b]));
    assert(seq![a, b].len() == 2);
    assert(multiples(empty) == empty);
    assert(seq![a, b][0] != seq![a, b][1]);
    assert(distinct_parents(seq![a, b]));
    assert(multiples(two) == multiples(empty).push(two.last()));
    let same = add_ref(one, region, a);
    assert(seq![a].push(a) =~= seq![a, a]);
    assert(same =~= seq![(region, seq![a, a])]);
    assert(same.drop_last() =~= empty);
    assert(!distinct_parents(seq![a, a])) by {
        assert forall|i: int, j: int| 0 <= i < 2 && 0 <= j < 2 implies seq![a, a][i] == seq![a, a][j] by {}
    }
    assert(multiples(same) == multiples(empty));
    assert(!distinct_parents(seq![a])) by {
        assert forall|i: int, j: int| 0 <= i < 1 && 0 <= j < 1 implies seq![a][i] == seq![a][j] by {}
    }
    assert(empty.push((region, seq![a, b])) =~= seq![(region, seq![a, b])]);
}

} // verus!

verus! {

/// `acc` with a reference from `parent` to each of `children`, in order.
pub open spec fn add_all(acc: References, children: Seq<Handle>, parent: Handle) -> References
    decreases children.len(),
{
    if children.len() == 0 {
        acc
    } else {
        add_ref(add_all(acc, children.drop_last(), parent), children.last(), parent)
    }
}

/// `acc` with the references from each of `parents`, in order, to its
/// children.
pub open spec fn refs_from(acc: References, parents: Seq<Handle>, children: spec_fn(Handle) -> Seq<Handle>) -> References
    decreases parents.len(),
{
    if parents.len() == 0 {
        acc
    } else {
        add_all(refs_from(acc, parents.drop_last(), children), children(parents.last()), parents.last())
    }
}

/// The referenced objects, in the order in which they were first referenced.
pub open spec fn referenced_objects(s: References) -> Seq<Handle> {
    s.map_values(|e: (Handle, Seq<Handle>)| e.0)
}

impl ReferenceCounter {
    /// Records a reference from `parent` to each of `children`, in order.
    pub fn add_references(&mut self, children: &Vec<Handle>, parent: Handle)
        requires
            old(self).wf(),
        ensures
            final(self).wf(),
            final(self)@ == add_all(old(self)@, children@, parent),
    {
        let mut i: usize = 0;
        while i < children.len()
            invariant
                i <= children@.len(),
                self.wf(),
                self@ == add_all(old(self)@, children@.subrange(0, i as int), parent),
            decreases children@.len() - i,
        {
            proof {
                assert(children@.subrange(0, i + 1).drop_last() =~= children@.subrange(0, i as int));
            }
            self.add_reference(children[i], parent);
            i = i + 1;
        }
        proof {
            assert(children@.subrange(0, children@.len() as int) =~= children@);
        }
    }

    /// The referenced objects, in the order in which they were first
    /// referenced.
    pub fn referenced_objects(&self) -> (r: Vec<Handle>)
        ensures
            r@ == referenced_objects(self@),
    {
        let mut r: Vec<Handle> = Vec::new();
        let mut i: usize = 0;
        while i < self.entries.len()
            invariant
                i <= self.entries@.len(),
                r@ == referenced_objects(self@).subrange(0, i as int),
            decreases self.entries@.len() - i,
        {
            r.push(self.entries[i].0);
            proof {
                assert(r@ =~= referenced_objects(self@).subrange(0, i + 1));
            }
            i = i + 1;
        }
        proof {
            assert(r@ =~= referenced_objects(self@));
        }
        r
    }
}

} // verus!

verus! {

/// The faces of each shell.
pub open spec fn shell_faces(stores: &Stores) -> spec_fn(Handle) -> Seq<Handle> {
    |p: Handle| stores.shells.at(p).faces@
}

/// The region of each face.
pub open spec fn face_regions(stores: &Stores) -> spec_fn(Handle) -> Seq<Handle> {
    |p: Handle| seq![stores.faces.at(p).region]
}

/// The cycles of each region: the exterior, then the interiors.
pub open spec fn region_cycles(stores: &Stores) -> spec_fn(Handle) -> Seq<Handle> {
    |p: Handle| seq![stores.regions.at(p).exterior] + stores.regions.at(p).interiors@
}

/// The half-edges of each cycle.
pub open spec fn cycle_half_edges(stores: &Stores) -> spec_fn(Handle) -> Seq<Handle> {
    |p: Handle| stores.cycles.at(p).half_edges@
}

/// Whether every handle that a stored shell, face, region or cycle holds
/// belongs to its store.
pub open spec fn graph_wf(stores: &Stores) -> bool {
    &&& forall|s: Handle, i: int| stores.shells.holds(s) && 0 <= i < stores.shells.at(s).faces@.len()
        ==> stores.faces.holds(#[trigger] stores.shells.at(s).faces@[i])
    &&& forall|f: Handle| stores.faces.holds(f) ==> stores.regions.holds(#[trigger] stores.faces.at(f).region)
    &&& forall|r: Handle| stores.regions.holds(r) ==> stores.cycles.holds(#[trigger] stores.regions.at(r).exterior)
    &&& forall|r: Handle, i: int| stores.regions.holds(r) && 0 <= i < stores.regions.at(r).interiors@.len()
        ==> stores.cycles.holds(#[trigger] stores.regions.at(r).interiors@[i])
    &&& forall|c: Handle, i: int| stores.cycles.holds(c) && 0 <= i < stores.cycles.at(c).half_edges@.len()
        ==> stores.half_edges.holds(#[trigger] stores.cycles.at(c).half_edges@[i])
}

/// The references that validation counts, level by level from the shells.
pub open spec fn face_refs(stores: &Stores, shells: Seq<Handle>) -> References {
    refs_from(Seq::empty(), shells, shell_faces(stores))
}

pub open spec fn region_refs(stores: &Stores, shells: Seq<Handle>) -> References {
    refs_from(Seq::empty(), referenced_objects(face_refs(stores, shells)), face_regions(stores))
}

pub open spec fn cycle_refs(stores: &Stores, shells: Seq<Handle>) -> References {
    refs_from(Seq::empty(), referenced_objects(region_refs(stores, shells)), region_cycles(stores))
}

pub open spec fn half_edge_refs(stores: &Stores, shells: Seq<Handle>) -> References {
    refs_from(Seq::empty(), referenced_objects(cycle_refs(stores, shells)), cycle_half_edges(stores))
}

/// The kind and the references of each error.
pub open spec fn error_views(errors: Seq<ObjectNotExclusivelyOwned>) -> Seq<(OwnershipKind, (Handle, Seq<Handle>))> {
    errors.map_values(|e: ObjectNotExclusivelyOwned| (e.kind(), e.references_spec()))
}

/// Each entry of `s`, tagged with `kind`.
pub open spec fn tagged(kind: OwnershipKind, s: References) -> Seq<(OwnershipKind, (Handle, Seq<Handle>))> {
    s.map_values(|m: (Handle, Seq<Handle>)| (kind, m))
}

/// Appends an error of the given kind for each object with more than one
/// reference in `counter`, in order.
pub fn push_errors(counter: &ReferenceCounter, kind: OwnershipKind, errors: &mut Vec<ObjectNotExclusivelyOwned>)
    ensures
        error_views(final(errors)@) == error_views(old(errors)@) + tagged(kind, multiples(counter@)),
{
    let ms = counter.get_multiples();
    errors_of_kind(ms, kind, errors);
    proof {
        assert(error_views(errors@) =~= error_views(old(errors)@) + tagged(kind, multiples(counter@))) by {
            let n = old(errors)@.len() as int;
            assert forall|i: int| 0 <= i < n implies error_views(errors@)[i] == error_views(old(errors)@)[i] by {
                assert(errors@[i] == errors@.subrange(0, n)[i]);
            }
            assert forall|i: int| n <= i < errors@.len() implies error_views(errors@)[i] == tagged(kind, multiples(counter@))[i - n] by {
                assert(errors@[n + (i - n)] == errors@[i]);
            }
        }
    }
}

fn count_level(
    parents: &Vec<Handle>,
    stores: &Stores,
    Ghost(children): Ghost<spec_fn(Handle) -> Seq<Handle>>,
    level: u8,
) -> (r: ReferenceCounter)
    requires
        graph_wf(stores),
        level == 0 ==> children == shell_faces(stores) && forall|i: int| 0 <= i < parents@.len() ==> stores.shells.holds(#[trigger] parents@[i]),
        level == 1 ==> children == face_regions(stores) && forall|i: int| 0 <= i < parents@.len() ==> stores.faces.holds(#[trigger] parents@[i]),
        level == 2 ==> children == region_cycles(stores) && forall|i: int| 0 <= i < parents@.len() ==> stores.regions.holds(#[trigger] parents@[i]),
        level == 3 ==> children == cycle_half_edges(stores) && forall|i: int| 0 <= i < parents@.len() ==> stores.cycles.holds(#[trigger] parents@[i]),
        level < 4,
    ensures
        r.wf(),
        r@ == refs_from(Seq::empty(), parents@, children),
        forall|i: int| 0 <= i < r@.len() ==> {
            &&& level == 0 ==> stores.faces.holds(#[trigger] r@[i].0)
            &&& level == 1 ==> stores.regions.holds(r@[i].0)
            &&& level == 2 ==> stores.cycles.holds(r@[i].0)
            &&& level == 3 ==> stores.half_edges.holds(r@[i].0)
        },
{
    let mut counter = ReferenceCounter::new();
    let mut i: usize = 0;
    while i < parents.len()
        invariant
            graph_wf(stores),
            level < 4,
            level == 0 ==> children == shell_faces(stores) && forall|i: int| 0 <= i < parents@.len() ==> stores.shells.holds(#[trigger] parents@[i]),
            level == 1 ==> children == face_regions(stores) && forall|i: int| 0 <= i < parents@.len() ==> stores.faces.holds(#[trigger] parents@[i]),
            level == 2 ==> children == region_cycles(stores) && forall|i: int| 0 <= i < parents@.len() ==> stores.regions.holds(#[trigger] parents@[i]),
            level == 3 ==> children == cycle_half_edges(stores) && forall|i: int| 0 <= i < parents@.len() ==> stores.cycles.holds(#[trigger] parents@[i]),
            i <= parents@.len(),
            counter.wf(),
            counter@ == refs_from(Seq::empty(), parents@.subrange(0, i as int), children),
            forall|k: int| 0 <= k < counter@.len() ==> {
                &&& level == 0 ==> stores.faces.holds(#[trigger] counter@[k].0)
                &&& level == 1 ==> stores.regions.holds(counter@[k].0)
                &&& level == 2 ==> stores.cycles.holds(counter@[k].0)
                &&& level == 3 ==> stores.half_edges.holds(counter@[k].0)
            },
        decreases parents@.len() - i,
    {
        let p = parents[i];
        proof {
            assert(parents@.subrange(0, i + 1).drop_last() =~= parents@.subrange(0, i as int));
            assert(parents@.subrange(0, i + 1).last() == p);
        }
        let list: Vec<Handle> = if level == 0 {
            copy_handles(&stores.shells.get(p).faces)
        } else if level == 1 {
            vec![stores.faces.get(p).region]
        } else if level == 2 {
            let region = stores.regions.get(p);
            let mut list = vec![region.exterior];
            let mut k: usize = 0;
            while k < region.interiors.len()
                invariant
                    k <= region.interiors@.len(),
                    list@ == seq![region.exterior] + region.interiors@.subrange(0, k as int),
                decreases region.interiors@.len() - k,
            {
                list.push(region.interiors[k]);
                proof {
                    assert(list@ =~= seq![region.exterior] + region.interiors@.subrange(0, k + 1));
                }
                k = k + 1;
            }
            proof {
                assert(region.interiors@.subrange(0, k as int) =~= region.interiors@);
            }
            list
        } else {
            copy_handles(&stores.cycles.get(p).half_edges)
        };
        proof {
            if level == 1 {
                assert(list@ =~= seq![stores.faces.at(p).region]);
            }
            assert(list@ == children(p));
            assert forall|k: int| 0 <= k < list@.len() implies {
                &&& level == 0 ==> stores.faces.holds(#[trigger] list@[k])
                &&& level == 1 ==> stores.regions.holds(list@[k])
                &&& level == 2 ==> stores.cycles.holds(list@[k])
                &&& level == 3 ==> stores.half_edges.holds(list@[k])
            } by {
                if level == 2 && k > 0 {
                    assert(list@[k] == stores.regions.at(p).interiors@[k - 1]);
                }
            }
        }
        let ghost before = counter@;
        counter.add_references(&list, p);
        proof {
            lemma_add_all_keys(before, list@, p);
        }
        i = i + 1;
    }
    proof {
        assert(parents@.subrange(0, parents@.len() as int) =~= parents@);
    }
    counter
}

/// Adding a reference keeps the referenced objects and their order, and
/// appends the newly referenced one, if any.
proof fn lemma_add_ref_keys(s: References, k: Handle, v: Handle)
    ensures
        ({
            let t = add_ref(s, k, v);
            &&& s.len() <= t.len() <= s.len() + 1
            &&& forall|i: int| 0 <= i < s.len() ==> #[trigger] t[i].0 == s[i].0
            &&& t.len() == s.len() + 1 ==> t.last().0 == k
        }),
{
}

/// Whether `h` is referenced in `s` or one of `children`.
pub open spec fn key_from(s: References, children: Seq<Handle>, h: Handle) -> bool {
    (exists|j: int| 0 <= j < s.len() && s[j].0 == h) || (exists|j: int| 0 <= j < children.len() && children[j] == h)
}

/// Every object referenced after adding references was referenced before
/// or is one of the new children.
proof fn lemma_add_all_keys(s: References, children: Seq<Handle>, parent: Handle)
    ensures
        forall|i: int| 0 <= i < add_all(s, children, parent).len() ==>
            key_from(s, children, #[trigger] add_all(s, children, parent)[i].0),
    decreases children.len(),
{
    let t = add_all(s, children, parent);
    if children.len() == 0 {
        assert forall|i: int| 0 <= i < t.len() implies key_from(s, children, #[trigger] t[i].0) by {
            assert(s[i].0 == t[i].0);
        }
    } else {
        let prev = add_all(s, children.drop_last(), parent);
        lemma_add_all_keys(s, children.drop_last(), parent);
        lemma_add_ref_keys(prev, children.last(), parent);
        assert forall|i: int| 0 <= i < t.len() implies key_from(s, children, #[trigger] t[i].0) by {
            if i < prev.len() {
                assert(t[i].0 == prev[i].0);
                assert(key_from(s, children.drop_last(), prev[i].0));
                if exists|j: int| 0 <= j < children.drop_last().len() && children.drop_last()[j] == prev[i].0 {
                    let j = choose|j: int| 0 <= j < children.drop_last().len() && children.drop_last()[j] == prev[i].0;
                    assert(children[j] == t[i].0);
                }
            } else {
                assert(t[i].0 == children.last());
                assert(children[children.len() - 1] == t[i].0);
            }
        }
    }
}

} // verus!

verus! {

/// Checks that the objects reachable from `shells` are owned exclusively:
/// each face by one shell, each region by one face, each cycle by one
/// region and each half-edge by one cycle.
///
/// Each object is visited once, in the order in which it is first reached.
/// The result holds one error per object with more than one reference,
/// naming all references: first the regions, then the faces, the
/// half-edges and the cycles, each in the order in which they were first
/// referenced. The graph is not changed.
pub fn validate_references(stores: &Stores, shells: &Vec<Handle>) -> (r: Vec<ObjectNotExclusivelyOwned>)
    requires
        graph_wf(stores),
        forall|i: int| 0 <= i < shells@.len() ==> stores.shells.holds(#[trigger] shells@[i]),
    ensures
        error_views(r@) == tagged(OwnershipKind::Region, multiples(region_refs(stores, shells@)))
            + tagged(OwnershipKind::Face, multiples(face_refs(stores, shells@)))
            + tagged(OwnershipKind::HalfEdge, multiples(half_edge_refs(stores, shells@)))
            + tagged(OwnershipKind::Cycle, multiples(cycle_refs(stores, shells@))),
{
    let faces = count_level(shells, stores, Ghost(shell_faces(stores)), 0);
    let face_list = faces.referenced_objects();
    let regions = count_level(&face_list, stores, Ghost(face_regions(stores)), 1);
    let region_list = regions.referenced_objects();
    let cycles = count_level(&region_list, stores, Ghost(region_cycles(stores)), 2);
    let cycle_list = cycles.referenced_objects();
    let half_edges = count_level(&cycle_list, stores, Ghost(cycle_half_edges(stores)), 3);

    let mut errors: Vec<ObjectNotExclusivelyOwned> = Vec::new();
    push_errors(&regions, OwnershipKind::Region, &mut errors);
    push_errors(&faces, OwnershipKind::Face, &mut errors);
    push_errors(&half_edges, OwnershipKind::HalfEdge, &mut errors);
    push_errors(&cycles, OwnershipKind::Cycle, &mut errors);
    proof {
        assert(error_views(Seq::<ObjectNotExclusivelyOwned>::empty()) =~= Seq::empty());
        assert(Seq::<(OwnershipKind, (Handle, Seq<Handle>))>::empty() + tagged(OwnershipKind::Region, multiples(regions@))
            =~= tagged(OwnershipKind::Region, multiples(regions@)));
    }
    errors
}

} // verus!
