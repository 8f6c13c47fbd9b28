//! The session object that owns the stores, the geometry layer and the
//! validation configuration.

use crate::geometry::Geometry;
use crate::storage::{Handle, Store};
use crate::topology::{Cycle, Face, GlobalCurve, GlobalVertex, HalfEdge, Region, Shell, Solid, Surface};
use crate::validate::ValidationConfig;
use vstd::prelude::*;

verus! {

/// The stores of all topological objects.
pub struct Stores {
    pub curves: Store<GlobalCurve>,
    pub vertices: Store<GlobalVertex>,
    pub surfaces: Store<Surface>,
    pub half_edges: Store<HalfEdge>,
    pub cycles: Store<Cycle>,
    pub regions: Store<Region>,
    pub faces: Store<Face>,
    pub shells: Store<Shell>,
    pub solids: Store<Solid>,
}

impl Stores {
    /// Whether every store can take `n` more objects.
    pub open spec fn has_room(&self, n: nat) -> bool {
        &&& self.curves.has_room(n)
        &&& self.vertices.has_room(n)
        &&& self.surfaces.has_room(n)
        &&& self.half_edges.has_room(n)
        &&& self.cycles.has_room(n)
        &&& self.regions.has_room(n)
        &&& self.faces.has_room(n)
        &&& self.shells.has_room(n)
        &&& self.solids.has_room(n)
    }

    /// Empty stores.
    pub fn new() -> (r: Self)
        ensures
            r.curves@.len() == 0,
            r.vertices@.len() == 0,
            r.surfaces@.len() == 0,
            r.half_edges@.len() == 0,
            r.cycles@.len() == 0,
            r.regions@.len() == 0,
            r.faces@.len() == 0,
            r.shells@.len() == 0,
            r.solids@.len() == 0,
    {
        Stores {
            curves: Store::new(),
            vertices: Store::new(),
            surfaces: Store::new(),
            half_edges: Store::new(),
            cycles: Store::new(),
            regions: Store::new(),
            faces: Store::new(),
            shells: Store::new(),
            solids: Store::new(),
        }
    }

    /// Allocates a new global curve.
    pub fn new_curve(&mut self) -> (h: Handle)
        requires
            old(self).curves.has_room(1),
        ensures
            h == old(self).curves.next_handle(),
            final(self).curves@.len() == old(self).curves@.len() + 1,
            final(self).vertices == old(self).vertices,
            final(self).surfaces == old(self).surfaces,
            final(self).half_edges == old(self).half_edges,
            final(self).cycles == old(self).cycles,
            final(self).regions == old(self).regions,
            final(self).faces == old(self).faces,
            final(self).shells == old(self).shells,
            final(self).solids == old(self).solids,
    {
        self.curves.insert(GlobalCurve {})
    }

    /// Allocates a new global vertex.
    pub fn new_vertex(&mut self) -> (h: Handle)
        requires
            old(self).vertices.has_room(1),
        ensures
            h == old(self).vertices.next_handle(),
            final(self).vertices@.len() == old(self).vertices@.len() + 1,
            final(self).curves == old(self).curves,
            final(self).surfaces == old(self).surfaces,
            final(self).half_edges == old(self).half_edges,
            final(self).cycles == old(self).cycles,
            final(self).regions == old(self).regions,
            final(self).faces == old(self).faces,
            final(self).shells == old(self).shells,
            final(self).solids == old(self).solids,
    {
        self.vertices.insert(GlobalVertex {})
    }
}

/// The data that make up the state of a session.
pub struct Layers {
    /// The stored objects
    pub objects: Stores,
    /// The geometry of the stored objects
    pub geometry: Geometry,
    /// The configuration that validation runs with
    pub validation: ValidationConfig,
}

/// A modeling session: the main entry point of the library.
pub struct Instance {
    /// The layers of data that make up the state of the session
    pub layers: Layers,
}

impl Instance {
    /// A session with empty stores, no geometry and the default validation
    /// configuration.
    pub fn new() -> (r: Self)
        ensures
            r.layers.validation == ValidationConfig::default_spec(),
            r.layers.objects.curves@.len() == 0,
            r.layers.objects.vertices@.len() == 0,
            r.layers.objects.surfaces@.len() == 0,
            r.layers.objects.half_edges@.len() == 0,
            r.layers.objects.cycles@.len() == 0,
            r.layers.objects.regions@.len() == 0,
            r.layers.objects.faces@.len() == 0,
            r.layers.objects.shells@.len() == 0,
            r.layers.objects.solids@.len() == 0,
            forall|h: Handle| r.layers.geometry.surface_geom(h) is None,
            forall|h: Handle| r.layers.geometry.half_edge_geom(h) is None,
            forall|c: Handle, s: Handle| r.layers.geometry.curve_on(c, s) is None,
            forall|c: Handle| !r.layers.geometry.has_curve(c),
    {
        Self::with_validation_config(ValidationConfig::default())
    }

    /// A session with empty stores, no geometry and the given validation
    /// configuration.
    pub fn with_validation_config(config: ValidationConfig) -> (r: Self)
        ensures
            r.layers.validation == config,
            r.layers.objects.curves@.len() == 0,
            r.layers.objects.vertices@.len() == 0,
            r.layers.objects.surfaces@.len() == 0,
            r.layers.objects.half_edges@.len() == 0,
            r.layers.objects.cycles@.len() == 0,
            r.layers.objects.regions@.len() == 0,
            r.layers.objects.faces@.len() == 0,
            r.layers.objects.shells@.len() == 0,
            r.layers.objects.solids@.len() == 0,
            forall|h: Handle| r.layers.geometry.surface_geom(h) is None,
            forall|h: Handle| r.layers.geometry.half_edge_geom(h) is None,
            forall|c: Handle, s: Handle| r.layers.geometry.curve_on(c, s) is None,
            forall|c: Handle| !r.layers.geometry.has_curve(c),
    {
        Instance { layers: Layers { objects: Stores::new(), geometry: Geometry::new(), validation: config } }
    }
}

} // verus!
