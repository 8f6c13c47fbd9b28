use fj_core::cycle::PartialCycle;
use fj_core::geometry::{Geometry, LocalCurveGeom, SurfaceGeom, SurfacePath};
use fj_core::instance::Instance;
use fj_core::math::{Point2, Vector3};
use fj_core::object_set::{Object, ObjectSet};
use fj_core::operations::{make_path_on_surface, update_boundary, update_path};
use fj_core::partial::{PartialCurve, PartialGlobalEdge, PartialHalfEdge, PartialVertex};
use fj_core::storage::{Handle, Store};
use fj_core::sweep::{sweep_half_edge, sweep_vertex, SweepCache};
use fj_core::topology::{Cycle, Face, GlobalEdge, HalfEdge, Region, Shell, Surface};
use fj_core::validate::{validate_references, ObjectNotExclusivelyOwned, ReferenceCounter, ValidationConfig};

fn p(u: i64, v: i64) -> Point2 {
    Point2::new(u, v)
}

#[test]
fn store_handles_are_identities() {
    let mut store: Store<Surface> = Store::new();
    let a = store.insert(Surface {});
    let b = store.insert(Surface {});
    assert_ne!(a, b);
    assert_eq!(a, Handle { id: 0 });
    assert_eq!(b, Handle { id: 1 });
    assert!(a < b);
    assert!(store.contains(b));
    assert!(!store.contains(Handle { id: 2 }));
    assert_eq!(store.len(), 2);
}

#[test]
fn instance_configuration() {
    let default = Instance::new();
    assert_eq!(default.layers.objects.curves.len(), 0);
    assert_eq!(default.layers.objects.vertices.len(), 0);
    assert_eq!(default.layers.objects.cycles.len(), 0);
    assert_eq!(default.layers.objects.regions.len(), 0);
    assert_eq!(default.layers.objects.shells.len(), 0);
    assert_eq!(default.layers.objects.solids.len(), 0);
    assert_eq!(default.layers.validation, ValidationConfig::default());
    let config = ValidationConfig { distinct_min_distance: 5, identical_max_distance: 2 };
    let custom = Instance::with_validation_config(config);
    assert_eq!(custom.layers.validation, config);
    assert_eq!(custom.layers.objects.surfaces.len(), 0);
}

#[test]
fn curve_defined_on_two_surfaces() {
    let mut geometry = Geometry::new();
    let curve = Handle { id: 7 };
    let [s1, s2, s3] = [Handle { id: 1 }, Handle { id: 2 }, Handle { id: 3 }];
    let l1 = LocalCurveGeom { path: SurfacePath::line_from_points(p(0, 0), p(1, 0)) };
    let l2 = LocalCurveGeom { path: SurfacePath::circle_from_radius(3) };
    assert!(geometry.of_curve(curve).is_none());
    geometry.define_curve(curve, s1, l1);
    geometry.define_curve(curve, s2, l2);
    let record = geometry.of_curve(curve).unwrap();
    assert_eq!(record.local_on(s1), Some(l1));
    assert_eq!(record.local_on(s2), Some(l2));
    assert_eq!(record.local_on(s3), None);
    assert!(geometry.of_curve(Handle { id: 8 }).is_none());

    // A new definition on the same surface replaces the old one.
    let l3 = LocalCurveGeom { path: SurfacePath::line_from_points(p(0, 0), p(0, 5)) };
    geometry.define_curve(curve, s1, l3);
    let record = geometry.of_curve(curve).unwrap();
    assert_eq!(record.local_on(s1), Some(l3));
    assert_eq!(record.local_on(s2), Some(l2));
}

#[test]
fn line_segment_round_trip() {
    let surface = Handle { id: 0 };
    let (a, b) = (p(2, 3), p(-4, 9));
    let partial = PartialHalfEdge::default().as_line_segment_from_points(surface, [a, b]);
    let mut instance = Instance::new();
    let half_edge = partial.build(&mut instance.layers.objects);
    let [start, end] = *half_edge.vertices();
    assert_eq!(start.position, 0);
    assert_eq!(end.position, 1);
    let path = half_edge.curve().path;
    assert_eq!(path.point_from_path_coords(start.position), a);
    assert_eq!(path.point_from_path_coords(end.position), b);
    assert_eq!(path.point_from_path_coords(2), p(-10, 15));
    // New global forms: one curve, two distinct vertices.
    assert_eq!(half_edge.curve().global_form, Handle { id: 0 });
    assert_ne!(start.global_form, end.global_form);
    assert_eq!(half_edge.global_form().curve(), &half_edge.curve().global_form);
    assert_eq!(half_edge.global_form().vertices(), &[start.global_form, end.global_form]);
}

#[test]
fn circle_shares_its_vertex() {
    let surface = Handle { id: 0 };
    let partial = PartialHalfEdge::default().as_circle_from_radius(surface, 2);
    let mut instance = Instance::new();
    let half_edge = partial.build(&mut instance.layers.objects);
    let [start, end] = *half_edge.vertices();
    assert_eq!((start.position, end.position), (0, 1));
    assert_eq!(start.global_form, end.global_form);
    assert_eq!(half_edge.curve().path.point_from_path_coords(0), p(2, 0));
    assert_eq!(half_edge.curve().path.point_from_path_coords(1), p(2, 0));
}

#[test]
fn building_twice_gives_equal_objects() {
    let surface = Handle { id: 3 };
    let curve = PartialCurve {
        path: Some(SurfacePath::line_from_points(p(0, 0), p(2, 2))),
        surface: Some(surface),
        global_form: Some(Handle { id: 10 }),
    };
    let vertex = |position: i64, global: u64| PartialVertex {
        position: Some(position),
        surface_position: None,
        surface: Some(surface),
        global_form: Some(Handle { id: global }),
    };
    let partial = PartialHalfEdge::default().with_curve(curve).with_vertices([vertex(0, 20), vertex(1, 21)]);
    let mut instance = Instance::new();
    let first = partial.build(&mut instance.layers.objects);
    let second = partial.build(&mut instance.layers.objects);
    assert_eq!(first, second);
    assert_eq!(instance.layers.objects.curves.len(), 0);
    assert_eq!(instance.layers.objects.vertices.len(), 0);
}

#[test]
fn global_form_is_taken_from_partial_global_edge() {
    let surface = Handle { id: 0 };
    let global = PartialGlobalEdge { curve: Some(Handle { id: 4 }), vertices: Some([Handle { id: 5 }, Handle { id: 6 }]) };
    let partial = PartialHalfEdge::default()
        .with_global_form(global)
        .as_line_segment_from_points(surface, [p(0, 0), p(1, 0)]);
    assert_eq!(partial.extract_global_curve(), Some(Handle { id: 4 }));
    let mut instance = Instance::new();
    let half_edge = partial.build(&mut instance.layers.objects);
    assert_eq!(half_edge.curve().global_form, Handle { id: 4 });
    assert_eq!(half_edge.vertices()[0].global_form, Handle { id: 5 });
    assert_eq!(half_edge.vertices()[1].global_form, Handle { id: 6 });
    let rebuilt = PartialGlobalEdge::default()
        .from_curve_and_vertices(half_edge.curve(), half_edge.vertices())
        .build(&instance.layers.objects);
    assert_eq!(&rebuilt, half_edge.global_form());
    assert_eq!(rebuilt, GlobalEdge::new(Handle { id: 4 }, [Handle { id: 5 }, Handle { id: 6 }]));
}

#[test]
fn line_segment_from_vertices() {
    let surface = Handle { id: 1 };
    let vertex = |position: i64, u: i64, v: i64| PartialVertex {
        position: Some(position),
        surface_position: Some(p(u, v)),
        surface: Some(surface),
        global_form: None,
    };
    let vertices_in = [vertex(5, 1, 1), vertex(7, 4, 5)];
    let partial = PartialHalfEdge::default().with_vertices(vertices_in).as_line_segment();
    let curve = partial.curve.unwrap();
    assert_eq!(curve.surface, Some(surface));
    assert_eq!(curve.path, Some(SurfacePath::Line { origin: p(1, 1), direction: p(3, 4) }));
    // The vertices are kept as they are, curve coordinates included.
    assert_eq!(partial.vertices, Some(vertices_in));
    assert_eq!(partial.vertices.unwrap()[0].position, Some(5));
    assert_eq!(partial.vertices.unwrap()[1].position, Some(7));
}

#[test]
fn polygon_closes() {
    let surface = Handle { id: 0 };
    let mut cycle = PartialCycle::new();
    let points = vec![p(0, 0), p(2, 0), p(2, 2)];
    let indices = cycle.update_as_polygon_from_points(surface, &points);
    assert_eq!(indices, vec![0, 1, 2]);
    let ends: Vec<(Point2, Point2)> = cycle
        .half_edges
        .iter()
        .map(|e| {
            let vs = e.vertices.unwrap();
            (vs[0].surface_position.unwrap(), vs[1].surface_position.unwrap())
        })
        .collect();
    assert_eq!(ends, vec![(p(0, 0), p(2, 0)), (p(2, 0), p(2, 2)), (p(2, 2), p(0, 0))]);
}

#[test]
fn connected_edges_close() {
    let surface = Handle { id: 0 };
    let mut bottom = PartialCycle::new();
    bottom.update_as_polygon_from_points(surface, &vec![p(0, 0), p(1, 0), p(0, 1)]);
    // Give the bottom edges global vertices: the end of each is the start of the next.
    let v = [Handle { id: 100 }, Handle { id: 101 }, Handle { id: 102 }];
    for i in 0..3 {
        let mut vs = bottom.half_edges[i].vertices.unwrap();
        vs[0].global_form = Some(v[i]);
        vs[1].global_form = Some(v[(i + 1) % 3]);
        bottom.half_edges[i] = bottom.half_edges[i].with_vertices(vs);
    }
    let mut top = PartialCycle::new();
    let other_surface = Handle { id: 1 };
    let indices = top.connect_to_closed_edges(&bottom.half_edges, other_surface);
    assert_eq!(indices, vec![0, 1, 2]);
    for i in 0..3 {
        let this = top.half_edges[i].vertices.unwrap();
        let prev = top.half_edges[(i + 2) % 3].vertices.unwrap();
        assert_eq!(this[0].global_form, prev[1].global_form);
        assert_eq!(this[0].global_form, Some(v[i]));
        assert_eq!(this[0].surface, Some(other_surface));
    }
}

#[test]
fn vertex_positions_are_inferred_from_next_edge() {
    let surface = Handle { id: 0 };
    let start = |u: i64, v: i64| PartialVertex {
        position: None,
        surface_position: Some(p(u, v)),
        surface: Some(surface),
        global_form: Some(Handle { id: (u * 10 + v) as u64 }),
    };
    let empty = PartialVertex::empty();
    let mut cycle = PartialCycle::new();
    for (u, v) in [(0, 0), (3, 0), (0, 3)] {
        let i = cycle.add_half_edge();
        cycle.half_edges[i] = PartialHalfEdge::default().with_vertices([start(u, v), empty]);
    }
    cycle.infer_vertex_positions_if_necessary();
    let ends: Vec<Option<Point2>> = cycle.half_edges.iter().map(|e| e.vertices.unwrap()[1].surface_position).collect();
    assert_eq!(ends, vec![Some(p(3, 0)), Some(p(0, 3)), Some(p(0, 0))]);
    assert_eq!(cycle.half_edges[0].vertices.unwrap()[1].global_form, Some(Handle { id: 30 }));
}

fn instance_with_square() -> (Instance, Handle, Vec<Handle>) {
    let mut instance = Instance::new();
    let surface = instance.layers.objects.surfaces.insert(Surface {});
    instance.layers.geometry.define_surface(surface, SurfaceGeom::xy_plane());
    let mut cycle = PartialCycle::new();
    cycle.update_as_polygon_from_points(surface, &vec![p(0, 0), p(1, 0), p(1, 1), p(0, 1)]);
    cycle.infer_vertex_positions_if_necessary();
    // Share the global vertices between consecutive edges.
    let mut edges = Vec::new();
    let mut first_start = None;
    let mut prev_end = None;
    for i in 0..4 {
        let mut partial = cycle.half_edges[i];
        let mut vs = partial.vertices.unwrap();
        vs[0].global_form = prev_end;
        if i == 3 {
            vs[1].global_form = first_start;
        }
        partial = partial.with_vertices(vs);
        let half_edge = partial.build(&mut instance.layers.objects);
        if i == 0 {
            first_start = Some(half_edge.vertices()[0].global_form);
        }
        prev_end = Some(half_edge.vertices()[1].global_form);
        let curve = half_edge.curve();
        instance
            .layers
            .geometry
            .define_curve(curve.global_form, surface, LocalCurveGeom { path: curve.path });
        edges.push(instance.layers.objects.half_edges.insert(half_edge));
    }
    (instance, surface, edges)
}

#[test]
fn sweep_shares_vertices_between_adjacent_faces() {
    let (mut instance, surface, edges) = instance_with_square();
    let end_of = |instance: &Instance, e: Handle| instance.layers.objects.half_edges.get(e).vertices()[1].global_form;
    let path = Vector3::new(0, 0, 1);
    let mut cache = SweepCache::new();
    let e0_end = end_of(&instance, edges[0]);
    let (face0, top0) = sweep_half_edge(edges[0], e0_end, surface, None, path, &mut cache, &mut instance);
    let e1_end = end_of(&instance, edges[1]);
    let (face1, _) = sweep_half_edge(edges[1], e1_end, surface, None, path, &mut cache, &mut instance);

    let sides = |instance: &Instance, face: Face| {
        let region = instance.layers.objects.regions.get(face.region);
        let cycle: &Cycle = instance.layers.objects.cycles.get(region.exterior);
        cycle.half_edges.clone()
    };
    let s0 = sides(&instance, face0);
    let s1 = sides(&instance, face1);
    assert_eq!(s0.len(), 4);
    assert_eq!(s0[2], top0);
    let up0 = *instance.layers.objects.half_edges.get(s0[1]);
    let down1 = *instance.layers.objects.half_edges.get(s1[3]);
    // The shared vertex was swept once: one curve, one far vertex.
    assert_eq!(up0.curve().global_form, down1.curve().global_form);
    assert_eq!(up0.vertices()[1].global_form, down1.vertices()[0].global_form);
    assert_eq!(up0.vertices()[0].global_form, down1.vertices()[1].global_form);
    assert_ne!(face0.surface, face1.surface);

    // The swept surface is the edge's line, moved along the path.
    let swept = instance.layers.geometry.of_surface(face0.surface);
    assert_eq!(swept.v, path);
    assert_eq!(
        swept.u,
        fj_core::geometry::GlobalPath::Line { origin: Vector3::new(0, 0, 0), direction: Vector3::new(1, 0, 0) }
    );

    // The bottom edge runs along the swept edge's curve.
    let bottom = instance.layers.objects.half_edges.get(s0[0]);
    let source = instance.layers.objects.half_edges.get(edges[0]);
    assert_eq!(bottom.curve().global_form, source.curve().global_form);
    let bottom_geom = instance.layers.geometry.of_half_edge(s0[0]);
    assert_eq!(bottom_geom.path, SurfacePath::Line { origin: p(0, 0), direction: p(1, 0) });
}

#[test]
fn sweep_vertex_is_cached() {
    let mut instance = Instance::new();
    let mut cache = SweepCache::new();
    let v = Handle { id: 9 };
    let first = sweep_vertex(v, &mut cache, &mut instance.layers.objects);
    let again = sweep_vertex(v, &mut cache, &mut instance.layers.objects);
    assert_eq!(first, again);
    let other = sweep_vertex(Handle { id: 10 }, &mut cache, &mut instance.layers.objects);
    assert_ne!(first, other);
    assert_eq!(instance.layers.objects.curves.len(), 2);
}

#[test]
fn sweep_sets_color() {
    let (mut instance, surface, edges) = instance_with_square();
    let end = instance.layers.objects.half_edges.get(edges[2]).vertices()[1].global_form;
    let color = fj_interop::Color([0, 128, 255, 255]);
    let mut cache = SweepCache::new();
    let (face, _) = sweep_half_edge(edges[2], end, surface, Some(color), Vector3::new(0, 0, 2), &mut cache, &mut instance);
    let region: &Region = instance.layers.objects.regions.get(face.region);
    assert_eq!(region.color, Some(color));
    assert!(region.interiors.is_empty());
}

#[test]
fn reference_counter_reports_multiples() {
    let mut counter = ReferenceCounter::new();
    let (r, f1, f2) = (Handle { id: 1 }, Handle { id: 10 }, Handle { id: 11 });
    counter.add_reference(r, f1);
    assert!(counter.get_multiples().is_empty());
    counter.add_reference(Handle { id: 2 }, f1);
    counter.add_reference(r, f2);
    let multiples = counter.get_multiples();
    assert_eq!(multiples.len(), 1);
    assert_eq!(multiples[0].referenced(), r);
    assert_eq!(multiples[0].references(), &vec![f1, f2]);
}

fn two_faces(shared_region: bool) -> (Instance, Vec<Handle>, [Handle; 2]) {
    let mut instance = Instance::new();
    let objects = &mut instance.layers.objects;
    let surface = objects.surfaces.insert(Surface {});
    let cycle_a = objects.cycles.insert(Cycle { half_edges: vec![] });
    let cycle_b = objects.cycles.insert(Cycle { half_edges: vec![] });
    let region_a = objects.regions.insert(Region { exterior: cycle_a, interiors: vec![], color: None });
    let region_b = objects.regions.insert(Region { exterior: cycle_b, interiors: vec![], color: None });
    let face_a = objects.faces.insert(Face { surface, region: region_a });
    let face_b = objects.faces.insert(Face { surface, region: if shared_region { region_a } else { region_b } });
    let shell = objects.shells.insert(Shell { faces: vec![face_a, face_b] });
    (instance, vec![shell], [face_a, face_b])
}

#[test]
fn region_shared_by_two_faces_is_reported_once() {
    let (instance, shells, [face_a, face_b]) = two_faces(true);
    let errors = validate_references(&instance.layers.objects, &shells);
    assert_eq!(errors.len(), 1);
    match &errors[0] {
        ObjectNotExclusivelyOwned::Region { references } => {
            assert_eq!(references.referenced(), Handle { id: 0 });
            assert_eq!(references.references(), &vec![face_a, face_b]);
        }
        _ => panic!("expected a region error"),
    }
    assert_eq!(errors[0].message(), "Region referenced by more than one Face");
}

#[test]
fn exclusively_owned_regions_are_not_reported() {
    let (instance, shells, _) = two_faces(false);
    assert!(validate_references(&instance.layers.objects, &shells).is_empty());
}

#[test]
fn shared_face_cycle_and_half_edge_are_reported() {
    let mut instance = Instance::new();
    let objects = &mut instance.layers.objects;
    let surface = objects.surfaces.insert(Surface {});
    let he = Handle { id: 0 };
    let cycle_a = objects.cycles.insert(Cycle { half_edges: vec![he] });
    let cycle_b = objects.cycles.insert(Cycle { half_edges: vec![he] });
    let region_a = objects.regions.insert(Region { exterior: cycle_a, interiors: vec![cycle_b], color: None });
    let region_b = objects.regions.insert(Region { exterior: cycle_a, interiors: vec![], color: None });
    let face_a = objects.faces.insert(Face { surface, region: region_a });
    let face_b = objects.faces.insert(Face { surface, region: region_b });
    let shell_a = objects.shells.insert(Shell { faces: vec![face_a, face_b] });
    let shell_b = objects.shells.insert(Shell { faces: vec![face_b] });
    // A half-edge to refer to.
    let mut partial_instance = Instance::new();
    let half_edge: HalfEdge = PartialHalfEdge::default()
        .as_line_segment_from_points(surface, [p(0, 0), p(1, 0)])
        .build(&mut partial_instance.layers.objects);
    objects.half_edges.insert(half_edge);

    let errors = validate_references(&instance.layers.objects, &vec![shell_a, shell_b]);
    let kinds: Vec<&str> = errors
        .iter()
        .map(|e| match e {
            ObjectNotExclusivelyOwned::Region { .. } => "region",
            ObjectNotExclusivelyOwned::Face { .. } => "face",
            ObjectNotExclusivelyOwned::HalfEdge { .. } => "half-edge",
            ObjectNotExclusivelyOwned::Cycle { .. } => "cycle",
        })
        .collect();
    assert_eq!(kinds, vec!["face", "half-edge", "cycle"]);
    assert_eq!(errors[0].references().references(), &vec![shell_a, shell_b]);
    assert_eq!(errors[1].references().references(), &vec![cycle_a, cycle_b]);
    assert_eq!(errors[2].references().referenced(), cycle_a);
    assert_eq!(errors[2].references().references(), &vec![region_a, region_b]);
}

#[test]
fn object_set_visits_each_object_once() {
    let (instance, _, [face_a, face_b]) = two_faces(true);
    let set = ObjectSet::from_faces(&instance.layers.objects, &vec![face_a, face_b, face_a]);
    let surface = Handle { id: 0 };
    assert_eq!(
        set.objects(),
        &vec![
            Object::Surface(surface),
            Object::Region(Handle { id: 0 }),
            Object::Cycle(Handle { id: 0 }),
        ]
    );
    assert!(set.contains(Object::Region(Handle { id: 0 })));
    assert!(!set.contains(Object::Cycle(Handle { id: 1 })));
}

#[test]
fn object_set_walks_half_edges() {
    let (mut instance, surface, edges) = instance_with_square();
    let cycle = instance.layers.objects.cycles.insert(Cycle { half_edges: edges.clone() });
    let region = instance.layers.objects.regions.insert(Region { exterior: cycle, interiors: vec![], color: None });
    let face = instance.layers.objects.faces.insert(Face { surface, region });
    let set = ObjectSet::from_faces(&instance.layers.objects, &vec![face]);
    let objects = set.objects();
    // surface, region, cycle, then three objects per half-edge.
    assert_eq!(objects.len(), 3 + 3 * 4);
    assert_eq!(objects[2], Object::Cycle(cycle));
    assert_eq!(objects[3], Object::HalfEdge(edges[0]));
    let first = instance.layers.objects.half_edges.get(edges[0]);
    assert_eq!(objects[4], Object::Vertex(first.vertices()[0].global_form));
    assert_eq!(
        objects[5],
        Object::GlobalEdge {
            curve: first.curve().global_form,
            start: first.vertices()[0].global_form,
            end: first.vertices()[1].global_form,
        }
    );
}

#[test]
fn update_path_and_boundary_store_copies() {
    let (mut instance, surface, edges) = instance_with_square();
    let source = *instance.layers.objects.half_edges.get(edges[0]);
    let moved = update_path(
        edges[0],
        |path| match path {
            SurfacePath::Line { origin, direction } => SurfacePath::Line { origin: Point2::new(origin.u, origin.v + 1), direction },
            other => other,
        },
        &mut instance,
    );
    assert_ne!(moved, edges[0]);
    let copy = *instance.layers.objects.half_edges.get(moved);
    assert_eq!(copy.curve().path, SurfacePath::Line { origin: p(0, 1), direction: p(1, 0) });
    assert_eq!(copy.vertices()[0].curve, *copy.curve());
    assert_eq!(copy.global_form(), source.global_form());
    assert_eq!(instance.layers.geometry.of_half_edge(moved).path, copy.curve().path);
    assert_eq!(*instance.layers.objects.half_edges.get(edges[0]), source);

    let flipped = update_boundary(edges[0], |(a, b)| (b, a), &mut instance);
    let copy = instance.layers.objects.half_edges.get(flipped);
    assert_eq!(copy.vertices()[0].position, 1);
    assert_eq!(copy.vertices()[1].position, 0);
    assert_eq!(copy.curve(), source.curve());
    assert_eq!(instance.layers.geometry.of_half_edge(flipped).path, source.curve().path);

    let curve = make_path_on_surface(Handle { id: 42 }, SurfacePath::circle_from_radius(1), surface, &mut instance.layers.geometry);
    assert_eq!(curve, Handle { id: 42 });
    assert_eq!(
        instance.layers.geometry.of_curve(curve).unwrap().local_on(surface),
        Some(LocalCurveGeom { path: SurfacePath::circle_from_radius(1) })
    );
}

#[test]
fn global_form_is_inferred_once() {
    let surface = Handle { id: 0 };
    let mut partial = PartialHalfEdge::default();
    partial.update_as_line_segment_from_points(surface, [p(0, 0), p(3, 0)]);
    let inferred = partial.global_form.unwrap();
    assert_eq!(inferred, PartialGlobalEdge { curve: None, vertices: None });

    let mut known = partial;
    known.curve = Some(PartialCurve { global_form: Some(Handle { id: 8 }), ..partial.curve.unwrap() });
    let mut vs = known.vertices.unwrap();
    vs[0].global_form = Some(Handle { id: 1 });
    vs[1].global_form = Some(Handle { id: 2 });
    known.vertices = Some(vs);
    let first = known.infer_global_form();
    assert_eq!(first, PartialGlobalEdge { curve: Some(Handle { id: 8 }), vertices: Some([Handle { id: 1 }, Handle { id: 2 }]) });
    let before = known;
    let second = known.infer_global_form();
    assert_eq!(first, second);
    assert_eq!(before, known);
}

#[test]
fn circle_and_line_segment_updates() {
    let surface = Handle { id: 5 };
    let mut circle = PartialHalfEdge::default();
    circle.update_as_circle_from_radius(surface, 4);
    assert_eq!(circle.curve.unwrap().path, Some(SurfacePath::Circle { center: p(0, 0), radius: 4 }));
    assert_eq!(circle.vertices.unwrap()[1].surface_position, Some(p(4, 0)));
    assert!(circle.global_form.is_some());

    let vertex = |u: i64, v: i64| PartialVertex {
        position: None,
        surface_position: Some(p(u, v)),
        surface: None,
        global_form: None,
    };
    let mut segment = PartialHalfEdge::default().with_vertices([vertex(0, 0), PartialVertex { surface: Some(surface), ..vertex(0, 2) }]);
    segment.update_as_line_segment();
    assert_eq!(segment.curve.unwrap().surface, Some(surface));
    assert_eq!(segment.curve.unwrap().path, Some(SurfacePath::Line { origin: p(0, 0), direction: p(0, 2) }));
}

#[test]
fn partial_from_full_builds_back() {
    let surface = Handle { id: 0 };
    let mut instance = Instance::new();
    let full = PartialHalfEdge::default()
        .as_line_segment_from_points(surface, [p(1, 1), p(2, 3)])
        .build(&mut instance.layers.objects);
    let partial = PartialHalfEdge::from(full);
    let rebuilt = partial.build(&mut instance.layers.objects);
    assert_eq!(rebuilt, full);
    let global = PartialGlobalEdge::from(*full.global_form());
    assert_eq!(global.curve, Some(full.curve().global_form));
}

#[test]
fn same_parent_twice_is_not_a_violation() {
    let mut counter = ReferenceCounter::new();
    let (r, f) = (Handle { id: 1 }, Handle { id: 10 });
    counter.add_reference(r, f);
    counter.add_reference(r, f);
    assert!(counter.get_multiples().is_empty());
    counter.add_reference(r, Handle { id: 11 });
    let multiples = counter.get_multiples();
    assert_eq!(multiples.len(), 1);
    assert_eq!(multiples[0].references(), &vec![f, f, Handle { id: 11 }]);
}

#[test]
fn shell_listing_a_face_twice_is_not_a_violation() {
    let mut instance = Instance::new();
    let objects = &mut instance.layers.objects;
    let surface = objects.surfaces.insert(Surface {});
    let cycle = objects.cycles.insert(Cycle { half_edges: vec![] });
    let region = objects.regions.insert(Region { exterior: cycle, interiors: vec![], color: None });
    let face = objects.faces.insert(Face { surface, region });
    let shell = objects.shells.insert(Shell { faces: vec![face, face] });
    assert!(validate_references(&instance.layers.objects, &vec![shell]).is_empty());
}

#[test]
fn line_segment_update_keeps_the_curve_surface() {
    let surface = Handle { id: 6 };
    let vertex = |u: i64, v: i64| PartialVertex {
        position: None,
        surface_position: Some(p(u, v)),
        surface: None,
        global_form: None,
    };
    let mut partial = PartialHalfEdge::default()
        .with_curve(PartialCurve { path: None, surface: Some(surface), global_form: None })
        .with_vertices([vertex(-4096, 0), vertex(4096, 0)]);
    partial.update_as_line_segment();
    let curve = partial.curve.unwrap();
    assert_eq!(curve.surface, Some(surface));
    assert_eq!(curve.path, Some(SurfacePath::Line { origin: p(-4096, 0), direction: p(8192, 0) }));
    // The widest line that two points in range give can still be evaluated.
    assert_eq!(curve.path.unwrap().point_from_path_coords(1), p(4096, 0));
}
