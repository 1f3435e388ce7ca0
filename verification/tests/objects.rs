use fj_core::builder::{circular_tuple_windows, CycleBuilder, ONE, ZERO};
use fj_core::geometry::{GlobalPath, Point2, Point3, SurfacePath, Vector3};
use fj_core::objects::{
    AboutToBeStored, AnyObject, Curve, GlobalCurve, GlobalEdge, GlobalVertex, HalfEdge, Objects,
    Surface, SurfaceVertex, Vertex,
};
use fj_core::partial::curve::PartialCurve;
use fj_core::partial::edge::PartialHalfEdge;
use fj_core::partial::global_edge::{PartialGlobalCurve, PartialGlobalEdge, PartialGlobalVertex};
use fj_core::partial::maybe_partial::{merge_options, MaybePartial, PartialObject};
use fj_core::partial::vertex::{PartialSurfaceVertex, PartialVertex};
use fj_core::storage::{Handle, Store};
use fj_core::sweep::{
    sweep_global_vertex, sweep_vertex, GlobalVertexToTop, Sweep, SweepCache, VertexOnSurface,
};
use fj_core::validation::{
    EdgeValidationError, ValidationCheck, ValidationConfig, ValidationError,
};

fn p3(x: i64, y: i64, z: i64) -> Point3 {
    Point3 { x, y, z }
}

fn plane() -> Surface {
    Surface::new(
        GlobalPath::Line { origin: p3(0, 0, 0), direction: Vector3 { x: 1, y: 0, z: 0 } },
        Vector3 { x: 0, y: 0, z: 1 },
    )
}

fn global_vertex(position: Point3) -> MaybePartial<PartialGlobalVertex> {
    MaybePartial::Partial(PartialGlobalVertex { position: Some(position) })
}

/// A vertex of which all is known that building needs, but the curve.
fn vertex(position: i64, on_surface: Point2, in_space: Point3) -> MaybePartial<PartialVertex> {
    MaybePartial::Partial(
        PartialVertex::new().with_position(Some(position)).with_surface_form(
            MaybePartial::Partial(
                PartialSurfaceVertex::new()
                    .with_position(Some(on_surface))
                    .with_global_form(Some(global_vertex(in_space))),
            ),
        ),
    )
}

fn line(from: Point2, to: Point2, surface: Handle<Surface>) -> MaybePartial<PartialCurve> {
    MaybePartial::Partial(
        PartialCurve::new()
            .with_path(Some(SurfacePath::Line { from, to }))
            .with_surface(Some(surface)),
    )
}

#[test]
fn store_gives_identities_in_order() {
    let mut store: Store<GlobalVertex> = Store::new();
    let a = store.insert(GlobalVertex::from_position(p3(1, 2, 3)));
    let b = store.insert(GlobalVertex::from_position(p3(1, 2, 3)));
    assert_eq!(a.id(), 0);
    assert_eq!(b.id(), 1);
    assert_eq!(a.get().position(), p3(1, 2, 3));
    assert!(!a.is_same_object_as(&b));
    assert!(a.is_same_object_as(&a));
    assert_eq!(store.objects, vec![a, b]);
}

#[test]
fn global_edge_orders_its_vertices() {
    let curve = Handle { id: 0, object: GlobalCurve };
    let a = Handle { id: 4, object: GlobalVertex::from_position(p3(0, 0, 0)) };
    let b = Handle { id: 2, object: GlobalVertex::from_position(p3(1, 0, 0)) };
    let edge = GlobalEdge::new(curve, [a, b]);
    assert_eq!(edge.vertices(), [b, a]);
    assert_eq!(GlobalEdge::new(curve, [b, a]).vertices(), [b, a]);
    assert_eq!(edge.curve(), curve);
}

#[test]
fn surface_accessors() {
    let surface = plane();
    assert_eq!(
        surface.u(),
        GlobalPath::Line { origin: p3(0, 0, 0), direction: Vector3 { x: 1, y: 0, z: 0 } }
    );
    assert_eq!(surface.v(), Vector3 { x: 0, y: 0, z: 1 });
}

#[test]
fn options_merge() {
    assert_eq!(merge_options(Some(1), None), Some(1));
    assert_eq!(merge_options(None, Some(2)), Some(2));
    assert_eq!(merge_options(Some(3), Some(3)), Some(3));
    assert_eq!(merge_options::<i64>(None, None), None);
}

#[test]
fn maybe_partial_merge_prefers_full() {
    let full: MaybePartial<PartialGlobalVertex> =
        MaybePartial::Full(Handle { id: 3, object: GlobalVertex::from_position(p3(1, 1, 1)) });
    let partial = global_vertex(p3(2, 2, 2));
    assert_eq!(full.merge_with(partial), full);
    assert_eq!(partial.merge_with(full), full);
    assert_eq!(full.merge_with(full), full);
    let unknown = MaybePartial::Partial(PartialGlobalVertex { position: None });
    assert_eq!(unknown.merge_with(partial), partial);
    assert_eq!(partial.merge_with(unknown), partial);
}

#[test]
fn partial_global_edge_updates_and_merges() {
    let edge = PartialGlobalEdge::new();
    assert_eq!(edge.curve(), MaybePartial::Partial(PartialGlobalCurve));
    assert_eq!(edge.vertices(), None);

    let curve = MaybePartial::Full(Handle { id: 5, object: GlobalCurve });
    let vertices = [global_vertex(p3(0, 0, 0)), global_vertex(p3(1, 0, 0))];
    let with_curve = edge.with_curve(Some(curve));
    assert_eq!(with_curve.curve(), curve);
    assert_eq!(with_curve.with_curve(None).curve(), curve);
    let with_vertices = edge.with_vertices(Some(vertices));
    assert_eq!(with_vertices.vertices(), Some(vertices));
    assert_eq!(with_vertices.with_vertices(None).vertices(), Some(vertices));

    let merged = with_curve.merge_with(with_vertices);
    assert_eq!(merged.curve(), curve);
    assert_eq!(merged.vertices(), Some(vertices));
    let merged = with_vertices.merge_with(with_curve);
    assert_eq!(merged.curve(), curve);
    assert_eq!(merged.vertices(), Some(vertices));
    assert_eq!(edge.merge_with(edge), edge);
}

#[test]
fn partial_global_edge_builds() {
    let mut objects = Objects::new();
    let edge = PartialGlobalEdge::new()
        .with_vertices(Some([global_vertex(p3(0, 0, 0)), global_vertex(p3(1, 0, 0))]));
    let built = edge.build(&mut objects).unwrap();
    assert_eq!(built.id(), 0);
    assert_eq!(objects.global_curves.objects.len(), 1);
    assert_eq!(objects.global_vertices.objects.len(), 2);
    assert_eq!(objects.global_edges.objects, vec![built]);
    assert_eq!(built.object.curve, objects.global_curves.objects[0]);
    assert_eq!(
        built.object.vertices,
        [objects.global_vertices.objects[0], objects.global_vertices.objects[1]]
    );
    assert_eq!(built.object.vertices[1].object.position(), p3(1, 0, 0));

    // The partial form of a full edge builds an equal edge from the same
    // parts.
    let again = PartialGlobalEdge::from_full(&built.object).build(&mut objects).unwrap();
    assert_eq!(again.id(), 1);
    assert_eq!(again.object, built.object);
    assert_eq!(objects.global_vertices.objects.len(), 2);
}

#[test]
fn partial_half_edge_accessors_and_updates() {
    let surface = Handle { id: 0, object: plane() };
    let half_edge = PartialHalfEdge::new();
    assert_eq!(half_edge.curve(), MaybePartial::Partial(PartialCurve::new()));
    assert_eq!(
        half_edge.vertices(),
        [MaybePartial::Partial(PartialVertex::new()), MaybePartial::Partial(PartialVertex::new())]
    );
    assert_eq!(half_edge.global_form(), MaybePartial::Partial(PartialGlobalEdge::new()));
    assert_eq!(half_edge.extract_global_curve(), MaybePartial::Partial(PartialGlobalCurve));

    let back = vertex(ZERO, Point2 { u: 0, v: 0 }, p3(0, 0, 0));
    let front = vertex(ONE, Point2 { u: 1, v: 0 }, p3(1, 0, 0));
    let updated = half_edge.with_back_vertex(back).with_front_vertex(front);
    assert_eq!(updated.vertices(), [back, front]);
    assert_eq!(half_edge.with_vertices(Some([back, front])).vertices(), [back, front]);
    assert_eq!(updated.with_vertices(None).vertices(), [back, front]);

    let curve = line(Point2 { u: 0, v: 0 }, Point2 { u: 1, v: 0 }, surface);
    assert_eq!(half_edge.with_curve(Some(curve)).curve(), curve);
    assert_eq!(half_edge.with_curve(Some(curve)).with_curve(None).curve(), curve);

    let global_curve = MaybePartial::Full(Handle { id: 9, object: GlobalCurve });
    let global_form =
        MaybePartial::Partial(PartialGlobalEdge::new().with_curve(Some(global_curve)));
    let with_global = half_edge.with_global_form(Some(global_form));
    assert_eq!(with_global.global_form(), global_form);
    assert_eq!(with_global.with_global_form(None).global_form(), global_form);
    // The global curve is taken from the global form while the curve has
    // none, and from the curve once it has one.
    assert_eq!(with_global.extract_global_curve(), global_curve);
    let other = MaybePartial::Full(Handle { id: 4, object: GlobalCurve });
    let with_both = with_global.with_curve(Some(MaybePartial::Partial(
        PartialCurve::new().with_global_form(Some(other)),
    )));
    assert_eq!(with_both.extract_global_curve(), other);
}

#[test]
fn partial_half_edge_with_surface() {
    let surface = Handle { id: 3, object: plane() };
    let half_edge = PartialHalfEdge::line_segment(Point2 { u: 0, v: 0 }, Point2 { u: 5, v: 0 })
        .with_surface(surface);
    match half_edge.curve() {
        MaybePartial::Partial(curve) => assert_eq!(curve.surface, Some(surface)),
        MaybePartial::Full(_) => panic!("the curve is partial"),
    }
    for vertex in half_edge.vertices() {
        match vertex {
            MaybePartial::Partial(vertex) => match vertex.surface_form() {
                MaybePartial::Partial(surface_form) => {
                    assert_eq!(surface_form.surface, Some(surface))
                }
                MaybePartial::Full(_) => panic!("the surface form is partial"),
            },
            MaybePartial::Full(_) => panic!("the vertex is partial"),
        }
    }
}

#[test]
fn partial_half_edge_merges_part_by_part() {
    let surface = Handle { id: 0, object: plane() };
    let back = vertex(ZERO, Point2 { u: 0, v: 0 }, p3(0, 0, 0));
    let front = vertex(ONE, Point2 { u: 1, v: 0 }, p3(1, 0, 0));
    let a = PartialHalfEdge::new().with_back_vertex(back);
    let b = PartialHalfEdge::new()
        .with_front_vertex(front)
        .with_curve(Some(line(Point2 { u: 0, v: 0 }, Point2 { u: 1, v: 0 }, surface)));
    let merged = a.merge_with(b);
    assert_eq!(merged.vertices(), [back, front]);
    assert_eq!(merged.curve(), b.curve());
    assert_eq!(merged.global_form(), a.global_form());
}

fn buildable_half_edge(surface: Handle<Surface>) -> PartialHalfEdge {
    PartialHalfEdge::new()
        .with_curve(Some(line(Point2 { u: 0, v: 0 }, Point2 { u: 1, v: 0 }, surface)))
        .with_vertices(Some([
            vertex(ZERO, Point2 { u: 0, v: 0 }, p3(0, 0, 0)),
            vertex(ONE, Point2 { u: 1, v: 0 }, p3(1, 0, 0)),
        ]))
}

#[test]
fn partial_half_edge_builds() {
    let mut objects = Objects::new();
    let surface = objects.surfaces.insert(plane());
    let built = buildable_half_edge(surface).build(&mut objects).unwrap();

    assert_eq!(objects.half_edges.objects, vec![built]);
    assert_eq!(objects.curves.objects.len(), 1);
    assert_eq!(objects.vertices.objects.len(), 2);
    assert_eq!(objects.surface_vertices.objects.len(), 2);
    assert_eq!(objects.global_vertices.objects.len(), 2);
    assert_eq!(objects.global_curves.objects.len(), 1);
    assert_eq!(objects.global_edges.objects.len(), 1);

    let half_edge = built.object;
    assert_eq!(half_edge.curve(), objects.curves.objects[0]);
    assert_eq!(half_edge.curve().object.surface, surface);
    assert_eq!(half_edge.vertices[0].object.position, ZERO);
    assert_eq!(half_edge.vertices[1].object.position, ONE);
    assert_eq!(half_edge.vertices[0].object.curve, half_edge.vertices[1].object.curve);
    assert_eq!(half_edge.vertices[1].object.surface_form.object.surface, surface);
    assert_eq!(half_edge.vertices[1].object.global_form().object.position(), p3(1, 0, 0));
    assert_eq!(half_edge.global_form.object.curve, half_edge.curve().object.global_form);
    assert_eq!(half_edge.validate(), Ok(()));

    // The partial form of the full half-edge is full in every part, and
    // builds an equal half-edge without storing anything else.
    let again = PartialHalfEdge::from_full(&half_edge).build(&mut objects).unwrap();
    assert_eq!(again.object, half_edge);
    assert_eq!(again.id(), 1);
    assert_eq!(objects.vertices.objects.len(), 2);
}

#[test]
fn half_edge_with_vertices_on_different_curves_is_rejected() {
    let mut objects = Objects::new();
    let surface = objects.surfaces.insert(plane());
    let first = buildable_half_edge(surface).build(&mut objects).unwrap();
    let second = buildable_half_edge(surface).build(&mut objects).unwrap();

    // A full vertex keeps its curve: here the front vertex is on another
    // curve than the back vertex.
    let mixed = PartialHalfEdge::new()
        .with_curve(Some(MaybePartial::Full(first.object.curve())))
        .with_back_vertex(MaybePartial::Full(first.object.vertices[0]))
        .with_front_vertex(MaybePartial::Full(second.object.vertices[1]));
    let stored = objects.half_edges.objects.len();
    assert_eq!(
        mixed.build(&mut objects),
        Err(ValidationError::Edge(EdgeValidationError::CurveMismatch))
    );
    assert_eq!(objects.half_edges.objects.len(), stored);
}

#[test]
fn half_edge_with_another_global_curve_is_rejected() {
    let mut objects = Objects::new();
    let surface = objects.surfaces.insert(plane());
    let first = buildable_half_edge(surface).build(&mut objects).unwrap();
    let second = buildable_half_edge(surface).build(&mut objects).unwrap();
    let wrong = PartialHalfEdge::from_full(&first.object)
        .with_global_form(Some(MaybePartial::Full(second.object.global_form)));
    assert_eq!(
        wrong.build(&mut objects),
        Err(ValidationError::Edge(EdgeValidationError::GlobalCurveMismatch))
    );
}

#[test]
fn half_edge_with_other_global_vertices_is_rejected() {
    let mut objects = Objects::new();
    let surface = objects.surfaces.insert(plane());
    let first = buildable_half_edge(surface).build(&mut objects).unwrap();
    let elsewhere = objects.global_vertices.insert(GlobalVertex::from_position(p3(9, 9, 9)));
    let global_form = objects.global_edges.insert(GlobalEdge::new(
        first.object.global_form.object.curve,
        [first.object.vertices[0].object.global_form(), elsewhere],
    ));
    let wrong = PartialHalfEdge::from_full(&first.object)
        .with_global_form(Some(MaybePartial::Full(global_form)));
    assert_eq!(
        wrong.build(&mut objects),
        Err(ValidationError::Edge(EdgeValidationError::GlobalVertexMismatch))
    );
    assert_eq!(
        HalfEdge::new(first.object.vertices, global_form).validate(),
        Err(ValidationError::Edge(EdgeValidationError::GlobalVertexMismatch))
    );
}

#[test]
fn validation_check_convenience() {
    let mut objects = Objects::new();
    let surface = objects.surfaces.insert(plane());
    let first = buildable_half_edge(surface).build(&mut objects).unwrap();
    let second = buildable_half_edge(surface).build(&mut objects).unwrap();
    let config = ValidationConfig::default();

    assert_eq!(EdgeValidationError::check(&first.object, &config), vec![]);
    assert_eq!(EdgeValidationError::check_and_return_first_error(&first.object), Ok(()));

    let wrong = HalfEdge::new(first.object.vertices, second.object.global_form);
    assert_eq!(
        EdgeValidationError::check(&wrong, &config),
        vec![EdgeValidationError::GlobalCurveMismatch]
    );
    assert_eq!(
        EdgeValidationError::check_and_return_first_error(&wrong),
        Err(EdgeValidationError::GlobalCurveMismatch)
    );
    assert_eq!(
        EdgeValidationError::check_and_expect_one_error(&wrong),
        EdgeValidationError::GlobalCurveMismatch
    );
}

#[test]
fn trait_and_inherent_build_agree() {
    let mut by_type = Objects::new();
    let mut by_trait = Objects::new();
    let surface = by_type.surfaces.insert(plane());
    by_trait.surfaces.insert(plane());
    let a = buildable_half_edge(surface).build(&mut by_type);
    let b = <PartialHalfEdge as PartialObject>::build(buildable_half_edge(surface), &mut by_trait);
    assert_eq!(a, b);
    let full = MaybePartial::Partial(buildable_half_edge(surface)).into_full(&mut by_type).unwrap();
    assert_eq!(full.id(), 1);
}

#[test]
fn circular_windows() {
    assert_eq!(circular_tuple_windows(&vec![1, 2, 3]), vec![(1, 2), (2, 3), (3, 1)]);
    assert_eq!(circular_tuple_windows(&vec![7]), vec![(7, 7)]);
    assert_eq!(circular_tuple_windows::<i64>(&vec![]), vec![]);
}

#[test]
fn cycle_builder_collects_half_edges() {
    let a = PartialHalfEdge::line_segment(Point2 { u: 0, v: 0 }, Point2 { u: 1, v: 0 });
    let b = PartialHalfEdge::line_segment(Point2 { u: 1, v: 0 }, Point2 { u: 0, v: 0 });
    let builder = CycleBuilder::new();
    assert_eq!(builder.half_edges, vec![]);
    let builder = builder.add_half_edge(a).add_half_edge(b);
    assert_eq!(builder.half_edges, vec![a, b]);
}

#[test]
fn cycle_builder_polygon() {
    let points =
        vec![Point2 { u: 0, v: 0 }, Point2 { u: 4, v: 0 }, Point2 { u: 0, v: 4 }];
    let builder = CycleBuilder::polygon(&points);
    assert_eq!(
        builder.half_edges,
        vec![
            PartialHalfEdge::line_segment(points[0], points[1]),
            PartialHalfEdge::line_segment(points[1], points[2]),
            PartialHalfEdge::line_segment(points[2], points[0]),
        ]
    );
    assert_eq!(CycleBuilder::polygon(&vec![]).half_edges, vec![]);
    let line = PartialHalfEdge::line_segment(points[0], points[1]);
    match line.curve() {
        MaybePartial::Partial(curve) => {
            assert_eq!(curve.path, Some(SurfacePath::Line { from: points[0], to: points[1] }))
        }
        MaybePartial::Full(_) => panic!("the curve is partial"),
    }
}

#[test]
fn cycle_builder_builds_in_order() {
    let mut objects = Objects::new();
    let surface = objects.surfaces.insert(plane());
    let cycle = CycleBuilder::new()
        .add_half_edge(buildable_half_edge(surface))
        .add_half_edge(buildable_half_edge(surface))
        .build(&mut objects)
        .unwrap();
    assert_eq!(cycle.half_edges, objects.half_edges.objects);
    assert_eq!(cycle.half_edges.len(), 2);
    assert_eq!(cycle.half_edges[0].id(), 0);
    assert_eq!(cycle.half_edges[1].id(), 1);
    assert_eq!(CycleBuilder::new().build(&mut objects).unwrap().half_edges, vec![]);
}

#[test]
fn cycle_builder_stops_at_the_first_error() {
    let mut objects = Objects::new();
    let surface = objects.surfaces.insert(plane());
    let first = buildable_half_edge(surface).build(&mut objects).unwrap();
    let second = buildable_half_edge(surface).build(&mut objects).unwrap();
    let wrong = PartialHalfEdge::from_full(&first.object)
        .with_global_form(Some(MaybePartial::Full(second.object.global_form)));
    let stored = objects.half_edges.objects.len();
    let result = CycleBuilder::new()
        .add_half_edge(buildable_half_edge(surface))
        .add_half_edge(wrong)
        .add_half_edge(buildable_half_edge(surface))
        .build(&mut objects);
    assert_eq!(result, Err(ValidationError::Edge(EdgeValidationError::GlobalCurveMismatch)));
    assert_eq!(objects.half_edges.objects.len(), stored + 1);
}

#[test]
fn global_vertex_sweep() {
    let mut objects = Objects::new();
    let bottom = objects.global_vertices.insert(GlobalVertex::from_position(p3(1, 2, 3)));
    let (edge, vertices) = sweep_global_vertex(bottom, p3(1, 2, 4), &mut objects);
    assert_eq!(vertices[0], bottom);
    assert_eq!(vertices[1].object.position(), p3(1, 2, 4));
    assert_eq!(edge.object.vertices, vertices);
    assert_eq!(edge.object.curve, objects.global_curves.objects[0]);
    assert_eq!(objects.global_edges.objects, vec![edge]);
}

#[test]
fn vertex_surface() {
    let mut objects = Objects::new();
    let surface = objects.surfaces.insert(plane());
    let global_curve = objects.global_curves.insert(GlobalCurve);
    let curve = objects.curves.insert(Curve::new(
        surface,
        SurfacePath::Line { from: Point2 { u: ZERO, v: ZERO }, to: Point2 { u: ONE, v: ZERO } },
        global_curve,
    ));
    let global_vertex = objects.global_vertices.insert(GlobalVertex::from_position(p3(0, 0, 0)));
    let surface_vertex = objects.surface_vertices.insert(SurfaceVertex::new(
        Point2 { u: ZERO, v: ZERO },
        surface,
        global_vertex,
    ));
    let vertex = objects.vertices.insert(Vertex::new(ZERO, curve, surface_vertex));

    let half_edge =
        sweep_vertex(vertex, surface, Vector3 { x: 0, y: 0, z: 1 }, p3(0, 0, 1), &mut objects);

    // The half-edge is the line segment from [0, 0] to [0, 1] on the surface.
    let from = Point2 { u: ZERO, v: ZERO };
    let to = Point2 { u: ZERO, v: ONE };
    let swept = half_edge.object;
    assert_eq!(swept.curve().object.path, SurfacePath::Line { from, to });
    assert_eq!(swept.curve().object.surface, surface);
    assert_eq!(swept.vertices[0].object.position, ZERO);
    assert_eq!(swept.vertices[1].object.position, ONE);
    assert_eq!(swept.vertices[0].object.surface_form.object.position, from);
    assert_eq!(swept.vertices[1].object.surface_form.object.position, to);
    assert_eq!(swept.vertices[0].object.global_form(), global_vertex);
    assert_eq!(swept.vertices[1].object.global_form().object.position(), p3(0, 0, 1));
    assert_eq!(swept.validate(), Ok(()));
    assert_eq!(objects.half_edges.objects, vec![half_edge]);
}

#[test]
fn any_object_identity_and_validation() {
    let mut objects = Objects::new();
    let surface = AboutToBeStored::Surface(plane());
    let reserved = objects.reserve(&surface);
    let stored = objects.insert(surface);
    assert_eq!(reserved, stored);
    assert_eq!(stored.id(), (0, 0));
    let vertex = objects.insert(AboutToBeStored::GlobalVertex(GlobalVertex::from_position(p3(
        1, 1, 1,
    ))));
    assert_eq!(vertex.id(), (2, 0));
    let mut errors = Vec::new();
    vertex.validate(&mut errors);
    assert_eq!(errors, vec![]);
    match stored {
        AnyObject::Surface(handle) => assert_eq!(handle.object, plane()),
        _ => panic!("a surface was stored"),
    }
}

#[test]
fn sweep_through_the_trait() {
    let mut by_function = Objects::new();
    let mut by_trait = Objects::new();
    let bottom = by_function.global_vertices.insert(GlobalVertex::from_position(p3(1, 2, 3)));
    by_trait.global_vertices.insert(GlobalVertex::from_position(p3(1, 2, 3)));
    let path = Vector3 { x: 0, y: 0, z: 1 };

    let expected = sweep_global_vertex(bottom, p3(1, 2, 4), &mut by_function);
    let swept = GlobalVertexToTop { vertex: bottom, top: p3(1, 2, 4) }.sweep(path, &mut by_trait);
    assert_eq!(swept, expected);
    assert_eq!(by_trait.global_edges.objects, by_function.global_edges.objects);

    let mut cache = SweepCache::default();
    let again = GlobalVertexToTop { vertex: bottom, top: p3(1, 2, 4) }.sweep_with_cache(
        path,
        &mut cache,
        &mut by_trait,
    );
    assert_eq!(again.1[0], bottom);
    assert_eq!(again.0.id(), 1);
    assert!(cache.global_vertex.is_empty());
}

#[test]
fn vertex_sweep_through_the_trait() {
    let mut objects = Objects::new();
    let surface = objects.surfaces.insert(plane());
    let built = buildable_half_edge(surface).build(&mut objects).unwrap();
    let vertex = built.object.vertices[1];
    let half_edge = VertexOnSurface { vertex, surface, top: p3(1, 0, 1) }
        .sweep(plane().v(), &mut objects);
    assert_eq!(half_edge.id(), 1);
    assert_eq!(half_edge.object.vertices[0].object.global_form(), vertex.object.global_form());
    assert_eq!(
        half_edge.object.curve().object.path,
        SurfacePath::Line {
            from: Point2 { u: vertex.object.position, v: ZERO },
            to: Point2 { u: vertex.object.position, v: ONE },
        }
    );
    assert_eq!(half_edge.object.validate(), Ok(()));
}

#[test]
fn connect_to_edges_starts_where_the_previous_edge_starts() {
    let mut objects = Objects::new();
    let surface = objects.surfaces.insert(plane());
    let first = buildable_half_edge(surface).build(&mut objects).unwrap();
    let second = buildable_half_edge(surface).build(&mut objects).unwrap();
    let a = SurfacePath::Line { from: Point2 { u: 0, v: 0 }, to: Point2 { u: 1, v: 0 } };
    let b = SurfacePath::Line { from: Point2 { u: 1, v: 0 }, to: Point2 { u: 0, v: 0 } };
    let builder = CycleBuilder::connect_to_edges(&vec![(first, a, [0, 10]), (second, b, [20, 30])]);

    assert_eq!(builder.half_edges.len(), 2);
    // The first new half-edge is on the curve of the second edge, and starts
    // where the first edge starts; the second wraps round.
    assert_eq!(
        builder.half_edges[0],
        PartialHalfEdge::on_path(b, [20, 30])
            .with_start_vertex(first.object.vertices[0].object.surface_form)
    );
    assert_eq!(
        builder.half_edges[1],
        PartialHalfEdge::on_path(a, [0, 10])
            .with_start_vertex(second.object.vertices[0].object.surface_form)
    );
    match builder.half_edges[0].vertices()[0] {
        MaybePartial::Partial(back) => {
            assert_eq!(back.position, Some(20));
            assert_eq!(
                back.surface_form(),
                MaybePartial::Full(first.object.vertices[0].object.surface_form)
            );
        }
        MaybePartial::Full(_) => panic!("the back vertex is partial"),
    }
    assert_eq!(CycleBuilder::connect_to_edges(&vec![]).half_edges, vec![]);
}
