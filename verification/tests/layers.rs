use fj_core::geometry::{GlobalPath, Point2, Point3, SurfacePath, Vector3};
use fj_core::input::{
    Actions, ElementState, Handler, KeyboardInput, MouseButton, VirtualKeyCode,
};
use fj_core::layers::layer::Layer;
use fj_core::layers::presentation::Presentation;
use fj_core::layers::validation::Validation;
use fj_core::objects::{
    AboutToBeStored, AnyObject, Color, Face, GlobalVertex, HalfEdge, Objects, Region, Shell,
    Solid, Surface,
};
use fj_core::operations::{SweepFace, UpdateSolid};
use fj_core::partial::curve::PartialCurve;
use fj_core::partial::edge::PartialHalfEdge;
use fj_core::partial::global_edge::PartialGlobalVertex;
use fj_core::partial::cycle::PartialCycle;
use fj_core::partial::maybe_partial::MaybePartial;
use fj_core::partial::vertex::{PartialSurfaceVertex, PartialVertex};
use fj_core::storage::Handle;
use fj_core::sweep::SweepCache;
use fj_core::validation::{
    EdgeValidationError, ShellValidationError, ValidationConfig, ValidationError,
    ValidationErrors,
};

fn plane() -> Surface {
    Surface::new(
        GlobalPath::Line {
            origin: Point3 { x: 0, y: 0, z: 0 },
            direction: Vector3 { x: 1, y: 0, z: 0 },
        },
        Vector3 { x: 0, y: 0, z: 1 },
    )
}

fn region(id: u64) -> Handle<Region> {
    Handle { id, object: Region { color: None } }
}

const RED: Color = Color([255, 0, 0, 255]);
const BLUE: Color = Color([0, 0, 255, 255]);

#[test]
fn set_color_records_the_color() {
    let mut layer = Layer::new(Presentation::default());
    layer.set_color(region(1), RED);
    layer.set_color(region(2), BLUE);
    layer.set_color(region(1), BLUE);
    assert_eq!(layer.state.color.get(&1), Some(&BLUE));
    assert_eq!(layer.state.color.get(&2), Some(&BLUE));
    assert_eq!(layer.state.color.len(), 2);
}

#[test]
fn derived_region_inherits_color() {
    let mut layer = Layer::new(Presentation::default());
    layer.set_color(region(1), RED);
    layer.derive_object(AnyObject::Region(region(1)), AnyObject::Region(region(5)));
    assert_eq!(layer.state.color.get(&5), Some(&RED));
    assert_eq!(layer.state.color.get(&1), Some(&RED));
}

#[test]
fn derivation_without_color_changes_nothing() {
    let mut layer = Layer::new(Presentation::default());
    layer.set_color(region(1), RED);
    // The original has no color.
    layer.derive_object(AnyObject::Region(region(2)), AnyObject::Region(region(3)));
    // The objects are no regions.
    let surface = Handle { id: 1, object: plane() };
    layer.derive_object(AnyObject::Surface(surface), AnyObject::Region(region(4)));
    layer.derive_object(AnyObject::Region(region(1)), AnyObject::Surface(surface));
    assert_eq!(layer.state.color.len(), 1);
    assert_eq!(layer.state.color.get(&1), Some(&RED));
}

fn vertex(position: i64, u: i64) -> MaybePartial<PartialVertex> {
    MaybePartial::Partial(
        PartialVertex::new().with_position(Some(position)).with_surface_form(
            MaybePartial::Partial(
                PartialSurfaceVertex::new()
                    .with_position(Some(Point2 { u, v: 0 }))
                    .with_global_form(Some(MaybePartial::Partial(PartialGlobalVertex {
                        position: Some(Point3 { x: u, y: 0, z: 0 }),
                    }))),
            ),
        ),
    )
}

fn half_edge(objects: &mut Objects, surface: Handle<Surface>) -> Handle<HalfEdge> {
    PartialHalfEdge::new()
        .with_curve(Some(MaybePartial::Partial(
            PartialCurve::new()
                .with_path(Some(SurfacePath::Line {
                    from: Point2 { u: 0, v: 0 },
                    to: Point2 { u: 1, v: 0 },
                }))
                .with_surface(Some(surface)),
        )))
        .with_vertices(Some([vertex(0, 0), vertex(1, 1)]))
        .build(objects)
        .unwrap()
}

#[test]
fn insert_stores_and_validates() {
    let mut objects = Layer::new(Objects::new());
    let mut validation =
        Layer::new(Validation::with_validation_config(ValidationConfig::default()));

    objects.insert(AboutToBeStored::Surface(plane()), &mut validation);
    assert_eq!(objects.state.surfaces.objects.len(), 1);
    assert_eq!(objects.state.surfaces.objects[0].object, plane());
    assert!(validation.state.errors.is_empty());

    let surface = objects.state.surfaces.objects[0];
    let first = half_edge(&mut objects.state, surface);
    let second = half_edge(&mut objects.state, surface);

    // A valid half-edge is stored without complaint.
    objects.insert(AboutToBeStored::HalfEdge(first.object), &mut validation);
    assert_eq!(objects.state.half_edges.objects.len(), 3);
    assert!(validation.state.errors.is_empty());

    // A half-edge at fault is stored too, and the fault is recorded under
    // its identity.
    let wrong = HalfEdge::new(first.object.vertices, second.object.global_form);
    objects.insert(AboutToBeStored::HalfEdge(wrong), &mut validation);
    assert_eq!(objects.state.half_edges.objects.len(), 4);
    assert_eq!(objects.state.half_edges.objects[3].object, wrong);
    assert_eq!(validation.state.errors.len(), 1);
    assert_eq!(
        validation.state.errors.get(&(7, 3)),
        Some(&ValidationError::Edge(EdgeValidationError::GlobalCurveMismatch))
    );
}

#[test]
fn validation_config_default() {
    let config = ValidationConfig::default();
    assert_eq!(f64::from_bits(config.distinct_min_distance.unsigned_abs()), 5e-7);
    assert_eq!(f64::from_bits(config.identical_max_distance.unsigned_abs()), 5e-14);
}

#[test]
fn validation_errors_hold_the_errors() {
    let errors = ValidationErrors(vec![
        ValidationError::Edge(EdgeValidationError::CurveMismatch),
        ValidationError::Shell(ShellValidationError),
    ]);
    assert_eq!(errors.0.len(), 2);
    assert_eq!(errors.clone(), errors);
}

#[test]
fn add_shells_appends() {
    let mut objects = Objects::new();
    let surface = objects.surfaces.insert(plane());
    let a = objects.faces.insert(Face::new(surface, region(0)));
    let b = objects.faces.insert(Face::new(surface, region(1)));
    let first = Handle { id: 0, object: Shell::new(vec![a]) };
    let second = Handle { id: 1, object: Shell::new(vec![b, a]) };
    let third = Handle { id: 2, object: Shell::new(vec![]) };

    let solid = Solid::new(vec![Handle { id: 0, object: Shell::new(vec![a]) }]);
    let more = solid.add_shells(vec![second, third]);
    assert_eq!(solid.shells, vec![first]);
    assert_eq!(
        more,
        Solid::new(vec![
            Handle { id: 0, object: Shell::new(vec![a]) },
            Handle { id: 1, object: Shell::new(vec![b, a]) },
            Handle { id: 2, object: Shell::new(vec![]) },
        ])
    );
    assert_eq!(more.add_shells(vec![]), more);
}

#[test]
fn sweep_face_makes_a_shell() {
    let mut objects = Objects::new();
    let surface = objects.surfaces.insert(plane());
    let bottom = objects.faces.insert(Face::new(surface, region(0)));
    let sides = vec![Face::new(surface, region(1)), Face::new(surface, region(2))];
    let shell = bottom.sweep_face(sides.clone(), &mut objects);
    assert_eq!(shell.faces.len(), 3);
    assert_eq!(shell.faces[0], bottom);
    assert_eq!(shell.faces[1], Handle { id: 1, object: sides[0] });
    assert_eq!(shell.faces[2], Handle { id: 2, object: sides[1] });
    assert_eq!(objects.faces.objects, shell.faces);
    assert_eq!(bottom.sweep_face(vec![], &mut objects).faces, vec![bottom]);
    assert_eq!(bottom.object.surface(), surface);
    assert_eq!(bottom.object.region(), region(0));
}

#[test]
fn sweep_cache_starts_empty() {
    let mut cache = SweepCache::default();
    assert!(cache.global_vertex.is_empty());
    assert!(cache.global_edge.is_empty());
    let vertex =
        Handle { id: 3, object: GlobalVertex::from_position(Point3 { x: 0, y: 0, z: 1 }) };
    cache.global_vertex.insert(0, vertex);
    assert_eq!(cache.global_vertex.get(&0), Some(&vertex));
}

#[test]
fn actions_start_unset() {
    let actions = Actions::new();
    assert!(!actions.exit);
    assert!(!actions.toggle_model);
    assert!(!actions.toggle_mesh);
}

fn pressed(key: VirtualKeyCode) -> KeyboardInput {
    KeyboardInput { state: ElementState::Pressed, virtual_keycode: Some(key) }
}

#[test]
fn keys_ask_for_actions() {
    let mut handler = Handler::new();
    let mut actions = Actions::new();
    handler.handle_keyboard_input(pressed(VirtualKeyCode::Other), &mut actions);
    handler.handle_keyboard_input(
        KeyboardInput { state: ElementState::Released, virtual_keycode: Some(VirtualKeyCode::Escape) },
        &mut actions,
    );
    handler.handle_keyboard_input(
        KeyboardInput { state: ElementState::Pressed, virtual_keycode: None },
        &mut actions,
    );
    assert_eq!(actions, Actions::new());

    handler.handle_keyboard_input(pressed(VirtualKeyCode::Key1), &mut actions);
    assert_eq!(actions, Actions { exit: false, toggle_model: true, toggle_mesh: false });
    handler.handle_keyboard_input(pressed(VirtualKeyCode::Key2), &mut actions);
    assert_eq!(actions, Actions { exit: false, toggle_model: true, toggle_mesh: true });
    handler.handle_keyboard_input(pressed(VirtualKeyCode::Escape), &mut actions);
    assert_eq!(actions, Actions { exit: true, toggle_model: true, toggle_mesh: true });
    assert_eq!(handler, Handler::new());
}

#[test]
fn buttons_start_and_stop() {
    let mut handler = Handler::new();
    let focus = Some(Point3 { x: 1, y: 2, z: 3 });
    handler.handle_mouse_input(MouseButton::Left, ElementState::Pressed, focus);
    assert!(handler.rotation.active);
    assert_eq!(handler.rotation.focus_point, focus);
    assert!(!handler.movement.started);
    handler.handle_mouse_input(MouseButton::Right, ElementState::Pressed, None);
    assert!(handler.movement.started);
    assert!(handler.rotation.active);
    handler.handle_mouse_input(MouseButton::Left, ElementState::Released, None);
    assert!(!handler.rotation.active);
    assert_eq!(handler.rotation.focus_point, focus);
    handler.handle_mouse_input(MouseButton::Middle, ElementState::Pressed, None);
    assert!(handler.movement.started);
    handler.handle_mouse_input(MouseButton::Right, ElementState::Released, None);
    assert!(!handler.movement.started);
}

#[test]
fn transformed_cycle_is_put_on_its_surface() {
    let surface = Handle { id: 4, object: plane() };
    let a = PartialHalfEdge::line_segment(Point2 { u: 0, v: 0 }, Point2 { u: 1, v: 0 });
    let b = PartialHalfEdge::line_segment(Point2 { u: 1, v: 0 }, Point2 { u: 0, v: 0 });

    let cycle = PartialCycle::transform(Some(Ok(surface)), vec![Ok(a), Ok(b)]).unwrap();
    assert_eq!(cycle.surface, Some(surface));
    assert_eq!(
        cycle.half_edges,
        vec![
            MaybePartial::Partial(a.with_surface(surface)),
            MaybePartial::Partial(b.with_surface(surface)),
        ]
    );

    let bare = PartialCycle::transform(None, vec![Ok(a)]).unwrap();
    assert_eq!(bare.surface, None);
    assert_eq!(bare.half_edges, vec![MaybePartial::Partial(a)]);
    assert_eq!(MaybePartial::Partial(a).into_partial(), a);
}

#[test]
fn transformed_cycle_fails_with_the_first_error() {
    let surface = Handle { id: 4, object: plane() };
    let a = PartialHalfEdge::line_segment(Point2 { u: 0, v: 0 }, Point2 { u: 1, v: 0 });
    let curve = ValidationError::Edge(EdgeValidationError::CurveMismatch);
    let vertex = ValidationError::Edge(EdgeValidationError::GlobalVertexMismatch);
    let shell = ValidationError::Shell(ShellValidationError);

    assert_eq!(
        PartialCycle::transform(Some(Ok(surface)), vec![Ok(a), Err(curve), Err(vertex)]),
        Err(curve)
    );
    assert_eq!(PartialCycle::transform(Some(Err(shell)), vec![Err(curve)]), Err(shell));
    assert_eq!(PartialCycle::transform(None, vec![Err(vertex), Ok(a)]), Err(vertex));
}
