//! The objects of a shape, and the stores that hold them.

use crate::geometry::{GlobalPath, Point2, Point3, SurfaceGeometry, SurfacePath, Vector3};
use crate::validation::{EdgeValidationError, ValidationCheck, ValidationConfig, ValidationError};
use crate::storage::{Handle, Store};
use vstd::prelude::*;

verus! {

/// A curve in space. It has no data of its own: it is what the curves on
/// different surfaces that coincide have in common.
#[derive(Clone, Copy, Debug, PartialEq, Eq, Structural)]
pub struct GlobalCurve;

/// A vertex in space.
#[derive(Clone, Copy, Debug, PartialEq, Eq, Structural)]
pub struct GlobalVertex {
    pub position: Point3,
}

impl GlobalVertex {
    /// The vertex at the given position.
    pub fn from_position(position: Point3) -> (vertex: GlobalVertex)
        ensures
            vertex.position == position,
    {
        GlobalVertex { position }
    }

    /// The position of the vertex.
    pub fn position(&self) -> (position: Point3)
        ensures
            position == self.position,
    {
        self.position
    }
}

/// The two vertices in the order in which an edge keeps them: the one with
/// the smaller identity first.
pub open spec fn normalized_order(vertices: [Handle<GlobalVertex>; 2]) -> [Handle<GlobalVertex>; 2] {
    if vertices[0].id <= vertices[1].id {
        vertices
    } else {
        [vertices[1], vertices[0]]
    }
}

/// An edge in space: a curve and the two vertices that bound it, without a
/// direction.
#[derive(Clone, Copy, Debug, PartialEq, Eq)]
pub struct GlobalEdge {
    pub curve: Handle<GlobalCurve>,
    pub vertices: [Handle<GlobalVertex>; 2],
}

impl GlobalEdge {
    /// The edge on `curve` between the two vertices, whichever comes first.
    pub fn new(curve: Handle<GlobalCurve>, vertices: [Handle<GlobalVertex>; 2]) -> (edge:
        GlobalEdge)
        ensures
            edge.curve == curve,
            edge.vertices == normalized_order(vertices),
    {
        let vertices = if vertices[0].id <= vertices[1].id {
            vertices
        } else {
            [vertices[1], vertices[0]]
        };
        GlobalEdge { curve, vertices }
    }

    /// The curve that the edge is on.
    pub fn curve(&self) -> (curve: Handle<GlobalCurve>)
        ensures
            curve == self.curve,
    {
        self.curve
    }

    /// The vertices that bound the edge, in normalized order.
    pub fn vertices(&self) -> (vertices: [Handle<GlobalVertex>; 2])
        ensures
            vertices == self.vertices,
    {
        self.vertices
    }
}

/// A two-dimensional shape.
#[derive(Clone, Copy, Debug, PartialEq, Eq, Structural)]
pub struct Surface {
    pub geometry: SurfaceGeometry,
}

impl Surface {
    /// Construct a `Surface` from the path and the vector that define its
    /// coordinate system.
    pub fn new(u: GlobalPath, v: Vector3) -> (surface: Surface)
        ensures
            surface.geometry == (SurfaceGeometry { u, v }),
    {
        Surface { geometry: SurfaceGeometry { u, v } }
    }

    /// Access the path that defines the u-coordinate of this surface.
    pub fn u(&self) -> (u: GlobalPath)
        ensures
            u == self.geometry.u,
    {
        self.geometry.u
    }

    /// Access the vector that defines the v-coordinate of this surface.
    pub fn v(&self) -> (v: Vector3)
        ensures
            v == self.geometry.v,
    {
        self.geometry.v
    }
}

/// A curve on a surface.
#[derive(Clone, Copy, Debug, PartialEq, Eq)]
pub struct Curve {
    pub path: SurfacePath,
    pub surface: Handle<Surface>,
    pub global_form: Handle<GlobalCurve>,
}

impl Curve {
    /// The curve along `path` on `surface` that coincides with `global_form`.
    pub fn new(surface: Handle<Surface>, path: SurfacePath, global_form: Handle<GlobalCurve>) -> (curve:
        Curve)
        ensures
            curve == (Curve { path, surface, global_form }),
    {
        Curve { path, surface, global_form }
    }
}

/// A vertex on a surface.
#[derive(Clone, Copy, Debug, PartialEq, Eq)]
pub struct SurfaceVertex {
    pub position: Point2,
    pub surface: Handle<Surface>,
    pub global_form: Handle<GlobalVertex>,
}

impl SurfaceVertex {
    /// The vertex at `position` on `surface` that coincides with
    /// `global_form`.
    pub fn new(position: Point2, surface: Handle<Surface>, global_form: Handle<GlobalVertex>) -> (vertex:
        SurfaceVertex)
        ensures
            vertex == (SurfaceVertex { position, surface, global_form }),
    {
        SurfaceVertex { position, surface, global_form }
    }
}

/// A vertex on a curve.
#[derive(Clone, Copy, Debug, PartialEq, Eq)]
pub struct Vertex {
    pub position: i64,
    pub curve: Handle<Curve>,
    pub surface_form: Handle<SurfaceVertex>,
}

impl Vertex {
    /// The vertex at `position` on `curve` that coincides with
    /// `surface_form`.
    pub fn new(position: i64, curve: Handle<Curve>, surface_form: Handle<SurfaceVertex>) -> (vertex:
        Vertex)
        ensures
            vertex == (Vertex { position, curve, surface_form }),
    {
        Vertex { position, curve, surface_form }
    }

    /// The vertex in space that this vertex stands for.
    pub open spec fn global(self) -> Handle<GlobalVertex> {
        self.surface_form.object.global_form
    }

    /// The vertex in space that this vertex stands for.
    pub fn global_form(&self) -> (vertex: Handle<GlobalVertex>)
        ensures
            vertex == self.global(),
    {
        self.surface_form.object.global_form
    }
}

/// A directed edge on a surface, from its first vertex to its second.
#[derive(Clone, Copy, Debug, PartialEq, Eq)]
pub struct HalfEdge {
    pub vertices: [Handle<Vertex>; 2],
    pub global_form: Handle<GlobalEdge>,
}

impl HalfEdge {
    /// The half-edge from the first vertex to the second that coincides
    /// with `global_form`.
    pub fn new(vertices: [Handle<Vertex>; 2], global_form: Handle<GlobalEdge>) -> (half_edge:
        HalfEdge)
        ensures
            half_edge == (HalfEdge { vertices, global_form }),
    {
        HalfEdge { vertices, global_form }
    }

    /// The curve that the half-edge is on: that of its first vertex.
    pub fn curve(&self) -> (curve: Handle<Curve>)
        ensures
            curve == self.vertices[0].object.curve,
    {
        self.vertices[0].object.curve
    }

    /// What is wrong with the half-edge, if anything: the first of these
    /// that holds. Its vertices are on different curves; its curve and its
    /// global form are on different curves in space; its vertices and its
    /// global form have different vertices in space.
    pub open spec fn fault(self) -> Option<EdgeValidationError> {
        let back = self.vertices[0].object;
        let front = self.vertices[1].object;
        let ends = normalized_order([back.global(), front.global()]);
        if back.curve.id != front.curve.id {
            Some(EdgeValidationError::CurveMismatch)
        } else if back.curve.object.global_form.id != self.global_form.object.curve.id {
            Some(EdgeValidationError::GlobalCurveMismatch)
        } else if ends[0].id != self.global_form.object.vertices[0].id || ends[1].id
            != self.global_form.object.vertices[1].id {
            Some(EdgeValidationError::GlobalVertexMismatch)
        } else {
            None
        }
    }

    /// Validates the half-edge.
    pub fn validate(&self) -> (result: Result<(), ValidationError>)
        ensures
            result == match self.fault() {
                Some(fault) => Err::<(), ValidationError>(ValidationError::Edge(fault)),
                None => Ok::<(), ValidationError>(()),
            },
    {
        let back = self.vertices[0].object;
        let front = self.vertices[1].object;
        let a = back.global_form();
        let b = front.global_form();
        let ends = if a.id <= b.id {
            [a, b]
        } else {
            [b, a]
        };
        if back.curve.id != front.curve.id {
            Err(ValidationError::Edge(EdgeValidationError::CurveMismatch))
        } else if back.curve.object.global_form.id != self.global_form.object.curve.id {
            Err(ValidationError::Edge(EdgeValidationError::GlobalCurveMismatch))
        } else if ends[0].id != self.global_form.object.vertices[0].id || ends[1].id
            != self.global_form.object.vertices[1].id {
            Err(ValidationError::Edge(EdgeValidationError::GlobalVertexMismatch))
        } else {
            Ok(())
        }
    }
}

impl ValidationCheck<HalfEdge> for EdgeValidationError {
    open spec fn errors(object: &HalfEdge, config: &ValidationConfig) -> Seq<EdgeValidationError> {
        match object.fault() {
            Some(fault) => seq![fault],
            None => Seq::empty(),
        }
    }

    fn check(object: &HalfEdge, _config: &ValidationConfig) -> (found: Vec<EdgeValidationError>) {
        let mut found: Vec<EdgeValidationError> = Vec::new();
        match object.validate() {
            Err(ValidationError::Edge(fault)) => {
                found.push(fault);
                assert(found@ =~= seq![fault]);
            },
            _ => {},
        }
        found
    }
}

/// A cycle of connected half-edges.
#[derive(Debug, PartialEq, Eq)]
pub struct Cycle {
    pub half_edges: Vec<Handle<HalfEdge>>,
}

impl Cycle {
    /// The cycle of the given half-edges.
    pub fn new(half_edges: Vec<Handle<HalfEdge>>) -> (cycle: Cycle)
        ensures
            cycle.half_edges == half_edges,
    {
        Cycle { half_edges }
    }
}

/// A color: red, green, blue and alpha.
#[derive(Clone, Copy, Debug, PartialEq, Eq)]
pub struct Color(pub [u8; 4]);

/// A region of a surface, which a face or a sketch is made of.
#[derive(Clone, Copy, Debug, PartialEq, Eq)]
pub struct Region {
    /// The color of the region, if it was given one when it was made.
    pub color: Option<Color>,
}

/// A face of a shape: a region on a surface.
#[derive(Clone, Copy, Debug, PartialEq, Eq)]
pub struct Face {
    pub surface: Handle<Surface>,
    pub region: Handle<Region>,
}

impl Face {
    /// The face that `region` bounds on `surface`.
    pub fn new(surface: Handle<Surface>, region: Handle<Region>) -> (face: Face)
        ensures
            face == (Face { surface, region }),
    {
        Face { surface, region }
    }

    /// The surface of the face.
    pub fn surface(&self) -> (surface: Handle<Surface>)
        ensures
            surface == self.surface,
    {
        self.surface
    }

    /// The region that bounds the face.
    pub fn region(&self) -> (region: Handle<Region>)
        ensures
            region == self.region,
    {
        self.region
    }
}

/// A shell: faces that together bound a volume.
#[derive(Debug, PartialEq, Eq)]
pub struct Shell {
    pub faces: Vec<Handle<Face>>,
}

impl Shell {
    /// The shell of the given faces.
    pub fn new(faces: Vec<Handle<Face>>) -> (shell: Shell)
        ensures
            shell.faces == faces,
    {
        Shell { faces }
    }
}

impl Clone for Shell {
    fn clone(&self) -> (copy: Shell)
        ensures
            copy.faces@ == self.faces@,
    {
        let mut faces: Vec<Handle<Face>> = Vec::new();
        let mut i: usize = 0;
        while i < self.faces.len()
            invariant
                i <= self.faces.len(),
                faces@ == self.faces@.take(i as int),
            decreases self.faces.len() - i,
        {
            faces.push(self.faces[i]);
            assert(self.faces@.take(i + 1) =~= self.faces@.take(i as int).push(self.faces@[i as int]));
            i += 1;
        }
        assert(self.faces@.take(i as int) =~= self.faces@);
        Shell { faces }
    }
}

/// A solid: the shells that bound it. Each shell is held with the identity
/// it has.
#[derive(Debug, PartialEq, Eq)]
pub struct Solid {
    pub shells: Vec<Handle<Shell>>,
}

/// What a solid is: its shells, each by its identity and its faces.
pub struct SolidView {
    pub shells: Seq<(u64, Seq<Handle<Face>>)>,
}

impl View for Solid {
    type V = SolidView;

    open spec fn view(&self) -> SolidView {
        SolidView { shells: self.shells@.map_values(|s: Handle<Shell>| (s.id, s.object.faces@)) }
    }
}

impl Solid {
    /// The solid that the given shells bound.
    pub fn new(shells: Vec<Handle<Shell>>) -> (solid: Solid)
        ensures
            solid.shells == shells,
    {
        Solid { shells }
    }
}

/// An object of any kind, as it is in its store.
#[derive(Clone, Copy, Debug, PartialEq, Eq)]
pub enum AnyObject {
    Surface(Handle<Surface>),
    GlobalCurve(Handle<GlobalCurve>),
    GlobalVertex(Handle<GlobalVertex>),
    GlobalEdge(Handle<GlobalEdge>),
    Curve(Handle<Curve>),
    SurfaceVertex(Handle<SurfaceVertex>),
    Vertex(Handle<Vertex>),
    HalfEdge(Handle<HalfEdge>),
    Region(Handle<Region>),
    Face(Handle<Face>),
}

/// An object of any kind that is about to be stored.
#[derive(Clone, Copy, Debug, PartialEq, Eq)]
pub enum AboutToBeStored {
    Surface(Surface),
    GlobalCurve(GlobalCurve),
    GlobalVertex(GlobalVertex),
    GlobalEdge(GlobalEdge),
    Curve(Curve),
    SurfaceVertex(SurfaceVertex),
    Vertex(Vertex),
    HalfEdge(HalfEdge),
    Region(Region),
    Face(Face),
}

/// The stores of all objects that have an identity.
#[derive(Debug)]
pub struct Objects {
    pub surfaces: Store<Surface>,
    pub global_curves: Store<GlobalCurve>,
    pub global_vertices: Store<GlobalVertex>,
    pub global_edges: Store<GlobalEdge>,
    pub curves: Store<Curve>,
    pub surface_vertices: Store<SurfaceVertex>,
    pub vertices: Store<Vertex>,
    pub half_edges: Store<HalfEdge>,
    pub regions: Store<Region>,
    pub faces: Store<Face>,
}

/// What the stores hold: the handles of each kind, oldest first.
pub struct Stored {
    pub surfaces: Seq<Handle<Surface>>,
    pub global_curves: Seq<Handle<GlobalCurve>>,
    pub global_vertices: Seq<Handle<GlobalVertex>>,
    pub global_edges: Seq<Handle<GlobalEdge>>,
    pub curves: Seq<Handle<Curve>>,
    pub surface_vertices: Seq<Handle<SurfaceVertex>>,
    pub vertices: Seq<Handle<Vertex>>,
    pub half_edges: Seq<Handle<HalfEdge>>,
    pub regions: Seq<Handle<Region>>,
    pub faces: Seq<Handle<Face>>,
}

/// The handle that the next object put into a store gets.
pub open spec fn next<T>(handles: Seq<Handle<T>>, object: T) -> Handle<T> {
    Handle { id: handles.len() as u64, object }
}

impl View for Objects {
    type V = Stored;

    open spec fn view(&self) -> Stored {
        Stored {
            surfaces: self.surfaces.handles(),
            global_curves: self.global_curves.handles(),
            global_vertices: self.global_vertices.handles(),
            global_edges: self.global_edges.handles(),
            curves: self.curves.handles(),
            surface_vertices: self.surface_vertices.handles(),
            vertices: self.vertices.handles(),
            half_edges: self.half_edges.handles(),
            regions: self.regions.handles(),
            faces: self.faces.handles(),
        }
    }
}

impl Objects {
    /// Stores that hold nothing yet.
    pub fn new() -> (objects: Objects)
        ensures
            objects@ == (Stored {
                surfaces: Seq::empty(),
                global_curves: Seq::empty(),
                global_vertices: Seq::empty(),
                global_edges: Seq::empty(),
                curves: Seq::empty(),
                surface_vertices: Seq::empty(),
                vertices: Seq::empty(),
                half_edges: Seq::empty(),
                regions: Seq::empty(),
                faces: Seq::empty(),
            }),
    {
        Objects {
            surfaces: Store::new(),
            global_curves: Store::new(),
            global_vertices: Store::new(),
            global_edges: Store::new(),
            curves: Store::new(),
            surface_vertices: Store::new(),
            vertices: Store::new(),
            half_edges: Store::new(),
            regions: Store::new(),
            faces: Store::new(),
        }
    }
}

/// The form that the object will have once it is stored: the object with
/// the next identity of its store.
pub open spec fn stored_as(stored: Stored, object: AboutToBeStored) -> AnyObject {
    match object {
        AboutToBeStored::Surface(o) => AnyObject::Surface(next(stored.surfaces, o)),
        AboutToBeStored::GlobalCurve(o) => AnyObject::GlobalCurve(next(stored.global_curves, o)),
        AboutToBeStored::GlobalVertex(o) => AnyObject::GlobalVertex(next(stored.global_vertices, o)),
        AboutToBeStored::GlobalEdge(o) => AnyObject::GlobalEdge(next(stored.global_edges, o)),
        AboutToBeStored::Curve(o) => AnyObject::Curve(next(stored.curves, o)),
        AboutToBeStored::SurfaceVertex(o) => AnyObject::SurfaceVertex(next(stored.surface_vertices, o)),
        AboutToBeStored::Vertex(o) => AnyObject::Vertex(next(stored.vertices, o)),
        AboutToBeStored::HalfEdge(o) => AnyObject::HalfEdge(next(stored.half_edges, o)),
        AboutToBeStored::Region(o) => AnyObject::Region(next(stored.regions, o)),
        AboutToBeStored::Face(o) => AnyObject::Face(next(stored.faces, o)),
    }
}

/// The stores once the object has been put into the store of its kind.
pub open spec fn store_into(stored: Stored, object: AboutToBeStored) -> Stored {
    match object {
        AboutToBeStored::Surface(o) => Stored { surfaces: stored.surfaces.push(next(stored.surfaces, o)), ..stored },
        AboutToBeStored::GlobalCurve(o) => Stored { global_curves: stored.global_curves.push(next(stored.global_curves, o)), ..stored },
        AboutToBeStored::GlobalVertex(o) => Stored { global_vertices: stored.global_vertices.push(next(stored.global_vertices, o)), ..stored },
        AboutToBeStored::GlobalEdge(o) => Stored { global_edges: stored.global_edges.push(next(stored.global_edges, o)), ..stored },
        AboutToBeStored::Curve(o) => Stored { curves: stored.curves.push(next(stored.curves, o)), ..stored },
        AboutToBeStored::SurfaceVertex(o) => Stored { surface_vertices: stored.surface_vertices.push(next(stored.surface_vertices, o)), ..stored },
        AboutToBeStored::Vertex(o) => Stored { vertices: stored.vertices.push(next(stored.vertices, o)), ..stored },
        AboutToBeStored::HalfEdge(o) => Stored { half_edges: stored.half_edges.push(next(stored.half_edges, o)), ..stored },
        AboutToBeStored::Region(o) => Stored { regions: stored.regions.push(next(stored.regions, o)), ..stored },
        AboutToBeStored::Face(o) => Stored { faces: stored.faces.push(next(stored.faces, o)), ..stored },
    }
}

impl AnyObject {
    /// The identity of the object among all objects: the number of its
    /// kind, and its identity among the objects of that kind.
    pub open spec fn identity(self) -> (u8, u64) {
        match self {
            AnyObject::Surface(h) => (0u8, h.id),
            AnyObject::GlobalCurve(h) => (1u8, h.id),
            AnyObject::GlobalVertex(h) => (2u8, h.id),
            AnyObject::GlobalEdge(h) => (3u8, h.id),
            AnyObject::Curve(h) => (4u8, h.id),
            AnyObject::SurfaceVertex(h) => (5u8, h.id),
            AnyObject::Vertex(h) => (6u8, h.id),
            AnyObject::HalfEdge(h) => (7u8, h.id),
            AnyObject::Region(h) => (8u8, h.id),
            AnyObject::Face(h) => (9u8, h.id),
        }
    }

    /// The identity of the object among all objects.
    pub fn id(&self) -> (id: (u8, u64))
        ensures
            id == self.identity(),
    {
        match self {
            AnyObject::Surface(h) => (0u8, h.id),
            AnyObject::GlobalCurve(h) => (1u8, h.id),
            AnyObject::GlobalVertex(h) => (2u8, h.id),
            AnyObject::GlobalEdge(h) => (3u8, h.id),
            AnyObject::Curve(h) => (4u8, h.id),
            AnyObject::SurfaceVertex(h) => (5u8, h.id),
            AnyObject::Vertex(h) => (6u8, h.id),
            AnyObject::HalfEdge(h) => (7u8, h.id),
            AnyObject::Region(h) => (8u8, h.id),
            AnyObject::Face(h) => (9u8, h.id),
        }
    }

    /// What validating the object finds. Only half-edges can be at fault.
    pub open spec fn faults(self) -> Seq<ValidationError> {
        match self {
            AnyObject::HalfEdge(h) => match h.object.fault() {
                Some(fault) => seq![ValidationError::Edge(fault)],
                None => Seq::empty(),
            },
            _ => Seq::empty(),
        }
    }

    /// Validates the object, and adds the errors found to `errors`.
    pub fn validate(&self, errors: &mut Vec<ValidationError>)
        ensures
            final(errors)@ == old(errors)@ + self.faults(),
    {
        match self {
            AnyObject::HalfEdge(h) => {
                match h.object.validate() {
                    Err(err) => {
                        errors.push(err);
                        assert(errors@ =~= old(errors)@ + seq![err]);
                    },
                    Ok(()) => {
                        assert(errors@ =~= old(errors)@ + Seq::<ValidationError>::empty());
                    },
                }
            },
            _ => {
                assert(errors@ =~= old(errors)@ + Seq::<ValidationError>::empty());
            },
        }
    }
}

impl Objects {
    /// The form that the object will have once it is stored.
    pub fn reserve(&self, object: &AboutToBeStored) -> (reserved: AnyObject)
        ensures
            reserved == stored_as(self@, *object),
    {
        match object {
            AboutToBeStored::Surface(o) => AnyObject::Surface(Handle { id: self.surfaces.objects.len() as u64, object: *o }),
            AboutToBeStored::GlobalCurve(o) => AnyObject::GlobalCurve(Handle { id: self.global_curves.objects.len() as u64, object: *o }),
            AboutToBeStored::GlobalVertex(o) => AnyObject::GlobalVertex(Handle { id: self.global_vertices.objects.len() as u64, object: *o }),
            AboutToBeStored::GlobalEdge(o) => AnyObject::GlobalEdge(Handle { id: self.global_edges.objects.len() as u64, object: *o }),
            AboutToBeStored::Curve(o) => AnyObject::Curve(Handle { id: self.curves.objects.len() as u64, object: *o }),
            AboutToBeStored::SurfaceVertex(o) => AnyObject::SurfaceVertex(Handle { id: self.surface_vertices.objects.len() as u64, object: *o }),
            AboutToBeStored::Vertex(o) => AnyObject::Vertex(Handle { id: self.vertices.objects.len() as u64, object: *o }),
            AboutToBeStored::HalfEdge(o) => AnyObject::HalfEdge(Handle { id: self.half_edges.objects.len() as u64, object: *o }),
            AboutToBeStored::Region(o) => AnyObject::Region(Handle { id: self.regions.objects.len() as u64, object: *o }),
            AboutToBeStored::Face(o) => AnyObject::Face(Handle { id: self.faces.objects.len() as u64, object: *o }),
        }
    }

    /// Puts the object into the store of its kind.
    pub fn insert(&mut self, object: AboutToBeStored) -> (stored: AnyObject)
        ensures
            stored == stored_as(old(self)@, object),
            final(self)@ == store_into(old(self)@, object),
    {
        match object {
            AboutToBeStored::Surface(o) => AnyObject::Surface(self.surfaces.insert(o)),
            AboutToBeStored::GlobalCurve(o) => AnyObject::GlobalCurve(self.global_curves.insert(o)),
            AboutToBeStored::GlobalVertex(o) => AnyObject::GlobalVertex(self.global_vertices.insert(o)),
            AboutToBeStored::GlobalEdge(o) => AnyObject::GlobalEdge(self.global_edges.insert(o)),
            AboutToBeStored::Curve(o) => AnyObject::Curve(self.curves.insert(o)),
            AboutToBeStored::SurfaceVertex(o) => AnyObject::SurfaceVertex(self.surface_vertices.insert(o)),
            AboutToBeStored::Vertex(o) => AnyObject::Vertex(self.vertices.insert(o)),
            AboutToBeStored::HalfEdge(o) => AnyObject::HalfEdge(self.half_edges.insert(o)),
            AboutToBeStored::Region(o) => AnyObject::Region(self.regions.insert(o)),
            AboutToBeStored::Face(o) => AnyObject::Face(self.faces.insert(o)),
        }
    }
}

} // verus!
