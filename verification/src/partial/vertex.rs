//! The partial forms of the vertices on a surface and on a curve.

use crate::geometry::Point2;
use crate::objects::{next, Objects, Stored, Surface, SurfaceVertex, Vertex};
use crate::partial::curve::PartialCurve;
use crate::partial::global_edge::PartialGlobalVertex;
use crate::partial::maybe_partial::{
    merge_options, options_mergeable, options_merged, MaybePartial, PartialObject,
};
use crate::storage::Handle;
use crate::validation::ValidationError;
use vstd::prelude::*;

verus! {

/// A partial [`SurfaceVertex`].
#[derive(Clone, Copy, Debug, PartialEq, Eq)]
pub struct PartialSurfaceVertex {
    /// The position of the vertex on the surface.
    pub position: Option<Point2>,
    /// The surface that the vertex is defined in.
    pub surface: Option<Handle<Surface>>,
    /// The global form of the vertex.
    pub global_form: MaybePartial<PartialGlobalVertex>,
}

impl PartialSurfaceVertex {
    /// The partial vertex of which nothing is known.
    pub fn new() -> (vertex: PartialSurfaceVertex)
        ensures
            vertex == (PartialSurfaceVertex {
                position: None,
                surface: None,
                global_form: MaybePartial::Partial(PartialGlobalVertex { position: None }),
            }),
    {
        PartialSurfaceVertex {
            position: None,
            surface: None,
            global_form: MaybePartial::Partial(PartialGlobalVertex { position: None }),
        }
    }

    /// The partial form of a full vertex: all of it is known.
    pub fn from_full(vertex: &SurfaceVertex) -> (partial: PartialSurfaceVertex)
        ensures
            partial == (PartialSurfaceVertex {
                position: Some(vertex.position),
                surface: Some(vertex.surface),
                global_form: MaybePartial::Full(vertex.global_form),
            }),
    {
        PartialSurfaceVertex {
            position: Some(vertex.position),
            surface: Some(vertex.surface),
            global_form: MaybePartial::Full(vertex.global_form),
        }
    }

    /// Provide a position for the partial vertex, if one is given.
    pub fn with_position(self, position: Option<Point2>) -> (vertex: PartialSurfaceVertex)
        ensures
            vertex == (PartialSurfaceVertex {
                position: if position is Some {
                    position
                } else {
                    self.position
                },
                ..self
            }),
    {
        let mut vertex = self;
        if let Some(position) = position {
            vertex.position = Some(position);
        }
        vertex
    }

    /// Provide a surface for the partial vertex, if one is given.
    pub fn with_surface(self, surface: Option<Handle<Surface>>) -> (vertex: PartialSurfaceVertex)
        ensures
            vertex == (PartialSurfaceVertex {
                surface: if surface is Some {
                    surface
                } else {
                    self.surface
                },
                ..self
            }),
    {
        let mut vertex = self;
        if let Some(surface) = surface {
            vertex.surface = Some(surface);
        }
        vertex
    }

    /// Provide a global form for the partial vertex, if one is given.
    pub fn with_global_form(self, global_form: Option<MaybePartial<PartialGlobalVertex>>) -> (vertex:
        PartialSurfaceVertex)
        ensures
            vertex == (PartialSurfaceVertex {
                global_form: match global_form {
                    Some(global_form) => global_form,
                    None => self.global_form,
                },
                ..self
            }),
    {
        let mut vertex = self;
        if let Some(global_form) = global_form {
            vertex.global_form = global_form;
        }
        vertex
    }
}

impl PartialObject for PartialSurfaceVertex {
    type Full = SurfaceVertex;

    open spec fn mergeable(self, other: Self) -> bool {
        &&& options_mergeable(self.position, other.position)
        &&& options_mergeable(self.surface, other.surface)
        &&& self.global_form.mergeable(other.global_form)
    }

    open spec fn merged(self, other: Self) -> Self {
        PartialSurfaceVertex {
            position: options_merged(self.position, other.position),
            surface: options_merged(self.surface, other.surface),
            global_form: self.global_form.merged(other.global_form),
        }
    }

    open spec fn buildable(self) -> bool {
        &&& self.position is Some
        &&& self.surface is Some
        &&& self.global_form.buildable()
    }

    open spec fn built(self, stored: Stored) -> (Stored, Result<Handle<SurfaceVertex>, ValidationError>) {
        let (after, global_form) = self.global_form.full(stored);
        if global_form is Err {
            (after, Err(global_form->Err_0))
        } else {
            let vertex = SurfaceVertex {
                position: self.position.unwrap(),
                surface: self.surface.unwrap(),
                global_form: global_form->Ok_0,
            };
            let handle = next(after.surface_vertices, vertex);
            (Stored { surface_vertices: after.surface_vertices.push(handle), ..after }, Ok(handle))
        }
    }

    fn merge_with(self, other: Self) -> (merged: Self) {
        PartialSurfaceVertex {
            position: merge_options(self.position, other.position),
            surface: merge_options(self.surface, other.surface),
            global_form: self.global_form.merge_with(other.global_form),
        }
    }

    fn build(self, objects: &mut Objects) -> (result: Result<Handle<SurfaceVertex>, ValidationError>) {
        let position = self.position.unwrap();
        let surface = self.surface.unwrap();
        let global_form = match self.global_form.into_full(objects) {
            Ok(global_form) => global_form,
            Err(err) => {
                return Err(err);
            },
        };
        Ok(objects.surface_vertices.insert(SurfaceVertex::new(position, surface, global_form)))
    }
}

impl MaybePartial<PartialSurfaceVertex> {
    /// The vertex on the given surface: a full vertex stays as it is.
    pub open spec fn on_surface(self, surface: Handle<Surface>) -> MaybePartial<
        PartialSurfaceVertex,
    > {
        match self {
            MaybePartial::Full(vertex) => self,
            MaybePartial::Partial(partial) => MaybePartial::Partial(
                PartialSurfaceVertex { surface: Some(surface), ..partial },
            ),
        }
    }

    /// Puts a partial vertex on the given surface.
    pub fn with_surface(self, surface: Handle<Surface>) -> (vertex: MaybePartial<
        PartialSurfaceVertex,
    >)
        ensures
            vertex == self.on_surface(surface),
    {
        match self {
            MaybePartial::Full(vertex) => MaybePartial::Full(vertex),
            MaybePartial::Partial(partial) => MaybePartial::Partial(
                partial.with_surface(Some(surface)),
            ),
        }
    }
}

/// A partial [`Vertex`].
#[derive(Clone, Copy, Debug, PartialEq, Eq)]
pub struct PartialVertex {
    /// The position of the vertex on the curve.
    pub position: Option<i64>,
    /// The curve that the vertex is defined in.
    pub curve: MaybePartial<PartialCurve>,
    /// The surface form of the vertex.
    pub surface_form: MaybePartial<PartialSurfaceVertex>,
}

impl PartialVertex {
    /// The partial vertex of which nothing is known.
    pub fn new() -> (vertex: PartialVertex)
        ensures
            vertex.position is None,
            vertex.curve == MaybePartial::Partial(
                PartialCurve { path: None, surface: None, global_form: None },
            ),
            vertex.surface_form == MaybePartial::Partial(
                PartialSurfaceVertex {
                    position: None,
                    surface: None,
                    global_form: MaybePartial::Partial(PartialGlobalVertex { position: None }),
                },
            ),
    {
        PartialVertex {
            position: None,
            curve: MaybePartial::Partial(PartialCurve::new()),
            surface_form: MaybePartial::Partial(PartialSurfaceVertex::new()),
        }
    }

    /// The partial form of a full vertex: all of it is known.
    pub fn from_full(vertex: &Vertex) -> (partial: PartialVertex)
        ensures
            partial == (PartialVertex {
                position: Some(vertex.position),
                curve: MaybePartial::Full(vertex.curve),
                surface_form: MaybePartial::Full(vertex.surface_form),
            }),
    {
        PartialVertex {
            position: Some(vertex.position),
            curve: MaybePartial::Full(vertex.curve),
            surface_form: MaybePartial::Full(vertex.surface_form),
        }
    }

    /// Access the surface form of the vertex.
    pub fn surface_form(&self) -> (surface_form: MaybePartial<PartialSurfaceVertex>)
        ensures
            surface_form == self.surface_form,
    {
        self.surface_form
    }

    /// Provide a position for the partial vertex, if one is given.
    pub fn with_position(self, position: Option<i64>) -> (vertex: PartialVertex)
        ensures
            vertex == (PartialVertex {
                position: if position is Some {
                    position
                } else {
                    self.position
                },
                ..self
            }),
    {
        let mut vertex = self;
        if let Some(position) = position {
            vertex.position = Some(position);
        }
        vertex
    }

    /// Provide a curve for the partial vertex, if one is given.
    pub fn with_curve(self, curve: Option<MaybePartial<PartialCurve>>) -> (vertex: PartialVertex)
        ensures
            vertex == (PartialVertex {
                curve: match curve {
                    Some(curve) => curve,
                    None => self.curve,
                },
                ..self
            }),
    {
        let mut vertex = self;
        if let Some(curve) = curve {
            vertex.curve = curve;
        }
        vertex
    }

    /// Whether the vertex can be built once its curve is full: its position
    /// is known, and its surface form is full or lacks nothing but the
    /// surface.
    pub open spec fn on_full_curve_buildable(self) -> bool {
        &&& self.position is Some
        &&& match self.surface_form {
            MaybePartial::Full(_) => true,
            MaybePartial::Partial(partial) => partial.position is Some
                && partial.global_form.buildable(),
        }
    }

    /// Provide a surface form for the partial vertex.
    pub fn with_surface_form(self, surface_form: MaybePartial<PartialSurfaceVertex>) -> (vertex:
        PartialVertex)
        ensures
            vertex == (PartialVertex { surface_form, ..self }),
    {
        let mut vertex = self;
        vertex.surface_form = surface_form;
        vertex
    }
}

impl PartialObject for PartialVertex {
    type Full = Vertex;

    open spec fn mergeable(self, other: Self) -> bool {
        &&& options_mergeable(self.position, other.position)
        &&& self.curve.mergeable(other.curve)
        &&& self.surface_form.mergeable(other.surface_form)
    }

    open spec fn merged(self, other: Self) -> Self {
        PartialVertex {
            position: options_merged(self.position, other.position),
            curve: self.curve.merged(other.curve),
            surface_form: self.surface_form.merged(other.surface_form),
        }
    }

    /// A vertex can be built if its position is known and its curve can be
    /// made full; its surface form is put on the surface of the curve, and
    /// must have all the rest.
    open spec fn buildable(self) -> bool {
        self.curve.buildable() && self.on_full_curve_buildable()
    }

    open spec fn built(self, stored: Stored) -> (Stored, Result<Handle<Vertex>, ValidationError>) {
        let (after_curve, curve) = self.curve.full(stored);
        if curve is Err {
            (after_curve, Err(curve->Err_0))
        } else {
            let (after, surface_form) = self.surface_form.on_surface(
                (curve->Ok_0).object.surface,
            ).full(after_curve);
            if surface_form is Err {
                (after, Err(surface_form->Err_0))
            } else {
                let vertex = Vertex {
                    position: self.position.unwrap(),
                    curve: curve->Ok_0,
                    surface_form: surface_form->Ok_0,
                };
                let handle = next(after.vertices, vertex);
                (Stored { vertices: after.vertices.push(handle), ..after }, Ok(handle))
            }
        }
    }

    fn merge_with(self, other: Self) -> (merged: Self) {
        PartialVertex {
            position: merge_options(self.position, other.position),
            curve: self.curve.merge_with(other.curve),
            surface_form: self.surface_form.merge_with(other.surface_form),
        }
    }

    fn build(self, objects: &mut Objects) -> (result: Result<Handle<Vertex>, ValidationError>) {
        let position = self.position.unwrap();
        let curve = match self.curve.into_full(objects) {
            Ok(curve) => curve,
            Err(err) => {
                return Err(err);
            },
        };
        let surface_form = self.surface_form.with_surface(curve.object.surface);
        let surface_form = match surface_form.into_full(objects) {
            Ok(surface_form) => surface_form,
            Err(err) => {
                return Err(err);
            },
        };
        Ok(objects.vertices.insert(Vertex::new(position, curve, surface_form)))
    }
}

impl MaybePartial<PartialVertex> {
    /// The vertex on the given surface: its surface form is put there,
    /// unless the vertex or the surface form is full.
    pub open spec fn on_surface(self, surface: Handle<Surface>) -> MaybePartial<PartialVertex> {
        match self {
            MaybePartial::Full(vertex) => self,
            MaybePartial::Partial(partial) => MaybePartial::Partial(
                PartialVertex { surface_form: partial.surface_form.on_surface(surface), ..partial },
            ),
        }
    }

    /// Puts the surface form of a partial vertex on the given surface.
    pub fn with_surface(self, surface: Handle<Surface>) -> (vertex: MaybePartial<PartialVertex>)
        ensures
            vertex == self.on_surface(surface),
    {
        match self {
            MaybePartial::Full(vertex) => MaybePartial::Full(vertex),
            MaybePartial::Partial(partial) => {
                let surface_form = partial.surface_form().with_surface(surface);
                MaybePartial::Partial(partial.with_surface_form(surface_form))
            },
        }
    }

    /// The vertex on the given curve: a full vertex stays as it is.
    pub open spec fn on_curve(self, curve: MaybePartial<PartialCurve>) -> MaybePartial<
        PartialVertex,
    > {
        match self {
            MaybePartial::Full(vertex) => self,
            MaybePartial::Partial(partial) => MaybePartial::Partial(
                PartialVertex { curve, ..partial },
            ),
        }
    }

    /// Puts a partial vertex on the given curve.
    pub fn with_curve(self, curve: MaybePartial<PartialCurve>) -> (vertex: MaybePartial<
        PartialVertex,
    >)
        ensures
            vertex == self.on_curve(curve),
    {
        match self {
            MaybePartial::Full(vertex) => MaybePartial::Full(vertex),
            MaybePartial::Partial(partial) => MaybePartial::Partial(
                partial.with_curve(Some(curve)),
            ),
        }
    }
}

} // verus!
