//! The partial form of a half-edge.

use crate::objects::{
    next, Curve, HalfEdge, Objects, Stored, Surface, SurfaceVertex, Vertex,
};
use crate::partial::curve::PartialCurve;
use crate::builder::{ONE, ZERO};
use crate::geometry::{Point2, SurfacePath};
use crate::partial::global_edge::{PartialGlobalCurve, PartialGlobalEdge, PartialGlobalVertex};
use crate::partial::maybe_partial::{
    arrays_mergeable, arrays_merged, merge_arrays, MaybePartial, PartialObject,
};
use crate::partial::vertex::{PartialSurfaceVertex, PartialVertex};
use crate::storage::Handle;
use crate::validation::ValidationError;
use vstd::prelude::*;

verus! {

impl MaybePartial<PartialGlobalEdge> {
    /// The curve of the edge, as far as it is known.
    pub open spec fn global_curve(self) -> MaybePartial<PartialGlobalCurve> {
        match self {
            MaybePartial::Full(edge) => MaybePartial::Full(edge.object.curve),
            MaybePartial::Partial(partial) => partial.curve,
        }
    }

    /// Access the curve that the edge is defined in.
    pub fn curve(&self) -> (curve: MaybePartial<PartialGlobalCurve>)
        ensures
            curve == self.global_curve(),
    {
        match self {
            MaybePartial::Full(edge) => MaybePartial::Full(edge.object.curve),
            MaybePartial::Partial(partial) => partial.curve,
        }
    }

    /// The edge with what a curve and two vertices say of it: a full edge
    /// stays as it is, a partial one takes their global forms.
    pub open spec fn informed(self, curve: Handle<Curve>, vertices: [Handle<Vertex>; 2]) -> MaybePartial<
        PartialGlobalEdge,
    > {
        match self {
            MaybePartial::Full(edge) => self,
            MaybePartial::Partial(partial) => MaybePartial::Partial(
                PartialGlobalEdge {
                    curve: MaybePartial::Full(curve.object.global_form),
                    vertices: Some(
                        [
                            MaybePartial::Full(vertices[0].object.global()),
                            MaybePartial::Full(vertices[1].object.global()),
                        ],
                    ),
                },
            ),
        }
    }

    /// Updates a partial edge from the curve and the vertices of a
    /// half-edge.
    pub fn update_from_curve_and_vertices(
        self,
        curve: &Handle<Curve>,
        vertices: &[Handle<Vertex>; 2],
    ) -> (edge: MaybePartial<PartialGlobalEdge>)
        ensures
            edge == self.informed(*curve, *vertices),
    {
        match self {
            MaybePartial::Full(edge) => MaybePartial::Full(edge),
            MaybePartial::Partial(partial) => {
                let back = vertices[0].object.global_form();
                let front = vertices[1].object.global_form();
                MaybePartial::Partial(
                    partial.with_curve(Some(MaybePartial::Full(curve.object.global_form))).with_vertices(
                        Some([MaybePartial::Full(back), MaybePartial::Full(front)]),
                    ),
                )
            },
        }
    }
}

/// A partial [`HalfEdge`].
#[derive(Clone, Copy, Debug, PartialEq, Eq)]
pub struct PartialHalfEdge {
    /// The curve that the half-edge is defined in.
    pub curve: MaybePartial<PartialCurve>,
    /// The vertices that bound the half-edge in the curve.
    pub vertices: [MaybePartial<PartialVertex>; 2],
    /// The global form of the half-edge.
    pub global_form: MaybePartial<PartialGlobalEdge>,
}

impl PartialHalfEdge {
    /// The partial half-edge of which nothing is known.
    pub open spec fn blank() -> PartialHalfEdge {
        let vertex = MaybePartial::Partial(
            PartialVertex {
                position: None,
                curve: MaybePartial::Partial(
                    PartialCurve { path: None, surface: None, global_form: None },
                ),
                surface_form: MaybePartial::Partial(
                    PartialSurfaceVertex {
                        position: None,
                        surface: None,
                        global_form: MaybePartial::Partial(PartialGlobalVertex { position: None }),
                    },
                ),
            },
        );
        PartialHalfEdge {
            curve: MaybePartial::Partial(
                PartialCurve { path: None, surface: None, global_form: None },
            ),
            vertices: [vertex, vertex],
            global_form: MaybePartial::Partial(
                PartialGlobalEdge {
                    curve: MaybePartial::Partial(PartialGlobalCurve),
                    vertices: None,
                },
            ),
        }
    }

    /// The partial half-edge of which nothing is known.
    pub fn new() -> (half_edge: PartialHalfEdge)
        ensures
            half_edge == Self::blank(),
    {
        let vertex = MaybePartial::Partial(PartialVertex::new());
        PartialHalfEdge {
            curve: MaybePartial::Partial(PartialCurve::new()),
            vertices: [vertex, vertex],
            global_form: MaybePartial::Partial(PartialGlobalEdge::new()),
        }
    }

    /// The half-edge along the straight line between two points on a
    /// surface.
    pub fn line_segment(from: Point2, to: Point2) -> (half_edge: PartialHalfEdge)
        ensures
            half_edge == crate::builder::line_segment(from, to),
    {
        let curve = PartialCurve::new().with_path(Some(SurfacePath::Line { from, to }));
        let back = PartialVertex::new().with_position(Some(ZERO)).with_surface_form(
            MaybePartial::Partial(PartialSurfaceVertex::new().with_position(Some(from))),
        );
        let front = PartialVertex::new().with_position(Some(ONE)).with_surface_form(
            MaybePartial::Partial(PartialSurfaceVertex::new().with_position(Some(to))),
        );
        PartialHalfEdge {
            curve: MaybePartial::Partial(curve),
            vertices: [MaybePartial::Partial(back), MaybePartial::Partial(front)],
            global_form: MaybePartial::Partial(PartialGlobalEdge::new()),
        }
    }

    /// The half-edge on the given curve between the two positions on it.
    pub fn on_path(curve: SurfacePath, boundary: [i64; 2]) -> (half_edge: PartialHalfEdge)
        ensures
            half_edge == crate::builder::stretch(curve, boundary),
    {
        let back = PartialVertex::new().with_position(Some(boundary[0]));
        let front = PartialVertex::new().with_position(Some(boundary[1]));
        let half_edge = PartialHalfEdge {
            curve: MaybePartial::Partial(PartialCurve::new().with_path(Some(curve))),
            vertices: [MaybePartial::Partial(back), MaybePartial::Partial(front)],
            global_form: MaybePartial::Partial(PartialGlobalEdge::new()),
        };
        assert(half_edge.vertices =~= crate::builder::stretch(curve, boundary).vertices);
        half_edge
    }

    /// Update the partial half-edge with the vertex on the surface at which
    /// it starts. A back vertex that is full stays as it is.
    pub fn with_start_vertex(self, vertex: Handle<SurfaceVertex>) -> (half_edge: PartialHalfEdge)
        ensures
            half_edge == crate::builder::starting_at(self, vertex),
    {
        let back = match self.vertices[0] {
            MaybePartial::Full(back) => MaybePartial::Full(back),
            MaybePartial::Partial(back) => MaybePartial::Partial(
                back.with_surface_form(MaybePartial::Full(vertex)),
            ),
        };
        let half_edge = PartialHalfEdge {
            curve: self.curve,
            vertices: [back, self.vertices[1]],
            global_form: self.global_form,
        };
        assert(half_edge.vertices =~= crate::builder::starting_at(self, vertex).vertices);
        half_edge
    }

    /// The partial form of a full half-edge: all of it is known.
    pub fn from_full(half_edge: &HalfEdge) -> (partial: PartialHalfEdge)
        ensures
            partial.curve == MaybePartial::<PartialCurve>::Full(
                half_edge.vertices[0].object.curve,
            ),
            partial.vertices[0] == MaybePartial::<PartialVertex>::Full(half_edge.vertices[0]),
            partial.vertices[1] == MaybePartial::<PartialVertex>::Full(half_edge.vertices[1]),
            partial.global_form == MaybePartial::<PartialGlobalEdge>::Full(half_edge.global_form),
    {
        PartialHalfEdge {
            curve: MaybePartial::Full(half_edge.curve()),
            vertices: [
                MaybePartial::Full(half_edge.vertices[0]),
                MaybePartial::Full(half_edge.vertices[1]),
            ],
            global_form: MaybePartial::Full(half_edge.global_form),
        }
    }

    /// Access the curve that the half-edge is defined in.
    pub fn curve(&self) -> (curve: MaybePartial<PartialCurve>)
        ensures
            curve == self.curve,
    {
        self.curve
    }

    /// Access the vertices that bound the half-edge in the curve.
    pub fn vertices(&self) -> (vertices: [MaybePartial<PartialVertex>; 2])
        ensures
            vertices == self.vertices,
    {
        self.vertices
    }

    /// Access the global form of the half-edge.
    pub fn global_form(&self) -> (global_form: MaybePartial<PartialGlobalEdge>)
        ensures
            global_form == self.global_form,
    {
        self.global_form
    }

    /// Extract the global curve from either the curve or the global form.
    ///
    /// If a global curve is available through both, the curve is preferred.
    pub fn extract_global_curve(&self) -> (curve: MaybePartial<PartialGlobalCurve>)
        ensures
            curve == match self.curve.global() {
                Some(curve) => curve,
                None => self.global_form.global_curve(),
            },
    {
        match self.curve.global_form() {
            Some(curve) => curve,
            None => self.global_form.curve(),
        }
    }

    /// Update the partial half-edge with the given surface: its curve and
    /// the surface forms of its vertices are put there, as far as they are
    /// partial.
    pub fn with_surface(self, surface: Handle<Surface>) -> (half_edge: PartialHalfEdge)
        ensures
            half_edge.curve == self.curve.on_surface(surface),
            half_edge.vertices[0] == self.vertices[0].on_surface(surface),
            half_edge.vertices[1] == self.vertices[1].on_surface(surface),
            half_edge.global_form == self.global_form,
    {
        PartialHalfEdge {
            curve: self.curve.with_surface(surface),
            vertices: [
                self.vertices[0].with_surface(surface),
                self.vertices[1].with_surface(surface),
            ],
            global_form: self.global_form,
        }
    }

    /// Update the partial half-edge with the given curve, if one is given.
    pub fn with_curve(self, curve: Option<MaybePartial<PartialCurve>>) -> (half_edge:
        PartialHalfEdge)
        ensures
            half_edge.curve == match curve {
                Some(curve) => curve,
                None => self.curve,
            },
            half_edge.vertices == self.vertices,
            half_edge.global_form == self.global_form,
    {
        let mut half_edge = self;
        if let Some(curve) = curve {
            half_edge.curve = curve;
        }
        half_edge
    }

    /// Update the partial half-edge with the given back vertex.
    pub fn with_back_vertex(self, vertex: MaybePartial<PartialVertex>) -> (half_edge:
        PartialHalfEdge)
        ensures
            half_edge.curve == self.curve,
            half_edge.vertices[0] == vertex,
            half_edge.vertices[1] == self.vertices[1],
            half_edge.global_form == self.global_form,
    {
        PartialHalfEdge {
            curve: self.curve,
            vertices: [vertex, self.vertices[1]],
            global_form: self.global_form,
        }
    }

    /// Update the partial half-edge with the given front vertex.
    pub fn with_front_vertex(self, vertex: MaybePartial<PartialVertex>) -> (half_edge:
        PartialHalfEdge)
        ensures
            half_edge.curve == self.curve,
            half_edge.vertices[0] == self.vertices[0],
            half_edge.vertices[1] == vertex,
            half_edge.global_form == self.global_form,
    {
        PartialHalfEdge {
            curve: self.curve,
            vertices: [self.vertices[0], vertex],
            global_form: self.global_form,
        }
    }

    /// Update the partial half-edge with the given vertices, if any are
    /// given.
    pub fn with_vertices(self, vertices: Option<[MaybePartial<PartialVertex>; 2]>) -> (half_edge:
        PartialHalfEdge)
        ensures
            half_edge.curve == self.curve,
            half_edge.vertices == match vertices {
                Some(vertices) => vertices,
                None => self.vertices,
            },
            half_edge.global_form == self.global_form,
    {
        let mut half_edge = self;
        if let Some(vertices) = vertices {
            half_edge.vertices = vertices;
        }
        half_edge
    }

    /// Update the partial half-edge with the given global form, if one is
    /// given.
    pub fn with_global_form(self, global_form: Option<MaybePartial<PartialGlobalEdge>>) -> (half_edge:
        PartialHalfEdge)
        ensures
            half_edge.curve == self.curve,
            half_edge.vertices == self.vertices,
            half_edge.global_form == match global_form {
                Some(global_form) => global_form,
                None => self.global_form,
            },
    {
        let mut half_edge = self;
        if let Some(global_form) = global_form {
            half_edge.global_form = global_form;
        }
        half_edge
    }

    /// Whether the two half-edges can be merged: their curves, their
    /// vertices and their global forms can.
    pub open spec fn can_merge(self, other: PartialHalfEdge) -> bool {
        &&& self.curve.mergeable(other.curve)
        &&& arrays_mergeable(self.vertices, other.vertices)
        &&& self.global_form.mergeable(other.global_form)
    }

    /// The two half-edges merged, part by part.
    pub open spec fn merge(self, other: PartialHalfEdge) -> PartialHalfEdge {
        PartialHalfEdge {
            curve: self.curve.merged(other.curve),
            vertices: arrays_merged(self.vertices, other.vertices),
            global_form: self.global_form.merged(other.global_form),
        }
    }

    /// Merge this partial object with another.
    pub fn merge_with(self, other: PartialHalfEdge) -> (merged: PartialHalfEdge)
        requires
            self.can_merge(other),
        ensures
            merged == self.merge(other),
    {
        PartialHalfEdge {
            curve: self.curve.merge_with(other.curve),
            vertices: merge_arrays(self.vertices, other.vertices),
            global_form: self.global_form.merge_with(other.global_form),
        }
    }

    /// Whether a vertex can be made full once it is put on a full curve.
    pub open spec fn ready(vertex: MaybePartial<PartialVertex>) -> bool {
        match vertex {
            MaybePartial::Full(_) => true,
            MaybePartial::Partial(partial) => partial.on_full_curve_buildable(),
        }
    }

    /// Whether the half-edge can be built: its curve can be made full, and
    /// so can both vertices once they are on that curve.
    pub open spec fn can_build(self) -> bool {
        &&& self.curve.buildable()
        &&& Self::ready(self.vertices[0])
        &&& Self::ready(self.vertices[1])
    }

    /// What building the half-edge does. The curve is made full; the
    /// vertices are put on it and made full, the back vertex first; the
    /// global form learns of the curve and the vertices and is made full;
    /// the half-edge is validated and stored. The first error ends it.
    pub open spec fn outcome(self, stored: Stored) -> (
        Stored,
        Result<Handle<HalfEdge>, ValidationError>,
    ) {
        let (after_curve, curve) = self.curve.full(stored);
        if curve is Err {
            (after_curve, Err(curve->Err_0))
        } else {
            let on = MaybePartial::<PartialCurve>::Full(curve->Ok_0);
            let (after_back, back) = self.vertices[0].on_curve(on).full(after_curve);
            if back is Err {
                (after_back, Err(back->Err_0))
            } else {
                let (after_front, front) = self.vertices[1].on_curve(on).full(after_back);
                if front is Err {
                    (after_front, Err(front->Err_0))
                } else {
                    let vertices = [back->Ok_0, front->Ok_0];
                    let (after, global_form) = self.global_form.informed(curve->Ok_0, vertices).full(
                        after_front,
                    );
                    if global_form is Err {
                        (after, Err(global_form->Err_0))
                    } else {
                        let half_edge = HalfEdge { vertices, global_form: global_form->Ok_0 };
                        match half_edge.fault() {
                            Some(fault) => (after, Err(ValidationError::Edge(fault))),
                            None => {
                                let handle = next(after.half_edges, half_edge);
                                (
                                    Stored { half_edges: after.half_edges.push(handle), ..after },
                                    Ok(handle),
                                )
                            },
                        }
                    }
                }
            }
        }
    }

    /// Build a full [`HalfEdge`] from the partial half-edge.
    pub fn build(self, objects: &mut Objects) -> (result: Result<Handle<HalfEdge>, ValidationError>)
        requires
            self.can_build(),
        ensures
            (final(objects)@, result) == self.outcome(old(objects)@),
    {
        let curve = match self.curve.into_full(objects) {
            Ok(curve) => curve,
            Err(err) => {
                return Err(err);
            },
        };
        let back = match self.vertices[0].with_curve(MaybePartial::Full(curve)).into_full(objects) {
            Ok(vertex) => vertex,
            Err(err) => {
                return Err(err);
            },
        };
        let front = match self.vertices[1].with_curve(MaybePartial::Full(curve)).into_full(
            objects,
        ) {
            Ok(vertex) => vertex,
            Err(err) => {
                return Err(err);
            },
        };
        let vertices = [back, front];
        let global_form = self.global_form.update_from_curve_and_vertices(&curve, &vertices);
        let global_form = match global_form.into_full(objects) {
            Ok(global_form) => global_form,
            Err(err) => {
                return Err(err);
            },
        };
        let half_edge = HalfEdge::new(vertices, global_form);
        match half_edge.validate() {
            Err(err) => Err(err),
            Ok(()) => Ok(objects.half_edges.insert(half_edge)),
        }
    }
}

impl PartialObject for PartialHalfEdge {
    type Full = HalfEdge;

    open spec fn mergeable(self, other: Self) -> bool {
        self.can_merge(other)
    }

    open spec fn merged(self, other: Self) -> Self {
        self.merge(other)
    }

    open spec fn buildable(self) -> bool {
        self.can_build()
    }

    open spec fn built(self, stored: Stored) -> (Stored, Result<Handle<HalfEdge>, ValidationError>) {
        self.outcome(stored)
    }

    fn merge_with(self, other: Self) -> (merged: Self) {
        PartialHalfEdge::merge_with(self, other)
    }

    fn build(self, objects: &mut Objects) -> (result: Result<Handle<HalfEdge>, ValidationError>) {
        PartialHalfEdge::build(self, objects)
    }
}

} // verus!
