//! Partial forms of the objects in space.

use crate::geometry::Point3;
use crate::objects::{next, normalized_order, GlobalCurve, GlobalEdge, GlobalVertex, Objects, Stored};
use crate::partial::maybe_partial::{
    arrays_mergeable, arrays_merged, merge_arrays, merge_options, options_mergeable,
    options_merged, MaybePartial, PartialObject,
};
use crate::storage::Handle;
use crate::validation::ValidationError;
use vstd::prelude::*;

verus! {

/// A partial [`GlobalCurve`]. There is nothing to know of one.
#[derive(Clone, Copy, Debug, PartialEq, Eq, Structural)]
pub struct PartialGlobalCurve;

impl PartialObject for PartialGlobalCurve {
    type Full = GlobalCurve;

    open spec fn mergeable(self, other: Self) -> bool {
        true
    }

    open spec fn merged(self, other: Self) -> Self {
        self
    }

    open spec fn buildable(self) -> bool {
        true
    }

    open spec fn built(self, stored: Stored) -> (Stored, Result<Handle<GlobalCurve>, ValidationError>) {
        let handle = next(stored.global_curves, GlobalCurve);
        (Stored { global_curves: stored.global_curves.push(handle), ..stored }, Ok(handle))
    }

    fn merge_with(self, other: Self) -> (merged: Self) {
        self
    }

    fn build(self, objects: &mut Objects) -> (result: Result<Handle<GlobalCurve>, ValidationError>) {
        Ok(objects.global_curves.insert(GlobalCurve))
    }
}

/// A partial [`GlobalVertex`].
#[derive(Clone, Copy, Debug, PartialEq, Eq, Structural)]
pub struct PartialGlobalVertex {
    /// The position of the vertex, if it is known.
    pub position: Option<Point3>,
}

impl PartialObject for PartialGlobalVertex {
    type Full = GlobalVertex;

    open spec fn mergeable(self, other: Self) -> bool {
        options_mergeable(self.position, other.position)
    }

    open spec fn merged(self, other: Self) -> Self {
        PartialGlobalVertex { position: options_merged(self.position, other.position) }
    }

    open spec fn buildable(self) -> bool {
        self.position is Some
    }

    open spec fn built(self, stored: Stored) -> (Stored, Result<Handle<GlobalVertex>, ValidationError>) {
        let handle = next(stored.global_vertices, GlobalVertex { position: self.position.unwrap() });
        (Stored { global_vertices: stored.global_vertices.push(handle), ..stored }, Ok(handle))
    }

    fn merge_with(self, other: Self) -> (merged: Self) {
        PartialGlobalVertex { position: merge_options(self.position, other.position) }
    }

    fn build(self, objects: &mut Objects) -> (result: Result<Handle<GlobalVertex>, ValidationError>) {
        let position = self.position.unwrap();
        Ok(objects.global_vertices.insert(GlobalVertex::from_position(position)))
    }
}

/// A partial [`GlobalEdge`].
#[derive(Clone, Copy, Debug, PartialEq, Eq)]
pub struct PartialGlobalEdge {
    /// The curve that the edge is defined in.
    pub curve: MaybePartial<PartialGlobalCurve>,
    /// The vertices that bound the edge in the curve, if they are known.
    pub vertices: Option<[MaybePartial<PartialGlobalVertex>; 2]>,
}

impl PartialGlobalEdge {
    /// The partial edge of which nothing is known.
    pub fn new() -> (edge: PartialGlobalEdge)
        ensures
            edge.curve == MaybePartial::Partial(PartialGlobalCurve),
            edge.vertices is None,
    {
        PartialGlobalEdge { curve: MaybePartial::Partial(PartialGlobalCurve), vertices: None }
    }

    /// The partial form of a full edge: all of it is known.
    pub fn from_full(global_edge: &GlobalEdge) -> (edge: PartialGlobalEdge)
        ensures
            edge.curve == MaybePartial::<PartialGlobalCurve>::Full(global_edge.curve),
            edge.vertices == Some(
                [
                    MaybePartial::<PartialGlobalVertex>::Full(global_edge.vertices[0]),
                    MaybePartial::<PartialGlobalVertex>::Full(global_edge.vertices[1]),
                ],
            ),
    {
        let vertices = global_edge.vertices();
        PartialGlobalEdge {
            curve: MaybePartial::Full(global_edge.curve()),
            vertices: Some([MaybePartial::Full(vertices[0]), MaybePartial::Full(vertices[1])]),
        }
    }

    /// Access the curve that the edge is defined in.
    pub fn curve(&self) -> (curve: MaybePartial<PartialGlobalCurve>)
        ensures
            curve == self.curve,
    {
        self.curve
    }

    /// Access the vertices that bound the edge in the curve.
    pub fn vertices(&self) -> (vertices: Option<[MaybePartial<PartialGlobalVertex>; 2]>)
        ensures
            vertices == self.vertices,
    {
        self.vertices
    }

    /// Update the partial global edge with the given curve, if one is given.
    pub fn with_curve(self, curve: Option<MaybePartial<PartialGlobalCurve>>) -> (edge:
        PartialGlobalEdge)
        ensures
            edge.vertices == self.vertices,
            edge.curve == match curve {
                Some(curve) => curve,
                None => self.curve,
            },
    {
        let mut edge = self;
        if let Some(curve) = curve {
            edge.curve = curve;
        }
        edge
    }

    /// Update the partial global edge with the given vertices, if any are
    /// given.
    pub fn with_vertices(self, vertices: Option<[MaybePartial<PartialGlobalVertex>; 2]>) -> (edge:
        PartialGlobalEdge)
        ensures
            edge.curve == self.curve,
            edge.vertices == if vertices is Some {
                vertices
            } else {
                self.vertices
            },
    {
        let mut edge = self;
        if let Some(vertices) = vertices {
            edge.vertices = Some(vertices);
        }
        edge
    }

    /// Whether the two edges can be merged: their curves can, and so can
    /// their vertices where both have them.
    pub open spec fn can_merge(self, other: PartialGlobalEdge) -> bool {
        &&& self.curve.mergeable(other.curve)
        &&& self.vertices is Some && other.vertices is Some ==> arrays_mergeable(
            self.vertices.unwrap(),
            other.vertices.unwrap(),
        )
    }

    /// The two edges merged: the curves merged; the vertices merged where
    /// both have them, else those of the one that has them.
    pub open spec fn merge(self, other: PartialGlobalEdge) -> PartialGlobalEdge {
        PartialGlobalEdge {
            curve: self.curve.merged(other.curve),
            vertices: match (self.vertices, other.vertices) {
                (Some(a), Some(b)) => Some(arrays_merged(a, b)),
                (Some(a), None) => Some(a),
                (None, b) => b,
            },
        }
    }

    /// Merge this partial object with another.
    pub fn merge_with(self, other: PartialGlobalEdge) -> (merged: PartialGlobalEdge)
        requires
            self.can_merge(other),
        ensures
            merged == self.merge(other),
    {
        let vertices = match (self.vertices, other.vertices) {
            (Some(a), Some(b)) => Some(merge_arrays(a, b)),
            (Some(a), None) => Some(a),
            (None, b) => b,
        };
        PartialGlobalEdge { curve: self.curve.merge_with(other.curve), vertices }
    }

    /// Whether the edge can be built: its vertices are there, and each can
    /// be made full.
    pub open spec fn can_build(self) -> bool {
        &&& self.curve.buildable()
        &&& self.vertices is Some
        &&& self.vertices.unwrap()[0].buildable()
        &&& self.vertices.unwrap()[1].buildable()
    }

    /// What building the edge does: the curve is made full, then the first
    /// vertex, then the second, and the edge between them is stored. The
    /// first error ends it.
    pub open spec fn outcome(self, stored: Stored) -> (
        Stored,
        Result<Handle<GlobalEdge>, ValidationError>,
    ) {
        let (after_curve, curve) = self.curve.full(stored);
        if curve is Err {
            (after_curve, Err(curve->Err_0))
        } else {
            let (after_back, back) = self.vertices.unwrap()[0].full(after_curve);
            if back is Err {
                (after_back, Err(back->Err_0))
            } else {
                let (after_front, front) = self.vertices.unwrap()[1].full(after_back);
                if front is Err {
                    (after_front, Err(front->Err_0))
                } else {
                    let edge = GlobalEdge {
                        curve: curve->Ok_0,
                        vertices: normalized_order([back->Ok_0, front->Ok_0]),
                    };
                    let handle = next(after_front.global_edges, edge);
                    (
                        Stored {
                            global_edges: after_front.global_edges.push(handle),
                            ..after_front
                        },
                        Ok(handle),
                    )
                }
            }
        }
    }

    /// Build a full [`GlobalEdge`] from the partial global edge.
    pub fn build(self, objects: &mut Objects) -> (result: Result<
        Handle<GlobalEdge>,
        ValidationError,
    >)
        requires
            self.can_build(),
        ensures
            (final(objects)@, result) == self.outcome(old(objects)@),
    {
        let curve = match self.curve.into_full(objects) {
            Ok(curve) => curve,
            Err(err) => {
                return Err(err);
            },
        };
        let vertices = self.vertices.unwrap();
        let back = match vertices[0].into_full(objects) {
            Ok(vertex) => vertex,
            Err(err) => {
                return Err(err);
            },
        };
        let front = match vertices[1].into_full(objects) {
            Ok(vertex) => vertex,
            Err(err) => {
                return Err(err);
            },
        };
        Ok(objects.global_edges.insert(GlobalEdge::new(curve, [back, front])))
    }
}

impl PartialObject for PartialGlobalEdge {
    type Full = GlobalEdge;

    open spec fn mergeable(self, other: Self) -> bool {
        self.can_merge(other)
    }

    open spec fn merged(self, other: Self) -> Self {
        self.merge(other)
    }

    open spec fn buildable(self) -> bool {
        self.can_build()
    }

    open spec fn built(self, stored: Stored) -> (Stored, Result<Handle<GlobalEdge>, ValidationError>) {
        self.outcome(stored)
    }

    fn merge_with(self, other: Self) -> (merged: Self) {
        PartialGlobalEdge::merge_with(self, other)
    }

    fn build(self, objects: &mut Objects) -> (result: Result<Handle<GlobalEdge>, ValidationError>) {
        PartialGlobalEdge::build(self, objects)
    }
}

} // verus!
