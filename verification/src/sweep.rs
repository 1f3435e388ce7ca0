//! Sweeping objects along a path to create new objects.

use crate::builder::{ONE, ZERO};
use crate::geometry::{Point2, Point3, SurfacePath, Vector3};
use crate::objects::{
    next, normalized_order, Curve, GlobalCurve, GlobalEdge, GlobalVertex, HalfEdge, Objects,
    Stored, Surface, SurfaceVertex, Vertex,
};
use crate::storage::Handle;
use std::collections::BTreeMap;
use vstd::prelude::*;

verus! {

/// A cache used for sweeping.
///
/// See [`Sweep`].
#[derive(Debug)]
pub struct SweepCache {
    /// Cache for global vertices: what the vertex with an identity was swept
    /// to.
    pub global_vertex: BTreeMap<u64, Handle<GlobalVertex>>,
    /// Cache for global edges: what the vertex with an identity was swept
    /// into.
    pub global_edge: BTreeMap<u64, Handle<GlobalEdge>>,
}

impl Default for SweepCache {
    fn default() -> (cache: SweepCache)
        ensures
            cache.global_vertex@ == Map::<u64, Handle<GlobalVertex>>::empty(),
            cache.global_edge@ == Map::<u64, Handle<GlobalEdge>>::empty(),
    {
        SweepCache { global_vertex: BTreeMap::new(), global_edge: BTreeMap::new() }
    }
}

/// What a sweep cache holds.
pub struct SweepCached {
    pub global_vertex: Map<u64, Handle<GlobalVertex>>,
    pub global_edge: Map<u64, Handle<GlobalEdge>>,
}

impl View for SweepCache {
    type V = SweepCached;

    open spec fn view(&self) -> SweepCached {
        SweepCached { global_vertex: self.global_vertex@, global_edge: self.global_edge@ }
    }
}

/// Sweep an object along a path to create another object.
pub trait Sweep: Sized {
    /// The object that is created by sweeping the implementing object.
    type Swept;

    /// Whether the object can be swept along the path.
    spec fn sweepable(self, path: Vector3) -> bool;

    /// What sweeping does: the object that comes of it, and the cache and
    /// the stores afterwards.
    spec fn swept(self, path: Vector3, cache: SweepCached, stored: Stored) -> (
        Self::Swept,
        SweepCached,
        Stored,
    );

    /// Sweep the object along the given path, using the provided cache.
    fn sweep_with_cache(self, path: Vector3, cache: &mut SweepCache, objects: &mut Objects) -> (swept:
        Self::Swept)
        requires
            self.sweepable(path),
        ensures
            (swept, final(cache)@, final(objects)@) == self.swept(
                path,
                old(cache)@,
                old(objects)@,
            ),
    ;

    /// Sweep the object along the given path, with a cache of its own.
    fn sweep(self, path: Vector3, objects: &mut Objects) -> (swept: Self::Swept)
        requires
            self.sweepable(path),
        ensures
            swept == self.swept(path, empty_cache(), old(objects)@).0,
            final(objects)@ == self.swept(path, empty_cache(), old(objects)@).2,
    {
        let mut cache = SweepCache::default();
        self.sweep_with_cache(path, &mut cache, objects)
    }
}

/// A cache that holds nothing.
pub open spec fn empty_cache() -> SweepCached {
    SweepCached { global_vertex: Map::empty(), global_edge: Map::empty() }
}

/// A vertex in space, and where the path of the sweep takes it.
pub struct GlobalVertexToTop {
    pub vertex: Handle<GlobalVertex>,
    pub top: Point3,
}

impl Sweep for GlobalVertexToTop {
    type Swept = (Handle<GlobalEdge>, [Handle<GlobalVertex>; 2]);

    open spec fn sweepable(self, path: Vector3) -> bool {
        true
    }

    open spec fn swept(self, path: Vector3, cache: SweepCached, stored: Stored) -> (
        (Handle<GlobalEdge>, [Handle<GlobalVertex>; 2]),
        SweepCached,
        Stored,
    ) {
        let (after, edge, vertices) = swept_global_vertex(stored, self.vertex, self.top);
        ((edge, vertices), cache, after)
    }

    fn sweep_with_cache(self, _path: Vector3, _cache: &mut SweepCache, objects: &mut Objects) -> (swept:
        (Handle<GlobalEdge>, [Handle<GlobalVertex>; 2])) {
        sweep_global_vertex(self.vertex, self.top, objects)
    }
}

/// A vertex of a curve, the surface that its curve is swept into, and where
/// the path of the sweep takes the vertex in space.
pub struct VertexOnSurface {
    pub vertex: Handle<Vertex>,
    pub surface: Handle<Surface>,
    pub top: Point3,
}

impl Sweep for VertexOnSurface {
    type Swept = Handle<HalfEdge>;

    /// The path must be the one that made the surface.
    open spec fn sweepable(self, path: Vector3) -> bool {
        path == self.surface.object.geometry.v
    }

    open spec fn swept(self, path: Vector3, cache: SweepCached, stored: Stored) -> (
        Handle<HalfEdge>,
        SweepCached,
        Stored,
    ) {
        let (after, half_edge) = swept_vertex(stored, self.vertex, self.surface, self.top);
        (half_edge, cache, after)
    }

    fn sweep_with_cache(self, path: Vector3, _cache: &mut SweepCache, objects: &mut Objects) -> (swept:
        Handle<HalfEdge>) {
        sweep_vertex(self.vertex, self.surface, path, self.top, objects)
    }
}

/// What sweeping a vertex in space to `top` leaves in the stores: a new
/// curve, the vertex at the top, and the edge between the two vertices.
pub open spec fn swept_global_vertex(stored: Stored, vertex: Handle<GlobalVertex>, top: Point3) -> (
    Stored,
    Handle<GlobalEdge>,
    [Handle<GlobalVertex>; 2],
) {
    let curve = next(stored.global_curves, GlobalCurve);
    let end = next(stored.global_vertices, GlobalVertex { position: top });
    let edge = next(
        stored.global_edges,
        GlobalEdge { curve, vertices: normalized_order([vertex, end]) },
    );
    (
        Stored {
            global_curves: stored.global_curves.push(curve),
            global_vertices: stored.global_vertices.push(end),
            global_edges: stored.global_edges.push(edge),
            ..stored
        },
        edge,
        [vertex, end],
    )
}

/// Sweeps a vertex in space to where the path takes it, `top`.
///
/// The vertices of the edge that comes of it are in normalized order, which
/// need not be the order of the sweep. So the two vertices come back too,
/// the swept one first.
pub fn sweep_global_vertex(vertex: Handle<GlobalVertex>, top: Point3, objects: &mut Objects) -> (swept:
    (Handle<GlobalEdge>, [Handle<GlobalVertex>; 2]))
    ensures
        (final(objects)@, swept.0, swept.1) == swept_global_vertex(old(objects)@, vertex, top),
{
    let curve = objects.global_curves.insert(GlobalCurve);
    let end = objects.global_vertices.insert(GlobalVertex::from_position(top));
    let vertices = [vertex, end];
    let edge = objects.global_edges.insert(GlobalEdge::new(curve, vertices));
    (edge, vertices)
}

/// What sweeping a vertex of a curve along the path that made the surface
/// leaves in the stores, and the half-edge that comes of it.
///
/// The half-edge runs along the v-axis of the surface, at the vertex's
/// position on the u-axis, from zero to one. Its curve is that line; its
/// two vertices are new, on the surface and on the curve, and stand for
/// the swept vertex and for the one at the top.
pub open spec fn swept_vertex(
    stored: Stored,
    vertex: Handle<Vertex>,
    surface: Handle<Surface>,
    top: Point3,
) -> (Stored, Handle<HalfEdge>) {
    let (globals, edge, ends) = swept_global_vertex(stored, vertex.object.global(), top);
    let from = Point2 { u: vertex.object.position, v: ZERO };
    let to = Point2 { u: vertex.object.position, v: ONE };
    let curve = next(
        globals.curves,
        Curve {
            path: SurfacePath::Line { from, to },
            surface,
            global_form: edge.object.curve,
        },
    );
    let back_on_surface = next(
        globals.surface_vertices,
        SurfaceVertex { position: from, surface, global_form: ends[0] },
    );
    let front_on_surface = next(
        globals.surface_vertices.push(back_on_surface),
        SurfaceVertex { position: to, surface, global_form: ends[1] },
    );
    let back = next(
        globals.vertices,
        Vertex { position: ZERO, curve, surface_form: back_on_surface },
    );
    let front = next(
        globals.vertices.push(back),
        Vertex { position: ONE, curve, surface_form: front_on_surface },
    );
    let half_edge = next(globals.half_edges, HalfEdge { vertices: [back, front], global_form: edge });
    (
        Stored {
            curves: globals.curves.push(curve),
            surface_vertices: globals.surface_vertices.push(back_on_surface).push(
                front_on_surface,
            ),
            vertices: globals.vertices.push(back).push(front),
            half_edges: globals.half_edges.push(half_edge),
            ..globals
        },
        half_edge,
    )
}

/// Sweeps a vertex of a curve along `path` into a half-edge on `surface`.
///
/// The path must be the one that made the surface, and the curve of the
/// vertex the one that was swept into it. `top` is where the path takes the
/// vertex in space. The half-edge that comes of it is free of faults.
pub fn sweep_vertex(
    vertex: Handle<Vertex>,
    surface: Handle<Surface>,
    path: Vector3,
    top: Point3,
    objects: &mut Objects,
) -> (half_edge: Handle<HalfEdge>)
    requires
        path == surface.object.geometry.v,
    ensures
        (final(objects)@, half_edge) == swept_vertex(old(objects)@, vertex, surface, top),
        half_edge.object.fault() is None,
{
    let (edge_global, vertices_global) = sweep_global_vertex(
        vertex.object.global_form(),
        top,
        objects,
    );
    let points_surface = [
        Point2 { u: vertex.object.position, v: ZERO },
        Point2 { u: vertex.object.position, v: ONE },
    ];
    let line = SurfacePath::Line { from: points_surface[0], to: points_surface[1] };
    let curve = objects.curves.insert(Curve::new(surface, line, edge_global.object.curve));
    let back_on_surface = objects.surface_vertices.insert(
        SurfaceVertex::new(points_surface[0], surface, vertices_global[0]),
    );
    let front_on_surface = objects.surface_vertices.insert(
        SurfaceVertex::new(points_surface[1], surface, vertices_global[1]),
    );
    let back = objects.vertices.insert(Vertex::new(points_surface[0].v, curve, back_on_surface));
    let front = objects.vertices.insert(
        Vertex::new(points_surface[1].v, curve, front_on_surface),
    );
    objects.half_edges.insert(HalfEdge::new([back, front], edge_global))
}

} // verus!
