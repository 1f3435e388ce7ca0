//! Building a cycle from its half-edges.

use crate::geometry::{Point2, SurfacePath};
use crate::objects::{Cycle, HalfEdge, Objects, Stored, SurfaceVertex};
use crate::partial::curve::PartialCurve;
use crate::partial::edge::PartialHalfEdge;
use crate::partial::global_edge::PartialGlobalVertex;
use crate::partial::maybe_partial::MaybePartial;
use crate::partial::vertex::{PartialSurfaceVertex, PartialVertex};
use crate::storage::Handle;
use crate::validation::ValidationError;
use vstd::prelude::*;

verus! {

/// The key of the curve coordinate zero.
pub const ZERO: i64 = 0;

/// The key of the curve coordinate one.
pub const ONE: i64 = 0x3ff0_0000_0000_0000;

/// What a half-edge is built from: its partial form.
pub type HalfEdgeBuilder = PartialHalfEdge;

/// Each item paired with the one after it, the last with the first.
pub open spec fn circular_pairs<T>(items: Seq<T>) -> Seq<(T, T)> {
    Seq::new(items.len(), |i: int| (items[i], items[(i + 1) % (items.len() as int)]))
}

/// Pairs each item with the one after it, and the last with the first.
pub fn circular_tuple_windows<T: Copy>(items: &Vec<T>) -> (pairs: Vec<(T, T)>)
    ensures
        pairs@ == circular_pairs(items@),
{
    let n = items.len();
    let mut pairs: Vec<(T, T)> = Vec::new();
    let mut i: usize = 0;
    while i < n
        invariant
            n == items.len(),
            i <= n,
            pairs@.len() == i,
            forall|j: int| 0 <= j < i ==> pairs@[j] == (items@[j], items@[(j + 1) % (n as int)]),
        decreases n - i,
    {
        let next = if i + 1 == n {
            0
        } else {
            i + 1
        };
        proof {
            if i + 1 == n {
                vstd::arithmetic::div_mod::lemma_mod_self_0(n as int);
            } else {
                vstd::arithmetic::div_mod::lemma_small_mod((i + 1) as nat, n as nat);
            }
        }
        pairs.push((items[i], items[next]));
        i += 1;
    }
    assert(pairs@ =~= circular_pairs(items@));
    pairs
}

/// A vertex on a curve of which only the position on the curve and the
/// position on the surface are known.
pub open spec fn corner(position: i64, on_surface: Point2) -> MaybePartial<PartialVertex> {
    MaybePartial::Partial(
        PartialVertex {
            position: Some(position),
            curve: MaybePartial::Partial(
                PartialCurve { path: None, surface: None, global_form: None },
            ),
            surface_form: MaybePartial::Partial(
                PartialSurfaceVertex {
                    position: Some(on_surface),
                    surface: None,
                    global_form: MaybePartial::Partial(PartialGlobalVertex { position: None }),
                },
            ),
        },
    )
}

/// The half-edge along the straight line between two points on a surface.
/// The line is its curve; its vertices are where the line's coordinate is
/// zero and one.
pub open spec fn line_segment(from: Point2, to: Point2) -> PartialHalfEdge {
    PartialHalfEdge {
        curve: MaybePartial::Partial(
            PartialCurve {
                path: Some(SurfacePath::Line { from, to }),
                surface: None,
                global_form: None,
            },
        ),
        vertices: [corner(ZERO, from), corner(ONE, to)],
        global_form: PartialHalfEdge::blank().global_form,
    }
}

/// The half-edge on a curve between two positions on it, of which nothing
/// else is known.
pub open spec fn stretch(curve: SurfacePath, boundary: [i64; 2]) -> PartialHalfEdge {
    let blank = PartialHalfEdge::blank();
    PartialHalfEdge {
        curve: MaybePartial::Partial(
            PartialCurve { path: Some(curve), surface: None, global_form: None },
        ),
        vertices: [
            MaybePartial::Partial(
                PartialVertex { position: Some(boundary[0]), ..blank.vertices[0]->Partial_0 },
            ),
            MaybePartial::Partial(
                PartialVertex { position: Some(boundary[1]), ..blank.vertices[1]->Partial_0 },
            ),
        ],
        global_form: blank.global_form,
    }
}

/// The half-edge with its back vertex at the given vertex on the surface. A
/// back vertex that is full stays as it is.
pub open spec fn starting_at(half_edge: PartialHalfEdge, vertex: Handle<SurfaceVertex>) -> PartialHalfEdge {
    PartialHalfEdge {
        curve: half_edge.curve,
        vertices: [
            match half_edge.vertices[0] {
                MaybePartial::Full(_) => half_edge.vertices[0],
                MaybePartial::Partial(back) => MaybePartial::Partial(
                    PartialVertex { surface_form: MaybePartial::Full(vertex), ..back },
                ),
            },
            half_edge.vertices[1],
        ],
        global_form: half_edge.global_form,
    }
}

/// A half-edge to connect to: the half-edge, the curve it is on, and the
/// two positions on the curve that bound it.
pub type Edge = (Handle<HalfEdge>, SurfacePath, [i64; 2]);

/// The half-edge that connects to `next` and starts where `previous`
/// starts.
pub open spec fn connecting(previous: Edge, next: Edge) -> PartialHalfEdge {
    starting_at(stretch(next.1, next.2), previous.0.object.vertices[0].object.surface_form)
}

/// Builder API for [`Cycle`].
#[derive(Debug)]
pub struct CycleBuilder {
    pub half_edges: Vec<HalfEdgeBuilder>,
}

/// What building the half-edges one after the other does: the stores
/// afterwards, and the half-edges built, or the first error.
pub open spec fn built_all(half_edges: Seq<PartialHalfEdge>, stored: Stored) -> (
    Stored,
    Result<Seq<Handle<HalfEdge>>, ValidationError>,
)
    decreases half_edges.len(),
{
    if half_edges.len() == 0 {
        (stored, Ok(Seq::empty()))
    } else {
        let (before, earlier) = built_all(half_edges.drop_last(), stored);
        if earlier is Err {
            (before, Err(earlier->Err_0))
        } else {
            let (after, last) = half_edges.last().outcome(before);
            if last is Err {
                (after, Err(last->Err_0))
            } else {
                (after, Ok((earlier->Ok_0).push(last->Ok_0)))
            }
        }
    }
}

impl CycleBuilder {
    /// Create an instance of `CycleBuilder`.
    pub fn new() -> (builder: CycleBuilder)
        ensures
            builder.half_edges@ == Seq::<PartialHalfEdge>::empty(),
    {
        CycleBuilder { half_edges: Vec::new() }
    }

    /// Add a half-edge to the cycle.
    pub fn add_half_edge(self, half_edge: HalfEdgeBuilder) -> (builder: CycleBuilder)
        ensures
            builder.half_edges@ == self.half_edges@.push(half_edge),
    {
        let mut builder = self;
        builder.half_edges.push(half_edge);
        builder
    }

    /// Create a polygon: a cycle of straight half-edges from each point to
    /// the next, and from the last to the first.
    pub fn polygon(points: &Vec<Point2>) -> (builder: CycleBuilder)
        ensures
            builder.half_edges@.len() == points@.len(),
            forall|i: int|
                0 <= i < points@.len() ==> #[trigger] builder.half_edges@[i] == line_segment(
                    points@[i],
                    points@[(i + 1) % (points@.len() as int)],
                ),
    {
        let pairs = circular_tuple_windows(points);
        let mut half_edges: Vec<HalfEdgeBuilder> = Vec::new();
        let mut i: usize = 0;
        while i < pairs.len()
            invariant
                i <= pairs.len(),
                pairs@ == circular_pairs(points@),
                half_edges@.len() == i,
                forall|j: int|
                    0 <= j < i ==> #[trigger] half_edges@[j] == line_segment(
                        points@[j],
                        points@[(j + 1) % (points@.len() as int)],
                    ),
            decreases pairs.len() - i,
        {
            let (from, to) = pairs[i];
            half_edges.push(PartialHalfEdge::line_segment(from, to));
            i += 1;
        }
        CycleBuilder { half_edges }
    }

    /// Create a cycle whose half-edges are connected to the provided
    /// half-edges.
    ///
    /// There is one new half-edge for each one provided. It is on the curve
    /// and between the positions of the one after, and starts at the vertex
    /// at which the provided one starts; the last connects to the first.
    pub fn connect_to_edges(edges: &Vec<Edge>) -> (builder: CycleBuilder)
        ensures
            builder.half_edges@.len() == edges@.len(),
            forall|i: int|
                0 <= i < edges@.len() ==> #[trigger] builder.half_edges@[i] == connecting(
                    edges@[i],
                    edges@[(i + 1) % (edges@.len() as int)],
                ),
    {
        let pairs = circular_tuple_windows(edges);
        let mut half_edges: Vec<HalfEdgeBuilder> = Vec::new();
        let mut i: usize = 0;
        while i < pairs.len()
            invariant
                i <= pairs.len(),
                pairs@ == circular_pairs(edges@),
                half_edges@.len() == i,
                forall|j: int|
                    0 <= j < i ==> #[trigger] half_edges@[j] == connecting(
                        edges@[j],
                        edges@[(j + 1) % (edges@.len() as int)],
                    ),
            decreases pairs.len() - i,
        {
            let (previous, next) = pairs[i];
            let start = previous.0.object.vertices[0].object.surface_form;
            half_edges.push(PartialHalfEdge::on_path(next.1, next.2).with_start_vertex(start));
            i += 1;
        }
        CycleBuilder { half_edges }
    }

    /// Build the cycle: its half-edges are built and stored in order.
    pub fn build(self, objects: &mut Objects) -> (result: Result<Cycle, ValidationError>)
        requires
            forall|i: int|
                0 <= i < self.half_edges@.len() ==> (#[trigger] self.half_edges@[i]).can_build(),
        ensures
            final(objects)@ == built_all(self.half_edges@, old(objects)@).0,
            match result {
                Ok(cycle) => built_all(self.half_edges@, old(objects)@).1 == Ok::<
                    Seq<Handle<HalfEdge>>,
                    ValidationError,
                >(cycle.half_edges@),
                Err(err) => built_all(self.half_edges@, old(objects)@).1 == Err::<
                    Seq<Handle<HalfEdge>>,
                    ValidationError,
                >(err),
            },
    {
        let ghost before = objects@;
        let mut half_edges: Vec<Handle<HalfEdge>> = Vec::new();
        let mut i: usize = 0;
        while i < self.half_edges.len()
            invariant
                i <= self.half_edges.len(),
                before == old(objects)@,
                forall|i: int|
                    0 <= i < self.half_edges@.len() ==> (
                    #[trigger] self.half_edges@[i]).can_build(),
                built_all(self.half_edges@.take(i as int), before) == (
                    objects@,
                    Ok::<Seq<Handle<HalfEdge>>, ValidationError>(half_edges@),
                ),
            decreases self.half_edges.len() - i,
        {
            assert(self.half_edges@.take(i + 1).drop_last() =~= self.half_edges@.take(i as int));
            assert(self.half_edges@.take(i + 1).last() == self.half_edges@[i as int]);
            let ghost so_far = objects@;
            match self.half_edges[i].build(objects) {
                Ok(half_edge) => {
                    half_edges.push(half_edge);
                },
                Err(err) => {
                    proof {
                        assert(self.half_edges@[i as int].outcome(so_far) == (
                            objects@,
                            Err::<Handle<HalfEdge>, ValidationError>(err),
                        ));
                        assert(built_all(self.half_edges@.take(i + 1), before) == (
                            objects@,
                            Err::<Seq<Handle<HalfEdge>>, ValidationError>(err),
                        ));
                        lemma_built_all_fails(self.half_edges@, i + 1, before);
                    }
                    return Err(err);
                },
            }
            i += 1;
        }
        assert(self.half_edges@.take(i as int) =~= self.half_edges@);
        Ok(Cycle::new(half_edges))
    }
}

/// Once building has failed, it stays failed: the later half-edges are not
/// built.
pub proof fn lemma_built_all_fails(half_edges: Seq<PartialHalfEdge>, n: int, stored: Stored)
    requires
        0 <= n <= half_edges.len(),
        built_all(half_edges.take(n), stored).1 is Err,
    ensures
        built_all(half_edges, stored) == built_all(half_edges.take(n), stored),
    decreases half_edges.len(),
{
    if n < half_edges.len() {
        let shorter = half_edges.drop_last();
        assert(shorter.take(n) =~= half_edges.take(n));
        lemma_built_all_fails(shorter, n, stored);
    } else {
        assert(half_edges.take(n) =~= half_edges);
    }
}

} // verus!
