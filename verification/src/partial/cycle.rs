//! The partial form of a cycle.

use crate::objects::Surface;
use crate::partial::edge::PartialHalfEdge;
use crate::partial::maybe_partial::MaybePartial;
use crate::storage::Handle;
use crate::validation::ValidationError;
use vstd::prelude::*;

verus! {

impl MaybePartial<PartialHalfEdge> {
    /// The partial form of the half-edge: the one it has, or that of the
    /// full half-edge.
    pub fn into_partial(self) -> (partial: PartialHalfEdge)
        ensures
            match self {
                MaybePartial::Partial(given) => partial == given,
                MaybePartial::Full(full) => {
                    &&& partial.curve == MaybePartial::<crate::partial::curve::PartialCurve>::Full(
                        full.object.vertices[0].object.curve,
                    )
                    &&& partial.vertices[0] == MaybePartial::<
                        crate::partial::vertex::PartialVertex,
                    >::Full(full.object.vertices[0])
                    &&& partial.vertices[1] == MaybePartial::<
                        crate::partial::vertex::PartialVertex,
                    >::Full(full.object.vertices[1])
                    &&& partial.global_form == MaybePartial::<
                        crate::partial::global_edge::PartialGlobalEdge,
                    >::Full(full.object.global_form)
                },
            },
    {
        match self {
            MaybePartial::Partial(partial) => partial,
            MaybePartial::Full(full) => PartialHalfEdge::from_full(&full.object),
        }
    }
}

/// A partial cycle: a surface, if it is known, and half-edges.
#[derive(Debug, PartialEq, Eq)]
pub struct PartialCycle {
    /// The surface that the cycle is defined in.
    pub surface: Option<Handle<Surface>>,
    /// The half-edges that make up the cycle.
    pub half_edges: Vec<MaybePartial<PartialHalfEdge>>,
}

/// The first error among the results, if there is any.
pub open spec fn first_failure<T>(results: Seq<Result<T, ValidationError>>) -> Option<
    ValidationError,
>
    decreases results.len(),
{
    if results.len() == 0 {
        None
    } else if first_failure(results.drop_last()) is Some {
        first_failure(results.drop_last())
    } else if results.last() is Err {
        Some(results.last()->Err_0)
    } else {
        None
    }
}

/// The half-edge on the surface, if there is one to put it on.
pub open spec fn placed_on(half_edge: PartialHalfEdge, surface: Option<Handle<Surface>>) -> PartialHalfEdge {
    match surface {
        Some(surface) => PartialHalfEdge {
            curve: half_edge.curve.on_surface(surface),
            vertices: [
                half_edge.vertices[0].on_surface(surface),
                half_edge.vertices[1].on_surface(surface),
            ],
            global_form: half_edge.global_form,
        },
        None => half_edge,
    }
}

impl PartialCycle {
    /// Makes the transformed cycle from its transformed parts: the surface,
    /// if the cycle has one, and the half-edges in their order.
    ///
    /// If transforming the surface failed, that error is the result; else
    /// the first error among the half-edges. If nothing failed, the cycle
    /// has the surface, and each half-edge is put on it.
    pub fn transform(
        surface: Option<Result<Handle<Surface>, ValidationError>>,
        half_edges: Vec<Result<PartialHalfEdge, ValidationError>>,
    ) -> (result: Result<PartialCycle, ValidationError>)
        ensures
            match result {
                Err(err) => match surface {
                    Some(Err(failed)) => err == failed,
                    _ => first_failure(half_edges@) == Some(err),
                },
                Ok(cycle) => {
                    &&& !(surface matches Some(Err(_)))
                    &&& first_failure(half_edges@) is None
                    &&& cycle.surface == match surface {
                        Some(Ok(surface)) => Some(surface),
                        _ => None,
                    }
                    &&& cycle.half_edges@.len() == half_edges@.len()
                    &&& forall|i: int|
                        0 <= i < half_edges@.len() ==> #[trigger] cycle.half_edges@[i]
                            == MaybePartial::Partial(
                            placed_on(half_edges@[i]->Ok_0, cycle.surface),
                        )
                },
            },
    {
        let on = match surface {
            Some(Err(err)) => {
                return Err(err);
            },
            Some(Ok(surface)) => Some(surface),
            None => None,
        };
        let mut placed: Vec<MaybePartial<PartialHalfEdge>> = Vec::new();
        let mut i: usize = 0;
        while i < half_edges.len()
            invariant
                i <= half_edges.len(),
                placed@.len() == i,
                !(surface matches Some(Err(_))),
                first_failure(half_edges@.take(i as int)) is None,
                forall|j: int|
                    0 <= j < i ==> #[trigger] placed@[j] == MaybePartial::Partial(
                        placed_on(half_edges@[j]->Ok_0, on),
                    ),
            decreases half_edges.len() - i,
        {
            assert(half_edges@.take(i + 1).drop_last() =~= half_edges@.take(i as int));
            assert(half_edges@.take(i + 1).last() == half_edges@[i as int]);
            match half_edges[i] {
                Err(err) => {
                    proof {
                        lemma_first_failure_stays(half_edges@, i + 1);
                    }
                    return Err(err);
                },
                Ok(half_edge) => {
                    let half_edge = match on {
                        Some(surface) => half_edge.with_surface(surface),
                        None => half_edge,
                    };
                    assert(half_edge.vertices =~= placed_on(
                        half_edges@[i as int]->Ok_0,
                        on,
                    ).vertices);
                    placed.push(MaybePartial::Partial(half_edge));
                },
            }
            i += 1;
        }
        assert(half_edges@.take(i as int) =~= half_edges@);
        Ok(PartialCycle { surface: on, half_edges: placed })
    }
}

/// The first failure among the first results is the first failure among
/// all.
pub proof fn lemma_first_failure_stays<T>(results: Seq<Result<T, ValidationError>>, n: int)
    requires
        0 <= n <= results.len(),
        first_failure(results.take(n)) is Some,
    ensures
        first_failure(results) == first_failure(results.take(n)),
    decreases results.len(),
{
    if n < results.len() {
        let shorter = results.drop_last();
        assert(shorter.take(n) =~= results.take(n));
        lemma_first_failure_stays(shorter, n);
    } else {
        assert(results.take(n) =~= results);
    }
}

} // verus!
