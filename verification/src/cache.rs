//! The cache of curve approximations, keyed by curve.

use crate::approx::{coalesced, merged, merged_segment, subset, turned, CurveApprox};
use crate::coalesce::lemma_merged_coalesced;
use crate::laws::lemma_answer_well_formed;
use crate::boundary::CurveBoundary;
use crate::segment::{CurveApproxSegment, SegmentView};
use std::collections::BTreeMap;
use vstd::prelude::*;

verus! {

/// What a request for `boundary` is answered with from the segments of one
/// curve: what they hold within the boundary, in the direction asked for.
pub open spec fn answer(segments: Seq<SegmentView>, boundary: CurveBoundary) -> Seq<SegmentView> {
    if boundary.normalized() {
        subset(segments, boundary)
    } else {
        turned(subset(segments, boundary.normal_form()))
    }
}

/// The segment that stands for `new_segment` once it has been inserted for
/// `curve`: its normal form, merged into what the curve already has.
pub open spec fn canonical(
    cache: Map<u64, Seq<SegmentView>>,
    curve: u64,
    new_segment: SegmentView,
) -> SegmentView {
    if cache.contains_key(curve) {
        merged_segment(cache[curve], new_segment.normal_form())
    } else {
        new_segment.normal_form()
    }
}

/// The segments of `curve` once `new_segment` has been inserted for it.
pub open spec fn entry(
    cache: Map<u64, Seq<SegmentView>>,
    curve: u64,
    new_segment: SegmentView,
) -> Seq<SegmentView> {
    if cache.contains_key(curve) {
        merged(cache[curve], new_segment.normal_form())
    } else {
        seq![new_segment.normal_form()]
    }
}

/// The cache once `new_segment` has been inserted for `curve`.
pub open spec fn inserted(
    cache: Map<u64, Seq<SegmentView>>,
    curve: u64,
    new_segment: SegmentView,
) -> Map<u64, Seq<SegmentView>> {
    cache.insert(curve, entry(cache, curve, new_segment))
}

/// The invariant of the cache: what it holds for each curve is coalesced.
pub open spec fn consistent(cache: Map<u64, Seq<SegmentView>>) -> bool {
    forall|curve: u64| cache.contains_key(curve) ==> coalesced(#[trigger] cache[curve])
}

/// The normal form of a well-formed segment is upright.
pub proof fn lemma_normal_form_upright(segment: SegmentView)
    requires
        segment.well_formed(),
    ensures
        segment.normal_form().upright(),
{
    if segment.boundary.start == segment.boundary.end {
        if segment.points.len() > 0 {
            assert(segment.boundary.encloses(segment.points[0].local_form as int));
        }
        assert(segment.points.reverse() =~= segment.points);
    }
}

/// Inserting a well-formed segment keeps the cache consistent; the segment
/// that then stands for it is upright, is held for the curve, and spans the
/// boundary that was handed in.
pub proof fn lemma_inserted_consistent(
    cache: Map<u64, Seq<SegmentView>>,
    curve: u64,
    segment: SegmentView,
)
    requires
        consistent(cache),
        segment.well_formed(),
    ensures
        consistent(inserted(cache, curve, segment)),
        canonical(cache, curve, segment).upright(),
        canonical(cache, curve, segment).boundary.spans(segment.boundary.normal_form()),
        inserted(cache, curve, segment)[curve].contains(canonical(cache, curve, segment)),
{
    lemma_normal_form_upright(segment);
    let new_segment = segment.normal_form();
    if cache.contains_key(curve) {
        lemma_merged_coalesced(cache[curve], new_segment);
    } else {
        assert(seq![new_segment][0] == new_segment);
    }
}

/// Cache for curve approximations.
///
/// A curve is known by the identity that the object store gave it. The cache
/// holds, for each curve that was ever approximated, all its segments in
/// normalized direction.
pub struct CurveApproxCache {
    inner: BTreeMap<u64, CurveApprox>,
}

impl View for CurveApproxCache {
    type V = Map<u64, Seq<SegmentView>>;

    closed spec fn view(&self) -> Map<u64, Seq<SegmentView>> {
        self.inner@.map_values(|a: CurveApprox| a@)
    }
}

impl Default for CurveApproxCache {
    fn default() -> (cache: CurveApproxCache)
        ensures
            cache@ == Map::<u64, Seq<SegmentView>>::empty(),
    {
        let cache = CurveApproxCache { inner: BTreeMap::new() };
        assert(cache@ =~= Map::<u64, Seq<SegmentView>>::empty());
        cache
    }
}

impl CurveApproxCache {
    /// Get an approximation from the cache.
    ///
    /// There is an answer for every curve that the cache knows, though it may
    /// hold no segment; there is none for a curve it has never seen.
    pub fn get(&self, curve: u64, boundary: &CurveBoundary) -> (found: Option<CurveApprox>)
        ensures
            found is Some <==> self@.contains_key(curve),
            found matches Some(approx) ==> approx@ == answer(self@[curve], *boundary),
            found matches Some(approx) ==> consistent(self@) ==> forall|i: int|
                0 <= i < approx@.len() ==> (#[trigger] approx@[i]).well_formed(),
    {
        broadcast use vstd::std_specs::btree::group_btree_axioms;

        proof {
            if self@.contains_key(curve) && consistent(self@) {
                lemma_answer_well_formed(self@[curve], *boundary);
            }
        }

        match self.inner.get(&curve) {
            None => None,
            Some(stored) => {
                let mut approx = stored.clone();
                approx.make_subset(&boundary.normalize());
                if !boundary.is_normalized() {
                    approx.reverse();
                }
                Some(approx)
            },
        }
    }

    /// Insert an approximated segment of the curve into the cache, and
    /// return the segment that stands for it from now on.
    pub fn insert(&mut self, curve: u64, new_segment: CurveApproxSegment) -> (segment:
        CurveApproxSegment)
        ensures
            final(self)@ == inserted(old(self)@, curve, new_segment@),
            segment@ == canonical(old(self)@, curve, new_segment@),
            consistent(old(self)@) && new_segment@.well_formed() ==> consistent(final(self)@)
                && segment@.upright() && segment@.boundary.spans(
                new_segment@.boundary.normal_form(),
            ) && final(self)@[curve].contains(segment@),
    {
        proof {
            if consistent(self@) && new_segment@.well_formed() {
                lemma_inserted_consistent(self@, curve, new_segment@);
            }
        }
        broadcast use vstd::std_specs::btree::group_btree_axioms;

        let ghost before = self@;
        let ghost given = new_segment@;
        let mut new_segment = new_segment;
        new_segment.normalize();
        let (approx, segment) = match self.inner.remove(&curve) {
            Some(existing) => {
                let mut existing = existing;
                let segment = existing.merge(new_segment);
                (existing, segment)
            },
            None => {
                let mut segments: Vec<CurveApproxSegment> = Vec::new();
                segments.push(new_segment.clone());
                let approx = CurveApprox { segments };
                assert(approx@ =~= seq![new_segment@]);
                (approx, new_segment)
            },
        };
        self.inner.insert(curve, approx);
        assert(self@ =~= inserted(before, curve, given));
        segment
    }
}

} // verus!
