//! All that is known of one curve: its approximated segments, merged where
//! they meet.

use crate::boundary::CurveBoundary;
use crate::coalesce::lemma_merged_coalesced;
use crate::laws::lemma_subset_coalesced;
use crate::point::{find_rank, spliced, ApproxPoint};
use crate::search::{first_where, lemma_first_where_unique};
use crate::segment::{CurveApproxSegment, SegmentView};
use vstd::prelude::*;

verus! {

/// The segments turned round: last segment first, each one reversed.
pub open spec fn turned(segments: Seq<SegmentView>) -> Seq<SegmentView> {
    segments.reverse().map_values(|s: SegmentView| s.reversed())
}

/// What the segments hold within `boundary`: each segment clipped to it, and
/// those dropped of which nothing is left.
pub open spec fn subset(segments: Seq<SegmentView>, boundary: CurveBoundary) -> Seq<SegmentView> {
    segments.map_values(|s: SegmentView| s.clipped(boundary)).filter(
        |s: SegmentView| !s.boundary.empty(),
    )
}

/// Whether some segment overlaps `boundary` or touches it at an endpoint.
pub open spec fn touched(segments: Seq<SegmentView>, boundary: CurveBoundary) -> bool {
    exists|i: int| 0 <= i < segments.len() && (#[trigger] segments[i]).boundary.touches(boundary)
}

/// Whether the curve position `t` lies strictly inside some segment.
pub open spec fn covered(segments: Seq<SegmentView>, t: int) -> bool {
    exists|i: int| 0 <= i < segments.len() && (#[trigger] segments[i]).boundary.encloses(t)
}

/// The index of the first segment that spans `boundary`, or the number of
/// segments if none does.
pub open spec fn covering(segments: Seq<SegmentView>, boundary: CurveBoundary) -> int {
    first_where(segments, |s: SegmentView| s.boundary.spans(boundary))
}

/// The index before which a segment that starts at `start` belongs: that of
/// the first segment that starts beyond it, or the number of segments.
pub open spec fn slot(segments: Seq<SegmentView>, start: int) -> int {
    first_where(segments, |s: SegmentView| s.boundary.start > start)
}

/// The segments with `segment` put in at its slot.
pub open spec fn placed(segments: Seq<SegmentView>, segment: SegmentView) -> Seq<SegmentView> {
    segments.insert(slot(segments, segment.boundary.start as int), segment)
}

/// The segments that neither overlap nor touch `boundary`.
pub open spec fn untouched(segments: Seq<SegmentView>, boundary: CurveBoundary) -> Seq<
    SegmentView,
> {
    segments.filter(|s: SegmentView| !s.boundary.touches(boundary))
}

/// The points of the segments that overlap or touch `boundary`, in the
/// segments' order.
pub open spec fn gathered(segments: Seq<SegmentView>, boundary: CurveBoundary) -> Seq<ApproxPoint>
    decreases segments.len(),
{
    if segments.len() == 0 {
        Seq::empty()
    } else if segments.last().boundary.touches(boundary) {
        gathered(segments.drop_last(), boundary) + segments.last().points
    } else {
        gathered(segments.drop_last(), boundary)
    }
}

/// The smallest boundary that covers `boundary` and every segment that
/// overlaps or touches it.
pub open spec fn span(segments: Seq<SegmentView>, boundary: CurveBoundary) -> CurveBoundary
    decreases segments.len(),
{
    if segments.len() == 0 {
        boundary
    } else if segments.last().boundary.touches(boundary) {
        span(segments.drop_last(), boundary).hull(segments.last().boundary)
    } else {
        span(segments.drop_last(), boundary)
    }
}

/// `base` with those of the `extra` points spliced in, one after the other,
/// that lie strictly inside none of the segments.
pub open spec fn filled(
    base: Seq<ApproxPoint>,
    extra: Seq<ApproxPoint>,
    segments: Seq<SegmentView>,
) -> Seq<ApproxPoint>
    decreases extra.len(),
{
    if extra.len() == 0 {
        base
    } else if covered(segments, extra.last().local_form as int) {
        filled(base, extra.drop_last(), segments)
    } else {
        spliced(filled(base, extra.drop_last(), segments), extra.last())
    }
}

/// The segment that stands for `new_segment` once it has been merged into
/// `segments`.
///
/// A segment that spans the new boundary stands for it as it is: what was
/// there first stays. Where nothing overlaps or touches the new boundary,
/// the new segment stands for itself. Otherwise it is combined with all it
/// overlaps or touches: the boundary covers them all, the points are theirs,
/// and the new segment adds its points only where none of them reaches.
pub open spec fn merged_segment(segments: Seq<SegmentView>, new_segment: SegmentView) -> SegmentView {
    let k = covering(segments, new_segment.boundary);
    if k < segments.len() {
        segments[k]
    } else if !touched(segments, new_segment.boundary) {
        new_segment
    } else {
        SegmentView {
            boundary: span(segments, new_segment.boundary),
            points: filled(
                gathered(segments, new_segment.boundary),
                new_segment.points,
                segments,
            ),
        }
    }
}

/// The segments once `new_segment` has been merged into them: unchanged if
/// one of them spans the new boundary; else the segments that the new one
/// neither overlaps nor touches, with the merged segment at its slot.
pub open spec fn merged(segments: Seq<SegmentView>, new_segment: SegmentView) -> Seq<SegmentView> {
    if covering(segments, new_segment.boundary) < segments.len() {
        segments
    } else {
        placed(
            untouched(segments, new_segment.boundary),
            merged_segment(segments, new_segment),
        )
    }
}

/// The invariant of what is stored for one curve: every segment runs
/// upwards, with its points in order strictly inside it, and each segment
/// ends before the next one starts, so that no two could be merged.
pub open spec fn coalesced(segments: Seq<SegmentView>) -> bool {
    &&& forall|i: int| 0 <= i < segments.len() ==> (#[trigger] segments[i]).upright()
    &&& forall|i: int, j: int|
        0 <= i < j < segments.len() ==> (#[trigger] segments[i]).boundary.end < (
        #[trigger] segments[j]).boundary.start
}

/// The approximation of one curve, as far as it has been computed.
#[derive(Debug, PartialEq, Eq)]
pub struct CurveApprox {
    /// The approximated segments.
    pub segments: Vec<CurveApproxSegment>,
}

impl View for CurveApprox {
    type V = Seq<SegmentView>;

    open spec fn view(&self) -> Seq<SegmentView> {
        self.segments@.map_values(|s: CurveApproxSegment| s@)
    }
}

impl Clone for CurveApprox {
    fn clone(&self) -> (copy: CurveApprox)
        ensures
            copy@ == self@,
    {
        let mut segments: Vec<CurveApproxSegment> = Vec::new();
        let mut i: usize = 0;
        while i < self.segments.len()
            invariant
                i <= self.segments.len(),
                segments@.len() == i,
                forall|j: int| 0 <= j < i ==> (#[trigger] segments@[j])@ == self.segments@[j]@,
            decreases self.segments.len() - i,
        {
            segments.push(self.segments[i].clone());
            i += 1;
        }
        let copy = CurveApprox { segments };
        assert(copy@ =~= self@);
        copy
    }
}

impl CurveApprox {
    /// Turns the approximation round, so that it runs from end to start.
    pub fn reverse(&mut self)
        ensures
            final(self)@ == turned(old(self)@),
    {
        let mut segments: Vec<CurveApproxSegment> = Vec::new();
        let n = self.segments.len();
        let mut i: usize = n;
        while i > 0
            invariant
                n == self.segments.len(),
                i <= n,
                segments@.len() == n - i,
                forall|j: int|
                    0 <= j < segments@.len() ==> (#[trigger] segments@[j])@ == self.segments@[n
                        - 1 - j]@.reversed(),
            decreases i,
        {
            i -= 1;
            let mut segment = self.segments[i].clone();
            segment.reverse();
            segments.push(segment);
        }
        let ghost before = self@;
        self.segments = segments;
        assert(self@ =~= turned(before));
    }

    /// Cuts the approximation down to what lies within `boundary`.
    pub fn make_subset(&mut self, boundary: &CurveBoundary)
        ensures
            final(self)@ == subset(old(self)@, *boundary),
            coalesced(old(self)@) ==> coalesced(final(self)@),
    {
        proof {
            if coalesced(self@) {
                lemma_subset_coalesced(self@, *boundary);
            }
        }
        let ghost clip = |s: SegmentView| s.clipped(*boundary);
        let ghost keep = |s: SegmentView| !s.boundary.empty();
        let ghost before = self@;
        let mut segments: Vec<CurveApproxSegment> = Vec::new();
        let mut i: usize = 0;
        while i < self.segments.len()
            invariant
                i <= self.segments.len(),
                before == self@,
                clip == |s: SegmentView| s.clipped(*boundary),
                keep == |s: SegmentView| !s.boundary.empty(),
                segments@.map_values(|s: CurveApproxSegment| s@) == before.map_values(clip).take(
                    i as int,
                ).filter(keep),
            decreases self.segments.len() - i,
        {
            let mut segment = self.segments[i].clone();
            segment.make_subset(*boundary);
            proof {
                reveal(Seq::filter);
                let all = before.map_values(clip);
                assert(all.take(i + 1).drop_last() =~= all.take(i as int));
                assert(all.take(i + 1).last() == segment@);
            }
            let ghost shorter = segments@.map_values(|s: CurveApproxSegment| s@);
            if !segment.is_empty() {
                segments.push(segment);
                assert(segments@.map_values(|s: CurveApproxSegment| s@) =~= shorter.push(
                    segment@,
                ));
            }
            i += 1;
        }
        assert(before.map_values(clip).take(i as int) =~= before.map_values(clip));
        self.segments = segments;
    }

    /// Whether some segment overlaps `boundary` or touches it at an endpoint.
    pub fn is_touched(&self, boundary: &CurveBoundary) -> (r: bool)
        ensures
            r == touched(self@, *boundary),
    {
        let mut i: usize = 0;
        while i < self.segments.len()
            invariant
                i <= self.segments.len(),
                forall|j: int| 0 <= j < i ==> !(#[trigger] self@[j]).boundary.touches(*boundary),
            decreases self.segments.len() - i,
        {
            if self.segments[i].boundary.overlaps(boundary) {
                assert(self@[i as int].boundary.touches(*boundary));
                return true;
            }
            i += 1;
        }
        false
    }

    /// Whether the curve position `t` lies strictly inside some segment.
    pub fn is_covered(&self, t: i64) -> (r: bool)
        ensures
            r == covered(self@, t as int),
    {
        let mut i: usize = 0;
        while i < self.segments.len()
            invariant
                i <= self.segments.len(),
                forall|j: int| 0 <= j < i ==> !(#[trigger] self@[j]).boundary.encloses(t as int),
            decreases self.segments.len() - i,
        {
            if self.segments[i].boundary.contains(t) {
                assert(self@[i as int].boundary.encloses(t as int));
                return true;
            }
            i += 1;
        }
        false
    }

    /// The index of the first segment that spans `boundary`, or the number
    /// of segments if none does.
    pub fn find_covering(&self, boundary: &CurveBoundary) -> (k: usize)
        ensures
            k == covering(self@, *boundary),
            k <= self@.len(),
    {
        let mut k: usize = 0;
        while k < self.segments.len() && !self.segments[k].boundary.covers(boundary)
            invariant
                k <= self.segments.len(),
                forall|j: int| 0 <= j < k ==> !(#[trigger] self@[j]).boundary.spans(*boundary),
            decreases self.segments.len() - k,
        {
            k += 1;
        }
        proof {
            lemma_first_where_unique(
                self@,
                |s: SegmentView| s.boundary.spans(*boundary),
                k as int,
            );
        }
        k
    }

    /// The index before which a segment that starts at `start` belongs.
    pub fn find_slot(&self, start: i64) -> (k: usize)
        ensures
            k == slot(self@, start as int),
            k <= self@.len(),
    {
        let mut k: usize = 0;
        while k < self.segments.len() && self.segments[k].boundary.start <= start
            invariant
                k <= self.segments.len(),
                forall|j: int| 0 <= j < k ==> (#[trigger] self@[j]).boundary.start <= start,
            decreases self.segments.len() - k,
        {
            k += 1;
        }
        proof {
            lemma_first_where_unique(
                self@,
                |s: SegmentView| s.boundary.start > start as int,
                k as int,
            );
        }
        k
    }

    /// Merges `new_segment` into the approximation, and returns the segment
    /// that stands for it from now on.
    ///
    /// What the approximation already holds within the new boundary stays as
    /// it is; the new segment only adds where nothing was known.
    pub fn merge(&mut self, new_segment: CurveApproxSegment) -> (result: CurveApproxSegment)
        ensures
            final(self)@ == merged(old(self)@, new_segment@),
            result@ == merged_segment(old(self)@, new_segment@),
            coalesced(old(self)@) && new_segment@.upright() ==> coalesced(final(self)@)
                && result@.upright() && result@.boundary.spans(new_segment@.boundary)
                && final(self)@.contains(result@),
    {
        proof {
            if coalesced(self@) && new_segment@.upright() {
                lemma_merged_coalesced(self@, new_segment@);
            }
        }
        let k = self.find_covering(&new_segment.boundary);
        if k < self.segments.len() {
            return self.segments[k].clone();
        }
        let ghost before = self@;
        let ghost aim = new_segment.boundary;
        let mut boundary = new_segment.boundary;
        let mut points: Vec<ApproxPoint> = Vec::new();
        let mut others = CurveApprox { segments: Vec::new() };
        let mut any = false;
        let mut i: usize = 0;
        assert(others@ =~= untouched(before.take(0), aim));
        while i < self.segments.len()
            invariant
                i <= self.segments.len(),
                before == self@,
                aim == new_segment.boundary,
                boundary == span(before.take(i as int), aim),
                points@ == gathered(before.take(i as int), aim),
                others@ == untouched(before.take(i as int), aim),
                any == touched(before.take(i as int), aim),
            decreases self.segments.len() - i,
        {
            let ghost shorter = before.take(i as int);
            let ghost longer = before.take(i + 1);
            proof {
                reveal(Seq::filter);
                assert(longer.drop_last() =~= shorter);
                assert(longer.last() == self.segments@[i as int]@);
                if touched(shorter, aim) {
                    let w = choose|w: int|
                        0 <= w < shorter.len() && (#[trigger] shorter[w]).boundary.touches(aim);
                    assert(longer[w].boundary.touches(aim));
                }
                if touched(longer, aim) && !longer.last().boundary.touches(aim) {
                    let w = choose|w: int|
                        0 <= w < longer.len() && (#[trigger] longer[w]).boundary.touches(aim);
                    assert(shorter[w].boundary.touches(aim));
                }
            }
            if self.segments[i].boundary.overlaps(&new_segment.boundary) {
                boundary = boundary.union(self.segments[i].boundary);
                append_points(&mut points, &self.segments[i].points);
                any = true;
                assert(longer[i as int].boundary.touches(aim));
            } else {
                let ghost kept = others@;
                others.segments.push(self.segments[i].clone());
                assert(others@ =~= kept.push(longer.last()));
            }
            i += 1;
        }
        assert(before.take(i as int) =~= before);
        let result = if any {
            let mut j: usize = 0;
            while j < new_segment.points.len()
                invariant
                    j <= new_segment.points.len(),
                    before == self@,
                    points@ == filled(
                        gathered(before, aim),
                        new_segment.points@.take(j as int),
                        before,
                    ),
                decreases new_segment.points.len() - j,
            {
                let p = new_segment.points[j];
                assert(new_segment.points@.take(j + 1).drop_last() =~= new_segment.points@.take(
                    j as int,
                ));
                if !self.is_covered(p.local_form) {
                    let r = find_rank(&points, p.local_form);
                    points.insert(r, p);
                }
                j += 1;
            }
            assert(new_segment.points@.take(j as int) =~= new_segment.points@);
            CurveApproxSegment { boundary, points }
        } else {
            new_segment
        };
        let at = others.find_slot(result.boundary.start);
        let ghost kept = others@;
        others.segments.insert(at, result.clone());
        assert(others@ =~= kept.insert(at as int, result@));
        self.segments = others.segments;
        result
    }
}

/// Appends a copy of `more` to `points`.
fn append_points(points: &mut Vec<ApproxPoint>, more: &Vec<ApproxPoint>)
    ensures
        final(points)@ == old(points)@ + more@,
{
    let ghost before = points@;
    let mut i: usize = 0;
    while i < more.len()
        invariant
            i <= more.len(),
            points@ == before + more@.take(i as int),
        decreases more.len() - i,
    {
        points.push(more[i]);
        assert(before + more@.take(i + 1) =~= (before + more@.take(i as int)).push(
            more@[i as int],
        ));
        i += 1;
    }
    assert(more@.take(i as int) =~= more@);
}

} // verus!
