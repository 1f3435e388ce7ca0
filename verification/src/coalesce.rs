//! Why merging keeps the segments of a curve apart and in order.

use crate::approx::{
    coalesced, covered, covering, filled, gathered, merged, merged_segment, placed, slot, span,
    touched, untouched,
};
use crate::boundary::CurveBoundary;
use crate::point::{ascending, rank, spliced, ApproxPoint};
use crate::search::lemma_first_where;
use crate::segment::SegmentView;
use crate::sequences::lemma_filter_keeps_order;
use vstd::prelude::*;

verus! {

/// A segment that lies apart from all the others can be put in at its slot.
pub proof fn lemma_placed_coalesced(rest: Seq<SegmentView>, segment: SegmentView)
    requires
        coalesced(rest),
        segment.upright(),
        forall|i: int|
            0 <= i < rest.len() ==> (#[trigger] rest[i]).boundary.apart(segment.boundary),
    ensures
        coalesced(placed(rest, segment)),
{
    let start = segment.boundary.start as int;
    let at = slot(rest, start);
    lemma_first_where(rest, |s: SegmentView| s.boundary.start > start);
    let after = placed(rest, segment);
    assert forall|j: int| 0 <= j < at implies (#[trigger] rest[j]).boundary.end
        < segment.boundary.start by {
        assert(rest[j].boundary.apart(segment.boundary));
    }
    assert forall|j: int| at <= j < rest.len() implies (#[trigger] rest[j]).boundary.start
        > segment.boundary.end by {
        assert(rest[at].boundary.start > start);
        assert(rest[at].upright());
        assert(rest[j].upright());
        if j > at {
            assert(rest[at].boundary.end < rest[j].boundary.start);
        }
        assert(rest[j].boundary.apart(segment.boundary));
    }
    assert forall|i: int| 0 <= i < after.len() implies (#[trigger] after[i]).upright() by {
        if i < at {
            assert(after[i] == rest[i]);
        } else if i > at {
            assert(after[i] == rest[i - 1]);
        }
    }
    assert forall|i: int, j: int| 0 <= i < j < after.len() implies (#[trigger] after[i]).boundary.end
        < (#[trigger] after[j]).boundary.start by {
        if j < at {
            assert(after[i] == rest[i] && after[j] == rest[j]);
        } else if j == at {
            assert(after[i] == rest[i]);
        } else if i < at {
            assert(after[i] == rest[i] && after[j] == rest[j - 1]);
        } else if i == at {
            assert(after[j] == rest[j - 1]);
        } else {
            assert(after[i] == rest[i - 1] && after[j] == rest[j - 1]);
        }
    }
}

/// Leaving segments out keeps the others apart and in order.
pub proof fn lemma_filter_coalesced(segments: Seq<SegmentView>, keep: spec_fn(SegmentView) -> bool)
    requires
        coalesced(segments),
    ensures
        coalesced(segments.filter(keep)),
        forall|i: int|
            0 <= i < segments.filter(keep).len() ==> keep(#[trigger] segments.filter(keep)[i])
                && segments.contains(segments.filter(keep)[i]),
{
    let apart = |a: SegmentView, b: SegmentView| a.boundary.end < b.boundary.start;
    assert forall|i: int, j: int| 0 <= i < j < segments.len() implies apart(
        #[trigger] segments[i],
        #[trigger] segments[j],
    ) by {
        assert(segments[i].boundary.end < segments[j].boundary.start);
    }
    lemma_filter_keeps_order(segments, keep, apart);
    let kept = segments.filter(keep);
    assert forall|i: int| 0 <= i < kept.len() implies (#[trigger] kept[i]).upright() by {
        assert(segments.contains(kept[i]));
        let w = choose|w: int| 0 <= w < segments.len() && segments[w] == kept[i];
        assert(segments[w].upright());
    }
    assert forall|i: int, j: int| 0 <= i < j < kept.len() implies (#[trigger] kept[i]).boundary.end
        < (#[trigger] kept[j]).boundary.start by {
        assert(apart(kept[i], kept[j]));
    }
}

/// The span covers the boundary it was taken of and every segment that
/// touches that boundary, and it starts and ends where one of them does.
pub proof fn lemma_span(segments: Seq<SegmentView>, aim: CurveBoundary)
    ensures
        span(segments, aim).spans(aim),
        forall|i: int|
            0 <= i < segments.len() && (#[trigger] segments[i]).boundary.touches(aim) ==> span(
                segments,
                aim,
            ).spans(segments[i].boundary),
        span(segments, aim).start == aim.start || exists|i: int|
            0 <= i < segments.len() && (#[trigger] segments[i]).boundary.touches(aim)
                && segments[i].boundary.start == span(segments, aim).start,
        span(segments, aim).end == aim.end || exists|i: int|
            0 <= i < segments.len() && (#[trigger] segments[i]).boundary.touches(aim)
                && segments[i].boundary.end == span(segments, aim).end,
    decreases segments.len(),
{
    if segments.len() > 0 {
        let shorter = segments.drop_last();
        let last = segments.len() - 1;
        lemma_span(shorter, aim);
        let h = span(shorter, aim);
        let g = span(segments, aim);
        assert forall|i: int|
            0 <= i < segments.len() && (#[trigger] segments[i]).boundary.touches(
                aim,
            ) implies g.spans(segments[i].boundary) by {
            if i < last {
                assert(shorter[i] == segments[i]);
            }
        }
        if g.start != aim.start {
            if segments[last].boundary.touches(aim) && g.start == segments[last].boundary.start {
            } else {
                let w = choose|w: int|
                    0 <= w < shorter.len() && (#[trigger] shorter[w]).boundary.touches(aim)
                        && shorter[w].boundary.start == h.start;
                assert(segments[w] == shorter[w]);
            }
        }
        if g.end != aim.end {
            if segments[last].boundary.touches(aim) && g.end == segments[last].boundary.end {
            } else {
                let w = choose|w: int|
                    0 <= w < shorter.len() && (#[trigger] shorter[w]).boundary.touches(aim)
                        && shorter[w].boundary.end == h.end;
                assert(segments[w] == shorter[w]);
            }
        }
    }
}

/// A segment that does not touch the boundary lies apart from its span too.
pub proof fn lemma_span_apart(segments: Seq<SegmentView>, aim: CurveBoundary, k: int)
    requires
        coalesced(segments),
        aim.start <= aim.end,
        0 <= k < segments.len(),
        !segments[k].boundary.touches(aim),
    ensures
        segments[k].boundary.apart(span(segments, aim)),
{
    lemma_span(segments, aim);
    let h = span(segments, aim);
    let r = segments[k].boundary;
    assert(segments[k].upright());
    if r.end < aim.start {
        if h.start != aim.start {
            let w = choose|w: int|
                0 <= w < segments.len() && (#[trigger] segments[w]).boundary.touches(aim)
                    && segments[w].boundary.start == h.start;
            assert(segments[w].upright());
            if k < w {
                assert(segments[k].boundary.end < segments[w].boundary.start);
            } else if w < k {
                assert(segments[w].boundary.end < segments[k].boundary.start);
            }
        }
    } else {
        assert(r.start > aim.end);
        if h.end != aim.end {
            let w = choose|w: int|
                0 <= w < segments.len() && (#[trigger] segments[w]).boundary.touches(aim)
                    && segments[w].boundary.end == h.end;
            assert(segments[w].upright());
            if k < w {
                assert(segments[k].boundary.end < segments[w].boundary.start);
            } else if w < k {
                assert(segments[w].boundary.end < segments[k].boundary.start);
            }
        }
    }
}

/// Whether the curve position `t` lies strictly inside a segment that
/// touches `aim`.
pub open spec fn held(segments: Seq<SegmentView>, aim: CurveBoundary, t: int) -> bool {
    exists|i: int|
        0 <= i < segments.len() && (#[trigger] segments[i]).boundary.touches(aim)
            && segments[i].boundary.encloses(t)
}

/// The gathered points run strictly upwards, and each lies inside the
/// segment it came from.
pub proof fn lemma_gathered(segments: Seq<SegmentView>, aim: CurveBoundary)
    requires
        coalesced(segments),
    ensures
        ascending(gathered(segments, aim)),
        forall|m: int|
            0 <= m < gathered(segments, aim).len() ==> held(
                segments,
                aim,
                (#[trigger] gathered(segments, aim)[m]).local_form as int,
            ),
    decreases segments.len(),
{
    if segments.len() > 0 {
        let shorter = segments.drop_last();
        let last = segments.last();
        let n = segments.len() - 1;
        assert(segments[n] == last);
        assert forall|i: int| 0 <= i < shorter.len() implies (#[trigger] shorter[i]).upright() by {
            assert(shorter[i] == segments[i]);
        }
        assert forall|i: int, j: int| 0 <= i < j < shorter.len() implies (
        #[trigger] shorter[i]).boundary.end < (#[trigger] shorter[j]).boundary.start by {
            assert(shorter[i] == segments[i] && shorter[j] == segments[j]);
        }
        lemma_gathered(shorter, aim);
        let before = gathered(shorter, aim);
        let all = gathered(segments, aim);
        assert forall|m: int| 0 <= m < before.len() implies held(
            segments,
            aim,
            (#[trigger] before[m]).local_form as int,
        ) && before[m].local_form < last.boundary.start by {
            let t = before[m].local_form as int;
            assert(held(shorter, aim, t));
            let w = choose|w: int|
                0 <= w < shorter.len() && (#[trigger] shorter[w]).boundary.touches(aim)
                    && shorter[w].boundary.encloses(t);
            assert(segments[w] == shorter[w]);
            assert(segments[w].boundary.end < segments[n].boundary.start);
        }
        if last.boundary.touches(aim) {
            assert(last.upright());
            assert forall|m: int| 0 <= m < all.len() implies held(
                segments,
                aim,
                (#[trigger] all[m]).local_form as int,
            ) by {
                if m < before.len() {
                    assert(all[m] == before[m]);
                } else {
                    assert(all[m] == last.points[m - before.len()]);
                    assert(segments[n].boundary.encloses(all[m].local_form as int));
                }
            }
            assert forall|i: int, j: int| 0 <= i < j < all.len() implies (
            #[trigger] all[i]).local_form < (#[trigger] all[j]).local_form by {
                if j < before.len() {
                    assert(all[i] == before[i] && all[j] == before[j]);
                } else if i < before.len() {
                    assert(all[i] == before[i]);
                    assert(all[j] == last.points[j - before.len()]);
                } else {
                    assert(all[i] == last.points[i - before.len()]);
                    assert(all[j] == last.points[j - before.len()]);
                }
            }
        }
    }
}

/// Splicing a point in keeps the points strictly upwards, if no point sits
/// where the new one does.
pub proof fn lemma_spliced_ascending(points: Seq<ApproxPoint>, p: ApproxPoint)
    requires
        ascending(points),
        forall|i: int| 0 <= i < points.len() ==> (#[trigger] points[i]).local_form != p.local_form,
    ensures
        ascending(spliced(points, p)),
        spliced(points, p).len() == points.len() + 1,
        spliced(points, p)[rank(points, p.local_form as int)] == p,
        0 <= rank(points, p.local_form as int) <= points.len(),
{
    let t = p.local_form as int;
    let r = rank(points, t);
    lemma_first_where(points, |q: ApproxPoint| q.local_form > t);
    let after = spliced(points, p);
    assert forall|j: int| 0 <= j < r implies (#[trigger] points[j]).local_form < t by {
        assert(points[j].local_form != p.local_form);
    }
    assert forall|j: int| r <= j < points.len() implies (#[trigger] points[j]).local_form > t by {
        assert(points[r].local_form > t);
        if j > r {
            assert(points[r].local_form < points[j].local_form);
        }
    }
    assert forall|i: int, j: int| 0 <= i < j < after.len() implies (#[trigger] after[i]).local_form
        < (#[trigger] after[j]).local_form by {
        if j < r {
            assert(after[i] == points[i] && after[j] == points[j]);
        } else if j == r {
            assert(after[i] == points[i]);
        } else if i < r {
            assert(after[i] == points[i] && after[j] == points[j - 1]);
        } else if i == r {
            assert(after[j] == points[j - 1]);
        } else {
            assert(after[i] == points[i - 1] && after[j] == points[j - 1]);
        }
    }
}

/// Filling the gaps keeps the points strictly upwards; each point then lies
/// inside a segment that was there, or is one of the new ones.
pub proof fn lemma_filled(
    base: Seq<ApproxPoint>,
    extra: Seq<ApproxPoint>,
    segments: Seq<SegmentView>,
    aim: CurveBoundary,
)
    requires
        ascending(base),
        ascending(extra),
        forall|m: int|
            0 <= m < base.len() ==> held(segments, aim, (#[trigger] base[m]).local_form as int),
    ensures
        ascending(filled(base, extra, segments)),
        forall|m: int|
            0 <= m < filled(base, extra, segments).len() ==> held(
                segments,
                aim,
                (#[trigger] filled(base, extra, segments)[m]).local_form as int,
            ) || extra.contains(filled(base, extra, segments)[m]),
    decreases extra.len(),
{
    if extra.len() > 0 {
        let shorter = extra.drop_last();
        let p = extra.last();
        let n = extra.len() - 1;
        assert(extra[n] == p);
        assert forall|i: int, j: int| 0 <= i < j < shorter.len() implies (
        #[trigger] shorter[i]).local_form < (#[trigger] shorter[j]).local_form by {
            assert(shorter[i] == extra[i] && shorter[j] == extra[j]);
        }
        lemma_filled(base, shorter, segments, aim);
        let before = filled(base, shorter, segments);
        let all = filled(base, extra, segments);
        assert forall|m: int| 0 <= m < before.len() implies (held(
            segments,
            aim,
            (#[trigger] before[m]).local_form as int,
        ) || (extra.contains(before[m]) && before[m].local_form < p.local_form)) by {
            if !held(segments, aim, before[m].local_form as int) {
                assert(shorter.contains(before[m]));
                let w = choose|w: int| 0 <= w < shorter.len() && shorter[w] == before[m];
                assert(extra[w] == before[m]);
                assert(extra[w].local_form < extra[n].local_form);
            }
        }
        if !covered(segments, p.local_form as int) {
            assert forall|m: int| 0 <= m < before.len() implies (#[trigger] before[m]).local_form
                != p.local_form by {
                let t = before[m].local_form as int;
                if held(segments, aim, t) {
                    let w = choose|w: int|
                        0 <= w < segments.len() && (#[trigger] segments[w]).boundary.touches(aim)
                            && segments[w].boundary.encloses(t);
                    if t == p.local_form {
                        assert(segments[w].boundary.encloses(p.local_form as int));
                    }
                }
            }
            lemma_spliced_ascending(before, p);
            let r = rank(before, p.local_form as int);
            assert forall|m: int| 0 <= m < all.len() implies held(
                segments,
                aim,
                (#[trigger] all[m]).local_form as int,
            ) || extra.contains(all[m]) by {
                if m < r {
                    assert(all[m] == before[m]);
                } else if m == r {
                    assert(all[m] == extra[n]);
                } else {
                    assert(all[m] == before[m - 1]);
                }
            }
        }
    }
}

/// Merging keeps the invariant: if the segments were coalesced and the new
/// segment is upright, the segments are coalesced afterwards, and the segment
/// that stands for the new one is upright, among them, and spans the new
/// boundary.
pub proof fn lemma_merged_coalesced(segments: Seq<SegmentView>, new_segment: SegmentView)
    requires
        coalesced(segments),
        new_segment.upright(),
    ensures
        coalesced(merged(segments, new_segment)),
        merged_segment(segments, new_segment).upright(),
        merged_segment(segments, new_segment).boundary.spans(new_segment.boundary),
        merged(segments, new_segment).contains(merged_segment(segments, new_segment)),
{
    let aim = new_segment.boundary;
    let k = covering(segments, aim);
    lemma_first_where(segments, |s: SegmentView| s.boundary.spans(aim));
    if k < segments.len() {
        assert(segments[k].upright());
    } else {
        let result = merged_segment(segments, new_segment);
        let keep = |s: SegmentView| !s.boundary.touches(aim);
        let rest = untouched(segments, aim);
        lemma_filter_coalesced(segments, keep);
        lemma_span(segments, aim);
        if touched(segments, aim) {
            let base = gathered(segments, aim);
            lemma_gathered(segments, aim);
            lemma_filled(base, new_segment.points, segments, aim);
            let h = span(segments, aim);
            assert forall|m: int| 0 <= m < result.points.len() implies h.encloses(
                (#[trigger] result.points[m]).local_form as int,
            ) by {
                let t = result.points[m].local_form as int;
                if held(segments, aim, t) {
                    let w = choose|w: int|
                        0 <= w < segments.len() && (#[trigger] segments[w]).boundary.touches(aim)
                            && segments[w].boundary.encloses(t);
                    assert(h.spans(segments[w].boundary));
                } else {
                    assert(new_segment.points.contains(result.points[m]));
                    let w = choose|w: int|
                        0 <= w < new_segment.points.len() && new_segment.points[w]
                            == result.points[m];
                    assert(aim.encloses(new_segment.points[w].local_form as int));
                }
            }
        }
        assert(result.upright());
        assert forall|i: int| 0 <= i < rest.len() implies (#[trigger] rest[i]).boundary.apart(
            result.boundary,
        ) by {
            assert(segments.contains(rest[i]));
            let w = choose|w: int| 0 <= w < segments.len() && segments[w] == rest[i];
            assert(keep(rest[i]));
            assert(segments[w].upright());
            if touched(segments, aim) {
                lemma_span_apart(segments, aim, w);
            }
        }
        lemma_placed_coalesced(rest, result);
        lemma_first_where(rest, |s: SegmentView| s.boundary.start > result.boundary.start as int);
        assert(placed(rest, result)[slot(rest, result.boundary.start as int)] == result);
    }
}

} // verus!
