//! What holds of the cache whatever is put into it.

use crate::approx::{
    coalesced, covered, covering, filled, gathered, merged, merged_segment, placed, span, subset,
    touched, turned, untouched,
};
use crate::cache::lemma_normal_form_upright;
use crate::coalesce::{lemma_merged_coalesced, lemma_span};
use crate::point::{ascending, ApproxPoint};
use crate::search::lemma_first_where_unique;
use crate::sequences::{
    lemma_filter_all, lemma_filter_insert_rejected, lemma_filter_keeps_order, lemma_filter_one,
};
use crate::boundary::CurveBoundary;
use crate::cache::{answer, canonical, entry, inserted};
use crate::search::{first_where, lemma_first_where};
use crate::segment::SegmentView;
use vstd::prelude::*;

verus! {

/// Whether the segment has a direction to normalize: all segments have, but
/// those with a boundary of no length whose points read differently
/// backwards.
pub open spec fn directed(segment: SegmentView) -> bool {
    segment.boundary.start != segment.boundary.end || segment.points.reverse() == segment.points
}

/// Reversing a segment twice gives the segment back.
pub proof fn lemma_reverse_twice(segment: SegmentView)
    ensures
        segment.reversed().reversed() == segment,
{
    assert(segment.points.reverse().reverse() =~= segment.points);
}

/// Turning an approximation round twice gives it back.
pub proof fn lemma_turn_twice(segments: Seq<SegmentView>)
    ensures
        turned(turned(segments)) == segments,
{
    assert forall|i: int| 0 <= i < segments.len() implies turned(turned(segments))[i]
        == segments[i] by {
        lemma_reverse_twice(segments[i]);
    }
    assert(turned(turned(segments)) =~= segments);
}

/// Normalizing is idempotent: a normalized segment is its own normal form.
pub proof fn lemma_normalize_idempotent(segment: SegmentView)
    requires
        directed(segment),
    ensures
        segment.normal_form().normal_form() == segment.normal_form(),
{
    lemma_reverse_twice(segment);
}

/// A segment and its reverse have the same normal form.
pub proof fn lemma_normal_form_of_reverse(segment: SegmentView)
    requires
        directed(segment),
    ensures
        segment.reversed().normal_form() == segment.normal_form(),
{
    lemma_reverse_twice(segment);
}

/// The direction in which a segment is handed in does not matter to what is
/// stored: inserting a segment, or the same segment reversed, leaves the
/// same cache and yields the same segment.
pub proof fn lemma_insert_ignores_direction(
    cache: Map<u64, Seq<SegmentView>>,
    curve: u64,
    segment: SegmentView,
)
    requires
        directed(segment),
    ensures
        inserted(cache, curve, segment.reversed()) == inserted(cache, curve, segment),
        canonical(cache, curve, segment.reversed()) == canonical(cache, curve, segment),
{
    lemma_normal_form_of_reverse(segment);
}

/// Nothing of a boundary of no length is ever known.
pub proof fn lemma_subset_of_point(segments: Seq<SegmentView>, boundary: CurveBoundary)
    requires
        boundary.start == boundary.end,
    ensures
        subset(segments, boundary) == Seq::<SegmentView>::empty(),
{
    lemma_subset_of_gap(segments, boundary);
}

/// Where no segment has a stretch in common with the boundary, nothing is
/// known of it.
pub proof fn lemma_subset_of_gap(segments: Seq<SegmentView>, boundary: CurveBoundary)
    requires
        forall|i: int|
            0 <= i < segments.len() ==> (#[trigger] segments[i]).boundary.intersection(
                boundary,
            ).empty(),
    ensures
        subset(segments, boundary) == Seq::<SegmentView>::empty(),
{
    let clipped = segments.map_values(|s: SegmentView| s.clipped(boundary));
    let keep = |s: SegmentView| !s.boundary.empty();
    assert forall|i: int| 0 <= i < clipped.len() implies !keep(#[trigger] clipped[i]) by {
        assert(clipped[i].boundary == segments[i].boundary.intersection(boundary));
    }
    clipped.lemma_all_neg_filter_empty(keep);
    assert(clipped.filter(keep) =~= Seq::<SegmentView>::empty());
}

/// Asking for a boundary backwards gives the answer backwards.
pub proof fn lemma_answer_reversed(segments: Seq<SegmentView>, boundary: CurveBoundary)
    ensures
        answer(segments, boundary.reversed()) == turned(answer(segments, boundary)),
{
    if boundary.start == boundary.end {
        lemma_subset_of_point(segments, boundary);
        assert(turned(Seq::<SegmentView>::empty()) =~= Seq::<SegmentView>::empty());
    } else if boundary.start < boundary.end {
    } else {
        lemma_turn_twice(subset(segments, boundary.reversed()));
    }
}

/// A request beyond all that is known of a curve is answered with no
/// segment.
pub proof fn lemma_answer_beyond_coverage(segments: Seq<SegmentView>, boundary: CurveBoundary)
    requires
        forall|i: int|
            0 <= i < segments.len() ==> (#[trigger] segments[i]).boundary.intersection(
                boundary.normal_form(),
            ).empty(),
    ensures
        answer(segments, boundary).len() == 0,
{
    lemma_subset_of_gap(segments, boundary.normal_form());
    assert(turned(Seq::<SegmentView>::empty()) =~= Seq::<SegmentView>::empty());
}

/// What was there first stays: where a segment of the curve already spans
/// the new boundary, inserting changes nothing, and yields the first such
/// segment as it was, whatever points the new segment has.
pub proof fn lemma_first_writer_wins(
    cache: Map<u64, Seq<SegmentView>>,
    curve: u64,
    segment: SegmentView,
    k: int,
)
    requires
        cache.contains_key(curve),
        0 <= k < cache[curve].len(),
        cache[curve][k].boundary.spans(segment.boundary.normal_form()),
    ensures
        inserted(cache, curve, segment) == cache,
        0 <= covering(cache[curve], segment.boundary.normal_form()) <= k,
        canonical(cache, curve, segment) == cache[curve][covering(
            cache[curve],
            segment.boundary.normal_form(),
        )],
        canonical(cache, curve, segment).boundary.spans(segment.boundary.normal_form()),
{
    let aim = segment.boundary.normal_form();
    assert(segment.normal_form().boundary == aim);
    lemma_first_where(cache[curve], |s: SegmentView| s.boundary.spans(aim));
    assert(inserted(cache, curve, segment) =~= cache);
}

/// A boundary that spans another overlaps it.
pub proof fn lemma_spans_touches(a: CurveBoundary, b: CurveBoundary)
    requires
        a.spans(b),
    ensures
        a.touches(b),
{
}

/// Where the new boundary neither overlaps nor touches any segment of the
/// curve, inserting yields the new segment, normalized and otherwise
/// unchanged, and the curve has it as one more segment beside the others.
pub proof fn lemma_disjoint_insert(
    cache: Map<u64, Seq<SegmentView>>,
    curve: u64,
    segment: SegmentView,
)
    requires
        cache.contains_key(curve),
        !touched(cache[curve], segment.boundary.normal_form()),
    ensures
        canonical(cache, curve, segment) == segment.normal_form(),
        entry(cache, curve, segment) == placed(cache[curve], segment.normal_form()),
        entry(cache, curve, segment).len() == cache[curve].len() + 1,
        forall|i: int|
            0 <= i < cache[curve].len() ==> entry(cache, curve, segment).contains(
                #[trigger] cache[curve][i],
            ),
        entry(cache, curve, segment).contains(segment.normal_form()),
{
    let segments = cache[curve];
    let new_segment = segment.normal_form();
    let aim = segment.boundary.normal_form();
    assert(new_segment.boundary == aim);
    lemma_first_where(segments, |s: SegmentView| s.boundary.spans(aim));
    let k = covering(segments, aim);
    if k < segments.len() {
        lemma_spans_touches(segments[k].boundary, aim);
    }
    let keep = |s: SegmentView| !s.boundary.touches(aim);
    assert(segments.filter(keep) == segments) by {
        lemma_filter_all(segments, keep);
    }
    let at = crate::approx::slot(segments, aim.start as int);
    lemma_first_where(segments, |s: SegmentView| s.boundary.start > aim.start as int);
    let after = placed(segments, new_segment);
    assert(after[at] == new_segment);
    assert forall|i: int| 0 <= i < segments.len() implies after.contains(
        #[trigger] segments[i],
    ) by {
        if i < at {
            assert(after[i] == segments[i]);
        } else {
            assert(after[i + 1] == segments[i]);
        }
    }
}

/// Clipping an upright segment to its own boundary leaves it as it is.
pub proof fn lemma_clipped_to_itself(segment: SegmentView)
    requires
        segment.upright(),
    ensures
        segment.clipped(segment.boundary) == segment,
{
    let b = segment.boundary.intersection(segment.boundary);
    assert(b == segment.boundary);
    lemma_filter_all(segment.points, |p: ApproxPoint| b.encloses(p.local_form as int));
}

/// Asking for exactly the boundary of a segment that the curve has gives
/// exactly that segment.
pub proof fn lemma_answer_exact_match(segments: Seq<SegmentView>, k: int)
    requires
        coalesced(segments),
        0 <= k < segments.len(),
        segments[k].boundary.start < segments[k].boundary.end,
    ensures
        answer(segments, segments[k].boundary) == seq![segments[k]],
{
    let aim = segments[k].boundary;
    let clipped = segments.map_values(|s: SegmentView| s.clipped(aim));
    let keep = |s: SegmentView| !s.boundary.empty();
    lemma_clipped_to_itself(segments[k]);
    assert forall|i: int| 0 <= i < clipped.len() implies (keep(#[trigger] clipped[i]) <==> i
        == k) by {
        assert(clipped[i].boundary == segments[i].boundary.intersection(aim));
        assert(segments[i].upright());
        if i < k {
            assert(segments[i].boundary.end < segments[k].boundary.start);
        } else if k < i {
            assert(segments[k].boundary.end < segments[i].boundary.start);
        }
    }
    lemma_filter_one(clipped, keep, k);
}

/// Two segments that meet at an endpoint, run one after the other.
pub open spec fn joined(lower: SegmentView, upper: SegmentView) -> SegmentView {
    SegmentView {
        boundary: CurveBoundary { start: lower.boundary.start, end: upper.boundary.end },
        points: lower.points + upper.points,
    }
}

/// Filling the points of a segment into those of the one that ends where it
/// starts puts them behind.
proof fn lemma_filled_above(lower: SegmentView, upper: SegmentView, extra: Seq<ApproxPoint>)
    requires
        lower.upright(),
        lower.boundary.end <= upper.boundary.start,
        ascending(extra),
        forall|i: int|
            0 <= i < extra.len() ==> upper.boundary.encloses((#[trigger] extra[i]).local_form as int),
    ensures
        filled(lower.points, extra, seq![lower]) == lower.points + extra,
    decreases extra.len(),
{
    if extra.len() == 0 {
        assert(lower.points + extra =~= lower.points);
    } else {
        let shorter = extra.drop_last();
        let p = extra.last();
        let n = extra.len() - 1;
        assert(extra[n] == p);
        assert forall|i: int, j: int| 0 <= i < j < shorter.len() implies (
        #[trigger] shorter[i]).local_form < (#[trigger] shorter[j]).local_form by {
            assert(shorter[i] == extra[i] && shorter[j] == extra[j]);
        }
        assert forall|i: int| 0 <= i < shorter.len() implies upper.boundary.encloses(
            (#[trigger] shorter[i]).local_form as int,
        ) by {
            assert(shorter[i] == extra[i]);
        }
        lemma_filled_above(lower, upper, shorter);
        let before = lower.points + shorter;
        let t = p.local_form as int;
        assert(!covered(seq![lower], t)) by {
            if covered(seq![lower], t) {
                let w = choose|w: int|
                    0 <= w < seq![lower].len() && (#[trigger] seq![lower][w]).boundary.encloses(t);
                assert(seq![lower][w] == lower);
            }
        }
        assert forall|j: int| 0 <= j < before.len() implies !(|q: ApproxPoint| q.local_form > t)(
            #[trigger] before[j],
        ) by {
            if j < lower.points.len() {
                assert(before[j] == lower.points[j]);
                assert(lower.boundary.encloses(lower.points[j].local_form as int));
            } else {
                assert(before[j] == extra[j - lower.points.len()]);
                assert(extra[j - lower.points.len()].local_form < extra[n].local_form);
            }
        }
        lemma_first_where_unique(before, |q: ApproxPoint| q.local_form > t, before.len() as int);
        assert(before.insert(before.len() as int, p) =~= lower.points + extra);
    }
}

/// Filling the points of a segment into those of the one that starts where
/// it ends puts them in front.
proof fn lemma_filled_below(lower: SegmentView, upper: SegmentView, extra: Seq<ApproxPoint>)
    requires
        upper.upright(),
        lower.boundary.end <= upper.boundary.start,
        ascending(extra),
        forall|i: int|
            0 <= i < extra.len() ==> lower.boundary.encloses((#[trigger] extra[i]).local_form as int),
    ensures
        filled(upper.points, extra, seq![upper]) == extra + upper.points,
    decreases extra.len(),
{
    if extra.len() == 0 {
        assert(extra + upper.points =~= upper.points);
    } else {
        let shorter = extra.drop_last();
        let p = extra.last();
        let n = extra.len() - 1;
        assert(extra[n] == p);
        assert forall|i: int, j: int| 0 <= i < j < shorter.len() implies (
        #[trigger] shorter[i]).local_form < (#[trigger] shorter[j]).local_form by {
            assert(shorter[i] == extra[i] && shorter[j] == extra[j]);
        }
        assert forall|i: int| 0 <= i < shorter.len() implies lower.boundary.encloses(
            (#[trigger] shorter[i]).local_form as int,
        ) by {
            assert(shorter[i] == extra[i]);
        }
        lemma_filled_below(lower, upper, shorter);
        let before = shorter + upper.points;
        let t = p.local_form as int;
        assert(!covered(seq![upper], t)) by {
            if covered(seq![upper], t) {
                let w = choose|w: int|
                    0 <= w < seq![upper].len() && (#[trigger] seq![upper][w]).boundary.encloses(t);
                assert(seq![upper][w] == upper);
            }
        }
        assert forall|j: int| 0 <= j < n implies !(|q: ApproxPoint| q.local_form > t)(
            #[trigger] before[j],
        ) by {
            assert(before[j] == extra[j]);
            assert(extra[j].local_form < extra[n].local_form);
        }
        if n < before.len() {
            assert(before[n] == upper.points[0]);
            assert(upper.boundary.encloses(upper.points[0].local_form as int));
        }
        lemma_first_where_unique(before, |q: ApproxPoint| q.local_form > t, n);
        assert(before.insert(n, p) =~= extra + upper.points);
    }
}

/// Merging a segment into a curve that has one segment which meets it at an
/// endpoint leaves one segment: the two joined.
pub proof fn lemma_merged_adjacent(stored: SegmentView, new_segment: SegmentView)
    requires
        stored.upright(),
        new_segment.upright(),
        stored.boundary.start < stored.boundary.end,
        new_segment.boundary.start < new_segment.boundary.end,
        stored.boundary.end == new_segment.boundary.start || new_segment.boundary.end
            == stored.boundary.start,
    ensures
        merged(seq![stored], new_segment) == seq![
            if stored.boundary.end == new_segment.boundary.start {
                joined(stored, new_segment)
            } else {
                joined(new_segment, stored)
            },
        ],
{
    let segments = seq![stored];
    let aim = new_segment.boundary;
    assert(segments[0] == stored);
    assert(segments.drop_last() =~= Seq::<SegmentView>::empty());
    assert(segments.last() == stored);
    lemma_first_where_unique(segments, |s: SegmentView| s.boundary.spans(aim), 1);
    assert(stored.boundary.touches(aim));
    assert(touched(segments, aim));
    reveal_with_fuel(span, 2);
    reveal_with_fuel(gathered, 2);
    assert(gathered(segments, aim) =~= stored.points);
    if stored.boundary.end == new_segment.boundary.start {
        lemma_filled_above(stored, new_segment, new_segment.points);
    } else {
        lemma_filled_below(new_segment, stored, new_segment.points);
    }
    let result = merged_segment(segments, new_segment);
    let keep = |s: SegmentView| !s.boundary.touches(aim);
    segments.lemma_all_neg_filter_empty(keep);
    let rest = untouched(segments, aim);
    assert(rest =~= Seq::<SegmentView>::empty());
    lemma_first_where_unique(rest, |s: SegmentView| s.boundary.start > result.boundary.start as int, 0);
    assert(placed(rest, result) =~= seq![result]);
}

/// Two segments that meet at an endpoint become one: once both have been
/// inserted for a curve that was not known, in either order and each in
/// either direction, asking for the whole stretch gives one segment, which
/// spans it and has the points of both in ascending order.
pub proof fn lemma_adjacent_inserts_merge(
    cache: Map<u64, Seq<SegmentView>>,
    curve: u64,
    first: SegmentView,
    second: SegmentView,
)
    requires
        !cache.contains_key(curve),
        first.well_formed(),
        second.well_formed(),
        first.boundary.start != first.boundary.end,
        second.boundary.start != second.boundary.end,
        first.boundary.normal_form().end == second.boundary.normal_form().start
            || second.boundary.normal_form().end == first.boundary.normal_form().start,
    ensures
        ({
            let lower = if first.boundary.normal_form().end == second.boundary.normal_form().start {
                first.normal_form()
            } else {
                second.normal_form()
            };
            let upper = if first.boundary.normal_form().end == second.boundary.normal_form().start {
                second.normal_form()
            } else {
                first.normal_form()
            };
            let after = inserted(inserted(cache, curve, first), curve, second);
            &&& after[curve] == seq![joined(lower, upper)]
            &&& answer(after[curve], joined(lower, upper).boundary) == seq![joined(lower, upper)]
            &&& joined(lower, upper).upright()
        }),
{
    lemma_normal_form_upright(first);
    lemma_normal_form_upright(second);
    let a = first.normal_form();
    let b = second.normal_form();
    assert(a.boundary == first.boundary.normal_form());
    assert(b.boundary == second.boundary.normal_form());
    let once = inserted(cache, curve, first);
    assert(once[curve] == seq![a]);
    lemma_merged_adjacent(a, b);
    let whole = merged(seq![a], b)[0];
    assert(coalesced(seq![a])) by {
        assert(seq![a][0] == a);
    }
    lemma_merged_coalesced(seq![a], b);
    assert(whole.upright());
    lemma_answer_exact_match(seq![whole], 0);
}

/// What a coalesced approximation holds within a boundary is coalesced too,
/// and each of its segments covers a stretch within that boundary.
pub proof fn lemma_subset_coalesced(segments: Seq<SegmentView>, boundary: CurveBoundary)
    requires
        coalesced(segments),
    ensures
        coalesced(subset(segments, boundary)),
        forall|i: int|
            0 <= i < subset(segments, boundary).len() ==> {
                let b = (#[trigger] subset(segments, boundary)[i]).boundary;
                b.start < b.end && boundary.spans(b)
            },
{
    let clipped = segments.map_values(|s: SegmentView| s.clipped(boundary));
    let keep = |s: SegmentView| !s.boundary.empty();
    let apart = |a: SegmentView, b: SegmentView| a.boundary.end < b.boundary.start;
    assert forall|i: int, j: int| 0 <= i < j < clipped.len() implies apart(
        #[trigger] clipped[i],
        #[trigger] clipped[j],
    ) by {
        assert(segments[i].boundary.end < segments[j].boundary.start);
    }
    lemma_filter_keeps_order(clipped, keep, apart);
    let left = subset(segments, boundary);
    assert forall|i: int| 0 <= i < left.len() implies (#[trigger] left[i]).upright() && boundary.spans(
        left[i].boundary,
    ) by {
        assert(clipped.contains(left[i]));
        let w = choose|w: int| 0 <= w < clipped.len() && clipped[w] == left[i];
        let b = segments[w].boundary.intersection(boundary);
        let inside = |p: ApproxPoint| b.encloses(p.local_form as int);
        let rising = |p: ApproxPoint, q: ApproxPoint| p.local_form < q.local_form;
        assert(segments[w].upright());
        lemma_filter_keeps_order(segments[w].points, inside, rising);
        assert(left[i].points == segments[w].points.filter(inside));
        assert(keep(left[i]));
    }
}

/// Every segment of an answer from a coalesced approximation is well
/// formed and covers a stretch of the curve.
pub proof fn lemma_answer_well_formed(segments: Seq<SegmentView>, boundary: CurveBoundary)
    requires
        coalesced(segments),
    ensures
        forall|i: int|
            0 <= i < answer(segments, boundary).len() ==> (#[trigger] answer(
                segments,
                boundary,
            )[i]).well_formed() && answer(segments, boundary)[i].boundary.start != answer(
                segments,
                boundary,
            )[i].boundary.end,
{
    let left = subset(segments, boundary.normal_form());
    lemma_subset_coalesced(segments, boundary.normal_form());
    if !boundary.normalized() {
        let back = turned(left);
        assert forall|i: int| 0 <= i < back.len() implies (#[trigger] back[i]).well_formed()
            && back[i].boundary.start != back[i].boundary.end by {
            let s = left[left.len() - 1 - i];
            assert(back[i] == s.reversed());
            assert(s.upright());
            lemma_reverse_twice(s);
        }
    } else {
        assert forall|i: int| 0 <= i < left.len() implies (#[trigger] left[i]).well_formed()
            && left[i].boundary.start != left[i].boundary.end by {
            assert(left[i].upright());
        }
    }
}

/// The points that filling adds lie inside no segment: a filter that only
/// passes points inside a segment finds what it found before.
proof fn lemma_filled_filter(
    base: Seq<ApproxPoint>,
    extra: Seq<ApproxPoint>,
    segments: Seq<SegmentView>,
    inside: spec_fn(ApproxPoint) -> bool,
)
    requires
        forall|p: ApproxPoint| #[trigger] inside(p) ==> covered(segments, p.local_form as int),
    ensures
        filled(base, extra, segments).filter(inside) == base.filter(inside),
    decreases extra.len(),
{
    if extra.len() > 0 {
        let shorter = extra.drop_last();
        let p = extra.last();
        lemma_filled_filter(base, shorter, segments, inside);
        if !covered(segments, p.local_form as int) {
            let before = filled(base, shorter, segments);
            lemma_first_where(before, |q: ApproxPoint| q.local_form > p.local_form as int);
            lemma_filter_insert_rejected(
                before,
                inside,
                first_where(before, |q: ApproxPoint| q.local_form > p.local_form as int),
                p,
            );
        }
    }
}

/// Of the gathered points, those inside one of the segments that touch the
/// boundary are the points of that segment.
proof fn lemma_gathered_filter(segments: Seq<SegmentView>, aim: CurveBoundary, k: int, m: int)
    requires
        coalesced(segments),
        0 <= k < segments.len(),
        0 <= m <= segments.len(),
        segments[k].boundary.touches(aim),
    ensures
        gathered(segments.take(m), aim).filter(
            |p: ApproxPoint| segments[k].boundary.encloses(p.local_form as int),
        ) == if k < m {
            segments[k].points
        } else {
            Seq::<ApproxPoint>::empty()
        },
    decreases m,
{
    let inside = |p: ApproxPoint| segments[k].boundary.encloses(p.local_form as int);
    if m == 0 {
        assert(gathered(segments.take(0), aim) =~= Seq::<ApproxPoint>::empty());
        Seq::<ApproxPoint>::empty().lemma_all_neg_filter_empty(inside);
        assert(Seq::<ApproxPoint>::empty().filter(inside) =~= Seq::<ApproxPoint>::empty());
    } else {
        lemma_gathered_filter(segments, aim, k, m - 1);
        let prefix = segments.take(m);
        assert(prefix.drop_last() =~= segments.take(m - 1));
        let last = segments[m - 1];
        assert(prefix.last() == last);
        let before = gathered(segments.take(m - 1), aim);
        assert(last.upright());
        assert(segments[k].upright());
        if last.boundary.touches(aim) {
            Seq::filter_distributes_over_add(before, last.points, inside);
            if m - 1 == k {
                lemma_filter_all(last.points, inside);
                assert(Seq::<ApproxPoint>::empty() + last.points =~= last.points);
            } else {
                assert forall|i: int| 0 <= i < last.points.len() implies !inside(
                    #[trigger] last.points[i],
                ) by {
                    assert(last.boundary.encloses(last.points[i].local_form as int));
                    if m - 1 < k {
                        assert(segments[m - 1].boundary.end < segments[k].boundary.start);
                    } else {
                        assert(segments[k].boundary.end < segments[m - 1].boundary.start);
                    }
                }
                last.points.lemma_all_neg_filter_empty(inside);
                assert(last.points.filter(inside) =~= Seq::<ApproxPoint>::empty());
                assert(before.filter(inside) + Seq::<ApproxPoint>::empty() =~= before.filter(
                    inside,
                ));
            }
        }
    }
}

/// What is known of a curve stays as it is: after any upright segment has
/// been merged in, asking for the boundary of a segment that the curve had
/// before gives that segment, with the points it had.
pub proof fn lemma_merge_keeps_known(
    segments: Seq<SegmentView>,
    new_segment: SegmentView,
    k: int,
)
    requires
        coalesced(segments),
        new_segment.upright(),
        0 <= k < segments.len(),
        segments[k].boundary.start < segments[k].boundary.end,
    ensures
        answer(merged(segments, new_segment), segments[k].boundary) == seq![segments[k]],
{
    let aim = new_segment.boundary;
    let known = segments[k];
    let after = merged(segments, new_segment);
    lemma_merged_coalesced(segments, new_segment);
    lemma_first_where(segments, |s: SegmentView| s.boundary.spans(aim));
    if covering(segments, aim) < segments.len() {
        lemma_answer_exact_match(segments, k);
    } else {
        let result = merged_segment(segments, new_segment);
        let keep = |s: SegmentView| !s.boundary.touches(aim);
        let rest = untouched(segments, aim);
        let at = crate::approx::slot(rest, result.boundary.start as int);
        lemma_first_where(rest, |s: SegmentView| s.boundary.start > result.boundary.start as int);
        assert(after == rest.insert(at, result));
        if !known.boundary.touches(aim) {
            segments.lemma_filter_contains(keep, k);
            assert(rest.contains(known));
            let w = choose|w: int| 0 <= w < rest.len() && rest[w] == known;
            let j = if w < at {
                w
            } else {
                w + 1
            };
            assert(after[j] == known);
            lemma_answer_exact_match(after, j);
        } else {
            assert(touched(segments, aim));
            assert(after[at] == result);
            lemma_span(segments, aim);
            assert(result.boundary.spans(known.boundary));
            let inside = |p: ApproxPoint| known.boundary.encloses(p.local_form as int);
            assert forall|p: ApproxPoint| #[trigger] inside(p) implies covered(
                segments,
                p.local_form as int,
            ) by {
                assert(segments[k].boundary.encloses(p.local_form as int));
            }
            lemma_filled_filter(gathered(segments, aim), new_segment.points, segments, inside);
            lemma_gathered_filter(segments, aim, k, segments.len() as int);
            assert(segments.take(segments.len() as int) =~= segments);
            assert(result.boundary.intersection(known.boundary) == known.boundary);
            assert(result.clipped(known.boundary) == known);
            let clipped = after.map_values(|s: SegmentView| s.clipped(known.boundary));
            let left = |s: SegmentView| !s.boundary.empty();
            assert forall|i: int| 0 <= i < clipped.len() implies (left(#[trigger] clipped[i]) <==> i
                == at) by {
                assert(clipped[i].boundary == after[i].boundary.intersection(known.boundary));
                assert(after[i].upright());
                if i < at {
                    assert(after[i].boundary.end < after[at].boundary.start);
                } else if at < i {
                    assert(after[at].boundary.end < after[i].boundary.start);
                }
            }
            lemma_filter_one(clipped, left, at);
        }
    }
}

/// What the cache knows stays as it is: after any well-formed segment has
/// been inserted for a curve, asking for the boundary of a segment that the
/// curve had before gives that segment, with the points it had.
pub proof fn lemma_insert_keeps_known(
    cache: Map<u64, Seq<SegmentView>>,
    curve: u64,
    segment: SegmentView,
    k: int,
)
    requires
        crate::cache::consistent(cache),
        cache.contains_key(curve),
        segment.well_formed(),
        0 <= k < cache[curve].len(),
        cache[curve][k].boundary.start < cache[curve][k].boundary.end,
    ensures
        answer(inserted(cache, curve, segment)[curve], cache[curve][k].boundary) == seq![
            cache[curve][k],
        ],
{
    lemma_normal_form_upright(segment);
    lemma_merge_keeps_known(cache[curve], segment.normal_form(), k);
}

} // verus!
