//! One approximated stretch of a curve.

use crate::boundary::CurveBoundary;
use crate::point::{ascending, reversed_points, ApproxPoint};
use vstd::prelude::*;

verus! {

/// What a segment is: a boundary, and the sample points between its ends.
pub struct SegmentView {
    pub boundary: CurveBoundary,
    pub points: Seq<ApproxPoint>,
}

impl SegmentView {
    /// The segment run the other way: endpoints exchanged, points in the
    /// opposite order.
    pub open spec fn reversed(self) -> SegmentView {
        SegmentView { boundary: self.boundary.reversed(), points: self.points.reverse() }
    }

    /// The segment in normalized direction: unchanged if its boundary is
    /// normalized, reversed if it is not.
    pub open spec fn normal_form(self) -> SegmentView {
        if self.boundary.normalized() {
            self
        } else {
            self.reversed()
        }
    }

    /// The part of the segment within `boundary`: the boundary clipped, and
    /// the points that lie strictly inside what is left.
    pub open spec fn clipped(self, boundary: CurveBoundary) -> SegmentView {
        let b = self.boundary.intersection(boundary);
        SegmentView { boundary: b, points: self.points.filter(|p: ApproxPoint| b.encloses(p.local_form as int)) }
    }

    /// A segment that runs upwards, or not at all, with its points strictly
    /// inside its boundary and strictly upwards.
    pub open spec fn upright(self) -> bool {
        &&& self.boundary.start <= self.boundary.end
        &&& ascending(self.points)
        &&& forall|i: int|
            0 <= i < self.points.len() ==> self.boundary.encloses(
                (#[trigger] self.points[i]).local_form as int,
            )
    }

    /// The invariant of a segment in either direction: run upwards, it is
    /// upright.
    pub open spec fn well_formed(self) -> bool {
        if self.boundary.start <= self.boundary.end {
            self.upright()
        } else {
            self.reversed().upright()
        }
    }
}

/// An approximated stretch of a curve: a boundary, and the points that were
/// computed between its ends, in the boundary's direction.
#[derive(Debug, PartialEq, Eq)]
pub struct CurveApproxSegment {
    /// The stretch of the curve that was approximated.
    pub boundary: CurveBoundary,
    /// The points between the two ends.
    pub points: Vec<ApproxPoint>,
}

impl View for CurveApproxSegment {
    type V = SegmentView;

    open spec fn view(&self) -> SegmentView {
        SegmentView { boundary: self.boundary, points: self.points@ }
    }
}

impl Clone for CurveApproxSegment {
    fn clone(&self) -> (copy: CurveApproxSegment)
        ensures
            copy@ == self@,
    {
        let mut points: Vec<ApproxPoint> = Vec::new();
        let mut i: usize = 0;
        while i < self.points.len()
            invariant
                i <= self.points.len(),
                points@ == self.points@.take(i as int),
            decreases self.points.len() - i,
        {
            points.push(self.points[i]);
            assert(self.points@.take(i + 1) =~= self.points@.take(i as int).push(
                self.points@[i as int],
            ));
            i += 1;
        }
        assert(self.points@.take(i as int) =~= self.points@);
        CurveApproxSegment { boundary: self.boundary, points }
    }
}

impl CurveApproxSegment {
    /// Whether the segment covers no stretch of the curve.
    pub fn is_empty(&self) -> (r: bool)
        ensures
            r == self@.boundary.empty(),
    {
        self.boundary.is_empty()
    }

    /// Whether the segment runs in normalized direction.
    pub fn is_normalized(&self) -> (r: bool)
        ensures
            r == self@.boundary.normalized(),
    {
        self.boundary.is_normalized()
    }

    /// Whether the two segments overlap or touch at an endpoint.
    pub fn overlaps(&self, other: &CurveApproxSegment) -> (r: bool)
        ensures
            r == self@.boundary.touches(other@.boundary),
    {
        self.boundary.overlaps(&other.boundary)
    }

    /// Turns the segment round.
    pub fn reverse(&mut self)
        ensures
            final(self)@ == old(self)@.reversed(),
    {
        self.boundary = self.boundary.reverse();
        self.points = reversed_points(&self.points);
    }

    /// Brings the segment into normalized direction.
    pub fn normalize(&mut self)
        ensures
            final(self)@ == old(self)@.normal_form(),
    {
        if !self.is_normalized() {
            self.reverse();
        }
    }

    /// Cuts the segment down to what lies within `boundary`.
    pub fn make_subset(&mut self, boundary: CurveBoundary)
        ensures
            final(self)@ == old(self)@.clipped(boundary),
    {
        let b = self.boundary.subset(boundary);
        let ghost keep = |p: ApproxPoint| b.encloses(p.local_form as int);
        let mut points: Vec<ApproxPoint> = Vec::new();
        let mut i: usize = 0;
        while i < self.points.len()
            invariant
                i <= self.points.len(),
                keep == |p: ApproxPoint| b.encloses(p.local_form as int),
                points@ == self.points@.take(i as int).filter(keep),
            decreases self.points.len() - i,
        {
            let p = self.points[i];
            proof {
                reveal(Seq::filter);
                assert(self.points@.take(i + 1).drop_last() =~= self.points@.take(i as int));
            }
            if b.contains(p.local_form) {
                points.push(p);
            }
            i += 1;
        }
        assert(self.points@.take(i as int) =~= self.points@);
        self.boundary = b;
        self.points = points;
    }
}

} // verus!
