//! Sub-ranges of a curve's one-dimensional parameter space.

use vstd::prelude::*;

verus! {

/// A sub-range of a curve, given by two parameter values in either direction.
///
/// A parameter value is held as a signed integer key; keys order as the
/// parameter values they stand for.
#[derive(Clone, Copy, Debug, PartialEq, Eq, Hash, Structural)]
pub struct CurveBoundary {
    /// Where the range begins, in the direction it was given.
    pub start: i64,
    /// Where the range ends, in the direction it was given.
    pub end: i64,
}

impl CurveBoundary {
    /// The boundary with the two endpoints exchanged.
    pub open spec fn reversed(self) -> CurveBoundary {
        CurveBoundary { start: self.end, end: self.start }
    }

    /// A boundary is normalized when it runs strictly upwards.
    pub open spec fn normalized(self) -> bool {
        self.start < self.end
    }

    /// The boundary in normalized direction: unchanged if it is normalized,
    /// reversed if it is not.
    pub open spec fn normal_form(self) -> CurveBoundary {
        if self.normalized() {
            self
        } else {
            self.reversed()
        }
    }

    /// Whether `t` lies strictly between the two endpoints, taken upwards.
    pub open spec fn encloses(self, t: int) -> bool {
        self.start < t < self.end
    }

    /// Whether two boundaries overlap or touch at an endpoint, each taken in
    /// its normalized direction.
    pub open spec fn touches(self, other: CurveBoundary) -> bool {
        self.normal_form().start <= other.normal_form().end && self.normal_form().end
            >= other.normal_form().start
    }

    /// The common part of two boundaries; it encloses nothing where they do
    /// not overlap.
    pub open spec fn intersection(self, other: CurveBoundary) -> CurveBoundary {
        CurveBoundary {
            start: if self.start >= other.start { self.start } else { other.start },
            end: if self.end <= other.end { self.end } else { other.end },
        }
    }

    /// The smallest boundary that covers both.
    pub open spec fn hull(self, other: CurveBoundary) -> CurveBoundary {
        CurveBoundary {
            start: if self.start <= other.start { self.start } else { other.start },
            end: if self.end >= other.end { self.end } else { other.end },
        }
    }

    /// Whether the boundary reaches at least as far as `other` at both ends.
    pub open spec fn spans(self, other: CurveBoundary) -> bool {
        self.start <= other.start && other.end <= self.end
    }

    /// Whether one of the two boundaries ends before the other starts, so
    /// that they do not even touch.
    pub open spec fn apart(self, other: CurveBoundary) -> bool {
        self.end < other.start || other.end < self.start
    }

    /// Whether the boundary covers no stretch of the curve.
    pub open spec fn empty(self) -> bool {
        self.start >= self.end
    }

    /// The boundary from `start` to `end`.
    pub fn new(start: i64, end: i64) -> (b: CurveBoundary)
        ensures
            b.start == start,
            b.end == end,
    {
        CurveBoundary { start, end }
    }

    /// Whether the boundary runs strictly upwards.
    pub fn is_normalized(&self) -> (r: bool)
        ensures
            r == self.normalized(),
    {
        self.start < self.end
    }

    /// Whether the boundary covers no stretch of the curve.
    pub fn is_empty(&self) -> (r: bool)
        ensures
            r == self.empty(),
    {
        self.start >= self.end
    }

    /// The boundary with its two endpoints exchanged.
    pub fn reverse(self) -> (b: CurveBoundary)
        ensures
            b == self.reversed(),
    {
        CurveBoundary { start: self.end, end: self.start }
    }

    /// The boundary in normalized direction.
    pub fn normalize(self) -> (b: CurveBoundary)
        ensures
            b == self.normal_form(),
    {
        if self.is_normalized() {
            self
        } else {
            self.reverse()
        }
    }

    /// Whether `t` lies strictly between the two endpoints, taken upwards.
    pub fn contains(&self, t: i64) -> (r: bool)
        ensures
            r == self.encloses(t as int),
    {
        self.start < t && t < self.end
    }

    /// Whether the two boundaries overlap or touch at an endpoint, whatever
    /// their directions.
    pub fn overlaps(&self, other: &CurveBoundary) -> (r: bool)
        ensures
            r == self.touches(*other),
    {
        let a = self.normalize();
        let b = other.normalize();
        a.start <= b.end && a.end >= b.start
    }

    /// Whether the boundary reaches at least as far as `other` at both ends.
    pub fn covers(&self, other: &CurveBoundary) -> (r: bool)
        ensures
            r == self.spans(*other),
    {
        self.start <= other.start && other.end <= self.end
    }

    /// The common part of the two boundaries.
    pub fn subset(self, other: CurveBoundary) -> (b: CurveBoundary)
        ensures
            b == self.intersection(other),
    {
        CurveBoundary {
            start: if self.start >= other.start { self.start } else { other.start },
            end: if self.end <= other.end { self.end } else { other.end },
        }
    }

    /// The smallest boundary that covers both.
    pub fn union(self, other: CurveBoundary) -> (b: CurveBoundary)
        ensures
            b == self.hull(other),
    {
        CurveBoundary {
            start: if self.start <= other.start { self.start } else { other.start },
            end: if self.end >= other.end { self.end } else { other.end },
        }
    }
}

} // verus!
