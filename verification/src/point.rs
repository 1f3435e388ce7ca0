//! Sample points of a curve approximation.

use crate::search::{first_where, lemma_first_where_unique};
use vstd::prelude::*;

verus! {

/// One sample of a curve: where it sits on the curve, and where that is in
/// the embedding space.
///
/// Both positions are held as integer keys. Only the order and equality of
/// the curve position matter here; the position in space is carried along
/// untouched.
#[derive(Clone, Copy, Debug, PartialEq, Eq, Hash, Structural)]
pub struct ApproxPoint {
    /// Position on the curve.
    pub local_form: i64,
    /// First coordinate of the position in space.
    pub x: i64,
    /// Second coordinate of the position in space.
    pub y: i64,
    /// Third coordinate of the position in space.
    pub z: i64,
}

impl ApproxPoint {
    /// The point at `local_form` on the curve and at `global_form` in space.
    pub fn new(local_form: i64, global_form: [i64; 3]) -> (p: ApproxPoint)
        ensures
            p.local_form == local_form,
            p.x == global_form[0],
            p.y == global_form[1],
            p.z == global_form[2],
    {
        ApproxPoint { local_form, x: global_form[0], y: global_form[1], z: global_form[2] }
    }

    /// The position in space, as its three coordinates.
    pub fn global_form(&self) -> (g: [i64; 3])
        ensures
            g[0] == self.x,
            g[1] == self.y,
            g[2] == self.z,
    {
        [self.x, self.y, self.z]
    }
}

/// Whether the points run strictly upwards along the curve.
pub open spec fn ascending(points: Seq<ApproxPoint>) -> bool {
    forall|i: int, j: int|
        0 <= i < j < points.len() ==> (#[trigger] points[i]).local_form < (
        #[trigger] points[j]).local_form
}

/// The index before which a point at curve position `t` belongs: that of the
/// first point beyond `t`, or the length if there is none.
pub open spec fn rank(points: Seq<ApproxPoint>, t: int) -> int {
    first_where(points, |p: ApproxPoint| p.local_form > t)
}

/// The points with `p` put in at its rank.
pub open spec fn spliced(points: Seq<ApproxPoint>, p: ApproxPoint) -> Seq<ApproxPoint> {
    points.insert(rank(points, p.local_form as int), p)
}

/// Finds the rank of `t` among the points.
pub fn find_rank(points: &Vec<ApproxPoint>, t: i64) -> (k: usize)
    ensures
        k == rank(points@, t as int),
        k <= points@.len(),
{
    let mut k: usize = 0;
    while k < points.len() && points[k].local_form <= t
        invariant
            k <= points.len(),
            forall|j: int| 0 <= j < k ==> (#[trigger] points@[j]).local_form <= t,
        decreases points.len() - k,
    {
        k += 1;
    }
    proof {
        lemma_first_where_unique(points@, |p: ApproxPoint| p.local_form > t, k as int);
    }
    k
}

/// A copy of the points in the opposite order.
pub fn reversed_points(points: &Vec<ApproxPoint>) -> (out: Vec<ApproxPoint>)
    ensures
        out@ == points@.reverse(),
{
    let mut out: Vec<ApproxPoint> = Vec::new();
    let mut i: usize = points.len();
    while i > 0
        invariant
            i <= points.len(),
            out@.len() == points.len() - i,
            forall|j: int| 0 <= j < out@.len() ==> out@[j] == points@[points.len() - 1 - j],
        decreases i,
    {
        i -= 1;
        out.push(points[i]);
    }
    assert(out@ =~= points@.reverse());
    out
}

} // verus!
