use fj_core::approx::CurveApprox;
use fj_core::boundary::CurveBoundary;
use fj_core::point::{find_rank, reversed_points, ApproxPoint};
use fj_core::segment::CurveApproxSegment;

fn points(ts: &[i64]) -> Vec<ApproxPoint> {
    ts.iter().map(|t| ApproxPoint::new(*t, [*t, 2 * *t, 3 * *t])).collect()
}

fn segment(start: i64, end: i64, ts: &[i64]) -> CurveApproxSegment {
    CurveApproxSegment { boundary: CurveBoundary::new(start, end), points: points(ts) }
}

#[test]
fn boundary_direction() {
    let b = CurveBoundary::new(3, 8);
    assert!(b.is_normalized());
    assert!(!b.reverse().is_normalized());
    assert_eq!(b.reverse(), CurveBoundary::new(8, 3));
    assert_eq!(b.reverse().normalize(), b);
    assert_eq!(b.normalize(), b);
    assert!(!CurveBoundary::new(5, 5).is_normalized());
    assert_eq!(CurveBoundary::new(5, 5).normalize(), CurveBoundary::new(5, 5));
}

#[test]
fn boundary_emptiness_and_containment() {
    assert!(CurveBoundary::new(5, 5).is_empty());
    assert!(CurveBoundary::new(6, 5).is_empty());
    assert!(!CurveBoundary::new(5, 6).is_empty());
    let b = CurveBoundary::new(3, 8);
    assert!(b.contains(4));
    assert!(b.contains(7));
    assert!(!b.contains(3));
    assert!(!b.contains(8));
    assert!(!b.contains(9));
}

#[test]
fn boundary_overlap_subset_union() {
    let a = CurveBoundary::new(0, 10);
    assert!(a.overlaps(&CurveBoundary::new(10, 20)));
    assert!(a.overlaps(&CurveBoundary::new(20, 10)));
    assert!(a.overlaps(&CurveBoundary::new(-5, 0)));
    assert!(a.overlaps(&CurveBoundary::new(3, 4)));
    assert!(!a.overlaps(&CurveBoundary::new(11, 20)));
    assert!(!a.overlaps(&CurveBoundary::new(-5, -1)));
    assert_eq!(a.subset(CurveBoundary::new(5, 20)), CurveBoundary::new(5, 10));
    assert_eq!(a.subset(CurveBoundary::new(-5, 5)), CurveBoundary::new(0, 5));
    assert_eq!(a.subset(CurveBoundary::new(20, 30)), CurveBoundary::new(20, 10));
    assert_eq!(a.union(CurveBoundary::new(5, 20)), CurveBoundary::new(0, 20));
    assert!(a.covers(&CurveBoundary::new(0, 10)));
    assert!(a.covers(&CurveBoundary::new(2, 3)));
    assert!(!a.covers(&CurveBoundary::new(2, 11)));
}

#[test]
fn point_parts() {
    let p = ApproxPoint::new(7, [1, 2, 3]);
    assert_eq!(p.local_form, 7);
    assert_eq!(p.global_form(), [1, 2, 3]);
}

#[test]
fn rank_is_behind_equal_points() {
    let ps = points(&[1, 3, 3, 5]);
    assert_eq!(find_rank(&ps, 0), 0);
    assert_eq!(find_rank(&ps, 1), 1);
    assert_eq!(find_rank(&ps, 2), 1);
    assert_eq!(find_rank(&ps, 3), 3);
    assert_eq!(find_rank(&ps, 9), 4);
    assert_eq!(find_rank(&points(&[]), 9), 0);
}

#[test]
fn points_reversed() {
    assert_eq!(reversed_points(&points(&[1, 2, 3])), points(&[3, 2, 1]));
    assert_eq!(reversed_points(&points(&[])), points(&[]));
}

#[test]
fn segment_reverse_and_clone() {
    let mut s = segment(0, 10, &[2, 4, 6]);
    let copy = s.clone();
    s.reverse();
    assert_eq!(s, segment(10, 0, &[6, 4, 2]));
    s.reverse();
    assert_eq!(s, copy);
}

#[test]
fn segment_make_subset() {
    let mut s = segment(0, 10, &[2, 4, 6, 8]);
    s.make_subset(CurveBoundary::new(4, 20));
    assert_eq!(s, segment(4, 10, &[6, 8]));
    let mut t = segment(0, 10, &[2, 4, 6, 8]);
    t.make_subset(CurveBoundary::new(20, 30));
    assert!(t.is_empty());
    assert_eq!(t.points, points(&[]));
}

#[test]
fn segment_overlaps() {
    assert!(segment(0, 10, &[]).overlaps(&segment(10, 12, &[])));
    assert!(!segment(0, 10, &[]).overlaps(&segment(11, 12, &[])));
}

#[test]
fn approx_merge_inserts_in_order() {
    let mut approx = CurveApprox { segments: vec![] };
    approx.merge(segment(20, 30, &[25]));
    approx.merge(segment(0, 10, &[5]));
    approx.merge(segment(40, 50, &[45]));
    assert_eq!(
        approx,
        CurveApprox {
            segments: vec![segment(0, 10, &[5]), segment(20, 30, &[25]), segment(40, 50, &[45])]
        }
    );
    assert!(approx.is_touched(&CurveBoundary::new(10, 12)));
    assert!(!approx.is_touched(&CurveBoundary::new(11, 19)));
    assert!(approx.is_covered(25));
    assert!(!approx.is_covered(20));
    assert!(!approx.is_covered(15));
    assert_eq!(approx.find_covering(&CurveBoundary::new(22, 28)), 1);
    assert_eq!(approx.find_covering(&CurveBoundary::new(22, 31)), 3);
    assert_eq!(approx.find_slot(20), 2);
    assert_eq!(approx.find_slot(-1), 0);
}

#[test]
fn approx_merge_joins_all_it_touches() {
    let mut approx = CurveApprox {
        segments: vec![segment(0, 10, &[5]), segment(20, 30, &[25]), segment(40, 50, &[45])],
    };
    let merged = approx.merge(segment(10, 40, &[15, 22, 35]));
    assert_eq!(merged, segment(0, 50, &[5, 15, 25, 35, 45]));
    assert_eq!(approx, CurveApprox { segments: vec![merged] });
}

#[test]
fn approx_reverse_and_subset() {
    let mut approx = CurveApprox {
        segments: vec![segment(0, 10, &[5]), segment(20, 30, &[22, 25])],
    };
    let copy = approx.clone();
    approx.reverse();
    assert_eq!(
        approx,
        CurveApprox { segments: vec![segment(30, 20, &[25, 22]), segment(10, 0, &[5])] }
    );
    approx.reverse();
    assert_eq!(approx, copy);
    approx.make_subset(&CurveBoundary::new(5, 24));
    assert_eq!(
        approx,
        CurveApprox { segments: vec![segment(5, 10, &[]), segment(20, 24, &[22])] }
    );
}
