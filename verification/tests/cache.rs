use fj_core::approx::CurveApprox;
use fj_core::boundary::CurveBoundary;
use fj_core::cache::CurveApproxCache;
use fj_core::point::ApproxPoint;
use fj_core::segment::CurveApproxSegment;

/// The integer key of a coordinate: keys order as the coordinates do.
fn key(x: f64) -> i64 {
    let bits = i64::from_ne_bytes(x.to_bits().to_ne_bytes());
    if bits < 0 {
        bits ^ i64::MAX
    } else {
        bits
    }
}

fn boundary(inner: [[f64; 1]; 2]) -> CurveBoundary {
    CurveBoundary::new(key(inner[0][0]), key(inner[1][0]))
}

fn point(local: [f64; 1], global: [f64; 3]) -> ApproxPoint {
    ApproxPoint::new(key(local[0]), [key(global[0]), key(global[1]), key(global[2])])
}

#[test]
fn insert_curve_already_exists_but_no_segment_merge_necessary() {
    let mut cache = CurveApproxCache::default();
    let curve: u64 = 1;

    // An approximation of our curve already exists.
    cache.insert(
        curve,
        CurveApproxSegment {
            boundary: boundary([[2.], [3.]]),
            points: vec![
                point([2.25], [2.25, 2.25, 2.25]),
                point([2.75], [2.75, 2.75, 2.75]),
            ],
        },
    );

    // Here's another approximated segment for the same curve, but it doesn't
    // overlap with the already existing one.
    let segment = CurveApproxSegment {
        boundary: boundary([[0.], [1.]]),
        points: vec![
            point([0.25], [0.25, 0.25, 0.25]),
            point([0.75], [0.75, 0.75, 0.75]),
        ],
    };

    // When inserting the second segment, we expect to get it back unchanged.
    let inserted = cache.insert(curve, segment.clone());
    assert_eq!(inserted, segment);
}

#[test]
fn insert_congruent_segment_already_exists() {
    let mut cache = CurveApproxCache::default();
    let curve: u64 = 1;

    // An approximation of our curve already exists.
    let existing_segment = CurveApproxSegment {
        boundary: boundary([[0.], [1.]]),
        points: vec![
            point([0.25], [0.25, 0.25, 0.25]),
            point([0.75], [0.75, 0.75, 0.75]),
        ],
    };
    cache.insert(curve, existing_segment.clone());

    // Here's another approximated segment for the same curve that is
    // congruent with the existing one.
    let new_segment = CurveApproxSegment {
        boundary: boundary([[0.], [1.]]),
        points: vec![
            point([0.24], [0.24, 0.24, 0.24]),
            point([0.76], [0.76, 0.76, 0.76]),
        ],
    };

    // When inserting the second segment, we expect to get the original one
    // back.
    let inserted = cache.insert(curve, new_segment);
    assert_eq!(inserted, existing_segment);

    // Also, the new segment should not have replaced the existing one in the
    // cache.
    let cached = cache.get(curve, &boundary([[0.], [1.]]));
    assert_eq!(
        cached,
        Some(CurveApprox {
            segments: vec![existing_segment]
        })
    );
}

#[test]
fn get_exact_match() {
    let mut cache = CurveApproxCache::default();
    let curve: u64 = 1;

    // An approximation of our curve already exists.
    cache.insert(
        curve,
        CurveApproxSegment {
            boundary: boundary([[2.], [3.]]),
            points: vec![
                point([2.25], [2.25, 2.25, 2.25]),
                point([2.75], [2.75, 2.75, 2.75]),
            ],
        },
    );

    // Here's a second segment that doesn't overlap the existing one.
    let segment = CurveApproxSegment {
        boundary: boundary([[0.], [1.]]),
        points: vec![
            point([0.25], [0.25, 0.25, 0.25]),
            point([0.75], [0.75, 0.75, 0.75]),
        ],
    };
    cache.insert(curve, segment.clone());

    // When asking for an approximation with the same boundary as the second
    // segment we added, we expect to get it back exactly.
    let cached = cache.get(curve, &boundary([[0.], [1.]]));
    assert_eq!(
        cached,
        Some(CurveApprox {
            segments: vec![segment]
        })
    );
}

#[test]
fn get_exact_match_except_reversed() {
    let mut cache = CurveApproxCache::default();
    let curve: u64 = 1;

    // An approximation of our curve already exists.
    cache.insert(
        curve,
        CurveApproxSegment {
            boundary: boundary([[2.], [3.]]),
            points: vec![
                point([2.25], [2.25, 2.25, 2.25]),
                point([2.75], [2.75, 2.75, 2.75]),
            ],
        },
    );

    // Here's a second segment that doesn't overlap the existing one.
    let segment = CurveApproxSegment {
        points: vec![
            point([0.25], [0.25, 0.25, 0.25]),
            point([0.75], [0.75, 0.75, 0.75]),
        ],
        boundary: boundary([[0.], [1.]]),
    };
    cache.insert(curve, segment.clone());

    // When asking for an approximation with the same boundary of the second
    // segment we added but reversed, we expect to get back the segment, but
    // reversed.
    let cached = cache.get(curve, &boundary([[0.], [1.]]).reverse());
    assert_eq!(
        cached,
        Some(CurveApprox {
            segments: vec![{
                let mut segment = segment;
                segment.reverse();
                segment
            }]
        })
    );
}

#[test]
fn partial_match_that_overlaps_start() {
    let mut cache = CurveApproxCache::default();
    let curve: u64 = 1;

    cache.insert(
        curve,
        CurveApproxSegment {
            boundary: boundary([[0.], [1.]]),
            points: vec![
                point([0.125], [0.125, 0.125, 0.125]),
                point([0.375], [0.375, 0.375, 0.375]),
                point([0.625], [0.625, 0.625, 0.625]),
                point([0.875], [0.875, 0.875, 0.875]),
            ],
        }
        .clone(),
    );

    let cached = cache.get(curve, &boundary([[-0.5], [0.5]]));
    assert_eq!(
        cached,
        Some(CurveApprox {
            segments: vec![CurveApproxSegment {
                boundary: boundary([[0.], [0.5]]),
                points: vec![
                    point([0.125], [0.125, 0.125, 0.125]),
                    point([0.375], [0.375, 0.375, 0.375]),
                ],
            }]
        })
    );
}

#[test]
fn partial_match_that_overlaps_end() {
    let mut cache = CurveApproxCache::default();
    let curve: u64 = 1;

    cache.insert(
        curve,
        CurveApproxSegment {
            boundary: boundary([[0.], [1.]]),
            points: vec![
                point([0.125], [0.125, 0.125, 0.125]),
                point([0.375], [0.375, 0.375, 0.375]),
                point([0.625], [0.625, 0.625, 0.625]),
                point([0.875], [0.875, 0.875, 0.875]),
            ],
        }
        .clone(),
    );

    let cached = cache.get(curve, &boundary([[0.5], [1.5]]));
    assert_eq!(
        cached,
        Some(CurveApprox {
            segments: vec![CurveApproxSegment {
                boundary: boundary([[0.5], [1.0]]),
                points: vec![
                    point([0.625], [0.625, 0.625, 0.625]),
                    point([0.875], [0.875, 0.875, 0.875]),
                ],
            }]
        })
    );
}

#[test]
fn partial_match_in_the_middle() {
    let mut cache = CurveApproxCache::default();
    let curve: u64 = 1;

    cache.insert(
        curve,
        CurveApproxSegment {
            boundary: boundary([[0.], [1.]]),
            points: vec![
                point([0.125], [0.125, 0.125, 0.125]),
                point([0.375], [0.375, 0.375, 0.375]),
                point([0.625], [0.625, 0.625, 0.625]),
                point([0.875], [0.875, 0.875, 0.875]),
            ],
        }
        .clone(),
    );

    let cached = cache.get(curve, &boundary([[0.25], [0.75]]));
    assert_eq!(
        cached,
        Some(CurveApprox {
            segments: vec![CurveApproxSegment {
                boundary: boundary([[0.25], [0.75]]),
                points: vec![
                    point([0.375], [0.375, 0.375, 0.375]),
                    point([0.625], [0.625, 0.625, 0.625]),
                ],
            }]
        })
    );
}

#[test]
fn merge_insertions() {
    let mut cache = CurveApproxCache::default();
    let curve: u64 = 1;

    cache.insert(
        curve,
        CurveApproxSegment {
            boundary: boundary([[0.5], [1.]]),
            points: vec![point([0.75], [0.75, 0.75, 0.75])],
        },
    );
    cache.insert(
        curve,
        CurveApproxSegment {
            boundary: boundary([[0.], [0.5]]),
            points: vec![point([0.25], [0.25, 0.25, 0.25])],
        },
    );

    let cached = cache.get(curve, &boundary([[0.], [1.]]));
    assert_eq!(
        cached,
        Some(CurveApprox {
            segments: vec![CurveApproxSegment {
                boundary: boundary([[0.], [1.]]),
                points: vec![
                    point([0.25], [0.25, 0.25, 0.25]),
                    point([0.75], [0.75, 0.75, 0.75])
                ],
            }]
        })
    );
}

#[test]
fn merge_insertions_that_are_not_normalized() {
    let mut cache = CurveApproxCache::default();
    let curve: u64 = 1;

    cache.insert(
        curve,
        CurveApproxSegment {
            boundary: boundary([[1.], [0.5]]),
            points: vec![
                point([0.875], [0.875, 0.875, 0.875]),
                point([0.625], [0.625, 0.625, 0.625]),
            ],
        },
    );
    cache.insert(
        curve,
        CurveApproxSegment {
            boundary: boundary([[0.5], [0.]]),
            points: vec![
                point([0.375], [0.375, 0.375, 0.375]),
                point([0.125], [0.125, 0.125, 0.125]),
            ],
        },
    );

    let cached = cache.get(curve, &boundary([[0.], [1.]]));
    assert_eq!(
        cached,
        Some(CurveApprox {
            segments: vec![CurveApproxSegment {
                boundary: boundary([[0.], [1.]]),
                points: vec![
                    point([0.125], [0.125, 0.125, 0.125]),
                    point([0.375], [0.375, 0.375, 0.375]),
                    point([0.625], [0.625, 0.625, 0.625]),
                    point([0.875], [0.875, 0.875, 0.875]),
                ],
            }]
        })
    );
}
