use position_tracking::estimator::{
    centroid, collect_qualifying_points, estimate, estimate_from_matches, inlier_points, isqrt,
    ratio_test, Correspondence, Point, PositionSample, Ratio,
};

fn c(frame_idx: u32, distance: u32) -> Correspondence {
    Correspondence { template_idx: 0, frame_idx, distance }
}

fn p(x: u16, y: u16) -> Point {
    Point { x, y }
}

fn ratio(num: u32, den: u32) -> Ratio {
    Ratio::new(num, den).unwrap()
}

#[test]
fn ratio_new_refuses_zero_denominator() {
    assert_eq!(Ratio::new(1, 0), None);
    assert_eq!(Ratio::new(4, 5), Some(Ratio { num: 4, den: 5 }));
}

#[test]
fn ratio_test_is_strict() {
    let r = ratio(8, 10);
    assert!(ratio_test(&vec![c(0, 79), c(1, 100)], r));
    assert!(!ratio_test(&vec![c(0, 80), c(1, 100)], r));
    assert!(!ratio_test(&vec![c(0, 90), c(1, 100)], r));
    assert!(!ratio_test(&vec![c(0, 1)], r));
    assert!(!ratio_test(&vec![], r));
}

#[test]
fn failing_groups_are_discarded_whole() {
    let keypoints = vec![p(10, 10), p(20, 20), p(500, 500), p(600, 600)];
    let r = ratio(8, 10);
    let with_bad = vec![
        vec![c(0, 10), c(1, 100), c(2, 200)],
        vec![c(2, 80), c(3, 100)],
    ];
    let without_bad = vec![vec![c(0, 10), c(1, 100), c(2, 200)]];
    let pts = collect_qualifying_points(&with_bad, &keypoints, r);
    assert_eq!(pts, vec![p(10, 10), p(20, 20)]);
    assert_eq!(
        estimate_from_matches(&with_bad, &keypoints, r, ratio(1, 1)),
        estimate_from_matches(&without_bad, &keypoints, r, ratio(1, 1))
    );
    assert_eq!(
        estimate_from_matches(&with_bad, &keypoints, r, ratio(1, 1)),
        Some(PositionSample { x: 15, y: 15 })
    );
}

#[test]
fn no_qualifying_group_gives_no_estimate() {
    let keypoints = vec![p(1, 1), p(2, 2)];
    let groups = vec![vec![c(0, 9), c(1, 10)], vec![c(1, 10), c(0, 10)]];
    assert_eq!(estimate_from_matches(&groups, &keypoints, ratio(8, 10), ratio(1, 1)), None);
}

#[test]
fn empty_inlier_set_gives_no_estimate() {
    let pts = vec![p(0, 0), p(10, 0)];
    assert_eq!(inlier_points(&pts, ratio(1, 2)), vec![]);
    assert_eq!(estimate(&pts, ratio(1, 2)), None);
}

#[test]
fn fewer_than_two_points_give_no_estimate() {
    assert_eq!(estimate(&vec![], ratio(1, 1)), None);
    assert_eq!(estimate(&vec![p(5, 5)], ratio(1, 1)), None);
}

#[test]
fn two_points_give_their_mean() {
    let pts = vec![p(10, 20), p(13, 25)];
    assert_eq!(estimate(&pts, ratio(1, 1)), Some(PositionSample { x: 12, y: 23 }));
    assert_eq!(estimate(&pts, ratio(3, 1)), Some(PositionSample { x: 12, y: 23 }));
    assert_eq!(estimate(&pts, ratio(1000, 999)), Some(PositionSample { x: 12, y: 23 }));
    let same = vec![p(7, 7), p(7, 7)];
    assert_eq!(estimate(&same, ratio(1, 10)), Some(PositionSample { x: 7, y: 7 }));
}

#[test]
fn estimator_is_deterministic() {
    let keypoints = vec![p(100, 100), p(104, 98), p(98, 103), p(300, 310)];
    let groups = vec![
        vec![c(0, 10), c(0, 50), c(1, 60)],
        vec![c(1, 10), c(1, 50)],
        vec![c(2, 20), c(2, 30)],
        vec![c(3, 5), c(3, 100)],
    ];
    let first = estimate_from_matches(&groups, &keypoints, ratio(7, 10), ratio(1, 1));
    let second = estimate_from_matches(&groups, &keypoints, ratio(7, 10), ratio(1, 1));
    assert_eq!(first, second);
    assert!(first.is_some());
}

#[test]
fn outlier_is_rejected_and_the_rest_averaged() {
    // Ten template keypoints, each matched to the frame; six groups pass the
    // ratio test and one of those lies far from the others.
    let keypoints = vec![
        p(100, 100),
        p(104, 98),
        p(98, 103),
        p(101, 101),
        p(99, 99),
        p(300, 300),
        p(50, 400),
        p(400, 50),
        p(10, 10),
        p(600, 20),
    ];
    let mut groups = vec![];
    for i in 0..6u32 {
        groups.push(vec![c(i, 10), c(i, 100), c(9, 150)]);
    }
    for i in 6..10u32 {
        groups.push(vec![c(i, 95), c(9, 100), c(8, 150)]);
    }
    assert_eq!(groups.len(), 10);
    let pts = collect_qualifying_points(&groups, &keypoints, ratio(8, 10));
    assert_eq!(pts.len(), 12);
    let inliers = inlier_points(&pts, ratio(1, 1));
    assert_eq!(inliers.len(), 10);
    assert!(!inliers.contains(&p(300, 300)));
    // mean of (100,100) (104,98) (98,103) (101,101) (99,99) = (100.4, 100.2)
    assert_eq!(
        estimate_from_matches(&groups, &keypoints, ratio(8, 10), ratio(1, 1)),
        Some(PositionSample { x: 100, y: 100 })
    );
}

#[test]
fn centroid_rounds_halves_up() {
    assert_eq!(centroid(&vec![]), None);
    assert_eq!(centroid(&vec![p(1, 2), p(2, 3)]), Some(PositionSample { x: 2, y: 3 }));
    assert_eq!(centroid(&vec![p(0, 0), p(0, 1), p(0, 1)]), Some(PositionSample { x: 0, y: 1 }));
    assert_eq!(
        centroid(&vec![p(65535, 65535), p(65535, 65534)]),
        Some(PositionSample { x: 65535, y: 65535 })
    );
}

#[test]
fn isqrt_rounds_down() {
    assert_eq!(isqrt(0), 0);
    assert_eq!(isqrt(15), 3);
    assert_eq!(isqrt(16), 4);
    assert_eq!(isqrt(u128::MAX), u64::MAX as u128);
}

#[test]
fn deviation_ratio_below_one_drops_spread_points() {
    // centroid (4, 0); deviations 4, 4, 2, 2 (in pixels), mean 3
    let pts = vec![p(0, 0), p(8, 0), p(2, 0), p(6, 0)];
    assert_eq!(inlier_points(&pts, ratio(1, 1)), vec![p(2, 0), p(6, 0)]);
    assert_eq!(inlier_points(&pts, ratio(4, 3)), pts);
    assert_eq!(estimate(&pts, ratio(1, 1)), Some(PositionSample { x: 4, y: 0 }));
}
