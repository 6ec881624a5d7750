//! The centroid estimator: turns groups of nearest-neighbour correspondences
//! into one position, with Lowe's ratio test and deviation-based outlier
//! rejection.
//!
//! Everything is exact integer arithmetic. Keypoint coordinates are whole
//! pixels, match distances are non-negative integers, and the two tuning
//! ratios are fractions `num / den`. A point's deviation from the centroid of
//! `n` points is measured in units of `1 / n` pixel and rounded down.

use vstd::prelude::*;

verus! {

/// A non-negative fraction `num / den`.
#[derive(Debug, Clone, Copy, PartialEq, Eq, Structural)]
pub struct Ratio {
    pub num: u32,
    pub den: u32,
}

impl Ratio {
    pub open spec fn wf(&self) -> bool {
        self.den > 0
    }

    /// The fraction `num / den`, or `None` when `den` is zero.
    pub fn new(num: u32, den: u32) -> (r: Option<Ratio>)
        ensures
            den == 0 ==> r.is_none(),
            den > 0 ==> r == Some(Ratio { num, den }),
    {
        if den == 0 {
            None
        } else {
            Some(Ratio { num, den })
        }
    }
}

/// A keypoint location in whole pixels.
#[derive(Debug, Clone, Copy, PartialEq, Eq, Structural)]
pub struct Point {
    pub x: u16,
    pub y: u16,
}

/// One candidate match of a template keypoint: the index of the keypoint in
/// the template, the index of the matched keypoint in the frame, and the
/// descriptor distance between them.
#[derive(Debug, Clone, Copy, PartialEq, Eq, Structural)]
pub struct Correspondence {
    pub template_idx: u32,
    pub frame_idx: u32,
    pub distance: u32,
}

/// The position handed to the register writer: a pixel position rounded and
/// kept in the unsigned 16-bit range.
#[derive(Debug, Clone, Copy, PartialEq, Eq, Structural)]
pub struct PositionSample {
    pub x: u16,
    pub y: u16,
}

/// Lowe's ratio test on a group ordered by ascending distance: the best match
/// is kept only if it is closer than `ratio` times the second best.
pub open spec fn passes_ratio(g: Seq<Correspondence>, ratio: Ratio) -> bool {
    &&& g.len() >= 2
    &&& (g[0].distance as int) * (ratio.den as int) < (ratio.num as int) * (g[1].distance as int)
}

/// Every frame index in every group names a frame keypoint.
pub open spec fn frame_indices_in_range(groups: Seq<Vec<Correspondence>>, n_keypoints: int) -> bool {
    forall|i: int, j: int|
        0 <= i < groups.len() && 0 <= j < groups[i]@.len() ==> (#[trigger] groups[i]@[j]).frame_idx
            < n_keypoints
}

/// The frame-side points of the two best members of every group that passes
/// the ratio test, in group order.
pub open spec fn qualifying_points(
    groups: Seq<Vec<Correspondence>>,
    keypoints: Seq<Point>,
    ratio: Ratio,
) -> Seq<Point>
    decreases groups.len(),
{
    if groups.len() == 0 {
        seq![]
    } else {
        let g = groups.last()@;
        let rest = qualifying_points(groups.drop_last(), keypoints, ratio);
        if passes_ratio(g, ratio) {
            rest + seq![keypoints[g[0].frame_idx as int], keypoints[g[1].frame_idx as int]]
        } else {
            rest
        }
    }
}

/// Lowe's ratio test on one group.
pub fn ratio_test(group: &Vec<Correspondence>, ratio: Ratio) -> (r: bool)
    ensures
        r == passes_ratio(group@, ratio),
{
    if group.len() < 2 {
        return false;
    }
    let d0 = group[0].distance as u64;
    let d1 = group[1].distance as u64;
    assert(d0 * (ratio.den as u64) <= 0xffff_ffff * 0xffff_ffff) by (nonlinear_arith)
        requires d0 <= 0xffff_ffff, ratio.den <= 0xffff_ffff;
    assert((ratio.num as u64) * d1 <= 0xffff_ffff * 0xffff_ffff) by (nonlinear_arith)
        requires d1 <= 0xffff_ffff, ratio.num <= 0xffff_ffff;
    d0 * (ratio.den as u64) < (ratio.num as u64) * d1
}

proof fn lemma_qualifying_points_len(
    groups: Seq<Vec<Correspondence>>,
    keypoints: Seq<Point>,
    ratio: Ratio,
)
    ensures
        qualifying_points(groups, keypoints, ratio).len() <= 2 * groups.len(),
    decreases groups.len(),
{
    if groups.len() > 0 {
        lemma_qualifying_points_len(groups.drop_last(), keypoints, ratio);
    }
}

/// Collects the frame keypoints of the two best members of every group that
/// passes the ratio test.
pub fn collect_qualifying_points(
    groups: &Vec<Vec<Correspondence>>,
    keypoints: &Vec<Point>,
    ratio: Ratio,
) -> (r: Vec<Point>)
    requires
        frame_indices_in_range(groups@, keypoints@.len() as int),
    ensures
        r@ == qualifying_points(groups@, keypoints@, ratio),
        r@.len() <= 2 * groups@.len(),
{
    let mut r: Vec<Point> = Vec::new();
    let mut i: usize = 0;
    while i < groups.len()
        invariant
            i <= groups@.len(),
            frame_indices_in_range(groups@, keypoints@.len() as int),
            r@ == qualifying_points(groups@.subrange(0, i as int), keypoints@, ratio),
        decreases groups@.len() - i,
    {
        let g = &groups[i];
        let ghost prefix = groups@.subrange(0, i as int + 1);
        assert(prefix.drop_last() =~= groups@.subrange(0, i as int));
        assert(prefix.last() == groups@[i as int]);
        if ratio_test(g, ratio) {
            assert(groups@[i as int]@[0] == g@[0]);
            let a = keypoints[g[0].frame_idx as usize];
            let b = keypoints[g[1].frame_idx as usize];
            r.push(a);
            r.push(b);
        }
        i = i + 1;
        assert(r@ =~= qualifying_points(groups@.subrange(0, i as int), keypoints@, ratio));
    }
    assert(groups@.subrange(0, groups@.len() as int) =~= groups@);
    proof {
        lemma_qualifying_points_len(groups@, keypoints@, ratio);
    }
    r
}


/// Sum of the x coordinates.
pub open spec fn sum_x(ps: Seq<Point>) -> int
    decreases ps.len(),
{
    if ps.len() == 0 {
        0
    } else {
        sum_x(ps.drop_last()) + ps.last().x as int
    }
}

/// Sum of the y coordinates.
pub open spec fn sum_y(ps: Seq<Point>) -> int
    decreases ps.len(),
{
    if ps.len() == 0 {
        0
    } else {
        sum_y(ps.drop_last()) + ps.last().y as int
    }
}

/// `a / n` rounded to the nearest integer, halves up.
pub open spec fn round_div(a: int, n: int) -> int {
    (2 * a + n) / (2 * n)
}

/// The arithmetic mean of a non-empty point set, rounded on each axis.
pub open spec fn rounded_mean(ps: Seq<Point>) -> PositionSample {
    PositionSample {
        x: round_div(sum_x(ps), ps.len() as int) as u16,
        y: round_div(sum_y(ps), ps.len() as int) as u16,
    }
}

/// The largest pixel value of either axis.
pub const MAX_COORD: u64 = 65535;

/// The most points that one estimate takes.
pub const MAX_POINTS: usize = 0xffff_ffff;

fn sums(ps: &Vec<Point>) -> (r: (u64, u64))
    requires
        ps@.len() <= MAX_POINTS,
    ensures
        r.0 == sum_x(ps@),
        r.1 == sum_y(ps@),
        r.0 <= MAX_COORD * ps@.len(),
        r.1 <= MAX_COORD * ps@.len(),
{
    let mut sx: u64 = 0;
    let mut sy: u64 = 0;
    let mut i: usize = 0;
    while i < ps.len()
        invariant
            i <= ps@.len() <= MAX_POINTS,
            sx == sum_x(ps@.subrange(0, i as int)),
            sy == sum_y(ps@.subrange(0, i as int)),
            sx <= MAX_COORD * i,
            sy <= MAX_COORD * i,
        decreases ps@.len() - i,
    {
        assert(ps@.subrange(0, i as int + 1).drop_last() =~= ps@.subrange(0, i as int));
        sx = sx + ps[i].x as u64;
        sy = sy + ps[i].y as u64;
        i = i + 1;
    }
    assert(ps@.subrange(0, ps@.len() as int) =~= ps@);
    (sx, sy)
}

proof fn lemma_round_div_in_range(a: int, n: int)
    requires
        0 <= a <= MAX_COORD * n,
        n > 0,
    ensures
        0 <= round_div(a, n) <= MAX_COORD,
{
    let q = round_div(a, n);
    vstd::arithmetic::div_mod::lemma_fundamental_div_mod(2 * a + n, 2 * n);
    let r = (2 * a + n) % (2 * n);
    assert(0 <= r < 2 * n) by {
        vstd::arithmetic::div_mod::lemma_mod_bound(2 * a + n, 2 * n);
    }
    assert(2 * a + n == 2 * n * q + r);
    assert(0 <= q <= MAX_COORD) by (nonlinear_arith)
        requires
            2 * a + n == 2 * n * q + r,
            0 <= r < 2 * n,
            0 <= a <= 65535 * n,
            n > 0,
    ;
}

fn round_div_exec(a: u64, n: u64) -> (r: u16)
    requires
        0 < n <= MAX_POINTS,
        a <= MAX_COORD * n,
    ensures
        r == round_div(a as int, n as int),
{
    proof {
        lemma_round_div_in_range(a as int, n as int);
    }
    ((2 * a + n) / (2 * n)) as u16
}

/// The mean of the points rounded to the nearest pixel on each axis, or
/// `None` for an empty set.
pub fn centroid(ps: &Vec<Point>) -> (r: Option<PositionSample>)
    requires
        ps@.len() <= MAX_POINTS,
    ensures
        ps@.len() == 0 ==> r.is_none(),
        ps@.len() > 0 ==> r == Some(rounded_mean(ps@)),
        ps@.len() > 0 ==> 0 <= round_div(sum_x(ps@), ps@.len() as int) <= MAX_COORD,
        ps@.len() > 0 ==> 0 <= round_div(sum_y(ps@), ps@.len() as int) <= MAX_COORD,
{
    if ps.len() == 0 {
        return None;
    }
    let (sx, sy) = sums(ps);
    let n = ps.len() as u64;
    Some(PositionSample { x: round_div_exec(sx, n), y: round_div_exec(sy, n) })
}

/// `r` is the square root of `v` rounded down.
pub open spec fn is_floor_sqrt(r: int, v: int) -> bool {
    &&& 0 <= r
    &&& r * r <= v
    &&& v < (r + 1) * (r + 1)
}

/// The square root of `v` rounded down.
pub open spec fn floor_sqrt(v: int) -> int {
    choose|r: int| is_floor_sqrt(r, v)
}

proof fn lemma_floor_sqrt_unique(r: int, v: int)
    requires
        is_floor_sqrt(r, v),
    ensures
        floor_sqrt(v) == r,
{
    let s = floor_sqrt(v);
    assert(is_floor_sqrt(s, v));
    if s < r {
        assert((s + 1) * (s + 1) <= r * r) by (nonlinear_arith)
            requires
                0 <= s < r,
        ;
    } else if r < s {
        assert((r + 1) * (r + 1) <= s * s) by (nonlinear_arith)
            requires
                0 <= r < s,
        ;
    }
}

const SQRT_LIMIT: u128 = 0x1_0000_0000_0000_0000;

/// The square root of `v` rounded down, by bisection.
pub fn isqrt(v: u128) -> (r: u128)
    ensures
        is_floor_sqrt(r as int, v as int),
        r as int == floor_sqrt(v as int),
{
    let mut lo: u128 = 0;
    let mut hi: u128 = SQRT_LIMIT;
    assert(v < SQRT_LIMIT * SQRT_LIMIT);
    while hi - lo > 1
        invariant
            lo < hi <= SQRT_LIMIT,
            lo * lo <= v,
            v < hi * hi,
        decreases hi - lo,
    {
        let mid = lo + (hi - lo) / 2;
        assert(mid * mid < SQRT_LIMIT * SQRT_LIMIT) by (nonlinear_arith)
            requires
                mid < SQRT_LIMIT,
        ;
        if mid * mid <= v {
            lo = mid;
        } else {
            hi = mid;
        }
    }
    proof {
        lemma_floor_sqrt_unique(lo as int, v as int);
    }
    lo
}


/// The squared distance of `p` from the centroid `(sx / n, sy / n)`, scaled
/// by `n * n` so that it stays an integer.
pub open spec fn scaled_dev_sq(p: Point, n: int, sx: int, sy: int) -> int {
    (n * p.x - sx) * (n * p.x - sx) + (n * p.y - sy) * (n * p.y - sy)
}

/// The deviation of point `i` from the centroid of `ps`, in units of
/// `1 / ps.len()` pixel, rounded down.
pub open spec fn deviation(ps: Seq<Point>, i: int) -> int {
    floor_sqrt(scaled_dev_sq(ps[i], ps.len() as int, sum_x(ps), sum_y(ps)))
}

/// The sum of the deviations of the first `k` points.
pub open spec fn deviation_total(ps: Seq<Point>, k: int) -> int
    decreases k,
{
    if k <= 0 {
        0
    } else {
        deviation_total(ps, k - 1) + deviation(ps, k - 1)
    }
}

/// Point `i` lies within `ratio` times the mean deviation:
/// `deviation(i) / n <= ratio * (total / n) / n`, multiplied out.
pub open spec fn is_inlier(ps: Seq<Point>, i: int, ratio: Ratio) -> bool {
    (ratio.den as int) * (ps.len() as int) * deviation(ps, i) <= (ratio.num as int)
        * deviation_total(ps, ps.len() as int)
}

/// The inliers among the first `k` points, in order.
pub open spec fn inliers_upto(ps: Seq<Point>, ratio: Ratio, k: int) -> Seq<Point>
    decreases k,
{
    if k <= 0 {
        seq![]
    } else if is_inlier(ps, k - 1, ratio) {
        inliers_upto(ps, ratio, k - 1).push(ps[k - 1])
    } else {
        inliers_upto(ps, ratio, k - 1)
    }
}

/// The points that survive deviation filtering, in order.
pub open spec fn inliers(ps: Seq<Point>, ratio: Ratio) -> Seq<Point> {
    inliers_upto(ps, ratio, ps.len() as int)
}

/// The estimate from a point set: none for fewer than two points or when no
/// point survives deviation filtering, else the rounded mean of the
/// survivors.
pub open spec fn estimate_spec(ps: Seq<Point>, ratio: Ratio) -> Option<PositionSample> {
    if ps.len() < 2 {
        None
    } else if inliers(ps, ratio).len() == 0 {
        None
    } else {
        Some(rounded_mean(inliers(ps, ratio)))
    }
}

const DEV_LIMIT: u128 = 0x2_0000_0000_0000;

fn abs_diff(a: u128, b: u128) -> (r: u128)
    ensures
        r as int * r as int == (a - b) * (a - b),
        r as int == if a >= b { a - b } else { b - a },
{
    if a >= b {
        a - b
    } else {
        assert((b - a) * (b - a) == (a - b) * (a - b)) by (nonlinear_arith);
        b - a
    }
}

fn point_deviation(p: Point, n: u64, sx: u64, sy: u64) -> (r: u128)
    requires
        0 < n <= MAX_POINTS,
        sx <= MAX_COORD * n,
        sy <= MAX_COORD * n,
    ensures
        r as int == floor_sqrt(scaled_dev_sq(p, n as int, sx as int, sy as int)),
        r < DEV_LIMIT,
{
    let nn = n as u128;
    assert(nn * (p.x as u128) <= 0xffff_ffff * 0xffff) by (nonlinear_arith)
        requires
            nn <= 0xffff_ffff,
            p.x <= 0xffff,
    ;
    assert(nn * (p.y as u128) <= 0xffff_ffff * 0xffff) by (nonlinear_arith)
        requires
            nn <= 0xffff_ffff,
            p.y <= 0xffff,
    ;
    let dx = abs_diff(nn * (p.x as u128), sx as u128);
    let dy = abs_diff(nn * (p.y as u128), sy as u128);
    assert(dx * dx <= 0xffff_ffff_ffff * 0xffff_ffff_ffff) by (nonlinear_arith)
        requires
            dx <= 0xffff_ffff_ffff,
    ;
    assert(dy * dy <= 0xffff_ffff_ffff * 0xffff_ffff_ffff) by (nonlinear_arith)
        requires
            dy <= 0xffff_ffff_ffff,
    ;
    let sq = dx * dx + dy * dy;
    let r = isqrt(sq);
    assert(r < DEV_LIMIT) by (nonlinear_arith)
        requires
            r * r <= sq,
            sq <= 2 * 0xffff_ffff_ffff * 0xffff_ffff_ffff,
            r >= 0,
    ;
    r
}

/// The deviation of each point from the centroid of the set.
fn deviations(ps: &Vec<Point>) -> (r: Vec<u128>)
    requires
        0 < ps@.len() <= MAX_POINTS,
    ensures
        r@.len() == ps@.len(),
        forall|i: int| 0 <= i < r@.len() ==> r@[i] as int == deviation(ps@, i),
        forall|i: int| 0 <= i < r@.len() ==> r@[i] < DEV_LIMIT,
{
    let (sx, sy) = sums(ps);
    let n = ps.len() as u64;
    let mut r: Vec<u128> = Vec::new();
    let mut i: usize = 0;
    while i < ps.len()
        invariant
            i <= ps@.len(),
            n == ps@.len(),
            0 < n <= MAX_POINTS,
            sx == sum_x(ps@),
            sy == sum_y(ps@),
            sx <= MAX_COORD * n,
            sy <= MAX_COORD * n,
            r@.len() == i,
            forall|j: int| 0 <= j < i ==> r@[j] as int == deviation(ps@, j),
            forall|j: int| 0 <= j < i ==> r@[j] < DEV_LIMIT,
        decreases ps@.len() - i,
    {
        let d = point_deviation(ps[i], n, sx, sy);
        r.push(d);
        i = i + 1;
    }
    r
}

/// Keeps the points whose deviation from the centroid is at most `ratio`
/// times the mean deviation, in order.
pub fn inlier_points(ps: &Vec<Point>, ratio: Ratio) -> (r: Vec<Point>)
    requires
        ps@.len() <= MAX_POINTS,
    ensures
        r@ == inliers(ps@, ratio),
{
    if ps.len() == 0 {
        return Vec::new();
    }
    let devs = deviations(ps);
    let n = ps.len() as u128;
    let mut total: u128 = 0;
    let mut i: usize = 0;
    while i < devs.len()
        invariant
            i <= devs@.len() == ps@.len(),
            forall|j: int| 0 <= j < devs@.len() ==> devs@[j] as int == deviation(ps@, j),
            forall|j: int| 0 <= j < devs@.len() ==> devs@[j] < DEV_LIMIT,
            total == deviation_total(ps@, i as int),
            total <= i * DEV_LIMIT,
        decreases devs@.len() - i,
    {
        total = total + devs[i];
        i = i + 1;
    }
    assert((ratio.num as u128) * total <= 0xffff_ffff * (0xffff_ffff * DEV_LIMIT))
        by (nonlinear_arith)
        requires
            total <= n * DEV_LIMIT,
            n <= 0xffff_ffff,
            ratio.num <= 0xffff_ffff,
    ;
    let bound = (ratio.num as u128) * total;
    let mut r: Vec<Point> = Vec::new();
    let mut k: usize = 0;
    while k < ps.len()
        invariant
            k <= ps@.len() == devs@.len(),
            n == ps@.len(),
            n <= MAX_POINTS,
            forall|j: int| 0 <= j < devs@.len() ==> devs@[j] as int == deviation(ps@, j),
            forall|j: int| 0 <= j < devs@.len() ==> devs@[j] < DEV_LIMIT,
            bound == (ratio.num as int) * deviation_total(ps@, ps@.len() as int),
            r@ == inliers_upto(ps@, ratio, k as int),
        decreases ps@.len() - k,
    {
        let d = devs[k];
        assert((ratio.den as u128) * n <= 0xffff_ffff * 0xffff_ffff) by (nonlinear_arith)
            requires
                n <= 0xffff_ffff,
                ratio.den <= 0xffff_ffff,
        ;
        let dn = (ratio.den as u128) * n;
        assert(dn * d <= 0xffff_ffff * 0xffff_ffff * DEV_LIMIT) by (nonlinear_arith)
            requires
                d < DEV_LIMIT,
                dn <= 0xffff_ffff * 0xffff_ffff,
        ;
        if dn * d <= bound {
            r.push(ps[k]);
        }
        k = k + 1;
    }
    r
}

/// Estimates a position from a point set: `None` for fewer than two points
/// or when deviation filtering leaves nothing, else the rounded mean of the
/// inliers.
pub fn estimate(ps: &Vec<Point>, deviation_ratio: Ratio) -> (r: Option<PositionSample>)
    requires
        ps@.len() <= MAX_POINTS,
    ensures
        r == estimate_spec(ps@, deviation_ratio),
{
    if ps.len() < 2 {
        return None;
    }
    let ins = inlier_points(ps, deviation_ratio);
    proof {
        lemma_inliers_len(ps@, deviation_ratio, ps@.len() as int);
    }
    centroid(&ins)
}

proof fn lemma_inliers_len(ps: Seq<Point>, ratio: Ratio, k: int)
    requires
        0 <= k,
    ensures
        inliers_upto(ps, ratio, k).len() <= k,
    decreases k,
{
    if k > 0 {
        lemma_inliers_len(ps, ratio, k - 1);
    }
}

/// The whole estimator: ratio test on every correspondence group, then the
/// estimate from the frame keypoints of the surviving groups' two best
/// members.
pub fn estimate_from_matches(
    groups: &Vec<Vec<Correspondence>>,
    keypoints: &Vec<Point>,
    match_ratio: Ratio,
    deviation_ratio: Ratio,
) -> (r: Option<PositionSample>)
    requires
        groups@.len() <= MAX_POINTS / 2,
        frame_indices_in_range(groups@, keypoints@.len() as int),
    ensures
        r == estimate_spec(qualifying_points(groups@, keypoints@, match_ratio), deviation_ratio),
{
    let ps = collect_qualifying_points(groups, keypoints, match_ratio);
    estimate(&ps, deviation_ratio)
}


/// A group that fails the ratio test is discarded whole: taking it out of
/// the input changes neither the collected points nor the estimate.
pub proof fn law_failing_group_is_discarded(
    groups: Seq<Vec<Correspondence>>,
    keypoints: Seq<Point>,
    match_ratio: Ratio,
    deviation_ratio: Ratio,
    i: int,
)
    requires
        0 <= i < groups.len(),
        !passes_ratio(groups[i]@, match_ratio),
    ensures
        qualifying_points(groups, keypoints, match_ratio) == qualifying_points(
            groups.remove(i),
            keypoints,
            match_ratio,
        ),
        estimate_spec(qualifying_points(groups, keypoints, match_ratio), deviation_ratio)
            == estimate_spec(
            qualifying_points(groups.remove(i), keypoints, match_ratio),
            deviation_ratio,
        ),
    decreases groups.len(),
{
    if i == groups.len() - 1 {
        assert(groups.remove(i) =~= groups.drop_last());
    } else {
        let removed = groups.remove(i);
        assert(removed.drop_last() =~= groups.drop_last().remove(i));
        assert(removed.last() == groups.last());
        law_failing_group_is_discarded(groups.drop_last(), keypoints, match_ratio, deviation_ratio, i);
    }
}

/// When no point survives deviation filtering there is no estimate; a
/// position is never made up.
pub proof fn law_no_inliers_no_estimate(ps: Seq<Point>, deviation_ratio: Ratio)
    requires
        inliers(ps, deviation_ratio).len() == 0,
    ensures
        estimate_spec(ps, deviation_ratio).is_none(),
{
}

/// With exactly two points both are equally far from their centroid, so both
/// survive any deviation ratio of at least one, and the estimate is their
/// rounded mean.
pub proof fn law_two_points_give_their_mean(p: Point, q: Point, deviation_ratio: Ratio)
    requires
        deviation_ratio.den <= deviation_ratio.num,
    ensures
        estimate_spec(seq![p, q], deviation_ratio) == Some(rounded_mean(seq![p, q])),
{
    let ps = seq![p, q];
    let ratio = deviation_ratio;
    assert(ps.drop_last() =~= seq![p]);
    assert(seq![p].drop_last() =~= Seq::<Point>::empty());
    assert(sum_x(Seq::<Point>::empty()) == 0);
    assert(sum_y(Seq::<Point>::empty()) == 0);
    assert(sum_x(seq![p]) == p.x);
    assert(sum_y(seq![p]) == p.y);
    assert(sum_x(ps) == p.x + q.x);
    assert(sum_y(ps) == p.y + q.y);
    assert(scaled_dev_sq(p, 2, sum_x(ps), sum_y(ps)) == scaled_dev_sq(q, 2, sum_x(ps), sum_y(ps)))
        by (nonlinear_arith)
        requires
            sum_x(ps) == p.x + q.x,
            sum_y(ps) == p.y + q.y,
    ;
    let d = deviation(ps, 0);
    assert(deviation(ps, 1) == d);
    assert(d >= 0) by {
        assert(is_floor_sqrt(
            floor_sqrt(scaled_dev_sq(p, 2, sum_x(ps), sum_y(ps))),
            scaled_dev_sq(p, 2, sum_x(ps), sum_y(ps)),
        )) by {
            let v = scaled_dev_sq(p, 2, sum_x(ps), sum_y(ps));
            assert(v >= 0) by (nonlinear_arith)
                requires
                    v == scaled_dev_sq(p, 2, sum_x(ps), sum_y(ps)),
            ;
            lemma_floor_sqrt_exists(v);
        }
    }
    assert(deviation_total(ps, 0) == 0);
    assert(deviation_total(ps, 1) == d);
    assert(deviation_total(ps, 2) == 2 * d);
    assert((ratio.den as int) * 2 * d <= (ratio.num as int) * (2 * d)) by (nonlinear_arith)
        requires
            ratio.den <= ratio.num,
            d >= 0,
    ;
    assert(is_inlier(ps, 0, ratio));
    assert(is_inlier(ps, 1, ratio));
    assert(inliers(ps, ratio) =~= ps) by {
        assert(inliers_upto(ps, ratio, 0) =~= Seq::<Point>::empty());
        assert(inliers_upto(ps, ratio, 1) =~= seq![p]);
        assert(inliers_upto(ps, ratio, 2) =~= seq![p, q]);
    }
}

proof fn lemma_floor_sqrt_exists(v: int)
    requires
        v >= 0,
    ensures
        is_floor_sqrt(floor_sqrt(v), v),
{
    assert(v < (v + 1) * (v + 1)) by (nonlinear_arith)
        requires
            v >= 0,
    ;
    let r = lemma_floor_sqrt_witness(v, v);
    lemma_floor_sqrt_unique(r, v);
}

proof fn lemma_floor_sqrt_witness(v: int, k: int) -> (r: int)
    requires
        0 <= k <= v,
        v < (k + 1) * (k + 1),
    ensures
        is_floor_sqrt(r, v),
    decreases k,
{
    if k * k <= v {
        k
    } else {
        assert(v < k * k);
        assert(k >= 1) by (nonlinear_arith)
            requires
                v >= 0,
                v < k * k,
                k >= 0,
        ;
        lemma_floor_sqrt_witness(v, k - 1)
    }
}

/// Running the estimator twice on the same correspondences gives the same
/// result: what it returns is fixed by the groups, the keypoints and the two
/// ratios alone.
pub proof fn law_estimate_is_deterministic(
    groups: Seq<Vec<Correspondence>>,
    keypoints: Seq<Point>,
    match_ratio: Ratio,
    deviation_ratio: Ratio,
    first: Option<PositionSample>,
    second: Option<PositionSample>,
)
    requires
        first == estimate_spec(qualifying_points(groups, keypoints, match_ratio), deviation_ratio),
        second == estimate_spec(qualifying_points(groups, keypoints, match_ratio), deviation_ratio),
    ensures
        first == second,
{
}

} // verus!
