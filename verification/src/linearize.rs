//! Flattening of quadratic curves into polylines.
//!
//! A contour is read point by point. A point off the curve is the control
//! point of a quadratic curve between its neighbours on the curve; between
//! two control points in a row lies an implied point on the curve, halfway.
//! Each curve is replaced by a number of points that grows with the angle it
//! turns through, and points that add nothing to the shape are removed.

use vstd::prelude::*;
use crate::error::FontMeshError;
use crate::types::{Contour, ContourPoint, Outline2D};
use crate::vecmath::{
    above, above2, abs2, add2, arcsine, below, below2, count, count_of, cross2, diff2,
    length_squared, length_squared2, midpoint2, min2, mul2, number, perp_dot, prod2, real_of,
    recip2, round2, sqrt2, sub2, sum2, turns, turns_of, Point2D, Real,
};

verus! {

/// The distance below which two numbers are taken to be the same: one
/// over a hundred thousand.
pub open spec fn epsilon() -> Real {
    recip2(real_of(100_000))
}

/// The area of the triangle `p0 p1 p2` by Heron's formula, or zero where a
/// side is shorter than `epsilon` or the formula gives nothing positive.
pub open spec fn heron_area(p0: Point2D, p1: Point2D, p2: Point2D) -> Real {
    let a_sq = length_squared2(diff2(p0, p1));
    let b_sq = length_squared2(diff2(p1, p2));
    let c_sq = length_squared2(diff2(p2, p0));
    let tiny = prod2(epsilon(), epsilon());
    if below2(a_sq, tiny) || below2(b_sq, tiny) || below2(c_sq, tiny) {
        real_of(0)
    } else {
        let a = sqrt2(a_sq);
        let b = sqrt2(b_sq);
        let c = sqrt2(c_sq);
        let s = prod2(sum2(sum2(a, b), c), recip2(real_of(2)));
        let area_sq = prod2(prod2(prod2(s, diff2(s, a)), diff2(s, b)), diff2(s, c));
        if above2(area_sq, real_of(0)) {
            sqrt2(area_sq)
        } else {
            real_of(0)
        }
    }
}

/// The point at parameter `t` of the quadratic curve from `p0` to `p2`
/// with control point `p1`: `p0 (1-t)^2 + p1 2t(1-t) + p2 t^2`.
pub open spec fn bezier(p0: Point2D, p1: Point2D, p2: Point2D, t: Real) -> Point2D {
    let one_minus_t = diff2(real_of(1), t);
    let b = prod2(one_minus_t, t);
    sum2(
        sum2(prod2(p0, prod2(one_minus_t, one_minus_t)), prod2(p1, prod2(real_of(2), b))),
        prod2(p2, prod2(t, t)),
    )
}

/// The length of the tangent `2 (b - a)`.
pub open spec fn tangent_length(a: Point2D, b: Point2D) -> Real {
    sqrt2(length_squared2(prod2(diff2(b, a), real_of(2))))
}

/// Whether the curve is so nearly straight, or so short, that it gets no
/// points of its own.
pub open spec fn curve_is_flat(p0: Point2D, p1: Point2D, p2: Point2D) -> bool {
    ||| below2(heron_area(p0, p1, p2), epsilon())
    ||| below2(tangent_length(p0, p1), epsilon())
    ||| below2(tangent_length(p1, p2), epsilon())
}

/// The sine of the angle between the tangents at the two ends of the
/// curve, at most one.
pub open spec fn turn_sine(p0: Point2D, p1: Point2D, p2: Point2D) -> Real {
    let t0 = prod2(diff2(p1, p0), real_of(2));
    let t1 = prod2(diff2(p2, p1), real_of(2));
    let lengths = prod2(sqrt2(length_squared2(t0)), sqrt2(length_squared2(t1)));
    min2(prod2(abs2(cross2(t0, t1)), recip2(lengths)), real_of(1))
}

/// The number of points for a curve that turns through `angle` radians:
/// the angle's share of a full turn, times `subdivisions`, rounded.
pub open spec fn points_for_angle(angle: Real, subdivisions: u8) -> u32 {
    count_of(round2(prod2(turns_of(angle), real_of(subdivisions as u64))))
}

/// The parameter before the points of batch `batch`, four points to a
/// batch: the step, and four steps more for each batch before.
pub open spec fn batch_start(step: Real, batch: nat) -> Real
    decreases batch,
{
    if batch == 0 {
        step
    } else {
        sum2(batch_start(step, (batch - 1) as nat), prod2(step, real_of(4)))
    }
}

/// The parameter of point `k` of `n`. Within a whole batch of four the
/// parameters are the batch's start plus no, one, two and three steps;
/// after the last whole batch they grow by one step at a time.
pub open spec fn curve_parameter(step: Real, n: nat, k: nat) -> Real {
    let whole = n / 4;
    if k < 4 * whole {
        let t = batch_start(step, k / 4);
        if k % 4 == 0 {
            t
        } else if k % 4 == 1 {
            sum2(t, step)
        } else if k % 4 == 2 {
            sum2(t, prod2(step, real_of(2)))
        } else {
            sum2(t, prod2(step, real_of(3)))
        }
    } else {
        let t = batch_start(step, whole);
        if k == 4 * whole {
            t
        } else if k == 4 * whole + 1 {
            sum2(t, step)
        } else {
            sum2(sum2(t, step), step)
        }
    }
}

/// The `n` points strictly inside the curve, at parameters one step of
/// `1 / (n + 1)` apart.
pub open spec fn curve_points(p0: Point2D, p1: Point2D, p2: Point2D, n: nat) -> Seq<Point2D> {
    Seq::new(
        n,
        |k: int| bezier(p0, p1, p2, curve_parameter(recip2(real_of((n + 1) as u64)), n, k as nat)),
    )
}

/// The positions, each as a point on the curve.
pub open spec fn on_curve_points(positions: Seq<Point2D>) -> Seq<ContourPoint> {
    Seq::new(positions.len(), |i: int| ContourPoint { point: positions[i], on_curve: true })
}

/// The distance below which two numbers are taken to be the same.
pub fn epsilon_value() -> (r: Real)
    ensures
        r == epsilon(),
{
    number(100_000).recip()
}

/// The area of the triangle `p0 p1 p2`, by Heron's formula on the squared
/// lengths of its sides.
pub fn triangle_area(p0: Point2D, p1: Point2D, p2: Point2D) -> (r: Real)
    ensures
        r == heron_area(p0, p1, p2),
{
    let a_sq = length_squared(sub2(p0, p1));
    let b_sq = length_squared(sub2(p1, p2));
    let c_sq = length_squared(sub2(p2, p0));
    let eps = epsilon_value();
    let tiny = mul2(eps, eps);
    if below(a_sq, tiny) || below(b_sq, tiny) || below(c_sq, tiny) {
        return number(0);
    }
    let a = a_sq.sqrt();
    let b = b_sq.sqrt();
    let c = c_sq.sqrt();
    let s = mul2(add2(add2(a, b), c), number(2).recip());
    let area_sq = mul2(mul2(mul2(s, sub2(s, a)), sub2(s, b)), sub2(s, c));
    if above(area_sq, number(0)) {
        area_sq.sqrt()
    } else {
        number(0)
    }
}

/// The point at parameter `t` of the quadratic curve from `p0` to `p2`
/// with control point `p1`.
pub fn qbezier(p0: Point2D, p1: Point2D, p2: Point2D, t: Real) -> (r: Point2D)
    ensures
        r == bezier(p0, p1, p2, t),
{
    let one_minus_t = sub2(number(1), t);
    let b = mul2(one_minus_t, t);
    add2(
        add2(mul2(p0, mul2(one_minus_t, one_minus_t)), mul2(p1, mul2(number(2), b))),
        mul2(p2, mul2(t, t)),
    )
}

/// The number of points for a curve that turns through `angle` radians.
pub fn subdivisions_for_angle(angle: Real, subdivisions: u8) -> (r: u32)
    ensures
        r == points_for_angle(angle, subdivisions),
{
    count(mul2(turns(angle), number(subdivisions as u64)).round())
}

/// Appends to `result` the `num_points` points strictly inside the curve,
/// each on the curve.
pub fn subdivide_qbezier(
    p0: Point2D,
    p1: Point2D,
    p2: Point2D,
    num_points: u32,
    result: &mut Contour,
)
    ensures
        final(result).points@ == old(result).points@ + on_curve_points(
            curve_points(p0, p1, p2, num_points as nat),
        ),
        final(result).closed == old(result).closed,
{
    let ghost n = num_points as nat;
    let ghost all = on_curve_points(curve_points(p0, p1, p2, n));
    assert(result.points@ + all.take(0) =~= result.points@);
    if num_points == 0 {
        assert(all =~= all.take(0));
        return ;
    }
    let step = number(num_points as u64 + 1).recip();
    let whole = num_points / 4;
    let mut t = step;
    let mut batch: u32 = 0;
    while batch < whole
        invariant
            batch <= whole,
            whole == num_points / 4,
            n == num_points,
            step == recip2(real_of((n + 1) as u64)),
            t == batch_start(step, batch as nat),
            all == on_curve_points(curve_points(p0, p1, p2, n)),
            result.points@ == old(result).points@ + all.take(4 * batch),
            result.closed == old(result).closed,
        decreases whole - batch,
    {
        let t1 = add2(t, step);
        let t2 = add2(t, mul2(step, number(2)));
        let t3 = add2(t, mul2(step, number(3)));
        let ghost k = 4 * batch as int;
        proof {
            assert(k / 4 == batch && (k + 1) / 4 == batch && (k + 2) / 4 == batch && (k + 3) / 4
                == batch);
            assert(all.take(k + 4) =~= all.take(k).push(all[k]).push(all[k + 1]).push(
                all[k + 2],
            ).push(all[k + 3]));
        }
        result.push_on_curve(qbezier(p0, p1, p2, t));
        result.push_on_curve(qbezier(p0, p1, p2, t1));
        result.push_on_curve(qbezier(p0, p1, p2, t2));
        result.push_on_curve(qbezier(p0, p1, p2, t3));
        t = add2(t, mul2(step, number(4)));
        batch += 1;
        assert(result.points@ =~= old(result).points@ + all.take(4 * batch));
    }
    let rest = num_points % 4;
    let mut i: u32 = 0;
    while i < rest
        invariant
            i <= rest,
            rest == num_points % 4,
            whole == num_points / 4,
            n == num_points,
            step == recip2(real_of((n + 1) as u64)),
            t == curve_parameter(step, n, (4 * whole + i) as nat) || i == rest,
            all == on_curve_points(curve_points(p0, p1, p2, n)),
            result.points@ == old(result).points@ + all.take(4 * whole + i),
            result.closed == old(result).closed,
        decreases rest - i,
    {
        let ghost k = 4 * whole + i;
        proof {
            assert(all.take(k + 1) =~= all.take(k).push(all[k]));
        }
        result.push_on_curve(qbezier(p0, p1, p2, t));
        t = add2(t, step);
        i += 1;
        assert(result.points@ =~= old(result).points@ + all.take(4 * whole + i));
    }
    assert(all.take(4 * whole + rest) =~= all);
}

/// Whether a curve may be given `n` points at this number of
/// subdivisions: none where it is flat, else the number that follows from
/// some angle. The angle is the arcsine of `turn_sine`, whose last digits
/// the standard library leaves open.
pub open spec fn curve_count_allowed(
    p0: Point2D,
    p1: Point2D,
    p2: Point2D,
    subdivisions: u8,
    n: nat,
) -> bool {
    if curve_is_flat(p0, p1, p2) {
        n == 0
    } else {
        exists|angle: Real| n == #[trigger] points_for_angle(angle, subdivisions)
    }
}

/// Appends to `result` the points strictly inside the curve, their number
/// chosen by the angle between the tangents at its two ends.
pub fn linearize_qbezier(
    p0: Point2D,
    p1: Point2D,
    p2: Point2D,
    subdivisions: u8,
    result: &mut Contour,
)
    ensures
        exists|n: nat|
            #[trigger] curve_count_allowed(p0, p1, p2, subdivisions, n) && final(result).points@
                == old(result).points@ + on_curve_points(curve_points(p0, p1, p2, n)),
        final(result).closed == old(result).closed,
{
    let ghost none = on_curve_points(curve_points(p0, p1, p2, 0));
    assert(result.points@ + none =~= result.points@);
    let eps = epsilon_value();
    let area = triangle_area(p0, p1, p2);
    if below(area, eps) {
        assert(curve_count_allowed(p0, p1, p2, subdivisions, 0));
        return ;
    }
    let t0 = mul2(sub2(p1, p0), number(2));
    let t1 = mul2(sub2(p2, p1), number(2));
    let t0_len = length_squared(t0).sqrt();
    let t1_len = length_squared(t1).sqrt();
    if below(t0_len, eps) || below(t1_len, eps) {
        assert(curve_count_allowed(p0, p1, p2, subdivisions, 0));
        return ;
    }
    let cross = perp_dot(t0, t1);
    let inv_len_product = mul2(t0_len, t1_len).recip();
    let sine = mul2(cross.abs(), inv_len_product).min(number(1));
    let angle = arcsine(sine);
    let num_points = subdivisions_for_angle(angle, subdivisions);
    subdivide_qbezier(p0, p1, p2, num_points, result);
    assert(curve_count_allowed(p0, p1, p2, subdivisions, num_points as nat));
}

/// The triple test of the simplifying pass: the points kept after the
/// points up to index `upto` have been looked at. The first point is
/// kept; a later one is kept where it makes a triangle of more than
/// `epsilon` in area with the last point kept and the point after it.
pub open spec fn kept_upto(points: Seq<ContourPoint>, upto: nat) -> Seq<ContourPoint>
    decreases upto,
{
    if upto == 0 {
        seq![points[0]]
    } else {
        let before = kept_upto(points, (upto - 1) as nat);
        if above2(
            heron_area(before.last().point, points[upto as int].point, points[upto as int + 1].point),
            epsilon(),
        ) {
            before.push(points[upto as int])
        } else {
            before
        }
    }
}

/// The points of at least three with the nearly collinear ones removed:
/// the first, the inner points that pass the triple test, the last.
pub open spec fn without_collinear(points: Seq<ContourPoint>) -> Seq<ContourPoint> {
    kept_upto(points, (points.len() - 2) as nat).push(points.last())
}

/// Whether two points differ by more than `epsilon` in some coordinate.
pub open spec fn apart(a: Point2D, b: Point2D) -> bool {
    above2(abs2(diff2(a, b)), epsilon())
}

/// The points with trailing ones removed for as long as the last is not
/// apart from the first and more than one is left.
pub open spec fn without_closing_duplicates(points: Seq<ContourPoint>) -> Seq<ContourPoint>
    decreases points.len(),
{
    if points.len() <= 1 || apart(points.last().point, points[0].point) {
        points
    } else {
        without_closing_duplicates(points.drop_last())
    }
}

/// The points after simplification. Fewer than three are left as they
/// are. Otherwise the nearly collinear ones and the closing duplicates are
/// removed, and where fewer than three remain, none are kept.
pub open spec fn simplified(points: Seq<ContourPoint>) -> Seq<ContourPoint> {
    if points.len() < 3 {
        points
    } else {
        let t = without_closing_duplicates(without_collinear(points));
        if t.len() < 3 {
            Seq::empty()
        } else {
            t
        }
    }
}

/// Whether every point is on the curve.
pub open spec fn all_on_curve(points: Seq<ContourPoint>) -> bool {
    forall|i: int| 0 <= i < points.len() ==> (#[trigger] points[i]).on_curve
}

proof fn lemma_kept_on_curve(points: Seq<ContourPoint>, upto: nat)
    requires
        all_on_curve(points),
        upto + 1 < points.len(),
    ensures
        all_on_curve(kept_upto(points, upto)),
    decreases upto,
{
    if upto > 0 {
        lemma_kept_on_curve(points, (upto - 1) as nat);
    }
}

proof fn lemma_trimmed_on_curve(points: Seq<ContourPoint>)
    requires
        all_on_curve(points),
    ensures
        all_on_curve(without_closing_duplicates(points)),
    decreases points.len(),
{
    if !(points.len() <= 1 || apart(points.last().point, points[0].point)) {
        lemma_trimmed_on_curve(points.drop_last());
    }
}

/// Simplification keeps points on the curve on the curve.
pub proof fn lemma_simplified_on_curve(points: Seq<ContourPoint>)
    requires
        all_on_curve(points),
    ensures
        all_on_curve(simplified(points)),
{
    if points.len() >= 3 {
        lemma_kept_on_curve(points, (points.len() - 2) as nat);
        lemma_trimmed_on_curve(without_collinear(points));
    }
}

proof fn lemma_kept_len(points: Seq<ContourPoint>, upto: nat)
    ensures
        1 <= kept_upto(points, upto).len() <= upto + 1,
    decreases upto,
{
    if upto > 0 {
        lemma_kept_len(points, (upto - 1) as nat);
    }
}

/// Removes from the contour the points that are nearly collinear with
/// their neighbours, and a last point that repeats the first.
pub fn remove_collinear_points(contour: &mut Contour)
    ensures
        final(contour).points@ == simplified(old(contour).points@),
        final(contour).closed == old(contour).closed,
{
    let n = contour.points.len();
    if n < 3 {
        return ;
    }
    let ghost orig = contour.points@;
    let eps = epsilon_value();
    let mut write_idx: usize = 1;
    let mut read_idx: usize = 1;
    assert(contour.points@.take(1) =~= kept_upto(orig, 0));
    while read_idx < n - 1
        invariant
            n >= 3,
            n == orig.len(),
            orig == old(contour).points@,
            eps == epsilon(),
            1 <= write_idx <= read_idx <= n - 1,
            contour.points@.len() == n,
            contour.closed == old(contour).closed,
            contour.points@.take(write_idx as int) == kept_upto(orig, (read_idx - 1) as nat),
            forall|j: int| read_idx <= j < n ==> contour.points@[j] == orig[j],
        decreases n - read_idx,
    {
        let ghost before = kept_upto(orig, (read_idx - 1) as nat);
        assert(contour.points@.take(write_idx as int)[write_idx - 1] == contour.points@[write_idx
            - 1]);
        let p0 = contour.points[write_idx - 1].point;
        let p1 = contour.points[read_idx].point;
        let p2 = contour.points[read_idx + 1].point;
        if above(triangle_area(p0, p1, p2), eps) {
            let moved = contour.points[read_idx];
            contour.points.set(write_idx, moved);
            write_idx += 1;
            assert(contour.points@.take(write_idx as int) =~= before.push(orig[read_idx as int]));
        } else {
            assert(contour.points@.take(write_idx as int) =~= before);
        }
        read_idx += 1;
    }
    let last = contour.points[n - 1];
    contour.points.set(write_idx, last);
    write_idx += 1;
    contour.points.truncate(write_idx);
    assert(contour.points@ =~= without_collinear(orig));
    proof {
        lemma_kept_len(orig, (n - 2) as nat);
    }

    let ghost thinned = contour.points@;
    let mut trimming = true;
    while trimming && contour.points.len() > 1
        invariant
            eps == epsilon(),
            contour.closed == old(contour).closed,
            contour.points@.len() >= 1,
            without_closing_duplicates(contour.points@) == without_closing_duplicates(thinned),
            !trimming ==> without_closing_duplicates(contour.points@) == contour.points@,
        decreases contour.points@.len() + (if trimming { 1nat } else { 0nat }),
    {
        let first = contour.points[0].point;
        let last = contour.points[contour.points.len() - 1].point;
        if above(sub2(last, first).abs(), eps) {
            trimming = false;
        } else {
            let ghost longer = contour.points@;
            contour.points.pop();
            assert(contour.points@ =~= longer.drop_last());
        }
    }
    if contour.points.len() < 3 {
        contour.points.truncate(0);
        assert(contour.points@ =~= Seq::<ContourPoint>::empty());
    }
}

/// Where the reading of a contour stands.
#[derive(Debug, Clone, Copy)]
pub enum LinearizeState {
    /// No point has been read.
    Initial,
    /// The last point read was on the curve.
    OnCurve { last_point: Point2D },
    /// The last point read was a control point, after `last_point` on the curve.
    OffCurve { last_point: Point2D, control_point: Point2D },
}

/// What reading a point adds to the path: a point of its own, or a curve
/// from its first point, by its control point, to its last.
pub enum Segment {
    Vertex(Point2D),
    Curve(Point2D, Point2D, Point2D),
}

/// The state after reading `cp` in `state`.
pub open spec fn next_state(state: LinearizeState, cp: ContourPoint) -> LinearizeState {
    match state {
        LinearizeState::Initial => LinearizeState::OnCurve { last_point: cp.point },
        LinearizeState::OnCurve { last_point } => if cp.on_curve {
            LinearizeState::OnCurve { last_point: cp.point }
        } else {
            LinearizeState::OffCurve { last_point, control_point: cp.point }
        },
        LinearizeState::OffCurve { last_point, control_point } => if cp.on_curve {
            LinearizeState::OnCurve { last_point: cp.point }
        } else {
            LinearizeState::OffCurve {
                last_point: midpoint2(control_point, cp.point),
                control_point: cp.point,
            }
        },
    }
}

/// What reading `cp` in `state` adds to the path. The first point is taken
/// as it stands. A point on the curve ends the pending curve, if any, and
/// is added. A second control point in a row ends the pending curve at the
/// point halfway between the two, which is added.
pub open spec fn step_segments(state: LinearizeState, cp: ContourPoint) -> Seq<Segment> {
    match state {
        LinearizeState::Initial => seq![Segment::Vertex(cp.point)],
        LinearizeState::OnCurve { last_point } => if cp.on_curve {
            seq![Segment::Vertex(cp.point)]
        } else {
            Seq::empty()
        },
        LinearizeState::OffCurve { last_point, control_point } => if cp.on_curve {
            seq![Segment::Curve(last_point, control_point, cp.point), Segment::Vertex(cp.point)]
        } else {
            let mid = midpoint2(control_point, cp.point);
            seq![Segment::Curve(last_point, control_point, mid), Segment::Vertex(mid)]
        },
    }
}

/// The state after reading the first `upto` points.
pub open spec fn scan_state(points: Seq<ContourPoint>, upto: nat) -> LinearizeState
    decreases upto,
{
    if upto == 0 {
        LinearizeState::Initial
    } else {
        next_state(scan_state(points, (upto - 1) as nat), points[upto - 1])
    }
}

/// The path that the first `upto` points give.
pub open spec fn scan_segments(points: Seq<ContourPoint>, upto: nat) -> Seq<Segment>
    decreases upto,
{
    if upto == 0 {
        Seq::empty()
    } else {
        scan_segments(points, (upto - 1) as nat) + step_segments(
            scan_state(points, (upto - 1) as nat),
            points[upto - 1],
        )
    }
}

/// The curve that closes the path: where a closed contour ends on a
/// control point, the pending curve back to the first point.
pub open spec fn closing_segments(state: LinearizeState, closed: bool, first: Point2D) -> Seq<
    Segment,
> {
    match state {
        LinearizeState::OffCurve { last_point, control_point } => if closed {
            seq![Segment::Curve(last_point, control_point, first)]
        } else {
            Seq::empty()
        },
        _ => Seq::empty(),
    }
}

/// The path of a contour of at least one point.
pub open spec fn contour_segments(contour: Contour) -> Seq<Segment> {
    scan_segments(contour.points@, contour.points@.len()) + closing_segments(
        scan_state(contour.points@, contour.points@.len()),
        contour.closed,
        contour.points@[0].point,
    )
}

/// The points that one segment gives with `n` points for a curve.
pub open spec fn piece(segment: Segment, n: nat) -> Seq<Point2D> {
    match segment {
        Segment::Vertex(p) => seq![p],
        Segment::Curve(p0, p1, p2) => curve_points(p0, p1, p2, n),
    }
}

/// The polyline of a path, `counts[i]` being the number of points for
/// segment `i`.
pub open spec fn flattened(segments: Seq<Segment>, counts: Seq<nat>) -> Seq<Point2D>
    decreases segments.len(),
{
    if segments.len() == 0 {
        Seq::empty()
    } else {
        flattened(segments.drop_last(), counts.drop_last()) + piece(
            segments.last(),
            counts.last(),
        )
    }
}

/// Whether `counts` holds, for each segment, a number of points that it
/// may be given: none for a point, an allowed number for a curve.
pub open spec fn counts_allowed(segments: Seq<Segment>, counts: Seq<nat>, subdivisions: u8) -> bool {
    &&& counts.len() == segments.len()
    &&& forall|i: int|
        0 <= i < segments.len() ==> match #[trigger] segments[i] {
            Segment::Vertex(_) => counts[i] == 0,
            Segment::Curve(p0, p1, p2) => curve_count_allowed(p0, p1, p2, subdivisions, counts[i]),
        }
}

/// The points of a contour linearized with the given number of points
/// for each segment of its path.
pub open spec fn linearized_with(contour: Contour, counts: Seq<nat>) -> Seq<ContourPoint> {
    simplified(on_curve_points(flattened(contour_segments(contour), counts)))
}

/// Whether `result` is a linearization of `contour`. A contour of fewer
/// than two points is kept as it is. Otherwise the result is the path of
/// the contour, each curve replaced by an allowed number of points, and
/// simplified.
pub open spec fn is_linearized(contour: Contour, subdivisions: u8, result: Contour) -> bool {
    &&& result.closed == contour.closed
    &&& if contour.points@.len() < 2 {
        result.points@ == contour.points@
    } else {
        exists|counts: Seq<nat>|
            #[trigger] counts_allowed(contour_segments(contour), counts, subdivisions)
                && result.points@ == linearized_with(contour, counts)
    }
}

proof fn lemma_flattened_push(segments: Seq<Segment>, counts: Seq<nat>, segment: Segment, n: nat)
    requires
        counts.len() == segments.len(),
    ensures
        flattened(segments.push(segment), counts.push(n)) == flattened(segments, counts) + piece(
            segment,
            n,
        ),
{
    assert(segments.push(segment).drop_last() =~= segments);
    assert(counts.push(n).drop_last() =~= counts);
}

proof fn lemma_on_curve_points_add(a: Seq<Point2D>, b: Seq<Point2D>)
    ensures
        on_curve_points(a + b) == on_curve_points(a) + on_curve_points(b),
{
    assert(on_curve_points(a + b) =~= on_curve_points(a) + on_curve_points(b));
}

/// The path of a polyline is its own points, whatever the counts.
proof fn lemma_polyline_scan(points: Seq<ContourPoint>, counts: Seq<nat>, upto: nat)
    requires
        upto <= points.len(),
        forall|i: int| 0 <= i < points.len() ==> (#[trigger] points[i]).on_curve,
        counts.len() == upto,
    ensures
        !(scan_state(points, upto) is OffCurve),
        scan_segments(points, upto).len() == upto,
        on_curve_points(flattened(scan_segments(points, upto), counts)) == points.take(
            upto as int,
        ),
    decreases upto,
{
    if upto == 0 {
        assert(on_curve_points(Seq::<Point2D>::empty()) =~= points.take(0));
    } else {
        let before = scan_segments(points, (upto - 1) as nat);
        lemma_polyline_scan(points, counts.drop_last(), (upto - 1) as nat);
        let cp = points[upto - 1];
        assert(cp.on_curve);
        let added = step_segments(scan_state(points, (upto - 1) as nat), cp);
        assert(added =~= seq![Segment::Vertex(cp.point)]);
        assert(before + added =~= before.push(Segment::Vertex(cp.point)));
        assert(counts =~= counts.drop_last().push(counts.last()));
        lemma_flattened_push(before, counts.drop_last(), Segment::Vertex(cp.point), counts.last());
        lemma_on_curve_points_add(flattened(before, counts.drop_last()), seq![cp.point]);
        assert(on_curve_points(seq![cp.point]) =~= seq![cp]);
        assert(points.take(upto as int) =~= points.take(upto - 1) + seq![cp]);
    }
}

/// A polyline is linearized by simplification alone: neither the number
/// of subdivisions nor the counts matter.
pub proof fn lemma_polyline_linearized(contour: Contour, counts: Seq<nat>)
    requires
        contour.is_polyline(),
        contour.points@.len() >= 1,
        counts.len() == contour_segments(contour).len(),
    ensures
        linearized_with(contour, counts) == simplified(contour.points@),
{
    let points = contour.points@;
    let n = points.len();
    lemma_polyline_scan(points, Seq::new(n, |i: int| 0nat), n);
    assert(contour_segments(contour) =~= scan_segments(points, n));
    lemma_polyline_scan(points, counts, n);
    assert(points.take(n as int) =~= points);
}

/// Turns the curves of a contour into points and simplifies the result.
pub fn linearize_contour(contour: &Contour, subdivisions: u8) -> (result: Contour)
    ensures
        is_linearized(*contour, subdivisions, result),
        contour.is_polyline() ==> result.points@ == simplified(contour.points@),
        contour.points@.len() >= 2 ==> result.is_polyline(),
{
    let n = contour.points.len();
    let mut result = Contour::new(contour.closed);
    if n < 2 {
        let mut i: usize = 0;
        while i < n
            invariant
                i <= n,
                n == contour.points@.len(),
                result.closed == contour.closed,
                result.points@ == contour.points@.take(i as int),
            decreases n - i,
        {
            result.push(contour.points[i]);
            i += 1;
            assert(result.points@ =~= contour.points@.take(i as int));
        }
        assert(contour.points@.take(n as int) =~= contour.points@);
        return result;
    }
    let first_point = contour.points[0].point;
    let mut state = LinearizeState::Initial;
    let ghost segments: Seq<Segment> = Seq::empty();
    let ghost counts: Seq<nat> = Seq::empty();
    assert(on_curve_points(flattened(segments, counts)) =~= result.points@);
    let mut i: usize = 0;
    while i < n
        invariant
            i <= n,
            n == contour.points@.len(),
            result.closed == contour.closed,
            state == scan_state(contour.points@, i as nat),
            segments == scan_segments(contour.points@, i as nat),
            counts_allowed(segments, counts, subdivisions),
            result.points@ == on_curve_points(flattened(segments, counts)),
        decreases n - i,
    {
        let cp = contour.points[i];
        let ghost path = flattened(segments, counts);
        match state {
            LinearizeState::Initial => {
                result.push_on_curve(cp.point);
                proof {
                    lemma_flattened_push(segments, counts, Segment::Vertex(cp.point), 0);
                    lemma_on_curve_points_add(path, seq![cp.point]);
                    assert(on_curve_points(seq![cp.point]) =~= seq![
                        ContourPoint { point: cp.point, on_curve: true },
                    ]);
                    assert(segments + step_segments(state, cp) =~= segments.push(
                        Segment::Vertex(cp.point),
                    ));
                    segments = segments.push(Segment::Vertex(cp.point));
                    counts = counts.push(0);
                }
                state = LinearizeState::OnCurve { last_point: cp.point };
            },
            LinearizeState::OnCurve { last_point } => {
                if cp.on_curve {
                    result.push_on_curve(cp.point);
                    proof {
                        lemma_flattened_push(segments, counts, Segment::Vertex(cp.point), 0);
                        lemma_on_curve_points_add(path, seq![cp.point]);
                        assert(on_curve_points(seq![cp.point]) =~= seq![
                            ContourPoint { point: cp.point, on_curve: true },
                        ]);
                        assert(segments + step_segments(state, cp) =~= segments.push(
                            Segment::Vertex(cp.point),
                        ));
                        segments = segments.push(Segment::Vertex(cp.point));
                        counts = counts.push(0);
                    }
                    state = LinearizeState::OnCurve { last_point: cp.point };
                } else {
                    proof {
                        assert(segments + step_segments(state, cp) =~= segments);
                    }
                    state = LinearizeState::OffCurve { last_point, control_point: cp.point };
                }
            },
            LinearizeState::OffCurve { last_point, control_point } => {
                let end = if cp.on_curve {
                    cp.point
                } else {
                    control_point.midpoint(cp.point)
                };
                let ghost before = result.points@;
                linearize_qbezier(last_point, control_point, end, subdivisions, &mut result);
                let ghost k: nat = choose|k: nat|
                    #[trigger] curve_count_allowed(last_point, control_point, end, subdivisions, k)
                        && result.points@ == before + on_curve_points(
                        curve_points(last_point, control_point, end, k),
                    );
                result.push_on_curve(end);
                proof {
                    let curve = Segment::Curve(last_point, control_point, end);
                    let vertex = Segment::Vertex(end);
                    lemma_flattened_push(segments, counts, curve, k);
                    lemma_flattened_push(segments.push(curve), counts.push(k), vertex, 0);
                    lemma_on_curve_points_add(
                        path,
                        curve_points(last_point, control_point, end, k),
                    );
                    lemma_on_curve_points_add(
                        path + curve_points(last_point, control_point, end, k),
                        seq![end],
                    );
                    assert(on_curve_points(seq![end]) =~= seq![
                        ContourPoint { point: end, on_curve: true },
                    ]);
                    assert(segments + step_segments(state, cp) =~= segments.push(curve).push(
                        vertex,
                    ));
                    segments = segments.push(curve).push(vertex);
                    counts = counts.push(k).push(0);
                }
                state = if cp.on_curve {
                    LinearizeState::OnCurve { last_point: cp.point }
                } else {
                    LinearizeState::OffCurve { last_point: end, control_point: cp.point }
                };
            },
        }
        i += 1;
    }
    match state {
        LinearizeState::OffCurve { last_point, control_point } => {
            if contour.closed {
                let ghost before = result.points@;
                let ghost path = flattened(segments, counts);
                linearize_qbezier(
                    last_point,
                    control_point,
                    first_point,
                    subdivisions,
                    &mut result,
                );
                proof {
                    let k: nat = choose|k: nat|
                        #[trigger] curve_count_allowed(
                            last_point,
                            control_point,
                            first_point,
                            subdivisions,
                            k,
                        ) && result.points@ == before + on_curve_points(
                            curve_points(last_point, control_point, first_point, k),
                        );
                    let curve = Segment::Curve(last_point, control_point, first_point);
                    lemma_flattened_push(segments, counts, curve, k);
                    lemma_on_curve_points_add(
                        path,
                        curve_points(last_point, control_point, first_point, k),
                    );
                    assert(contour_segments(*contour) =~= segments.push(curve));
                    segments = segments.push(curve);
                    counts = counts.push(k);
                }
            } else {
                assert(contour_segments(*contour) =~= segments);
            }
        },
        _ => {
            assert(contour_segments(*contour) =~= segments);
        },
    }
    let ghost raw = result.points@;
    remove_collinear_points(&mut result);
    proof {
        assert(counts_allowed(contour_segments(*contour), counts, subdivisions));
        assert(result.points@ == linearized_with(*contour, counts));
        lemma_simplified_on_curve(raw);
        if contour.is_polyline() {
            lemma_polyline_linearized(*contour, counts);
        }
    }
    result
}

/// The first `upto` contours, those without points left out.
pub open spec fn nonempty_upto(contours: Seq<Contour>, upto: nat) -> Seq<Contour>
    decreases upto,
{
    if upto == 0 {
        Seq::empty()
    } else {
        let before = nonempty_upto(contours, (upto - 1) as nat);
        if contours[upto - 1].points@.len() == 0 {
            before
        } else {
            before.push(contours[upto - 1])
        }
    }
}

/// Whether `contours` holds a linearization of each contour of the
/// outline, in order.
pub open spec fn each_linearized(outline: Outline2D, subdivisions: u8, contours: Seq<Contour>) -> bool {
    &&& contours.len() == outline.contours@.len()
    &&& forall|c: int|
        0 <= c < contours.len() ==> is_linearized(
            outline.contours@[c],
            subdivisions,
            #[trigger] contours[c],
        )
}

/// Whether `result` is a linearization of `outline`: a linearization of
/// each contour, in order, those that came out empty left out.
pub open spec fn is_linearized_outline(outline: Outline2D, subdivisions: u8, result: Outline2D) -> bool {
    exists|contours: Seq<Contour>|
        #[trigger] each_linearized(outline, subdivisions, contours) && result.contours@
            == nonempty_upto(contours, contours.len())
}

/// The points and the closing of each contour.
pub open spec fn shapes(contours: Seq<Contour>) -> Seq<(Seq<ContourPoint>, bool)> {
    Seq::new(contours.len(), |c: int| (contours[c].points@, contours[c].closed))
}

/// Turns every curve of the outline into points. Contours that come out
/// without points are dropped.
pub fn linearize_outline(outline: Outline2D, subdivisions: u8) -> (r: Result<
    Outline2D,
    FontMeshError,
>)
    ensures
        r is Ok,
        is_linearized_outline(outline, subdivisions, r->Ok_0),
{
    let mut result = Outline2D::new();
    let ghost all: Seq<Contour> = Seq::empty();
    let mut c: usize = 0;
    while c < outline.contours.len()
        invariant
            c <= outline.contours@.len(),
            all.len() == c,
            forall|k: int|
                0 <= k < c ==> is_linearized(outline.contours@[k], subdivisions, #[trigger] all[k]),
            result.contours@ == nonempty_upto(all, c as nat),
        decreases outline.contours@.len() - c,
    {
        let linearized = linearize_contour(&outline.contours[c], subdivisions);
        let ghost before = all;
        proof {
            all = all.push(linearized);
            lemma_nonempty_prefix(before, all, c as nat);
        }
        if !linearized.is_empty() {
            result.add_contour(linearized);
        }
        c += 1;
    }
    assert(each_linearized(outline, subdivisions, all));
    Ok(result)
}

proof fn lemma_nonempty_prefix(a: Seq<Contour>, b: Seq<Contour>, upto: nat)
    requires
        upto <= a.len() <= b.len(),
        forall|i: int| 0 <= i < upto ==> a[i] == b[i],
    ensures
        nonempty_upto(a, upto) == nonempty_upto(b, upto),
    decreases upto,
{
    if upto > 0 {
        lemma_nonempty_prefix(a, b, (upto - 1) as nat);
    }
}

proof fn lemma_nonempty_shapes(a: Seq<Contour>, b: Seq<Contour>, upto: nat)
    requires
        upto <= a.len(),
        upto <= b.len(),
        forall|i: int|
            0 <= i < upto ==> a[i].points@ == b[i].points@ && a[i].closed == b[i].closed,
    ensures
        shapes(nonempty_upto(a, upto)) == shapes(nonempty_upto(b, upto)),
    decreases upto,
{
    if upto > 0 {
        lemma_nonempty_shapes(a, b, (upto - 1) as nat);
        let x = nonempty_upto(a, (upto - 1) as nat);
        let y = nonempty_upto(b, (upto - 1) as nat);
        assert(shapes(x).len() == shapes(y).len());
        if a[upto - 1].points@.len() != 0 {
            assert(shapes(x.push(a[upto - 1])) =~= shapes(x).push(
                (a[upto - 1].points@, a[upto - 1].closed),
            ));
            assert(shapes(y.push(b[upto - 1])) =~= shapes(y).push(
                (b[upto - 1].points@, b[upto - 1].closed),
            ));
        }
    }
    assert(shapes(nonempty_upto(a, upto)) =~= shapes(nonempty_upto(b, upto)));
}

/// Linearization is a function of the outline and of the number of points
/// given to each curve: two linearizations of one contour with the same
/// counts have the same points.
pub proof fn lemma_linearization_repeatable(
    contour: Contour,
    counts: Seq<nat>,
    first: Contour,
    second: Contour,
)
    requires
        first.points@ == linearized_with(contour, counts),
        second.points@ == linearized_with(contour, counts),
    ensures
        first.points@ == second.points@,
{
}

/// An outline without curves has one linearization, the same at every
/// number of subdivisions: two linearizations of it, at whatever numbers
/// of subdivisions, have the same contours with the same points.
pub proof fn lemma_polyline_outline_linearized_alike(
    outline: Outline2D,
    subdivisions_a: u8,
    subdivisions_b: u8,
    a: Outline2D,
    b: Outline2D,
)
    requires
        outline.is_linear(),
        is_linearized_outline(outline, subdivisions_a, a),
        is_linearized_outline(outline, subdivisions_b, b),
    ensures
        shapes(a.contours@) == shapes(b.contours@),
{
    let xs = choose|xs: Seq<Contour>|
        #[trigger] each_linearized(outline, subdivisions_a, xs) && a.contours@ == nonempty_upto(
            xs,
            xs.len(),
        );
    let ys = choose|ys: Seq<Contour>|
        #[trigger] each_linearized(outline, subdivisions_b, ys) && b.contours@ == nonempty_upto(
            ys,
            ys.len(),
        );
    assert forall|i: int| 0 <= i < xs.len() implies xs[i].points@ == ys[i].points@ && xs[i].closed
        == ys[i].closed by {
        let contour = outline.contours@[i];
        assert(contour.is_polyline());
        assert(is_linearized(contour, subdivisions_a, xs[i]));
        assert(is_linearized(contour, subdivisions_b, ys[i]));
        if contour.points@.len() >= 2 {
            let ca = choose|ca: Seq<nat>|
                #[trigger] counts_allowed(contour_segments(contour), ca, subdivisions_a)
                    && xs[i].points@ == linearized_with(contour, ca);
            let cb = choose|cb: Seq<nat>|
                #[trigger] counts_allowed(contour_segments(contour), cb, subdivisions_b)
                    && ys[i].points@ == linearized_with(contour, cb);
            lemma_polyline_linearized(contour, ca);
            lemma_polyline_linearized(contour, cb);
        }
    }
    lemma_nonempty_shapes(xs, ys, xs.len());
}

} // verus!
