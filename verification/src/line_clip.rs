//! Clipping a line segment to a rectangle.
//!
//! The rectangle is taken with its edges: a segment that only touches an
//! edge or a corner still meets it. The segment from `start` to `end` is the
//! set of points `start + t * (end - start)` for `0 <= t <= 1`; to stay
//! within the integers, `t` is written as a fraction `n / d` and every
//! condition is multiplied out by `d`.
//!
//! Each axis is treated alone first. Walking from the start of the segment
//! toward its end, the segment enters the slab between two opposite edges of
//! the rectangle after some distance (`near`) and leaves it after another
//! (`far`), both measured along that axis in the direction of travel. The
//! segment meets the rectangle exactly when the two slabs, and the segment's
//! own extent, overlap in `t`.

use vstd::prelude::*;
use crate::point::Point;
use crate::rect::Rect;

verus! {

/// One axis of a segment against the slab between two opposite edges.
pub struct Axis {
    /// Distance between the two ends of the segment along this axis.
    pub len: int,
    /// Direction of travel along this axis: 1 forward, -1 back.
    pub dir: int,
    /// Distance from the start, in the direction of travel, to the edge of
    /// the slab that comes first. Not positive when the start is past it.
    pub near: int,
    /// Distance from the start, in the direction of travel, to the edge of
    /// the slab that comes last. Negative when the start is past it.
    pub far: int,
}

/// The axis of a segment that runs from `from` to `to`, against the slab
/// from `lo` to `hi`.
pub open spec fn axis(lo: int, hi: int, from: int, to: int) -> Axis {
    if to >= from {
        Axis { len: to - from, dir: 1, near: lo - from, far: hi - from }
    } else {
        Axis { len: from - to, dir: -1, near: from - hi, far: from - lo }
    }
}

/// The horizontal axis of the segment from `from` to `to` against `rect`.
pub open spec fn axis_x(rect: Rect, from: Point, to: Point) -> Axis {
    axis(rect.spec_left(), rect.spec_right(), from.x as int, to.x as int)
}

/// The vertical axis of the segment from `from` to `to` against `rect`.
pub open spec fn axis_y(rect: Rect, from: Point, to: Point) -> Axis {
    axis(rect.spec_top(), rect.spec_bottom(), from.y as int, to.y as int)
}

/// Whether the point of the segment at the fraction `n / d` of the way from
/// `start` to `end` lies within `rect`, edges included.
pub open spec fn meets_at(rect: Rect, start: Point, end: Point, n: int, d: int) -> bool {
    &&& d > 0
    &&& 0 <= n <= d
    &&& d * rect.spec_left() <= d * start.x + n * (end.x - start.x) <= d * rect.spec_right()
    &&& d * rect.spec_top() <= d * start.y + n * (end.y - start.y) <= d * rect.spec_bottom()
}

/// Whether some point of the segment from `start` to `end` lies within
/// `rect`, edges included.
pub open spec fn segment_meets(rect: Rect, start: Point, end: Point) -> bool {
    exists|n: int, d: int| meets_at(rect, start, end, n, d)
}

/// Whether the extent of the segment and the two slabs overlap pairwise:
/// each slab is entered before the segment ends and left after it starts,
/// and each slab is entered before the other is left.
pub open spec fn axes_meet(ax: Axis, ay: Axis) -> bool {
    &&& ax.near <= ax.len && ax.far >= 0 && ax.near <= ax.far
    &&& ay.near <= ay.len && ay.far >= 0 && ay.near <= ay.far
    &&& ax.near * ay.len <= ay.far * ax.len
    &&& ay.near * ax.len <= ax.far * ay.len
}

/// The end `from` of a segment, pulled along the segment toward `to` until
/// it lies within `rect`.
///
/// An end that is already within the rectangle stays. Otherwise the result
/// lies on the edge through which the segment enters the rectangle: its
/// coordinate across that edge is the edge itself, and its coordinate along
/// the edge is that of the segment there, rounded toward `from`.
pub open spec fn spec_clip_end(rect: Rect, from: Point, to: Point) -> Point {
    let ax = axis_x(rect, from, to);
    let ay = axis_y(rect, from, to);
    if ax.near <= 0 && ay.near <= 0 {
        from
    } else if ax.near > 0 && ax.near * ay.len >= ay.near * ax.len {
        Point {
            x: (from.x + ax.dir * ax.near) as i32,
            y: (from.y + ay.dir * ((ay.len * ax.near) / ax.len)) as i32,
        }
    } else {
        Point {
            x: (from.x + ax.dir * ((ax.len * ay.near) / ay.len)) as i32,
            y: (from.y + ay.dir * ay.near) as i32,
        }
    }
}

/// The part of the segment from `start` to `end` that lies within `rect`,
/// given by its two ends, if there is any. A rectangle without area holds no
/// part of any segment.
pub open spec fn spec_intersect_line(rect: Rect, start: Point, end: Point) -> Option<
    (Point, Point),
> {
    if !rect.is_empty() && segment_meets(rect, start, end) {
        Some((spec_clip_end(rect, start, end), spec_clip_end(rect, end, start)))
    } else {
        None
    }
}

/// On one axis, a point of the segment lies within the slab exactly when its
/// distance from the start lies between `near` and `far`.
proof fn lemma_axis_slab(lo: int, hi: int, from: int, to: int, n: int, d: int)
    ensures
        ({
            let a = axis(lo, hi, from, to);
            (d * lo <= d * from + n * (to - from) <= d * hi) <==> (d * a.near <= n * a.len <= d
                * a.far)
        }),
{
    let a = axis(lo, hi, from, to);
    if to >= from {
        assert(d * (lo - from) == d * lo - d * from) by (nonlinear_arith);
        assert(d * (hi - from) == d * hi - d * from) by (nonlinear_arith);
    } else {
        assert(d * (from - hi) == d * from - d * hi) by (nonlinear_arith);
        assert(d * (from - lo) == d * from - d * lo) by (nonlinear_arith);
        assert(n * (from - to) == -(n * (to - from))) by (nonlinear_arith);
    }
}

/// If some fraction lies in the slab of each axis, the axes overlap pairwise.
proof fn lemma_common_fraction_implies_overlap(ax: Axis, ay: Axis, n: int, d: int)
    requires
        d > 0,
        0 <= n <= d,
        ax.len >= 0,
        ay.len >= 0,
        d * ax.near <= n * ax.len <= d * ax.far,
        d * ay.near <= n * ay.len <= d * ay.far,
    ensures
        axes_meet(ax, ay),
{
    assert(ax.near <= ax.len && ax.far >= 0 && ax.near <= ax.far) by (nonlinear_arith)
        requires
            d > 0,
            0 <= n <= d,
            ax.len >= 0,
            d * ax.near <= n * ax.len <= d * ax.far,
    ;
    assert(ay.near <= ay.len && ay.far >= 0 && ay.near <= ay.far) by (nonlinear_arith)
        requires
            d > 0,
            0 <= n <= d,
            ay.len >= 0,
            d * ay.near <= n * ay.len <= d * ay.far,
    ;
    lemma_cross(ax.near, ax.len, ay.len, ay.far, n, d);
    lemma_cross(ay.near, ay.len, ax.len, ax.far, n, d);
}

/// From `near / len <= n / d <= far / other`, all multiplied out:
/// `near / len <= far / other`.
proof fn lemma_cross(near: int, len: int, other: int, far: int, n: int, d: int)
    requires
        d > 0,
        len >= 0,
        other >= 0,
        d * near <= n * len,
        n * other <= d * far,
    ensures
        near * other <= far * len,
{
    assert((d * near) * other <= (n * len) * other) by (nonlinear_arith)
        requires
            other >= 0,
            d * near <= n * len,
    ;
    assert((n * other) * len <= (d * far) * len) by (nonlinear_arith)
        requires
            len >= 0,
            n * other <= d * far,
    ;
    assert((n * len) * other == (n * other) * len) by (nonlinear_arith);
    assert((d * near) * other == d * (near * other)) by (nonlinear_arith);
    assert((d * far) * len == d * (far * len)) by (nonlinear_arith);
    assert(near * other <= far * len) by (nonlinear_arith)
        requires
            d > 0,
            d * (near * other) <= d * (far * len),
    ;
}

/// The fraction at which a segment whose axes overlap enters the rectangle:
/// 0 where it starts inside, else the larger of the two fractions at which
/// it enters a slab.
pub open spec fn entry_fraction(ax: Axis, ay: Axis) -> (int, int) {
    if ax.near <= 0 && ay.near <= 0 {
        (0, 1)
    } else if ax.near > 0 && ax.near * ay.len >= ay.near * ax.len {
        (ax.near, ax.len)
    } else {
        (ay.near, ay.len)
    }
}

/// If the axes overlap pairwise, the entry fraction lies in both slabs.
proof fn lemma_overlap_implies_common_fraction(ax: Axis, ay: Axis)
    requires
        ax.len >= 0,
        ay.len >= 0,
        axes_meet(ax, ay),
    ensures
        ({
            let (n, d) = entry_fraction(ax, ay);
            &&& d > 0
            &&& 0 <= n <= d
            &&& d * ax.near <= n * ax.len <= d * ax.far
            &&& d * ay.near <= n * ay.len <= d * ay.far
        }),
{
    let (n, d) = entry_fraction(ax, ay);
    if ax.near <= 0 && ay.near <= 0 {
    } else if ax.near > 0 && ax.near * ay.len >= ay.near * ax.len {
        lemma_entry_on(ax, ay);
    } else {
        lemma_entry_other(ax, ay);
        lemma_entry_on(ay, ax);
    }
}

/// A segment that starts outside the rectangle and does not enter through
/// the slab of `a` enters through the slab of `b`.
proof fn lemma_entry_other(a: Axis, b: Axis)
    requires
        a.len >= 0,
        b.len >= 0,
        !(a.near <= 0 && b.near <= 0),
        !(a.near > 0 && a.near * b.len >= b.near * a.len),
    ensures
        b.near > 0,
        b.near * a.len >= a.near * b.len,
{
    assert(b.near > 0) by (nonlinear_arith)
        requires
            !(a.near <= 0 && b.near <= 0),
            !(a.near > 0 && a.near * b.len >= b.near * a.len),
            a.len >= 0,
            b.len >= 0,
    ;
    assert(b.near * a.len >= a.near * b.len) by (nonlinear_arith)
        requires
            b.near > 0,
            !(a.near > 0 && a.near * b.len >= b.near * a.len),
            a.len >= 0,
            b.len >= 0,
    ;
}

/// Entering through the slab of `a`: the fraction `a.near / a.len` lies in
/// both slabs.
proof fn lemma_entry_on(a: Axis, b: Axis)
    requires
        a.len >= 0,
        b.len >= 0,
        axes_meet(a, b) || axes_meet(b, a),
        a.near > 0,
        a.near * b.len >= b.near * a.len,
    ensures
        a.len > 0,
        0 <= a.near <= a.len,
        a.len * a.near <= a.near * a.len <= a.len * a.far,
        a.len * b.near <= a.near * b.len <= a.len * b.far,
{
    assert(a.len * a.near == a.near * a.len) by (nonlinear_arith);
    assert(a.near * a.len <= a.len * a.far) by (nonlinear_arith)
        requires
            a.len >= 0,
            a.near <= a.far,
    ;
    assert(a.len * b.near == b.near * a.len) by (nonlinear_arith);
    assert(a.len * b.far == b.far * a.len) by (nonlinear_arith);
}

/// A segment meets a rectangle exactly when its two axes overlap pairwise.
pub proof fn lemma_segment_meets_iff_axes_meet(rect: Rect, start: Point, end: Point)
    ensures
        segment_meets(rect, start, end) <==> axes_meet(
            axis_x(rect, start, end),
            axis_y(rect, start, end),
        ),
{
    let ax = axis_x(rect, start, end);
    let ay = axis_y(rect, start, end);
    if segment_meets(rect, start, end) {
        let (n, d) = choose|n: int, d: int| meets_at(rect, start, end, n, d);
        lemma_axis_slab(rect.spec_left(), rect.spec_right(), start.x as int, end.x as int, n, d);
        lemma_axis_slab(rect.spec_top(), rect.spec_bottom(), start.y as int, end.y as int, n, d);
        lemma_common_fraction_implies_overlap(ax, ay, n, d);
    }
    if axes_meet(ax, ay) {
        let (n, d) = entry_fraction(ax, ay);
        lemma_overlap_implies_common_fraction(ax, ay);
        lemma_axis_slab(rect.spec_left(), rect.spec_right(), start.x as int, end.x as int, n, d);
        lemma_axis_slab(rect.spec_top(), rect.spec_bottom(), start.y as int, end.y as int, n, d);
        assert(meets_at(rect, start, end, n, d));
    }
}

/// A segment meets a rectangle whichever way round it is walked.
pub proof fn lemma_segment_meets_symmetric(rect: Rect, start: Point, end: Point)
    ensures
        segment_meets(rect, start, end) == segment_meets(rect, end, start),
{
    assert forall|a: Point, b: Point| segment_meets(rect, a, b) implies segment_meets(
        rect,
        b,
        a,
    ) by {
        let (n, d) = choose|n: int, d: int| meets_at(rect, a, b, n, d);
        assert(d * b.x + (d - n) * (a.x - b.x) == d * a.x + n * (b.x - a.x)) by (nonlinear_arith);
        assert(d * b.y + (d - n) * (a.y - b.y) == d * a.y + n * (b.y - a.y)) by (nonlinear_arith);
        assert(meets_at(rect, b, a, d - n, d));
    }
}

/// Rounding a distance that is scaled down by `n / d` stays within it.
proof fn lemma_scaled_within(a: int, n: int, d: int)
    requires
        a >= 0,
        0 <= n <= d,
        d > 0,
    ensures
        0 <= (a * n) / d <= a,
{
    assert(0 <= a * n <= a * d) by (nonlinear_arith)
        requires
            a >= 0,
            0 <= n <= d,
    ;
    assert(0 <= (a * n) / d <= a) by (nonlinear_arith)
        requires
            0 <= a * n <= a * d,
            d > 0,
    ;
}

/// A step of `v` in the direction `dir`.
proof fn lemma_directed(dir: int, v: int)
    requires
        dir == 1 || dir == -1,
    ensures
        dir * v == (if dir == 1 {
            v
        } else {
            -v
        }),
{
    assert(1 * v == v && (-1) * v == -v) by (nonlinear_arith);
}

/// A clipped end lies within the rectangle, edges included, and between the
/// two ends of the segment on both axes.
pub proof fn lemma_clip_end_inside(rect: Rect, from: Point, to: Point)
    requires
        segment_meets(rect, from, to),
    ensures
        ({
            let p = spec_clip_end(rect, from, to);
            &&& rect.spec_is_contaning_point(p.x as int, p.y as int)
            &&& (from.x <= p.x <= to.x || to.x <= p.x <= from.x)
            &&& (from.y <= p.y <= to.y || to.y <= p.y <= from.y)
        }),
{
    let ax = axis_x(rect, from, to);
    let ay = axis_y(rect, from, to);
    lemma_segment_meets_iff_axes_meet(rect, from, to);
    if ax.near <= 0 && ay.near <= 0 {
    } else if ax.near > 0 && ax.near * ay.len >= ay.near * ax.len {
        lemma_entry_on(ax, ay);
        lemma_along_within(ay, ax);
        lemma_directed(ax.dir, ax.near);
        lemma_directed(ay.dir, (ay.len * ax.near) / ax.len);
    } else {
        lemma_entry_other(ax, ay);
        lemma_entry_on(ay, ax);
        lemma_along_within(ax, ay);
        lemma_directed(ax.dir, (ax.len * ay.near) / ay.len);
        lemma_directed(ay.dir, ay.near);
    }
}

/// Where a segment enters through the slab of `b`, its rounded distance
/// along the axis `a` at that moment lies within the slab of `a` and within
/// the extent of the segment.
proof fn lemma_along_within(a: Axis, b: Axis)
    requires
        a.len >= 0,
        b.len > 0,
        0 < b.near <= b.len,
        b.len * a.near <= b.near * a.len <= b.len * a.far,
    ensures
        a.near <= (a.len * b.near) / b.len <= a.far,
        0 <= (a.len * b.near) / b.len <= a.len,
{
    lemma_scaled_within(a.len, b.near, b.len);
    assert(a.len * b.near == b.near * a.len) by (nonlinear_arith);
    let q = (a.len * b.near) / b.len;
    assert(a.near <= q) by (nonlinear_arith)
        requires
            b.len > 0,
            b.len * a.near <= a.len * b.near,
            q == (a.len * b.near) / b.len,
    ;
    assert(q <= a.far) by (nonlinear_arith)
        requires
            b.len > 0,
            a.len * b.near <= b.len * a.far,
            q == (a.len * b.near) / b.len,
    ;
}

/// An end that lies within the rectangle, edges included, stays where it is,
/// and the segment then meets the rectangle whatever its other end.
pub proof fn lemma_inside_end_stays(rect: Rect, from: Point, to: Point)
    requires
        rect.spec_is_contaning_point(from.x as int, from.y as int),
    ensures
        segment_meets(rect, from, to),
        spec_clip_end(rect, from, to) == from,
{
    assert(meets_at(rect, from, to, 0, 1));
}

/// A segment with both ends within a rectangle that has area is returned
/// whole.
pub proof fn lemma_inside_segment_unchanged(rect: Rect, start: Point, end: Point)
    requires
        !rect.is_empty(),
        rect.spec_is_contaning_point(start.x as int, start.y as int),
        rect.spec_is_contaning_point(end.x as int, end.y as int),
    ensures
        spec_intersect_line(rect, start, end) == Some((start, end)),
{
    lemma_inside_end_stays(rect, start, end);
    lemma_inside_end_stays(rect, end, start);
}

/// Clipping does not depend on the direction of the segment: walking it the
/// other way round gives the same two ends in the other order.
pub proof fn lemma_intersect_line_reversed(rect: Rect, start: Point, end: Point)
    ensures
        spec_intersect_line(rect, end, start) == (match spec_intersect_line(rect, start, end) {
            Some((p, q)) => Some((q, p)),
            None => None,
        }),
{
    lemma_segment_meets_symmetric(rect, start, end);
}

/// An axis with its distances as machine integers.
struct AxisRun {
    len: i64,
    forward: bool,
    near: i64,
    far: i64,
}

impl AxisRun {
    spec fn view(self) -> Axis {
        Axis {
            len: self.len as int,
            dir: if self.forward {
                1
            } else {
                -1
            },
            near: self.near as int,
            far: self.far as int,
        }
    }

    /// The axis of a segment from `from` to `to` against the slab that
    /// starts at `lo` and is `size` wide.
    fn new(lo: i32, size: i32, from: i32, to: i32) -> (a: AxisRun)
        ensures
            a@ == axis(lo as int, lo + size, from as int, to as int),
            0 <= a.len <= 0xffff_ffff,
            -0x2_0000_0000 <= a.near <= 0x2_0000_0000,
            -0x2_0000_0000 <= a.far <= 0x2_0000_0000,
    {
        let hi: i64 = lo as i64 + size as i64;
        if to >= from {
            AxisRun {
                len: to as i64 - from as i64,
                forward: true,
                near: lo as i64 - from as i64,
                far: hi - from as i64,
            }
        } else {
            AxisRun {
                len: from as i64 - to as i64,
                forward: false,
                near: from as i64 - hi,
                far: from as i64 - lo as i64,
            }
        }
    }

    /// Whether the two axes overlap pairwise.
    fn meets(&self, other: &AxisRun) -> (hit: bool)
        requires
            0 <= self.len <= 0xffff_ffff,
            0 <= other.len <= 0xffff_ffff,
            -0x2_0000_0000 <= self.near <= 0x2_0000_0000,
            -0x2_0000_0000 <= self.far <= 0x2_0000_0000,
            -0x2_0000_0000 <= other.near <= 0x2_0000_0000,
            -0x2_0000_0000 <= other.far <= 0x2_0000_0000,
        ensures
            hit == axes_meet(self@, other@),
    {
        self.near <= self.len && self.far >= 0 && self.near <= self.far && other.near
            <= other.len && other.far >= 0 && other.near <= other.far && wide_mul(
            self.near,
            other.len,
        ) <= wide_mul(other.far, self.len) && wide_mul(other.near, self.len) <= wide_mul(
            self.far,
            other.len,
        )
    }
}

/// The product of two distances, which always fits in 128 bits.
fn wide_mul(a: i64, b: i64) -> (r: i128)
    requires
        -0x2_0000_0000 <= a <= 0x2_0000_0000,
        -0x2_0000_0000 <= b <= 0x2_0000_0000,
    ensures
        r == a * b,
{
    assert(-0x4_0000_0000_0000_0000 <= a * b <= 0x4_0000_0000_0000_0000) by (nonlinear_arith)
        requires
            -0x2_0000_0000 <= a <= 0x2_0000_0000,
            -0x2_0000_0000 <= b <= 0x2_0000_0000,
    ;
    (a as i128) * (b as i128)
}

/// The coordinate `from` moved by `by` in the given direction.
fn step(from: i32, forward: bool, by: i64) -> (r: i32)
    requires
        forward ==> i32::MIN <= from + by <= i32::MAX,
        !forward ==> i32::MIN <= from - by <= i32::MAX,
        -0x2_0000_0000 <= by <= 0x2_0000_0000,
    ensures
        forward ==> r == from + by,
        !forward ==> r == from - by,
{
    if forward {
        (from as i64 + by) as i32
    } else {
        (from as i64 - by) as i32
    }
}

/// Pulls the end `from` of a segment toward `to` until it lies within
/// `rect`, see [`spec_clip_end`].
fn clip_end(rect: &Rect, from: Point, to: Point) -> (p: Point)
    requires
        axes_meet(axis_x(*rect, from, to), axis_y(*rect, from, to)),
    ensures
        p == spec_clip_end(*rect, from, to),
{
    let ax: AxisRun = AxisRun::new(rect.x, rect.w, from.x, to.x);
    let ay: AxisRun = AxisRun::new(rect.y, rect.h, from.y, to.y);
    if ax.near <= 0 && ay.near <= 0 {
        return from;
    }
    if ax.near > 0 && wide_mul(ax.near, ay.len) >= wide_mul(ay.near, ax.len) {
        proof {
            lemma_entry_on(ax@, ay@);
            lemma_scaled_within(ay.len as int, ax.near as int, ax.len as int);
            lemma_directed(ax@.dir, ax@.near);
            lemma_directed(ay@.dir, (ay@.len * ax@.near) / ax@.len);
        }
        let along: i128 = wide_mul(ay.len, ax.near) / (ax.len as i128);
        Point { x: step(from.x, ax.forward, ax.near), y: step(from.y, ay.forward, along as i64) }
    } else {
        proof {
            lemma_entry_other(ax@, ay@);
            lemma_entry_on(ay@, ax@);
            lemma_scaled_within(ax.len as int, ay.near as int, ay.len as int);
            lemma_directed(ax@.dir, (ax@.len * ay@.near) / ay@.len);
            lemma_directed(ay@.dir, ay@.near);
        }
        let along: i128 = wide_mul(ax.len, ay.near) / (ay.len as i128);
        Point { x: step(from.x, ax.forward, along as i64), y: step(from.y, ay.forward, ay.near) }
    }
}

impl Rect {
    /// Clips the segment from `start` to `end` to this rectangle, taken with
    /// its edges.
    ///
    /// Returns the two ends of the part of the segment that lies within the
    /// rectangle, in the order of `start` and `end`, or `None` where no point
    /// of the segment does. An end that lies within the rectangle is
    /// returned as it is. An end that lies outside is moved along the segment
    /// onto the edge that the segment crosses; where the crossing falls
    /// between two integer positions, the one nearer to that end is taken. A
    /// rectangle without area clips every segment away.
    pub fn intersect_line(&self, start: Point, end: Point) -> (part: Option<(Point, Point)>)
        ensures
            part == spec_intersect_line(*self, start, end),
    {
        if self.w <= 0 || self.h <= 0 {
            return None;
        }
        let ax: AxisRun = AxisRun::new(self.x, self.w, start.x, end.x);
        let ay: AxisRun = AxisRun::new(self.y, self.h, start.y, end.y);
        proof {
            lemma_segment_meets_iff_axes_meet(*self, start, end);
            lemma_segment_meets_iff_axes_meet(*self, end, start);
            lemma_segment_meets_symmetric(*self, start, end);
        }
        if !ax.meets(&ay) {
            return None;
        }
        Some((clip_end(self, start, end), clip_end(self, end, start)))
    }
}

} // verus!
