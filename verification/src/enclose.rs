//! The smallest rectangle around a set of points.
//!
//! The rectangle reaches from the smallest to the largest coordinate on each
//! axis, so every point lies within it in the closed sense of
//! `is_contaning_point`, and a single point gives a rectangle of size zero.
//! A clipping rectangle, where one is given, cuts the result down to the part
//! that lies within it, edges included.

use vstd::prelude::*;
use vstd::math::{max, min};
use crate::point::Point;
use crate::rect::Rect;
use crate::scalar::in_safe_range;

verus! {

/// The x coordinates of `points`, in order.
pub open spec fn xs(points: Seq<Point>) -> Seq<int> {
    Seq::new(points.len(), |i: int| points[i].x as int)
}

/// The y coordinates of `points`, in order.
pub open spec fn ys(points: Seq<Point>) -> Seq<int> {
    Seq::new(points.len(), |i: int| points[i].y as int)
}

/// Whether the rectangle around `points`, cut down to `clip`, can be stored.
/// With a clipping rectangle it always can. Without one, the points may not
/// lie further apart than `i32::MAX` on either axis.
pub open spec fn enclose_fits(points: Seq<Point>, clip: Option<Rect>) -> bool {
    points.len() > 0 && clip is None ==> {
        &&& xs(points).max() - xs(points).min() <= i32::MAX
        &&& ys(points).max() - ys(points).min() <= i32::MAX
    }
}

/// The rectangle around `points`, cut down to `clip`.
///
/// There is none for an empty sequence, for a clipping rectangle without
/// area, and where the rectangle around the points and the clipping
/// rectangle, both taken with their edges, have no point in common.
pub open spec fn spec_from_enclose_points(points: Seq<Point>, clip: Option<Rect>) -> Option<Rect> {
    if points.len() == 0 {
        None
    } else {
        let left = xs(points).min();
        let right = xs(points).max();
        let top = ys(points).min();
        let bottom = ys(points).max();
        match clip {
            None => Some(
                Rect {
                    x: left as i32,
                    y: top as i32,
                    w: (right - left) as i32,
                    h: (bottom - top) as i32,
                },
            ),
            Some(c) => {
                let l = max(left, c.spec_left());
                let r = min(right, c.spec_right());
                let t = max(top, c.spec_top());
                let b = min(bottom, c.spec_bottom());
                if c.is_empty() || r < l || b < t {
                    None
                } else {
                    Some(Rect { x: l as i32, y: t as i32, w: (r - l) as i32, h: (b - t) as i32 })
                }
            },
        }
    }
}

/// A value that bounds a sequence from below and occurs in it is its minimum.
proof fn lemma_min_is(s: Seq<int>, m: int, at: int)
    requires
        0 <= at < s.len(),
        s[at] == m,
        forall|i: int| 0 <= i < s.len() ==> m <= s[i],
    ensures
        s.min() == m,
{
    s.min_ensures();
    let j = choose|j: int| 0 <= j < s.len() && s[j] == s.min();
    assert(m <= s[j]);
    assert(s.min() <= s[at]);
}

/// A value that bounds a sequence from above and occurs in it is its maximum.
proof fn lemma_max_is(s: Seq<int>, m: int, at: int)
    requires
        0 <= at < s.len(),
        s[at] == m,
        forall|i: int| 0 <= i < s.len() ==> s[i] <= m,
    ensures
        s.max() == m,
{
    s.max_ensures();
    let j = choose|j: int| 0 <= j < s.len() && s[j] == s.max();
    assert(s[j] <= m);
    assert(s[at] <= s.max());
}

/// Without clipping, the rectangle around a non-empty sequence of points
/// holds every one of them, edges included, and each of its four edges
/// passes through at least one of them: no smaller rectangle would do.
pub proof fn lemma_enclosing_rect_is_tight(points: Seq<Point>)
    requires
        points.len() > 0,
        enclose_fits(points, None),
    ensures
        spec_from_enclose_points(points, None) matches Some(r) && {
            &&& r.is_valid()
            &&& forall|i: int|
                0 <= i < points.len() ==> r.spec_is_contaning_point(
                    #[trigger] points[i].x as int,
                    points[i].y as int,
                )
            &&& exists|i: int| 0 <= i < points.len() && #[trigger] points[i].x == r.spec_left()
            &&& exists|i: int| 0 <= i < points.len() && #[trigger] points[i].x == r.spec_right()
            &&& exists|i: int| 0 <= i < points.len() && #[trigger] points[i].y == r.spec_top()
            &&& exists|i: int| 0 <= i < points.len() && #[trigger] points[i].y == r.spec_bottom()
        },
{
    let sx = xs(points);
    let sy = ys(points);
    sx.min_ensures();
    sx.max_ensures();
    sy.min_ensures();
    sy.max_ensures();
    let r = spec_from_enclose_points(points, None).unwrap();
    let il = choose|i: int| 0 <= i < sx.len() && sx[i] == sx.min();
    let ir = choose|i: int| 0 <= i < sx.len() && sx[i] == sx.max();
    let it = choose|i: int| 0 <= i < sy.len() && sy[i] == sy.min();
    let ib = choose|i: int| 0 <= i < sy.len() && sy[i] == sy.max();
    assert(points[il].x == sx[il]);
    assert(points[ir].x == sx[ir]);
    assert(points[it].y == sy[it]);
    assert(points[ib].y == sy[ib]);
    assert(sx.min() <= sx[ir]);
    assert(sy.min() <= sy[ib]);
    assert forall|i: int| 0 <= i < points.len() implies r.spec_is_contaning_point(
        #[trigger] points[i].x as int,
        points[i].y as int,
    ) by {
        assert(sx[i] == points[i].x);
        assert(sy[i] == points[i].y);
    }
}

/// Points whose coordinates all lie in the safe range are never too far
/// apart for the rectangle around them.
pub proof fn lemma_safe_points_fit(points: Seq<Point>, clip: Option<Rect>)
    requires
        forall|i: int|
            0 <= i < points.len() ==> in_safe_range(#[trigger] points[i].x as int)
                && in_safe_range(points[i].y as int),
    ensures
        enclose_fits(points, clip),
{
    if points.len() > 0 {
        let sx = xs(points);
        let sy = ys(points);
        sx.min_ensures();
        sx.max_ensures();
        sy.min_ensures();
        sy.max_ensures();
        let il = choose|i: int| 0 <= i < sx.len() && sx[i] == sx.min();
        let ir = choose|i: int| 0 <= i < sx.len() && sx[i] == sx.max();
        let it = choose|i: int| 0 <= i < sy.len() && sy[i] == sy.min();
        let ib = choose|i: int| 0 <= i < sy.len() && sy[i] == sy.max();
        assert(in_safe_range(points[il].x as int));
        assert(in_safe_range(points[ir].x as int));
        assert(in_safe_range(points[it].x as int) && in_safe_range(points[it].y as int));
        assert(in_safe_range(points[ib].x as int) && in_safe_range(points[ib].y as int));
    }
}

impl Rect {
    /// The smallest rectangle around `points`, cut down to `clipping_rect`
    /// where one is given.
    ///
    /// The result reaches from the smallest to the largest coordinate of the
    /// points on each axis; with a clipping rectangle, it is the part of that
    /// range that lies within the clipping rectangle, edges included. There
    /// is no result for an empty slice, for a clipping rectangle without
    /// area, and where the two have no point in common.
    pub fn from_enclose_points(points: &[Point], clipping_rect: Option<Rect>) -> (around: Option<
        Rect,
    >)
        requires
            enclose_fits(points@, clipping_rect),
        ensures
            around == spec_from_enclose_points(points@, clipping_rect),
    {
        let n: usize = points.len();
        if n == 0 {
            return None;
        }
        let mut left: i32 = points[0].x;
        let mut right: i32 = points[0].x;
        let mut top: i32 = points[0].y;
        let mut bottom: i32 = points[0].y;
        let ghost mut at_left: int = 0;
        let ghost mut at_right: int = 0;
        let ghost mut at_top: int = 0;
        let ghost mut at_bottom: int = 0;
        let mut i: usize = 1;
        while i < n
            invariant
                n == points@.len(),
                1 <= i <= n,
                0 <= at_left < i && points@[at_left].x == left,
                0 <= at_right < i && points@[at_right].x == right,
                0 <= at_top < i && points@[at_top].y == top,
                0 <= at_bottom < i && points@[at_bottom].y == bottom,
                forall|j: int| 0 <= j < i ==> left <= (#[trigger] points@[j]).x <= right,
                forall|j: int| 0 <= j < i ==> top <= (#[trigger] points@[j]).y <= bottom,
            decreases n - i,
        {
            let p: Point = points[i];
            if p.x < left {
                left = p.x;
                proof {
                    at_left = i as int;
                }
            } else if p.x > right {
                right = p.x;
                proof {
                    at_right = i as int;
                }
            }
            if p.y < top {
                top = p.y;
                proof {
                    at_top = i as int;
                }
            } else if p.y > bottom {
                bottom = p.y;
                proof {
                    at_bottom = i as int;
                }
            }
            i = i + 1;
        }
        proof {
            let sx = xs(points@);
            let sy = ys(points@);
            assert forall|j: int| 0 <= j < sx.len() implies left <= #[trigger] sx[j] && sx[j] <= right by {
                assert(sx[j] == points@[j].x);
            }
            assert forall|j: int| 0 <= j < sy.len() implies top <= #[trigger] sy[j] && sy[j] <= bottom by {
                assert(sy[j] == points@[j].y);
            }
            lemma_min_is(sx, left as int, at_left);
            lemma_max_is(sx, right as int, at_right);
            lemma_min_is(sy, top as int, at_top);
            lemma_max_is(sy, bottom as int, at_bottom);
        }
        match clipping_rect {
            None => {
                let w: i64 = right as i64 - left as i64;
                let h: i64 = bottom as i64 - top as i64;
                Some(Rect { x: left, y: top, w: w as i32, h: h as i32 })
            },
            Some(c) => {
                if c.w <= 0 || c.h <= 0 {
                    return None;
                }
                let c_right: i64 = c.x as i64 + c.w as i64;
                let c_bottom: i64 = c.y as i64 + c.h as i64;
                let l: i32 = if c.x > left {
                    c.x
                } else {
                    left
                };
                let t: i32 = if c.y > top {
                    c.y
                } else {
                    top
                };
                let r: i64 = if c_right < right as i64 {
                    c_right
                } else {
                    right as i64
                };
                let b: i64 = if c_bottom < bottom as i64 {
                    c_bottom
                } else {
                    bottom as i64
                };
                if r < l as i64 || b < t as i64 {
                    None
                } else {
                    Some(Rect { x: l, y: t, w: (r - l as i64) as i32, h: (b - t as i64) as i32 })
                }
            },
        }
    }
}

} // verus!
