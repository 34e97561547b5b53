//! Axis-aligned rectangles with integer coordinates.
//!
//! A rectangle is a corner `(x, y)` and a size `(w, h)`. Its left and top
//! edges are `x` and `y`, its right and bottom edges `x + w` and `y + h`.
//! Sizes are meant to be non-negative, but nothing enforces that: every
//! operation says what it does for every rectangle it accepts. The edges are
//! modelled as mathematical integers, so `x + w` is the true sum even where it
//! would not fit in an `i32`.
//!
//! Two notions of "inside" live side by side on purpose. `contains_point` is
//! half-open and suits hit testing: the right and bottom edges are outside.
//! `is_contaning_point` is closed and suits bounds checks: all four edges are
//! inside.

use vstd::prelude::*;
use vstd::math::{max, min};
use vstd::std_specs::convert::IntoSpec;
use crate::point::{IVec2, Point};
use crate::scalar::{fits_i32, in_safe_range, max_int_value, spec_max_int_value};

verus! {

/// An axis-aligned rectangle: position `(x, y)` and size `(w, h)`.
#[derive(Clone, Copy, Debug, PartialEq, Eq, Structural)]
pub struct Rect {
    pub x: i32,
    pub y: i32,
    pub w: i32,
    pub h: i32,
}

/// Half of `v`, rounded toward zero.
pub open spec fn spec_half(v: int) -> int {
    if v >= 0 {
        v / 2
    } else {
        -((-v) / 2)
    }
}

/// The coordinate `a` moved by `d`: the sum when it fits in an `i32`,
/// otherwise the safe maximum for a move forward and `i32::MIN` for a move
/// back.
pub open spec fn spec_shifted(a: int, d: int) -> int {
    if fits_i32(a + d) {
        a + d
    } else if d >= 0 {
        spec_max_int_value()
    } else {
        i32::MIN as int
    }
}

/// Moves the coordinate `a` by `d`, see [`spec_shifted`].
fn shifted(a: i32, d: i32) -> (r: i32)
    ensures
        r == spec_shifted(a as int, d as int),
{
    match a.checked_add(d) {
        Some(val) => val,
        None => {
            if d >= 0 {
                max_int_value() as i32
            } else {
                i32::MIN
            }
        },
    }
}

impl Rect {
    /// The left edge.
    pub open spec fn spec_left(self) -> int {
        self.x as int
    }

    /// The right edge, `x + w`.
    pub open spec fn spec_right(self) -> int {
        self.x + self.w
    }

    /// The top edge.
    pub open spec fn spec_top(self) -> int {
        self.y as int
    }

    /// The bottom edge, `y + h`.
    pub open spec fn spec_bottom(self) -> int {
        self.y + self.h
    }

    /// Whether the rectangle has no area.
    pub open spec fn is_empty(self) -> bool {
        self.w <= 0 || self.h <= 0
    }

    /// Whether neither size is negative.
    pub open spec fn is_valid(self) -> bool {
        self.w >= 0 && self.h >= 0
    }

    /// Whether the right and the bottom edge fit in an `i32`.
    pub open spec fn edges_fit(self) -> bool {
        fits_i32(self.spec_right()) && fits_i32(self.spec_bottom())
    }

    /// Half-open containment: `[left, right)` by `[top, bottom)`.
    pub open spec fn spec_contains_point(self, px: int, py: int) -> bool {
        &&& self.spec_left() <= px < self.spec_right()
        &&& self.spec_top() <= py < self.spec_bottom()
    }

    /// Closed containment: `[left, right]` by `[top, bottom]`.
    pub open spec fn spec_is_contaning_point(self, px: int, py: int) -> bool {
        &&& self.spec_left() <= px <= self.spec_right()
        &&& self.spec_top() <= py <= self.spec_bottom()
    }

    /// Whether the interiors overlap on both axes.
    pub open spec fn spec_is_colliding(self, other: Rect) -> bool {
        &&& self.spec_left() < other.spec_right()
        &&& self.spec_right() > other.spec_left()
        &&& self.spec_top() < other.spec_bottom()
        &&& self.spec_bottom() > other.spec_top()
    }

    /// Whether `other` lies within this rectangle, edges included.
    pub open spec fn spec_is_contains_rect(self, other: Rect) -> bool {
        &&& other.spec_left() >= self.spec_left()
        &&& other.spec_right() <= self.spec_right()
        &&& other.spec_top() >= self.spec_top()
        &&& other.spec_bottom() <= self.spec_bottom()
    }

    /// Whether both rectangles have area and, taken with their edges, share
    /// at least one point.
    pub open spec fn spec_has_intersection(self, other: Rect) -> bool {
        &&& !self.is_empty()
        &&& !other.is_empty()
        &&& self.spec_left() <= other.spec_right()
        &&& other.spec_left() <= self.spec_right()
        &&& self.spec_top() <= other.spec_bottom()
        &&& other.spec_top() <= self.spec_bottom()
    }

    /// The common part of two rectangles, if it has area: from the larger of
    /// the left edges to the smaller of the right edges, and likewise from
    /// top to bottom.
    pub open spec fn spec_intersection(self, other: Rect) -> Option<Rect> {
        let left = max(self.spec_left(), other.spec_left());
        let top = max(self.spec_top(), other.spec_top());
        let right = min(self.spec_right(), other.spec_right());
        let bottom = min(self.spec_bottom(), other.spec_bottom());
        if right - left <= 0 || bottom - top <= 0 {
            None
        } else {
            Some(
                Rect {
                    x: left as i32,
                    y: top as i32,
                    w: (right - left) as i32,
                    h: (bottom - top) as i32,
                },
            )
        }
    }

    /// Width of the smallest rectangle around both.
    pub open spec fn spec_union_width(self, other: Rect) -> int {
        max(self.spec_right(), other.spec_right()) - min(self.spec_left(), other.spec_left())
    }

    /// Height of the smallest rectangle around both.
    pub open spec fn spec_union_height(self, other: Rect) -> int {
        max(self.spec_bottom(), other.spec_bottom()) - min(self.spec_top(), other.spec_top())
    }

    /// Whether the union of the two can be stored: one of them is empty, or
    /// the smallest rectangle around both has a width and a height that fit
    /// in an `i32`.
    pub open spec fn union_fits(self, other: Rect) -> bool {
        !self.is_empty() && !other.is_empty() ==> {
            &&& self.spec_union_width(other) <= i32::MAX
            &&& self.spec_union_height(other) <= i32::MAX
        }
    }

    /// The smallest rectangle around both. An empty rectangle adds nothing:
    /// the union with it is the other rectangle, and the union of two empty
    /// rectangles is the empty rectangle at the origin.
    pub open spec fn spec_union(self, other: Rect) -> Rect {
        if self.is_empty() && other.is_empty() {
            Rect { x: 0, y: 0, w: 0, h: 0 }
        } else if self.is_empty() {
            other
        } else if other.is_empty() {
            self
        } else {
            Rect {
                x: min(self.spec_left(), other.spec_left()) as i32,
                y: min(self.spec_top(), other.spec_top()) as i32,
                w: self.spec_union_width(other) as i32,
                h: self.spec_union_height(other) as i32,
            }
        }
    }

    /// The rectangle at `(x, y)` with the size `(w, h)`. Nothing is checked:
    /// keeping the size non-negative is up to the caller.
    pub fn new(x: i32, y: i32, w: i32, h: i32) -> (r: Rect)
        ensures
            r == (Rect { x, y, w, h }),
    {
        Rect { x, y, w, h }
    }

    fn right64(&self) -> (v: i64)
        ensures
            v == self.spec_right(),
    {
        self.x as i64 + self.w as i64
    }

    fn bottom64(&self) -> (v: i64)
        ensures
            v == self.spec_bottom(),
    {
        self.y as i64 + self.h as i64
    }

    /// Closed containment: whether `point` lies within the rectangle, all
    /// four edges included.
    pub fn is_contaning_point(&self, point: IVec2) -> (inside: bool)
        ensures
            inside == self.spec_is_contaning_point(point.x as int, point.y as int),
    {
        let px: i64 = point.x as i64;
        let py: i64 = point.y as i64;
        px >= self.x as i64 && px <= self.right64() && py >= self.y as i64 && py
            <= self.bottom64()
    }

    /// Whether the two rectangles overlap in more than an edge. Rectangles
    /// that only touch do not collide.
    pub fn is_colliding(&self, rect: &Rect) -> (hit: bool)
        ensures
            hit == self.spec_is_colliding(*rect),
    {
        (self.x as i64) < rect.right64() && self.right64() > rect.x as i64 && (self.y as i64)
            < rect.bottom64() && self.bottom64() > rect.y as i64
    }

    /// The middle of the rectangle, `(x + w / 2, y + h / 2)`, the halves
    /// rounded toward zero.
    pub fn center(&self) -> (p: Point)
        requires
            fits_i32(self.x + spec_half(self.w as int)),
            fits_i32(self.y + spec_half(self.h as int)),
        ensures
            p.x == self.x + spec_half(self.w as int),
            p.y == self.y + spec_half(self.h as int),
    {
        let x: i32 = self.x + (self.w / 2);
        let y: i32 = self.y + (self.h / 2);
        Point::new(x, y)
    }

    /// The left edge, `x`.
    pub fn left(&self) -> (v: i32)
        ensures
            v == self.spec_left(),
    {
        self.x
    }

    /// The right edge, `x + w`. The sum is not clamped: it has to fit.
    pub fn right(&self) -> (v: i32)
        requires
            fits_i32(self.spec_right()),
        ensures
            v == self.spec_right(),
    {
        self.x + self.w
    }

    /// The top edge, `y`.
    pub fn top(&self) -> (v: i32)
        ensures
            v == self.spec_top(),
    {
        self.y
    }

    /// The bottom edge, `y + h`. The sum is not clamped: it has to fit.
    pub fn bottom(&self) -> (v: i32)
        requires
            fits_i32(self.spec_bottom()),
        ensures
            v == self.spec_bottom(),
    {
        self.y + self.h
    }

    /// The corner `(left, top)`.
    pub fn top_left(&self) -> (p: Point)
        ensures
            p.x == self.spec_left(),
            p.y == self.spec_top(),
    {
        Point::new(self.left(), self.top())
    }

    /// The corner `(right, top)`.
    pub fn top_right(&self) -> (p: Point)
        requires
            fits_i32(self.spec_right()),
        ensures
            p.x == self.spec_right(),
            p.y == self.spec_top(),
    {
        Point::new(self.right(), self.top())
    }

    /// The corner `(left, bottom)`.
    pub fn bottom_left(&self) -> (p: Point)
        requires
            fits_i32(self.spec_bottom()),
        ensures
            p.x == self.spec_left(),
            p.y == self.spec_bottom(),
    {
        Point::new(self.left(), self.bottom())
    }

    /// The corner `(right, bottom)`.
    pub fn bottom_right(&self) -> (p: Point)
        requires
            self.edges_fit(),
        ensures
            p.x == self.spec_right(),
            p.y == self.spec_bottom(),
    {
        Point::new(self.right(), self.bottom())
    }

    /// Moves the rectangle so that `point` becomes its center: the new
    /// position is `(px - w / 2, py - h / 2)`, the halves rounded toward
    /// zero. The size stays.
    pub fn center_on<P>(&mut self, point: P) where P: Into<(i32, i32)>
        requires
            P::obeys_into_spec(),
            fits_i32(point.into_spec().0 - spec_half(old(self).w as int)),
            fits_i32(point.into_spec().1 - spec_half(old(self).h as int)),
        ensures
            final(self).x == point.into_spec().0 - spec_half(old(self).w as int),
            final(self).y == point.into_spec().1 - spec_half(old(self).h as int),
            final(self).w == old(self).w,
            final(self).h == old(self).h,
    {
        let (x, y) = point.into();
        self.x = x - self.w / 2;
        self.y = y - self.h / 2;
    }

    /// Moves the rectangle by `x` horizontally and by `y` vertically. A
    /// coordinate whose sum leaves the `i32` range becomes the safe maximum
    /// when the move goes forward and `i32::MIN` when it goes back. The size
    /// stays.
    pub fn offset(&mut self, x: i32, y: i32)
        ensures
            final(self).x == spec_shifted(old(self).x as int, x as int),
            final(self).y == spec_shifted(old(self).y as int, y as int),
            final(self).w == old(self).w,
            final(self).h == old(self).h,
    {
        self.x = shifted(self.x, x);
        self.y = shifted(self.y, y);
    }

    /// Half-open containment: whether `point` lies within the rectangle, the
    /// left and top edges included, the right and bottom edges not.
    pub fn contains_point<P>(&self, point: P) -> (inside: bool) where P: Into<(i32, i32)>
        ensures
            P::obeys_into_spec() ==> inside == self.spec_contains_point(
                point.into_spec().0 as int,
                point.into_spec().1 as int,
            ),
    {
        let (x, y) = point.into();
        let px: i64 = x as i64;
        let py: i64 = y as i64;
        let inside_x: bool = px >= self.x as i64 && px < self.right64();
        inside_x && (py >= self.y as i64 && py < self.bottom64())
    }

    /// Whether `other` lies within this rectangle, shared edges allowed.
    pub fn is_contains_rect(&self, other: Rect) -> (inside: bool)
        ensures
            inside == self.spec_is_contains_rect(other),
    {
        other.x >= self.x && other.right64() <= self.right64() && other.y >= self.y
            && other.bottom64() <= self.bottom64()
    }

    /// Whether both rectangles have area and, taken with their edges, share
    /// at least one point. Rectangles that touch along an edge do intersect
    /// in this sense, though they do not collide and have no intersection
    /// rectangle.
    pub fn has_intersection(&self, other: Rect) -> (hit: bool)
        ensures
            hit == self.spec_has_intersection(other),
    {
        if self.w <= 0 || self.h <= 0 || other.w <= 0 || other.h <= 0 {
            return false;
        }
        self.x as i64 <= other.right64() && other.x as i64 <= self.right64() && self.y as i64
            <= other.bottom64() && other.y as i64 <= self.bottom64()
    }

    /// The rectangle that both have in common, or `None` where that would
    /// have no area. An empty rectangle has nothing in common with any
    /// other.
    pub fn intersection(&self, other: Rect) -> (common: Option<Rect>)
        ensures
            common == self.spec_intersection(other),
    {
        let left: i32 = if other.x > self.x {
            other.x
        } else {
            self.x
        };
        let top: i32 = if other.y > self.y {
            other.y
        } else {
            self.y
        };
        let right: i64 = if other.right64() < self.right64() {
            other.right64()
        } else {
            self.right64()
        };
        let bottom: i64 = if other.bottom64() < self.bottom64() {
            other.bottom64()
        } else {
            self.bottom64()
        };
        let w: i64 = right - left as i64;
        let h: i64 = bottom - top as i64;
        if w <= 0 || h <= 0 {
            None
        } else {
            Some(Rect { x: left, y: top, w: w as i32, h: h as i32 })
        }
    }

    /// The smallest rectangle around both. An empty rectangle adds nothing:
    /// the union with it is the other rectangle, and the union of two empty
    /// rectangles is the empty rectangle at the origin. Where both have
    /// area, the width and height of the result have to fit in an `i32`.
    pub fn union(&self, other: Rect) -> (around: Rect)
        requires
            self.union_fits(other),
        ensures
            around == self.spec_union(other),
    {
        let self_empty: bool = self.w <= 0 || self.h <= 0;
        let other_empty: bool = other.w <= 0 || other.h <= 0;
        if self_empty {
            if other_empty {
                return Rect { x: 0, y: 0, w: 0, h: 0 };
            }
            return other;
        }
        if other_empty {
            return *self;
        }
        let left: i32 = if other.x < self.x {
            other.x
        } else {
            self.x
        };
        let top: i32 = if other.y < self.y {
            other.y
        } else {
            self.y
        };
        let right: i64 = if other.right64() > self.right64() {
            other.right64()
        } else {
            self.right64()
        };
        let bottom: i64 = if other.bottom64() > self.bottom64() {
            other.bottom64()
        } else {
            self.bottom64()
        };
        Rect { x: left, y: top, w: (right - left as i64) as i32, h: (bottom - top as i64) as i32 }
    }
}

/// Half-open containment holds the top-left corner of every rectangle that
/// has area.
pub proof fn lemma_contains_top_left(r: Rect)
    requires
        !r.is_empty(),
    ensures
        r.spec_contains_point(r.spec_left(), r.spec_top()),
{
}

/// Half-open containment never holds the bottom-right corner.
pub proof fn lemma_excludes_bottom_right(r: Rect)
    ensures
        !r.spec_contains_point(r.spec_right(), r.spec_bottom()),
{
}

/// Closed containment holds both the top-left and the bottom-right corner of
/// every rectangle whose size is not negative.
pub proof fn lemma_is_contaning_corners(r: Rect)
    requires
        r.is_valid(),
    ensures
        r.spec_is_contaning_point(r.spec_left(), r.spec_top()),
        r.spec_is_contaning_point(r.spec_right(), r.spec_bottom()),
{
}

/// Colliding is symmetric: `a` collides with `b` exactly when `b` collides
/// with `a`.
pub proof fn lemma_is_colliding_symmetric(a: Rect, b: Rect)
    ensures
        a.spec_is_colliding(b) == b.spec_is_colliding(a),
{
}

/// The edges of a rectangle give back what it was made of: left and top are
/// `x` and `y`, right and bottom are `x + w` and `y + h`. Where those sums
/// fit in an `i32`, the edge accessors can be called and return them.
pub proof fn lemma_edges_round_trip(x: i32, y: i32, w: i32, h: i32)
    ensures
        ({
            let r = Rect { x, y, w, h };
            &&& r.spec_left() == x
            &&& r.spec_top() == y
            &&& r.spec_right() == x + w
            &&& r.spec_bottom() == y + h
            &&& r.edges_fit() == (fits_i32(x + w) && fits_i32(y + h))
        }),
{
}

/// The intersection is exactly the common part: a point lies in both
/// rectangles, in the half-open sense, exactly when there is an intersection
/// and the point lies in it.
pub proof fn lemma_intersection_is_common_part(a: Rect, b: Rect, px: int, py: int)
    ensures
        (a.spec_contains_point(px, py) && b.spec_contains_point(px, py)) <==> (
        a.spec_intersection(b) matches Some(c) && c.spec_contains_point(px, py)),
{
}

/// Two rectangles with area collide exactly when they have an intersection.
pub proof fn lemma_colliding_iff_intersection(a: Rect, b: Rect)
    requires
        !a.is_empty(),
        !b.is_empty(),
    ensures
        a.spec_is_colliding(b) <==> a.spec_intersection(b) is Some,
{
}

/// Rectangles that collide also intersect in the closed sense, provided both
/// have area.
pub proof fn lemma_colliding_implies_has_intersection(a: Rect, b: Rect)
    requires
        !a.is_empty(),
        !b.is_empty(),
        a.spec_is_colliding(b),
    ensures
        a.spec_has_intersection(b),
{
}

/// The union of two rectangles with area holds both of them.
pub proof fn lemma_union_holds_both(a: Rect, b: Rect)
    requires
        !a.is_empty(),
        !b.is_empty(),
        a.union_fits(b),
    ensures
        a.spec_union(b).spec_is_contains_rect(a),
        a.spec_union(b).spec_is_contains_rect(b),
        !a.spec_union(b).is_empty(),
{
}

/// Rectangles whose edges all lie in the safe range have a union that can be
/// stored.
pub proof fn lemma_safe_rects_union_fits(a: Rect, b: Rect)
    requires
        in_safe_range(a.spec_left()) && in_safe_range(a.spec_right()),
        in_safe_range(a.spec_top()) && in_safe_range(a.spec_bottom()),
        in_safe_range(b.spec_left()) && in_safe_range(b.spec_right()),
        in_safe_range(b.spec_top()) && in_safe_range(b.spec_bottom()),
    ensures
        a.union_fits(b),
{
}

} // verus!
