//! Integer points in the plane.

use vstd::prelude::*;
use vstd::wrapping::i32_specs::wrapping_mul;
use crate::scalar::{clamped_add, clamped_mul, fits_i32, spec_clamped_add, spec_clamped_mul};

verus! {

/// A position with integer coordinates. Two points are equal exactly when
/// both coordinates are.
#[derive(Clone, Copy, Debug, PartialEq, Eq, Structural)]
pub struct Point {
    pub x: i32,
    pub y: i32,
}

impl Point {
    /// The point `(x, y)`. Any pair of coordinates is accepted.
    pub fn new(x: i32, y: i32) -> (p: Point)
        ensures
            p == (Point { x, y }),
    {
        Point { x, y }
    }

    /// This point moved by `x` horizontally and by `y` vertically.
    ///
    /// A coordinate whose sum leaves the `i32` range is clamped into the safe
    /// range, on the side that the movement points to.
    pub fn offset(self, x: i32, y: i32) -> (p: Point)
        ensures
            p.x == spec_clamped_add(self.x as int, x as int),
            p.y == spec_clamped_add(self.y as int, y as int),
    {
        Point { x: clamped_add(self.x, x), y: clamped_add(self.y, y) }
    }

    /// This point with both coordinates multiplied by `f`, each product
    /// clamped into the safe range when it leaves `i32`.
    pub fn scale_safe(self, f: i32) -> (p: Point)
        ensures
            p.x == spec_clamped_mul(self.x as int, f as int),
            p.y == spec_clamped_mul(self.y as int, f as int),
    {
        Point { x: clamped_mul(self.x, f), y: clamped_mul(self.y, f) }
    }

    /// This point with both coordinates multiplied by `f`, without any
    /// clamping: a product that leaves `i32` wraps around. Meant for callers
    /// that know the products fit.
    pub fn scale_(self, f: i32) -> (p: Point)
        ensures
            p.x == wrapping_mul(self.x, f),
            p.y == wrapping_mul(self.y, f),
            fits_i32(self.x * f) ==> p.x == self.x * f,
            fits_i32(self.y * f) ==> p.y == self.y * f,
    {
        Point { x: self.x.wrapping_mul(f), y: self.y.wrapping_mul(f) }
    }
}

impl From<(i32, i32)> for Point {
    fn from(v: (i32, i32)) -> (p: Point) {
        Point { x: v.0, y: v.1 }
    }
}

impl vstd::std_specs::convert::FromSpecImpl<(i32, i32)> for Point {
    open spec fn obeys_from_spec() -> bool {
        true
    }

    open spec fn from_spec(v: (i32, i32)) -> Point {
        Point { x: v.0, y: v.1 }
    }
}

impl From<Point> for (i32, i32) {
    fn from(p: Point) -> (v: (i32, i32)) {
        (p.x, p.y)
    }
}

impl vstd::std_specs::convert::FromSpecImpl<Point> for (i32, i32) {
    open spec fn obeys_from_spec() -> bool {
        true
    }

    open spec fn from_spec(p: Point) -> (i32, i32) {
        (p.x, p.y)
    }
}

/// A pair of integers handed to a renderer, for instance as the pivot of a
/// rotation. It carries no rule of its own.
#[derive(Clone, Copy, Debug)]
pub struct IVec2 {
    pub x: i32,
    pub y: i32,
}

impl IVec2 {
    /// The pair `(x, y)`.
    pub fn new(x: i32, y: i32) -> (v: IVec2)
        ensures
            v.x == x,
            v.y == y,
    {
        IVec2 { x, y }
    }
}

impl Default for IVec2 {
    /// The pair `(0, 0)`.
    fn default() -> (v: IVec2)
        ensures
            v.x == 0,
            v.y == 0,
    {
        IVec2 { x: 0, y: 0 }
    }
}

} // verus!
