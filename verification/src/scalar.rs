//! Clamped integer arithmetic shared by points and rectangles.
//!
//! Coordinates that leave the `i32` range are pulled back into a "safe" half
//! of that range, chosen so that the distance between any two safe
//! coordinates is itself an `i32`.

use vstd::prelude::*;

verus! {

/// Largest value that clamped arithmetic produces on overflow: `i32::MAX / 2`.
pub open spec fn spec_max_int_value() -> int {
    0x3fff_ffff
}

/// Smallest value that clamped arithmetic produces on overflow: `i32::MIN / 2`.
pub open spec fn spec_min_int_value() -> int {
    -0x4000_0000
}

/// Whether `v` can be stored in an `i32`.
pub open spec fn fits_i32(v: int) -> bool {
    i32::MIN <= v <= i32::MAX
}

/// Whether `v` lies between the safe minimum and the safe maximum.
pub open spec fn in_safe_range(v: int) -> bool {
    spec_min_int_value() <= v <= spec_max_int_value()
}

/// The sum `a + b` when it fits in an `i32`; otherwise the safe maximum when
/// the sum is too large and the safe minimum when it is too small.
pub open spec fn spec_clamped_add(a: int, b: int) -> int {
    if a + b > i32::MAX {
        spec_max_int_value()
    } else if a + b < i32::MIN {
        spec_min_int_value()
    } else {
        a + b
    }
}

/// The product `a * b` when it fits in an `i32`; otherwise the safe maximum
/// when the product is too large and the safe minimum when it is too small.
pub open spec fn spec_clamped_mul(a: int, b: int) -> int {
    if a * b > i32::MAX {
        spec_max_int_value()
    } else if a * b < i32::MIN {
        spec_min_int_value()
    } else {
        a * b
    }
}

/// The upper clamp for coordinates and sizes, half of `i32::MAX`.
///
/// Two coordinates between the safe minimum and this value are never more
/// than `i32::MAX` apart, so a rectangle spanned by them has a width and a
/// height that fit.
pub fn max_int_value() -> (r: u32)
    ensures
        r == spec_max_int_value(),
        r == i32::MAX / 2,
{
    0x3fff_ffff
}

/// The lower clamp for coordinates, half of `i32::MIN`.
pub fn min_int_value() -> (r: i32)
    ensures
        r == spec_min_int_value(),
        2 * r == i32::MIN,
{
    -0x4000_0000
}

/// Adds `b` to `a`, clamping into the safe range when the sum leaves `i32`.
///
/// A sum of two `i32` values can only be too large when `b` is positive and
/// too small when `b` is negative, so the side that is clamped to is also
/// the side that `b` points to.
pub fn clamped_add(a: i32, b: i32) -> (r: i32)
    ensures
        r == spec_clamped_add(a as int, b as int),
        fits_i32(a + b) ==> r == a + b,
        !fits_i32(a + b) ==> r == (if b < 0 {
            spec_min_int_value()
        } else {
            spec_max_int_value()
        }),
{
    match a.checked_add(b) {
        Some(val) => val,
        None => {
            if b < 0 {
                min_int_value()
            } else {
                max_int_value() as i32
            }
        },
    }
}

/// The sign of a product that is too large or too small for an `i32`.
pub proof fn lemma_overflowing_product_sign(a: int, b: int)
    requires
        !fits_i32(a * b),
    ensures
        a * b > i32::MAX <==> ((a < 0) == (b < 0)),
        a * b < i32::MIN <==> ((a < 0) != (b < 0)),
{
    assert(a * b > 0 <==> ((a < 0) == (b < 0))) by (nonlinear_arith)
        requires
            a * b != 0,
    ;
}

/// Multiplies `a` by `b`, clamping into the safe range when the product
/// leaves `i32`: to the safe maximum when the factors have the same sign, to
/// the safe minimum when their signs differ.
pub fn clamped_mul(a: i32, b: i32) -> (r: i32)
    ensures
        r == spec_clamped_mul(a as int, b as int),
        fits_i32(a * b) ==> r == a * b,
        !fits_i32(a * b) ==> r == (if (a < 0) == (b < 0) {
            spec_max_int_value()
        } else {
            spec_min_int_value()
        }),
{
    match a.checked_mul(b) {
        Some(val) => val,
        None => {
            proof {
                lemma_overflowing_product_sign(a as int, b as int);
            }
            if (a < 0) != (b < 0) {
                min_int_value()
            } else {
                max_int_value() as i32
            }
        },
    }
}

} // verus!
