use commonsdl::point::{IVec2, Point};
use commonsdl::scalar::{clamped_add, clamped_mul, max_int_value, min_int_value};

#[test]
fn safe_range_values() {
    assert_eq!(max_int_value(), 1_073_741_823);
    assert_eq!(max_int_value(), (i32::MAX / 2) as u32);
    assert_eq!(min_int_value(), -1_073_741_824);
    assert_eq!(min_int_value(), i32::MIN / 2);
}

#[test]
fn clamped_add_without_overflow() {
    assert_eq!(clamped_add(3, 4), 7);
    assert_eq!(clamped_add(-3, 4), 1);
    assert_eq!(clamped_add(i32::MAX, 0), i32::MAX);
    assert_eq!(clamped_add(i32::MAX - 1, 1), i32::MAX);
    assert_eq!(clamped_add(i32::MIN, 0), i32::MIN);
    assert_eq!(clamped_add(i32::MIN + 1, -1), i32::MIN);
    assert_eq!(clamped_add(i32::MAX, i32::MIN), -1);
}

#[test]
fn clamped_add_on_overflow() {
    assert_eq!(clamped_add(i32::MAX, 1), 1_073_741_823);
    assert_eq!(clamped_add(1, i32::MAX), 1_073_741_823);
    assert_eq!(clamped_add(i32::MAX, i32::MAX), 1_073_741_823);
    assert_eq!(clamped_add(i32::MIN, -1), -1_073_741_824);
    assert_eq!(clamped_add(-1, i32::MIN), -1_073_741_824);
    assert_eq!(clamped_add(i32::MIN, i32::MIN), -1_073_741_824);
}

#[test]
fn clamped_mul_without_overflow() {
    assert_eq!(clamped_mul(6, 7), 42);
    assert_eq!(clamped_mul(-6, 7), -42);
    assert_eq!(clamped_mul(-6, -7), 42);
    assert_eq!(clamped_mul(0, i32::MIN), 0);
    assert_eq!(clamped_mul(i32::MAX, 1), i32::MAX);
    assert_eq!(clamped_mul(i32::MIN, 1), i32::MIN);
    assert_eq!(clamped_mul(46340, 46340), 2_147_395_600);
    assert_eq!(clamped_mul(i32::MIN / 2, 2), i32::MIN);
}

#[test]
fn clamped_mul_on_overflow() {
    assert_eq!(clamped_mul(i32::MAX, 2), 1_073_741_823);
    assert_eq!(clamped_mul(-i32::MAX, -2), 1_073_741_823);
    assert_eq!(clamped_mul(i32::MIN, -1), 1_073_741_823);
    assert_eq!(clamped_mul(46341, 46341), 1_073_741_823);
    assert_eq!(clamped_mul(i32::MAX, -2), -1_073_741_824);
    assert_eq!(clamped_mul(-2, i32::MAX), -1_073_741_824);
    assert_eq!(clamped_mul(i32::MIN, 2), -1_073_741_824);
}

#[test]
fn point_new_and_equality() {
    let p = Point::new(3, -4);
    assert_eq!(p.x, 3);
    assert_eq!(p.y, -4);
    assert_eq!(p, Point::new(3, -4));
    assert_ne!(p, Point::new(3, 4));
    assert_ne!(p, Point::new(-3, -4));
    assert_eq!(format!("{:?}", p), "Point { x: 3, y: -4 }");
}

#[test]
fn point_tuple_conversions() {
    let p: Point = (7, 8).into();
    assert_eq!(p, Point::new(7, 8));
    let t: (i32, i32) = Point::new(-1, 2).into();
    assert_eq!(t, (-1, 2));
}

#[test]
fn offset_moves_point() {
    assert_eq!(Point::new(1, 2).offset(10, -20), Point::new(11, -18));
    assert_eq!(Point::new(1, 2).offset(0, 0), Point::new(1, 2));
}

#[test]
fn offset_clamps_positive_overflow() {
    let p = Point::new(i32::MAX, 0).offset(10, 0);
    assert_eq!(p.x, max_int_value() as i32);
    assert_eq!(p.x, 1_073_741_823);
    assert!(p.x > 0);
    assert_eq!(p.y, 0);
}

#[test]
fn offset_clamps_negative_overflow() {
    let p = Point::new(5, i32::MIN).offset(1, -1);
    assert_eq!(p.x, 6);
    assert_eq!(p.y, min_int_value());
    assert_eq!(p.y, -1_073_741_824);
}

#[test]
fn scale_safe_clamps_positive_overflow() {
    let p = Point::new(i32::MAX, 0).scale_safe(2);
    assert_eq!(p.x, max_int_value() as i32);
    assert_eq!(p.x, 1_073_741_823);
    assert_eq!(p.y, 0);
}

#[test]
fn scale_safe_clamps_negative_overflow() {
    let p = Point::new(i32::MAX, i32::MIN).scale_safe(-3);
    assert_eq!(p.x, min_int_value());
    assert_eq!(p.y, max_int_value() as i32);
}

#[test]
fn scale_safe_plain_products() {
    assert_eq!(Point::new(3, -4).scale_safe(5), Point::new(15, -20));
    assert_eq!(Point::new(3, -4).scale_safe(0), Point::new(0, 0));
}

#[test]
fn scale_plain_products() {
    assert_eq!(Point::new(3, -4).scale_(5), Point::new(15, -20));
    assert_eq!(Point::new(3, -4).scale_(-1), Point::new(-3, 4));
}

#[test]
fn scale_wraps_on_overflow() {
    let p = Point::new(i32::MAX, i32::MIN).scale_(2);
    assert_eq!(p.x, -2);
    assert_eq!(p.y, 0);
    assert_eq!(Point::new(65536, 0).scale_(65536).x, 0);
}

#[test]
fn ivec2_new_and_default() {
    let v = IVec2::new(4, -9);
    assert_eq!((v.x, v.y), (4, -9));
    let d = IVec2::default();
    assert_eq!((d.x, d.y), (0, 0));
}
