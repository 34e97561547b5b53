use commonsdl::point::{IVec2, Point};
use commonsdl::rect::Rect;

#[test]
fn enclose_no_points() {
    assert_eq!(Rect::from_enclose_points(&[], None), None);
    assert_eq!(Rect::from_enclose_points(&[], Some(Rect::new(0, 0, 10, 10))), None);
}

#[test]
fn enclose_two_points() {
    let r = Rect::from_enclose_points(&[Point::new(1, 1), Point::new(5, 5)], None);
    assert_eq!(r, Some(Rect::new(1, 1, 4, 4)));
}

#[test]
fn enclose_single_point() {
    let r = Rect::from_enclose_points(&[Point::new(3, -3)], None);
    assert_eq!(r, Some(Rect::new(3, -3, 0, 0)));
}

#[test]
fn enclose_many_points() {
    let pts = [
        Point::new(4, 4),
        Point::new(-2, 9),
        Point::new(7, -1),
        Point::new(0, 0),
        Point::new(7, 9),
        Point::new(-2, -1),
    ];
    let r = Rect::from_enclose_points(&pts, None).unwrap();
    assert_eq!(r, Rect::new(-2, -1, 9, 10));
    for p in pts.iter() {
        assert!(r.is_contaning_point(IVec2::new(p.x, p.y)));
    }
}

#[test]
fn enclose_order_does_not_matter() {
    let a = [Point::new(5, 1), Point::new(1, 5), Point::new(3, 3)];
    let b = [Point::new(3, 3), Point::new(1, 5), Point::new(5, 1)];
    assert_eq!(Rect::from_enclose_points(&a, None), Some(Rect::new(1, 1, 4, 4)));
    assert_eq!(Rect::from_enclose_points(&b, None), Some(Rect::new(1, 1, 4, 4)));
}

#[test]
fn enclose_safe_range_extremes() {
    let lo = i32::MIN / 2;
    let hi = i32::MAX / 2;
    let r = Rect::from_enclose_points(&[Point::new(hi, lo), Point::new(lo, hi)], None);
    assert_eq!(r, Some(Rect::new(lo, lo, i32::MAX, i32::MAX)));
}

#[test]
fn enclose_with_clip_around_everything() {
    let pts = [Point::new(1, 1), Point::new(5, 5)];
    let r = Rect::from_enclose_points(&pts, Some(Rect::new(0, 0, 10, 10)));
    assert_eq!(r, Some(Rect::new(1, 1, 4, 4)));
    let one = Rect::from_enclose_points(&[Point::new(3, 3)], Some(Rect::new(0, 0, 10, 10)));
    assert_eq!(one, Some(Rect::new(3, 3, 0, 0)));
}

#[test]
fn enclose_with_clip_cutting() {
    let pts = [Point::new(0, 0), Point::new(10, 10)];
    let r = Rect::from_enclose_points(&pts, Some(Rect::new(4, 5, 2, 20)));
    assert_eq!(r, Some(Rect::new(4, 5, 2, 5)));
    let corner = Rect::from_enclose_points(&pts, Some(Rect::new(10, 10, 5, 5)));
    assert_eq!(corner, Some(Rect::new(10, 10, 0, 0)));
}

#[test]
fn enclose_with_clip_apart() {
    let pts = [Point::new(0, 0), Point::new(10, 10)];
    assert_eq!(Rect::from_enclose_points(&pts, Some(Rect::new(11, 0, 5, 5))), None);
    assert_eq!(Rect::from_enclose_points(&pts, Some(Rect::new(0, -6, 5, 5))), None);
}

#[test]
fn enclose_with_empty_clip() {
    let pts = [Point::new(0, 0), Point::new(10, 10)];
    assert_eq!(Rect::from_enclose_points(&pts, Some(Rect::new(2, 2, 0, 5))), None);
    assert_eq!(Rect::from_enclose_points(&pts, Some(Rect::new(2, 2, 5, -1))), None);
}

#[test]
fn enclose_far_apart_points_with_clip() {
    let pts = [Point::new(i32::MIN, i32::MIN), Point::new(i32::MAX, i32::MAX)];
    let r = Rect::from_enclose_points(&pts, Some(Rect::new(-3, -3, 6, 6)));
    assert_eq!(r, Some(Rect::new(-3, -3, 6, 6)));
    let edge = Rect::from_enclose_points(&pts, Some(Rect::new(i32::MAX - 1, 0, 10, 10)));
    assert_eq!(edge, Some(Rect::new(i32::MAX - 1, 0, 1, 10)));
}
