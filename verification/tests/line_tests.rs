use commonsdl::point::{IVec2, Point};
use commonsdl::rect::Rect;

fn inside(r: &Rect, p: Point) -> bool {
    r.is_contaning_point(IVec2::new(p.x, p.y))
}

#[test]
fn horizontal_line_through_rect() {
    let r = Rect::new(0, 0, 10, 10);
    let got = r.intersect_line(Point::new(-5, 5), Point::new(15, 5));
    assert_eq!(got, Some((Point::new(0, 5), Point::new(10, 5))));
}

#[test]
fn horizontal_line_reversed() {
    let r = Rect::new(0, 0, 10, 10);
    let got = r.intersect_line(Point::new(15, 5), Point::new(-5, 5));
    assert_eq!(got, Some((Point::new(10, 5), Point::new(0, 5))));
}

#[test]
fn vertical_line_through_rect() {
    let r = Rect::new(0, 0, 10, 10);
    let got = r.intersect_line(Point::new(3, 20), Point::new(3, -20));
    assert_eq!(got, Some((Point::new(3, 10), Point::new(3, 0))));
}

#[test]
fn line_inside_stays() {
    let r = Rect::new(0, 0, 10, 10);
    let got = r.intersect_line(Point::new(1, 2), Point::new(9, 3));
    assert_eq!(got, Some((Point::new(1, 2), Point::new(9, 3))));
    let edge = r.intersect_line(Point::new(0, 0), Point::new(10, 10));
    assert_eq!(edge, Some((Point::new(0, 0), Point::new(10, 10))));
}

#[test]
fn line_with_one_end_inside() {
    let r = Rect::new(0, 0, 10, 10);
    let got = r.intersect_line(Point::new(5, 5), Point::new(5, 25));
    assert_eq!(got, Some((Point::new(5, 5), Point::new(5, 10))));
    let diag = r.intersect_line(Point::new(5, 5), Point::new(25, 25));
    assert_eq!(diag, Some((Point::new(5, 5), Point::new(10, 10))));
}

#[test]
fn line_outside_is_none() {
    let r = Rect::new(0, 0, 10, 10);
    assert_eq!(r.intersect_line(Point::new(-5, 5), Point::new(-1, 5)), None);
    assert_eq!(r.intersect_line(Point::new(-5, 5), Point::new(5, -6)), None);
    assert_eq!(r.intersect_line(Point::new(11, 0), Point::new(20, 9)), None);
    assert_eq!(r.intersect_line(Point::new(0, 11), Point::new(10, 11)), None);
    assert_eq!(r.intersect_line(Point::new(12, 12), Point::new(12, 12)), None);
}

#[test]
fn line_touching_a_corner() {
    let r = Rect::new(0, 0, 10, 10);
    let got = r.intersect_line(Point::new(-5, 5), Point::new(5, -5));
    assert_eq!(got, Some((Point::new(0, 0), Point::new(0, 0))));
    let far = r.intersect_line(Point::new(5, 15), Point::new(15, 5));
    assert_eq!(far, Some((Point::new(10, 10), Point::new(10, 10))));
}

#[test]
fn line_touching_an_edge() {
    let r = Rect::new(0, 0, 10, 10);
    let got = r.intersect_line(Point::new(-3, 10), Point::new(13, 10));
    assert_eq!(got, Some((Point::new(0, 10), Point::new(10, 10))));
    let end_on_edge = r.intersect_line(Point::new(-3, 4), Point::new(0, 4));
    assert_eq!(end_on_edge, Some((Point::new(0, 4), Point::new(0, 4))));
}

#[test]
fn single_point_segment() {
    let r = Rect::new(0, 0, 10, 10);
    let p = Point::new(4, 10);
    assert_eq!(r.intersect_line(p, p), Some((p, p)));
}

#[test]
fn diagonal_line_exact_crossings() {
    let r = Rect::new(0, 0, 10, 10);
    let got = r.intersect_line(Point::new(-4, -2), Point::new(16, 8));
    assert_eq!(got, Some((Point::new(0, 0), Point::new(10, 5))));
    let steep = r.intersect_line(Point::new(2, -6), Point::new(5, 3));
    assert_eq!(steep, Some((Point::new(4, 0), Point::new(5, 3))));
}

#[test]
fn steep_line_rounds_toward_its_own_end() {
    let r = Rect::new(0, 0, 10, 10);
    let steep = r.intersect_line(Point::new(2, -6), Point::new(6, 18));
    assert_eq!(steep, Some((Point::new(3, 0), Point::new(5, 10))));
}

#[test]
fn diagonal_line_rounds_toward_its_own_end() {
    let r = Rect::new(0, 0, 10, 10);
    let got = r.intersect_line(Point::new(-3, 1), Point::new(12, 8));
    assert_eq!(got, Some((Point::new(0, 2), Point::new(10, 8))));
    let back = r.intersect_line(Point::new(12, 8), Point::new(-3, 1));
    assert_eq!(back, Some((Point::new(10, 8), Point::new(0, 2))));
}

#[test]
fn empty_rect_clips_everything_away() {
    let s = Point::new(-5, 5);
    let e = Point::new(15, 5);
    assert_eq!(Rect::new(0, 0, 0, 10).intersect_line(s, e), None);
    assert_eq!(Rect::new(0, 0, 10, 0).intersect_line(s, e), None);
    assert_eq!(Rect::new(0, 0, -1, 10).intersect_line(s, e), None);
    assert_eq!(Rect::new(0, 5, 0, 0).intersect_line(Point::new(0, 5), Point::new(0, 5)), None);
}

#[test]
fn line_across_the_whole_range() {
    let r = Rect::new(-10, -10, 20, 20);
    let got = r.intersect_line(Point::new(i32::MIN, i32::MIN), Point::new(i32::MAX, i32::MAX));
    assert_eq!(got, Some((Point::new(-10, -10), Point::new(10, 10))));
    let flat = r.intersect_line(Point::new(i32::MIN, 0), Point::new(i32::MAX, 0));
    assert_eq!(flat, Some((Point::new(-10, 0), Point::new(10, 0))));
    let miss = r.intersect_line(Point::new(i32::MIN, i32::MAX), Point::new(i32::MAX, i32::MAX));
    assert_eq!(miss, None);
}

#[test]
fn rect_reaching_past_the_range() {
    let r = Rect::new(i32::MAX - 5, 0, 100, 100);
    let got = r.intersect_line(Point::new(0, 50), Point::new(i32::MAX, 50));
    assert_eq!(got, Some((Point::new(i32::MAX - 5, 50), Point::new(i32::MAX, 50))));
}

#[test]
fn clipped_ends_lie_within_the_rect() {
    let r = Rect::new(-7, 3, 13, 9);
    let ends = [
        Point::new(-20, -20),
        Point::new(20, 20),
        Point::new(-20, 7),
        Point::new(0, 30),
        Point::new(3, 5),
        Point::new(17, -4),
        Point::new(-9, 13),
        Point::new(6, 12),
    ];
    let mut hits = 0;
    for s in ends.iter() {
        for e in ends.iter() {
            match r.intersect_line(*s, *e) {
                Some((p, q)) => {
                    hits += 1;
                    assert!(inside(&r, p));
                    assert!(inside(&r, q));
                    if inside(&r, *s) {
                        assert_eq!(p, *s);
                    }
                    if inside(&r, *e) {
                        assert_eq!(q, *e);
                    }
                    assert_eq!(r.intersect_line(*e, *s), Some((q, p)));
                }
                None => {
                    assert!(!inside(&r, *s));
                    assert!(!inside(&r, *e));
                    assert_eq!(r.intersect_line(*e, *s), None);
                }
            }
        }
    }
    assert!(hits > 10);
}
