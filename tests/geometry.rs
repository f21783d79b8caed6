use rust_basics::fallback::contents_or_fallback;
use rust_basics::geometry::{calc_area, Rect, Shape};

#[test]
fn rect_record_area_and_perimeter() {
    let phone = Rect { len: 20, breadth: 40 };
    assert_eq!(phone.area(), 800);
    assert_eq!(phone.peri(), 120);
}

#[test]
fn rect_record_zero_side() {
    let r = Rect { len: 0, breadth: 9 };
    assert_eq!(r.area(), 0);
    assert_eq!(r.peri(), 18);
}

#[test]
fn rect_record_largest_fitting_values() {
    let r = Rect { len: 65_535, breadth: 65_537 };
    assert_eq!(r.area(), u32::MAX);
    let p = Rect { len: u32::MAX / 2, breadth: 0 };
    assert_eq!(p.peri(), u32::MAX - 1);
}

#[test]
fn shape_rect_area_is_eight() {
    // 2.00 by 4.00 gives 8.000000 square units.
    assert_eq!(calc_area(Shape::Rect(200, 400)), 8_000_000);
}

#[test]
fn shape_circle_area_uses_three_fourteen() {
    // 3.14 * 7.00 * 7.00 = 153.860000
    assert_eq!(calc_area(Shape::Circle(700)), 153_860_000);
    assert_eq!(calc_area(Shape::Circle(100)), 3_140_000);
}

#[test]
fn shape_degenerate_and_negative_dimensions() {
    assert_eq!(calc_area(Shape::Rect(0, 500)), 0);
    assert_eq!(calc_area(Shape::Rect(-200, 400)), -8_000_000);
    assert_eq!(calc_area(Shape::Circle(-700)), 153_860_000);
    assert_eq!(calc_area(Shape::Circle(0)), 0);
}

#[test]
fn shape_extreme_dimensions() {
    let m = i32::MIN as i128;
    assert_eq!(calc_area(Shape::Circle(i32::MIN)), 314 * m * m);
    assert_eq!(calc_area(Shape::Rect(i32::MIN, i32::MAX)), 100 * m * (i32::MAX as i128));
}

#[test]
fn repeated_calls_agree() {
    let r = Rect { len: 3, breadth: 7 };
    assert_eq!(r.area(), r.area());
    assert_eq!(r.peri(), r.peri());
    assert_eq!(calc_area(Shape::Circle(250)), calc_area(Shape::Circle(250)));
    assert_eq!(calc_area(Shape::Rect(150, 30)), calc_area(Shape::Rect(150, 30)));
}

#[test]
fn fallback_when_read_failed() {
    assert_eq!(contents_or_fallback(None), "File not present!");
    assert_eq!(contents_or_fallback(Some(String::from("data\n"))), "data\n");
    assert_eq!(contents_or_fallback(Some(String::new())), "");
}
