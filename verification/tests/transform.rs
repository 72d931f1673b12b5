use virt_core::color::Color;
use virt_core::error::{CoreError, HexError};
use virt_core::shape::{Circle, Rectangle, Triangle};
use virt_core::vector::Vector;

fn v(x: i32, y: i32) -> Vector {
    Vector::new(x, y)
}

#[test]
fn vector_from_a_pair() {
    assert_eq!(Vector::from([3, -4]), Vector::new(3, -4));
}

#[test]
fn core_error_from_a_hex_error() {
    assert_eq!(
        CoreError::from(HexError::OddLength),
        CoreError::FromHexError(HexError::OddLength)
    );
}

#[test]
fn rectangle_arithmetic_acts_on_both_corners() {
    let blue = Color::new(0, 0, 255, 255);
    let r = Rectangle::new(v(2, 4), v(10, 20)).with_color(blue);
    let s = Rectangle::new(v(1, 2), v(5, 4));
    assert_eq!(r.add(s), Some(Rectangle::new(v(3, 6), v(15, 24)).with_color(blue)));
    assert_eq!(r.sub(s), Some(Rectangle::new(v(1, 2), v(5, 16)).with_color(blue)));
    assert_eq!(r.mul(s), Some(Rectangle::new(v(2, 8), v(50, 80)).with_color(blue)));
    assert_eq!(r.div(s), Some(Rectangle::new(v(2, 2), v(2, 5)).with_color(blue)));
    assert_eq!(r.add_vector(v(1, -1)), Some(Rectangle::new(v(3, 3), v(11, 19)).with_color(blue)));
    assert_eq!(r.sub_vector(v(1, -1)), Some(Rectangle::new(v(1, 5), v(9, 21)).with_color(blue)));
    assert_eq!(r.mul_vector(v(2, 3)), Some(Rectangle::new(v(4, 12), v(20, 60)).with_color(blue)));
    assert_eq!(r.div_vector(v(2, 4)), Some(Rectangle::new(v(1, 1), v(5, 5)).with_color(blue)));
    assert_eq!(r.add_scalar(1), Some(Rectangle::new(v(3, 5), v(11, 21)).with_color(blue)));
    assert_eq!(r.sub_scalar(1), Some(Rectangle::new(v(1, 3), v(9, 19)).with_color(blue)));
    assert_eq!(r.mul_scalar(2), Some(Rectangle::new(v(4, 8), v(20, 40)).with_color(blue)));
    assert_eq!(r.div_scalar(2), Some(Rectangle::new(v(1, 2), v(5, 10)).with_color(blue)));
}

#[test]
fn rectangle_arithmetic_without_a_result() {
    let r = Rectangle::new(v(0, 0), v(i32::MAX, 1));
    assert_eq!(r.add_scalar(1), None);
    assert_eq!(r.div_scalar(0), None);
    assert_eq!(r.div_vector(v(1, 0)), None);
    assert_eq!(r.mul_scalar(2), None);
}

#[test]
fn triangle_arithmetic_acts_on_all_corners() {
    let t = Triangle::new(v(0, 0), v(10, 0), v(0, 10));
    let u = Triangle::new(v(1, 1), v(2, 2), v(5, 5));
    assert_eq!(t.add(u), Some(Triangle::new(v(1, 1), v(12, 2), v(5, 15))));
    assert_eq!(t.sub(u), Some(Triangle::new(v(-1, -1), v(8, -2), v(-5, 5))));
    assert_eq!(t.mul(u), Some(Triangle::new(v(0, 0), v(20, 0), v(0, 50))));
    assert_eq!(t.div(u), Some(Triangle::new(v(0, 0), v(5, 0), v(0, 2))));
    assert_eq!(t.add_scalar(3), Some(Triangle::new(v(3, 3), v(13, 3), v(3, 13))));
    assert_eq!(t.sub_scalar(3), Some(Triangle::new(v(-3, -3), v(7, -3), v(-3, 7))));
    assert_eq!(t.mul_scalar(3), Some(Triangle::new(v(0, 0), v(30, 0), v(0, 30))));
    assert_eq!(t.div_scalar(3), Some(Triangle::new(v(0, 0), v(3, 0), v(0, 3))));
    assert_eq!(t.div(t), None);
    assert_eq!(t.div_scalar(0), None);
}

#[test]
fn circle_arithmetic_moves_the_centre_or_changes_the_radius() {
    let c = Circle::new(v(10, 10), v(4, 6));
    let d = Circle::new(v(99, 99), v(1, 2));
    assert_eq!(c.add(d), Some(Circle::new(v(10, 10), v(5, 8))));
    assert_eq!(c.sub(d), Some(Circle::new(v(10, 10), v(3, 4))));
    assert_eq!(c.add_vector(v(1, 2)), Some(Circle::new(v(11, 12), v(4, 6))));
    assert_eq!(c.sub_vector(v(1, 2)), Some(Circle::new(v(9, 8), v(4, 6))));
    assert_eq!(c.add_scalar(5), Some(Circle::new(v(15, 15), v(4, 6))));
    assert_eq!(c.sub_scalar(5), Some(Circle::new(v(5, 5), v(4, 6))));
    assert_eq!(c.mul_vector(v(2, 3)), Some(Circle::new(v(10, 10), v(8, 18))));
    assert_eq!(c.mul_scalar(2), Some(Circle::new(v(10, 10), v(8, 12))));
    assert_eq!(c.div_vector(v(2, 3)), Some(Circle::new(v(10, 10), v(2, 2))));
    assert_eq!(c.div_scalar(2), Some(Circle::new(v(10, 10), v(2, 3))));
    assert_eq!(c.div_scalar(0), None);
    assert_eq!(c.with_color(Color::new(1, 2, 3, 4)).radius.color, Color::default());
}
