use virt_core::color::Color;
use virt_core::error::CoreError;
use virt_core::shape::{Circle, Rectangle, Shape, ShapeFormat, Triangle};
use virt_core::vector::Vector;

fn at(x: i32, y: i32) -> Vector {
    Vector::new(x, y)
}

#[test]
fn vector_new_is_transparent_black() {
    let v = Vector::new(3, -4);
    assert_eq!((v.x(), v.y()), (3, -4));
    assert_eq!(v.color, Color::new(0, 0, 0, 0));
}

#[test]
fn vector_color_keeps_the_position() {
    let v = at(3, 4).color(Color::new(1, 2, 3, 4));
    assert_eq!((v.x, v.y, v.color), (3, 4, Color::new(1, 2, 3, 4)));
}

#[test]
fn vector_arithmetic_acts_on_the_position_only() {
    let red = Color::new(255, 0, 0, 255);
    let a = at(6, -8).color(red);
    let b = at(2, 3).color(Color::new(0, 255, 0, 255));
    assert_eq!(a.add(b), Some(at(8, -5).color(red)));
    assert_eq!(a.sub(b), Some(at(4, -11).color(red)));
    assert_eq!(a.mul(b), Some(at(12, -24).color(red)));
    assert_eq!(a.div(b), Some(at(3, -2).color(red)));
    assert_eq!(a.add_scalar(1), Some(at(7, -7).color(red)));
    assert_eq!(a.sub_scalar(1), Some(at(5, -9).color(red)));
    assert_eq!(a.mul_scalar(-2), Some(at(-12, 16).color(red)));
    assert_eq!(a.div_scalar(4), Some(at(1, -2).color(red)));
}

#[test]
fn vector_division_rounds_toward_zero() {
    assert_eq!(at(7, -7).div_scalar(2), Some(at(3, -3)));
    assert_eq!(at(7, -7).div_scalar(-2), Some(at(-3, 3)));
    assert_eq!(at(-1, 1).div(at(3, 3)), Some(at(0, 0)));
}

#[test]
fn vector_division_by_zero_has_no_result() {
    assert_eq!(at(1, 1).div_scalar(0), None);
    assert_eq!(at(1, 1).div(at(1, 0)), None);
    assert_eq!(at(1, 1).div(at(0, 1)), None);
}

#[test]
fn vector_arithmetic_out_of_range_has_no_result() {
    assert_eq!(at(i32::MAX, 0).add(at(1, 0)), None);
    assert_eq!(at(0, i32::MIN).sub(at(0, 1)), None);
    assert_eq!(at(65536, 1).mul(at(65536, 1)), None);
    assert_eq!(at(i32::MIN, 1).div_scalar(-1), None);
    assert_eq!(at(i32::MAX, 0).add(at(0, 0)), Some(at(i32::MAX, 0)));
}

#[test]
fn dot_and_cross_are_exact() {
    assert_eq!(at(1, 2).dot(at(3, 4)), 11);
    assert_eq!(at(1, 2).cross(at(3, 4)), -2);
    let far = at(i32::MIN, i32::MIN);
    assert_eq!(far.dot(far), 1i128 << 63);
}

#[test]
fn project_gives_the_numerators_of_device_coordinates() {
    // x' = (x + 0.5) / (width / 2) - 1 = (2x + 1 - width) / width
    // y' = 1 - (y + 0.5) / (height / 2) = (height - 2y - 1) / height
    assert_eq!(at(0, 0).project(100, 50), Some(at(-99, 49)));
    assert_eq!(at(99, 49).project(100, 50), Some(at(99, -49)));
    assert_eq!(at(25, 10).project(100, 50), Some(at(-49, 29)));
}

#[test]
fn project_matches_the_float_formula() {
    let (w, h) = (200u32, 80u32);
    for &(x, y) in [(0, 0), (17, 3), (199, 79), (100, 40)].iter() {
        let p = at(x, y).project(w, h).unwrap();
        let fx = (x as f32 + 0.5) / (w as f32 / 2.0) - 1.0;
        let fy = 1.0 - (y as f32 + 0.5) / (h as f32 / 2.0);
        assert!((p.x as f32 / w as f32 - fx).abs() < 1e-6);
        assert!((p.y as f32 / h as f32 - fy).abs() < 1e-6);
    }
}

#[test]
fn project_out_of_range_has_no_result() {
    assert_eq!(at(i32::MAX, 0).project(1, 1), None);
    assert_eq!(at(0, 0).project(u32::MAX, 1), None);
}

#[test]
fn unproject_undoes_project() {
    let red = Color::new(255, 0, 0, 255);
    for x in -3..104 {
        for y in -3..54 {
            let v = at(x, y).color(red);
            let p = v.project(100, 50).unwrap();
            assert_eq!(p.unproject(100, 50), Some(v));
        }
    }
}

#[test]
fn unproject_of_a_point_off_the_lattice_has_no_result() {
    // with an even width the numerators of images are odd
    assert_eq!(at(0, 49).unproject(100, 50), None);
    assert_eq!(at(-99, 0).unproject(100, 50), None);
    assert_eq!(at(-99, 49).unproject(100, 50), Some(at(0, 0)));
}

#[test]
fn images_of_points_in_the_viewport_lie_inside_device_space() {
    for x in 0..100 {
        let p = at(x, 0).project(100, 50).unwrap();
        assert!(-100 < p.x && p.x < 100);
    }
    assert_eq!(at(100, 0).project(100, 50).unwrap().x, 101);
    assert_eq!(at(-1, 0).project(100, 50).unwrap().x, -101);
}

#[test]
fn rectangle_of_ten_by_twenty() {
    let r = Rectangle::new(at(0, 0), at(10, 20));
    assert_eq!(r.format, ShapeFormat::Fill);
    assert!(r.is_valid());
    assert_eq!(r.width(), 10);
    assert_eq!(r.height(), 20);
    assert_eq!(r.area(), 200);
    let c = r.center();
    assert_eq!((c.x, c.y), (5, 10));
    assert!(r.contains(at(5, 10)));
    assert!(!r.contains(at(11, 10)));
}

#[test]
fn rectangle_contains_its_border() {
    let r = Rectangle::new(at(0, 0), at(10, 20));
    assert!(r.contains(at(0, 0)));
    assert!(r.contains(at(10, 20)));
    assert!(r.contains(at(10, 0)));
    assert!(!r.contains(at(-1, 0)));
    assert!(!r.contains(at(0, 21)));
}

#[test]
fn rectangle_center_rounds_toward_min() {
    let c = Rectangle::new(at(0, 0), at(5, 7)).center();
    assert_eq!((c.x, c.y), (2, 3));
    let far = Rectangle::new(at(i32::MIN, i32::MIN), at(i32::MAX, i32::MAX)).center();
    assert_eq!((far.x, far.y), (-1, -1));
}

#[test]
fn rectangle_with_corners_out_of_order_is_not_corrected() {
    let r = Rectangle::new(at(10, 0), at(0, 20));
    assert!(!r.is_valid());
    assert_eq!(r.width(), -10);
    assert_eq!(r.area(), -200);
    assert!(!r.contains(at(5, 10)));
}

#[test]
fn rectangle_area_of_the_whole_range() {
    let r = Rectangle::new(at(i32::MIN, i32::MIN), at(i32::MAX, i32::MAX));
    assert_eq!(r.area(), (u32::MAX as i128) * (u32::MAX as i128));
}

#[test]
fn rectangle_emits_two_triangles_split_along_the_diagonal() {
    let blue = Color::new(0, 0, 255, 255);
    let r = Rectangle::new(at(1, 2), at(3, 4)).with_color(blue);
    let v = r.to_fill_vec();
    assert_eq!(
        v,
        vec![
            at(1, 2).color(blue),
            at(1, 4).color(blue),
            at(3, 4).color(blue),
            at(1, 2).color(blue),
            at(3, 2).color(blue),
            at(3, 4).color(blue),
        ]
    );
    assert_eq!(Shape::Rectangle(r).to_vertex_list(), Ok(v));
}

#[test]
fn rectangle_outline_is_a_closed_path() {
    let r = Rectangle::new(at(1, 2), at(3, 4));
    assert_eq!(r.to_line_vec(), vec![at(1, 2), at(3, 2), at(3, 4), at(1, 4), at(1, 2)]);
}

#[test]
fn triangle_contains_by_area() {
    let t = Triangle::new(at(0, 0), at(10, 0), at(0, 10));
    assert!(t.contains(at(2, 2)));
    assert!(!t.contains(at(9, 9)));
    assert!(!t.contains(at(20, 20)));
}

#[test]
fn triangle_contains_its_border() {
    let t = Triangle::new(at(0, 0), at(10, 0), at(0, 10));
    assert!(t.contains(at(0, 0)));
    assert!(t.contains(at(10, 0)));
    assert!(t.contains(at(0, 10)));
    assert!(t.contains(at(5, 5)));
    assert!(!t.contains(at(6, 5)));
    assert!(!t.contains(at(-1, 0)));
}

#[test]
fn triangle_area_and_center() {
    let t = Triangle::new(at(0, 0), at(10, 0), at(0, 10));
    assert_eq!(t.doubled_area(), 100);
    assert_eq!(t.area(), 50);
    let c = t.center();
    assert_eq!((c.x, c.y), (3, 3));
    let back = Triangle::new(at(0, 10), at(10, 0), at(0, 0));
    assert_eq!(back.area(), 50);
}

#[test]
fn triangle_area_rounds_down() {
    let t = Triangle::new(at(0, 0), at(1, 0), at(0, 1));
    assert_eq!(t.doubled_area(), 1);
    assert_eq!(t.area(), 0);
}

#[test]
fn triangle_center_rounds_toward_zero() {
    let c = Triangle::new(at(-1, 1), at(0, 0), at(-1, 1)).center();
    assert_eq!((c.x, c.y), (0, 0));
}

#[test]
fn triangle_over_the_whole_range() {
    let t = Triangle::new(at(i32::MIN, i32::MIN), at(i32::MAX, i32::MIN), at(i32::MIN, i32::MAX));
    assert_eq!(t.doubled_area(), (u32::MAX as i128) * (u32::MAX as i128));
    assert!(t.contains(at(0, -1)));
    assert!(!t.contains(at(i32::MAX, i32::MAX)));
}

#[test]
fn triangle_emits_its_corners() {
    let t = Triangle::from([at(0, 0), at(10, 0), at(0, 10)]);
    assert_eq!(t.to_fill_vec(), vec![at(0, 0), at(10, 0), at(0, 10)]);
    assert_eq!(t.to_line_vec(), vec![at(0, 0), at(10, 0), at(0, 10), at(0, 0)]);
    assert_eq!(Shape::Triangle(t).to_vertex_list(), Ok(vec![at(0, 0), at(10, 0), at(0, 10)]));
}

#[test]
fn circle_cannot_be_drawn() {
    let c = Circle::new(at(5, 5), at(2, 2));
    assert_eq!(Shape::Circle(c).to_vertex_list(), Err(CoreError::Unimplemented));
    assert_eq!(c.area(), 0);
    assert!(!c.contains(at(5, 5)));
    assert_eq!(c.center(), at(5, 5));
}

#[test]
fn with_color_twice_is_with_color_once() {
    let c = Color::new(200, 100, 50, 128);
    let shapes = [
        Shape::Rectangle(Rectangle::new(at(0, 0), at(10, 20))),
        Shape::Triangle(Triangle::new(at(0, 0), at(10, 0), at(0, 10))),
        Shape::Circle(Circle::new(at(1, 1), at(2, 2))),
    ];
    for s in shapes.iter() {
        let once = s.with_color(c);
        let twice = once.with_color(c);
        assert_eq!(once, twice);
        if let (Ok(a), Ok(b)) = (once.to_vertex_list(), twice.to_vertex_list()) {
            for (x, y) in a.iter().zip(b.iter()) {
                assert_eq!(x.color.premultiplied(), y.color.premultiplied());
                assert_eq!(x.color.premultiplied(), c.premultiplied());
            }
        }
    }
}

#[test]
fn with_color_does_not_change_the_receiver() {
    let r = Rectangle::new(at(0, 0), at(10, 20));
    let _ = r.with_color(Color::new(1, 2, 3, 4));
    assert_eq!(r.min.color, Color::default());
}

#[test]
fn shape_project_takes_every_vertex_to_device_space() {
    let r = Shape::Rectangle(Rectangle::new(at(0, 0), at(99, 49)));
    assert_eq!(
        r.project(100, 50),
        Some(Shape::Rectangle(Rectangle::new(at(-99, 49), at(99, -49))))
    );
    let t = Shape::Triangle(Triangle::new(at(0, 0), at(99, 0), at(0, 49)));
    assert_eq!(
        t.project(100, 50),
        Some(Shape::Triangle(Triangle::new(at(-99, 49), at(99, 49), at(-99, -49))))
    );
    let out = Shape::Rectangle(Rectangle::new(at(0, 0), at(i32::MAX, 0)));
    assert_eq!(out.project(1, 1), None);
}

#[test]
fn shape_dispatches_to_its_variant() {
    let r = Shape::Rectangle(Rectangle::new(at(0, 0), at(10, 20)));
    assert_eq!(r.area(), 200);
    assert_eq!(r.center(), at(5, 10));
    assert!(r.contains(at(5, 10)));
    let t = Shape::Triangle(Triangle::new(at(0, 0), at(10, 0), at(0, 10)));
    assert_eq!(t.area(), 50);
    assert!(t.contains(at(2, 2)));
}

#[test]
fn hypot_is_the_length_rounded_down() {
    assert_eq!(at(3, 4).hypot(), 5);
    assert_eq!(at(-3, -4).hypot(), 5);
    assert_eq!(at(1, 1).hypot(), 1);
    assert_eq!(at(0, 0).hypot(), 0);
    assert_eq!(at(2, 2).hypot(), 2);
    assert_eq!(at(10, 0).hypot(), 10);
    assert_eq!(at(i32::MIN, 0).hypot(), 1 << 31);
    assert_eq!(at(i32::MIN, i32::MIN).hypot(), 3037000499);
}

#[test]
fn hypot_matches_the_float_length() {
    for &(x, y) in [(3, 4), (100, 1), (-7, 24), (1000, 1000)].iter() {
        let exact = ((x as f64) * (x as f64) + (y as f64) * (y as f64)).sqrt();
        assert_eq!(at(x, y).hypot(), exact.floor() as u64);
    }
}

#[test]
fn floor_of_a_whole_point_is_the_point() {
    assert_eq!(at(-3, 4).floor(), at(-3, 4));
}

#[test]
fn lerp_blends_the_two_positions() {
    // a * (1 - t) + b * t
    let red = Color::new(255, 0, 0, 255);
    let a = at(0, 10).color(red);
    let b = at(100, -10);
    assert_eq!(a.lerp(b, 1, 4), Some(at(25, 5).color(red)));
    assert_eq!(a.lerp(b, 1, 2), Some(at(50, 0).color(red)));
    assert_eq!(a.lerp(b, 0, 7), Some(a));
    assert_eq!(a.lerp(b, 7, 7), Some(b.color(red)));
    assert_eq!(a.lerp(b, 2, 1), Some(at(200, -30).color(red)));
    assert_eq!(a.lerp(b, -1, 1), Some(at(-100, 30).color(red)));
}

#[test]
fn lerp_rounds_toward_zero() {
    assert_eq!(at(0, 0).lerp(at(10, -10), 1, 3), Some(at(3, -3)));
    assert_eq!(at(0, 0).lerp(at(1, -1), 1, 2), Some(at(0, 0)));
}

#[test]
fn lerp_matches_the_float_formula() {
    let (a, b) = (at(8, 40), at(72, -24));
    for num in 0..=8 {
        let t = num as f32 / 8.0;
        let got = a.lerp(b, num, 8).unwrap();
        assert_eq!(got.x as f32, a.x as f32 * (1.0 - t) + b.x as f32 * t);
        assert_eq!(got.y as f32, a.y as f32 * (1.0 - t) + b.y as f32 * t);
    }
}

#[test]
fn lerp_without_a_result() {
    assert_eq!(at(0, 0).lerp(at(1, 1), 1, 0), None);
    assert_eq!(at(i32::MAX, 0).lerp(at(0, 0), -1, 1), None);
    assert_eq!(at(i32::MIN, i32::MIN).lerp(at(i32::MAX, i32::MAX), i32::MIN, i32::MAX), None);
}
