use vstd::prelude::*;
use crate::shape::{Circle, Rectangle, ShapeFormat, Triangle};
use crate::vector::Vector;

verus! {

/// The rectangle with the given corners, when both are there.
pub open spec fn rectangle_of(min: Option<Vector>, max: Option<Vector>, format: ShapeFormat)
    -> Option<Rectangle> {
    match (min, max) {
        (Some(min), Some(max)) => Some(Rectangle { min, max, format }),
        _ => None,
    }
}

/// The triangle with the given corners, when all three are there.
pub open spec fn triangle_of(
    a: Option<Vector>,
    b: Option<Vector>,
    c: Option<Vector>,
    format: ShapeFormat,
) -> Option<Triangle> {
    match (a, b, c) {
        (Some(a), Some(b), Some(c)) => Some(Triangle { a, b, c, format }),
        _ => None,
    }
}

/// The circle with the given centre and radius, when both are there.
pub open spec fn circle_of(center: Option<Vector>, radius: Option<Vector>) -> Option<Circle> {
    match (center, radius) {
        (Some(center), Some(radius)) => Some(Circle { center, radius }),
        _ => None,
    }
}

fn rectangle(min: Option<Vector>, max: Option<Vector>, format: ShapeFormat) -> (r: Option<
    Rectangle,
>)
    ensures
        r == rectangle_of(min, max, format),
{
    match (min, max) {
        (Some(min), Some(max)) => Some(Rectangle { min, max, format }),
        _ => None,
    }
}

fn triangle(a: Option<Vector>, b: Option<Vector>, c: Option<Vector>, format: ShapeFormat) -> (r:
    Option<Triangle>)
    ensures
        r == triangle_of(a, b, c, format),
{
    match (a, b, c) {
        (Some(a), Some(b), Some(c)) => Some(Triangle { a, b, c, format }),
        _ => None,
    }
}

fn circle(center: Option<Vector>, radius: Option<Vector>) -> (r: Option<Circle>)
    ensures
        r == circle_of(center, radius),
{
    match (center, radius) {
        (Some(center), Some(radius)) => Some(Circle { center, radius }),
        _ => None,
    }
}

/// Arithmetic on a rectangle acts on its two corners, as arithmetic on
/// vectors does; there is no result when a corner has none.
impl Rectangle {
    /// The sum of the two rectangles, corner by corner.
    pub fn add(self, v: Rectangle) -> (r: Option<Rectangle>)
        ensures
            r == rectangle_of(self.min.spec_add(v.min), self.max.spec_add(v.max), self.format),
    {
        rectangle(self.min.add(v.min), self.max.add(v.max), self.format)
    }

    /// The rectangle moved by `v`.
    pub fn add_vector(self, v: Vector) -> (r: Option<Rectangle>)
        ensures
            r == rectangle_of(self.min.spec_add(v), self.max.spec_add(v), self.format),
    {
        rectangle(self.min.add(v), self.max.add(v), self.format)
    }

    /// The rectangle moved by `k` along both axes.
    pub fn add_scalar(self, k: i32) -> (r: Option<Rectangle>)
        ensures
            r == rectangle_of(
                self.min.spec_add_scalar(k),
                self.max.spec_add_scalar(k),
                self.format,
            ),
    {
        rectangle(self.min.add_scalar(k), self.max.add_scalar(k), self.format)
    }

    /// The difference of the two rectangles, corner by corner.
    pub fn sub(self, v: Rectangle) -> (r: Option<Rectangle>)
        ensures
            r == rectangle_of(self.min.spec_sub(v.min), self.max.spec_sub(v.max), self.format),
    {
        rectangle(self.min.sub(v.min), self.max.sub(v.max), self.format)
    }

    /// The rectangle moved back by `v`.
    pub fn sub_vector(self, v: Vector) -> (r: Option<Rectangle>)
        ensures
            r == rectangle_of(self.min.spec_sub(v), self.max.spec_sub(v), self.format),
    {
        rectangle(self.min.sub(v), self.max.sub(v), self.format)
    }

    /// The rectangle moved back by `k` along both axes.
    pub fn sub_scalar(self, k: i32) -> (r: Option<Rectangle>)
        ensures
            r == rectangle_of(
                self.min.spec_sub_scalar(k),
                self.max.spec_sub_scalar(k),
                self.format,
            ),
    {
        rectangle(self.min.sub_scalar(k), self.max.sub_scalar(k), self.format)
    }

    /// The product of the two rectangles, corner by corner.
    pub fn mul(self, v: Rectangle) -> (r: Option<Rectangle>)
        ensures
            r == rectangle_of(self.min.spec_mul(v.min), self.max.spec_mul(v.max), self.format),
    {
        rectangle(self.min.mul(v.min), self.max.mul(v.max), self.format)
    }

    /// The rectangle scaled by `v`, axis by axis.
    pub fn mul_vector(self, v: Vector) -> (r: Option<Rectangle>)
        ensures
            r == rectangle_of(self.min.spec_mul(v), self.max.spec_mul(v), self.format),
    {
        rectangle(self.min.mul(v), self.max.mul(v), self.format)
    }

    /// The rectangle scaled by `k`.
    pub fn mul_scalar(self, k: i32) -> (r: Option<Rectangle>)
        ensures
            r == rectangle_of(
                self.min.spec_mul_scalar(k),
                self.max.spec_mul_scalar(k),
                self.format,
            ),
    {
        rectangle(self.min.mul_scalar(k), self.max.mul_scalar(k), self.format)
    }

    /// The quotient of the two rectangles, corner by corner.
    pub fn div(self, v: Rectangle) -> (r: Option<Rectangle>)
        ensures
            r == rectangle_of(self.min.spec_div(v.min), self.max.spec_div(v.max), self.format),
    {
        rectangle(self.min.div(v.min), self.max.div(v.max), self.format)
    }

    /// The rectangle shrunk by `v`, axis by axis.
    pub fn div_vector(self, v: Vector) -> (r: Option<Rectangle>)
        ensures
            r == rectangle_of(self.min.spec_div(v), self.max.spec_div(v), self.format),
    {
        rectangle(self.min.div(v), self.max.div(v), self.format)
    }

    /// The rectangle shrunk by `k`.
    pub fn div_scalar(self, k: i32) -> (r: Option<Rectangle>)
        ensures
            r == rectangle_of(
                self.min.spec_div_scalar(k),
                self.max.spec_div_scalar(k),
                self.format,
            ),
    {
        rectangle(self.min.div_scalar(k), self.max.div_scalar(k), self.format)
    }
}

/// Arithmetic on a triangle acts on its three corners; there is no result
/// when a corner has none.
impl Triangle {
    /// The sum of the two triangles, corner by corner.
    pub fn add(self, v: Triangle) -> (r: Option<Triangle>)
        ensures
            r == triangle_of(
                self.a.spec_add(v.a),
                self.b.spec_add(v.b),
                self.c.spec_add(v.c),
                self.format,
            ),
    {
        triangle(self.a.add(v.a), self.b.add(v.b), self.c.add(v.c), self.format)
    }

    /// The triangle moved by `k` along both axes.
    pub fn add_scalar(self, k: i32) -> (r: Option<Triangle>)
        ensures
            r == triangle_of(
                self.a.spec_add_scalar(k),
                self.b.spec_add_scalar(k),
                self.c.spec_add_scalar(k),
                self.format,
            ),
    {
        triangle(
            self.a.add_scalar(k),
            self.b.add_scalar(k),
            self.c.add_scalar(k),
            self.format,
        )
    }

    /// The difference of the two triangles, corner by corner.
    pub fn sub(self, v: Triangle) -> (r: Option<Triangle>)
        ensures
            r == triangle_of(
                self.a.spec_sub(v.a),
                self.b.spec_sub(v.b),
                self.c.spec_sub(v.c),
                self.format,
            ),
    {
        triangle(self.a.sub(v.a), self.b.sub(v.b), self.c.sub(v.c), self.format)
    }

    /// The triangle moved back by `k` along both axes.
    pub fn sub_scalar(self, k: i32) -> (r: Option<Triangle>)
        ensures
            r == triangle_of(
                self.a.spec_sub_scalar(k),
                self.b.spec_sub_scalar(k),
                self.c.spec_sub_scalar(k),
                self.format,
            ),
    {
        triangle(
            self.a.sub_scalar(k),
            self.b.sub_scalar(k),
            self.c.sub_scalar(k),
            self.format,
        )
    }

    /// The product of the two triangles, corner by corner.
    pub fn mul(self, v: Triangle) -> (r: Option<Triangle>)
        ensures
            r == triangle_of(
                self.a.spec_mul(v.a),
                self.b.spec_mul(v.b),
                self.c.spec_mul(v.c),
                self.format,
            ),
    {
        triangle(self.a.mul(v.a), self.b.mul(v.b), self.c.mul(v.c), self.format)
    }

    /// The triangle scaled by `k`.
    pub fn mul_scalar(self, k: i32) -> (r: Option<Triangle>)
        ensures
            r == triangle_of(
                self.a.spec_mul_scalar(k),
                self.b.spec_mul_scalar(k),
                self.c.spec_mul_scalar(k),
                self.format,
            ),
    {
        triangle(
            self.a.mul_scalar(k),
            self.b.mul_scalar(k),
            self.c.mul_scalar(k),
            self.format,
        )
    }

    /// The quotient of the two triangles, corner by corner.
    pub fn div(self, v: Triangle) -> (r: Option<Triangle>)
        ensures
            r == triangle_of(
                self.a.spec_div(v.a),
                self.b.spec_div(v.b),
                self.c.spec_div(v.c),
                self.format,
            ),
    {
        triangle(self.a.div(v.a), self.b.div(v.b), self.c.div(v.c), self.format)
    }

    /// The triangle shrunk by `k`.
    pub fn div_scalar(self, k: i32) -> (r: Option<Triangle>)
        ensures
            r == triangle_of(
                self.a.spec_div_scalar(k),
                self.b.spec_div_scalar(k),
                self.c.spec_div_scalar(k),
                self.format,
            ),
    {
        triangle(
            self.a.div_scalar(k),
            self.b.div_scalar(k),
            self.c.div_scalar(k),
            self.format,
        )
    }
}

/// Arithmetic on a circle moves its centre or changes its radius, and
/// never both; there is no result when the changed part has none.
impl Circle {
    /// The circle round the same centre whose radius is the sum of the two radii.
    pub fn add(self, c: Circle) -> (r: Option<Circle>)
        ensures
            r == circle_of(Some(self.center), self.radius.spec_add(c.radius)),
    {
        circle(Some(self.center), self.radius.add(c.radius))
    }

    /// The circle moved by `v`.
    pub fn add_vector(self, v: Vector) -> (r: Option<Circle>)
        ensures
            r == circle_of(self.center.spec_add(v), Some(self.radius)),
    {
        circle(self.center.add(v), Some(self.radius))
    }

    /// The circle moved by `k` along both axes.
    pub fn add_scalar(self, k: i32) -> (r: Option<Circle>)
        ensures
            r == circle_of(self.center.spec_add_scalar(k), Some(self.radius)),
    {
        circle(self.center.add_scalar(k), Some(self.radius))
    }

    /// The circle round the same centre whose radius is the difference of
    /// the two radii.
    pub fn sub(self, c: Circle) -> (r: Option<Circle>)
        ensures
            r == circle_of(Some(self.center), self.radius.spec_sub(c.radius)),
    {
        circle(Some(self.center), self.radius.sub(c.radius))
    }

    /// The circle moved back by `v`.
    pub fn sub_vector(self, v: Vector) -> (r: Option<Circle>)
        ensures
            r == circle_of(self.center.spec_sub(v), Some(self.radius)),
    {
        circle(self.center.sub(v), Some(self.radius))
    }

    /// The circle moved back by `k` along both axes.
    pub fn sub_scalar(self, k: i32) -> (r: Option<Circle>)
        ensures
            r == circle_of(self.center.spec_sub_scalar(k), Some(self.radius)),
    {
        circle(self.center.sub_scalar(k), Some(self.radius))
    }

    /// The circle round the same centre with its radius scaled by `v`, axis
    /// by axis.
    pub fn mul_vector(self, v: Vector) -> (r: Option<Circle>)
        ensures
            r == circle_of(Some(self.center), self.radius.spec_mul(v)),
    {
        circle(Some(self.center), self.radius.mul(v))
    }

    /// The circle round the same centre with its radius scaled by `k`.
    pub fn mul_scalar(self, k: i32) -> (r: Option<Circle>)
        ensures
            r == circle_of(Some(self.center), self.radius.spec_mul_scalar(k)),
    {
        circle(Some(self.center), self.radius.mul_scalar(k))
    }

    /// The circle round the same centre with its radius shrunk by `v`, axis
    /// by axis.
    pub fn div_vector(self, v: Vector) -> (r: Option<Circle>)
        ensures
            r == circle_of(Some(self.center), self.radius.spec_div(v)),
    {
        circle(Some(self.center), self.radius.div(v))
    }

    /// The circle round the same centre with its radius shrunk by `k`.
    pub fn div_scalar(self, k: i32) -> (r: Option<Circle>)
        ensures
            r == circle_of(Some(self.center), self.radius.spec_div_scalar(k)),
    {
        circle(Some(self.center), self.radius.div_scalar(k))
    }
}

} // verus!
