use vstd::prelude::*;
use crate::arith::{divide, magnitude, product, quotient};
use crate::color::Color;
use crate::error::CoreError;
use crate::vector::{projected, Vector};

verus! {

/// How a shape is meant to be drawn.
#[derive(Debug, Clone, Copy, PartialEq, Eq, Structural)]
pub enum ShapeFormat {
    Fill,
    Line,
}

/// An axis-aligned rectangle given by two opposite corners.
#[derive(Debug, Clone, Copy, PartialEq, Eq, Structural)]
pub struct Rectangle {
    pub min: Vector,
    pub max: Vector,
    pub format: ShapeFormat,
}

/// A triangle given by its three corners.
#[derive(Debug, Clone, Copy, PartialEq, Eq, Structural)]
pub struct Triangle {
    pub a: Vector,
    pub b: Vector,
    pub c: Vector,
    pub format: ShapeFormat,
}

/// A circle. It is part of the scene model but cannot be drawn.
#[derive(Debug, Clone, Copy, PartialEq, Eq, Structural)]
pub struct Circle {
    pub center: Vector,
    pub radius: Vector,
}

/// Any of the shapes that a widget can hold.
#[derive(Debug, Clone, Copy, PartialEq, Eq, Structural)]
pub enum Shape {
    Triangle(Triangle),
    Rectangle(Rectangle),
    Circle(Circle),
}

/// Twice the signed area of the triangle `a`, `b`, `c`, by the shoelace formula.
pub open spec fn shoelace(a: Vector, b: Vector, c: Vector) -> int {
    a.x * (b.y - c.y) + b.x * (c.y - a.y) + c.x * (a.y - b.y)
}

fn twice_area(a: Vector, b: Vector, c: Vector) -> (s: i128)
    ensures
        s == magnitude(shoelace(a, b, c)),
        0 <= s <= 0x3_0000_0000_0000_0000,
{
    let t = product(a.x as i64, b.y as i64 - c.y as i64) + product(
        b.x as i64,
        c.y as i64 - a.y as i64,
    ) + product(c.x as i64, a.y as i64 - b.y as i64);
    if t >= 0 {
        t
    } else {
        -t
    }
}

impl Rectangle {
    /// The rectangle with the corners `min` and `max`, to be filled.
    pub fn new(min: Vector, max: Vector) -> (r: Rectangle)
        ensures
            r == (Rectangle { min, max, format: ShapeFormat::Fill }),
    {
        Rectangle { min, max, format: ShapeFormat::Fill }
    }

    /// Whether `max` lies at or beyond `min` on both axes. Nothing corrects
    /// a rectangle of which this does not hold: its width, height and area
    /// are then negative or of mixed sign, and it contains no point.
    pub open spec fn wf(self) -> bool {
        self.max.x >= self.min.x && self.max.y >= self.min.y
    }

    /// The extent along the horizontal axis.
    pub open spec fn spec_width(self) -> int {
        self.max.x - self.min.x
    }

    /// The extent along the vertical axis.
    pub open spec fn spec_height(self) -> int {
        self.max.y - self.min.y
    }

    /// Width times height.
    pub open spec fn spec_area(self) -> int {
        self.spec_width() * self.spec_height()
    }

    /// The middle of the rectangle, each coordinate rounded toward `min`,
    /// with the colour of `max`.
    pub open spec fn spec_center(self) -> Vector {
        Vector {
            x: (self.min.x + quotient(self.spec_width(), 2)) as i32,
            y: (self.min.y + quotient(self.spec_height(), 2)) as i32,
            color: self.max.color,
        }
    }

    /// Whether `p` lies in the rectangle, the border included.
    pub open spec fn spec_contains(self, p: Vector) -> bool {
        &&& self.min.x <= p.x <= self.max.x
        &&& self.min.y <= p.y <= self.max.y
    }

    pub open spec fn spec_with_color(self, color: Color) -> Rectangle {
        Rectangle {
            min: Vector { color, ..self.min },
            max: Vector { color, ..self.max },
            format: self.format,
        }
    }

    pub open spec fn spec_project(self, width: u32, height: u32) -> Option<Rectangle> {
        match (projected(self.min, width, height), projected(self.max, width, height)) {
            (Some(min), Some(max)) => Some(Rectangle { min, max, format: self.format }),
            _ => None,
        }
    }

    /// The two triangles that cover the rectangle, split along the diagonal
    /// from `min` to `max`. The two corners that are not stored take the
    /// colour of `max`.
    pub open spec fn spec_fill(self) -> Seq<Vector> {
        seq![
            self.min,
            Vector { x: self.min.x, y: self.max.y, color: self.max.color },
            self.max,
            self.min,
            Vector { x: self.max.x, y: self.min.y, color: self.max.color },
            self.max,
        ]
    }

    /// The outline of the rectangle as a closed path.
    pub open spec fn spec_line(self) -> Seq<Vector> {
        seq![
            self.min,
            Vector { x: self.max.x, y: self.min.y, color: self.max.color },
            self.max,
            Vector { x: self.min.x, y: self.max.y, color: self.max.color },
            self.min,
        ]
    }

    /// Whether the corners are in order; see `wf`.
    pub fn is_valid(&self) -> (ok: bool)
        ensures
            ok == self.wf(),
    {
        self.max.x >= self.min.x && self.max.y >= self.min.y
    }

    /// The extent along the horizontal axis.
    pub fn width(&self) -> (w: i64)
        ensures
            w == self.spec_width(),
    {
        self.max.x as i64 - self.min.x as i64
    }

    /// The extent along the vertical axis.
    pub fn height(&self) -> (h: i64)
        ensures
            h == self.spec_height(),
    {
        self.max.y as i64 - self.min.y as i64
    }

    /// Width times height.
    pub fn area(&self) -> (a: i128)
        ensures
            a == self.spec_area(),
            self.wf() ==> a >= 0,
    {
        let a = product(self.width(), self.height());
        proof {
            if self.wf() {
                assert(self.spec_width() * self.spec_height() >= 0) by (nonlinear_arith)
                    requires
                        self.spec_width() >= 0,
                        self.spec_height() >= 0,
                ;
            }
        }
        a
    }

    /// The middle of the rectangle; see `spec_center`.
    pub fn center(&self) -> (c: Vector)
        ensures
            c == self.spec_center(),
            self.wf() ==> self.spec_contains(c),
    {
        let x = self.min.x as i64 + divide(self.width(), 2);
        let y = self.min.y as i64 + divide(self.height(), 2);
        Vector { x: x as i32, y: y as i32, color: self.max.color }
    }

    /// Whether `p` lies in the rectangle, the border included.
    pub fn contains(&self, p: Vector) -> (inside: bool)
        ensures
            inside == self.spec_contains(p),
    {
        !(p.x < self.min.x || p.x > self.max.x || p.y < self.min.y || p.y > self.max.y)
    }

    /// The same rectangle with `color` at both corners.
    pub fn with_color(&self, color: Color) -> (r: Rectangle)
        ensures
            r == self.spec_with_color(color),
    {
        Rectangle { min: self.min.color(color), max: self.max.color(color), format: self.format }
    }

    /// The rectangle between the images of the two corners in device space.
    /// There is none when a corner has no image.
    pub fn project(&self, width: u32, height: u32) -> (r: Option<Rectangle>)
        ensures
            r == self.spec_project(width, height),
    {
        match (self.min.project(width, height), self.max.project(width, height)) {
            (Some(min), Some(max)) => Some(Rectangle { min, max, format: self.format }),
            _ => None,
        }
    }

    /// The vertices to draw the filled rectangle as a list of triangles.
    pub fn to_fill_vec(&self) -> (v: Vec<Vector>)
        ensures
            v@ == self.spec_fill(),
    {
        let v = vec![
            self.min,
            Vector::new(self.min.x, self.max.y).color(self.max.color),
            self.max,
            self.min,
            Vector::new(self.max.x, self.min.y).color(self.max.color),
            self.max,
        ];
        assert(v@ =~= self.spec_fill());
        v
    }

    /// The vertices to draw the outline as a strip of lines.
    pub fn to_line_vec(&self) -> (v: Vec<Vector>)
        ensures
            v@ == self.spec_line(),
    {
        let v = vec![
            self.min,
            Vector::new(self.max.x, self.min.y).color(self.max.color),
            self.max,
            Vector::new(self.min.x, self.max.y).color(self.max.color),
            self.min,
        ];
        assert(v@ =~= self.spec_line());
        v
    }
}

impl Triangle {
    /// The triangle with the corners `a`, `b` and `c`, to be filled.
    pub fn new(a: Vector, b: Vector, c: Vector) -> (t: Triangle)
        ensures
            t == (Triangle { a, b, c, format: ShapeFormat::Fill }),
    {
        Triangle { a, b, c, format: ShapeFormat::Fill }
    }

    /// The triangle with the corners `data[0]`, `data[1]` and `data[2]`.
    pub fn from(data: [Vector; 3]) -> (t: Triangle)
        ensures
            t == (Triangle { a: data[0], b: data[1], c: data[2], format: ShapeFormat::Fill }),
    {
        Triangle { a: data[0], b: data[1], c: data[2], format: ShapeFormat::Fill }
    }

    /// Twice the area: the absolute value of the shoelace sum.
    pub open spec fn spec_doubled_area(self) -> int {
        magnitude(shoelace(self.a, self.b, self.c))
    }

    /// The area, rounded down to a whole number.
    pub open spec fn spec_area(self) -> int {
        self.spec_doubled_area() / 2
    }

    /// The mean of the three corners, each coordinate rounded toward zero,
    /// with the colour of `a`.
    pub open spec fn spec_center(self) -> Vector {
        Vector {
            x: quotient(self.a.x + self.b.x + self.c.x, 3) as i32,
            y: quotient(self.a.y + self.b.y + self.c.y, 3) as i32,
            color: self.a.color,
        }
    }

    /// `p` is in the triangle when the three triangles that it spans with
    /// the sides have together the area of the whole. The areas are compared
    /// doubled, so nothing is rounded.
    pub open spec fn spec_contains(self, p: Vector) -> bool {
        self.spec_doubled_area() == magnitude(shoelace(p, self.b, self.c)) + magnitude(
            shoelace(self.a, p, self.c),
        ) + magnitude(shoelace(self.a, self.b, p))
    }

    pub open spec fn spec_with_color(self, color: Color) -> Triangle {
        Triangle {
            a: Vector { color, ..self.a },
            b: Vector { color, ..self.b },
            c: Vector { color, ..self.c },
            format: self.format,
        }
    }

    pub open spec fn spec_project(self, width: u32, height: u32) -> Option<Triangle> {
        match (
            projected(self.a, width, height),
            projected(self.b, width, height),
            projected(self.c, width, height),
        ) {
            (Some(a), Some(b), Some(c)) => Some(Triangle { a, b, c, format: self.format }),
            _ => None,
        }
    }

    pub open spec fn spec_fill(self) -> Seq<Vector> {
        seq![self.a, self.b, self.c]
    }

    pub open spec fn spec_line(self) -> Seq<Vector> {
        seq![self.a, self.b, self.c, self.a]
    }

    /// Twice the area, which is always a whole number.
    pub fn doubled_area(&self) -> (d: i128)
        ensures
            d == self.spec_doubled_area(),
    {
        twice_area(self.a, self.b, self.c)
    }

    /// The area, rounded down to a whole number.
    pub fn area(&self) -> (a: i128)
        ensures
            a == self.spec_area(),
    {
        twice_area(self.a, self.b, self.c) / 2
    }

    /// The mean of the three corners; see `spec_center`.
    pub fn center(&self) -> (m: Vector)
        ensures
            m == self.spec_center(),
    {
        let x = divide(self.a.x as i64 + self.b.x as i64 + self.c.x as i64, 3);
        let y = divide(self.a.y as i64 + self.b.y as i64 + self.c.y as i64, 3);
        Vector { x: x as i32, y: y as i32, color: self.a.color }
    }

    /// Whether `p` lies in the triangle, the border included.
    pub fn contains(&self, p: Vector) -> (inside: bool)
        ensures
            inside == self.spec_contains(p),
    {
        twice_area(self.a, self.b, self.c) == twice_area(p, self.b, self.c) + twice_area(
            self.a,
            p,
            self.c,
        ) + twice_area(self.a, self.b, p)
    }

    /// The same triangle with `color` at every corner.
    pub fn with_color(&self, color: Color) -> (t: Triangle)
        ensures
            t == self.spec_with_color(color),
    {
        Triangle {
            a: self.a.color(color),
            b: self.b.color(color),
            c: self.c.color(color),
            format: self.format,
        }
    }

    /// The triangle between the images of the corners in device space.
    /// There is none when a corner has no image.
    pub fn project(&self, width: u32, height: u32) -> (r: Option<Triangle>)
        ensures
            r == self.spec_project(width, height),
    {
        match (
            self.a.project(width, height),
            self.b.project(width, height),
            self.c.project(width, height),
        ) {
            (Some(a), Some(b), Some(c)) => Some(Triangle { a, b, c, format: self.format }),
            _ => None,
        }
    }

    /// The vertices to draw the filled triangle.
    pub fn to_fill_vec(&self) -> (v: Vec<Vector>)
        ensures
            v@ == self.spec_fill(),
    {
        let v = vec![self.a, self.b, self.c];
        assert(v@ =~= self.spec_fill());
        v
    }

    /// The vertices to draw the outline as a strip of lines.
    pub fn to_line_vec(&self) -> (v: Vec<Vector>)
        ensures
            v@ == self.spec_line(),
    {
        let v = vec![self.a, self.b, self.c, self.a];
        assert(v@ =~= self.spec_line());
        v
    }
}

impl Circle {
    /// The circle round `center`; `radius` holds its extent along each axis.
    pub fn new(center: Vector, radius: Vector) -> (c: Circle)
        ensures
            c == (Circle { center, radius }),
    {
        Circle { center, radius }
    }

    pub open spec fn spec_with_color(self, color: Color) -> Circle {
        Circle { center: Vector { color, ..self.center }, radius: self.radius }
    }

    pub open spec fn spec_project(self, width: u32, height: u32) -> Option<Circle> {
        match (projected(self.center, width, height), projected(self.radius, width, height)) {
            (Some(center), Some(radius)) => Some(Circle { center, radius }),
            _ => None,
        }
    }

    /// The centre of the circle.
    pub fn center(&self) -> (c: Vector)
        ensures
            c == self.center,
    {
        self.center
    }

    /// A circle reports no area.
    pub fn area(&self) -> (a: i128)
        ensures
            a == 0,
    {
        0
    }

    /// A circle claims no point.
    pub fn contains(&self, p: Vector) -> (inside: bool)
        ensures
            !inside,
    {
        false
    }

    /// The same circle with `color` at its centre.
    pub fn with_color(&self, color: Color) -> (c: Circle)
        ensures
            c == self.spec_with_color(color),
    {
        Circle { center: self.center.color(color), radius: self.radius }
    }

    /// The circle whose centre and radius are the images of this one's in
    /// device space. There is none when either has no image.
    pub fn project(&self, width: u32, height: u32) -> (r: Option<Circle>)
        ensures
            r == self.spec_project(width, height),
    {
        match (self.center.project(width, height), self.radius.project(width, height)) {
            (Some(center), Some(radius)) => Some(Circle { center, radius }),
            _ => None,
        }
    }
}

impl Shape {
    pub open spec fn spec_center(self) -> Vector {
        match self {
            Shape::Triangle(t) => t.spec_center(),
            Shape::Rectangle(r) => r.spec_center(),
            Shape::Circle(c) => c.center,
        }
    }

    pub open spec fn spec_area(self) -> int {
        match self {
            Shape::Triangle(t) => t.spec_area(),
            Shape::Rectangle(r) => r.spec_area(),
            Shape::Circle(_) => 0,
        }
    }

    pub open spec fn spec_contains(self, p: Vector) -> bool {
        match self {
            Shape::Triangle(t) => t.spec_contains(p),
            Shape::Rectangle(r) => r.spec_contains(p),
            Shape::Circle(_) => false,
        }
    }

    pub open spec fn spec_with_color(self, color: Color) -> Shape {
        match self {
            Shape::Triangle(t) => Shape::Triangle(t.spec_with_color(color)),
            Shape::Rectangle(r) => Shape::Rectangle(r.spec_with_color(color)),
            Shape::Circle(c) => Shape::Circle(c.spec_with_color(color)),
        }
    }

    pub open spec fn spec_project(self, width: u32, height: u32) -> Option<Shape> {
        match self {
            Shape::Triangle(t) => match t.spec_project(width, height) {
                Some(t) => Some(Shape::Triangle(t)),
                None => None,
            },
            Shape::Rectangle(r) => match r.spec_project(width, height) {
                Some(r) => Some(Shape::Rectangle(r)),
                None => None,
            },
            Shape::Circle(c) => match c.spec_project(width, height) {
                Some(c) => Some(Shape::Circle(c)),
                None => None,
            },
        }
    }

    /// The vertices that draw the shape as a list of triangles: three for a
    /// triangle, six for a rectangle. A circle has none to give.
    pub open spec fn spec_vertices(self) -> Result<Seq<Vector>, CoreError> {
        match self {
            Shape::Triangle(t) => Ok(t.spec_fill()),
            Shape::Rectangle(r) => Ok(r.spec_fill()),
            Shape::Circle(_) => Err(CoreError::Unimplemented),
        }
    }

    /// The middle of the shape.
    pub fn center(&self) -> (c: Vector)
        ensures
            c == self.spec_center(),
    {
        match self {
            Shape::Triangle(t) => t.center(),
            Shape::Rectangle(r) => r.center(),
            Shape::Circle(c) => c.center(),
        }
    }

    /// The area of the shape.
    pub fn area(&self) -> (a: i128)
        ensures
            a == self.spec_area(),
    {
        match self {
            Shape::Triangle(t) => t.area(),
            Shape::Rectangle(r) => r.area(),
            Shape::Circle(c) => c.area(),
        }
    }

    /// Whether `p` lies in the shape.
    pub fn contains(&self, p: Vector) -> (inside: bool)
        ensures
            inside == self.spec_contains(p),
    {
        match self {
            Shape::Triangle(t) => t.contains(p),
            Shape::Rectangle(r) => r.contains(p),
            Shape::Circle(c) => c.contains(p),
        }
    }

    /// A copy of the shape with `color` at every vertex.
    pub fn with_color(&self, color: Color) -> (s: Shape)
        ensures
            s == self.spec_with_color(color),
    {
        match self {
            Shape::Triangle(t) => Shape::Triangle(t.with_color(color)),
            Shape::Rectangle(r) => Shape::Rectangle(r.with_color(color)),
            Shape::Circle(c) => Shape::Circle(c.with_color(color)),
        }
    }

    /// A copy of the shape with every vertex taken to device space. There
    /// is none when a vertex has no image.
    pub fn project(&self, width: u32, height: u32) -> (r: Option<Shape>)
        ensures
            r == self.spec_project(width, height),
    {
        match self {
            Shape::Triangle(t) => match t.project(width, height) {
                Some(t) => Some(Shape::Triangle(t)),
                None => None,
            },
            Shape::Rectangle(r) => match r.project(width, height) {
                Some(r) => Some(Shape::Rectangle(r)),
                None => None,
            },
            Shape::Circle(c) => match c.project(width, height) {
                Some(c) => Some(Shape::Circle(c)),
                None => None,
            },
        }
    }

    /// The vertices to submit to draw the shape as a list of triangles.
    pub fn to_vertex_list(&self) -> (r: Result<Vec<Vector>, CoreError>)
        ensures
            match r {
                Ok(v) => self.spec_vertices() == Ok::<Seq<Vector>, CoreError>(v@),
                Err(e) => self.spec_vertices() == Err::<Seq<Vector>, CoreError>(e),
            },
    {
        match self {
            Shape::Triangle(t) => Ok(t.to_fill_vec()),
            Shape::Rectangle(r) => Ok(r.to_fill_vec()),
            Shape::Circle(_) => Err(CoreError::Unimplemented),
        }
    }
}

/// Colouring is idempotent: a shape coloured twice with `color` is the shape
/// coloured once, and so are the premultiplied colours of its vertices.
pub proof fn lemma_with_color_idempotent(shape: Shape, color: Color)
    ensures
        shape.spec_with_color(color).spec_with_color(color) == shape.spec_with_color(color),
{
}

/// Only the last colour counts: colouring forgets every earlier colouring.
pub proof fn lemma_with_color_overrides(shape: Shape, first: Color, last: Color)
    ensures
        shape.spec_with_color(first).spec_with_color(last) == shape.spec_with_color(last),
{
}

/// Colouring moves nothing: the coloured shape contains the same points
/// and has the same area.
pub proof fn lemma_with_color_keeps_geometry(shape: Shape, color: Color, p: Vector)
    ensures
        shape.spec_with_color(color).spec_contains(p) == shape.spec_contains(p),
        shape.spec_with_color(color).spec_area() == shape.spec_area(),
{
}

/// Multiplication distributes over a difference.
proof fn lemma_distribute(x: int, u: int, v: int)
    ensures
        x * (u - v) == x * u - x * v,
{
    assert(x * (u - v) == x * u - x * v) by (nonlinear_arith);
}

/// The shoelace sum, multiplied out.
proof fn lemma_shoelace_expanded(a: Vector, b: Vector, c: Vector)
    ensures
        shoelace(a, b, c) == a.x * b.y - a.x * c.y + b.x * c.y - b.x * a.y + c.x * a.y - c.x
            * b.y,
{
    lemma_distribute(a.x as int, b.y as int, c.y as int);
    lemma_distribute(b.x as int, c.y as int, a.y as int);
    lemma_distribute(c.x as int, a.y as int, b.y as int);
}

/// The three triangles that a point spans with the sides of a triangle have
/// together the signed area of the triangle.
proof fn lemma_shoelace_parts(a: Vector, b: Vector, c: Vector, p: Vector)
    ensures
        shoelace(p, b, c) + shoelace(a, p, c) + shoelace(a, b, p) == shoelace(a, b, c),
{
    lemma_shoelace_expanded(p, b, c);
    lemma_shoelace_expanded(a, p, c);
    lemma_shoelace_expanded(a, b, p);
    lemma_shoelace_expanded(a, b, c);
}

/// A triangle with two corners in one place has no area.
proof fn lemma_shoelace_flat(a: Vector, b: Vector)
    ensures
        shoelace(a, a, b) == 0,
        shoelace(a, b, a) == 0,
        shoelace(b, a, a) == 0,
{
    lemma_shoelace_expanded(a, a, b);
    lemma_shoelace_expanded(a, b, a);
    lemma_shoelace_expanded(b, a, a);
}

/// A triangle contains each of its corners.
pub proof fn lemma_triangle_contains_corners(t: Triangle)
    ensures
        t.spec_contains(t.a),
        t.spec_contains(t.b),
        t.spec_contains(t.c),
{
    let (a, b, c) = (t.a, t.b, t.c);
    lemma_shoelace_flat(a, c);
    lemma_shoelace_flat(a, b);
    lemma_shoelace_flat(b, c);
    lemma_shoelace_flat(b, a);
    lemma_shoelace_flat(c, b);
    lemma_shoelace_flat(c, a);
}

/// The area test is the half-plane test: a point is in the triangle exactly
/// when it lies on the same side of all three sides, or on them.
pub proof fn lemma_triangle_contains_iff_same_side(t: Triangle, p: Vector)
    ensures
        t.spec_contains(p) <==> {
            ||| (shoelace(p, t.b, t.c) >= 0 && shoelace(t.a, p, t.c) >= 0 && shoelace(t.a, t.b, p)
                >= 0)
            ||| (shoelace(p, t.b, t.c) <= 0 && shoelace(t.a, p, t.c) <= 0 && shoelace(t.a, t.b, p)
                <= 0)
        },
{
    lemma_shoelace_parts(t.a, t.b, t.c, p);
}

/// A rectangle whose corners are in order contains both of them.
pub proof fn lemma_rectangle_contains_corners(r: Rectangle)
    requires
        r.wf(),
    ensures
        r.spec_contains(r.min),
        r.spec_contains(r.max),
{
}

} // verus!
