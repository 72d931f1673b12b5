use vstd::prelude::*;
use crate::arith::{
    divide,
    divide_wide,
    fits,
    lemma_product_bound,
    narrow,
    product,
    quotient,
};
use crate::color::Color;

verus! {

/// A point of the plane with a colour attached. The coordinates are whole
/// numbers of widget-local units; arithmetic acts on the position alone and
/// carries the colour of the left operand through unchanged.
#[derive(Debug, Clone, Copy, PartialEq, Eq, Structural)]
pub struct Vector {
    pub x: i32,
    pub y: i32,
    pub color: Color,
}

/// The vector at `(x, y)` with the colour `color`, when both coordinates can
/// be held.
pub open spec fn placed(x: int, y: int, color: Color) -> Option<Vector> {
    if fits(x) && fits(y) {
        Some(Vector { x: x as i32, y: y as i32, color })
    } else {
        None
    }
}

/// The image of `v` in device space for a viewport of `width` by `height`
/// units. Device coordinates run from -1 to 1; the result holds them as
/// numerators, `x` over `width` and `y` over `height`, so that
/// `x / width == (v.x + 1/2) / (width / 2) - 1` and
/// `y / height == 1 - (v.y + 1/2) / (height / 2)` hold exactly.
pub open spec fn projected(v: Vector, width: u32, height: u32) -> Option<Vector> {
    placed(2 * v.x + 1 - width, height - 2 * v.y - 1, v.color)
}

/// The point at the fraction `num / den` of the way from `a` to `b`, that is
/// `a * (1 - t) + b * t` for `t = num / den`, each coordinate rounded toward
/// zero, with the colour of `a`. There is none when `den` is zero.
pub open spec fn blended(a: Vector, b: Vector, num: i32, den: i32) -> Option<Vector> {
    if den == 0 {
        None
    } else {
        placed(
            quotient(a.x * (den - num) + b.x * num, den as int),
            quotient(a.y * (den - num) + b.y * num, den as int),
            a.color,
        )
    }
}

/// The point whose image in device space is `p`, when there is one.
pub open spec fn unprojected(p: Vector, width: u32, height: u32) -> Option<Vector> {
    let sx = p.x + width - 1;
    let sy = height - 1 - p.y;
    if sx % 2 == 0 && sy % 2 == 0 {
        placed(sx / 2, sy / 2, p.color)
    } else {
        None
    }
}

fn place(x: i64, y: i64, color: Color) -> (r: Option<Vector>)
    ensures
        r == placed(x as int, y as int, color),
{
    match (narrow(x), narrow(y)) {
        (Some(x), Some(y)) => Some(Vector { x, y, color }),
        _ => None,
    }
}

impl Vector {
    pub open spec fn spec_add(self, v: Vector) -> Option<Vector> {
        placed(self.x + v.x, self.y + v.y, self.color)
    }

    pub open spec fn spec_add_scalar(self, k: i32) -> Option<Vector> {
        placed(self.x + k, self.y + k, self.color)
    }

    pub open spec fn spec_sub(self, v: Vector) -> Option<Vector> {
        placed(self.x - v.x, self.y - v.y, self.color)
    }

    pub open spec fn spec_sub_scalar(self, k: i32) -> Option<Vector> {
        placed(self.x - k, self.y - k, self.color)
    }

    pub open spec fn spec_mul(self, v: Vector) -> Option<Vector> {
        placed(self.x * v.x, self.y * v.y, self.color)
    }

    pub open spec fn spec_mul_scalar(self, k: i32) -> Option<Vector> {
        placed(self.x * k, self.y * k, self.color)
    }

    /// The quotients are rounded toward zero; there is no result when a
    /// coordinate of `v` is zero.
    pub open spec fn spec_div(self, v: Vector) -> Option<Vector> {
        if v.x == 0 || v.y == 0 {
            None
        } else {
            placed(
                quotient(self.x as int, v.x as int),
                quotient(self.y as int, v.y as int),
                self.color,
            )
        }
    }

    /// The quotients are rounded toward zero; there is no result when `k`
    /// is zero.
    pub open spec fn spec_div_scalar(self, k: i32) -> Option<Vector> {
        if k == 0 {
            None
        } else {
            placed(quotient(self.x as int, k as int), quotient(self.y as int, k as int), self.color)
        }
    }

    /// The vector at `(x, y)`, coloured transparent black.
    pub fn new(x: i32, y: i32) -> (v: Vector)
        ensures
            v == (Vector { x, y, color: Color { r: 0, g: 0, b: 0, a: 0 } }),
    {
        Vector { x, y, color: Color::default() }
    }

    /// The horizontal coordinate.
    pub fn x(&self) -> (x: i32)
        ensures
            x == self.x,
    {
        self.x
    }

    /// The vertical coordinate.
    pub fn y(&self) -> (y: i32)
        ensures
            y == self.y,
    {
        self.y
    }

    /// The same point with the colour `color`.
    pub fn color(self, color: Color) -> (v: Vector)
        ensures
            v == (Vector { x: self.x, y: self.y, color }),
    {
        Vector { x: self.x, y: self.y, color }
    }

    /// The sum of the two positions, unless a coordinate of it is out of range.
    pub fn add(self, v: Vector) -> (r: Option<Vector>)
        ensures
            r == self.spec_add(v),
    {
        place(self.x as i64 + v.x as i64, self.y as i64 + v.y as i64, self.color)
    }

    /// The position moved by `k` along both axes, unless it leaves the range.
    pub fn add_scalar(self, k: i32) -> (r: Option<Vector>)
        ensures
            r == self.spec_add_scalar(k),
    {
        place(self.x as i64 + k as i64, self.y as i64 + k as i64, self.color)
    }

    /// The difference of the two positions, unless a coordinate of it is out
    /// of range.
    pub fn sub(self, v: Vector) -> (r: Option<Vector>)
        ensures
            r == self.spec_sub(v),
    {
        place(self.x as i64 - v.x as i64, self.y as i64 - v.y as i64, self.color)
    }

    /// The position moved back by `k` along both axes, unless it leaves the
    /// range.
    pub fn sub_scalar(self, k: i32) -> (r: Option<Vector>)
        ensures
            r == self.spec_sub_scalar(k),
    {
        place(self.x as i64 - k as i64, self.y as i64 - k as i64, self.color)
    }

    /// The product coordinate by coordinate, unless one is out of range.
    pub fn mul(self, v: Vector) -> (r: Option<Vector>)
        ensures
            r == self.spec_mul(v),
    {
        let x = product(self.x as i64, v.x as i64);
        let y = product(self.y as i64, v.y as i64);
        proof {
            lemma_product_bound(self.x as int, v.x as int, 0x8000_0000, 0x8000_0000);
            lemma_product_bound(self.y as int, v.y as int, 0x8000_0000, 0x8000_0000);
        }
        place(x as i64, y as i64, self.color)
    }

    /// The position scaled by `k`, unless it leaves the range.
    pub fn mul_scalar(self, k: i32) -> (r: Option<Vector>)
        ensures
            r == self.spec_mul_scalar(k),
    {
        let x = product(self.x as i64, k as i64);
        let y = product(self.y as i64, k as i64);
        proof {
            lemma_product_bound(self.x as int, k as int, 0x8000_0000, 0x8000_0000);
            lemma_product_bound(self.y as int, k as int, 0x8000_0000, 0x8000_0000);
        }
        place(x as i64, y as i64, self.color)
    }

    /// The quotient coordinate by coordinate, rounded toward zero. There is
    /// none when a coordinate of `v` is zero or a quotient is out of range.
    pub fn div(self, v: Vector) -> (r: Option<Vector>)
        ensures
            r == self.spec_div(v),
    {
        if v.x == 0 || v.y == 0 {
            None
        } else {
            place(divide(self.x as i64, v.x as i64), divide(self.y as i64, v.y as i64), self.color)
        }
    }

    /// The position divided by `k`, rounded toward zero. There is none when
    /// `k` is zero or a quotient is out of range.
    pub fn div_scalar(self, k: i32) -> (r: Option<Vector>)
        ensures
            r == self.spec_div_scalar(k),
    {
        if k == 0 {
            None
        } else {
            place(divide(self.x as i64, k as i64), divide(self.y as i64, k as i64), self.color)
        }
    }

    /// The same point: coordinates are whole numbers already.
    pub fn floor(self) -> (v: Vector)
        ensures
            v == self,
    {
        self
    }

    /// The length of the position, rounded down to a whole number.
    pub fn hypot(&self) -> (h: u64)
        ensures
            h * h <= self.x * self.x + self.y * self.y < (h + 1) * (h + 1),
    {
        let n: i128 = product(self.x as i64, self.x as i64) + product(self.y as i64, self.y as i64);
        proof {
            lemma_product_bound(self.x as int, self.x as int, 0x8000_0000, 0x8000_0000);
            lemma_product_bound(self.y as int, self.y as int, 0x8000_0000, 0x8000_0000);
            assert(self.x * self.x >= 0 && self.y * self.y >= 0) by (nonlinear_arith);
        }
        let mut low: i128 = 0;
        let mut high: i128 = 0x1_0000_0000;
        while high - low > 1
            invariant
                0 <= low < high <= 0x1_0000_0000,
                low * low <= n < high * high,
                n == self.x * self.x + self.y * self.y,
            decreases high - low,
        {
            let mid = low + (high - low) / 2;
            proof {
                lemma_product_bound(mid as int, mid as int, 0x1_0000_0000, 0x1_0000_0000);
            }
            if mid * mid <= n {
                low = mid;
            } else {
                high = mid;
            }
        }
        low as u64
    }

    /// The point at the fraction `num / den` of the way from here to `v`;
    /// see `blended`. There is none when `den` is zero or a coordinate is
    /// out of range.
    pub fn lerp(self, v: Vector, num: i32, den: i32) -> (r: Option<Vector>)
        ensures
            r == blended(self, v, num, den),
    {
        if den == 0 {
            return None;
        }
        let rest = den as i64 - num as i64;
        let x = product(self.x as i64, rest) + product(v.x as i64, num as i64);
        let y = product(self.y as i64, rest) + product(v.y as i64, num as i64);
        let qx = divide_wide(x, den as i128);
        let qy = divide_wide(y, den as i128);
        if qx < -0x8000_0000 || qx > 0x7fff_ffff || qy < -0x8000_0000 || qy > 0x7fff_ffff {
            None
        } else {
            Some(Vector { x: qx as i32, y: qy as i32, color: self.color })
        }
    }

    /// The dot product of the two positions.
    pub fn dot(&self, v: Vector) -> (d: i128)
        ensures
            d == self.x * v.x + self.y * v.y,
    {
        product(self.x as i64, v.x as i64) + product(self.y as i64, v.y as i64)
    }

    /// The cross product of the two positions: twice the signed area of the
    /// triangle that they span with the origin.
    pub fn cross(&self, v: Vector) -> (c: i128)
        ensures
            c == self.x * v.y - v.x * self.y,
    {
        product(self.x as i64, v.y as i64) - product(v.x as i64, self.y as i64)
    }

    /// The image of this point in device space; see `projected`. There is
    /// none when a numerator is out of range.
    pub fn project(self, width: u32, height: u32) -> (r: Option<Vector>)
        ensures
            r == projected(self, width, height),
    {
        place(
            2 * (self.x as i64) + 1 - width as i64,
            height as i64 - 2 * (self.y as i64) - 1,
            self.color,
        )
    }

    /// The point whose image in device space is this one. There is none
    /// when no point of the lattice projects here.
    pub fn unproject(self, width: u32, height: u32) -> (r: Option<Vector>)
        ensures
            r == unprojected(self, width, height),
    {
        let sx: i64 = self.x as i64 + width as i64 - 1;
        let sy: i64 = height as i64 - 1 - self.y as i64;
        let hx = divide(sx, 2);
        let hy = divide(sy, 2);
        if sx - 2 * hx == 0 && sy - 2 * hy == 0 {
            place(hx, hy, self.color)
        } else {
            None
        }
    }
}

impl From<[i32; 2]> for Vector {
    /// The vector at `(data[0], data[1])`, coloured transparent black.
    fn from(data: [i32; 2]) -> (v: Vector) {
        Vector { x: data[0], y: data[1], color: Color::default() }
    }
}

impl vstd::std_specs::convert::FromSpecImpl<[i32; 2]> for Vector {
    open spec fn obeys_from_spec() -> bool {
        true
    }

    open spec fn from_spec(data: [i32; 2]) -> Vector {
        Vector { x: data[0], y: data[1], color: Color { r: 0, g: 0, b: 0, a: 0 } }
    }
}

/// Rounding an exact multiple toward zero gives the factor back.
proof fn lemma_quotient_of_multiple(x: int, d: int)
    requires
        d != 0,
    ensures
        quotient(x * d, d) == x,
{
    if d > 0 {
        if x >= 0 {
            assert(x * d >= 0 && (x * d) / d == x) by (nonlinear_arith)
                requires
                    d > 0,
                    x >= 0,
            ;
        } else {
            assert(x * d <= 0 && -(x * d) == (-x) * d && ((-x) * d) / d == -x)
                by (nonlinear_arith)
                requires
                    d > 0,
                    x < 0,
            ;
        }
    } else {
        if x > 0 {
            assert(x * d < 0 && -(x * d) == x * (-d) && (x * (-d)) / (-d) == x)
                by (nonlinear_arith)
                requires
                    d < 0,
                    x > 0,
            ;
        } else {
            assert(x * d >= 0 && x * d == (-x) * (-d) && ((-x) * (-d)) / (-d) == -x)
                by (nonlinear_arith)
                requires
                    d < 0,
                    x <= 0,
            ;
        }
    }
}

/// Interpolation starts at the one point and ends at the other: at the
/// fraction 0 it gives the first point, and at the fraction 1 the second,
/// with the colour of the first.
pub proof fn lemma_lerp_ends(a: Vector, b: Vector, den: i32)
    requires
        den != 0,
    ensures
        blended(a, b, 0, den) == Some(a),
        blended(a, b, den, den) == Some(Vector { color: a.color, ..b }),
{
    lemma_quotient_of_multiple(a.x as int, den as int);
    lemma_quotient_of_multiple(a.y as int, den as int);
    lemma_quotient_of_multiple(b.x as int, den as int);
    lemma_quotient_of_multiple(b.y as int, den as int);
    assert(a.x * (den - 0) + b.x * 0 == a.x * den) by (nonlinear_arith);
    assert(a.y * (den - 0) + b.y * 0 == a.y * den) by (nonlinear_arith);
    assert(a.x * (den - den) + b.x * den == b.x * den) by (nonlinear_arith);
    assert(a.y * (den - den) + b.y * den == b.y * den) by (nonlinear_arith);
}

/// Projection loses nothing: the point that unprojects from the image of `v`
/// is `v` itself, colour included, for every viewport.
pub proof fn lemma_project_round_trip(v: Vector, width: u32, height: u32)
    requires
        projected(v, width, height) is Some,
    ensures
        unprojected(projected(v, width, height).unwrap(), width, height) == Some(v),
{
}

/// Every point of a viewport, its far edges included, has an image and is
/// recovered from it, as long as the viewport is small enough for the
/// numerators to be held.
pub proof fn lemma_project_round_trip_in_viewport(v: Vector, width: u32, height: u32)
    requires
        0 <= v.x <= width,
        0 <= v.y <= height,
        width < i32::MAX,
        height < i32::MAX,
    ensures
        projected(v, width, height) is Some,
        unprojected(projected(v, width, height).unwrap(), width, height) == Some(v),
{
}

/// Unprojection loses nothing either: whatever unprojects to `v` is the
/// image of `v`. With the round trip this makes projection a bijection
/// between the points that have an image and the images.
pub proof fn lemma_unproject_round_trip(p: Vector, width: u32, height: u32)
    requires
        unprojected(p, width, height) is Some,
    ensures
        projected(unprojected(p, width, height).unwrap(), width, height) == Some(p),
{
}

/// The points inside the viewport are exactly those whose image lies
/// strictly inside device space, that is between -1 and 1 on both axes.
pub proof fn lemma_project_in_bounds(v: Vector, width: u32, height: u32)
    requires
        projected(v, width, height) is Some,
    ensures
        ({
            let p = projected(v, width, height).unwrap();
            &&& (0 <= v.x < width <==> -width < p.x < width)
            &&& (0 <= v.y < height <==> -height < p.y < height)
        }),
{
}

} // verus!
