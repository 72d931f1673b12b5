use vstd::prelude::*;

verus! {

/// Whether `v` can be held in an `i32`.
pub open spec fn fits(v: int) -> bool {
    i32::MIN <= v <= i32::MAX
}

/// The quotient of `a` by `b` rounded toward zero, as the integer division
/// of the machine rounds. Unspecified for `b == 0`.
pub open spec fn quotient(a: int, b: int) -> int {
    if a >= 0 {
        if b > 0 {
            a / b
        } else {
            -(a / (-b))
        }
    } else {
        if b > 0 {
            -((-a) / b)
        } else {
            (-a) / (-b)
        }
    }
}

/// The absolute value of `v`.
pub open spec fn magnitude(v: int) -> int {
    if v >= 0 {
        v
    } else {
        -v
    }
}

/// A product is bounded by the product of the bounds of its factors.
pub proof fn lemma_product_bound(a: int, b: int, m: int, n: int)
    requires
        -m <= a <= m,
        -n <= b <= n,
    ensures
        -(m * n) <= a * b <= m * n,
{
    assert(-(m * n) <= a * b <= m * n) by (nonlinear_arith)
        requires
            -m <= a <= m,
            -n <= b <= n,
    ;
}

/// `a * b` for factors that each span at most 33 bits.
pub(crate) fn product(a: i64, b: i64) -> (p: i128)
    requires
        -0x1_0000_0000 <= a <= 0x1_0000_0000,
        -0x1_0000_0000 <= b <= 0x1_0000_0000,
    ensures
        p == a * b,
        -0x1_0000_0000_0000_0000 <= p <= 0x1_0000_0000_0000_0000,
{
    proof {
        lemma_product_bound(a as int, b as int, 0x1_0000_0000, 0x1_0000_0000);
    }
    (a as i128) * (b as i128)
}

/// `a / b` rounded toward zero.
pub(crate) fn divide_wide(a: i128, b: i128) -> (q: i128)
    requires
        b != 0,
        a > i128::MIN,
        b > i128::MIN,
    ensures
        q == quotient(a as int, b as int),
        magnitude(q as int) <= magnitude(a as int),
{
    let ua: u128 = if a >= 0 {
        a as u128
    } else {
        (-a) as u128
    };
    let ub: u128 = if b >= 0 {
        b as u128
    } else {
        (-b) as u128
    };
    let uq: u128 = ua / ub;
    assert(uq <= ua) by (nonlinear_arith)
        requires
            uq == ua / ub,
            ub >= 1,
    ;
    if (a >= 0) == (b > 0) {
        uq as i128
    } else {
        -(uq as i128)
    }
}

/// `a / b` rounded toward zero.
pub(crate) fn divide(a: i64, b: i64) -> (q: i64)
    requires
        b != 0,
        a > i64::MIN,
        b > i64::MIN,
    ensures
        q == quotient(a as int, b as int),
        magnitude(q as int) <= magnitude(a as int),
{
    divide_wide(a as i128, b as i128) as i64
}

/// `v` as an `i32`, when it is in range.
pub(crate) fn narrow(v: i64) -> (r: Option<i32>)
    ensures
        r == if fits(v as int) {
            Some(v as i32)
        } else {
            None
        },
{
    if v < -0x8000_0000 || v > 0x7fff_ffff {
        None
    } else {
        Some(v as i32)
    }
}

} // verus!
