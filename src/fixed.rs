use vstd::prelude::*;

verus! {

/// The fixed-point unit: an integer `v` stands for the real number `v / FIXED_ONE`.
pub const FIXED_ONE: i64 = 1_000_000;

/// The largest magnitude of a camera translation or a world position.
pub const COORD_LIMIT: i64 = 0x2000_0000_0000_0000;

/// The largest magnitude of a configured world bound.
pub const BOUND_LIMIT: i64 = 0x0004_0000_0000_0000;

/// The largest orthographic scale.
pub const SCALE_LIMIT: i64 = 0x0000_0100_0000_0000;

/// The largest viewport size, in pixels or in world units at scale 1.
pub const SIZE_LIMIT: i64 = 0x0000_0100_0000_0000;

/// A pair of fixed-point values: a position, a size or an offset.
#[derive(Clone, Copy, Debug, PartialEq, Eq, Structural)]
pub struct FixedVec2 {
    pub x: i64,
    pub y: i64,
}

impl FixedVec2 {
    pub open spec fn in_coord_range(self) -> bool {
        -COORD_LIMIT <= self.x <= COORD_LIMIT && -COORD_LIMIT <= self.y <= COORD_LIMIT
    }

    pub fn new(x: i64, y: i64) -> (r: FixedVec2)
        ensures
            r.x == x,
            r.y == y,
    {
        FixedVec2 { x, y }
    }
}

/// Floor of `a / b` for a positive divisor.
pub open spec fn floor_div(a: int, b: int) -> int {
    a / b
}

/// Ceiling of `a / b` for a positive divisor.
pub open spec fn ceil_div(a: int, b: int) -> int {
    -((-a) / b)
}

/// `v` held to `[lo, hi]`.
pub open spec fn clamp(v: int, lo: int, hi: int) -> int {
    if v < lo {
        lo
    } else if v > hi {
        hi
    } else {
        v
    }
}

/// `a / b` rounded toward negative infinity.
pub fn div_floor(a: i128, b: i128) -> (r: i128)
    requires
        b > 0,
    ensures
        r == floor_div(a as int, b as int),
{
    if a >= 0 {
        a / b
    } else {
        let n: i128 = -(a + 1);
        let q: i128 = n / b;
        proof {
            lemma_floor_of_negative(a as int, b as int);
        }
        -q - 1
    }
}

/// `a / b` rounded toward positive infinity.
pub fn div_ceil(a: i128, b: i128) -> (r: i128)
    requires
        b > 0,
        a > i128::MIN,
    ensures
        r == ceil_div(a as int, b as int),
{
    if a <= 0 {
        let n: i128 = -a;
        -(n / b)
    } else {
        let n: i128 = a - 1;
        let q: i128 = n / b;
        proof {
            lemma_floor_of_negative(-a, b as int);
        }
        q + 1
    }
}

/// Floor division of a negative number through that of a nonnegative one.
proof fn lemma_floor_of_negative(a: int, b: int)
    requires
        a < 0,
        b > 0,
    ensures
        a / b == -((-(a + 1)) / b) - 1,
{
    let n = -(a + 1);
    let q = n / b;
    let r = n % b;
    assert(n == b * q + r && 0 <= r < b) by {
        vstd::arithmetic::div_mod::lemma_fundamental_div_mod(n, b);
    }
    // a = -n - 1 = b * (-q - 1) + (b - 1 - r)
    assert(a == b * (-q - 1) + (b - 1 - r)) by (nonlinear_arith)
        requires
            n == b * q + r,
            a == -n - 1,
    ;
    vstd::arithmetic::div_mod::lemma_fundamental_div_mod_converse(a, b, -q - 1, b - 1 - r);
}

/// `|floor(a / d)| <= k` when `|a| <= k` and `d >= 1`.
pub proof fn lemma_floor_div_bounded(a: int, d: int, k: int)
    requires
        d >= 1,
        -k <= a <= k,
    ensures
        -k <= floor_div(a, d) <= k,
{
    vstd::arithmetic::div_mod::lemma_fundamental_div_mod(a, d);
    let q = a / d;
    let r = a % d;
    assert(-k <= q <= k) by (nonlinear_arith)
        requires
            a == d * q + r,
            0 <= r < d,
            d >= 1,
            -k <= a <= k,
    ;
}

/// `|floor(a / d)| <= k` when `|a| <= d * k` and `d >= 1`.
pub proof fn lemma_floor_div_within(a: int, d: int, k: int)
    requires
        d >= 1,
        k >= 0,
        -(d * k) <= a <= d * k,
    ensures
        -k <= floor_div(a, d) <= k,
{
    vstd::arithmetic::div_mod::lemma_fundamental_div_mod(a, d);
    let q = a / d;
    let r = a % d;
    assert(-k <= q <= k) by (nonlinear_arith)
        requires
            a == d * q + r,
            0 <= r < d,
            d >= 1,
            k >= 0,
            -(d * k) <= a <= d * k,
    ;
}

/// Saturates `v` to the coordinate range.
pub fn saturate_coord(v: i128) -> (r: i64)
    ensures
        r == clamp(v as int, -COORD_LIMIT as int, COORD_LIMIT as int),
{
    if v < -(COORD_LIMIT as i128) {
        -COORD_LIMIT
    } else if v > COORD_LIMIT as i128 {
        COORD_LIMIT
    } else {
        v as i64
    }
}

} // verus!
