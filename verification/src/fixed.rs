//! Fixed-point arithmetic for world-space quantities.
//!
//! Every world-space scalar the engine reasons about — positions, angles,
//! camera bounds, speeds — is carried as a signed 64-bit count of
//! microunits: one world unit is [`FP_ONE`] ticks, one radian is `FP_ONE`
//! microradians. Arithmetic on these values is exact integer arithmetic,
//! with products and quotients truncated toward zero, the same rounding
//! Rust's `/` applies to signed integers. The GPU layer converts microunits
//! to 32-bit floats only at upload time.

use vstd::prelude::*;

verus! {

/// Number of fixed-point ticks in one world unit.
pub const FP_ONE: i64 = 1_000_000;

/// Truncating (round-toward-zero) division over mathematical integers:
/// the semantics of Rust's `/` on signed operands.
pub open spec fn div_trunc(a: int, b: int) -> int
    recommends
        b > 0,
{
    if a >= 0 {
        a / b
    } else {
        -((-a) / b)
    }
}

/// Product of two fixed-point values, rescaled and truncated toward zero.
pub open spec fn fp_mul(a: int, b: int) -> int {
    div_trunc(a * b, FP_ONE as int)
}

/// Quotient of two fixed-point values, rescaled and truncated toward zero.
pub open spec fn fp_div(a: int, b: int) -> int
    recommends
        b > 0,
{
    div_trunc(a * (FP_ONE as int), b)
}

/// `x` forced into `[lo, hi]`.
pub open spec fn clamp_spec(x: int, lo: int, hi: int) -> int
    recommends
        lo <= hi,
{
    if x < lo {
        lo
    } else if x > hi {
        hi
    } else {
        x
    }
}

/// Fixed-point multiplication; the 128-bit intermediate product never
/// overflows, so only the rescaled result needs to fit.
pub fn mul_fp(a: i64, b: i64) -> (r: i64)
    requires
        i64::MIN <= fp_mul(a as int, b as int) <= i64::MAX,
    ensures
        r == fp_mul(a as int, b as int),
{
    let p: i128 = (a as i128) * (b as i128);
    let q: i128 = p / 1_000_000i128;
    assert(q == fp_mul(a as int, b as int));
    q as i64
}

/// Fixed-point division by a positive denominator.
pub fn div_fp(a: i64, b: i64) -> (r: i64)
    requires
        b > 0,
        i64::MIN <= fp_div(a as int, b as int) <= i64::MAX,
    ensures
        r == fp_div(a as int, b as int),
{
    let n: i128 = (a as i128) * 1_000_000i128;
    let q: i128 = n / (b as i128);
    assert(q == fp_div(a as int, b as int));
    q as i64
}

/// `x` forced into `[lo, hi]`; the identity on values already in range.
pub fn clamp_fp(x: i64, lo: i64, hi: i64) -> (r: i64)
    requires
        lo <= hi,
    ensures
        r == clamp_spec(x as int, lo as int, hi as int),
        lo <= r <= hi,
        lo <= x <= hi ==> r == x,
{
    if x < lo {
        lo
    } else if x > hi {
        hi
    } else {
        x
    }
}

/// Magnitude bound for a truncating division: if the dividend is within
/// `m` times the divisor, the quotient is within `m`.
pub proof fn lemma_div_trunc_bound(n: int, b: int, m: int)
    requires
        b >= 1,
        m >= 0,
        -(m * b) <= n <= m * b,
    ensures
        -m <= div_trunc(n, b) <= m,
{
    assert(m * b == b * m) by (nonlinear_arith);
    if n >= 0 {
        vstd::arithmetic::div_mod::lemma_div_pos_is_pos(n, b);
        vstd::arithmetic::div_mod::lemma_multiply_divide_le(n, b, m);
    } else {
        vstd::arithmetic::div_mod::lemma_div_pos_is_pos(-n, b);
        vstd::arithmetic::div_mod::lemma_multiply_divide_le(-n, b, m);
    }
}

/// A zero factor annihilates a fixed-point product.
pub proof fn lemma_fp_mul_zero(a: int)
    ensures
        fp_mul(a, 0) == 0,
        fp_mul(0, a) == 0,
{
    vstd::arithmetic::div_mod::lemma_div_of0(FP_ONE as int);
}

/// One world unit is the fixed-point multiplicative identity.
pub proof fn lemma_fp_mul_one(a: int)
    ensures
        fp_mul(a, FP_ONE as int) == a,
        fp_mul(FP_ONE as int, a) == a,
{
    let s = FP_ONE as int;
    assert(a * s == s * a) by (nonlinear_arith);
    if a >= 0 {
        vstd::arithmetic::div_mod::lemma_div_multiples_vanish(a, s);
    } else {
        assert(-(a * s) == s * (-a)) by (nonlinear_arith);
        vstd::arithmetic::div_mod::lemma_div_multiples_vanish(-a, s);
    }
}

/// A 4-by-4 matrix of fixed-point values in column-major order: entry
/// `(row, col)` lives at index `col * 4 + row`, matching the layout the
/// GPU consumes.
#[derive(Clone, Debug, PartialEq, Eq)]
pub struct Mat4Fp {
    pub m: Vec<i64>,
}

impl Mat4Fp {
    /// Exactly sixteen entries.
    pub open spec fn wf(self) -> bool {
        self.m@.len() == 16
    }

    /// Entry at `(row, col)`.
    pub open spec fn entry(self, row: int, col: int) -> int
        recommends
            0 <= row < 4,
            0 <= col < 4,
            self.wf(),
    {
        self.m@[col * 4 + row] as int
    }
}

/// A point or direction in world space, in microunits per axis.
#[derive(Clone, Copy, Debug, PartialEq, Eq, Structural)]
pub struct Vec3Fp {
    pub x: i64,
    pub y: i64,
    pub z: i64,
}

impl Vec3Fp {
    /// The origin.
    pub fn zero() -> (v: Vec3Fp)
        ensures
            v == (Vec3Fp { x: 0, y: 0, z: 0 }),
    {
        Vec3Fp { x: 0, y: 0, z: 0 }
    }
}

} // verus!
