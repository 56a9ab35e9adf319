//! Saturating 16.16 fixed-point scalar arithmetic.
//!
//! Every quantity the rasterizer works with is an `i64` holding a real
//! value scaled by `FX_ONE`. All operations round toward negative
//! infinity and saturate into the symmetric range `[-i64::MAX, i64::MAX]`,
//! so that negation is always exact.

use vstd::prelude::*;
use vstd::arithmetic::div_mod::{
    lemma_div_nonincreasing, lemma_div_pos_is_pos, lemma_fundamental_div_mod,
    lemma_fundamental_div_mod_converse_div,
};

verus! {

/// Scale of the fixed-point representation: 16 fractional bits.
pub const FX_ONE: i64 = 65536;

/// One half in fixed point; pixel centers sit at `x * FX_ONE + FX_HALF`.
pub const FX_HALF: i64 = 32768;

/// Clamp an unbounded integer into the symmetric `i64` range.
pub open spec fn sat64(x: int) -> int {
    if x > i64::MAX as int {
        i64::MAX as int
    } else if x < -(i64::MAX as int) {
        -(i64::MAX as int)
    } else {
        x
    }
}

/// Division rounding toward negative infinity. The divisor's sign is
/// normalized first: `/` on `int` is Euclidean, which coincides with
/// floor division exactly when the divisor is positive.
pub open spec fn fdiv(a: int, b: int) -> int
    recommends
        b != 0,
{
    if b >= 0 {
        a / b
    } else {
        (-a) / (-b)
    }
}

/// Saturated fixed-point sum.
pub open spec fn spec_add(a: int, b: int) -> int {
    sat64(a + b)
}

/// Saturated fixed-point difference.
pub open spec fn spec_sub(a: int, b: int) -> int {
    sat64(a - b)
}

/// Saturated fixed-point product: the double-width product is rescaled
/// by `FX_ONE` with floor rounding.
pub open spec fn spec_mul(a: int, b: int) -> int {
    sat64(fdiv(a * b, FX_ONE as int))
}

/// Saturated fixed-point quotient: the dividend is prescaled by `FX_ONE`.
pub open spec fn spec_div(a: int, b: int) -> int
    recommends
        b != 0,
{
    sat64(fdiv(a * FX_ONE, b))
}

/// `(u - v) * (s - t)` written out as four monomials; polynomial
/// identities are proved by expanding into monomials like this so that
/// the remaining reasoning is linear.
pub proof fn lemma_expand_product(u: int, v: int, s: int, t: int)
    ensures
        (u - v) * (s - t) == u * s - u * t - v * s + v * t,
{
    assert((u - v) * (s - t) == u * s - u * t - v * s + v * t) by (nonlinear_arith);
}

/// Multiplication commutes.
pub proof fn lemma_swap_product(u: int, v: int)
    ensures
        u * v == v * u,
{
    assert(u * v == v * u) by (nonlinear_arith);
}

/// A product of two bounded values is bounded by the product of the bounds.
pub proof fn lemma_mul_fits(a: int, b: int, abound: int, bbound: int)
    requires
        0 <= abound,
        0 <= bbound,
        -abound <= a <= abound,
        -bbound <= b <= bbound,
    ensures
        -(abound * bbound) <= a * b <= abound * bbound,
{
    assert(-(abound * bbound) <= a * b <= abound * bbound) by (nonlinear_arith)
        requires
            0 <= abound,
            0 <= bbound,
            -abound <= a <= abound,
            -bbound <= b <= bbound,
    ;
}

/// Clamp a double-width intermediate back into the symmetric `i64` range.
pub(crate) fn clamp128(x: i128) -> (r: i64)
    ensures
        r as int == sat64(x as int),
{
    if x > i64::MAX as i128 {
        i64::MAX
    } else if x < -(i64::MAX as i128) {
        -i64::MAX
    } else {
        x as i64
    }
}

/// Floor division of a double-width intermediate by a positive divisor,
/// built from unsigned division.
pub(crate) fn floor_div128(a: i128, b: i128) -> (r: i128)
    requires
        0 < b,
        i128::MIN < a,
    ensures
        r as int == a as int / b as int,
        a >= 0 ==> 0 <= r <= a,
        a < 0 ==> a <= r <= 0,
{
    if a >= 0 {
        let q: u128 = (a as u128) / (b as u128);
        proof {
            lemma_div_pos_is_pos(a as int, b as int);
            lemma_div_nonincreasing(a as int, b as int);
        }
        q as i128
    } else {
        let m: u128 = (-a) as u128;
        let bu: u128 = b as u128;
        let k: u128 = (m + bu - 1) / bu;
        proof {
            let mi = m as int;
            let bi = b as int;
            let q0 = mi / bi;
            let r0 = mi % bi;
            lemma_fundamental_div_mod(mi, bi);
            lemma_div_pos_is_pos(mi, bi);
            lemma_div_nonincreasing(mi, bi);
            if r0 == 0 {
                lemma_fundamental_div_mod_converse_div(mi + bi - 1, bi, q0, bi - 1);
                assert(-(q0 * bi) == (-q0) * bi) by (nonlinear_arith);
                lemma_fundamental_div_mod_converse_div(a as int, bi, -q0, 0);
            } else {
                assert(mi + bi - 1 == (q0 + 1) * bi + (r0 - 1)) by (nonlinear_arith)
                    requires
                        mi == q0 * bi + r0,
                ;
                lemma_fundamental_div_mod_converse_div(mi + bi - 1, bi, q0 + 1, r0 - 1);
                assert(a as int == (-(q0 + 1)) * bi + (bi - r0)) by (nonlinear_arith)
                    requires
                        a as int == -mi && mi == q0 * bi + r0,
                ;
                lemma_fundamental_div_mod_converse_div(a as int, bi, -(q0 + 1), bi - r0);
                assert(q0 * bi >= q0) by (nonlinear_arith)
                    requires
                        q0 >= 0 && bi >= 1,
                ;
            }
        }
        -(k as i128)
    }
}

/// Saturating fixed-point addition.
pub fn fx_add(a: i64, b: i64) -> (r: i64)
    ensures
        r as int == spec_add(a as int, b as int),
{
    clamp128(a as i128 + b as i128)
}

/// Saturating fixed-point subtraction.
pub fn fx_sub(a: i64, b: i64) -> (r: i64)
    ensures
        r as int == spec_sub(a as int, b as int),
{
    clamp128(a as i128 - b as i128)
}

/// Saturating negation; exact everywhere but at `i64::MIN`.
pub fn fx_neg(a: i64) -> (r: i64)
    ensures
        r as int == sat64(-(a as int)),
{
    if a == i64::MIN {
        i64::MAX
    } else {
        -a
    }
}

/// Saturating fixed-point multiplication with floor rounding.
pub fn fx_mul(a: i64, b: i64) -> (r: i64)
    ensures
        r as int == spec_mul(a as int, b as int),
{
    proof {
        lemma_mul_fits(a as int, b as int, 0x8000_0000_0000_0000, 0x8000_0000_0000_0000);
    }
    let p: i128 = a as i128 * b as i128;
    let q: i128 = floor_div128(p, FX_ONE as i128);
    clamp128(q)
}

/// Saturating fixed-point division with floor rounding.
pub fn fx_div(a: i64, b: i64) -> (r: i64)
    requires
        b != 0,
    ensures
        r as int == spec_div(a as int, b as int),
{
    let n: i128 = a as i128 * 65536;
    assert(-0x8000_0000_0000_0000_0000 <= n <= 0x8000_0000_0000_0000_0000);
    if b > 0 {
        clamp128(floor_div128(n, b as i128))
    } else {
        clamp128(floor_div128(-n, -(b as i128)))
    }
}

} // verus!
