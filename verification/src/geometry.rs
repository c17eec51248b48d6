//! Shared geometric value types and the fixed-point scaling primitive.

use vstd::prelude::*;

verus! {

/// A two-dimensional vector (or point) with integer components.
///
/// The crate does all of its geometry in fixed-point integer
/// coordinates; the unit is chosen by the caller and is the same for
/// every quantity that a function combines.
#[derive(Clone, Copy, Debug, PartialEq, Eq, Structural)]
pub struct Vec2i {
    pub x: i64,
    pub y: i64,
}

/// An exact rotation angle, stored as the fraction
/// `turn_num / turn_denom` of a full turn.
///
/// The builder only ever needs angles that are rational multiples of a
/// full turn, so storing the fraction keeps them exact; a renderer can
/// convert to radians at the boundary.
#[derive(Clone, Copy, Debug, PartialEq, Eq, Structural)]
pub struct Angle {
    pub turn_num: i64,
    pub turn_denom: i64,
}

/// `a * b / den` with the quotient truncated toward zero: the rounding
/// used by the fixed-point scaling below.
pub open spec fn trunc_mul_div(a: int, b: int, den: int) -> int {
    if a * b >= 0 {
        (a * b) / den
    } else {
        -((-(a * b)) / den)
    }
}

/// Truncating fixed-point scaling loses less than one unit of the
/// denominator: `den * trunc_mul_div(a, b, den)` lies strictly within
/// `den` of the exact product `a * b`.
pub proof fn lemma_trunc_mul_div_close(a: int, b: int, den: int)
    requires
        0 < den,
    ensures
        a * b - den < den * trunc_mul_div(a, b, den),
        den * trunc_mul_div(a, b, den) < a * b + den,
{
    let p = a * b;
    if p >= 0 {
        let q = p / den;
        vstd::arithmetic::div_mod::lemma_fundamental_div_mod(p, den);
        vstd::arithmetic::div_mod::lemma_mod_bound(p, den);
        assert(trunc_mul_div(a, b, den) == q);
        assert(p - den < den * q <= p);
    } else {
        let q = (-p) / den;
        vstd::arithmetic::div_mod::lemma_fundamental_div_mod(-p, den);
        vstd::arithmetic::div_mod::lemma_mod_bound(-p, den);
        assert(trunc_mul_div(a, b, den) == -q);
        assert(-p - den < den * q <= -p);
        assert(den * (-q) == -(den * q)) by (nonlinear_arith);
    }
}

/// Fixed-point scaling: computes `a * b / den` truncated toward zero,
/// without intermediate overflow. `b` plays the role of a trigonometric
/// sample in `[-den, den]`, so the result never exceeds `a` in
/// magnitude.
pub fn mul_div(a: i64, b: i64, den: i64) -> (r: i64)
    requires
        0 <= a,
        0 < den,
        -den <= b <= den,
    ensures
        r == trunc_mul_div(a as int, b as int, den as int),
        -a <= r <= a,
        0 <= b ==> 0 <= r,
        b < 0 ==> r <= 0,
{
    if b >= 0 {
        proof {
            assert(0 <= a as int * b as int <= a as int * den as int) by (nonlinear_arith)
                requires 0 <= a && 0 <= b <= den;
            vstd::arithmetic::div_mod::lemma_div_pos_is_pos(a as int * b as int, den as int);
            vstd::arithmetic::div_mod::lemma_div_is_ordered(
                a as int * b as int, a as int * den as int, den as int);
            vstd::arithmetic::div_mod::lemma_div_by_multiple(a as int, den as int);
            assert(a as int * b as int <= i64::MAX as int * i64::MAX as int) by (nonlinear_arith)
                requires 0 <= a <= i64::MAX && 0 <= b <= i64::MAX;
        }
        let q: u128 = (a as u128 * b as u128) / (den as u128);
        q as i64
    } else {
        let nb = -b;
        proof {
            assert(a as int * nb as int == -(a as int * b as int)) by (nonlinear_arith)
                requires nb == -b;
            assert(0 <= a as int * nb as int <= a as int * den as int) by (nonlinear_arith)
                requires 0 <= a && 0 <= nb <= den;
            vstd::arithmetic::div_mod::lemma_div_pos_is_pos(a as int * nb as int, den as int);
            vstd::arithmetic::div_mod::lemma_div_is_ordered(
                a as int * nb as int, a as int * den as int, den as int);
            vstd::arithmetic::div_mod::lemma_div_by_multiple(a as int, den as int);
            assert(a as int * nb as int <= i64::MAX as int * i64::MAX as int) by (nonlinear_arith)
                requires 0 <= a <= i64::MAX && 0 <= nb <= i64::MAX;
        }
        let q: u128 = (a as u128 * nb as u128) / (den as u128);
        -(q as i64)
    }
}

} // verus!
