//! How much of another body's velocity a collision hands over.
use vstd::prelude::*;

use crate::body::FRICTION_ONE;
use crate::geometry::{abs, clamp};
use vstd::arithmetic::div_mod::{lemma_div_is_ordered, lemma_div_multiples_vanish, lemma_div_pos_is_pos};
use vstd::arithmetic::mul::lemma_mul_inequality;

verus! {

/// `v * num / den`, rounded toward zero.
pub open spec fn scale_toward_zero(v: int, num: int, den: int) -> int {
    if v >= 0 {
        v * num / den
    } else {
        -((-v) * num / den)
    }
}

/// The swept policy's transfer factor, as a numerator over
/// `2 * FRICTION_ONE`: the average of the two coefficients, clamped into
/// `[0, 1]`.
pub open spec fn friction_factor(fa: int, fb: int) -> int {
    clamp(fa + fb, 0, 2 * FRICTION_ONE)
}

/// Swept policy: the part of velocity component `v` handed over between two
/// bodies with friction coefficients `fa` and `fb`.
pub open spec fn swept_transfer(v: int, fa: int, fb: int) -> int {
    scale_toward_zero(v, friction_factor(fa, fb), 2 * FRICTION_ONE)
}

/// Static policy: a fixed three tenths of velocity component `v`.
pub open spec fn static_transfer(v: int) -> int {
    scale_toward_zero(v, 3, 10)
}

proof fn lemma_scale_nonneg_bounded(m: int, num: int, den: int)
    requires
        m >= 0,
        0 <= num <= den,
        den > 0,
    ensures
        0 <= m * num / den <= m,
{
    lemma_mul_inequality(num, den, m);
    assert(num * m == m * num) by (nonlinear_arith);
    assert(den * m == m * den) by (nonlinear_arith);
    assert(m * num >= 0) by (nonlinear_arith)
        requires
            m >= 0,
            num >= 0,
    ;
    lemma_div_is_ordered(m * num, den * m, den);
    lemma_div_multiples_vanish(m, den);
    lemma_div_pos_is_pos(m * num, den);
}

/// A factor of at most one never enlarges a component, and keeps its sign.
pub proof fn lemma_scale_toward_zero_bounded(v: int, num: int, den: int)
    requires
        0 <= num <= den,
        den > 0,
    ensures
        abs(scale_toward_zero(v, num, den)) <= abs(v),
        v >= 0 ==> scale_toward_zero(v, num, den) >= 0,
        v <= 0 ==> scale_toward_zero(v, num, den) <= 0,
{
    if v >= 0 {
        lemma_scale_nonneg_bounded(v, num, den);
    } else {
        lemma_scale_nonneg_bounded(-v, num, den);
    }
}

/// The swept transfer factor always lies in `[0, 1]`, so what it hands over is
/// never larger in magnitude than the velocity it is taken from.
pub proof fn lemma_swept_transfer_bounded(v: int, fa: int, fb: int)
    ensures
        0 <= friction_factor(fa, fb) <= 2 * FRICTION_ONE,
        abs(swept_transfer(v, fa, fb)) <= abs(v),
{
    lemma_scale_toward_zero_bounded(v, friction_factor(fa, fb), 2 * FRICTION_ONE);
}

/// `v * num / den` rounded toward zero, for a factor of at most one.
fn scale(v: i64, num: i64, den: i64) -> (r: i64)
    requires
        0 <= num <= den,
        den > 0,
    ensures
        r == scale_toward_zero(v as int, num as int, den as int),
{
    proof {
        lemma_scale_toward_zero_bounded(v as int, num as int, den as int);
    }
    if v >= 0 {
        let m = v as i128;
        assert(m * num <= 0x8000_0000_0000_0000 * 0x8000_0000_0000_0000) by (nonlinear_arith)
            requires
                0 <= m <= 0x8000_0000_0000_0000,
                0 <= num <= 0x8000_0000_0000_0000,
        ;
        assert(m * num >= 0) by (nonlinear_arith)
            requires
                m >= 0,
                num >= 0,
        ;
        ((m * num as i128) / den as i128) as i64
    } else {
        let m = -(v as i128);
        assert(m * num <= 0x8000_0000_0000_0000 * 0x8000_0000_0000_0000) by (nonlinear_arith)
            requires
                0 <= m <= 0x8000_0000_0000_0000,
                0 <= num <= 0x8000_0000_0000_0000,
        ;
        assert(m * num >= 0) by (nonlinear_arith)
            requires
                m >= 0,
                num >= 0,
        ;
        (-((m * num as i128) / den as i128)) as i64
    }
}

/// The swept policy's transfer factor over `2 * FRICTION_ONE`, clamped into
/// `[0, 2 * FRICTION_ONE]` before it is ever used.
pub fn friction_factor_of(fa: i64, fb: i64) -> (r: i64)
    ensures
        r == friction_factor(fa as int, fb as int),
        0 <= r <= 2 * FRICTION_ONE,
{
    let sum = fa as i128 + fb as i128;
    if sum < 0 {
        0
    } else if sum > 2 * FRICTION_ONE as i128 {
        2 * FRICTION_ONE
    } else {
        sum as i64
    }
}

/// Swept policy: what a collision hands over of velocity component `v`.
pub fn swept_transfer_of(v: i64, fa: i64, fb: i64) -> (r: i64)
    ensures
        r == swept_transfer(v as int, fa as int, fb as int),
        abs(r as int) <= abs(v as int),
{
    proof {
        lemma_swept_transfer_bounded(v as int, fa as int, fb as int);
    }
    scale(v, friction_factor_of(fa, fb), 2 * FRICTION_ONE)
}

/// Static policy: what a side hit hands over of velocity component `v`.
pub fn static_transfer_of(v: i64) -> (r: i64)
    ensures
        r == static_transfer(v as int),
        abs(r as int) <= abs(v as int),
{
    proof {
        lemma_scale_toward_zero_bounded(v as int, 3, 10);
    }
    scale(v, 3, 10)
}

} // verus!
