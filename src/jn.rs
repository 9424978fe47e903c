//! Decisions of the order-n evaluator of the first kind, `J(n, x)`.
//!
//! `jn_start` classifies an order and a binary32 argument: a NaN is handed
//! back, orders 0 and ±1 go to the base primitives, and any other order is
//! reduced to `|n| - 1` recurrence steps on `|x|` with one of four
//! strategies and a sign applied once at the end. The remaining functions
//! are the threshold tests taken inside the backward recurrence.
use crate::ieee::{
    f32_le, f32_lt, f32_of_nat, f32_from_u32, fabsf, is_nan, le_f32, lt_f32, magnitude, negated,
    negf, sign_bit, F32_INFINITY, F32_SIGN,
};
use crate::order::{reduce_order, reduced_order};
use vstd::prelude::*;

verus! {

/// `2^-20`: below it the leading power-series term is accurate.
pub const TINY_ARGUMENT: u32 = 0x3580_0000;

/// The power series is cut at this many factors `x/2` beyond the first.
pub const SERIES_MAX_STEPS: u32 = 8;

/// `1.0e4`: the continued fraction is deep enough for single precision once
/// its convergent denominator reaches this value.
pub const FRACTION_LIMIT: u32 = 0x461c_4000;

/// `88.72168`, the natural logarithm of the largest binary32 value: an
/// estimated growth above it may overflow the backward recurrence.
pub const GROWTH_LIMIT: u32 = 0x42b1_7180;

/// `2^60`: a backward-recurrence value above it is rescaled to one.
pub const RESCALE_LIMIT: u32 = 0x5d80_0000;

/// How the magnitude `|J(nm1 + 1, ax)|` is evaluated.
#[derive(PartialEq, Eq, Structural, Clone, Copy, Debug)]
pub enum Strategy {
    /// The argument is zero or infinite: the magnitude is zero.
    Vanishing,
    /// Forward recurrence from `J0(ax)` and `J1(ax)`, stable when the order
    /// is below the argument.
    Forward,
    /// The leading power-series term `(ax/2)^(steps+1) / (steps+1)!`.
    Series { steps: u32 },
    /// Miller's scaled backward recurrence, seeded by a continued fraction
    /// and normalized against `J0(ax)` or `J1(ax)`.
    Backward,
}

/// What `J(n, x)` is made of.
#[derive(PartialEq, Eq, Structural, Clone, Copy, Debug)]
pub enum JnStart {
    /// `x` is a NaN, and is the result itself.
    Unchanged,
    /// The result is `J0(x)`.
    OrderZero { x: u32 },
    /// The result is `J1(x)`.
    OrderOne { x: u32 },
    /// The result is the magnitude at order `nm1 + 1` and argument `ax`,
    /// found by `strategy`, negated when `negative` holds.
    Magnitude { nm1: u32, ax: u32, negative: bool, strategy: Strategy },
}

/// The sign of `J(n, x)` for `|n| >= 2`: `J(-n, x) = J(n, -x)`, and
/// `J(n, -x) = (-1)^n J(n, x)`, so an odd order takes the sign of `x`,
/// flipped for a negative order, and an even order is positive.
pub open spec fn jn_negative(n: i32, x: u32) -> bool {
    n % 2 != 0 && sign_bit(x) != (n < 0)
}

/// The strategy for order `nm1 + 1` at the magnitude pattern `ax`.
pub open spec fn strategy_for(nm1: nat, ax: u32) -> Strategy {
    if ax == 0 || ax == F32_INFINITY {
        Strategy::Vanishing
    } else if f32_lt(f32_of_nat(nm1), ax) {
        Strategy::Forward
    } else if ax < TINY_ARGUMENT {
        Strategy::Series { steps: if nm1 > SERIES_MAX_STEPS { SERIES_MAX_STEPS } else { nm1 as u32 } }
    } else {
        Strategy::Backward
    }
}

/// The plan for `J(n, x)`.
pub open spec fn jn_plan(n: i32, x: u32) -> JnStart {
    if is_nan(x) {
        JnStart::Unchanged
    } else if n == 0 {
        JnStart::OrderZero { x }
    } else if n == 1 {
        JnStart::OrderOne { x }
    } else if n == -1 {
        JnStart::OrderOne { x: negated(x) }
    } else {
        JnStart::Magnitude {
            nm1: reduced_order(n) as u32,
            ax: magnitude(x),
            negative: jn_negative(n, x),
            strategy: strategy_for(reduced_order(n) as nat, magnitude(x)),
        }
    }
}

/// Chooses the strategy for order `nm1 + 1` at a non-NaN magnitude `ax`.
pub fn choose_strategy(nm1: u32, ax: u32) -> (r: Strategy)
    ensures
        r == strategy_for(nm1 as nat, ax),
{
    if ax == 0 || ax == F32_INFINITY {
        Strategy::Vanishing
    } else if lt_f32(f32_from_u32(nm1), ax) {
        Strategy::Forward
    } else if ax < TINY_ARGUMENT {
        let steps: u32 = if nm1 > SERIES_MAX_STEPS {
            SERIES_MAX_STEPS
        } else {
            nm1
        };
        Strategy::Series { steps }
    } else {
        Strategy::Backward
    }
}

/// Classifies the order `n` and the binary32 argument `x` of `J(n, x)`.
pub fn jn_start(n: i32, x: u32) -> (r: JnStart)
    ensures
        r == jn_plan(n, x),
{
    let ax = fabsf(x);
    if ax > F32_INFINITY {
        return JnStart::Unchanged;
    }
    if n == 0 {
        return JnStart::OrderZero { x };
    }
    let nm1 = reduce_order(n);
    let arg = if n < 0 {
        negf(x)
    } else {
        x
    };
    if nm1 == 0 {
        return JnStart::OrderOne { x: arg };
    }
    let negative = nm1 % 2 == 0 && arg >= F32_SIGN;
    JnStart::Magnitude { nm1, ax, negative, strategy: choose_strategy(nm1, ax) }
}

/// Whether the continued fraction needs another term: its convergent
/// denominator `q1` is still below `FRACTION_LIMIT`.
pub fn fraction_unsettled(q1: u32) -> (r: bool)
    ensures
        r == f32_lt(q1, FRACTION_LIMIT),
{
    lt_f32(q1, FRACTION_LIMIT)
}

/// Whether the estimated growth `n * ln|w|` of the backward recurrence is
/// safely below overflow, so that no rescaling is needed.
pub fn growth_is_safe(estimate: u32) -> (r: bool)
    ensures
        r == f32_lt(estimate, GROWTH_LIMIT),
{
    lt_f32(estimate, GROWTH_LIMIT)
}

/// Whether a backward-recurrence value `b` exceeds `RESCALE_LIMIT` and must
/// be rescaled to one.
pub fn needs_rescale(b: u32) -> (r: bool)
    ensures
        r == f32_lt(RESCALE_LIMIT, b),
{
    lt_f32(RESCALE_LIMIT, b)
}

/// Whether the backward recurrence is normalized against `J0` (rather than
/// `J1`): `|j0| >= |j1|`, false when either is a NaN.
pub fn normalize_by_order_zero(j0: u32, j1: u32) -> (r: bool)
    ensures
        r == f32_le(magnitude(j1), magnitude(j0)),
{
    le_f32(fabsf(j1), fabsf(j0))
}

/// Applies the sign decided at the start to the magnitude `b`.
pub fn with_sign(b: u32, negative: bool) -> (r: u32)
    ensures
        r == if negative { negated(b) } else { b },
{
    if negative {
        negf(b)
    } else {
        b
    }
}

} // verus!
