//! Properties of the two evaluators, stated over their plans.
use crate::ieee::{is_infinite, is_nan, is_zero, magnitude, negated, sign_bit, F32_INFINITY};
use crate::jn::{jn_plan, JnStart, Strategy};
use crate::order::reduced_order;
use crate::yn::{yn_plan, YnStart};
use vstd::prelude::*;

verus! {

/// Orders 0 and 1 of the first kind are the base primitives themselves,
/// applied to the argument unchanged, for every argument but a NaN.
pub proof fn lemma_jn_low_orders(x: u32)
    requires
        !is_nan(x),
    ensures
        jn_plan(0, x) == (JnStart::OrderZero { x }),
        jn_plan(1, x) == (JnStart::OrderOne { x }),
{
}

/// Orders 0 and 1 of the second kind are the base primitives themselves,
/// unnegated, for every finite argument `x >= 0` (either zero included).
pub proof fn lemma_yn_low_orders(x: u32)
    requires
        !is_nan(x),
        !is_infinite(x),
        !sign_bit(x) || is_zero(x),
    ensures
        yn_plan(0, x) == YnStart::OrderZero,
        yn_plan(1, x) == (YnStart::OrderOne { negative: false }),
{
}

/// `J(-n, x) = (-1)^n J(n, x)`. At `|n| = 1` the negative order hands `-x`
/// to the primitive. Above it both orders compute the same magnitude by the
/// same strategy, and their signs differ exactly when `n` is odd.
pub proof fn lemma_jn_reflection(n: i32, x: u32)
    requires
        n > 0,
        !is_nan(x),
    ensures
        n == 1 ==> jn_plan(-n as i32, x) == (JnStart::OrderOne { x: negated(x) }),
        n >= 2 ==> {
            let pos = jn_plan(n, x);
            let neg = jn_plan(-n as i32, x);
            &&& pos is Magnitude
            &&& neg is Magnitude
            &&& neg->Magnitude_nm1 == pos->Magnitude_nm1
            &&& neg->Magnitude_ax == pos->Magnitude_ax
            &&& neg->Magnitude_strategy == pos->Magnitude_strategy
            &&& (neg->Magnitude_negative != pos->Magnitude_negative) == (n % 2 == 1)
        },
{
    assert(reduced_order(-n as i32) == reduced_order(n));
}

/// `J(n, -x) = (-1)^n J(n, x)` for `|n| >= 2`: negating the argument keeps
/// the magnitude and its strategy, and flips the sign exactly for odd `n`.
pub proof fn lemma_jn_argument_parity(n: i32, x: u32)
    requires
        n >= 2 || n <= -2,
        !is_nan(x),
    ensures
        ({
            let pos = jn_plan(n, x);
            let neg = jn_plan(n, negated(x));
            &&& pos is Magnitude
            &&& neg is Magnitude
            &&& neg->Magnitude_nm1 == pos->Magnitude_nm1
            &&& neg->Magnitude_ax == pos->Magnitude_ax
            &&& neg->Magnitude_strategy == pos->Magnitude_strategy
            &&& (neg->Magnitude_negative != pos->Magnitude_negative) == (n % 2 != 0)
        }),
{
    assert(magnitude(negated(x)) == magnitude(x));
}

/// A NaN argument is the result of both kinds, for every order.
pub proof fn lemma_nan_propagates(n: i32, x: u32)
    requires
        is_nan(x),
    ensures
        jn_plan(n, x) == JnStart::Unchanged,
        yn_plan(n, x) == YnStart::Unchanged,
{
}

/// The second kind is undefined below zero, for every order; `-0.0` is not
/// below zero.
pub proof fn lemma_yn_rejects_negative(n: i32, x: u32)
    requires
        !is_nan(x),
        sign_bit(x),
        !is_zero(x),
    ensures
        yn_plan(n, x) == YnStart::Undefined,
{
}

/// At positive infinity the second kind is zero for every order, and the
/// first kind is zero for every order `|n| >= 2` (at either infinity).
pub proof fn lemma_infinity_vanishes(n: i32, x: u32)
    requires
        is_infinite(x),
    ensures
        yn_plan(n, F32_INFINITY) == YnStart::Vanishing,
        n >= 2 || n <= -2 ==> jn_plan(n, x) is Magnitude
            && jn_plan(n, x)->Magnitude_strategy == Strategy::Vanishing,
{
    assert(magnitude(x) == F32_INFINITY);
}

} // verus!
