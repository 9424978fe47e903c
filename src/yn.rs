//! Decisions of the order-n evaluator of the second kind, `Y(n, x)`.
//!
//! `Y` is defined for `x >= 0` only. Orders 0 and ±1 go to the base
//! primitives; any other order runs the forward recurrence from `Y0(x)` and
//! `Y1(x)` for `|n| - 1` steps, stopping early once the value has reached
//! negative infinity.
use crate::ieee::{fabsf, is_nan, is_zero, sign_bit, F32_INFINITY, F32_NEG_INFINITY, F32_SIGN};
use crate::order::{reduce_order, reduced_order};
use vstd::prelude::*;

verus! {

/// What `Y(n, x)` is made of.
#[derive(PartialEq, Eq, Structural, Clone, Copy, Debug)]
pub enum YnStart {
    /// `x` is a NaN, and is the result itself.
    Unchanged,
    /// `x` is below zero, where `Y` is undefined: the result is a NaN.
    Undefined,
    /// `x` is positive infinity: the result is zero.
    Vanishing,
    /// The result is `Y0(x)`.
    OrderZero,
    /// The result is `Y1(x)`, negated when `negative` holds.
    OrderOne { negative: bool },
    /// The result is the forward recurrence from `Y0(x)` and `Y1(x)` over
    /// `nm1` steps, negated when `negative` holds.
    Forward { nm1: u32, negative: bool },
}

/// `Y(-n, x) = (-1)^n Y(n, x)`: only a negative odd order is negated.
pub open spec fn yn_negative(n: i32) -> bool {
    n < 0 && n % 2 != 0
}

/// The plan for `Y(n, x)`.
pub open spec fn yn_plan(n: i32, x: u32) -> YnStart {
    if is_nan(x) {
        YnStart::Unchanged
    } else if sign_bit(x) && !is_zero(x) {
        YnStart::Undefined
    } else if x == F32_INFINITY {
        YnStart::Vanishing
    } else if n == 0 {
        YnStart::OrderZero
    } else if n == 1 || n == -1 {
        YnStart::OrderOne { negative: yn_negative(n) }
    } else {
        YnStart::Forward { nm1: reduced_order(n) as u32, negative: yn_negative(n) }
    }
}

/// Classifies the order `n` and the binary32 argument `x` of `Y(n, x)`.
pub fn yn_start(n: i32, x: u32) -> (r: YnStart)
    ensures
        r == yn_plan(n, x),
{
    let ax = fabsf(x);
    if ax > F32_INFINITY {
        return YnStart::Unchanged;
    }
    if x >= F32_SIGN && ax != 0 {
        return YnStart::Undefined;
    }
    if x == F32_INFINITY {
        return YnStart::Vanishing;
    }
    if n == 0 {
        return YnStart::OrderZero;
    }
    let nm1 = reduce_order(n);
    let negative = n < 0 && nm1 % 2 == 0;
    if nm1 == 0 {
        YnStart::OrderOne { negative }
    } else {
        YnStart::Forward { nm1, negative }
    }
}

/// Whether the forward recurrence takes step `done + 1` of `nm1`: steps
/// remain and the value `b` is not negative infinity, from which further
/// steps would only make NaNs.
pub fn yn_continues(done: u32, nm1: u32, b: u32) -> (r: bool)
    ensures
        r == (done < nm1 && b != F32_NEG_INFINITY),
{
    done < nm1 && b != F32_NEG_INFINITY
}

} // verus!
