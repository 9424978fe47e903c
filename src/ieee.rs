//! IEEE-754 binary32 and binary64 values, seen through their bit patterns.
use vstd::arithmetic::div_mod::lemma_div_denominator;
use vstd::arithmetic::power2::{lemma2_to64, lemma_pow2_strictly_increases, lemma_pow2_unfold, pow2};
use vstd::prelude::*;

verus! {

/// The sign bit of a binary32 pattern.
pub const F32_SIGN: u32 = 0x8000_0000;

/// The pattern of positive infinity; a magnitude above it is a NaN.
pub const F32_INFINITY: u32 = 0x7f80_0000;

/// The pattern of negative infinity.
pub const F32_NEG_INFINITY: u32 = 0xff80_0000;

/// Whether the sign bit of `x` is set.
pub open spec fn sign_bit(x: u32) -> bool {
    x >= F32_SIGN
}

/// The pattern of `|x|`: `x` with its sign bit cleared.
pub open spec fn magnitude(x: u32) -> u32 {
    (x % F32_SIGN) as u32
}

pub open spec fn is_nan(x: u32) -> bool {
    magnitude(x) > F32_INFINITY
}

pub open spec fn is_infinite(x: u32) -> bool {
    magnitude(x) == F32_INFINITY
}

/// `+0.0` or `-0.0`.
pub open spec fn is_zero(x: u32) -> bool {
    magnitude(x) == 0
}

/// The pattern of `-x`: `x` with its sign bit flipped.
pub open spec fn negated(x: u32) -> u32 {
    if sign_bit(x) {
        (x - F32_SIGN) as u32
    } else {
        (x + F32_SIGN) as u32
    }
}

/// Absolute value of a binary32 value, as a bit pattern: the sign bit is
/// cleared and nothing else changes (a NaN stays a NaN).
pub fn fabsf(x: u32) -> (r: u32)
    ensures
        r == magnitude(x),
{
    assert(x & 0x7fff_ffff == x % 0x8000_0000) by (bit_vector);
    x & 0x7fff_ffff
}

/// Position of `x` on the real line: sign and magnitude, with both zeros
/// at the origin. Binary32 values that are not NaN order as their keys do.
pub open spec fn order_key(x: u32) -> int {
    if sign_bit(x) {
        -(magnitude(x) as int)
    } else {
        magnitude(x) as int
    }
}

/// IEEE `a < b`: false whenever either side is a NaN.
pub open spec fn f32_lt(a: u32, b: u32) -> bool {
    !is_nan(a) && !is_nan(b) && order_key(a) < order_key(b)
}

/// IEEE `a <= b`: false whenever either side is a NaN.
pub open spec fn f32_le(a: u32, b: u32) -> bool {
    !is_nan(a) && !is_nan(b) && order_key(a) <= order_key(b)
}

/// The binary64 pattern of `|x|`: `x` with its sign bit cleared.
pub open spec fn magnitude64(x: u64) -> u64 {
    (x % 0x8000_0000_0000_0000) as u64
}

/// Absolute value of a binary64 value, as a bit pattern: the sign bit is
/// cleared and nothing else changes (a NaN stays a NaN).
pub fn fabs(x: u64) -> (r: u64)
    ensures
        r == magnitude64(x),
{
    assert(x & 0x7fff_ffff_ffff_ffff == x % 0x8000_0000_0000_0000) by (bit_vector);
    x & 0x7fff_ffff_ffff_ffff
}

/// Whether the binary32 value `x` is a NaN.
pub fn is_nan_f32(x: u32) -> (r: bool)
    ensures
        r == is_nan(x),
{
    fabsf(x) > F32_INFINITY
}

/// Signed position of `x` on the real line (see `order_key`).
fn key_of(x: u32) -> (r: i64)
    ensures
        r == order_key(x),
{
    let m = fabsf(x);
    if x >= F32_SIGN {
        -(m as i64)
    } else {
        m as i64
    }
}

/// The comparison `a < b` of two binary32 values.
pub fn lt_f32(a: u32, b: u32) -> (r: bool)
    ensures
        r == f32_lt(a, b),
{
    if is_nan_f32(a) || is_nan_f32(b) {
        false
    } else {
        key_of(a) < key_of(b)
    }
}

/// The comparison `a <= b` of two binary32 values.
pub fn le_f32(a: u32, b: u32) -> (r: bool)
    ensures
        r == f32_le(a, b),
{
    if is_nan_f32(a) || is_nan_f32(b) {
        false
    } else {
        key_of(a) <= key_of(b)
    }
}

/// The binary32 pattern of `-x`.
pub fn negf(x: u32) -> (r: u32)
    ensures
        r == negated(x),
{
    assert(x < 0x8000_0000 ==> x ^ 0x8000_0000 == x + 0x8000_0000) by (bit_vector);
    assert(x >= 0x8000_0000 ==> x ^ 0x8000_0000 == x - 0x8000_0000) by (bit_vector);
    x ^ F32_SIGN
}

/// How many low binary digits of `v` do not fit in a 24-bit significand.
pub open spec fn excess_digits(v: nat) -> nat
    decreases v,
{
    if v < 0x100_0000 {
        0
    } else {
        1 + excess_digits(v / 2)
    }
}

/// `v` rounded to a 24-bit significand, to nearest with ties to even, as a
/// pair `(sig, e)` whose value is `sig * 2^e`.
pub open spec fn rounded(v: nat) -> (nat, nat) {
    let s = excess_digits(v);
    let p = pow2(s);
    let q = v / p;
    let r = v % p;
    let m = if 2 * r > p || (2 * r == p && q % 2 == 1) {
        q + 1
    } else {
        q
    };
    if m == 0x100_0000 {
        (0x80_0000nat, s + 1)
    } else {
        (m, s)
    }
}

/// The binary32 pattern of `sig * 2^e`, for `0 < sig < 2^24`: the
/// significand is shifted up until its leading digit is the implicit one,
/// and the biased exponent is `e + 150`.
pub open spec fn encoded(sig: nat, e: int) -> u32
    decreases 0x100_0000 - sig,
{
    if 0 < sig < 0x80_0000 {
        encoded(2 * sig, e - 1)
    } else {
        ((e + 150) * 0x80_0000 + sig - 0x80_0000) as u32
    }
}

/// The binary32 pattern of the integer `v` (the value of `v as f32`).
pub open spec fn f32_of_nat(v: nat) -> u32 {
    if v == 0 {
        0
    } else {
        encoded(rounded(v).0, rounded(v).1 as int)
    }
}

/// Converts an unsigned integer to the nearest binary32 value, ties to even.
pub fn f32_from_u32(v: u32) -> (r: u32)
    ensures
        r == f32_of_nat(v as nat),
{
    if v == 0 {
        return 0;
    }
    let mut t: u32 = v;
    let mut p: u32 = 1;
    let mut s: u32 = 0;
    proof {
        lemma2_to64();
    }
    while t >= 0x100_0000
        invariant
            t == v as nat / p as nat,
            p == pow2(s as nat),
            1 <= p <= 256,
            s <= 8,
            t >= 1,
            p * 0x100_0000 <= v || t < 0x100_0000,
            excess_digits(v as nat) == s + excess_digits(t as nat),
        decreases t,
    {
        proof {
            lemma2_to64();
            lemma_div_denominator(v as int, p as int, 2);
            lemma_pow2_unfold(s as nat + 1);
            assert(v as nat >= t as nat * p as nat) by (nonlinear_arith)
                requires
                    t == v as nat / p as nat,
                    p >= 1,
            ;
            assert(p < 256) by (nonlinear_arith)
                requires
                    v as nat >= t as nat * p as nat,
                    t >= 0x100_0000,
                    v < 0x1_0000_0000,
            ;
            if s > 8 {
                lemma_pow2_strictly_increases(8, s as nat);
            }
            if s < 7 {
                lemma_pow2_strictly_increases(s as nat, 7);
            }
            assert(p <= 128);
        }
        t = t / 2;
        p = p * 2;
        s = s + 1;
        proof {
            if t >= 0x100_0000 {
                assert(v as nat >= t as nat * p as nat) by (nonlinear_arith)
                    requires
                        t == v as nat / p as nat,
                        p >= 1,
                ;
                assert(p * 0x100_0000 <= v) by (nonlinear_arith)
                    requires
                        v as nat >= t as nat * p as nat,
                        t >= 0x100_0000,
                ;
            }
        }
    }
    let r: u32 = v % p;
    let up: bool = (r as u64) * 2 > p as u64 || ((r as u64) * 2 == p as u64 && t % 2 == 1);
    let mut m: u32 = if up { t + 1 } else { t };
    let mut e: i32 = s as i32;
    if m == 0x100_0000 {
        m = 0x80_0000;
        e = e + 1;
    }
    let ghost m0: nat = m as nat;
    let ghost e0: int = e as int;
    assert(encoded(m0, e0) == f32_of_nat(v as nat));
    let ghost mut k: nat = 0;
    proof {
        lemma2_to64();
    }
    while m < 0x80_0000
        invariant
            0 < m < 0x100_0000,
            0 <= e0 <= 9,
            e == e0 - k,
            m >= pow2(k),
            k <= 23,
            encoded(m as nat, e as int) == encoded(m0, e0),
        decreases 0x100_0000 - m,
    {
        proof {
            if k >= 23 {
                if k > 23 {
                    lemma_pow2_strictly_increases(23, k);
                }
                lemma2_to64();
            }
            lemma_pow2_unfold(k + 1);
        }
        m = m * 2;
        e = e - 1;
        proof {
            k = k + 1;
        }
    }
    (((e + 150) as u32) * 0x80_0000 + m) - 0x80_0000
}

} // verus!
