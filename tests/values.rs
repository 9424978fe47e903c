//! Evaluates both kinds in binary32 arithmetic, the decisions taken by the
//! library, with libm's order-0 and order-1 primitives.
use besself::ieee::fabsf;
use besself::jn::{
    fraction_unsettled, growth_is_safe, jn_start, needs_rescale, normalize_by_order_zero,
    with_sign, JnStart, Strategy,
};
use besself::yn::{yn_continues, yn_start, YnStart};

fn signed(b: f32, negative: bool) -> f32 {
    f32::from_bits(with_sign(b.to_bits(), negative))
}

fn forward(nm1: u32, x: f32) -> f32 {
    let mut a = libm::j0f(x);
    let mut b = libm::j1f(x);
    for i in 1..=nm1 {
        let temp = b;
        b = b * (2.0 * (i as f32) / x) - a;
        a = temp;
    }
    b
}

fn series(steps: u32, x: f32) -> f32 {
    let half = 0.5 * x;
    let mut b = half;
    let mut a: f32 = 1.0;
    for i in 2..=steps + 1 {
        a *= i as f32;
        b *= half;
    }
    b / a
}

fn backward(nm1: u32, x: f32) -> f32 {
    let nf = (nm1 as f32) + 1.0;
    let w = 2.0 * nf / x;
    let h = 2.0 / x;
    let mut z = w + h;
    let mut q0 = w;
    let mut q1 = w * z - 1.0;
    let mut k: u32 = 1;
    while fraction_unsettled(q1.to_bits()) {
        k += 1;
        z += h;
        let tmp = z * q1 - q0;
        q0 = q1;
        q1 = tmp;
    }
    let mut t: f32 = 0.0;
    for i in (0..=k).rev() {
        t = 1.0 / (2.0 * ((i as f32) + nf) / x - t);
    }
    let mut a = t;
    let mut b: f32 = 1.0;
    let growth = nf * libm::logf(f32::from_bits(fabsf(w.to_bits())));
    let scaled = !growth_is_safe(growth.to_bits());
    for i in (1..=nm1).rev() {
        let temp = b;
        b = 2.0 * (i as f32) * b / x - a;
        a = temp;
        if scaled && needs_rescale(b.to_bits()) {
            a /= b;
            t /= b;
            b = 1.0;
        }
    }
    let j0 = libm::j0f(x);
    let j1 = libm::j1f(x);
    if normalize_by_order_zero(j0.to_bits(), j1.to_bits()) {
        t * j0 / b
    } else {
        t * j1 / a
    }
}

fn bessel_j(n: i32, x: f32) -> f32 {
    match jn_start(n, x.to_bits()) {
        JnStart::Unchanged => x,
        JnStart::OrderZero { x } => libm::j0f(f32::from_bits(x)),
        JnStart::OrderOne { x } => libm::j1f(f32::from_bits(x)),
        JnStart::Magnitude { nm1, ax, negative, strategy } => {
            let x = f32::from_bits(ax);
            let b = match strategy {
                Strategy::Vanishing => 0.0,
                Strategy::Forward => forward(nm1, x),
                Strategy::Series { steps } => series(steps, x),
                Strategy::Backward => backward(nm1, x),
            };
            signed(b, negative)
        }
    }
}

fn bessel_y(n: i32, x: f32) -> f32 {
    match yn_start(n, x.to_bits()) {
        YnStart::Unchanged => x,
        YnStart::Undefined => f32::NAN,
        YnStart::Vanishing => 0.0,
        YnStart::OrderZero => libm::y0f(x),
        YnStart::OrderOne { negative } => signed(libm::y1f(x), negative),
        YnStart::Forward { nm1, negative } => {
            let mut a = libm::y0f(x);
            let mut b = libm::y1f(x);
            let mut i: u32 = 0;
            while yn_continues(i, nm1, b.to_bits()) {
                i += 1;
                let temp = b;
                b = (2.0 * (i as f32) / x) * b - a;
                a = temp;
            }
            signed(b, negative)
        }
    }
}

#[test]
fn jn_five_at_three() {
    // J5(3) = 0.0430284348...
    let r = bessel_j(5, 3.0);
    assert!((r - 0.043_028_435).abs() < 1e-6, "{}", r);
}

#[test]
fn jn_high_order_tiny_argument_underflows() {
    let r = bessel_j(300, 0.0001);
    assert!(!r.is_nan());
    assert_eq!(r, 0.0);
}

#[test]
fn jn_series_value() {
    // (x/2)^3 / 3! at x = 2^-21.
    let x = f32::from_bits(0x3500_0000);
    let expected = (0.5 * x) * (0.5 * x) * (0.5 * x) / 6.0;
    assert_eq!(bessel_j(3, x), expected);
    assert!(bessel_j(40, x) >= 0.0);
}

#[test]
fn yn_two_at_five() {
    assert!((bessel_y(2, 5.0) - 0.3676628).abs() < 1e-6);
}

#[test]
fn low_orders_are_the_primitives() {
    for x in [0.0f32, -0.0, 0.3, -2.5, 7.0, 1.0e5, -1.0e-30, 1.0e30].iter().copied() {
        assert_eq!(bessel_j(0, x).to_bits(), libm::j0f(x).to_bits());
        assert_eq!(bessel_j(1, x).to_bits(), libm::j1f(x).to_bits());
    }
    for x in [0.0f32, 0.3, 2.5, 7.0, 1.0e5, 1.0e30].iter().copied() {
        assert_eq!(bessel_y(0, x).to_bits(), libm::y0f(x).to_bits());
        assert_eq!(bessel_y(1, x).to_bits(), libm::y1f(x).to_bits());
    }
}

#[test]
fn reflection_of_order() {
    for n in 1..12 {
        for x in [0.2f32, -1.5, 3.0, 8.0, -25.0, 1.0e-7].iter().copied() {
            let pos = bessel_j(n, x);
            let neg = bessel_j(-n, x);
            let expected = if n % 2 == 1 { -pos } else { pos };
            assert!(
                (neg - expected).abs() <= 1e-5 * expected.abs().max(1e-30),
                "n {} x {}: {} vs {}",
                n,
                x,
                neg,
                expected
            );
        }
    }
}

#[test]
fn nan_propagates() {
    for n in [0, 1, -1, 2, -9, 300].iter().copied() {
        assert!(bessel_j(n, f32::NAN).is_nan());
        assert!(bessel_y(n, f32::NAN).is_nan());
    }
}

#[test]
fn yn_rejects_negative_arguments() {
    for n in [0, 1, -1, 2, -9, 300].iter().copied() {
        for x in [-1.0f32, -1.0e-30, f32::NEG_INFINITY].iter().copied() {
            assert!(bessel_y(n, x).is_nan());
        }
    }
}

#[test]
fn infinity_gives_zero() {
    for n in [0, 1, -1, 2, -9, 300].iter().copied() {
        assert_eq!(bessel_y(n, f32::INFINITY), 0.0);
    }
    for n in [1, -1, 2, -2, 3, -9, 300].iter().copied() {
        assert_eq!(bessel_j(n, f32::INFINITY), 0.0);
    }
}

#[test]
fn jn_at_zero() {
    assert_eq!(bessel_j(0, 0.0), 1.0);
    for n in [1, -1, 2, -2, 3, 300].iter().copied() {
        assert_eq!(bessel_j(n, 0.0), 0.0);
    }
}

#[test]
fn recurrence_identity() {
    for n in 2..8 {
        for x in [9.0f32, 12.5, 20.0].iter().copied() {
            let lhs = (2.0 * n as f32 / x) * bessel_j(n, x);
            let rhs = bessel_j(n - 1, x) + bessel_j(n + 1, x);
            assert!((lhs - rhs).abs() <= 1e-5, "n {} x {}: {} vs {}", n, x, lhs, rhs);
        }
    }
}

#[test]
fn backward_values() {
    assert!((bessel_j(10, 1.0) - 2.630_615_1e-10).abs() < 1e-15);
    assert!((bessel_j(3, 1.0) - 0.019_563_354).abs() < 1e-7);
    assert!((bessel_j(-3, 1.0) + 0.019_563_354).abs() < 1e-7);
}
