//! How far the fixed-point power series of sine, cosine and arctangent are
//! from the Taylor polynomials that they evaluate.
//!
//! The polynomials are taken exactly, as fractions of integers, in the same
//! nested form as the fixed-point series: each step turns a value `a` into
//! `1 - x^2 * a / k`.
use vstd::prelude::*;
use crate::fixed::{magnitude, SCALE};
use crate::trig::{
    arctan2, arctan_quadrant, arctan_series, arctan_step, arctan_unit, coarse, cos_series, cos_turn,
    cosine, lemma_arctan_step_bound, lemma_series_bound, power_step, sin_series, sin_turn, sine,
    within_turn, FINE, QUARTER_TURN, SERIES_REACH,
};

verus! {

/// One exact step on the fraction `n / d` for the angle `t / 10^9`: the
/// numerator and the denominator of `1 - (t / 10^9)^2 * (n / d) / k`.
pub open spec fn exact_step(n: int, d: int, t: int, k: int) -> (int, int) {
    (d * (FINE * FINE * k) - t * t * n, d * (FINE * FINE * k))
}

/// Whether the fixed-point value `acc` is within `e` units of the ninth
/// decimal place of the fraction `n / d`.
pub open spec fn near(acc: int, n: int, d: int, e: int) -> bool {
    d > 0 && -e * d <= acc * d - FINE * n <= e * d
}

/// What a fixed-point step takes from one: `(u * acc / 10^9) / k`, where `u`
/// is the square of the angle.
pub open spec fn step_cut(t: int, acc: int, k: int) -> int {
    ((t * t / (FINE as int)) * acc / (FINE as int)) / k
}

/// The heart of the matter. If `acc` is within `e` units of `n / d`, then
/// one less the cut of the fixed-point step is within `e2` units of the
/// exact step on `n / d`, provided `e2` leaves room for the error that comes
/// in, scaled by the square of the angle over `k`, and for one unit and a
/// `k`-th that the two roundings of the step lose.
pub proof fn lemma_step_gap(acc: int, n: int, d: int, t: int, k: int, e: int, e2: int)
    requires
        0 <= t <= QUARTER_TURN,
        1 <= k,
        0 <= acc <= FINE,
        0 <= n <= d,
        0 <= e,
        near(acc, n, d, e),
        e * 2_467_401_100 + FINE * (k + 1) <= e2 * (FINE * k),
    ensures
        exact_step(n, d, t, k).1 > 0,
        -e2 * exact_step(n, d, t, k).1 <= (FINE - step_cut(t, acc, k)) * exact_step(n, d, t, k).1
            - FINE * exact_step(n, d, t, k).0 <= e2 * exact_step(n, d, t, k).1,
        0 <= step_cut(t, acc, k),
        k * step_cut(t, acc, k) <= 2_467_401_100,
        exact_step(n, d, t, k).0 <= exact_step(n, d, t, k).1,
        k >= 3 ==> 0 <= exact_step(n, d, t, k).0,
{
    let f = FINE as int;
    let tt = t * t;
    let u = tt / f;
    let rho = tt - u * f;
    assert(0 <= tt <= 1_570_796_327 * 1_570_796_327) by (nonlinear_arith)
        requires
            0 <= t <= 1_570_796_327,
            tt == t * t,
    ;
    assert(0 <= u <= 2_467_401_100);
    assert(0 <= rho < f);
    let y = u * acc;
    let uf = u * f;
    assert(0 <= y <= uf) by (nonlinear_arith)
        requires
            0 <= u,
            0 <= acc <= f,
            y == u * acc,
            uf == u * f,
    ;
    let q1 = y / f;
    let w = q1 / k;
    assert(w == step_cut(t, acc, k));
    assert(k * w <= q1 < k * w + k) by (nonlinear_arith)
        requires
            w == q1 / k,
            k > 0,
    ;
    let fk = f * k;
    let fkw = fk * w;
    assert(fkw <= y < fkw + fk) by (nonlinear_arith)
        requires
            k * w <= q1 < k * w + k,
            f * q1 <= y < f * q1 + f,
            fk == f * k,
            fkw == fk * w,
            f > 0,
    ;
    let sigma = y - fkw;
    assert(0 <= w && k * w <= u) by (nonlinear_arith)
        requires
            k * w <= q1,
            f * q1 <= y,
            y <= uf,
            uf == u * f,
            k >= 1,
            f > 0,
            0 <= q1,
            w == q1 / k,
    ;
    let n2 = exact_step(n, d, t, k).0;
    let d2 = exact_step(n, d, t, k).1;
    let dfk = d * fk;
    assert(d2 == f * dfk) by (nonlinear_arith)
        requires
            d2 == d * (f * f * k),
            fk == f * k,
            dfk == d * fk,
    ;
    // The distance, in units of `f`, between the fixed-point step and the
    // exact one.
    let slack = f * n - d * acc;
    let gap = u * slack + rho * n + d * sigma;
    let ttn = tt * n;
    let wdfk = w * dfk;
    assert((f - w) * d2 - f * n2 == f * ttn - f * wdfk) by (nonlinear_arith)
        requires
            n2 == d2 - ttn,
            d2 == f * dfk,
            wdfk == w * dfk,
    ;
    assert(wdfk == d * y - d * sigma) by (nonlinear_arith)
        requires
            wdfk == w * dfk,
            dfk == d * fk,
            fkw == fk * w,
            sigma == y - fkw,
    ;
    assert(ttn == u * (f * n) + rho * n) by (nonlinear_arith)
        requires
            ttn == tt * n,
            tt == u * f + rho,
    ;
    assert(d * y == u * (d * acc)) by (nonlinear_arith)
        requires
            y == u * acc,
    ;
    assert(u * slack == u * (f * n) - u * (d * acc)) by (nonlinear_arith)
        requires
            slack == f * n - d * acc,
    ;
    assert(gap == ttn - wdfk);
    assert(f * gap == f * ttn - f * wdfk) by (nonlinear_arith)
        requires
            gap == ttn - wdfk,
    ;
    let ed = e * d;
    assert((-e) * d == -ed && acc * d == d * acc) by (nonlinear_arith)
        requires
            ed == e * d,
    ;
    assert(-ed <= slack <= ed);
    let edu = ed * u;
    assert(-edu <= u * slack <= edu) by (nonlinear_arith)
        requires
            -ed <= slack <= ed,
            0 <= u,
            edu == ed * u,
    ;
    let fd = f * d;
    assert(0 <= rho * n <= fd) by (nonlinear_arith)
        requires
            0 <= rho < f,
            0 <= n <= d,
            fd == f * d,
    ;
    assert(0 <= d * sigma <= dfk) by (nonlinear_arith)
        requires
            0 <= sigma < fk,
            0 < d,
            dfk == d * fk,
    ;
    let room = e2 * dfk;
    assert(edu + fd + dfk <= room) by (nonlinear_arith)
        requires
            0 <= u <= 2_467_401_100,
            0 <= e,
            e * 2_467_401_100 + f * (k + 1) <= e2 * (f * k),
            fk == f * k,
            d > 0,
            ed == e * d,
            edu == ed * u,
            fd == f * d,
            dfk == d * fk,
            room == e2 * dfk,
    ;
    assert(-room <= gap <= room);
    assert(-e2 * d2 <= f * gap <= e2 * d2) by (nonlinear_arith)
        requires
            -room <= gap <= room,
            room == e2 * dfk,
            d2 == f * dfk,
            f > 0,
    ;
    assert(d2 > 0) by (nonlinear_arith)
        requires
            d2 == f * dfk,
            dfk == d * fk,
            d > 0,
            f > 0,
            fk == f * k,
            k >= 1,
    ;
    assert(0 <= ttn) by (nonlinear_arith)
        requires
            0 <= tt,
            0 <= n,
            ttn == tt * n,
    ;
    if k >= 3 {
        assert(ttn <= d * (f * f * k)) by (nonlinear_arith)
            requires
                0 <= tt <= 1_570_796_327 * 1_570_796_327,
                0 <= n <= d,
                f == 1_000_000_000,
                k >= 3,
                ttn == tt * n,
        ;
    }
}

/// A fixed-point step with `k` of six or more on a value within two units of
/// a fraction between zero and one gives a value within two units of the
/// exact step on that fraction, which again lies between zero and one.
pub proof fn lemma_step_error(acc: int, n: int, d: int, t: int, k: int)
    requires
        0 <= t <= QUARTER_TURN,
        6 <= k,
        0 <= acc <= FINE,
        0 <= n <= d,
        near(acc, n, d, 2),
    ensures
        near(
            power_step(t * t / (FINE as int), acc, k),
            exact_step(n, d, t, k).0,
            exact_step(n, d, t, k).1,
            2,
        ),
        0 <= exact_step(n, d, t, k).0 <= exact_step(n, d, t, k).1,
        0 <= power_step(t * t / (FINE as int), acc, k) <= FINE,
{
    assert(2 * 2_467_401_100 + FINE * (k + 1) <= 2 * (FINE * k)) by (nonlinear_arith)
        requires
            6 <= k,
    ;
    lemma_step_gap(acc, n, d, t, k, 2, 2);
    let cut = step_cut(t, acc, k);
    assert(cut <= 411_233_517) by (nonlinear_arith)
        requires
            0 <= cut,
            k * cut <= 2_467_401_100,
            6 <= k,
    ;
    assert(power_step(t * t / (FINE as int), acc, k) == FINE - cut);
}

/// Numerator and denominator of the sine polynomial
/// `x - x^3/3! + x^5/5! - ... + x^13/13!` at `x = t / 10^9`.
pub open spec fn sin_taylor(t: int) -> (int, int) {
    let a1 = exact_step(1, 1, t, 156);
    let a2 = exact_step(a1.0, a1.1, t, 110);
    let a3 = exact_step(a2.0, a2.1, t, 72);
    let a4 = exact_step(a3.0, a3.1, t, 42);
    let a5 = exact_step(a4.0, a4.1, t, 20);
    let a6 = exact_step(a5.0, a5.1, t, 6);
    (t * a6.0, FINE * a6.1)
}

/// Numerator and denominator of the cosine polynomial
/// `1 - x^2/2! + x^4/4! - ... - x^14/14!` at `x = t / 10^9`.
pub open spec fn cos_taylor(t: int) -> (int, int) {
    let a1 = exact_step(1, 1, t, 182);
    let a2 = exact_step(a1.0, a1.1, t, 132);
    let a3 = exact_step(a2.0, a2.1, t, 90);
    let a4 = exact_step(a3.0, a3.1, t, 56);
    let a5 = exact_step(a4.0, a4.1, t, 30);
    let a6 = exact_step(a5.0, a5.1, t, 12);
    exact_step(a6.0, a6.1, t, 2)
}

/// On the first quadrant the fixed-point sine series is within five units of
/// the ninth decimal place of its polynomial, unless it was cut off at one;
/// and it is never more than five units above the polynomial.
pub proof fn lemma_sin_series_error(t: int)
    requires
        0 <= t <= QUARTER_TURN,
    ensures
        sin_taylor(t).1 > 0,
        sin_series(t) * sin_taylor(t).1 <= FINE * sin_taylor(t).0 + 5 * sin_taylor(t).1,
        sin_series(t) == FINE || sin_series(t) * sin_taylor(t).1 >= FINE * sin_taylor(t).0 - 5
            * sin_taylor(t).1,
{
    let f = FINE as int;
    let u = t * t / f;
    let b1 = power_step(u, f, 156);
    let a1 = exact_step(1, 1, t, 156);
    lemma_step_error(f, 1, 1, t, 156);
    let b2 = power_step(u, b1, 110);
    let a2 = exact_step(a1.0, a1.1, t, 110);
    lemma_step_error(b1, a1.0, a1.1, t, 110);
    let b3 = power_step(u, b2, 72);
    let a3 = exact_step(a2.0, a2.1, t, 72);
    lemma_step_error(b2, a2.0, a2.1, t, 72);
    let b4 = power_step(u, b3, 42);
    let a4 = exact_step(a3.0, a3.1, t, 42);
    lemma_step_error(b3, a3.0, a3.1, t, 42);
    let b5 = power_step(u, b4, 20);
    let a5 = exact_step(a4.0, a4.1, t, 20);
    lemma_step_error(b4, a4.0, a4.1, t, 20);
    let b6 = power_step(u, b5, 6);
    let a6 = exact_step(a5.0, a5.1, t, 6);
    lemma_step_error(b5, a5.0, a5.1, t, 6);
    // The last product with the angle.
    let n = a6.0;
    let d = a6.1;
    let tb = t * b6;
    let s0 = tb / f;
    let tau = tb - s0 * f;
    assert(0 <= tb) by (nonlinear_arith)
        requires
            0 <= t,
            0 <= b6,
            tb == t * b6,
    ;
    assert(0 <= tau < f);
    let slack = b6 * d - f * n;
    assert(-2 * d <= slack <= 2 * d);
    let td = t * d;
    assert(-2 * td <= t * slack <= 2 * td) by (nonlinear_arith)
        requires
            -2 * d <= slack <= 2 * d,
            0 <= t,
            td == t * d,
    ;
    let fd = f * d;
    assert(0 <= tau * d <= fd) by (nonlinear_arith)
        requires
            0 <= tau < f,
            0 < d,
            fd == f * d,
    ;
    assert(2 * td <= 4 * fd) by (nonlinear_arith)
        requires
            0 <= t <= 1_570_796_327,
            f == 1_000_000_000,
            0 < d,
            td == t * d,
            fd == f * d,
    ;
    let big_d = sin_taylor(t).1;
    let big_n = sin_taylor(t).0;
    assert(big_d == fd);
    let s0fd = s0 * fd;
    assert(s0fd == tb * d - tau * d) by (nonlinear_arith)
        requires
            s0fd == s0 * fd,
            fd == f * d,
            tau == tb - s0 * f,
    ;
    assert(tb * d == t * (b6 * d)) by (nonlinear_arith)
        requires
            tb == t * b6,
    ;
    assert(f * big_n == t * (f * n)) by (nonlinear_arith)
        requires
            big_n == t * n,
    ;
    assert(t * slack == t * (b6 * d) - t * (f * n)) by (nonlinear_arith)
        requires
            slack == b6 * d - f * n,
    ;
    assert(s0 * big_d - f * big_n == t * slack - tau * d);
    assert(big_d > 0) by (nonlinear_arith)
        requires
            big_d == f * d,
            d > 0,
            f > 0,
    ;
    if s0 > f {
        assert(f * big_d <= s0 * big_d) by (nonlinear_arith)
            requires
                f < s0,
                big_d > 0,
        ;
    }
}

/// On the first quadrant the fixed-point cosine series is within four units
/// of the ninth decimal place of its polynomial, unless it was cut off at
/// zero; and it is never more than four units below the polynomial.
pub proof fn lemma_cos_series_error(t: int)
    requires
        0 <= t <= QUARTER_TURN,
    ensures
        cos_taylor(t).1 > 0,
        cos_series(t) * cos_taylor(t).1 >= FINE * cos_taylor(t).0 - 4 * cos_taylor(t).1,
        cos_series(t) == 0 || cos_series(t) * cos_taylor(t).1 <= FINE * cos_taylor(t).0 + 4
            * cos_taylor(t).1,
{
    let f = FINE as int;
    let u = t * t / f;
    let b1 = power_step(u, f, 182);
    let a1 = exact_step(1, 1, t, 182);
    lemma_step_error(f, 1, 1, t, 182);
    let b2 = power_step(u, b1, 132);
    let a2 = exact_step(a1.0, a1.1, t, 132);
    lemma_step_error(b1, a1.0, a1.1, t, 132);
    let b3 = power_step(u, b2, 90);
    let a3 = exact_step(a2.0, a2.1, t, 90);
    lemma_step_error(b2, a2.0, a2.1, t, 90);
    let b4 = power_step(u, b3, 56);
    let a4 = exact_step(a3.0, a3.1, t, 56);
    lemma_step_error(b3, a3.0, a3.1, t, 56);
    let b5 = power_step(u, b4, 30);
    let a5 = exact_step(a4.0, a4.1, t, 30);
    lemma_step_error(b4, a4.0, a4.1, t, 30);
    let b6 = power_step(u, b5, 12);
    let a6 = exact_step(a5.0, a5.1, t, 12);
    lemma_step_error(b5, a5.0, a5.1, t, 12);
    lemma_step_gap(b6, a6.0, a6.1, t, 2, 2, 4);
    let w = step_cut(t, b6, 2);
    let d2 = cos_taylor(t).1;
    if f - w < 0 {
        assert((f - w) * d2 <= 0 * d2) by (nonlinear_arith)
            requires
                f - w < 0,
                d2 > 0,
        ;
    }
}

/// One exact step of the arctangent polynomial on the fraction `n / d` for
/// the ratio `z / 10^9`: the numerator and the denominator of
/// `1 / k - (z / 10^9)^2 * (n / d)`.
pub open spec fn exact_arctan_step(n: int, d: int, z: int, k: int) -> (int, int) {
    (d * (FINE * FINE) - k * (z * z * n), d * (FINE * FINE * k))
}

/// Numerator and denominator of the arctangent polynomial
/// `x - x^3/3 + x^5/5 - ... - x^15/15` at `x = z / 10^9`.
pub open spec fn arctan_taylor(z: int) -> (int, int) {
    let a1 = exact_arctan_step(1, 15, z, 13);
    let a2 = exact_arctan_step(a1.0, a1.1, z, 11);
    let a3 = exact_arctan_step(a2.0, a2.1, z, 9);
    let a4 = exact_arctan_step(a3.0, a3.1, z, 7);
    let a5 = exact_arctan_step(a4.0, a4.1, z, 5);
    let a6 = exact_arctan_step(a5.0, a5.1, z, 3);
    let a7 = exact_arctan_step(a6.0, a6.1, z, 1);
    (z * a7.0, FINE * a7.1)
}

/// A fixed-point arctangent step on a value within three units of a fraction
/// between zero and `1 / (k + 2)` gives a value within three units of the
/// exact step on that fraction, which lies between zero and `1 / k`.
pub proof fn lemma_arctan_step_error(acc: int, n: int, d: int, z: int, k: int)
    requires
        0 <= z <= SERIES_REACH,
        1 <= k <= 13,
        0 <= acc,
        acc * (k + 2) <= FINE,
        0 <= n,
        n * (k + 2) <= d,
        near(acc, n, d, 3),
    ensures
        near(
            arctan_step(z * z / (FINE as int), acc, k),
            exact_arctan_step(n, d, z, k).0,
            exact_arctan_step(n, d, z, k).1,
            3,
        ),
        0 <= exact_arctan_step(n, d, z, k).0,
        exact_arctan_step(n, d, z, k).0 * k <= exact_arctan_step(n, d, z, k).1,
        0 <= arctan_step(z * z / (FINE as int), acc, k),
        arctan_step(z * z / (FINE as int), acc, k) * k <= FINE,
{
    let f = FINE as int;
    let kp = k + 2;
    let zz = z * z;
    let w = zz / f;
    let rho = zz - w * f;
    assert(0 <= zz <= 414_213_562 * 414_213_562) by (nonlinear_arith)
        requires
            0 <= z <= 414_213_562,
            zz == z * z,
    ;
    assert(0 <= w <= 171_572_874);
    assert(0 <= rho < f);
    let y = w * acc;
    assert(0 <= y <= 171_572_874 * acc) by (nonlinear_arith)
        requires
            0 <= w <= 171_572_874,
            0 <= acc,
            y == w * acc,
    ;
    let v = y / f;
    let sigma = y - v * f;
    assert(0 <= sigma < f);
    let c = f / k;
    let kappa = f - c * k;
    assert(0 <= kappa < k && c * k <= f && 0 <= c) by (nonlinear_arith)
        requires
            c == f / k,
            kappa == f - c * k,
            0 < k,
            0 < f,
    ;
    // The step is not cut off at zero.
    assert(v * kp <= 171_572_874) by (nonlinear_arith)
        requires
            v * f <= y,
            y <= 171_572_874 * acc,
            acc * kp <= f,
            0 < f,
            0 <= v,
            0 < kp,
    ;
    assert(v * k <= v * kp) by (nonlinear_arith)
        requires
            0 <= v,
            k <= kp,
    ;
    assert(v <= c) by (nonlinear_arith)
        requires
            v * k <= 171_572_874,
            c * k > 999_999_986,
            0 < k,
    ;
    let next = c - v;
    assert(arctan_step(w, acc, k) == next);
    assert(next * k <= f) by (nonlinear_arith)
        requires
            next == c - v,
            0 <= v,
            c * k <= f,
            0 < k,
    ;
    let n2 = exact_arctan_step(n, d, z, k).0;
    let d2 = exact_arctan_step(n, d, z, k).1;
    let ff = f * f;
    let dff = d * ff;
    assert(d2 == k * dff && n2 == dff - k * (zz * n)) by (nonlinear_arith)
        requires
            d2 == d * (f * f * k),
            n2 == d * (f * f) - k * (zz * n),
            ff == f * f,
            dff == d * ff,
    ;
    // The distance between the fixed-point step and the exact one, in units
    // of `f`, is `k * gap - kappa * d * f`.
    let slack = f * n - d * acc;
    let gap = w * slack + rho * n + d * sigma;
    let zzn = zz * n;
    let vdf = v * (d * f);
    assert(zzn == w * (f * n) + rho * n) by (nonlinear_arith)
        requires
            zzn == zz * n,
            zz == w * f + rho,
    ;
    assert(vdf == w * (d * acc) - d * sigma) by (nonlinear_arith)
        requires
            vdf == v * (d * f),
            sigma == y - v * f,
            y == w * acc,
    ;
    assert(w * slack == w * (f * n) - w * (d * acc)) by (nonlinear_arith)
        requires
            slack == f * n - d * acc,
    ;
    assert(gap == zzn - vdf);
    let df = d * f;
    let kdff = k * dff;
    let vkdff = v * kdff;
    let kapdf = kappa * df;
    assert(next * d2 == f * dff - kappa * dff - vkdff) by (nonlinear_arith)
        requires
            next == c - v,
            kappa == f - c * k,
            d2 == k * dff,
            kdff == k * dff,
            vkdff == v * kdff,
    ;
    assert(dff == f * df) by (nonlinear_arith)
        requires
            dff == d * ff,
            ff == f * f,
            df == d * f,
    ;
    assert(kappa * dff == f * kapdf) by (nonlinear_arith)
        requires
            dff == f * df,
            kapdf == kappa * df,
    ;
    assert(vkdff == f * (k * vdf)) by (nonlinear_arith)
        requires
            vkdff == v * kdff,
            kdff == k * dff,
            dff == f * df,
            vdf == v * df,
    ;
    assert(f * n2 == f * dff - f * (k * zzn)) by (nonlinear_arith)
        requires
            n2 == dff - k * zzn,
    ;
    assert(k * gap == k * zzn - k * vdf) by (nonlinear_arith)
        requires
            gap == zzn - vdf,
    ;
    assert(f * (k * gap - kapdf) == f * (k * zzn) - f * (k * vdf) - f * kapdf) by (nonlinear_arith)
        requires
            k * gap == k * zzn - k * vdf,
    ;
    assert(next * d2 - f * n2 == f * (k * gap - kappa * df));
    assert((-3) * d == -(3 * d) && acc * d == d * acc) by (nonlinear_arith);
    assert(-3 * d <= slack <= 3 * d);
    let dw = d * w;
    assert(-3 * dw <= w * slack <= 3 * dw) by (nonlinear_arith)
        requires
            -3 * d <= slack <= 3 * d,
            0 <= w,
            dw == d * w,
    ;
    assert(0 <= rho * n <= df) by (nonlinear_arith)
        requires
            0 <= rho < f,
            0 <= n,
            n * kp <= d,
            kp >= 1,
            df == d * f,
    ;
    assert(0 <= d * sigma <= df) by (nonlinear_arith)
        requires
            0 <= sigma < f,
            0 < d,
            df == d * f,
    ;
    assert(3 * dw <= df) by (nonlinear_arith)
        requires
            0 <= w <= 171_572_874,
            f == 1_000_000_000,
            0 < d,
            dw == d * w,
            df == d * f,
    ;
    assert(-df <= gap <= 3 * df);
    let kdf = k * df;
    assert(-kdf <= k * gap <= 3 * kdf) by (nonlinear_arith)
        requires
            -df <= gap <= 3 * df,
            0 < k,
            kdf == k * df,
    ;
    assert(0 <= kappa * df <= kdf) by (nonlinear_arith)
        requires
            0 <= kappa < k,
            0 <= df,
            kdf == k * df,
    ;
    assert(d2 == f * kdf) by (nonlinear_arith)
        requires
            d2 == k * dff,
            dff == d * ff,
            ff == f * f,
            kdf == k * df,
            df == d * f,
    ;
    let dist = k * gap - kappa * df;
    assert(-3 * d2 <= f * dist <= 3 * d2) by (nonlinear_arith)
        requires
            -2 * kdf <= dist <= 3 * kdf,
            d2 == f * kdf,
            0 < f,
    ;
    assert(d2 > 0) by (nonlinear_arith)
        requires
            d2 == f * kdf,
            kdf == k * df,
            df == d * f,
            d > 0,
            f > 0,
            k > 0,
    ;
    // The exact step lies between zero and `1 / k`.
    assert(0 <= zzn) by (nonlinear_arith)
        requires
            0 <= zz,
            0 <= n,
            zzn == zz * n,
    ;
    assert(k * zzn <= dff) by (nonlinear_arith)
        requires
            0 <= zz <= 414_213_562 * 414_213_562,
            0 <= n,
            n * kp <= d,
            kp == k + 2,
            1 <= k,
            zzn == zz * n,
            dff == d * ff,
            ff == f * f,
            f == 1_000_000_000,
    ;
    assert(n2 * k <= d2) by (nonlinear_arith)
        requires
            n2 == dff - k * zzn,
            d2 == k * dff,
            0 <= zzn,
            0 < k,
    ;
}

/// Up to the reach of the series, the fixed-point arctangent series is
/// within three units of the ninth decimal place of its polynomial.
pub proof fn lemma_arctan_series_error(z: int)
    requires
        0 <= z <= SERIES_REACH,
    ensures
        near(arctan_series(z), arctan_taylor(z).0, arctan_taylor(z).1, 3),
{
    let f = FINE as int;
    let w = z * z / f;
    let b0 = f / 15;
    assert(b0 == 66_666_666);
    let b1 = arctan_step(w, b0, 13);
    let a1 = exact_arctan_step(1, 15, z, 13);
    lemma_arctan_step_error(b0, 1, 15, z, 13);
    let b2 = arctan_step(w, b1, 11);
    let a2 = exact_arctan_step(a1.0, a1.1, z, 11);
    lemma_arctan_step_error(b1, a1.0, a1.1, z, 11);
    let b3 = arctan_step(w, b2, 9);
    let a3 = exact_arctan_step(a2.0, a2.1, z, 9);
    lemma_arctan_step_error(b2, a2.0, a2.1, z, 9);
    let b4 = arctan_step(w, b3, 7);
    let a4 = exact_arctan_step(a3.0, a3.1, z, 7);
    lemma_arctan_step_error(b3, a3.0, a3.1, z, 7);
    let b5 = arctan_step(w, b4, 5);
    let a5 = exact_arctan_step(a4.0, a4.1, z, 5);
    lemma_arctan_step_error(b4, a4.0, a4.1, z, 5);
    let b6 = arctan_step(w, b5, 3);
    let a6 = exact_arctan_step(a5.0, a5.1, z, 3);
    lemma_arctan_step_error(b5, a5.0, a5.1, z, 3);
    let b7 = arctan_step(w, b6, 1);
    let a7 = exact_arctan_step(a6.0, a6.1, z, 1);
    lemma_arctan_step_error(b6, a6.0, a6.1, z, 1);
    // The last product with the ratio.
    let n = a7.0;
    let d = a7.1;
    let zb = z * b7;
    let s0 = zb / f;
    let tau = zb - s0 * f;
    assert(0 <= zb) by (nonlinear_arith)
        requires
            0 <= z,
            0 <= b7,
            zb == z * b7,
    ;
    assert(0 <= tau < f);
    let slack = b7 * d - f * n;
    assert((-3) * d == -(3 * d)) by (nonlinear_arith);
    assert(-3 * d <= slack <= 3 * d);
    let zd = z * d;
    assert(-3 * zd <= z * slack <= 3 * zd) by (nonlinear_arith)
        requires
            -3 * d <= slack <= 3 * d,
            0 <= z,
            zd == z * d,
    ;
    let fd = f * d;
    assert(0 <= tau * d <= fd) by (nonlinear_arith)
        requires
            0 <= tau < f,
            0 < d,
            fd == f * d,
    ;
    assert(3 * zd <= 2 * fd) by (nonlinear_arith)
        requires
            0 <= z <= 414_213_562,
            f == 1_000_000_000,
            0 < d,
            zd == z * d,
            fd == f * d,
    ;
    let big_d = arctan_taylor(z).1;
    let big_n = arctan_taylor(z).0;
    assert(big_d == fd);
    let s0fd = s0 * fd;
    assert(s0fd == zb * d - tau * d) by (nonlinear_arith)
        requires
            s0fd == s0 * fd,
            fd == f * d,
            tau == zb - s0 * f,
    ;
    assert(zb * d == z * (b7 * d)) by (nonlinear_arith)
        requires
            zb == z * b7,
    ;
    assert(f * big_n == z * (f * n)) by (nonlinear_arith)
        requires
            big_n == z * n,
    ;
    assert(z * slack == z * (b7 * d) - z * (f * n)) by (nonlinear_arith)
        requires
            slack == b7 * d - f * n,
    ;
    assert(s0 * big_d - f * big_n == z * slack - tau * d);
    assert(big_d > 0) by (nonlinear_arith)
        requires
            big_d == f * d,
            d > 0,
            f > 0,
    ;
    assert((-3) * big_d == -(3 * big_d)) by (nonlinear_arith);
}

/// Rounding to six places moves a value by at most half a unit of the sixth
/// place.
pub proof fn lemma_coarse_error(n: int)
    ensures
        n - 500 <= coarse(n) * 1000 <= n + 500,
{
}

/// On the first quadrant the sine is within 505 units of the ninth decimal
/// place of its polynomial, unless it is one; and it is never more than 505
/// units above the polynomial.
pub proof fn lemma_sine_error(x: int)
    requires
        0 <= x <= 1_570_796,
    ensures
        sin_taylor(x * 1000).1 > 0,
        sine(x) * 1000 * sin_taylor(x * 1000).1 <= FINE * sin_taylor(x * 1000).0 + 505 * sin_taylor(
            x * 1000,
        ).1,
        sine(x) == SCALE || sine(x) * 1000 * sin_taylor(x * 1000).1 >= FINE * sin_taylor(x * 1000).0
            - 505 * sin_taylor(x * 1000).1,
{
    reveal(sine);
    let t = x * 1000;
    assert(within_turn(magnitude(x)) == t) by {
        assert(x * 1_000_000_000_000 == t * 1_000_000_000) by (nonlinear_arith)
            requires
                t == x * 1000,
        ;
    }
    assert(sin_turn(t) == sin_series(t));
    let s = sin_series(t);
    let d = sin_taylor(t).1;
    lemma_sin_series_error(t);
    lemma_series_bound(t);
    lemma_coarse_error(s);
    let r = sine(x) * 1000;
    assert(r == coarse(s) * 1000);
    assert(r * d <= (s + 500) * d && (s - 500) * d <= r * d) by (nonlinear_arith)
        requires
            s - 500 <= r <= s + 500,
            d > 0,
    ;
    assert((s + 500) * d == s * d + 500 * d && (s - 500) * d == s * d - 500 * d) by (nonlinear_arith);
}

/// On the first quadrant the cosine is within 504 units of the ninth decimal
/// place of its polynomial, unless it is zero; and it is never more than 504
/// units below the polynomial.
pub proof fn lemma_cosine_error(x: int)
    requires
        0 <= x <= 1_570_796,
    ensures
        cos_taylor(x * 1000).1 > 0,
        cosine(x) * 1000 * cos_taylor(x * 1000).1 >= FINE * cos_taylor(x * 1000).0 - 504 * cos_taylor(
            x * 1000,
        ).1,
        cosine(x) == 0 || cosine(x) * 1000 * cos_taylor(x * 1000).1 <= FINE * cos_taylor(x * 1000).0
            + 504 * cos_taylor(x * 1000).1,
{
    reveal(cosine);
    let t = x * 1000;
    assert(within_turn(magnitude(x)) == t) by {
        assert(x * 1_000_000_000_000 == t * 1_000_000_000) by (nonlinear_arith)
            requires
                t == x * 1000,
        ;
    }
    assert(cos_turn(t) == cos_series(t));
    let s = cos_series(t);
    let d = cos_taylor(t).1;
    lemma_cos_series_error(t);
    lemma_series_bound(t);
    lemma_coarse_error(s);
    let r = cosine(x) * 1000;
    assert(r == coarse(s) * 1000);
    assert(r * d <= (s + 500) * d && (s - 500) * d <= r * d) by (nonlinear_arith)
        requires
            s - 500 <= r <= s + 500,
            d > 0,
    ;
    assert((s + 500) * d == s * d + 500 * d && (s - 500) * d == s * d - 500 * d) by (nonlinear_arith);
}

/// The angle of a point of the first quadrant whose ratio of ordinate to
/// abscissa is within the reach of the series is within 503 units of the
/// ninth decimal place of the arctangent polynomial at that ratio, rounded
/// down to nine places.
pub proof fn lemma_arctan2_error(y: int, x: int)
    requires
        0 <= y,
        0 < x,
        y * FINE / x <= SERIES_REACH,
    ensures
        near(
            arctan2(y, x) * 1000,
            arctan_taylor(y * FINE / x).0,
            arctan_taylor(y * FINE / x).1,
            503,
        ),
{
    reveal(arctan2);
    let f = FINE as int;
    let yf = y * f;
    let r = yf / x;
    assert(0 <= yf) by (nonlinear_arith)
        requires
            0 <= y,
            yf == y * f,
            f > 0,
    ;
    assert(0 <= r && yf < (r + 1) * x) by (nonlinear_arith)
        requires
            r == yf / x,
            0 <= yf,
            0 < x,
    ;
    assert(y <= x) by (nonlinear_arith)
        requires
            yf < (r + 1) * x,
            r + 1 <= 1_000_000_000,
            yf == y * 1_000_000_000,
            0 < x,
            0 <= y,
    ;
    lemma_arctan_series_error(r);
    let s = arctan_series(r);
    let n = arctan_taylor(r).0;
    let d = arctan_taylor(r).1;
    // The series gives no more than its argument.
    let w = r * r / f;
    assert(0 <= r * r) by (nonlinear_arith);
    let b1 = arctan_step(w, f / 15, 13);
    lemma_arctan_step_bound(w, f / 15, 13);
    let b2 = arctan_step(w, b1, 11);
    lemma_arctan_step_bound(w, b1, 11);
    let b3 = arctan_step(w, b2, 9);
    lemma_arctan_step_bound(w, b2, 9);
    let b4 = arctan_step(w, b3, 7);
    lemma_arctan_step_bound(w, b3, 7);
    let b5 = arctan_step(w, b4, 5);
    lemma_arctan_step_bound(w, b4, 5);
    let b6 = arctan_step(w, b5, 3);
    lemma_arctan_step_bound(w, b5, 3);
    let b7 = arctan_step(w, b6, 1);
    lemma_arctan_step_bound(w, b6, 1);
    assert(0 <= r * b7 / f <= r) by (nonlinear_arith)
        requires
            0 <= r,
            0 <= b7 <= f,
            f > 0,
    ;
    assert(arctan_unit(r) == s);
    assert(arctan_quadrant(y, x) == s);
    assert(arctan2(y, x) == coarse(s));
    lemma_coarse_error(s);
    let c = arctan2(y, x) * 1000;
    assert(c * d <= (s + 500) * d && (s - 500) * d <= c * d) by (nonlinear_arith)
        requires
            s - 500 <= c <= s + 500,
            d > 0,
    ;
    assert((s + 500) * d == s * d + 500 * d && (s - 500) * d == s * d - 500 * d) by (nonlinear_arith);
    assert((-3) * d == -(3 * d) && (-503) * d == -(503 * d)) by (nonlinear_arith);
}

} // verus!
