//! Sine, cosine and two-argument arctangent of fixed-point quantities.
//!
//! Angles are radians. The functions take and return raw values with six
//! decimal places; inside, angles and polynomial terms carry nine. An angle
//! is first reduced to one turn and to its quadrant; sine and cosine are then
//! evaluated by their power series on the first quadrant. The arctangent is
//! evaluated by its power series on ratios up to the tangent of an eighth of
//! pi, and beyond by `atan(r) = pi/4 - atan((1 - r) / (1 + r))` and
//! `atan(y / x) = pi/2 - atan(x / y)`.
//!
//! Each result is stated exactly, as the value of a spec function over the
//! integers. The series stay within a few units of the ninth place of the
//! polynomials that they evaluate, as [`crate::taylor`] shows.
use vstd::prelude::*;
use crate::fixed::{magnitude, Num, SCALE};

verus! {

/// Units of the inner scale per whole unit.
pub const FINE: u64 = 1_000_000_000;

/// A full turn, two pi, with eighteen decimal places.
pub const TURN: i128 = 6_283_185_307_179_586_477;

/// Half of pi on the inner scale.
pub const QUARTER_TURN: u64 = 1_570_796_327;

/// Pi on the inner scale.
pub const HALF_TURN: u64 = 3_141_592_654;

/// A quarter of pi on the inner scale.
pub const EIGHTH_TURN: u64 = 785_398_163;

/// The tangent of an eighth of pi on the inner scale.
pub const SERIES_REACH: u64 = 414_213_562;

/// One step of an alternating power series in Horner form:
/// `1 - (u * acc) / k`, not below zero.
pub open spec fn power_step(u: int, acc: int, k: int) -> int {
    let v = FINE - (u * acc / (FINE as int)) / k;
    if v < 0 {
        0
    } else {
        v
    }
}

/// Sine of `t`, an angle of the first quadrant on the inner scale:
/// `t - t^3/3! + t^5/5! - ... + t^13/13!`, not above one.
pub open spec fn sin_series(t: int) -> int {
    let u = t * t / (FINE as int);
    let a1 = power_step(u, FINE as int, 156);
    let a2 = power_step(u, a1, 110);
    let a3 = power_step(u, a2, 72);
    let a4 = power_step(u, a3, 42);
    let a5 = power_step(u, a4, 20);
    let a6 = power_step(u, a5, 6);
    let s = t * a6 / (FINE as int);
    if s > FINE {
        FINE as int
    } else {
        s
    }
}

/// Cosine of `t`, an angle of the first quadrant on the inner scale:
/// `1 - t^2/2! + t^4/4! - ... - t^14/14!`, not below zero.
pub open spec fn cos_series(t: int) -> int {
    let u = t * t / (FINE as int);
    let a1 = power_step(u, FINE as int, 182);
    let a2 = power_step(u, a1, 132);
    let a3 = power_step(u, a2, 90);
    let a4 = power_step(u, a3, 56);
    let a5 = power_step(u, a4, 30);
    let a6 = power_step(u, a5, 12);
    power_step(u, a6, 2)
}

/// The angle with raw magnitude `m`, reduced to one turn, on the inner scale.
pub open spec fn within_turn(m: int) -> int {
    ((m * 1_000_000_000_000) % (TURN as int)) / 1_000_000_000
}

/// Sine on the inner scale of `r`, an angle within one turn.
pub open spec fn sin_turn(r: int) -> int {
    let q = r / (QUARTER_TURN as int);
    let t = r % (QUARTER_TURN as int);
    if q == 0 {
        sin_series(t)
    } else if q == 1 {
        cos_series(t)
    } else if q == 2 {
        -sin_series(t)
    } else {
        -cos_series(t)
    }
}

/// Cosine on the inner scale of `r`, an angle within one turn.
pub open spec fn cos_turn(r: int) -> int {
    let q = r / (QUARTER_TURN as int);
    let t = r % (QUARTER_TURN as int);
    if q == 0 {
        cos_series(t)
    } else if q == 1 {
        -sin_series(t)
    } else if q == 2 {
        -cos_series(t)
    } else {
        sin_series(t)
    }
}

/// A value of the inner scale rounded to six decimal places, halves away
/// from zero.
pub open spec fn coarse(n: int) -> int {
    if n >= 0 {
        (n + 500) / 1000
    } else {
        -((-n + 500) / 1000)
    }
}

/// Raw sine of the angle with raw value `x`.
#[verifier::opaque]
pub open spec fn sine(x: int) -> int {
    let s = coarse(sin_turn(within_turn(magnitude(x))));
    if x < 0 {
        -s
    } else {
        s
    }
}

/// Raw cosine of the angle with raw value `x`.
#[verifier::opaque]
pub open spec fn cosine(x: int) -> int {
    coarse(cos_turn(within_turn(magnitude(x))))
}

/// One step of the arctangent series in Horner form: `1/k - w * acc`, not
/// below zero.
pub open spec fn arctan_step(w: int, acc: int, k: int) -> int {
    let v = (FINE as int) / k - w * acc / (FINE as int);
    if v < 0 {
        0
    } else {
        v
    }
}

/// Arctangent of the ratio `z` on the inner scale:
/// `z - z^3/3 + z^5/5 - ... - z^15/15`.
pub open spec fn arctan_series(z: int) -> int {
    let w = z * z / (FINE as int);
    let a1 = arctan_step(w, FINE as int / 15, 13);
    let a2 = arctan_step(w, a1, 11);
    let a3 = arctan_step(w, a2, 9);
    let a4 = arctan_step(w, a3, 7);
    let a5 = arctan_step(w, a4, 5);
    let a6 = arctan_step(w, a5, 3);
    let a7 = arctan_step(w, a6, 1);
    z * a7 / (FINE as int)
}

/// Arctangent of a ratio `r` between zero and one on the inner scale. Above
/// the reach of the series it is a quarter of pi less the arctangent of
/// `(1 - r) / (1 + r)`.
pub open spec fn arctan_unit(r: int) -> int {
    if r <= SERIES_REACH {
        arctan_series(r)
    } else {
        let a = EIGHTH_TURN - arctan_series((FINE - r) * FINE / (FINE + r));
        if a < 0 {
            0
        } else {
            a
        }
    }
}

/// The angle on the inner scale, between zero and half of pi, of the point
/// with the non-negative coordinates `ax` and `ay`, not both zero.
pub open spec fn arctan_quadrant(ay: int, ax: int) -> int {
    let a = if ay <= ax {
        arctan_unit(ay * FINE / ax)
    } else {
        QUARTER_TURN - arctan_unit(ax * FINE / ay)
    };
    if a < 0 {
        0
    } else if a > QUARTER_TURN {
        QUARTER_TURN as int
    } else {
        a
    }
}

/// Raw angle of the point `(x, y)` against the positive x axis, between
/// minus pi and pi; zero at the origin.
#[verifier::opaque]
pub open spec fn arctan2(y: int, x: int) -> int {
    if x == 0 && y == 0 {
        0
    } else {
        let a = arctan_quadrant(magnitude(y), magnitude(x));
        let b = coarse(if x < 0 { HALF_TURN - a } else { a });
        if y < 0 {
            -b
        } else {
            b
        }
    }
}

/// The series steps stay between zero and one.
pub proof fn lemma_power_step_bound(u: int, acc: int, k: int)
    requires
        0 <= u,
        0 <= acc,
        0 < k,
    ensures
        0 <= power_step(u, acc, k) <= FINE,
{
    assert(0 <= u * acc) by (nonlinear_arith)
        requires
            0 <= u,
            0 <= acc,
    ;
}

/// Sine and cosine lie between minus one and one.
pub proof fn lemma_sine_cosine_bound(x: int)
    ensures
        -SCALE <= sine(x) <= SCALE,
        -SCALE <= cosine(x) <= SCALE,
{
    reveal(sine);
    reveal(cosine);
    let r = within_turn(magnitude(x));
    let t = r % (QUARTER_TURN as int);
    lemma_series_bound(t);
}

/// On the first quadrant both series lie between zero and one.
pub proof fn lemma_series_bound(t: int)
    requires
        0 <= t,
    ensures
        0 <= sin_series(t) <= FINE,
        0 <= cos_series(t) <= FINE,
{
    let u = t * t / (FINE as int);
    assert(0 <= t * t) by (nonlinear_arith);
    let a1 = power_step(u, FINE as int, 156);
    lemma_power_step_bound(u, FINE as int, 156);
    let a2 = power_step(u, a1, 110);
    lemma_power_step_bound(u, a1, 110);
    let a3 = power_step(u, a2, 72);
    lemma_power_step_bound(u, a2, 72);
    let a4 = power_step(u, a3, 42);
    lemma_power_step_bound(u, a3, 42);
    let a5 = power_step(u, a4, 20);
    lemma_power_step_bound(u, a4, 20);
    let a6 = power_step(u, a5, 6);
    lemma_power_step_bound(u, a5, 6);
    assert(0 <= t * a6) by (nonlinear_arith)
        requires
            0 <= t,
            0 <= a6,
    ;
    let b1 = power_step(u, FINE as int, 182);
    lemma_power_step_bound(u, FINE as int, 182);
    let b2 = power_step(u, b1, 132);
    lemma_power_step_bound(u, b1, 132);
    let b3 = power_step(u, b2, 90);
    lemma_power_step_bound(u, b2, 90);
    let b4 = power_step(u, b3, 56);
    lemma_power_step_bound(u, b3, 56);
    let b5 = power_step(u, b4, 30);
    lemma_power_step_bound(u, b4, 30);
    let b6 = power_step(u, b5, 12);
    lemma_power_step_bound(u, b5, 12);
    lemma_power_step_bound(u, b6, 2);
}

/// The arctangent steps stay between zero and one.
pub proof fn lemma_arctan_step_bound(w: int, acc: int, k: int)
    requires
        0 <= w,
        0 <= acc,
        0 < k,
    ensures
        0 <= arctan_step(w, acc, k) <= FINE,
{
    assert(0 <= w * acc) by (nonlinear_arith)
        requires
            0 <= w,
            0 <= acc,
    ;
    assert((FINE as int) / k <= FINE) by (nonlinear_arith)
        requires
            0 < k,
    ;
}

fn power_step_exec(u: u64, acc: u64, k: u64) -> (r: u64)
    requires
        u <= 4 * FINE,
        acc <= FINE,
        0 < k,
    ensures
        r == power_step(u as int, acc as int, k as int),
        r <= FINE,
{
    assert(u * acc <= 4 * FINE * FINE) by (nonlinear_arith)
        requires
            u <= 4 * FINE,
            acc <= FINE,
    ;
    let cut: u64 = (u * acc / FINE) / k;
    if cut > FINE {
        0
    } else {
        FINE - cut
    }
}

fn sin_series_exec(t: u64) -> (r: u64)
    requires
        t <= QUARTER_TURN,
    ensures
        r == sin_series(t as int),
        r <= FINE,
{
    assert(t * t <= QUARTER_TURN * QUARTER_TURN) by (nonlinear_arith)
        requires
            t <= QUARTER_TURN,
    ;
    let u: u64 = t * t / FINE;
    let a1: u64 = power_step_exec(u, FINE, 156);
    let a2: u64 = power_step_exec(u, a1, 110);
    let a3: u64 = power_step_exec(u, a2, 72);
    let a4: u64 = power_step_exec(u, a3, 42);
    let a5: u64 = power_step_exec(u, a4, 20);
    let a6: u64 = power_step_exec(u, a5, 6);
    assert(t * a6 <= QUARTER_TURN * FINE) by (nonlinear_arith)
        requires
            t <= QUARTER_TURN,
            a6 <= FINE,
    ;
    let s: u64 = t * a6 / FINE;
    if s > FINE {
        FINE
    } else {
        s
    }
}

fn cos_series_exec(t: u64) -> (r: u64)
    requires
        t <= QUARTER_TURN,
    ensures
        r == cos_series(t as int),
        r <= FINE,
{
    assert(t * t <= QUARTER_TURN * QUARTER_TURN) by (nonlinear_arith)
        requires
            t <= QUARTER_TURN,
    ;
    let u: u64 = t * t / FINE;
    let a1: u64 = power_step_exec(u, FINE, 182);
    let a2: u64 = power_step_exec(u, a1, 132);
    let a3: u64 = power_step_exec(u, a2, 90);
    let a4: u64 = power_step_exec(u, a3, 56);
    let a5: u64 = power_step_exec(u, a4, 30);
    let a6: u64 = power_step_exec(u, a5, 12);
    power_step_exec(u, a6, 2)
}

/// The magnitude of `x`.
fn magnitude_exec(x: i64) -> (r: u64)
    ensures
        r == magnitude(x as int),
{
    if x < 0 {
        (-(x as i128)) as u64
    } else {
        x as u64
    }
}

fn within_turn_exec(x: i64) -> (r: u64)
    ensures
        r == within_turn(magnitude(x as int)),
        r < 4 * QUARTER_TURN,
{
    let m: u64 = magnitude_exec(x);
    let fine: i128 = (m as i128) * 1_000_000_000_000;
    ((fine % TURN) / 1_000_000_000) as u64
}

fn coarse_exec(n: i64) -> (r: i64)
    requires
        -4 * FINE <= n <= 4 * FINE,
    ensures
        r == coarse(n as int),
{
    if n >= 0 {
        (n + 500) / 1000
    } else {
        -((-n + 500) / 1000)
    }
}

/// Sine of the angle `x`.
pub fn sin(x: i64) -> (r: i64)
    ensures
        r == sine(x as int),
        -SCALE <= r <= SCALE,
{
    proof {
        reveal(sine);
    }
    let turn: u64 = within_turn_exec(x);
    let q: u64 = turn / QUARTER_TURN;
    let t: u64 = turn % QUARTER_TURN;
    let fine: i64 = if q == 0 {
        sin_series_exec(t) as i64
    } else if q == 1 {
        cos_series_exec(t) as i64
    } else if q == 2 {
        -(sin_series_exec(t) as i64)
    } else {
        -(cos_series_exec(t) as i64)
    };
    let s: i64 = coarse_exec(fine);
    if x < 0 {
        -s
    } else {
        s
    }
}

/// Cosine of the angle `x`.
pub fn cos(x: i64) -> (r: i64)
    ensures
        r == cosine(x as int),
        -SCALE <= r <= SCALE,
{
    proof {
        reveal(cosine);
    }
    let turn: u64 = within_turn_exec(x);
    let q: u64 = turn / QUARTER_TURN;
    let t: u64 = turn % QUARTER_TURN;
    let fine: i64 = if q == 0 {
        cos_series_exec(t) as i64
    } else if q == 1 {
        -(sin_series_exec(t) as i64)
    } else if q == 2 {
        -(cos_series_exec(t) as i64)
    } else {
        sin_series_exec(t) as i64
    };
    coarse_exec(fine)
}

fn arctan_step_exec(w: u64, acc: u64, k: u64) -> (r: u64)
    requires
        w <= FINE,
        acc <= FINE,
        0 < k,
    ensures
        r == arctan_step(w as int, acc as int, k as int),
        r <= FINE,
{
    assert(w * acc <= FINE * FINE) by (nonlinear_arith)
        requires
            w <= FINE,
            acc <= FINE,
    ;
    proof {
        lemma_arctan_step_bound(w as int, acc as int, k as int);
    }
    let lead: u64 = FINE / k;
    let cut: u64 = w * acc / FINE;
    if cut > lead {
        0
    } else {
        lead - cut
    }
}

fn arctan_series_exec(z: u64) -> (r: u64)
    requires
        z <= FINE,
    ensures
        r == arctan_series(z as int),
        r <= FINE,
{
    assert(z * z <= FINE * FINE) by (nonlinear_arith)
        requires
            z <= FINE,
    ;
    let w: u64 = z * z / FINE;
    let a1: u64 = arctan_step_exec(w, FINE / 15, 13);
    let a2: u64 = arctan_step_exec(w, a1, 11);
    let a3: u64 = arctan_step_exec(w, a2, 9);
    let a4: u64 = arctan_step_exec(w, a3, 7);
    let a5: u64 = arctan_step_exec(w, a4, 5);
    let a6: u64 = arctan_step_exec(w, a5, 3);
    let a7: u64 = arctan_step_exec(w, a6, 1);
    assert(z * a7 <= FINE * FINE) by (nonlinear_arith)
        requires
            z <= FINE,
            a7 <= FINE,
    ;
    z * a7 / FINE
}

fn arctan_unit_exec(r: u64) -> (a: u64)
    requires
        r <= FINE,
    ensures
        a == arctan_unit(r as int),
        a <= FINE,
{
    if r <= SERIES_REACH {
        arctan_series_exec(r)
    } else {
        assert((FINE - r) * FINE <= FINE * FINE) by (nonlinear_arith)
            requires
                r <= FINE,
        ;
        assert((FINE - r) * FINE / ((FINE + r) as int) <= FINE) by (nonlinear_arith)
            requires
                0 <= r <= FINE,
        ;
        let z: u64 = (FINE - r) * FINE / (FINE + r);
        let s: u64 = arctan_series_exec(z);
        if s > EIGHTH_TURN {
            0
        } else {
            EIGHTH_TURN - s
        }
    }
}

/// The ratio `small / large` on the inner scale, for `small <= large`.
fn unit_ratio(small: u64, large: u64) -> (r: u64)
    requires
        small <= large,
        0 < large,
    ensures
        r == small * FINE / (large as int),
        r <= FINE,
{
    assert(small * FINE <= 0x1_0000_0000_0000_0000 * FINE) by (nonlinear_arith)
        requires
            small <= 0x1_0000_0000_0000_0000,
    ;
    assert(small * FINE / (large as int) <= FINE) by (nonlinear_arith)
        requires
            0 <= small <= large,
            0 < large,
    ;
    let wide: u128 = (small as u128) * (FINE as u128);
    (wide / (large as u128)) as u64
}

fn arctan_quadrant_exec(ay: u64, ax: u64) -> (a: u64)
    requires
        ax != 0 || ay != 0,
    ensures
        a == arctan_quadrant(ay as int, ax as int),
        a <= QUARTER_TURN,
{
    if ay <= ax {
        let a: u64 = arctan_unit_exec(unit_ratio(ay, ax));
        if a > QUARTER_TURN {
            QUARTER_TURN
        } else {
            a
        }
    } else {
        let b: u64 = arctan_unit_exec(unit_ratio(ax, ay));
        if b > QUARTER_TURN {
            0
        } else {
            QUARTER_TURN - b
        }
    }
}

/// Angle of the point `(x, y)` against the positive x axis.
pub fn atan2(y: i64, x: i64) -> (r: i64)
    ensures
        r == arctan2(y as int, x as int),
        -3_141_593 <= r <= 3_141_593,
{
    proof {
        reveal(arctan2);
    }
    if x == 0 && y == 0 {
        return 0;
    }
    let a: u64 = arctan_quadrant_exec(magnitude_exec(y), magnitude_exec(x));
    let full: u64 = if x < 0 {
        HALF_TURN - a
    } else {
        a
    };
    let b: i64 = coarse_exec(full as i64);
    if y < 0 {
        -b
    } else {
        b
    }
}

impl Num {
    /// Sine of a defined angle.
    pub open spec fn spec_sin(self) -> Num {
        match self.raw {
            Some(a) => Num::lift(sine(a as int)),
            None => Num::undefined(),
        }
    }

    /// Cosine of a defined angle.
    pub open spec fn spec_cos(self) -> Num {
        match self.raw {
            Some(a) => Num::lift(cosine(a as int)),
            None => Num::undefined(),
        }
    }

    /// Angle of the point whose ordinate is `self` and whose abscissa is `x`.
    pub open spec fn spec_atan2(self, x: Num) -> Num {
        match (self.raw, x.raw) {
            (Some(b), Some(a)) => Num::lift(arctan2(b as int, a as int)),
            _ => Num::undefined(),
        }
    }

    #[verifier::when_used_as_spec(spec_sin)]
    pub fn sin(self) -> (r: Num)
        ensures
            r == self.spec_sin(),
    {
        match self.raw {
            Some(a) => Num::of(sin(a)),
            None => Num { raw: None },
        }
    }

    #[verifier::when_used_as_spec(spec_cos)]
    pub fn cos(self) -> (r: Num)
        ensures
            r == self.spec_cos(),
    {
        match self.raw {
            Some(a) => Num::of(cos(a)),
            None => Num { raw: None },
        }
    }

    #[verifier::when_used_as_spec(spec_atan2)]
    pub fn atan2(self, x: Num) -> (r: Num)
        ensures
            r == self.spec_atan2(x),
    {
        match (self.raw, x.raw) {
            (Some(b), Some(a)) => Num::of(atan2(b, a)),
            _ => Num { raw: None },
        }
    }
}

/// The sine of zero is zero and the cosine of zero is one.
pub proof fn lemma_sine_cosine_zero()
    ensures
        sine(0) == 0,
        cosine(0) == SCALE,
{
    reveal(sine);
    reveal(cosine);
    assert(within_turn(0) == 0);
    assert(sin_series(0) == 0);
    assert(cos_series(0) == FINE);
}

/// Sine is odd and cosine is even.
pub proof fn lemma_sine_odd_cosine_even(x: int)
    ensures
        sine(-x) == -sine(x),
        cosine(-x) == cosine(x),
{
    reveal(sine);
    reveal(cosine);
    lemma_sine_cosine_zero();
}

/// A point on the positive x axis, and the origin, have the angle zero.
pub proof fn lemma_arctan2_on_axis(x: int)
    requires
        x >= 0,
    ensures
        arctan2(0, x) == 0,
{
    reveal(arctan2);
    if x > 0 {
        assert(0 * FINE / x == 0) by (nonlinear_arith)
            requires
                x > 0,
        ;
        assert(arctan_series(0) == 0);
        assert(arctan_unit(0) == 0);
        assert(arctan_quadrant(0, x) == 0);
    }
}

/// Mirroring a point at the x axis negates its angle, unless the point lies
/// on the negative x axis.
pub proof fn lemma_arctan2_odd(y: int, x: int)
    requires
        x >= 0 || y != 0,
    ensures
        arctan2(-y, x) == -arctan2(y, x),
{
    reveal(arctan2);
    if y == 0 {
        lemma_arctan2_on_axis(x);
    }
}

/// The angle of a point lies between minus pi and pi.
pub proof fn lemma_arctan2_bound(y: int, x: int)
    ensures
        -3_141_593 <= arctan2(y, x) <= 3_141_593,
{
    reveal(arctan2);
}

/// Sine and cosine of quantities are odd and even; the angle of a point is
/// odd in its ordinate where the abscissa is not negative.
pub proof fn lemma_num_trig_neg(a: Num, x: Num)
    requires
        a.wf(),
    ensures
        a.neg().sin() == a.sin().neg(),
        a.neg().cos() == a.cos(),
        x.is_defined() && x.value() >= 0 ==> a.neg().atan2(x) == a.atan2(x).neg(),
        a.sin().wf(),
        a.cos().wf(),
        a.is_defined() ==> a.sin().is_defined() && a.cos().is_defined(),
{
    reveal(Num::spec_neg);
    if a.raw is Some {
        let v = a.raw->0 as int;
        lemma_sine_odd_cosine_even(v);
        lemma_sine_cosine_bound(v);
        lemma_sine_cosine_bound(-v);
        if x.raw is Some && x.value() >= 0 {
            lemma_arctan2_odd(v, x.value());
            lemma_arctan2_bound(v, x.value());
            lemma_arctan2_bound(-v, x.value());
        }
    }
}

/// The facts of [`lemma_num_trig_neg`] for all quantities at once.
pub proof fn lemma_num_trig_rules()
    ensures
        forall|a: Num| (#[trigger] a.sin()).wf() && (a.is_defined() <==> a.sin().is_defined()),
        forall|a: Num| (#[trigger] a.cos()).wf() && (a.is_defined() <==> a.cos().is_defined()),
        forall|a: Num, x: Num|
            (#[trigger] a.atan2(x)).wf() && (a.atan2(x).is_defined() <==> a.is_defined()
                && x.is_defined()),
        forall|x: Num|
            x.is_defined() && x.value() >= 0 ==> #[trigger] Num::of(0).atan2(x) == Num::of(0),
        Num::of(0).sin() == Num::of(0),
        Num::of(0).cos() == Num::of(SCALE),
        forall|a: Num| a.wf() ==> #[trigger] a.neg().sin() == a.sin().neg(),
        forall|a: Num| a.wf() ==> #[trigger] a.neg().cos() == a.cos(),
        forall|a: Num, x: Num|
            a.wf() && x.is_defined() && x.value() >= 0 ==> #[trigger] a.neg().atan2(x) == a.atan2(
                x,
            ).neg(),
{
    assert forall|a: Num| (#[trigger] a.sin()).wf() && (a.is_defined() <==> a.sin().is_defined()) by {
        if a.raw is Some {
            lemma_sine_cosine_bound(a.raw->0 as int);
        }
    }
    assert forall|a: Num| (#[trigger] a.cos()).wf() && (a.is_defined() <==> a.cos().is_defined()) by {
        if a.raw is Some {
            lemma_sine_cosine_bound(a.raw->0 as int);
        }
    }
    assert forall|a: Num, x: Num|
        (#[trigger] a.atan2(x)).wf() && (a.atan2(x).is_defined() <==> a.is_defined()
            && x.is_defined()) by {
        if a.raw is Some && x.raw is Some {
            lemma_arctan2_bound(a.raw->0 as int, x.raw->0 as int);
        }
    }
    assert forall|x: Num| x.is_defined() && x.value() >= 0 implies #[trigger] Num::of(0).atan2(x)
        == Num::of(0) by {
        lemma_arctan2_on_axis(x.value());
    }
    lemma_sine_cosine_zero();
    assert forall|a: Num| a.wf() implies #[trigger] a.neg().sin() == a.sin().neg() by {
        lemma_num_trig_neg(a, a);
    }
    assert forall|a: Num| a.wf() implies #[trigger] a.neg().cos() == a.cos() by {
        lemma_num_trig_neg(a, a);
    }
    assert forall|a: Num, x: Num| a.wf() && x.is_defined() && x.value() >= 0 implies #[trigger] a.neg().atan2(
        x,
    ) == a.atan2(x).neg() by {
        lemma_num_trig_neg(a, x);
    }
}

} // verus!
