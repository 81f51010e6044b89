//! Steering smoother: the steer value follows the driver's intent at a
//! limited rate and relaxes to the centre when the intent is released.
use vstd::prelude::*;
use crate::control::SteerIntent;
use crate::fixed::{clamped, product, wide_product, SCALE};

verus! {

/// Steer units per second by which the steer value follows an intent.
pub const STEER_RATE: i64 = 2_000_000;

/// Steer units per second by which a released steer value returns to zero.
pub const STEER_DECAY: i64 = 1_000_000;

/// The steer value after `dt` seconds of the given intent, from the raw
/// steer value `steer`. A negative `dt` counts as no time at all.
pub open spec fn smoothed(steer: int, intent: SteerIntent, dt: int) -> int {
    let elapsed = if dt < 0 { 0 } else { dt };
    match intent {
        SteerIntent::Left => clamped(
            steer + product(elapsed, STEER_RATE as int),
            -SCALE as int,
            SCALE as int,
        ),
        SteerIntent::Right => clamped(
            steer - product(elapsed, STEER_RATE as int),
            -SCALE as int,
            SCALE as int,
        ),
        SteerIntent::Straight => if steer > 0 {
            let eased = steer - product(elapsed, STEER_DECAY as int);
            if eased < 0 {
                0
            } else {
                eased
            }
        } else if steer < 0 {
            let eased = steer + product(elapsed, STEER_DECAY as int);
            if eased > 0 {
                0
            } else {
                eased
            }
        } else {
            0
        },
    }
}

/// A steer value between minus one and one stays there. While an intent is
/// held the value moves toward it; once released it moves toward zero and
/// never past it.
pub proof fn lemma_smoothed_bounds(steer: int, intent: SteerIntent, dt: int)
    requires
        -SCALE <= steer <= SCALE,
    ensures
        -SCALE <= smoothed(steer, intent, dt) <= SCALE,
        intent == SteerIntent::Straight && steer >= 0 ==> 0 <= smoothed(steer, intent, dt) <= steer,
        intent == SteerIntent::Straight && steer <= 0 ==> steer <= smoothed(steer, intent, dt) <= 0,
        intent == SteerIntent::Left ==> smoothed(steer, intent, dt) >= steer,
        intent == SteerIntent::Right ==> smoothed(steer, intent, dt) <= steer,
{
    lemma_whole_rates(if dt < 0 { 0 } else { dt });
}

/// Multiplying by a whole rate is exact.
pub proof fn lemma_whole_rates(dt: int)
    ensures
        product(dt, STEER_RATE as int) == 2 * dt,
        product(dt, STEER_DECAY as int) == dt,
{
    assert(dt * 2_000_000 == (2 * dt) * 1_000_000) by (nonlinear_arith);
    if dt >= 0 {
        assert(((2 * dt) * 1_000_000) / 1_000_000 == 2 * dt) by (nonlinear_arith)
            requires
                dt >= 0,
        ;
        assert((dt * 1_000_000) / 1_000_000 == dt) by (nonlinear_arith)
            requires
                dt >= 0,
        ;
    } else {
        assert(-(dt * 2_000_000) == (2 * -dt) * 1_000_000) by (nonlinear_arith);
        assert(-(dt * 1_000_000) == (-dt) * 1_000_000) by (nonlinear_arith);
        assert(((2 * -dt) * 1_000_000) / 1_000_000 == 2 * -dt) by (nonlinear_arith)
            requires
                dt < 0,
        ;
        assert(((-dt) * 1_000_000) / 1_000_000 == -dt) by (nonlinear_arith)
            requires
                dt < 0,
        ;
    }
}

/// The steer value after `dt` seconds of the given intent.
pub fn smooth_steer(steer: i64, intent: SteerIntent, dt: i64) -> (r: i64)
    ensures
        r == smoothed(steer as int, intent, dt as int),
        -SCALE <= steer <= SCALE ==> -SCALE <= r <= SCALE,
{
    let elapsed: i64 = if dt < 0 { 0 } else { dt };
    proof {
        lemma_whole_rates(elapsed as int);
    }
    let wide: i128 = steer as i128;
    let follow: i128 = wide_product(elapsed, STEER_RATE) / (SCALE as i128);
    let decay: i128 = wide_product(elapsed, STEER_DECAY) / (SCALE as i128);
    let next: i128 = match intent {
        SteerIntent::Left => limit(wide + follow, -(SCALE as i128), SCALE as i128),
        SteerIntent::Right => limit(wide - follow, -(SCALE as i128), SCALE as i128),
        SteerIntent::Straight => if wide > 0 {
            let eased: i128 = wide - decay;
            if eased < 0 {
                0
            } else {
                eased
            }
        } else if wide < 0 {
            let eased: i128 = wide + decay;
            if eased > 0 {
                0
            } else {
                eased
            }
        } else {
            0
        },
    };
    next as i64
}

/// `x` raised to `lo`, then lowered to `hi`.
pub fn limit(x: i128, lo: i128, hi: i128) -> (r: i128)
    ensures
        r == clamped(x as int, lo as int, hi as int),
{
    let raised: i128 = if x < lo { lo } else { x };
    if raised > hi {
        hi
    } else {
        raised
    }
}

/// The steer value after `n` ticks of `dt` seconds each, all with the same
/// intent.
pub open spec fn smoothed_over(steer: int, intent: SteerIntent, dt: int, n: nat) -> int
    decreases n,
{
    if n == 0 {
        steer
    } else {
        smoothed(smoothed_over(steer, intent, dt, (n - 1) as nat), intent, dt)
    }
}

/// How the time is cut into ticks makes no difference to the smoother. A
/// held intent moves the steer value by two per second until it stands at
/// one; a released steer value moves toward zero by one per second until it
/// stands there, and stays.
pub proof fn lemma_smoothed_over(steer: int, intent: SteerIntent, dt: int, n: nat)
    requires
        -SCALE <= steer <= SCALE,
        0 <= dt,
    ensures
        intent == SteerIntent::Left ==> smoothed_over(steer, intent, dt, n) == clamped(
            steer + 2 * (n * dt),
            -SCALE as int,
            SCALE as int,
        ),
        intent == SteerIntent::Right ==> smoothed_over(steer, intent, dt, n) == clamped(
            steer - 2 * (n * dt),
            -SCALE as int,
            SCALE as int,
        ),
        intent == SteerIntent::Straight && steer >= 0 ==> smoothed_over(steer, intent, dt, n) == clamped(
            steer - n * dt,
            0,
            steer,
        ),
        intent == SteerIntent::Straight && steer <= 0 ==> smoothed_over(steer, intent, dt, n) == clamped(
            steer + n * dt,
            steer,
            0,
        ),
    decreases n,
{
    if n > 0 {
        let m = (n - 1) as nat;
        lemma_smoothed_over(steer, intent, dt, m);
        lemma_whole_rates(dt);
        assert(n * dt == m * dt + dt) by (nonlinear_arith)
            requires
                n == m + 1,
        ;
        assert(0 <= m * dt) by (nonlinear_arith)
            requires
                0 <= dt,
        ;
    } else {
        assert(n * dt == 0) by (nonlinear_arith)
            requires
                n == 0,
        ;
    }
}

} // verus!
