//! A car that drives straight ahead along heading zero.
use vstd::prelude::*;
use crate::config::VehicleConfig;
use crate::control::{ControlInput, SteerIntent};
use crate::drive::{spec_drag, spec_traction};
use crate::dynamics::{after, outcome, spec_integrate, spec_motion, spec_stops};
use crate::fixed::{lemma_num_rules, lemma_num_unit_rules, ratio, Num, SCALE};
use crate::tire::lemma_rear_grip;
use crate::state::VehicleState;
use crate::trig::lemma_num_trig_rules;

verus! {

/// Whether the car moves forward, or stands, along heading zero without
/// turning or steering.
pub open spec fn drives_straight(s: VehicleState) -> bool {
    &&& s.heading == 0
    &&& s.velocity.x >= 0
    &&& s.velocity.y == 0
    &&& s.yaw_rate == 0
    &&& s.steer == 0
}

/// The force along a car that moves at the forward speed `v`: engine and
/// brakes less drag.
pub open spec fn net_force(c: VehicleConfig, input: ControlInput, v: i64) -> Num {
    spec_drag(c, Num::of(v)).plus(spec_traction(c, input, Num::of(v)))
}

/// The sign of a quotient of quantities with a positive divisor is that of
/// the dividend, and the quotient is at least one raw unit once the dividend
/// is at least a millionth of the divisor.
pub proof fn lemma_ratio_sign(a: int, b: int)
    requires
        b > 0,
    ensures
        a >= 0 ==> ratio(a, b) >= 0,
        a <= 0 ==> ratio(a, b) <= 0,
        a * SCALE >= b ==> ratio(a, b) >= 1,
{
    let n = a * SCALE;
    assert(a >= 0 ==> n >= 0) by (nonlinear_arith)
        requires
            n == a * SCALE,
    ;
    assert(a <= 0 ==> n <= 0) by (nonlinear_arith)
        requires
            n == a * SCALE,
    ;
    if n >= 0 {
        assert(n / b >= 0) by (nonlinear_arith)
            requires
                n >= 0,
                b > 0,
        ;
        if n >= b {
            assert(n / b >= 1) by (nonlinear_arith)
                requires
                    n >= b,
                    b > 0,
            ;
        }
    } else {
        assert((-n) / b >= 0) by (nonlinear_arith)
            requires
                n < 0,
                b > 0,
        ;
    }
}

/// Under throttle, with an engine that has force, a car that drives straight
/// goes on driving straight, and its forward speed changes by the net force
/// over the mass, whatever the elapsed time. So the speed does not fall
/// while the engine outweighs drag and brakes, rises once the net force is
/// at least a millionth of the mass, and does not rise once drag and brakes
/// balance the engine.
pub proof fn lemma_straight_line(c: VehicleConfig, s: VehicleState, input: ControlInput, dt: i64)
    requires
        drives_straight(s),
        input.throttle,
        input.honored_steer() == SteerIntent::Straight,
        c.engine_force > 0,
        outcome(c, s, input, dt) is Ok,
    ensures
        net_force(c, input, s.velocity.x).is_defined(),
        drives_straight(after(c, s, input, dt)) || after(c, s, input, dt).velocity.x < 0,
        after(c, s, input, dt).velocity.y == 0,
        after(c, s, input, dt).local_velocity == s.velocity,
        after(c, s, input, dt).velocity.x
            == s.velocity.x + ratio(net_force(c, input, s.velocity.x).value(), c.mass as int),
        net_force(c, input, s.velocity.x).value() >= 0
            ==> after(c, s, input, dt).velocity.x >= s.velocity.x,
        net_force(c, input, s.velocity.x).value() * SCALE >= c.mass
            ==> after(c, s, input, dt).velocity.x > s.velocity.x,
        net_force(c, input, s.velocity.x).value() <= 0
            ==> after(c, s, input, dt).velocity.x <= s.velocity.x,
{
    lemma_num_rules();
    lemma_num_unit_rules();
    lemma_num_trig_rules();
    lemma_rear_grip(c, input.ebrake);
    let m = spec_motion(c, s, input, dt);
    let p = spec_integrate(c, s, input, dt, m);
    let v = Num::of(s.velocity.x);
    assert(m.local_velocity.x == v);
    assert(v.abs() == v) by {
        reveal(Num::spec_abs);
    }
    assert(m.forces.front == Num::of(0));
    assert(m.forces.rear == Num::of(0));
    assert(m.forces.total.x == net_force(c, input, s.velocity.x));
    assert(m.acceleration.x == m.local_acceleration.x);
    assert(m.velocity.y == Num::of(0));
    assert(!spec_stops(c, input, m.velocity.length())) by {
        reveal(Num::spec_times);
        crate::fixed::lemma_product_unit(c.engine_force as int);
    }
    assert(p.yaw_rate == Num::of(0));
    let force = net_force(c, input, s.velocity.x).value();
    lemma_ratio_sign(force, c.mass as int);
    assert(m.velocity.x.value() == s.velocity.x + ratio(force, c.mass as int)) by {
        reveal(Num::spec_plus);
        reveal(Num::spec_over);
    }
}

} // verus!
