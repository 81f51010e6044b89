//! Cars that stand still, or are brought to a stop, and ticks in which no
//! time passes.
use vstd::prelude::*;
use crate::config::VehicleConfig;
use crate::control::{ControlInput, SteerIntent};
use crate::dynamics::{
    after, after_all, outcome, spec_applied_torque, spec_integrate, spec_motion, spec_stops,
};
use crate::fixed::{lemma_num_rules, lemma_num_unit_rules, Num, LIMIT};
use crate::tire::lemma_rear_grip;
use crate::state::VehicleState;
use crate::steering::lemma_smoothed_bounds;
use crate::trig::lemma_num_trig_rules;
use crate::vector::{lemma_norm_zero, Vec2};

verus! {

/// A car that would be slower than the low-speed limit, with an engine that
/// gives no force, is brought to a full stop whatever forces were found in
/// the tick: the tick is accepted, no torque enters the yaw rate, velocity
/// and yaw rate are zero afterwards, and heading and position stay.
pub proof fn lemma_full_stop(c: VehicleConfig, s: VehicleState, input: ControlInput, dt: i64)
    requires
        c.valid(),
        s.valid(),
        0 <= dt <= LIMIT,
        spec_stops(c, input, spec_motion(c, s, input, dt).velocity.length()),
    ensures
        spec_applied_torque(c, input, spec_motion(c, s, input, dt)) == Num::of(0),
        outcome(c, s, input, dt) is Ok,
        after(c, s, input, dt).velocity == Vec2::zero(),
        after(c, s, input, dt).absolute_velocity == 0,
        after(c, s, input, dt).yaw_rate == 0,
        after(c, s, input, dt).heading == s.heading,
        after(c, s, input, dt).position == s.position,
{
    lemma_num_rules();
    lemma_num_unit_rules();
    lemma_num_trig_rules();
    lemma_smoothed_bounds(s.steer as int, input.honored_steer(), dt as int);
}

/// A car at rest that gets neither throttle nor a steering command that
/// counts stays at rest: after the tick, accepted or refused, it stands
/// where it stood and points where it pointed. Brake and emergency brake
/// make no difference.
pub proof fn lemma_rest_is_kept(c: VehicleConfig, s: VehicleState, input: ControlInput, dt: i64)
    requires
        s.at_rest(),
        !input.throttle,
        input.honored_steer() == SteerIntent::Straight,
    ensures
        after(c, s, input, dt).at_rest(),
        after(c, s, input, dt).heading == s.heading,
        after(c, s, input, dt).position == s.position,
{
    if outcome(c, s, input, dt) is Ok {
        lemma_num_rules();
        lemma_num_unit_rules();
        lemma_num_trig_rules();
        lemma_norm_zero();
        lemma_rear_grip(c, input.ebrake);
        let m = spec_motion(c, s, input, dt);
        assert(m.forces.front == Num::of(0));
        assert(m.forces.rear == Num::of(0));
        assert(m.velocity.length() == Num::of(0));
        assert(spec_stops(c, input, m.velocity.length())) by {
            reveal(Num::spec_abs);
        }
        lemma_full_stop(c, s, input, dt);
    }
}

/// A car at rest stays at rest over any number of ticks without throttle and
/// steering, however long each of them is.
pub proof fn lemma_rest_is_kept_for_good(
    c: VehicleConfig,
    s: VehicleState,
    input: ControlInput,
    dts: Seq<i64>,
)
    requires
        s.at_rest(),
        !input.throttle,
        input.honored_steer() == SteerIntent::Straight,
    ensures
        after_all(c, s, input, dts).at_rest(),
        after_all(c, s, input, dts).heading == s.heading,
        after_all(c, s, input, dts).position == s.position,
    decreases dts.len(),
{
    if dts.len() > 0 {
        lemma_rest_is_kept_for_good(c, s, input, dts.drop_last());
        lemma_rest_is_kept(c, after_all(c, s, input, dts.drop_last()), input, dts.last());
    }
}

/// A tick in which no time passes moves neither the car nor the steering.
/// The velocity still takes up the acceleration and the heading the yaw
/// rate, neither of which is scaled by the elapsed time: the heading stays
/// exactly when the yaw rate after the tick is zero, and the yaw rate itself
/// stays unless the car is brought to a full stop.
pub proof fn lemma_no_time_passes(c: VehicleConfig, s: VehicleState, input: ControlInput)
    ensures
        after(c, s, input, 0).position == s.position,
        after(c, s, input, 0).steer == s.steer,
        outcome(c, s, input, 0) is Ok ==> after(c, s, input, 0).heading
            == s.heading + after(c, s, input, 0).yaw_rate,
        after(c, s, input, 0).yaw_rate == s.yaw_rate
            || (after(c, s, input, 0).yaw_rate == 0 && after(c, s, input, 0).velocity == Vec2::zero()),
{
    if outcome(c, s, input, 0) is Ok {
        lemma_num_rules();
        lemma_num_unit_rules();
        lemma_num_trig_rules();
        lemma_smoothed_bounds(s.steer as int, input.honored_steer(), 0);
        crate::steering::lemma_whole_rates(0);
        let p = spec_integrate(c, s, input, 0, spec_motion(c, s, input, 0));
        assert(p.heading.value() == s.heading + p.yaw_rate.value()) by {
            reveal(Num::spec_plus);
        }
    }
}

} // verus!
