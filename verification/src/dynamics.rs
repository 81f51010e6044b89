//! One tick of the model: from the commands and the elapsed time to the
//! next state.
use vstd::prelude::*;
use crate::config::VehicleConfig;
use crate::control::ControlInput;
use crate::drive::{drag, spec_drag, spec_throttle_force, spec_traction, throttle_force, traction};
use crate::fixed::{lemma_num_rules, Num, LIMIT};
use crate::state::{Pending, VehicleState};
use crate::steering::{lemma_smoothed_bounds, smooth_steer, smoothed};
use crate::tire::{
    front_load, front_slip, lateral_force, rear_grip, rear_load, rear_slip, spec_front_load,
    spec_front_slip, spec_lateral_force, spec_rear_grip, spec_rear_load, spec_rear_slip,
};
use crate::trig::lemma_num_trig_rules;
use crate::vector::NumVec2;

verus! {

/// Speed below which a car without throttle is brought to a full stop.
pub const LOW_SPEED: i64 = 500_000;

/// Why a tick was refused.
#[derive(Clone, Copy, Debug, PartialEq, Eq, Structural)]
pub enum TickError {
    /// The configuration is not that of a car.
    InvalidConfig,
    /// The state holds an undefined quantity or a steer value beyond one.
    InvalidState,
    /// The elapsed time is negative or undefined.
    InvalidDt,
    /// A quantity of the next state would be undefined.
    OutOfRange,
}

/// The forces of one tick in the car's frame.
#[derive(Clone, Copy, Debug)]
pub struct Forces {
    /// Lateral force of the front axle.
    pub front: Num,
    /// Lateral force of the rear axle.
    pub rear: Num,
    /// Sum of the forces along and across the car.
    pub total: NumVec2,
    /// Torque about the centre of gravity.
    pub torque: Num,
}

/// The forces on a car with the given velocity in its own frame. The axle
/// loads follow the forward acceleration of the tick before.
pub open spec fn spec_forces(
    c: VehicleConfig,
    input: ControlInput,
    local_velocity: NumVec2,
    yaw_rate: Num,
    steer_angle: Num,
    last_accel_x: Num,
) -> Forces {
    let front = spec_lateral_force(
        Num::of(c.corner_stiffness_front),
        spec_front_slip(c, local_velocity, yaw_rate, steer_angle),
        Num::of(c.tire_grip),
        spec_front_load(c, last_accel_x),
    );
    let rear = spec_lateral_force(
        Num::of(c.corner_stiffness_rear),
        spec_rear_slip(c, local_velocity, yaw_rate),
        spec_rear_grip(c, input.ebrake),
        spec_rear_load(c, last_accel_x),
    );
    Forces {
        front,
        rear,
        total: NumVec2 {
            x: spec_drag(c, local_velocity.x).plus(spec_traction(c, input, local_velocity.x)),
            y: spec_drag(c, local_velocity.y).plus(steer_angle.cos().times(front)).plus(rear),
        },
        torque: front.times(Num::of(c.center_to_front_axle)).minus(
            rear.times(Num::of(c.center_to_rear_axle)),
        ),
    }
}

#[verifier::when_used_as_spec(spec_forces)]
pub fn forces(
    c: VehicleConfig,
    input: ControlInput,
    local_velocity: NumVec2,
    yaw_rate: Num,
    steer_angle: Num,
    last_accel_x: Num,
) -> (r: Forces)
    ensures
        r == spec_forces(c, input, local_velocity, yaw_rate, steer_angle, last_accel_x),
{
    let front: Num = lateral_force(
        Num::of(c.corner_stiffness_front),
        front_slip(c, local_velocity, yaw_rate, steer_angle),
        Num::of(c.tire_grip),
        front_load(c, last_accel_x),
    );
    let rear: Num = lateral_force(
        Num::of(c.corner_stiffness_rear),
        rear_slip(c, local_velocity, yaw_rate),
        rear_grip(c, input.ebrake),
        rear_load(c, last_accel_x),
    );
    Forces {
        front,
        rear,
        total: NumVec2 {
            x: drag(c, local_velocity.x).plus(traction(c, input, local_velocity.x)),
            y: drag(c, local_velocity.y).plus(steer_angle.cos().times(front)).plus(rear),
        },
        torque: front.times(Num::of(c.center_to_front_axle)).minus(
            rear.times(Num::of(c.center_to_rear_axle)),
        ),
    }
}

/// What the forces of one tick do to a car, before anything is integrated.
#[derive(Clone, Copy, Debug)]
pub struct Motion {
    /// The smoothed steer value.
    pub steer: Num,
    /// Angle of the front wheels.
    pub steer_angle: Num,
    /// Velocity at the start of the tick, in the car's frame.
    pub local_velocity: NumVec2,
    /// The forces at that velocity.
    pub forces: Forces,
    /// Acceleration in the car's frame.
    pub local_acceleration: NumVec2,
    /// Acceleration in the world frame.
    pub acceleration: NumVec2,
    /// Velocity in the world frame with the acceleration added.
    pub velocity: NumVec2,
}

/// The first half of a tick. The steer value follows the intent, which counts
/// only while throttle or brake is on; the forces
/// are taken at the velocity seen from the car; the acceleration they give
/// is added to the velocity as it is, whatever the elapsed time.
pub open spec fn spec_motion(c: VehicleConfig, s: VehicleState, input: ControlInput, dt: i64) -> Motion {
    let steer = Num::lift(smoothed(s.steer as int, input.honored_steer(), dt as int));
    let steer_angle = steer.times(Num::of(c.max_steer));
    let local_velocity = NumVec2::of(s.velocity).to_local(Num::of(s.heading));
    let forces = spec_forces(
        c,
        input,
        local_velocity,
        Num::of(s.yaw_rate),
        steer_angle,
        Num::of(s.local_acceleration.x),
    );
    let local_acceleration = NumVec2 {
        x: forces.total.x.over(Num::of(c.mass)),
        y: forces.total.y.over(Num::of(c.mass)),
    };
    let acceleration = local_acceleration.to_world(Num::of(s.heading));
    Motion {
        steer,
        steer_angle,
        local_velocity,
        forces,
        local_acceleration,
        acceleration,
        velocity: NumVec2::of(s.velocity).plus(acceleration),
    }
}

#[verifier::when_used_as_spec(spec_motion)]
pub fn motion(c: VehicleConfig, s: VehicleState, input: ControlInput, dt: i64) -> (r: Motion)
    ensures
        r == spec_motion(c, s, input, dt),
{
    let steer: Num = Num::of(smooth_steer(s.steer, input.honored_steer(), dt));
    let steer_angle: Num = steer.times(Num::of(c.max_steer));
    let local_velocity: NumVec2 = NumVec2::of(s.velocity).to_local(Num::of(s.heading));
    let forces: Forces = forces(
        c,
        input,
        local_velocity,
        Num::of(s.yaw_rate),
        steer_angle,
        Num::of(s.local_acceleration.x),
    );
    let local_acceleration: NumVec2 = NumVec2 {
        x: forces.total.x.over(Num::of(c.mass)),
        y: forces.total.y.over(Num::of(c.mass)),
    };
    let acceleration: NumVec2 = local_acceleration.to_world(Num::of(s.heading));
    Motion {
        steer,
        steer_angle,
        local_velocity,
        forces,
        local_acceleration,
        acceleration,
        velocity: NumVec2::of(s.velocity).plus(acceleration),
    }
}

/// Whether a car that would move at `speed` is brought to a full stop: it is
/// slower than [`LOW_SPEED`] and the engine gives no force.
pub open spec fn spec_stops(c: VehicleConfig, input: ControlInput, speed: Num) -> bool {
    speed.abs().below(Num::of(LOW_SPEED)) && spec_throttle_force(c, input).is_zero()
}

#[verifier::when_used_as_spec(spec_stops)]
pub fn stops(c: VehicleConfig, input: ControlInput, speed: Num) -> (r: bool)
    ensures
        r == spec_stops(c, input, speed),
{
    speed.abs().below(Num::of(LOW_SPEED)) && throttle_force(c, input).is_zero()
}

/// The torque that enters the yaw rate: none for a car that is brought to a
/// full stop.
pub open spec fn spec_applied_torque(c: VehicleConfig, input: ControlInput, m: Motion) -> Num {
    if spec_stops(c, input, m.velocity.length()) {
        Num::of(0)
    } else {
        m.forces.torque
    }
}

#[verifier::when_used_as_spec(spec_applied_torque)]
pub fn applied_torque(c: VehicleConfig, input: ControlInput, m: Motion) -> (r: Num)
    ensures
        r == spec_applied_torque(c, input, m),
{
    if stops(c, input, m.velocity.length()) {
        Num::of(0)
    } else {
        m.forces.torque
    }
}

/// The second half of a tick. A slow car without throttle is brought to a
/// full stop: velocity, yaw rate and torque become zero. Then the torque
/// enters the yaw rate in proportion to `dt`, the yaw rate is added to the
/// heading as it is, and the velocity enters the position in proportion to
/// `dt`. The position moves along the car's forward axis, the world's y axis
/// turned by the new heading, taken component by component with the
/// velocity.
pub open spec fn spec_integrate(
    c: VehicleConfig,
    s: VehicleState,
    input: ControlInput,
    dt: i64,
    m: Motion,
) -> Pending {
    let stop = spec_stops(c, input, m.velocity.length());
    let velocity = if stop { NumVec2 { x: Num::of(0), y: Num::of(0) } } else { m.velocity };
    let turning = if stop { Num::of(0) } else { Num::of(s.yaw_rate) };
    let yaw_rate = turning.plus(
        spec_applied_torque(c, input, m).over(Num::of(c.inertia)).times(Num::of(dt)),
    );
    let heading = Num::of(s.heading).plus(yaw_rate);
    Pending {
        heading,
        position: NumVec2 {
            x: Num::of(s.position.x).plus(heading.sin().neg().times(velocity.x).times(Num::of(dt))),
            y: Num::of(s.position.y).plus(heading.cos().times(velocity.y).times(Num::of(dt))),
        },
        velocity,
        local_velocity: m.local_velocity,
        acceleration: m.acceleration,
        local_acceleration: m.local_acceleration,
        absolute_velocity: if stop { Num::of(0) } else { m.velocity.length() },
        yaw_rate,
        steer: m.steer,
        steer_angle: m.steer_angle,
    }
}

#[verifier::when_used_as_spec(spec_integrate)]
pub fn integrate(c: VehicleConfig, s: VehicleState, input: ControlInput, dt: i64, m: Motion) -> (r: Pending)
    ensures
        r == spec_integrate(c, s, input, dt, m),
{
    let speed: Num = m.velocity.length();
    let stop: bool = stops(c, input, speed);
    let velocity: NumVec2 = if stop { NumVec2 { x: Num::of(0), y: Num::of(0) } } else { m.velocity };
    let turning: Num = if stop { Num::of(0) } else { Num::of(s.yaw_rate) };
    let yaw_rate: Num = turning.plus(
        applied_torque(c, input, m).over(Num::of(c.inertia)).times(Num::of(dt)),
    );
    let heading: Num = Num::of(s.heading).plus(yaw_rate);
    Pending {
        heading,
        position: NumVec2 {
            x: Num::of(s.position.x).plus(heading.sin().neg().times(velocity.x).times(Num::of(dt))),
            y: Num::of(s.position.y).plus(heading.cos().times(velocity.y).times(Num::of(dt))),
        },
        velocity,
        local_velocity: m.local_velocity,
        acceleration: m.acceleration,
        local_acceleration: m.local_acceleration,
        absolute_velocity: if stop { Num::of(0) } else { speed },
        yaw_rate,
        steer: m.steer,
        steer_angle: m.steer_angle,
    }
}

/// The state after one tick of `dt` seconds, with every quantity that left
/// the range marked undefined.
pub open spec fn spec_step(c: VehicleConfig, s: VehicleState, input: ControlInput, dt: i64) -> Pending {
    spec_integrate(c, s, input, dt, spec_motion(c, s, input, dt))
}

#[verifier::when_used_as_spec(spec_step)]
pub fn step(c: VehicleConfig, s: VehicleState, input: ControlInput, dt: i64) -> (r: Pending)
    ensures
        r == spec_step(c, s, input, dt),
{
    integrate(c, s, input, dt, motion(c, s, input, dt))
}

/// What a tick comes to: the next state, or the reason for which the tick is
/// refused. The reasons are tried in the order of [`TickError`].
pub open spec fn outcome(c: VehicleConfig, s: VehicleState, input: ControlInput, dt: i64) -> Result<VehicleState, TickError> {
    if !c.valid() {
        Err(TickError::InvalidConfig)
    } else if !s.valid() {
        Err(TickError::InvalidState)
    } else if dt < 0 || dt > LIMIT {
        Err(TickError::InvalidDt)
    } else {
        match spec_step(c, s, input, dt).settle() {
            Some(next) => Ok(next),
            None => Err(TickError::OutOfRange),
        }
    }
}

/// What the caller is told of a tick: that it was accepted, or why it was
/// refused.
pub open spec fn verdict(c: VehicleConfig, s: VehicleState, input: ControlInput, dt: i64) -> Result<(), TickError> {
    match outcome(c, s, input, dt) {
        Ok(_) => Ok(()),
        Err(e) => Err(e),
    }
}

/// The state after a tick, whether it was accepted or refused.
pub open spec fn after(c: VehicleConfig, s: VehicleState, input: ControlInput, dt: i64) -> VehicleState {
    match outcome(c, s, input, dt) {
        Ok(next) => next,
        Err(_) => s,
    }
}

/// The state after one tick for each of the elapsed times `dts`, in their
/// order, all under the same commands.
pub open spec fn after_all(c: VehicleConfig, s: VehicleState, input: ControlInput, dts: Seq<i64>) -> VehicleState
    decreases dts.len(),
{
    if dts.len() == 0 {
        s
    } else {
        after(c, after_all(c, s, input, dts.drop_last()), input, dts.last())
    }
}

/// The state that follows `s` after one tick of `dt` seconds under the
/// commands `input`, or the reason for which the tick is refused.
pub fn next_state(c: &VehicleConfig, s: &VehicleState, input: ControlInput, dt: i64) -> (r: Result<VehicleState, TickError>)
    ensures
        r == outcome(*c, *s, input, dt),
        r is Ok ==> after(*c, *s, input, dt).valid(),
{
    if !c.is_valid() {
        return Err(TickError::InvalidConfig);
    }
    if !s.is_valid() {
        return Err(TickError::InvalidState);
    }
    if dt < 0 || dt > LIMIT {
        return Err(TickError::InvalidDt);
    }
    match step(*c, *s, input, dt).settle() {
        Some(next) => {
            proof {
                lemma_smoothed_bounds(s.steer as int, input.honored_steer(), dt as int);
                lemma_num_rules();
                lemma_num_trig_rules();
            }
            Ok(next)
        },
        None => Err(TickError::OutOfRange),
    }
}

/// Advances `state` by one tick of `dt` seconds under the commands `input`.
/// A refused tick leaves the state as it was.
pub fn update(c: &VehicleConfig, state: &mut VehicleState, input: ControlInput, dt: i64) -> (r: Result<(), TickError>)
    ensures
        r == verdict(*c, *old(state), input, dt),
        *final(state) == after(*c, *old(state), input, dt),
        r is Ok ==> final(state).valid(),
{
    match next_state(c, state, input, dt) {
        Ok(next) => {
            *state = next;
            Ok(())
        },
        Err(e) => Err(e),
    }
}

} // verus!
