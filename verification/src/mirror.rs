//! The model has no preferred side: a car that starts as the mirror image of
//! another and is steered the other way stays its mirror image.
use vstd::prelude::*;
use crate::config::VehicleConfig;
use crate::control::{ControlInput, SteerIntent};
use crate::drive::spec_drag;
use crate::dynamics::{
    after_all, outcome, spec_forces, spec_integrate, spec_motion, spec_step, Forces, Motion,
    TickError,
};
use crate::fixed::{in_range, lemma_num_rules, Num, LIMIT};
use crate::state::{Pending, VehicleState};
use crate::steering::{lemma_smoothed_bounds, smoothed};
use crate::tire::{
    lemma_rear_grip, spec_front_load, spec_front_slip, spec_lateral_force, spec_rear_grip,
    spec_rear_load, spec_rear_slip,
};
use crate::trig::lemma_num_trig_rules;
use crate::vector::{lemma_length_even, NumVec2, Vec2};

verus! {

/// The negative of `x`; the most negative integer, which has none, gives the
/// most positive one.
pub open spec fn spec_flipped(x: i64) -> i64 {
    if x == i64::MIN {
        i64::MAX
    } else {
        (-x) as i64
    }
}

#[verifier::when_used_as_spec(spec_flipped)]
pub fn flipped(x: i64) -> (r: i64)
    ensures
        r == spec_flipped(x),
{
    if x == i64::MIN {
        i64::MAX
    } else {
        -x
    }
}

impl Vec2 {
    /// The vector mirrored at the x axis.
    pub open spec fn spec_mirrored(self) -> Vec2 {
        Vec2 { x: self.x, y: flipped(self.y) }
    }

    #[verifier::when_used_as_spec(spec_mirrored)]
    pub fn mirrored(self) -> (r: Vec2)
        ensures
            r == self.spec_mirrored(),
    {
        Vec2 { x: self.x, y: flipped(self.y) }
    }

    /// The vector mirrored at the origin.
    pub open spec fn spec_reversed(self) -> Vec2 {
        Vec2 { x: flipped(self.x), y: flipped(self.y) }
    }

    #[verifier::when_used_as_spec(spec_reversed)]
    pub fn reversed(self) -> (r: Vec2)
        ensures
            r == self.spec_reversed(),
    {
        Vec2 { x: flipped(self.x), y: flipped(self.y) }
    }
}

impl NumVec2 {
    /// Whether both components are well formed.
    pub open spec fn wf(self) -> bool {
        self.x.wf() && self.y.wf()
    }

    /// The vector mirrored at the x axis.
    pub open spec fn mirrored(self) -> NumVec2 {
        NumVec2 { x: self.x, y: self.y.neg() }
    }

    /// The vector mirrored at the origin.
    pub open spec fn reversed(self) -> NumVec2 {
        NumVec2 { x: self.x.neg(), y: self.y.neg() }
    }
}

impl VehicleState {
    /// The mirror image of the state: heading, yaw rate, steering and every
    /// lateral component are negated. The position is mirrored at the
    /// origin, because each of its components moves with the product of the
    /// forward axis and the velocity, of which one factor changes sign.
    pub open spec fn spec_mirrored(self) -> VehicleState {
        VehicleState {
            heading: flipped(self.heading),
            position: self.position.reversed(),
            velocity: self.velocity.mirrored(),
            local_velocity: self.local_velocity.mirrored(),
            acceleration: self.acceleration.mirrored(),
            local_acceleration: self.local_acceleration.mirrored(),
            absolute_velocity: self.absolute_velocity,
            yaw_rate: flipped(self.yaw_rate),
            steer: flipped(self.steer),
            steer_angle: flipped(self.steer_angle),
        }
    }

    #[verifier::when_used_as_spec(spec_mirrored)]
    pub fn mirrored(self) -> (r: VehicleState)
        ensures
            r == self.spec_mirrored(),
    {
        VehicleState {
            heading: flipped(self.heading),
            position: self.position.reversed(),
            velocity: self.velocity.mirrored(),
            local_velocity: self.local_velocity.mirrored(),
            acceleration: self.acceleration.mirrored(),
            local_acceleration: self.local_acceleration.mirrored(),
            absolute_velocity: self.absolute_velocity,
            yaw_rate: flipped(self.yaw_rate),
            steer: flipped(self.steer),
            steer_angle: flipped(self.steer_angle),
        }
    }
}

impl Forces {
    /// The forces on the mirror image of the car.
    pub open spec fn mirrored(self) -> Forces {
        Forces {
            front: self.front.neg(),
            rear: self.rear.neg(),
            total: self.total.mirrored(),
            torque: self.torque.neg(),
        }
    }
}

impl Motion {
    /// The motion of the mirror image of the car.
    pub open spec fn mirrored(self) -> Motion {
        Motion {
            steer: self.steer.neg(),
            steer_angle: self.steer_angle.neg(),
            local_velocity: self.local_velocity.mirrored(),
            forces: self.forces.mirrored(),
            local_acceleration: self.local_acceleration.mirrored(),
            acceleration: self.acceleration.mirrored(),
            velocity: self.velocity.mirrored(),
        }
    }

    /// Whether every quantity is well formed.
    pub open spec fn wf(self) -> bool {
        &&& self.steer.wf()
        &&& self.steer_angle.wf()
        &&& self.local_velocity.wf()
        &&& self.forces.front.wf()
        &&& self.forces.rear.wf()
        &&& self.forces.total.wf()
        &&& self.forces.torque.wf()
        &&& self.local_acceleration.wf()
        &&& self.acceleration.wf()
        &&& self.velocity.wf()
    }
}

impl Pending {
    /// Whether every quantity is well formed.
    pub open spec fn wf(self) -> bool {
        &&& self.heading.wf()
        &&& self.position.wf()
        &&& self.velocity.wf()
        &&& self.local_velocity.wf()
        &&& self.acceleration.wf()
        &&& self.local_acceleration.wf()
        &&& self.absolute_velocity.wf()
        &&& self.yaw_rate.wf()
        &&& self.steer.wf()
        &&& self.steer_angle.wf()
    }

    /// The next state of the mirror image of the car.
    pub open spec fn mirrored(self) -> Pending {
        Pending {
            heading: self.heading.neg(),
            position: self.position.reversed(),
            velocity: self.velocity.mirrored(),
            local_velocity: self.local_velocity.mirrored(),
            acceleration: self.acceleration.mirrored(),
            local_acceleration: self.local_acceleration.mirrored(),
            absolute_velocity: self.absolute_velocity,
            yaw_rate: self.yaw_rate.neg(),
            steer: self.steer.neg(),
            steer_angle: self.steer_angle.neg(),
        }
    }
}

/// Seen from the mirrored car, the mirrored vector is the mirror image of
/// what the car sees.
pub proof fn lemma_to_local_mirrored(v: NumVec2, heading: Num)
    requires
        v.wf(),
        heading.wf(),
    ensures
        v.mirrored().to_local(heading.neg()) == v.to_local(heading).mirrored(),
        v.to_local(heading).wf(),
{
    lemma_num_rules();
    lemma_num_trig_rules();
}

/// What the mirrored car sees as the mirrored vector is, in the world, the
/// mirror image of the vector.
pub proof fn lemma_to_world_mirrored(v: NumVec2, heading: Num)
    requires
        v.wf(),
        heading.wf(),
    ensures
        v.mirrored().to_world(heading.neg()) == v.to_world(heading).mirrored(),
        v.to_world(heading).wf(),
{
    lemma_num_rules();
    lemma_num_trig_rules();
}

/// The lateral force of an axle is odd in the slip angle.
pub proof fn lemma_lateral_force_mirrored(stiffness: Num, slip: Num, grip: Num, load: Num)
    requires
        stiffness.wf(),
        slip.wf(),
        grip.wf(),
        load.wf(),
        grip.is_defined() ==> grip.value() >= 0,
    ensures
        spec_lateral_force(stiffness, slip.neg(), grip, load) == spec_lateral_force(
            stiffness,
            slip,
            grip,
            load,
        ).neg(),
        spec_lateral_force(stiffness, slip, grip, load).wf(),
{
    lemma_num_rules();
}

/// Drag is odd in the speed.
pub proof fn lemma_drag_mirrored(c: VehicleConfig, v: Num)
    requires
        v.wf(),
    ensures
        spec_drag(c, v.neg()) == spec_drag(c, v).neg(),
        spec_drag(c, v).wf(),
{
    lemma_num_rules();
}

/// The slip angles are odd in the lateral velocity, the yaw rate and the
/// steering angle taken together.
pub proof fn lemma_slip_mirrored(c: VehicleConfig, v: NumVec2, yaw_rate: Num, steer_angle: Num)
    requires
        v.wf(),
        yaw_rate.wf(),
        steer_angle.wf(),
    ensures
        spec_front_slip(c, v.mirrored(), yaw_rate.neg(), steer_angle.neg()) == spec_front_slip(
            c,
            v,
            yaw_rate,
            steer_angle,
        ).neg(),
        spec_rear_slip(c, v.mirrored(), yaw_rate.neg()) == spec_rear_slip(c, v, yaw_rate).neg(),
        spec_front_slip(c, v, yaw_rate, steer_angle).wf(),
        spec_rear_slip(c, v, yaw_rate).wf(),
{
    lemma_num_rules();
    lemma_num_trig_rules();
}

/// The forces on the mirrored car are the mirror image of the forces on the
/// car.
pub proof fn lemma_forces_mirrored(
    c: VehicleConfig,
    input: ControlInput,
    v: NumVec2,
    yaw_rate: Num,
    steer_angle: Num,
    last_accel_x: Num,
)
    requires
        c.valid(),
        v.wf(),
        yaw_rate.wf(),
        steer_angle.wf(),
        last_accel_x.wf(),
    ensures
        spec_forces(c, input.mirrored(), v.mirrored(), yaw_rate.neg(), steer_angle.neg(), last_accel_x)
            == spec_forces(c, input, v, yaw_rate, steer_angle, last_accel_x).mirrored(),
        spec_forces(c, input, v, yaw_rate, steer_angle, last_accel_x).front.wf(),
        spec_forces(c, input, v, yaw_rate, steer_angle, last_accel_x).rear.wf(),
        spec_forces(c, input, v, yaw_rate, steer_angle, last_accel_x).total.wf(),
        spec_forces(c, input, v, yaw_rate, steer_angle, last_accel_x).torque.wf(),
{
    lemma_num_rules();
    lemma_num_trig_rules();
    lemma_slip_mirrored(c, v, yaw_rate, steer_angle);
    lemma_rear_grip(c, input.ebrake);
    lemma_lateral_force_mirrored(
        Num::of(c.corner_stiffness_front),
        spec_front_slip(c, v, yaw_rate, steer_angle),
        Num::of(c.tire_grip),
        spec_front_load(c, last_accel_x),
    );
    lemma_lateral_force_mirrored(
        Num::of(c.corner_stiffness_rear),
        spec_rear_slip(c, v, yaw_rate),
        spec_rear_grip(c, input.ebrake),
        spec_rear_load(c, last_accel_x),
    );
    lemma_drag_mirrored(c, v.y);
}

/// The steering smoother is odd: the mirrored intent moves the negated steer
/// value to the negated result.
pub proof fn lemma_smoothed_mirrored(steer: int, intent: SteerIntent, dt: int)
    ensures
        smoothed(-steer, intent.mirrored(), dt) == -smoothed(steer, intent, dt),
{
}

/// The quantity of a negated raw value in range is the negated quantity.
pub proof fn lemma_of_flipped(x: i64)
    ensures
        in_range(x as int) == in_range(flipped(x) as int),
        in_range(x as int) ==> Num::of(flipped(x)) == Num::of(x).neg(),
        Num::of(x).wf(),
        Num::of(0).neg() == Num::of(0),
{
    reveal(Num::spec_neg);
}

/// The first half of the mirrored car's tick is the mirror image of the
/// first half of the car's tick.
pub proof fn lemma_motion_mirrored(c: VehicleConfig, s: VehicleState, input: ControlInput, dt: i64)
    requires
        c.valid(),
        s.valid(),
    ensures
        spec_motion(c, s.mirrored(), input.mirrored(), dt) == spec_motion(c, s, input, dt).mirrored(),
        spec_motion(c, s, input, dt).wf(),
{
    lemma_num_rules();
    lemma_num_trig_rules();
    lemma_of_flipped(s.heading);
    lemma_of_flipped(s.velocity.x);
    lemma_of_flipped(s.velocity.y);
    lemma_of_flipped(s.yaw_rate);
    lemma_of_flipped(s.steer);
    lemma_of_flipped(s.local_acceleration.x);
    lemma_smoothed_mirrored(s.steer as int, input.honored_steer(), dt as int);
    lemma_smoothed_bounds(s.steer as int, input.honored_steer(), dt as int);
    let m = spec_motion(c, s, input, dt);
    let heading = Num::of(s.heading);
    let v = NumVec2::of(s.velocity);
    assert(m.steer.neg() == Num::lift(-smoothed(s.steer as int, input.honored_steer(), dt as int))) by {
        reveal(Num::spec_neg);
    }
    lemma_to_local_mirrored(v, heading);
    lemma_forces_mirrored(
        c,
        input,
        m.local_velocity,
        Num::of(s.yaw_rate),
        m.steer_angle,
        Num::of(s.local_acceleration.x),
    );
    lemma_to_world_mirrored(m.local_acceleration, heading);
}

/// The second half of the mirrored car's tick is the mirror image of the
/// second half of the car's tick.
pub proof fn lemma_integrate_mirrored(
    c: VehicleConfig,
    s: VehicleState,
    input: ControlInput,
    dt: i64,
    m: Motion,
)
    requires
        c.valid(),
        s.valid(),
        m.wf(),
    ensures
        spec_integrate(c, s.mirrored(), input.mirrored(), dt, m.mirrored()) == spec_integrate(
            c,
            s,
            input,
            dt,
            m,
        ).mirrored(),
        spec_integrate(c, s, input, dt, m).wf(),
{
    lemma_num_rules();
    lemma_num_trig_rules();
    lemma_of_flipped(s.heading);
    lemma_of_flipped(s.position.x);
    lemma_of_flipped(s.position.y);
    lemma_of_flipped(s.yaw_rate);
    lemma_length_even(m.velocity);
}

/// The mirror image of what a tick comes to.
pub open spec fn mirrored_outcome(r: Result<VehicleState, TickError>) -> Result<VehicleState, TickError> {
    match r {
        Ok(next) => Ok(next.mirrored()),
        Err(e) => Err(e),
    }
}

/// The model has no preferred side. Take any car and its mirror image:
/// heading, yaw rate, steer value and the lateral components of velocity and
/// acceleration negated, the position mirrored at the origin. Give the
/// mirror image the opposite steering intent. Then a tick is refused for
/// both or for neither, for the same reason, and the next state of the
/// mirror image is the mirror image of the car's next state.
pub proof fn lemma_mirror_symmetry(c: VehicleConfig, s: VehicleState, input: ControlInput, dt: i64)
    ensures
        outcome(c, s.mirrored(), input.mirrored(), dt) == mirrored_outcome(outcome(c, s, input, dt)),
{
    lemma_of_flipped(s.heading);
    lemma_of_flipped(s.position.x);
    lemma_of_flipped(s.position.y);
    lemma_of_flipped(s.velocity.x);
    lemma_of_flipped(s.velocity.y);
    lemma_of_flipped(s.local_velocity.x);
    lemma_of_flipped(s.local_velocity.y);
    lemma_of_flipped(s.acceleration.x);
    lemma_of_flipped(s.acceleration.y);
    lemma_of_flipped(s.local_acceleration.x);
    lemma_of_flipped(s.local_acceleration.y);
    lemma_of_flipped(s.absolute_velocity);
    lemma_of_flipped(s.yaw_rate);
    lemma_of_flipped(s.steer);
    lemma_of_flipped(s.steer_angle);
    if c.valid() && s.valid() && 0 <= dt <= LIMIT {
        lemma_motion_mirrored(c, s, input, dt);
        lemma_integrate_mirrored(c, s, input, dt, spec_motion(c, s, input, dt));
        lemma_pending_mirrored(spec_step(c, s, input, dt));
    }
}

/// The mirror image of a state in the making is finished exactly when the
/// state is, and to its mirror image.
pub proof fn lemma_pending_mirrored(p: Pending)
    requires
        p.wf(),
    ensures
        p.mirrored().is_defined() == p.is_defined(),
        p.is_defined() ==> p.mirrored().value() == p.value().mirrored(),
{
    reveal(Num::spec_neg);
}

/// Over any number of ticks under the same commands, the mirror image of a
/// car drives the mirror image of the car's path.
pub proof fn lemma_mirror_symmetry_for_good(
    c: VehicleConfig,
    s: VehicleState,
    input: ControlInput,
    dts: Seq<i64>,
)
    ensures
        after_all(c, s.mirrored(), input.mirrored(), dts) == after_all(c, s, input, dts).mirrored(),
    decreases dts.len(),
{
    if dts.len() > 0 {
        lemma_mirror_symmetry_for_good(c, s, input, dts.drop_last());
        lemma_mirror_symmetry(c, after_all(c, s, input, dts.drop_last()), input, dts.last());
    }
}

} // verus!
