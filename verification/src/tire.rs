//! Axle loads, slip angles and the lateral force of the tires.
use vstd::prelude::*;
use crate::config::VehicleConfig;
use crate::control::level;
use crate::fixed::{lemma_product_magnitude, lemma_product_unit, magnitude, product, Num, SCALE};
use crate::vector::NumVec2;

verus! {

/// The part of the weight that moves from the front axle to the rear one
/// under the forward acceleration `accel_x`, per unit of mass.
pub open spec fn spec_load_shift(c: VehicleConfig, accel_x: Num) -> Num {
    Num::of(c.weight_transfer).times(accel_x).times(Num::of(c.center_height)).over(
        Num::of(c.wheel_base),
    )
}

#[verifier::when_used_as_spec(spec_load_shift)]
pub fn load_shift(c: VehicleConfig, accel_x: Num) -> (r: Num)
    ensures
        r == spec_load_shift(c, accel_x),
{
    Num::of(c.weight_transfer).times(accel_x).times(Num::of(c.center_height)).over(
        Num::of(c.wheel_base),
    )
}

/// Normal load on the front axle: the static share of the weight less what
/// the acceleration shifts to the rear.
pub open spec fn spec_front_load(c: VehicleConfig, accel_x: Num) -> Num {
    Num::of(c.mass).times(
        Num::of(c.axle_weight_ratio_front).times(Num::of(c.gravity)).minus(
            spec_load_shift(c, accel_x),
        ),
    )
}

#[verifier::when_used_as_spec(spec_front_load)]
pub fn front_load(c: VehicleConfig, accel_x: Num) -> (r: Num)
    ensures
        r == spec_front_load(c, accel_x),
{
    Num::of(c.mass).times(
        Num::of(c.axle_weight_ratio_front).times(Num::of(c.gravity)).minus(load_shift(c, accel_x)),
    )
}

/// Normal load on the rear axle: the static share of the weight plus what
/// the acceleration shifts to the rear.
pub open spec fn spec_rear_load(c: VehicleConfig, accel_x: Num) -> Num {
    Num::of(c.mass).times(
        Num::of(c.axle_weight_ratio_rear).times(Num::of(c.gravity)).plus(
            spec_load_shift(c, accel_x),
        ),
    )
}

#[verifier::when_used_as_spec(spec_rear_load)]
pub fn rear_load(c: VehicleConfig, accel_x: Num) -> (r: Num)
    ensures
        r == spec_rear_load(c, accel_x),
{
    Num::of(c.mass).times(
        Num::of(c.axle_weight_ratio_rear).times(Num::of(c.gravity)).plus(load_shift(c, accel_x)),
    )
}

/// Slip angle of the front wheels: the angle of their motion in the car's
/// frame, less the steering angle taken in the direction of travel.
pub open spec fn spec_front_slip(
    c: VehicleConfig,
    local_velocity: NumVec2,
    yaw_rate: Num,
    steer_angle: Num,
) -> Num {
    let yaw_speed = Num::of(c.center_to_front_axle).times(yaw_rate);
    local_velocity.y.plus(yaw_speed).atan2(local_velocity.x.abs()).minus(
        local_velocity.x.signum().times(steer_angle),
    )
}

#[verifier::when_used_as_spec(spec_front_slip)]
pub fn front_slip(
    c: VehicleConfig,
    local_velocity: NumVec2,
    yaw_rate: Num,
    steer_angle: Num,
) -> (r: Num)
    ensures
        r == spec_front_slip(c, local_velocity, yaw_rate, steer_angle),
{
    let yaw_speed: Num = Num::of(c.center_to_front_axle).times(yaw_rate);
    local_velocity.y.plus(yaw_speed).atan2(local_velocity.x.abs()).minus(
        local_velocity.x.signum().times(steer_angle),
    )
}

/// Slip angle of the rear wheels, which do not steer.
pub open spec fn spec_rear_slip(c: VehicleConfig, local_velocity: NumVec2, yaw_rate: Num) -> Num {
    let yaw_speed = Num::of(c.center_to_rear_axle).neg().times(yaw_rate);
    local_velocity.y.plus(yaw_speed).atan2(local_velocity.x.abs())
}

#[verifier::when_used_as_spec(spec_rear_slip)]
pub fn rear_slip(c: VehicleConfig, local_velocity: NumVec2, yaw_rate: Num) -> (r: Num)
    ensures
        r == spec_rear_slip(c, local_velocity, yaw_rate),
{
    let yaw_speed: Num = Num::of(c.center_to_rear_axle).neg().times(yaw_rate);
    local_velocity.y.plus(yaw_speed).atan2(local_velocity.x.abs())
}

/// Grip of the rear tires: the tire grip, reduced to the share of a locked
/// wheel while the emergency brake is on.
pub open spec fn spec_rear_grip(c: VehicleConfig, ebrake: bool) -> Num {
    Num::of(c.tire_grip).times(
        Num::of(SCALE).minus(level(ebrake).times(Num::of(SCALE).minus(Num::of(c.lock_grip)))),
    )
}

#[verifier::when_used_as_spec(spec_rear_grip)]
pub fn rear_grip(c: VehicleConfig, ebrake: bool) -> (r: Num)
    ensures
        r == spec_rear_grip(c, ebrake),
{
    Num::of(c.tire_grip).times(
        Num::of(SCALE).minus(level(ebrake).times(Num::of(SCALE).minus(Num::of(c.lock_grip)))),
    )
}

/// Lateral force of an axle: it opposes the slip in proportion to the
/// cornering stiffness, up to the grip, and grows with the load.
pub open spec fn spec_lateral_force(stiffness: Num, slip: Num, grip: Num, load: Num) -> Num {
    stiffness.neg().times(slip).clamp(grip.neg(), grip).times(load)
}

#[verifier::when_used_as_spec(spec_lateral_force)]
pub fn lateral_force(stiffness: Num, slip: Num, grip: Num, load: Num) -> (r: Num)
    ensures
        r == spec_lateral_force(stiffness, slip, grip, load),
{
    stiffness.neg().times(slip).clamp(grip.neg(), grip).times(load)
}

/// The grip of the rear tires is the tire grip, or with the emergency brake
/// on its product with the share of a locked wheel; it is never negative.
pub proof fn lemma_rear_grip(c: VehicleConfig, ebrake: bool)
    requires
        c.valid(),
    ensures
        spec_rear_grip(c, ebrake).wf(),
        spec_rear_grip(c, ebrake).is_defined() ==> spec_rear_grip(c, ebrake).value() >= 0,
        !ebrake ==> spec_rear_grip(c, ebrake) == Num::of(c.tire_grip),
        ebrake ==> spec_rear_grip(c, ebrake) == Num::lift(
            product(c.tire_grip as int, c.lock_grip as int),
        ),
{
    reveal(Num::spec_times);
    reveal(Num::spec_minus);
    lemma_product_unit(SCALE - c.lock_grip);
    lemma_product_unit(c.tire_grip as int);
    let g = c.tire_grip as int;
    let l = c.lock_grip as int;
    assert(0 <= g * l) by (nonlinear_arith)
        requires
            0 <= g,
            0 <= l,
    ;
    assert(0 <= (g * l) / 1_000_000) by (nonlinear_arith)
        requires
            0 <= g * l,
    ;
}

/// With the emergency brake on, the rear axle holds the road less well: at
/// the same slip angle and load its lateral force is never larger than with
/// the brake off, provided that a locked wheel keeps at most its full grip.
/// The largest force falls from the grip to the grip times the share of a
/// locked wheel.
pub proof fn lemma_ebrake_weakens_rear(c: VehicleConfig, stiffness: Num, slip: Num, load: Num)
    requires
        c.valid(),
        c.lock_grip <= SCALE,
    ensures
        spec_rear_grip(c, false) == Num::of(c.tire_grip),
        spec_rear_grip(c, true) == Num::lift(product(c.tire_grip as int, c.lock_grip as int)),
        product(c.tire_grip as int, c.lock_grip as int) <= c.tire_grip,
        spec_lateral_force(stiffness, slip, spec_rear_grip(c, false), load).is_defined()
            ==> spec_lateral_force(stiffness, slip, spec_rear_grip(c, true), load).is_defined(),
        spec_lateral_force(stiffness, slip, spec_rear_grip(c, false), load).is_defined()
            ==> magnitude(spec_lateral_force(stiffness, slip, spec_rear_grip(c, true), load).value())
            <= magnitude(spec_lateral_force(stiffness, slip, spec_rear_grip(c, false), load).value()),
{
    lemma_rear_grip(c, false);
    lemma_rear_grip(c, true);
    let g = c.tire_grip as int;
    let l = c.lock_grip as int;
    assert(g * l <= g * 1_000_000) by (nonlinear_arith)
        requires
            0 <= g,
            0 <= l <= 1_000_000,
    ;
    assert(0 <= g * l) by (nonlinear_arith)
        requires
            0 <= g,
            0 <= l,
    ;
    assert((g * l) / 1_000_000 <= g) by (nonlinear_arith)
        requires
            g * l <= g * 1_000_000,
    ;
    let free = spec_lateral_force(stiffness, slip, spec_rear_grip(c, false), load);
    if free.is_defined() {
        reveal(Num::spec_times);
        reveal(Num::spec_clamp);
        reveal(Num::spec_neg);
        let pull = stiffness.neg().times(slip);
        let wide = pull.clamp(spec_rear_grip(c, false).neg(), spec_rear_grip(c, false));
        let tight = pull.clamp(spec_rear_grip(c, true).neg(), spec_rear_grip(c, true));
        assert(tight.is_defined());
        assert(magnitude(tight.value()) <= magnitude(wide.value()));
        lemma_product_magnitude(tight.value(), wide.value(), load.value());
    }
}

} // verus!
