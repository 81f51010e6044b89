//! Forces along the car: engine, brakes and drag.
use vstd::prelude::*;
use crate::config::VehicleConfig;
use crate::control::{level, ControlInput};
use crate::fixed::Num;

verus! {

/// Braking force in use: brake and emergency brake together, but never more
/// than the brake force.
pub open spec fn spec_brake_applied(c: VehicleConfig, input: ControlInput) -> Num {
    Num::of(c.brake_force).smaller(
        level(input.brake).times(Num::of(c.brake_force)).plus(
            level(input.ebrake).times(Num::of(c.ebrake_force)),
        ),
    )
}

#[verifier::when_used_as_spec(spec_brake_applied)]
pub fn brake_applied(c: VehicleConfig, input: ControlInput) -> (r: Num)
    ensures
        r == spec_brake_applied(c, input),
{
    Num::of(c.brake_force).smaller(
        level(input.brake).times(Num::of(c.brake_force)).plus(
            level(input.ebrake).times(Num::of(c.ebrake_force)),
        ),
    )
}

/// Force of the engine at the commanded throttle.
pub open spec fn spec_throttle_force(c: VehicleConfig, input: ControlInput) -> Num {
    level(input.throttle).times(Num::of(c.engine_force))
}

#[verifier::when_used_as_spec(spec_throttle_force)]
pub fn throttle_force(c: VehicleConfig, input: ControlInput) -> (r: Num)
    ensures
        r == spec_throttle_force(c, input),
{
    level(input.throttle).times(Num::of(c.engine_force))
}

/// Force at the driven wheels: the engine's, less the braking force taken
/// against the direction of travel. A car that does not move along its axis
/// is not braked.
pub open spec fn spec_traction(c: VehicleConfig, input: ControlInput, forward_speed: Num) -> Num {
    spec_throttle_force(c, input).minus(spec_brake_applied(c, input).times(forward_speed.signum()))
}

#[verifier::when_used_as_spec(spec_traction)]
pub fn traction(c: VehicleConfig, input: ControlInput, forward_speed: Num) -> (r: Num)
    ensures
        r == spec_traction(c, input, forward_speed),
{
    throttle_force(c, input).minus(brake_applied(c, input).times(forward_speed.signum()))
}

/// Drag along one axis of the car at the speed `v` along that axis: a
/// rolling part in proportion to the speed and an air part in proportion to
/// its square, both against the motion.
pub open spec fn spec_drag(c: VehicleConfig, v: Num) -> Num {
    Num::of(c.roll_resistance).neg().times(v).minus(Num::of(c.air_resistance).times(v).times(v.abs()))
}

#[verifier::when_used_as_spec(spec_drag)]
pub fn drag(c: VehicleConfig, v: Num) -> (r: Num)
    ensures
        r == spec_drag(c, v),
{
    Num::of(c.roll_resistance).neg().times(v).minus(Num::of(c.air_resistance).times(v).times(v.abs()))
}

} // verus!
