//! The fixed parameters of a car.
use vstd::prelude::*;
use crate::fixed::{in_range, ratio, Num, LIMIT};

verus! {

/// The parameters that a car is built from. All are raw quantities.
#[derive(Clone, Copy, Debug, PartialEq, Eq, Structural)]
pub struct VehicleParams {
    /// Gravitational acceleration.
    pub gravity: i64,
    /// Mass, which is also the rotational inertia.
    pub mass: i64,
    /// Distance from the centre of gravity to the front axle.
    pub center_to_front_axle: i64,
    /// Distance from the centre of gravity to the rear axle.
    pub center_to_rear_axle: i64,
    /// Height of the centre of gravity.
    pub center_height: i64,
    /// Grip of the tires.
    pub tire_grip: i64,
    /// Share of the grip that a locked wheel keeps.
    pub lock_grip: i64,
    /// Force of the engine at full throttle.
    pub engine_force: i64,
    /// Force of the brake, and the most that both brakes apply together.
    pub brake_force: i64,
    /// Force of the emergency brake.
    pub ebrake_force: i64,
    /// How much weight shifts between the axles under acceleration.
    pub weight_transfer: i64,
    /// Largest steering angle of the front wheels.
    pub max_steer: i64,
    /// Cornering stiffness of the front tires.
    pub corner_stiffness_front: i64,
    /// Cornering stiffness of the rear tires.
    pub corner_stiffness_rear: i64,
    /// Coefficient of the drag that grows with the square of the speed.
    pub air_resistance: i64,
    /// Coefficient of the drag that grows with the speed.
    pub roll_resistance: i64,
}

/// Why a set of parameters makes no car.
#[derive(Clone, Copy, Debug, PartialEq, Eq, Structural)]
pub enum ConfigError {
    /// A parameter, or the wheel base, exceeds the largest quantity.
    OutOfRange,
    /// A parameter other than a force is negative.
    Negative,
    /// The mass is zero.
    ZeroMass,
    /// Both axles sit at the centre of gravity.
    ZeroWheelBase,
}

/// The configuration of a car: its parameters and what follows from them.
#[derive(Clone, Copy, Debug, PartialEq, Eq, Structural)]
pub struct VehicleConfig {
    pub gravity: i64,
    pub mass: i64,
    /// Rotational inertia.
    pub inertia: i64,
    pub center_to_front_axle: i64,
    pub center_to_rear_axle: i64,
    /// Distance between the axles.
    pub wheel_base: i64,
    /// Share of the weight that rests on the front axle at rest.
    pub axle_weight_ratio_front: i64,
    /// Share of the weight that rests on the rear axle at rest.
    pub axle_weight_ratio_rear: i64,
    pub center_height: i64,
    pub tire_grip: i64,
    pub lock_grip: i64,
    pub engine_force: i64,
    pub brake_force: i64,
    pub ebrake_force: i64,
    pub weight_transfer: i64,
    pub max_steer: i64,
    pub corner_stiffness_front: i64,
    pub corner_stiffness_rear: i64,
    pub air_resistance: i64,
    pub roll_resistance: i64,
}

impl VehicleParams {
    /// Whether every parameter is a defined quantity.
    pub open spec fn in_range(self) -> bool {
        &&& in_range(self.gravity as int)
        &&& in_range(self.mass as int)
        &&& in_range(self.center_to_front_axle as int)
        &&& in_range(self.center_to_rear_axle as int)
        &&& in_range(self.center_height as int)
        &&& in_range(self.tire_grip as int)
        &&& in_range(self.lock_grip as int)
        &&& in_range(self.engine_force as int)
        &&& in_range(self.brake_force as int)
        &&& in_range(self.ebrake_force as int)
        &&& in_range(self.weight_transfer as int)
        &&& in_range(self.max_steer as int)
        &&& in_range(self.corner_stiffness_front as int)
        &&& in_range(self.corner_stiffness_rear as int)
        &&& in_range(self.air_resistance as int)
        &&& in_range(self.roll_resistance as int)
    }

    /// Whether every parameter that is no force is at least zero.
    pub open spec fn non_negative(self) -> bool {
        &&& self.gravity >= 0
        &&& self.mass >= 0
        &&& self.center_to_front_axle >= 0
        &&& self.center_to_rear_axle >= 0
        &&& self.center_height >= 0
        &&& self.tire_grip >= 0
        &&& self.lock_grip >= 0
        &&& self.weight_transfer >= 0
        &&& self.max_steer >= 0
        &&& self.corner_stiffness_front >= 0
        &&& self.corner_stiffness_rear >= 0
        &&& self.air_resistance >= 0
        &&& self.roll_resistance >= 0
    }

    /// The first reason, if any, for which the parameters make no car.
    pub open spec fn defect(self) -> Option<ConfigError> {
        if !self.in_range() || self.center_to_front_axle + self.center_to_rear_axle > LIMIT {
            Some(ConfigError::OutOfRange)
        } else if !self.non_negative() {
            Some(ConfigError::Negative)
        } else if self.mass == 0 {
            Some(ConfigError::ZeroMass)
        } else if self.center_to_front_axle + self.center_to_rear_axle == 0 {
            Some(ConfigError::ZeroWheelBase)
        } else {
            None
        }
    }

    /// The configuration that the parameters give: the inertia is the mass,
    /// the wheel base is the sum of the two axle distances, and each axle
    /// carries at rest the share of the weight that the other axle's
    /// distance has in the wheel base.
    pub open spec fn derived(self) -> VehicleConfig {
        let wheel_base = self.center_to_front_axle + self.center_to_rear_axle;
        VehicleConfig {
            gravity: self.gravity,
            mass: self.mass,
            inertia: self.mass,
            center_to_front_axle: self.center_to_front_axle,
            center_to_rear_axle: self.center_to_rear_axle,
            wheel_base: wheel_base as i64,
            axle_weight_ratio_front: ratio(self.center_to_rear_axle as int, wheel_base) as i64,
            axle_weight_ratio_rear: ratio(self.center_to_front_axle as int, wheel_base) as i64,
            center_height: self.center_height,
            tire_grip: self.tire_grip,
            lock_grip: self.lock_grip,
            engine_force: self.engine_force,
            brake_force: self.brake_force,
            ebrake_force: self.ebrake_force,
            weight_transfer: self.weight_transfer,
            max_steer: self.max_steer,
            corner_stiffness_front: self.corner_stiffness_front,
            corner_stiffness_rear: self.corner_stiffness_rear,
            air_resistance: self.air_resistance,
            roll_resistance: self.roll_resistance,
        }
    }

    /// What building a configuration from the parameters comes to.
    pub open spec fn built(self) -> Result<VehicleConfig, ConfigError> {
        match self.defect() {
            Some(e) => Err(e),
            None => Ok(self.derived()),
        }
    }

    /// Tells whether every parameter is a defined quantity.
    fn all_in_range(&self) -> (r: bool)
        ensures
            r == self.in_range(),
    {
        within(self.gravity)
            && within(self.mass)
            && within(self.center_to_front_axle)
            && within(self.center_to_rear_axle)
            && within(self.center_height)
            && within(self.tire_grip)
            && within(self.lock_grip)
            && within(self.engine_force)
            && within(self.brake_force)
            && within(self.ebrake_force)
            && within(self.weight_transfer)
            && within(self.max_steer)
            && within(self.corner_stiffness_front)
            && within(self.corner_stiffness_rear)
            && within(self.air_resistance)
            && within(self.roll_resistance)
    }

    /// Tells whether every parameter that is no force is at least zero.
    fn none_negative(&self) -> (r: bool)
        ensures
            r == self.non_negative(),
    {
        self.gravity >= 0
            && self.mass >= 0
            && self.center_to_front_axle >= 0
            && self.center_to_rear_axle >= 0
            && self.center_height >= 0
            && self.tire_grip >= 0
            && self.lock_grip >= 0
            && self.weight_transfer >= 0
            && self.max_steer >= 0
            && self.corner_stiffness_front >= 0
            && self.corner_stiffness_rear >= 0
            && self.air_resistance >= 0
            && self.roll_resistance >= 0
    }
}

/// Tells whether `x` is a defined quantity.
pub fn within(x: i64) -> (r: bool)
    ensures
        r == in_range(x as int),
{
    -LIMIT <= x && x <= LIMIT
}

impl VehicleConfig {
    /// The parameters that the configuration was built from.
    pub open spec fn spec_params(&self) -> VehicleParams {
        VehicleParams {
            gravity: self.gravity,
            mass: self.mass,
            center_to_front_axle: self.center_to_front_axle,
            center_to_rear_axle: self.center_to_rear_axle,
            center_height: self.center_height,
            tire_grip: self.tire_grip,
            lock_grip: self.lock_grip,
            engine_force: self.engine_force,
            brake_force: self.brake_force,
            ebrake_force: self.ebrake_force,
            weight_transfer: self.weight_transfer,
            max_steer: self.max_steer,
            corner_stiffness_front: self.corner_stiffness_front,
            corner_stiffness_rear: self.corner_stiffness_rear,
            air_resistance: self.air_resistance,
            roll_resistance: self.roll_resistance,
        }
    }

    /// Whether the configuration is that of a car: its parameters have no
    /// defect and the other fields are derived from them.
    pub open spec fn valid(self) -> bool {
        self.spec_params().defect() is None && self == self.spec_params().derived()
    }

    #[verifier::when_used_as_spec(spec_params)]
    pub fn params(&self) -> (r: VehicleParams)
        ensures
            r == self.spec_params(),
    {
        VehicleParams {
            gravity: self.gravity,
            mass: self.mass,
            center_to_front_axle: self.center_to_front_axle,
            center_to_rear_axle: self.center_to_rear_axle,
            center_height: self.center_height,
            tire_grip: self.tire_grip,
            lock_grip: self.lock_grip,
            engine_force: self.engine_force,
            brake_force: self.brake_force,
            ebrake_force: self.ebrake_force,
            weight_transfer: self.weight_transfer,
            max_steer: self.max_steer,
            corner_stiffness_front: self.corner_stiffness_front,
            corner_stiffness_rear: self.corner_stiffness_rear,
            air_resistance: self.air_resistance,
            roll_resistance: self.roll_resistance,
        }
    }

    /// Builds the configuration of a car, or tells why the parameters make
    /// none.
    pub fn new(params: &VehicleParams) -> (r: Result<VehicleConfig, ConfigError>)
        ensures
            r == params.built(),
            r is Ok ==> params.derived().valid(),
    {
        if !params.all_in_range() {
            return Err(ConfigError::OutOfRange);
        }
        let wheel_base: i64 = params.center_to_front_axle + params.center_to_rear_axle;
        if wheel_base > LIMIT {
            return Err(ConfigError::OutOfRange);
        }
        if !params.none_negative() {
            return Err(ConfigError::Negative);
        }
        if params.mass == 0 {
            return Err(ConfigError::ZeroMass);
        }
        if wheel_base == 0 {
            return Err(ConfigError::ZeroWheelBase);
        }
        proof {
            reveal(Num::spec_over);
            lemma_share_bounds(params.center_to_rear_axle as int, wheel_base as int);
            lemma_share_bounds(params.center_to_front_axle as int, wheel_base as int);
        }
        let base: Num = Num::of(wheel_base);
        let front: Num = Num::of(params.center_to_rear_axle).over(base);
        let rear: Num = Num::of(params.center_to_front_axle).over(base);
        match (front.raw, rear.raw) {
            (Some(axle_weight_ratio_front), Some(axle_weight_ratio_rear)) => Ok(
                VehicleConfig {
                    gravity: params.gravity,
                    mass: params.mass,
                    inertia: params.mass,
                    center_to_front_axle: params.center_to_front_axle,
                    center_to_rear_axle: params.center_to_rear_axle,
                    wheel_base,
                    axle_weight_ratio_front,
                    axle_weight_ratio_rear,
                    center_height: params.center_height,
                    tire_grip: params.tire_grip,
                    lock_grip: params.lock_grip,
                    engine_force: params.engine_force,
                    brake_force: params.brake_force,
                    ebrake_force: params.ebrake_force,
                    weight_transfer: params.weight_transfer,
                    max_steer: params.max_steer,
                    corner_stiffness_front: params.corner_stiffness_front,
                    corner_stiffness_rear: params.corner_stiffness_rear,
                    air_resistance: params.air_resistance,
                    roll_resistance: params.roll_resistance,
                },
            ),
            _ => Err(ConfigError::OutOfRange),
        }
    }

    /// Tells whether the configuration is that of a car.
    pub fn is_valid(&self) -> (r: bool)
        ensures
            r == self.valid(),
    {
        match VehicleConfig::new(&self.params()) {
            Ok(c) => c == *self,
            Err(_) => false,
        }
    }
}

/// A part of a whole is a share between zero and one.
pub proof fn lemma_share_bounds(part: int, whole: int)
    requires
        0 <= part <= whole,
        0 < whole <= LIMIT,
    ensures
        0 <= ratio(part, whole) <= 1_000_000,
{
    assert(0 <= part * 1_000_000) by (nonlinear_arith)
        requires
            0 <= part,
    ;
    assert((part * 1_000_000) / whole <= 1_000_000) by (nonlinear_arith)
        requires
            0 <= part <= whole,
            0 < whole,
    ;
    assert(0 <= (part * 1_000_000) / whole) by (nonlinear_arith)
        requires
            0 <= part,
            0 < whole,
    ;
}

} // verus!
