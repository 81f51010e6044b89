//! A car: its configuration together with its state.
use vstd::prelude::*;
use crate::config::VehicleConfig;
use crate::control::ControlInput;
use crate::dynamics::{after, update, verdict, TickError};
use crate::fixed::SCALE;
use crate::state::VehicleState;
use crate::vector::Vec2;

verus! {

/// A car. The configuration is set when the car is made and stays as it is;
/// the state changes with every tick.
#[derive(Clone, Copy, Debug, PartialEq, Eq, Structural)]
pub struct Vehicle {
    pub config: VehicleConfig,
    pub state: VehicleState,
}

/// The configuration of the standard car: ten units of mass on two axles,
/// each one and a quarter from the centre of gravity.
pub open spec fn standard_config() -> VehicleConfig {
    VehicleConfig {
        gravity: 9_810_000,
        mass: 10_000_000,
        inertia: 10_000_000,
        center_to_front_axle: 1_250_000,
        center_to_rear_axle: 1_250_000,
        wheel_base: 2_500_000,
        axle_weight_ratio_front: 500_000,
        axle_weight_ratio_rear: 500_000,
        center_height: 550_000,
        tire_grip: 2_000_000,
        lock_grip: 700_000,
        engine_force: 8_000_000_000,
        brake_force: 12_000_000_000,
        ebrake_force: 4_800_000_000,
        weight_transfer: 200_000,
        max_steer: 600_000,
        corner_stiffness_front: 5_000_000,
        corner_stiffness_rear: 5_200_000,
        air_resistance: 2_500_000,
        roll_resistance: 8_000_000,
    }
}

/// The standard configuration is that of a car.
pub proof fn lemma_standard_config_valid()
    ensures
        standard_config().valid(),
{
    assert(1_250_000int * SCALE == 1_250_000_000_000) by (nonlinear_arith);
    assert(1_250_000_000_000int / 2_500_000 == 500_000);
}

impl Vehicle {
    /// The standard car, standing at the origin and pointing along heading
    /// zero.
    pub fn default() -> (r: Vehicle)
        ensures
            r.config == standard_config(),
            r.config.valid(),
            r.state == VehicleState::standing(0, Vec2::zero()),
            r.state.valid(),
    {
        proof {
            lemma_standard_config_valid();
        }
        Vehicle {
            config: VehicleConfig {
                gravity: 9_810_000,
                mass: 10_000_000,
                inertia: 10_000_000,
                center_to_front_axle: 1_250_000,
                center_to_rear_axle: 1_250_000,
                wheel_base: 2_500_000,
                axle_weight_ratio_front: 500_000,
                axle_weight_ratio_rear: 500_000,
                center_height: 550_000,
                tire_grip: 2_000_000,
                lock_grip: 700_000,
                engine_force: 8_000_000_000,
                brake_force: 12_000_000_000,
                ebrake_force: 4_800_000_000,
                weight_transfer: 200_000,
                max_steer: 600_000,
                corner_stiffness_front: 5_000_000,
                corner_stiffness_rear: 5_200_000,
                air_resistance: 2_500_000,
                roll_resistance: 8_000_000,
            },
            state: VehicleState::standing(0, Vec2::zero()),
        }
    }

    /// Advances the car by one tick of `dt` seconds under the commands
    /// `input`. A refused tick leaves the car as it was.
    pub fn update(&mut self, input: ControlInput, dt: i64) -> (r: Result<(), TickError>)
        ensures
            final(self).config == old(self).config,
            r == verdict(old(self).config, old(self).state, input, dt),
            final(self).state == after(old(self).config, old(self).state, input, dt),
            r is Ok ==> final(self).state.valid(),
    {
        let config: VehicleConfig = self.config;
        update(&config, &mut self.state, input, dt)
    }
}

} // verus!
