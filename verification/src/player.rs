//! The player's car: what to put into the world at the start, and what a
//! tick of held keys does to it.
use vstd::prelude::*;
use crate::control::{ControlInput, KeyState};
use crate::dynamics::{after, verdict, TickError};
use crate::state::VehicleState;
use crate::vector::Vec2;
use crate::vehicle::{standard_config, Vehicle};

verus! {

/// What the host needs in order to show and drive the player's car.
#[derive(Clone, Copy, Debug)]
pub struct PlayerSpawn {
    /// Name of the image that shows the car.
    pub image: &'static str,
    /// Width and height at which the image is shown.
    pub size: Vec2,
    /// Where the car is put.
    pub position: Vec2,
    /// The car itself.
    pub vehicle: Vehicle,
}

/// The player's car at the start: the standard car at rest at the origin,
/// shown as the picture of a race car, sixty-four units wide and high.
pub fn spawn_player() -> (r: PlayerSpawn)
    ensures
        r.image@ == "race_car.png"@,
        r.size == (Vec2 { x: 64_000_000, y: 64_000_000 }),
        r.position == Vec2::zero(),
        r.vehicle.config == standard_config(),
        r.vehicle.config.valid(),
        r.vehicle.state == VehicleState::standing(0, r.position),
{
    PlayerSpawn {
        image: "race_car.png",
        size: Vec2 { x: 64_000_000, y: 64_000_000 },
        position: Vec2::zero(),
        vehicle: Vehicle::default(),
    }
}

/// Moves the player's car by one tick of `dt` seconds under the commands
/// that the held keys stand for. A refused tick leaves the car as it was.
pub fn move_player(vehicle: &mut Vehicle, keys: KeyState, dt: i64) -> (r: Result<(), TickError>)
    ensures
        final(vehicle).config == old(vehicle).config,
        r == verdict(old(vehicle).config, old(vehicle).state, ControlInput::from_keys(keys), dt),
        final(vehicle).state == after(
            old(vehicle).config,
            old(vehicle).state,
            ControlInput::from_keys(keys),
            dt,
        ),
        r is Ok ==> final(vehicle).state.valid(),
{
    vehicle.update(ControlInput::from_keys(keys), dt)
}

} // verus!
