//! The moving state of a car.
use vstd::prelude::*;
use crate::fixed::{in_range, Num, SCALE};
use crate::vector::{NumVec2, Vec2};
use crate::config::within;

verus! {

/// The state of a car between two ticks. All fields are raw quantities.
#[derive(Clone, Copy, Debug, PartialEq, Eq, Structural)]
pub struct VehicleState {
    /// Angle that the car points at, in radians; it is not wrapped.
    pub heading: i64,
    /// Position in the world frame.
    pub position: Vec2,
    /// Velocity in the world frame.
    pub velocity: Vec2,
    /// Velocity in the car's frame, as of the last tick.
    pub local_velocity: Vec2,
    /// Acceleration in the world frame, as of the last tick.
    pub acceleration: Vec2,
    /// Acceleration in the car's frame, as of the last tick.
    pub local_acceleration: Vec2,
    /// Magnitude of the velocity.
    pub absolute_velocity: i64,
    /// Angular velocity.
    pub yaw_rate: i64,
    /// Smoothed steering input between minus one and one.
    pub steer: i64,
    /// Angle of the front wheels, as of the last tick.
    pub steer_angle: i64,
}

/// A state in the making, whose quantities may be undefined.
#[derive(Clone, Copy, Debug)]
pub struct Pending {
    pub heading: Num,
    pub position: NumVec2,
    pub velocity: NumVec2,
    pub local_velocity: NumVec2,
    pub acceleration: NumVec2,
    pub local_acceleration: NumVec2,
    pub absolute_velocity: Num,
    pub yaw_rate: Num,
    pub steer: Num,
    pub steer_angle: Num,
}

impl VehicleState {
    /// Whether every field is a defined quantity and the steer value lies
    /// between minus one and one.
    pub open spec fn valid(self) -> bool {
        &&& in_range(self.heading as int)
        &&& self.position.in_range()
        &&& self.velocity.in_range()
        &&& self.local_velocity.in_range()
        &&& self.acceleration.in_range()
        &&& self.local_acceleration.in_range()
        &&& in_range(self.absolute_velocity as int)
        &&& in_range(self.yaw_rate as int)
        &&& -SCALE <= self.steer <= SCALE
        &&& in_range(self.steer_angle as int)
    }

    /// Whether the car stands still with centred steering.
    pub open spec fn at_rest(self) -> bool {
        &&& self.velocity == Vec2::zero()
        &&& self.absolute_velocity == 0
        &&& self.yaw_rate == 0
        &&& self.steer == 0
    }

    /// The state of a car that stands at `position` with the given heading.
    pub open spec fn spec_standing(heading: i64, position: Vec2) -> VehicleState {
        VehicleState {
            heading,
            position,
            velocity: Vec2::zero(),
            local_velocity: Vec2::zero(),
            acceleration: Vec2::zero(),
            local_acceleration: Vec2::zero(),
            absolute_velocity: 0,
            yaw_rate: 0,
            steer: 0,
            steer_angle: 0,
        }
    }

    #[verifier::when_used_as_spec(spec_standing)]
    pub fn standing(heading: i64, position: Vec2) -> (r: VehicleState)
        ensures
            r == VehicleState::spec_standing(heading, position),
            r.at_rest(),
    {
        VehicleState {
            heading,
            position,
            velocity: Vec2::zero(),
            local_velocity: Vec2::zero(),
            acceleration: Vec2::zero(),
            local_acceleration: Vec2::zero(),
            absolute_velocity: 0,
            yaw_rate: 0,
            steer: 0,
            steer_angle: 0,
        }
    }

    /// Tells whether the state is valid.
    pub fn is_valid(&self) -> (r: bool)
        ensures
            r == self.valid(),
    {
        within(self.heading)
            && within(self.position.x)
            && within(self.position.y)
            && within(self.velocity.x)
            && within(self.velocity.y)
            && within(self.local_velocity.x)
            && within(self.local_velocity.y)
            && within(self.acceleration.x)
            && within(self.acceleration.y)
            && within(self.local_acceleration.x)
            && within(self.local_acceleration.y)
            && within(self.absolute_velocity)
            && within(self.yaw_rate)
            && -SCALE <= self.steer
            && self.steer <= SCALE
            && within(self.steer_angle)
    }
}

impl Pending {
    /// Whether every quantity is defined.
    pub open spec fn is_defined(self) -> bool {
        &&& self.heading.is_defined()
        &&& self.position.is_defined()
        &&& self.velocity.is_defined()
        &&& self.local_velocity.is_defined()
        &&& self.acceleration.is_defined()
        &&& self.local_acceleration.is_defined()
        &&& self.absolute_velocity.is_defined()
        &&& self.yaw_rate.is_defined()
        &&& self.steer.is_defined()
        &&& self.steer_angle.is_defined()
    }

    /// The state made of the raw values, where all are defined.
    pub open spec fn value(self) -> VehicleState {
        VehicleState {
            heading: self.heading.raw->0,
            position: self.position.value(),
            velocity: self.velocity.value(),
            local_velocity: self.local_velocity.value(),
            acceleration: self.acceleration.value(),
            local_acceleration: self.local_acceleration.value(),
            absolute_velocity: self.absolute_velocity.raw->0,
            yaw_rate: self.yaw_rate.raw->0,
            steer: self.steer.raw->0,
            steer_angle: self.steer_angle.raw->0,
        }
    }

    /// The finished state, if every quantity is defined.
    pub open spec fn spec_settle(self) -> Option<VehicleState> {
        if self.is_defined() {
            Some(self.value())
        } else {
            None
        }
    }

    #[verifier::when_used_as_spec(spec_settle)]
    pub fn settle(self) -> (r: Option<VehicleState>)
        ensures
            r == self.spec_settle(),
    {
        match (
            self.heading.raw,
            self.position.x.raw,
            self.position.y.raw,
            self.velocity.x.raw,
            self.velocity.y.raw,
        ) {
            (Some(heading), Some(px), Some(py), Some(vx), Some(vy)) => match (
                self.local_velocity.x.raw,
                self.local_velocity.y.raw,
                self.acceleration.x.raw,
                self.acceleration.y.raw,
                self.local_acceleration.x.raw,
                self.local_acceleration.y.raw,
            ) {
                (Some(lvx), Some(lvy), Some(ax), Some(ay), Some(lax), Some(lay)) => match (
                    self.absolute_velocity.raw,
                    self.yaw_rate.raw,
                    self.steer.raw,
                    self.steer_angle.raw,
                ) {
                    (Some(absolute_velocity), Some(yaw_rate), Some(steer), Some(steer_angle)) => Some(
                        VehicleState {
                            heading,
                            position: Vec2 { x: px, y: py },
                            velocity: Vec2 { x: vx, y: vy },
                            local_velocity: Vec2 { x: lvx, y: lvy },
                            acceleration: Vec2 { x: ax, y: ay },
                            local_acceleration: Vec2 { x: lax, y: lay },
                            absolute_velocity,
                            yaw_rate,
                            steer,
                            steer_angle,
                        },
                    ),
                    _ => None,
                },
                _ => None,
            },
            _ => None,
        }
    }
}

} // verus!
