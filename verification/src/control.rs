//! The driver's commands for one tick.
use vstd::prelude::*;
use crate::fixed::{Num, SCALE};

verus! {

/// The direction the driver wants to steer in.
#[derive(Clone, Copy, Debug, PartialEq, Eq, Structural)]
pub enum SteerIntent {
    /// Toward positive steer values.
    Left,
    /// No steering command.
    Straight,
    /// Toward negative steer values.
    Right,
}

impl SteerIntent {
    /// The intent as an integer: 1 for left, 0 for straight, -1 for right.
    pub open spec fn direction(self) -> int {
        match self {
            SteerIntent::Left => 1,
            SteerIntent::Straight => 0,
            SteerIntent::Right => -1,
        }
    }

    /// The opposite intent.
    pub open spec fn spec_mirrored(self) -> SteerIntent {
        match self {
            SteerIntent::Left => SteerIntent::Right,
            SteerIntent::Straight => SteerIntent::Straight,
            SteerIntent::Right => SteerIntent::Left,
        }
    }

    #[verifier::when_used_as_spec(spec_mirrored)]
    pub fn mirrored(self) -> (r: SteerIntent)
        ensures
            r == self.spec_mirrored(),
            r.direction() == -self.direction(),
    {
        match self {
            SteerIntent::Left => SteerIntent::Right,
            SteerIntent::Straight => SteerIntent::Straight,
            SteerIntent::Right => SteerIntent::Left,
        }
    }
}

/// Which of the five driving keys are held down.
#[derive(Clone, Copy, Debug, PartialEq, Eq, Structural)]
pub struct KeyState {
    pub accelerate: bool,
    pub decelerate: bool,
    pub steer_left: bool,
    pub steer_right: bool,
    pub ebrake: bool,
}

/// The normalized commands of one tick. Throttle, brake and emergency brake
/// are either fully on or off.
#[derive(Clone, Copy, Debug, PartialEq, Eq, Structural)]
pub struct ControlInput {
    pub throttle: bool,
    pub brake: bool,
    pub ebrake: bool,
    pub steer: SteerIntent,
}

/// One for a command that is on, zero for one that is off.
pub open spec fn spec_level(on: bool) -> Num {
    Num::lift(if on { SCALE as int } else { 0 })
}

/// One for a command that is on, zero for one that is off.
#[verifier::when_used_as_spec(spec_level)]
pub fn level(on: bool) -> (r: Num)
    ensures
        r == spec_level(on),
{
    if on {
        Num::of(SCALE)
    } else {
        Num::of(0)
    }
}

impl ControlInput {
    /// The commands that a set of held keys stands for. Steering keys count
    /// only while the accelerator or the brake is held; both steering keys
    /// together cancel.
    pub open spec fn spec_from_keys(keys: KeyState) -> ControlInput {
        ControlInput {
            throttle: keys.accelerate,
            brake: keys.decelerate,
            ebrake: keys.ebrake,
            steer: if !(keys.accelerate || keys.decelerate) || keys.steer_left == keys.steer_right {
                SteerIntent::Straight
            } else if keys.steer_left {
                SteerIntent::Left
            } else {
                SteerIntent::Right
            },
        }
    }

    #[verifier::when_used_as_spec(spec_from_keys)]
    pub fn from_keys(keys: KeyState) -> (r: ControlInput)
        ensures
            r == ControlInput::spec_from_keys(keys),
    {
        let mut direction: i8 = 0;
        if keys.accelerate || keys.decelerate {
            if keys.steer_right {
                direction = direction - 1;
            }
            if keys.steer_left {
                direction = direction + 1;
            }
        }
        ControlInput {
            throttle: keys.accelerate,
            brake: keys.decelerate,
            ebrake: keys.ebrake,
            steer: if direction > 0 {
                SteerIntent::Left
            } else if direction < 0 {
                SteerIntent::Right
            } else {
                SteerIntent::Straight
            },
        }
    }

    /// The steering intent that counts: steering is honored only while the
    /// throttle or the brake is on.
    pub open spec fn spec_honored_steer(self) -> SteerIntent {
        if self.throttle || self.brake {
            self.steer
        } else {
            SteerIntent::Straight
        }
    }

    #[verifier::when_used_as_spec(spec_honored_steer)]
    pub fn honored_steer(self) -> (r: SteerIntent)
        ensures
            r == self.spec_honored_steer(),
    {
        if self.throttle || self.brake {
            self.steer
        } else {
            SteerIntent::Straight
        }
    }

    /// No command at all.
    pub open spec fn spec_idle() -> ControlInput {
        ControlInput { throttle: false, brake: false, ebrake: false, steer: SteerIntent::Straight }
    }

    #[verifier::when_used_as_spec(spec_idle)]
    pub fn idle() -> (r: ControlInput)
        ensures
            r == ControlInput::spec_idle(),
    {
        ControlInput { throttle: false, brake: false, ebrake: false, steer: SteerIntent::Straight }
    }

    /// The same commands with the steering reversed.
    pub open spec fn spec_mirrored(self) -> ControlInput {
        ControlInput { steer: self.steer.mirrored(), ..self }
    }

    #[verifier::when_used_as_spec(spec_mirrored)]
    pub fn mirrored(self) -> (r: ControlInput)
        ensures
            r == self.spec_mirrored(),
    {
        ControlInput {
            throttle: self.throttle,
            brake: self.brake,
            ebrake: self.ebrake,
            steer: self.steer.mirrored(),
        }
    }
}

} // verus!
