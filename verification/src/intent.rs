//! The nine movement intents and the motion that each one asks for.

use vstd::prelude::*;

verus! {

/// A movement or rotation that held input can request.
#[derive(Clone, Copy, Debug, PartialEq, Eq, Structural)]
pub enum Intent {
    TurnLeft,
    TurnRight,
    Forward,
    Backward,
    Up,
    Down,
    StrafeLeft,
    StrafeRight,
    MouseLook,
}

/// The direction of a motion along its axis.
#[derive(Clone, Copy, Debug, PartialEq, Eq, Structural)]
pub enum Sign {
    Positive,
    Negative,
}

/// What one active intent does to the camera in a frame. The amounts are
/// the caller's: a turn is scaled by the angular speed and the elapsed time,
/// a displacement by the linear speed and the elapsed time.
#[derive(Clone, Copy, Debug, PartialEq, Eq, Structural)]
pub enum Motion {
    /// Rotate the facing direction about the world's vertical axis;
    /// positive is counter-clockwise seen from above.
    Turn(Sign),
    /// Move along the world's up vector.
    Climb(Sign),
    /// Move along the facing direction.
    Advance(Sign),
    /// Move along the right vector, facing cross up.
    Strafe(Sign),
    /// Take the live yaw and pitch from the drag offset.
    Look,
}

impl Intent {
    /// The flag bit that stands for this intent in a `Movement`.
    pub open spec fn spec_bit(self) -> u32 {
        match self {
            Intent::TurnLeft => 0x1,
            Intent::TurnRight => 0x4,
            Intent::Forward => 0x8,
            Intent::Backward => 0x10,
            Intent::Up => 0x20,
            Intent::Down => 0x40,
            Intent::StrafeLeft => 0x80,
            Intent::StrafeRight => 0x100,
            Intent::MouseLook => 0x1_0000,
        }
    }

    #[verifier::when_used_as_spec(spec_bit)]
    pub fn bit(self) -> (b: u32)
        ensures
            b == self.spec_bit(),
        no_unwind
    {
        match self {
            Intent::TurnLeft => 0x1,
            Intent::TurnRight => 0x4,
            Intent::Forward => 0x8,
            Intent::Backward => 0x10,
            Intent::Up => 0x20,
            Intent::Down => 0x40,
            Intent::StrafeLeft => 0x80,
            Intent::StrafeRight => 0x100,
            Intent::MouseLook => 0x1_0000,
        }
    }

    pub open spec fn spec_motion(self) -> Motion {
        match self {
            Intent::TurnLeft => Motion::Turn(Sign::Positive),
            Intent::TurnRight => Motion::Turn(Sign::Negative),
            Intent::Forward => Motion::Advance(Sign::Positive),
            Intent::Backward => Motion::Advance(Sign::Negative),
            Intent::Up => Motion::Climb(Sign::Positive),
            Intent::Down => Motion::Climb(Sign::Negative),
            Intent::StrafeLeft => Motion::Strafe(Sign::Negative),
            Intent::StrafeRight => Motion::Strafe(Sign::Positive),
            Intent::MouseLook => Motion::Look,
        }
    }

    /// The motion that this intent applies while it is active.
    #[verifier::when_used_as_spec(spec_motion)]
    pub fn motion(self) -> (m: Motion)
        ensures
            m == self.spec_motion(),
    {
        match self {
            Intent::TurnLeft => Motion::Turn(Sign::Positive),
            Intent::TurnRight => Motion::Turn(Sign::Negative),
            Intent::Forward => Motion::Advance(Sign::Positive),
            Intent::Backward => Motion::Advance(Sign::Negative),
            Intent::Up => Motion::Climb(Sign::Positive),
            Intent::Down => Motion::Climb(Sign::Negative),
            Intent::StrafeLeft => Motion::Strafe(Sign::Negative),
            Intent::StrafeRight => Motion::Strafe(Sign::Positive),
            Intent::MouseLook => Motion::Look,
        }
    }
}

} // verus!
