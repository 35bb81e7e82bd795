//! Driving states: how a key snapshot selects one, and which motor
//! setpoints each one stands for.

use vstd::prelude::*;

verus! {

/// Setpoint that drives a motor forward at full authority.
pub const FORWARD: u16 = 0;

/// Setpoint at which a motor is at rest.
pub const MIDDLE: u16 = 90;

/// Setpoint that drives a motor backward at full authority.
pub const REVERSE: u16 = 180;

/// Which of the four logical keys are held at one instant.
#[derive(Clone, Copy, Debug, PartialEq, Eq, Structural)]
pub struct KeySnapshot {
    pub forward: bool,
    pub back: bool,
    pub turn_left: bool,
    pub turn_right: bool,
}

/// The nine ways the vehicle can be driven.
#[derive(Clone, Copy, Debug, PartialEq, Eq, Structural)]
pub enum DrivingState {
    Forward,
    ForwardLeft,
    ForwardRight,
    Left,
    Right,
    Reverse,
    ReverseLeft,
    ReverseRight,
    Stopped,
}

/// The steering keys pick one of three states: `left` when the left key is
/// held, else `right` when the right key is held, else `straight`.
pub open spec fn steer(
    keys: KeySnapshot,
    straight: DrivingState,
    left: DrivingState,
    right: DrivingState,
) -> DrivingState {
    if keys.turn_left {
        left
    } else if keys.turn_right {
        right
    } else {
        straight
    }
}

/// The driving state that a key snapshot selects. The forward key wins over
/// the back key, and within each row the left key wins over the right key.
pub open spec fn classify_keys(keys: KeySnapshot) -> DrivingState {
    if keys.forward {
        steer(keys, DrivingState::Forward, DrivingState::ForwardLeft, DrivingState::ForwardRight)
    } else if keys.back {
        steer(keys, DrivingState::Reverse, DrivingState::ReverseLeft, DrivingState::ReverseRight)
    } else {
        steer(keys, DrivingState::Stopped, DrivingState::Left, DrivingState::Right)
    }
}

/// Whether a setpoint is one of the three magnitudes the table uses.
pub open spec fn is_canonical(setpoint: u16) -> bool {
    setpoint == FORWARD || setpoint == MIDDLE || setpoint == REVERSE
}

impl DrivingState {
    /// The `(left, right)` setpoints of each state.
    pub open spec fn motor_values(self) -> (u16, u16) {
        match self {
            DrivingState::Forward => (FORWARD, FORWARD),
            DrivingState::ForwardLeft => (MIDDLE, FORWARD),
            DrivingState::ForwardRight => (FORWARD, MIDDLE),
            DrivingState::Left => (REVERSE, FORWARD),
            DrivingState::Right => (FORWARD, REVERSE),
            DrivingState::Reverse => (REVERSE, REVERSE),
            DrivingState::ReverseLeft => (MIDDLE, REVERSE),
            DrivingState::ReverseRight => (REVERSE, MIDDLE),
            DrivingState::Stopped => (MIDDLE, MIDDLE),
        }
    }

    /// Looks up the `(left, right)` motor setpoints of this state.
    pub fn to_motor_values(&self) -> (motors: (u16, u16))
        ensures
            motors == self.motor_values(),
            is_canonical(motors.0),
            is_canonical(motors.1),
    {
        match *self {
            DrivingState::Forward => (FORWARD, FORWARD),
            DrivingState::ForwardLeft => (MIDDLE, FORWARD),
            DrivingState::ForwardRight => (FORWARD, MIDDLE),
            DrivingState::Left => (REVERSE, FORWARD),
            DrivingState::Right => (FORWARD, REVERSE),
            DrivingState::Reverse => (REVERSE, REVERSE),
            DrivingState::ReverseLeft => (MIDDLE, REVERSE),
            DrivingState::ReverseRight => (REVERSE, MIDDLE),
            DrivingState::Stopped => (MIDDLE, MIDDLE),
        }
    }
}

/// Classifies a key snapshot into the driving state it selects.
pub fn classify(keys: KeySnapshot) -> (state: DrivingState)
    ensures
        state == classify_keys(keys),
{
    if keys.forward {
        if keys.turn_left {
            DrivingState::ForwardLeft
        } else if keys.turn_right {
            DrivingState::ForwardRight
        } else {
            DrivingState::Forward
        }
    } else if keys.back {
        if keys.turn_left {
            DrivingState::ReverseLeft
        } else if keys.turn_right {
            DrivingState::ReverseRight
        } else {
            DrivingState::Reverse
        }
    } else {
        if keys.turn_left {
            DrivingState::Left
        } else if keys.turn_right {
            DrivingState::Right
        } else {
            DrivingState::Stopped
        }
    }
}

/// While the forward key is held, the back key has no say: the state is one
/// of the three forward states, and the same with the back key up or down.
pub proof fn lemma_forward_wins_over_back(keys: KeySnapshot)
    requires
        keys.forward,
    ensures
        classify_keys(keys) is Forward || classify_keys(keys) is ForwardLeft || classify_keys(
            keys,
        ) is ForwardRight,
        classify_keys((KeySnapshot { back: true, ..keys })) == classify_keys(
            (KeySnapshot { back: false, ..keys }),
        ),
{
}

/// While the left key is held, the right key has no say: the state is one
/// of the three left states, and the same with the right key up or down.
pub proof fn lemma_left_wins_over_right(keys: KeySnapshot)
    requires
        keys.turn_left,
    ensures
        classify_keys(keys) is ForwardLeft || classify_keys(keys) is ReverseLeft || classify_keys(
            keys,
        ) is Left,
        classify_keys((KeySnapshot { turn_right: true, ..keys })) == classify_keys(
            (KeySnapshot { turn_right: false, ..keys }),
        ),
{
}

} // verus!
