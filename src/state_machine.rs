//! The movement state machine: one state at a time, moved by a fixed,
//! prioritised table of transitions.
use vstd::prelude::*;

use crate::controller::CharacterController;

verus! {

/// Run input beyond this (either way) walks.
pub const WALK_THRESHOLD: i64 = 500;

/// What the player does while standing on ground.
#[derive(Clone, Copy, Debug, PartialEq, Eq, Structural)]
pub enum GroundedState {
    WalkingLeft,
    Idle,
    WalkingRight,
}

/// Rising from a jump, or off the ground without falling yet.
#[derive(Clone, Copy, Debug, PartialEq, Eq, Structural)]
pub struct JumpingState;

/// Off the ground and coming down.
#[derive(Clone, Copy, Debug, PartialEq, Eq, Structural)]
pub struct FallingState;

/// The player's movement state: exactly one of grounded, jumping or falling.
#[derive(Clone, Copy, Debug, PartialEq, Eq, Structural)]
pub enum MovementState {
    Grounded(GroundedState),
    Jumping(JumpingState),
    Falling(FallingState),
}

impl MovementState {
    /// The state a player spawns in.
    pub fn initial() -> (r: MovementState)
        ensures
            r == MovementState::Grounded(GroundedState::Idle),
    {
        MovementState::Grounded(GroundedState::Idle)
    }

    /// Whether this is the jumping state.
    pub fn is_jumping(&self) -> (r: bool)
        ensures
            r == (*self is Jumping),
    {
        match self {
            MovementState::Jumping(_) => true,
            _ => false,
        }
    }

    /// Whether this is the falling state.
    pub fn is_falling(&self) -> (r: bool)
        ensures
            r == (*self is Falling),
    {
        match self {
            MovementState::Falling(_) => true,
            _ => false,
        }
    }

    /// Whether this is one of the grounded states.
    pub fn is_grounded(&self) -> (r: bool)
        ensures
            r == (*self is Grounded),
    {
        match self {
            MovementState::Grounded(_) => true,
            _ => false,
        }
    }
}

/// The grounded state that the run input picks.
pub open spec fn walking_spec(run: int) -> GroundedState {
    if run > WALK_THRESHOLD {
        GroundedState::WalkingRight
    } else if run < -WALK_THRESHOLD {
        GroundedState::WalkingLeft
    } else {
        GroundedState::Idle
    }
}

/// The next state, by the first transition of the table that applies:
/// - jumping: ground contact lands (idle); a downward speed falls;
/// - falling: ground contact lands (idle); the jump condition jumps;
/// - grounded: the jump condition jumps; without ground contact a downward
///   speed falls and any other speed jumps; otherwise the run input picks
///   walking right, walking left or idle.
pub open spec fn next_state_spec(
    state: MovementState,
    jump_condition: bool,
    bottom: bool,
    vertical_velocity: int,
    run: int,
) -> MovementState {
    match state {
        MovementState::Jumping(_) => {
            if bottom {
                MovementState::Grounded(GroundedState::Idle)
            } else if vertical_velocity < 0 {
                MovementState::Falling(FallingState)
            } else {
                state
            }
        },
        MovementState::Falling(_) => {
            if bottom {
                MovementState::Grounded(GroundedState::Idle)
            } else if jump_condition {
                MovementState::Jumping(JumpingState)
            } else {
                state
            }
        },
        MovementState::Grounded(_) => {
            if jump_condition {
                MovementState::Jumping(JumpingState)
            } else if !bottom && vertical_velocity < 0 {
                MovementState::Falling(FallingState)
            } else if !bottom {
                MovementState::Jumping(JumpingState)
            } else {
                MovementState::Grounded(walking_spec(run))
            }
        },
    }
}

/// Fires when a jump may start: the coyote window is open and a jump press is buffered.
#[derive(Clone, Copy, Debug)]
pub struct JumpTrigger;

impl JumpTrigger {
    /// Whether the jump condition holds for `controller`.
    pub fn trigger(&self, controller: &CharacterController) -> (r: bool)
        ensures
            r == controller.jump_condition(),
    {
        controller.jump_trigger()
    }
}

/// Fires while the bottom side touches ground.
#[derive(Clone, Copy, Debug)]
pub struct GroundedTrigger;

impl GroundedTrigger {
    /// Whether the bottom side of `controller` touches ground.
    pub fn trigger(&self, controller: &CharacterController) -> (r: bool)
        ensures
            r == controller.surface_checker.bottom,
    {
        controller.surface_checker.surface_touching_ground(&crate::surface::Surface::Bottom)
    }
}

/// Fires while a side touches a wall and the bottom touches nothing.
#[derive(Clone, Copy, Debug)]
pub struct WallslidingTrigger;

impl WallslidingTrigger {
    /// Whether `controller` touches a wall on either side with nothing below.
    pub fn trigger(&self, controller: &CharacterController) -> (r: bool)
        ensures
            r == ((controller.surface_checker.left || controller.surface_checker.right)
                && !controller.surface_checker.bottom),
    {
        let checker = &controller.surface_checker;
        (checker.surface_touching_ground(&crate::surface::Surface::Left)
            || checker.surface_touching_ground(&crate::surface::Surface::Right))
            && !checker.surface_touching_ground(&crate::surface::Surface::Bottom)
    }
}

/// Fires while the bottom side touches nothing.
#[derive(Clone, Copy, Debug)]
pub struct FallingTrigger;

impl FallingTrigger {
    /// Whether the bottom side of `controller` touches nothing.
    pub fn trigger(&self, controller: &CharacterController) -> (r: bool)
        ensures
            r == !controller.surface_checker.bottom,
    {
        !controller.surface_checker.surface_touching_ground(&crate::surface::Surface::Bottom)
    }
}

/// The grounded state that the run input picks.
pub fn walking_state(run: i64) -> (r: GroundedState)
    ensures
        r == walking_spec(run as int),
{
    if run > WALK_THRESHOLD {
        GroundedState::WalkingRight
    } else if run < -WALK_THRESHOLD {
        GroundedState::WalkingLeft
    } else {
        GroundedState::Idle
    }
}

/// Evaluates the transition table once for this step.
pub fn next_state(
    state: MovementState,
    controller: &CharacterController,
    vertical_velocity: i64,
    run: i64,
) -> (r: MovementState)
    ensures
        r == next_state_spec(
            state,
            controller.jump_condition(),
            controller.surface_checker.bottom,
            vertical_velocity as int,
            run as int,
        ),
{
    let grounded = GroundedTrigger.trigger(controller);
    let jump = JumpTrigger.trigger(controller);
    match state {
        MovementState::Jumping(_) => {
            if grounded {
                MovementState::Grounded(GroundedState::Idle)
            } else if vertical_velocity < 0 {
                MovementState::Falling(FallingState)
            } else {
                state
            }
        },
        MovementState::Falling(_) => {
            if grounded {
                MovementState::Grounded(GroundedState::Idle)
            } else if jump {
                MovementState::Jumping(JumpingState)
            } else {
                state
            }
        },
        MovementState::Grounded(_) => {
            if jump {
                MovementState::Jumping(JumpingState)
            } else if FallingTrigger.trigger(controller) && vertical_velocity < 0 {
                MovementState::Falling(FallingState)
            } else if !grounded {
                MovementState::Jumping(JumpingState)
            } else {
                MovementState::Grounded(walking_state(run))
            }
        },
    }
}

} // verus!
