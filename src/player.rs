//! One player and its per-step pipeline: contact classification, timers,
//! state transition, then the jump, fall and horizontal behaviours.
use vstd::prelude::*;

use crate::controller::{surface_checker, CharacterController, CharacterControllerBuilder, Velocity, RUN_AXIS_MAX};
use crate::state_machine::{next_state, next_state_spec, GroundedState, MovementState};
use crate::surface::{classify_spec, ActivateGroundedDelay, GroundedContactDelay, SurfaceGroundedChecker};
use crate::units::{MAX_STEP_MICROS, VELOCITY_LIMIT};

verus! {

/// The input of one step, as read from the action service.
#[derive(Clone, Copy, Debug, PartialEq, Eq, Structural)]
pub struct StepInput {
    /// The run axis, from `-1000` (full left) to `1000` (full right).
    pub run: i64,
    /// Jump went down this step.
    pub jump_just_pressed: bool,
    /// Jump went up this step.
    pub jump_just_released: bool,
}

/// A player: its controller, its movement state and its contact delays.
#[derive(Clone, Copy, Debug, PartialEq, Eq)]
pub struct Player {
    pub controller: CharacterController,
    pub state: MovementState,
    pub contact_delay: GroundedContactDelay,
}

impl Player {
    /// The controller's tuning is in range and its timers are consistent.
    pub open spec fn wf(&self) -> bool {
        self.controller.wf()
    }

    /// A jump starts this step: the state enters jumping through the jump condition.
    pub open spec fn jump_starts(old_state: MovementState, new_state: MovementState, jump_condition: bool) -> bool {
        old_state !is Jumping && new_state is Jumping && jump_condition
    }

    /// The fall stage runs this step: falling, or jumping past the step the
    /// jump started.
    pub open spec fn airborne_after_entry(state: MovementState, jumped: bool) -> bool {
        state is Falling || (state is Jumping && !jumped)
    }

    /// The player and velocity after one step.
    pub open spec fn step_spec(
        self,
        vel: Velocity,
        input: StepInput,
        probe_hits: SurfaceGroundedChecker,
        events: Seq<ActivateGroundedDelay>,
        delta: u64,
    ) -> (Player, Velocity) {
        let delay = self.contact_delay.update_spec(delta, events);
        let contacts = classify_spec(probe_hits, delay, self.controller.grounded_delay);
        let timed = self.controller.with_contacts(contacts).jump_variables_spec(input.jump_just_pressed, delta);
        let condition = timed.jump_condition();
        let state = next_state_spec(self.state, condition, timed.surface_checker.bottom, vel.y as int, input.run as int);
        let jumped = Self::jump_starts(self.state, state, condition);
        let c1 = if jumped { timed.after_jump_spec() } else { timed };
        let v1 = if jumped { timed.jump_velocity_spec(vel) } else { vel };
        let falling = Self::airborne_after_entry(state, jumped);
        let c2 = if falling { c1.after_fall_spec(v1, input.jump_just_released) } else { c1 };
        let v2 = if falling { c1.fall_velocity_spec(v1, input.jump_just_released) } else { v1 };
        let v3 = Velocity { x: c2.horizontal_spec(v2.x as int, input.run as int, delta) as i64, ..v2 };
        (Player { controller: c2, state, contact_delay: delay }, v3)
    }

    /// A freshly spawned player: grounded and idle, with no contact delay elapsed.
    pub fn new(builder: CharacterControllerBuilder) -> (r: Player)
        requires
            builder.valid(),
        ensures
            r.wf(),
            r.controller == builder.build_spec(),
            r.state == MovementState::Grounded(GroundedState::Idle),
            r.contact_delay == (GroundedContactDelay { top: 0, bottom: 0, left: 0, right: 0 }),
    {
        Player {
            controller: builder.build(),
            state: MovementState::initial(),
            contact_delay: GroundedContactDelay::new(),
        }
    }

    /// Runs one simulation step of `delta` microseconds: classifies contacts
    /// from the probe hits, updates the timers, takes one transition, then
    /// applies the jump (on entering jumping through the jump condition), the
    /// fall (while falling, and while jumping after the step the jump
    /// started) and the horizontal movement to `vel`.
    pub fn step(
        &mut self,
        vel: &mut Velocity,
        input: &StepInput,
        probe_hits: &SurfaceGroundedChecker,
        events: &Vec<ActivateGroundedDelay>,
        delta: u64,
    )
        requires
            old(self).wf(),
            old(vel).in_range(),
            -RUN_AXIS_MAX <= input.run <= RUN_AXIS_MAX,
            delta <= MAX_STEP_MICROS,
        ensures
            (*final(self), *final(vel)) == old(self).step_spec(*old(vel), *input, *probe_hits, events@, delta),
            final(self).wf(),
            final(vel).in_range(),
            -final(self).controller.max_move_speed <= final(vel).x <= final(self).controller.max_move_speed,
    {
        surface_checker(&mut self.controller, &mut self.contact_delay, probe_hits, events, delta);
        self.controller.controller_jump_variables(input.jump_just_pressed, delta);
        let condition = self.controller.jump_trigger();
        let state = next_state(self.state, &self.controller, vel.y, input.run);
        let jumped = !self.state.is_jumping() && state.is_jumping() && condition;
        if jumped {
            self.controller.jump(vel);
        }
        if state.is_falling() || (state.is_jumping() && !jumped) {
            self.controller.fall(vel, input.jump_just_released);
        }
        self.controller.horizontal_movement(vel, input.run, delta);
        self.state = state;
    }
}

} // verus!
