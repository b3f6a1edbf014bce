//! The character controller: tuning, the coyote and jump-buffer timers, and
//! the behaviours that write the player's velocity.
use vstd::prelude::*;

use crate::surface::{
    classify_contacts, classify_spec, ActivateGroundedDelay, GroundedContactDelay, MAX_BOX_SIDE,
    SurfaceGroundedChecker,
};
use crate::timer::CountdownTimer;
use crate::units::{
    abs, lemma_mul_bounded, scale_i64, scale_toward_zero, sign, MAX_STEP_MICROS, MAX_TUNING_MULTI,
    MAX_TUNING_SPEED, MICROS_PER_SECOND, MULTI_ONE, VELOCITY_LIMIT,
};

verus! {

/// What `acceleration × seconds × run × turnaround × air control` is divided by
/// to come back to speed units: microseconds per second times three thousandths.
pub const ACCEL_DIVISOR: u128 = 1_000_000_000_000_000;

/// A jump multiplies a horizontal velocity by `JUMP_MOMENTUM_NUM / JUMP_MOMENTUM_DEN`.
pub const JUMP_MOMENTUM_NUM: u64 = 11;

/// See `JUMP_MOMENTUM_NUM`.
pub const JUMP_MOMENTUM_DEN: u64 = 10;

/// The full extent of the run axis.
pub const RUN_AXIS_MAX: i64 = 1000;

/// The player's linear velocity, in thousandths of a world unit per second.
#[derive(Clone, Copy, Debug, PartialEq, Eq, Structural)]
pub struct Velocity {
    pub x: i64,
    pub y: i64,
}

impl Velocity {
    /// Both components are small enough for every behaviour.
    pub open spec fn in_range(&self) -> bool {
        &&& -VELOCITY_LIMIT <= self.x <= VELOCITY_LIMIT
        &&& -VELOCITY_LIMIT <= self.y <= VELOCITY_LIMIT
    }
}

/// The width and height of the player's collision box.
#[derive(Clone, Copy, Debug, PartialEq, Eq, Structural)]
pub struct BoxSize {
    pub width: i64,
    pub height: i64,
}

/// The tuning a character controller is built from.
#[derive(Clone, Copy, Debug, PartialEq, Eq)]
pub struct CharacterControllerBuilder {
    pub size: BoxSize,
    /// Upward speed given by a jump.
    pub jump_force: i64,
    /// How long after leaving ground a jump is still honoured.
    pub coyote_time: u64,
    /// How long a jump press is kept waiting for ground.
    pub jump_buffer_time: u64,
    /// The factor an early release of jump applies to an upward speed.
    pub jump_release_multi: u64,
    pub max_move_speed: i64,
    pub acceleration_force: i64,
    pub decceleration_force: i64,
    /// The extra factor on acceleration against the current direction.
    pub turnaround_multi: u64,
    /// The factor on acceleration while off the ground.
    pub air_control: u64,
    /// Whether braking with no input also applies off the ground.
    pub air_braking: bool,
    /// How long a side's contacts are ignored after an activation event.
    pub grounded_delay: u64,
}

impl CharacterControllerBuilder {
    /// Every knob is positive, the release factor is below one, and every
    /// value is within the fixed-point range.
    pub open spec fn valid(&self) -> bool {
        &&& 0 < self.size.width <= MAX_BOX_SIDE
        &&& 0 < self.size.height <= MAX_BOX_SIDE
        &&& 0 < self.jump_force <= MAX_TUNING_SPEED
        &&& 0 < self.coyote_time
        &&& 0 < self.jump_buffer_time
        &&& 0 < self.jump_release_multi < MULTI_ONE
        &&& 0 < self.max_move_speed <= MAX_TUNING_SPEED
        &&& 0 < self.acceleration_force <= MAX_TUNING_SPEED
        &&& 0 < self.decceleration_force <= MAX_TUNING_SPEED
        &&& 0 < self.turnaround_multi <= MAX_TUNING_MULTI
        &&& 0 < self.air_control <= MAX_TUNING_MULTI
    }

    /// The controller this tuning builds: both timers run out, no contact,
    /// and no jump waiting to be cut.
    pub open spec fn build_spec(self) -> CharacterController {
        CharacterController {
            jump_force: self.jump_force,
            coyote_timer: CountdownTimer { duration: self.coyote_time, elapsed: self.coyote_time },
            jump_buffer_timer: CountdownTimer {
                duration: self.jump_buffer_time,
                elapsed: self.jump_buffer_time,
            },
            has_released_jump: true,
            jump_release_multi: self.jump_release_multi,
            max_move_speed: self.max_move_speed,
            acceleration_force: self.acceleration_force,
            decceleration_force: self.decceleration_force,
            turnaround_multi: self.turnaround_multi,
            air_control: self.air_control,
            air_braking: self.air_braking,
            grounded_delay: self.grounded_delay,
            surface_checker: SurfaceGroundedChecker {
                top: false,
                bottom: false,
                left: false,
                right: false,
            },
            size: self.size,
        }
    }

    /// Whether this tuning can build a controller.
    pub fn is_valid(&self) -> (r: bool)
        ensures
            r == self.valid(),
    {
        0 < self.size.width && self.size.width <= MAX_BOX_SIDE && 0 < self.size.height
            && self.size.height <= MAX_BOX_SIDE && 0 < self.jump_force && self.jump_force
            <= MAX_TUNING_SPEED && 0 < self.coyote_time && 0 < self.jump_buffer_time && 0
            < self.jump_release_multi && self.jump_release_multi < MULTI_ONE && 0
            < self.max_move_speed && self.max_move_speed <= MAX_TUNING_SPEED && 0
            < self.acceleration_force && self.acceleration_force <= MAX_TUNING_SPEED && 0
            < self.decceleration_force && self.decceleration_force <= MAX_TUNING_SPEED && 0
            < self.turnaround_multi && self.turnaround_multi <= MAX_TUNING_MULTI && 0
            < self.air_control && self.air_control <= MAX_TUNING_MULTI
    }

    /// Builds the controller.
    pub fn build(self) -> (r: CharacterController)
        requires
            self.valid(),
        ensures
            r == self.build_spec(),
            r.wf(),
    {
        CharacterController {
            jump_force: self.jump_force,
            coyote_timer: CountdownTimer::new_finished(self.coyote_time),
            jump_buffer_timer: CountdownTimer::new_finished(self.jump_buffer_time),
            has_released_jump: true,
            jump_release_multi: self.jump_release_multi,
            max_move_speed: self.max_move_speed,
            acceleration_force: self.acceleration_force,
            decceleration_force: self.decceleration_force,
            turnaround_multi: self.turnaround_multi,
            air_control: self.air_control,
            air_braking: self.air_braking,
            grounded_delay: self.grounded_delay,
            surface_checker: SurfaceGroundedChecker::new(),
            size: self.size,
        }
    }
}

/// The per-player tuning and runtime state of the controller.
#[derive(Clone, Copy, Debug, PartialEq, Eq)]
pub struct CharacterController {
    pub jump_force: i64,
    pub coyote_timer: CountdownTimer,
    pub jump_buffer_timer: CountdownTimer,
    /// Whether jump has been let go (or the apex passed) since the last jump.
    pub has_released_jump: bool,
    pub jump_release_multi: u64,
    pub max_move_speed: i64,
    pub acceleration_force: i64,
    pub decceleration_force: i64,
    pub turnaround_multi: u64,
    pub air_control: u64,
    /// Whether braking with no input also applies off the ground.
    pub air_braking: bool,
    pub grounded_delay: u64,
    /// This step's contact flags.
    pub surface_checker: SurfaceGroundedChecker,
    pub size: BoxSize,
}

/// The timer started over where `restart` holds, else advanced by `delta`.
pub open spec fn restart_or_tick(t: CountdownTimer, restart: bool, delta: u64) -> CountdownTimer {
    if restart {
        t.reset_spec()
    } else {
        t.tick_spec(delta)
    }
}

/// The run input points against the horizontal velocity.
pub open spec fn opposes(run: int, vx: int) -> bool {
    (run > 0 && vx < 0) || (run < 0 && vx > 0)
}

/// The change of horizontal speed for one step of `delta` microseconds with
/// the given acceleration, run input and the two multipliers, rounded toward zero.
pub open spec fn accel_delta_spec(acc: int, delta: int, run: int, turn: int, air: int) -> int {
    sign(run) * ((acc * delta * abs(run) * turn * air) / (ACCEL_DIVISOR as int))
}

/// A speed that went past `max` is replaced by `max` in the direction of
/// the change `add`; with no change, in the direction the speed already had.
pub open spec fn clamp_spec(sum: int, add: int, max: int) -> int {
    if abs(sum) > max {
        if add > 0 || (add == 0 && sum > 0) {
            max
        } else {
            -max
        }
    } else {
        sum
    }
}

/// `v` brought toward zero by `amount`, stopping at zero.
pub open spec fn decelerate(v: int, amount: int) -> int {
    if abs(v) <= amount {
        0
    } else {
        v - sign(v) * amount
    }
}

impl CharacterController {
    /// Tuning within range, and both timers consistent.
    pub open spec fn wf(&self) -> bool {
        &&& 0 < self.size.width <= MAX_BOX_SIDE
        &&& 0 < self.size.height <= MAX_BOX_SIDE
        &&& 0 < self.jump_force <= MAX_TUNING_SPEED
        &&& self.coyote_timer.wf()
        &&& self.jump_buffer_timer.wf()
        &&& 0 < self.jump_release_multi < MULTI_ONE
        &&& 0 < self.max_move_speed <= MAX_TUNING_SPEED
        &&& 0 < self.acceleration_force <= MAX_TUNING_SPEED
        &&& 0 < self.decceleration_force <= MAX_TUNING_SPEED
        &&& 0 < self.turnaround_multi <= MAX_TUNING_MULTI
        &&& 0 < self.air_control <= MAX_TUNING_MULTI
    }

    /// A jump may start: the coyote window is open and a jump press is buffered.
    pub open spec fn jump_condition(&self) -> bool {
        !self.coyote_timer.is_finished() && !self.jump_buffer_timer.is_finished()
    }

    /// The controller with its contact flags replaced.
    pub open spec fn with_contacts(self, contacts: SurfaceGroundedChecker) -> CharacterController {
        CharacterController { surface_checker: contacts, ..self }
    }

    /// The timers after a step: the coyote timer starts over on ground contact
    /// and runs down otherwise; the jump buffer starts over on a fresh jump
    /// press and runs down otherwise.
    pub open spec fn jump_variables_spec(self, jump_just_pressed: bool, delta: u64) -> CharacterController {
        CharacterController {
            coyote_timer: restart_or_tick(self.coyote_timer, self.surface_checker.bottom, delta),
            jump_buffer_timer: restart_or_tick(self.jump_buffer_timer, jump_just_pressed, delta),
            ..self
        }
    }

    /// The controller after a jump: both timers run out and the jump is not yet released.
    pub open spec fn after_jump_spec(self) -> CharacterController {
        CharacterController {
            has_released_jump: false,
            coyote_timer: self.coyote_timer.expire_spec(),
            jump_buffer_timer: self.jump_buffer_timer.expire_spec(),
            ..self
        }
    }

    /// The velocity after a jump: the jump force upward, and the horizontal
    /// speed raised by a tenth.
    pub open spec fn jump_velocity_spec(self, vel: Velocity) -> Velocity {
        Velocity {
            x: scale_toward_zero(vel.x as int, JUMP_MOMENTUM_NUM as int, JUMP_MOMENTUM_DEN as int) as i64,
            y: self.jump_force,
        }
    }

    /// A fall step cuts the jump: it has not been released yet, the apex has
    /// not passed, and jump is let go now.
    pub open spec fn fall_cuts(self, vel: Velocity, jump_released: bool) -> bool {
        !self.has_released_jump && vel.y >= 0 && jump_released
    }

    /// The controller after a fall step: the jump counts as released once it
    /// was let go or the apex passed.
    pub open spec fn after_fall_spec(self, vel: Velocity, jump_released: bool) -> CharacterController {
        CharacterController {
            has_released_jump: self.has_released_jump || vel.y < 0 || jump_released,
            ..self
        }
    }

    /// The velocity after a fall step: the upward speed scaled by the release
    /// factor where the jump is cut, else unchanged.
    pub open spec fn fall_velocity_spec(self, vel: Velocity, jump_released: bool) -> Velocity {
        if self.fall_cuts(vel, jump_released) {
            Velocity {
                y: scale_toward_zero(vel.y as int, self.jump_release_multi as int, MULTI_ONE as int) as i64,
                ..vel
            }
        } else {
            vel
        }
    }

    /// The horizontal speed after a step: accelerate by the run input, clamp
    /// to the top speed, then with no input brake toward zero, on the ground
    /// always and off it only where air braking is on.
    pub open spec fn horizontal_spec(self, vx: int, run: int, delta: u64) -> int {
        let grounded = self.surface_checker.bottom;
        let air = if grounded { MULTI_ONE as int } else { self.air_control as int };
        let turn = if opposes(run, vx) { self.turnaround_multi as int } else { MULTI_ONE as int };
        let add = accel_delta_spec(self.acceleration_force as int, delta as int, run, turn, air);
        let moved = clamp_spec(vx + add, add, self.max_move_speed as int);
        if run == 0 && (grounded || self.air_braking) {
            decelerate(moved, (self.decceleration_force * delta) / (MICROS_PER_SECOND as int))
        } else {
            moved
        }
    }

    /// Whether a jump may start now.
    pub fn jump_trigger(&self) -> (r: bool)
        ensures
            r == self.jump_condition(),
    {
        !self.coyote_timer.finished() && !self.jump_buffer_timer.finished()
    }

    /// Updates the coyote and jump-buffer timers for a step of `delta` microseconds.
    pub fn controller_jump_variables(&mut self, jump_just_pressed: bool, delta: u64)
        requires
            old(self).wf(),
        ensures
            *final(self) == old(self).jump_variables_spec(jump_just_pressed, delta),
            final(self).wf(),
    {
        if self.surface_checker.surface_touching_ground(&crate::surface::Surface::Bottom) {
            self.coyote_timer.reset();
        } else {
            self.coyote_timer.tick(delta);
        }
        if jump_just_pressed {
            self.jump_buffer_timer.reset();
        } else {
            self.jump_buffer_timer.tick(delta);
        }
    }

    /// Starts a jump: upward speed set to the jump force, both timers run out
    /// so that the jump cannot fire twice, and horizontal momentum kept with a
    /// small boost.
    pub fn jump(&mut self, vel: &mut Velocity)
        requires
            old(self).wf(),
            old(vel).in_range(),
        ensures
            *final(self) == old(self).after_jump_spec(),
            *final(vel) == old(self).jump_velocity_spec(*old(vel)),
            final(self).wf(),
            final(vel).y == old(self).jump_force,
    {
        self.has_released_jump = false;
        self.jump_buffer_timer.expire();
        self.coyote_timer.expire();
        vel.y = self.jump_force;
        vel.x = scale_i64(vel.x, JUMP_MOMENTUM_NUM, JUMP_MOMENTUM_DEN);
    }

    /// A step of falling: letting go of jump before the apex cuts the upward
    /// speed by the release factor, once per jump.
    pub fn fall(&mut self, vel: &mut Velocity, jump_released: bool)
        requires
            old(self).wf(),
            old(vel).in_range(),
        ensures
            *final(self) == old(self).after_fall_spec(*old(vel), jump_released),
            *final(vel) == old(self).fall_velocity_spec(*old(vel), jump_released),
            final(self).wf(),
            final(vel).in_range(),
    {
        let cuts = !self.has_released_jump && vel.y >= 0 && jump_released;
        self.has_released_jump = self.has_released_jump || vel.y < 0 || jump_released;
        if cuts {
            vel.y = scale_i64(vel.y, self.jump_release_multi, MULTI_ONE);
        }
    }

    /// Accelerates the horizontal velocity by the run input, clamps it to the
    /// top speed, and brakes it toward zero when there is no input (off the
    /// ground only where air braking is on).
    pub fn horizontal_movement(&self, vel: &mut Velocity, run: i64, delta: u64)
        requires
            self.wf(),
            -RUN_AXIS_MAX <= run <= RUN_AXIS_MAX,
            delta <= MAX_STEP_MICROS,
        ensures
            final(vel).x == self.horizontal_spec(old(vel).x as int, run as int, delta),
            final(vel).y == old(vel).y,
            abs(final(vel).x as int) <= self.max_move_speed,
            run == 0 ==> {
                &&& old(vel).x >= 0 ==> final(vel).x >= 0
                &&& old(vel).x <= 0 ==> final(vel).x <= 0
                &&& abs(final(vel).x as int) <= abs(old(vel).x as int)
            },
    {
        let grounded = self.surface_checker.surface_touching_ground(&crate::surface::Surface::Bottom);
        let air: u64 = if grounded {
            MULTI_ONE
        } else {
            self.air_control
        };
        let turn: u64 = if (run > 0 && vel.x < 0) || (run < 0 && vel.x > 0) {
            self.turnaround_multi
        } else {
            MULTI_ONE
        };
        let add = accel_delta(self.acceleration_force, delta, run, turn, air);
        let sum: i128 = vel.x as i128 + add as i128;
        let max = self.max_move_speed;
        let moved: i64 = if sum > max as i128 || sum < -(max as i128) {
            if add > 0 {
                max
            } else if add < 0 {
                -max
            } else if sum > 0 {
                max
            } else {
                -max
            }
        } else {
            sum as i64
        };
        assert(moved == clamp_spec(sum as int, add as int, max as int));
        let mut vx = moved;
        if run == 0 && (grounded || self.air_braking) {
            proof {
                lemma_mul_bounded(
                    self.decceleration_force as int,
                    delta as int,
                    MAX_TUNING_SPEED as int,
                    MAX_STEP_MICROS as int,
                );
            }
            let amount: i64 = ((self.decceleration_force as u64) * delta / MICROS_PER_SECOND) as i64;
            assert(amount == (self.decceleration_force * delta) / (MICROS_PER_SECOND as int));
            vx = if moved <= amount && moved >= -amount {
                0
            } else if moved > 0 {
                moved - amount
            } else {
                moved + amount
            };
            assert(vx == decelerate(moved as int, amount as int));
        }
        vel.x = vx;
    }
}

/// The change of horizontal speed for one step, rounded toward zero.
fn accel_delta(acc: i64, delta: u64, run: i64, turn: u64, air: u64) -> (r: i64)
    requires
        0 <= acc <= MAX_TUNING_SPEED,
        delta <= MAX_STEP_MICROS,
        -RUN_AXIS_MAX <= run <= RUN_AXIS_MAX,
        turn <= MAX_TUNING_MULTI,
        air <= MAX_TUNING_MULTI,
    ensures
        r == accel_delta_spec(acc as int, delta as int, run as int, turn as int, air as int),
        abs(r as int) <= 10_000_000_000_000_000,
{
    let run_mag: u128 = if run < 0 {
        (-run) as u128
    } else {
        run as u128
    };
    proof {
        let a = acc as int;
        let d = delta as int;
        let m = run_mag as int;
        lemma_mul_bounded(a, d, MAX_TUNING_SPEED as int, MAX_STEP_MICROS as int);
        lemma_mul_bounded(a * d, m, MAX_TUNING_SPEED * MAX_STEP_MICROS, RUN_AXIS_MAX as int);
        lemma_mul_bounded(
            a * d * m,
            turn as int,
            MAX_TUNING_SPEED * MAX_STEP_MICROS * RUN_AXIS_MAX,
            MAX_TUNING_MULTI as int,
        );
        lemma_mul_bounded(
            a * d * m * turn,
            air as int,
            MAX_TUNING_SPEED * MAX_STEP_MICROS * RUN_AXIS_MAX * MAX_TUNING_MULTI,
            MAX_TUNING_MULTI as int,
        );
    }
    let product: u128 = (acc as u128) * (delta as u128) * run_mag * (turn as u128) * (air as u128);
    let mag: u128 = product / ACCEL_DIVISOR;
    proof {
        let p = product as int;
        assert(p <= 10_000_000_000_000_000 * (ACCEL_DIVISOR as int));
        assert(p / (ACCEL_DIVISOR as int) <= 10_000_000_000_000_000) by (nonlinear_arith)
            requires
                0 <= p <= 10_000_000_000_000_000 * (ACCEL_DIVISOR as int),
                ACCEL_DIVISOR > 0,
        ;
        assert(run_mag as int == abs(run as int));
        assert(p == (acc as int) * (delta as int) * abs(run as int) * (turn as int) * (air as int));
        assert(mag as int == ((acc as int) * (delta as int) * abs(run as int) * (turn as int) * (air as int)) / (ACCEL_DIVISOR as int));
    }
    let ghost x = ((acc as int) * (delta as int) * abs(run as int) * (turn as int) * (air as int)) / (ACCEL_DIVISOR as int);
    if run < 0 {
        assert(sign(run as int) * x == -x);
        -(mag as i64)
    } else if run > 0 {
        assert(sign(run as int) * x == x);
        mag as i64
    } else {
        assert((acc as int) * (delta as int) * 0 * (turn as int) * (air as int) == 0) by (nonlinear_arith);
        assert(sign(run as int) * x == 0);
        0
    }
}

/// Refreshes the controller's contact flags for a step: advances the
/// activation delays, applies this step's activation events, and keeps the
/// probe hits whose side's delay has passed.
pub fn surface_checker(
    controller: &mut CharacterController,
    delay: &mut GroundedContactDelay,
    probe_hits: &SurfaceGroundedChecker,
    events: &Vec<ActivateGroundedDelay>,
    delta: u64,
)
    ensures
        *final(delay) == old(delay).update_spec(delta, events@),
        *final(controller) == old(controller).with_contacts(
            classify_spec(*probe_hits, *final(delay), old(controller).grounded_delay),
        ),
{
    delay.update_last_delay_message(delta, events);
    controller.surface_checker = classify_contacts(probe_hits, delay, controller.grounded_delay);
}

} // verus!
