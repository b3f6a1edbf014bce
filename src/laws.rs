//! Properties that hold across calls and across steps.
use vstd::prelude::*;

use crate::controller::{accel_delta_spec, opposes, CharacterController, Velocity};
use crate::player::{Player, StepInput};
use crate::state_machine::MovementState;
use crate::surface::{lemma_surface_map_domain, ActivateGroundedDelay, Surface, SurfaceGroundedChecker};
use crate::units::{abs, scale_toward_zero, sign, MICROS_PER_SECOND, MULTI_ONE};

verus! {

/// The contact flags of every controller have exactly the four sides as keys.
pub proof fn lemma_checker_complete(c: CharacterController)
    ensures
        c.surface_checker@.dom() == Surface::all(),
        c.surface_checker@.len() == 4,
{
    let s = c.surface_checker;
    lemma_surface_map_domain(s.top, s.bottom, s.left, s.right);
    assert(Surface::all().len() == 4) by {
        let a = set![Surface::Top];
        let b = a.insert(Surface::Bottom);
        let l = b.insert(Surface::Left);
        assert(a.len() == 1) by {
            assert(a =~= Set::empty().insert(Surface::Top));
        }
        assert(!a.contains(Surface::Bottom));
        assert(!b.contains(Surface::Left));
        assert(!l.contains(Surface::Right));
    }
}

/// A player is in exactly one movement state: grounded, jumping or falling.
pub proof fn lemma_exactly_one_state(s: MovementState)
    ensures
        s is Grounded || s is Jumping || s is Falling,
        !(s is Grounded && s is Jumping),
        !(s is Grounded && s is Falling),
        !(s is Jumping && s is Falling),
{
}

/// One step of the timers: the classifier sets the bottom contact, then the
/// timers update with the jump press of the step.
pub open spec fn timers_step(c: CharacterController, bottom: bool, pressed: bool, delta: u64) -> CharacterController {
    c.with_contacts(SurfaceGroundedChecker { bottom, ..c.surface_checker }).jump_variables_spec(pressed, delta)
}

/// The timers after a run of steps, each a bottom contact and a jump press.
pub open spec fn timers_run(c: CharacterController, steps: Seq<(bool, bool)>, delta: u64) -> CharacterController
    decreases steps.len(),
{
    if steps.len() == 0 {
        c
    } else {
        timers_step(timers_run(c, steps.drop_last(), delta), steps.last().0, steps.last().1, delta)
    }
}

/// Over a run of steps neither timer runs more than the time of the run.
proof fn lemma_timers_run_bounded(c: CharacterController, steps: Seq<(bool, bool)>, delta: u64)
    requires
        c.wf(),
    ensures
        timers_run(c, steps, delta).wf(),
        timers_run(c, steps, delta).coyote_timer.duration == c.coyote_timer.duration,
        timers_run(c, steps, delta).jump_buffer_timer.duration == c.jump_buffer_timer.duration,
        timers_run(c, steps, delta).coyote_timer.elapsed <= c.coyote_timer.elapsed + steps.len() * delta,
        timers_run(c, steps, delta).jump_buffer_timer.elapsed <= c.jump_buffer_timer.elapsed + steps.len() * delta,
    decreases steps.len(),
{
    if steps.len() > 0 {
        let prefix = steps.drop_last();
        lemma_timers_run_bounded(c, prefix, delta);
        assert(prefix.len() * delta + delta == steps.len() * delta) by (nonlinear_arith)
            requires
                prefix.len() + 1 == steps.len(),
        ;
    }
}

/// Coyote time: with ground contact at one step and none from the next step
/// on, a jump pressed `k` steps later, while `k` steps take less than the
/// coyote time, still meets the jump condition.
pub proof fn lemma_coyote_forgiveness(
    c: CharacterController,
    pressed_on_ground: bool,
    steps: Seq<(bool, bool)>,
    delta: u64,
)
    requires
        c.wf(),
        steps.len() >= 1,
        forall|i: int| 0 <= i < steps.len() ==> !(#[trigger] steps[i]).0,
        steps.last().1,
        steps.len() * delta < c.coyote_timer.duration,
    ensures
        timers_run(timers_step(c, true, pressed_on_ground, delta), steps, delta).jump_condition(),
{
    let grounded = timers_step(c, true, pressed_on_ground, delta);
    let before = timers_run(grounded, steps.drop_last(), delta);
    lemma_timers_run_bounded(grounded, steps.drop_last(), delta);
    assert(grounded.coyote_timer.elapsed == 0);
    assert(steps.drop_last().len() * delta + delta == steps.len() * delta) by (nonlinear_arith)
        requires
            steps.drop_last().len() + 1 == steps.len(),
    ;
}

/// Jump buffer: a jump pressed in the air at one step, with ground contact
/// first coming back `k` steps later, while `k` steps take less than the jump
/// buffer time, meets the jump condition on landing.
pub proof fn lemma_jump_buffer(c: CharacterController, steps: Seq<(bool, bool)>, delta: u64)
    requires
        c.wf(),
        steps.len() >= 1,
        forall|i: int| 0 <= i < steps.len() - 1 ==> !(#[trigger] steps[i]).0,
        steps.last().0,
        steps.len() * delta < c.jump_buffer_timer.duration,
    ensures
        timers_run(timers_step(c, false, true, delta), steps, delta).jump_condition(),
{
    let pressed = timers_step(c, false, true, delta);
    lemma_timers_run_bounded(pressed, steps.drop_last(), delta);
    assert(pressed.jump_buffer_timer.elapsed == 0);
    assert(steps.drop_last().len() * delta + delta == steps.len() * delta) by (nonlinear_arith)
        requires
            steps.drop_last().len() + 1 == steps.len(),
    ;
}

/// The change of horizontal speed that a step with run input `run` adds to `vx`.
pub open spec fn run_delta(c: CharacterController, vx: int, run: int, delta: u64) -> int {
    let air = if c.surface_checker.bottom { MULTI_ONE as int } else { c.air_control as int };
    let turn = if opposes(run, vx) { c.turnaround_multi as int } else { MULTI_ONE as int };
    accel_delta_spec(c.acceleration_force as int, delta as int, run, turn, air)
}

/// The braking amount of a step of `delta` microseconds.
pub open spec fn brake_amount(c: CharacterController, delta: u64) -> int {
    (c.decceleration_force * delta) / (MICROS_PER_SECOND as int)
}

/// One step never leaves the horizontal speed above the top speed, whatever
/// the speed before and whatever the run input.
pub proof fn lemma_within_top_speed(c: CharacterController, vx: int, run: int, delta: u64)
    requires
        c.wf(),
    ensures
        abs(c.horizontal_spec(vx, run, delta)) <= c.max_move_speed,
{
}

/// The horizontal speed after a run of steps with the given run inputs.
pub open spec fn horizontal_run(c: CharacterController, vx: int, runs: Seq<int>, delta: u64) -> int
    decreases runs.len(),
{
    if runs.len() == 0 {
        vx
    } else {
        c.horizontal_spec(horizontal_run(c, vx, runs.drop_last(), delta), runs.last(), delta)
    }
}

/// No sequence of horizontal steps lets the speed exceed the top speed.
pub proof fn lemma_top_speed_over_runs(c: CharacterController, vx: int, runs: Seq<int>, delta: u64)
    requires
        c.wf(),
        abs(vx) <= c.max_move_speed,
    ensures
        abs(horizontal_run(c, vx, runs, delta)) <= c.max_move_speed,
    decreases runs.len(),
{
    if runs.len() > 0 {
        lemma_top_speed_over_runs(c, vx, runs.drop_last(), delta);
        lemma_within_top_speed(c, horizontal_run(c, vx, runs.drop_last(), delta), runs.last(), delta);
    }
}

/// With run input, a speed that would pass the top speed is replaced outright
/// by the top speed in the direction of the change.
pub proof fn lemma_replaced_past_top_speed(c: CharacterController, vx: int, run: int, delta: u64)
    requires
        c.wf(),
        run != 0,
        abs(vx + run_delta(c, vx, run, delta)) > c.max_move_speed,
    ensures
        c.horizontal_spec(vx, run, delta) == (if run_delta(c, vx, run, delta) > 0 {
            c.max_move_speed as int
        } else if run_delta(c, vx, run, delta) < 0 {
            -c.max_move_speed
        } else if vx > 0 {
            c.max_move_speed as int
        } else {
            -c.max_move_speed
        }),
{
}

/// On the ground with no input and within the top speed, a step brakes the
/// speed toward zero by the braking amount and snaps to zero instead of
/// crossing it.
pub proof fn lemma_braking_exact(c: CharacterController, vx: int, delta: u64)
    requires
        c.wf(),
        c.surface_checker.bottom,
        abs(vx) <= c.max_move_speed,
    ensures
        c.horizontal_spec(vx, 0, delta) == (if abs(vx) <= brake_amount(c, delta) {
            0
        } else {
            vx - sign(vx) * brake_amount(c, delta)
        }),
{
    assert(accel_delta_spec(c.acceleration_force as int, delta as int, 0, MULTI_ONE as int, MULTI_ONE as int) == 0);
}

/// With no input one step never changes the sign of the horizontal speed and
/// never raises its magnitude.
pub proof fn lemma_idle_step_never_flips(c: CharacterController, vx: int, delta: u64)
    requires
        c.wf(),
    ensures
        vx >= 0 ==> c.horizontal_spec(vx, 0, delta) >= 0,
        vx <= 0 ==> c.horizontal_spec(vx, 0, delta) <= 0,
        abs(c.horizontal_spec(vx, 0, delta)) <= abs(vx),
{
    let air = if c.surface_checker.bottom { MULTI_ONE as int } else { c.air_control as int };
    let turn = if opposes(0, vx) { c.turnaround_multi as int } else { MULTI_ONE as int };
    assert(accel_delta_spec(c.acceleration_force as int, delta as int, 0, turn, air) == 0);
    assert(brake_amount(c, delta) >= 0) by (nonlinear_arith)
        requires
            c.decceleration_force >= 0,
    ;
}

/// The horizontal speed after `n` steps on the ground with no run input.
pub open spec fn idle_run(c: CharacterController, vx: int, delta: u64, n: nat) -> int
    decreases n,
{
    if n == 0 {
        vx
    } else {
        c.horizontal_spec(idle_run(c, vx, delta, (n - 1) as nat), 0, delta)
    }
}

/// Braking never overshoots: on the ground with no input, repeated steps never
/// change the sign of the horizontal speed and never raise its magnitude.
pub proof fn lemma_deceleration_never_flips(c: CharacterController, vx: int, delta: u64, n: nat)
    requires
        c.wf(),
        c.surface_checker.bottom,
    ensures
        vx >= 0 ==> idle_run(c, vx, delta, n) >= 0,
        vx <= 0 ==> idle_run(c, vx, delta, n) <= 0,
        abs(idle_run(c, vx, delta, n)) <= abs(vx),
    decreases n,
{
    if n > 0 {
        lemma_deceleration_never_flips(c, vx, delta, (n - 1) as nat);
        lemma_idle_step_never_flips(c, idle_run(c, vx, delta, (n - 1) as nat), delta);
    }
}

/// The fall stage on its own: after a jump, letting go before the apex scales the upward
/// speed by the release factor; after that no fall step of the same jump
/// changes the velocity, released or not. Letting go after the apex changes nothing.
pub proof fn lemma_jump_cut_once(
    c: CharacterController,
    rising: Velocity,
    later: Velocity,
    later_released: bool,
)
    requires
        c.wf(),
        rising.y >= 0,
    ensures
        c.after_jump_spec().fall_velocity_spec(rising, true) == (Velocity {
            y: scale_toward_zero(rising.y as int, c.jump_release_multi as int, MULTI_ONE as int) as i64,
            ..rising
        }),
        c.after_jump_spec().after_fall_spec(rising, true).fall_velocity_spec(later, later_released) == later,
        c.after_jump_spec().after_fall_spec(rising, true).after_fall_spec(later, later_released).has_released_jump,
{
}

/// The fall stage on its own: letting go of jump after the apex has no
/// effect, now or at any later fall step of the same jump.
pub proof fn lemma_release_after_apex(
    c: CharacterController,
    falling: Velocity,
    released: bool,
    later: Velocity,
    later_released: bool,
)
    requires
        falling.y < 0,
    ensures
        c.fall_velocity_spec(falling, released) == falling,
        c.after_fall_spec(falling, released).fall_velocity_spec(later, later_released) == later,
{
}

/// Through the step pipeline: while rising in a jump, the step on which jump
/// is let go scales the upward speed by the release factor and marks the jump
/// released, and the player keeps jumping.
pub proof fn lemma_step_cuts_rising_jump(
    p: Player,
    vel: Velocity,
    input: StepInput,
    probe_hits: SurfaceGroundedChecker,
    events: Seq<ActivateGroundedDelay>,
    delta: u64,
)
    requires
        p.wf(),
        p.state is Jumping,
        !probe_hits.bottom,
        vel.y >= 0,
        !p.controller.has_released_jump,
        input.jump_just_released,
    ensures
        p.step_spec(vel, input, probe_hits, events, delta).0.state is Jumping,
        p.step_spec(vel, input, probe_hits, events, delta).1.y == scale_toward_zero(
            vel.y as int,
            p.controller.jump_release_multi as int,
            MULTI_ONE as int,
        ),
        p.step_spec(vel, input, probe_hits, events, delta).0.controller.has_released_jump,
{
    let y = vel.y as int;
    let m = p.controller.jump_release_multi as int;
    assert(0 <= (y * m) / 1000 <= y) by (nonlinear_arith)
        requires
            y >= 0,
            0 < m < 1000,
    ;
}

/// Through the step pipeline: once a jump counts as released, no step changes
/// the vertical speed until a new jump starts.
pub proof fn lemma_step_no_second_cut(
    p: Player,
    vel: Velocity,
    input: StepInput,
    probe_hits: SurfaceGroundedChecker,
    events: Seq<ActivateGroundedDelay>,
    delta: u64,
)
    requires
        p.wf(),
        p.controller.has_released_jump,
        !(p.state !is Jumping && p.step_spec(vel, input, probe_hits, events, delta).0.state is Jumping),
    ensures
        p.step_spec(vel, input, probe_hits, events, delta).1.y == vel.y,
        p.step_spec(vel, input, probe_hits, events, delta).0.controller.has_released_jump,
{
}

} // verus!
