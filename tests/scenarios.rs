use platformer::{
    ActivateGroundedDelay, BoxSize, CharacterControllerBuilder, GroundedState, MovementState, Player, StepInput,
    Surface, SurfaceGroundedChecker, Velocity,
};

const STEP: u64 = 16_667;

fn tuning() -> CharacterControllerBuilder {
    CharacterControllerBuilder {
        size: BoxSize { width: 25_000, height: 25_000 },
        jump_force: 450_000,
        coyote_time: 175_000,
        jump_buffer_time: 200_000,
        jump_release_multi: 300,
        max_move_speed: 250_000,
        acceleration_force: 2_500_000,
        decceleration_force: 1_500_000,
        turnaround_multi: 1500,
        air_control: 400,
        air_braking: false,
        grounded_delay: 0,
    }
}

fn hits(bottom: bool) -> SurfaceGroundedChecker {
    SurfaceGroundedChecker { top: false, bottom, left: false, right: false }
}

fn input(run: i64, pressed: bool, released: bool) -> StepInput {
    StepInput { run, jump_just_pressed: pressed, jump_just_released: released }
}

fn step(player: &mut Player, vel: &mut Velocity, input: StepInput, bottom: bool) {
    player.step(vel, &input, &hits(bottom), &Vec::new(), STEP);
}

#[test]
fn run_right_clamps_to_top_speed_within_a_second() {
    let mut player = Player::new(tuning());
    let mut vel = Velocity { x: 0, y: 0 };
    let mut seen = Vec::new();
    for _ in 0..60 {
        step(&mut player, &mut vel, input(1000, false, false), true);
        seen.push(vel.x);
    }
    assert_eq!(seen[0], 41_667);
    assert_eq!(seen[4], 208_335);
    assert_eq!(seen[5], 250_000);
    assert!(seen[5..].iter().all(|&x| x == 250_000));
    assert_eq!(player.state, MovementState::Grounded(GroundedState::WalkingRight));
}

#[test]
fn jump_from_ground_sets_jump_force_exactly() {
    let mut player = Player::new(tuning());
    let mut vel = Velocity { x: 0, y: 0 };
    step(&mut player, &mut vel, input(0, false, false), true);
    assert_eq!(player.state, MovementState::Grounded(GroundedState::Idle));
    step(&mut player, &mut vel, input(0, true, false), true);
    assert_eq!(vel.y, 450_000);
    assert!(player.state.is_jumping());
    assert!(player.controller.coyote_timer.finished());
    assert!(player.controller.jump_buffer_timer.finished());
    assert!(!player.controller.has_released_jump);
}

#[test]
fn jumping_lands_on_bottom_contact_same_step() {
    let mut player = Player::new(tuning());
    let mut vel = Velocity { x: 0, y: 0 };
    step(&mut player, &mut vel, input(0, false, false), true);
    step(&mut player, &mut vel, input(0, true, false), true);
    assert!(player.state.is_jumping());
    vel.y = 200_000;
    step(&mut player, &mut vel, input(0, false, false), false);
    assert!(player.state.is_jumping());
    vel.y = -50_000;
    step(&mut player, &mut vel, input(0, false, false), true);
    assert_eq!(player.state, MovementState::Grounded(GroundedState::Idle));
}

#[test]
fn buffered_jump_fires_after_landing() {
    let mut player = Player::new(tuning());
    player.state = MovementState::Falling(platformer::FallingState);
    let mut vel = Velocity { x: 0, y: -100_000 };
    // frame 0: airborne, jump pressed
    step(&mut player, &mut vel, input(0, true, false), false);
    assert!(player.state.is_falling());
    // frames 1 and 2: still airborne
    step(&mut player, &mut vel, input(0, false, false), false);
    step(&mut player, &mut vel, input(0, false, false), false);
    assert!(player.state.is_falling());
    // frame 3: bottom contact; the jump condition holds, landing takes priority
    step(&mut player, &mut vel, input(0, false, false), true);
    assert!(player.controller.jump_trigger());
    assert_eq!(player.state, MovementState::Grounded(GroundedState::Idle));
    // frame 4: the buffered jump fires from the ground
    vel.y = 0;
    step(&mut player, &mut vel, input(0, false, false), true);
    assert!(player.state.is_jumping());
    assert_eq!(vel.y, 450_000);
}

#[test]
fn coyote_jump_within_window() {
    let mut player = Player::new(tuning());
    let mut vel = Velocity { x: 0, y: 0 };
    step(&mut player, &mut vel, input(0, false, false), true);
    // ten steps off the ledge: 166 670 us < 175 000 us
    for _ in 0..9 {
        vel.y = -10_000;
        step(&mut player, &mut vel, input(0, false, false), false);
    }
    assert!(player.state.is_falling());
    vel.y = -10_000;
    step(&mut player, &mut vel, input(0, true, false), false);
    assert!(player.state.is_jumping());
    assert_eq!(vel.y, 450_000);
}

#[test]
fn coyote_window_closes() {
    let mut player = Player::new(tuning());
    let mut vel = Velocity { x: 0, y: 0 };
    step(&mut player, &mut vel, input(0, false, false), true);
    // eleven steps off the ledge: 183 337 us >= 175 000 us
    for _ in 0..10 {
        vel.y = -10_000;
        step(&mut player, &mut vel, input(0, false, false), false);
    }
    vel.y = -10_000;
    step(&mut player, &mut vel, input(0, true, false), false);
    assert!(!player.controller.jump_trigger());
    assert!(player.state.is_falling());
    assert_eq!(vel.y, -10_000);
}

#[test]
fn jump_buffer_expires_before_landing() {
    let mut player = Player::new(tuning());
    player.state = MovementState::Falling(platformer::FallingState);
    let mut vel = Velocity { x: 0, y: -100_000 };
    step(&mut player, &mut vel, input(0, true, false), false);
    // twelve more steps: 200 004 us >= 200 000 us
    for _ in 0..11 {
        step(&mut player, &mut vel, input(0, false, false), false);
    }
    step(&mut player, &mut vel, input(0, false, false), true);
    assert!(!player.controller.jump_trigger());
    assert_eq!(player.state, MovementState::Grounded(GroundedState::Idle));
}

#[test]
fn exactly_one_state_every_step() {
    let mut player = Player::new(tuning());
    let mut vel = Velocity { x: 0, y: 0 };
    let plan = [(true, 600, false), (true, -700, true), (false, 0, false), (false, 0, false), (true, 0, false)];
    for (bottom, run, pressed) in plan {
        step(&mut player, &mut vel, input(run, pressed, false), bottom);
        let flags = [player.state.is_grounded(), player.state.is_jumping(), player.state.is_falling()];
        assert_eq!(flags.iter().filter(|f| **f).count(), 1);
        vel.y -= 100_000;
    }
}

#[test]
fn horizontal_speed_never_exceeds_top_speed() {
    let mut player = Player::new(tuning());
    let mut vel = Velocity { x: 0, y: 0 };
    let runs = [1000, 1000, -1000, 300, -1000, -1000, -1000, 0, 1000, 999, -1, 0, 0, 1000];
    for i in 0..140 {
        let run = runs[i % runs.len()];
        step(&mut player, &mut vel, input(run, i % 17 == 3, i % 17 == 9), i % 5 != 0);
        assert!(vel.x.abs() <= 250_000);
        vel.y = if player.state.is_jumping() { vel.y - 20_000 } else { vel.y };
    }
}

#[test]
fn grounded_braking_stops_at_zero() {
    let mut player = Player::new(tuning());
    let mut vel = Velocity { x: 30_000, y: 0 };
    step(&mut player, &mut vel, input(0, false, false), true);
    assert_eq!(vel.x, 5_000);
    step(&mut player, &mut vel, input(0, false, false), true);
    assert_eq!(vel.x, 0);
    step(&mut player, &mut vel, input(0, false, false), true);
    assert_eq!(vel.x, 0);
    let mut left = Velocity { x: -60_000, y: 0 };
    let mut last = left.x;
    for _ in 0..5 {
        step(&mut player, &mut left, input(0, false, false), true);
        assert!(left.x <= 0 && left.x >= last);
        last = left.x;
    }
    assert_eq!(left.x, 0);
}

#[test]
fn no_braking_in_the_air() {
    let mut player = Player::new(tuning());
    player.state = MovementState::Falling(platformer::FallingState);
    let mut vel = Velocity { x: 30_000, y: -1000 };
    step(&mut player, &mut vel, input(0, false, false), false);
    assert_eq!(vel.x, 30_000);
}

#[test]
fn activation_event_suppresses_contact() {
    let mut builder = tuning();
    builder.grounded_delay = 50_000;
    let mut player = Player::new(builder);
    let mut vel = Velocity { x: 0, y: 0 };
    // 16 667 us after spawn: not yet past the delay
    player.step(&mut vel, &input(0, false, false), &hits(true), &Vec::new(), STEP);
    assert!(!player.controller.surface_checker.surface_touching_ground(&Surface::Bottom));
    for _ in 0..3 {
        player.step(&mut vel, &input(0, false, false), &hits(true), &Vec::new(), STEP);
    }
    assert!(player.controller.surface_checker.surface_touching_ground(&Surface::Bottom));
    player.step(
        &mut vel,
        &input(0, false, false),
        &hits(true),
        &vec![ActivateGroundedDelay(Surface::Bottom)],
        STEP,
    );
    assert!(!player.controller.surface_checker.surface_touching_ground(&Surface::Bottom));
    assert_eq!(player.contact_delay.bottom, 0);
}

#[test]
fn releasing_jump_while_rising_cuts_once() {
    let mut player = Player::new(tuning());
    let mut vel = Velocity { x: 0, y: 0 };
    step(&mut player, &mut vel, input(0, false, false), true);
    step(&mut player, &mut vel, input(0, true, false), true);
    assert_eq!(vel.y, 450_000);
    // rising, jump still held
    vel.y = 400_000;
    step(&mut player, &mut vel, input(0, false, false), false);
    assert!(player.state.is_jumping());
    assert_eq!(vel.y, 400_000);
    // let go while rising: scaled by 0.3
    step(&mut player, &mut vel, input(0, false, true), false);
    assert!(player.state.is_jumping());
    assert_eq!(vel.y, 120_000);
    assert!(player.controller.has_released_jump);
    // a second release of the same jump changes nothing
    step(&mut player, &mut vel, input(0, false, true), false);
    assert_eq!(vel.y, 120_000);
}

#[test]
fn releasing_jump_after_apex_changes_nothing() {
    let mut player = Player::new(tuning());
    let mut vel = Velocity { x: 0, y: 0 };
    step(&mut player, &mut vel, input(0, false, false), true);
    step(&mut player, &mut vel, input(0, true, false), true);
    vel.y = -20_000;
    step(&mut player, &mut vel, input(0, false, false), false);
    assert!(player.state.is_falling());
    step(&mut player, &mut vel, input(0, false, true), false);
    assert_eq!(vel.y, -20_000);
}

#[test]
fn jump_at_top_speed_keeps_top_speed() {
    for dir in [1i64, -1] {
        let mut player = Player::new(tuning());
        let mut vel = Velocity { x: 0, y: 0 };
        for _ in 0..10 {
            step(&mut player, &mut vel, input(1000 * dir, false, false), true);
        }
        assert_eq!(vel.x, 250_000 * dir);
        // off the ledge, still running
        vel.y = -10_000;
        step(&mut player, &mut vel, input(1000 * dir, false, false), false);
        assert!(player.state.is_falling());
        assert_eq!(vel.x, 250_000 * dir);
        // coyote jump with run let go: the boost passes the top speed and the
        // clamp keeps the direction the player had
        step(&mut player, &mut vel, input(0, true, false), false);
        assert!(player.state.is_jumping());
        assert_eq!(vel.y, 450_000);
        assert_eq!(vel.x, 250_000 * dir);
    }
}

#[test]
fn air_braking_setting() {
    let mut builder = tuning();
    builder.air_braking = true;
    let mut player = Player::new(builder);
    player.state = MovementState::Falling(platformer::FallingState);
    let mut vel = Velocity { x: 30_000, y: -1000 };
    step(&mut player, &mut vel, input(0, false, false), false);
    assert_eq!(vel.x, 5_000);
}
