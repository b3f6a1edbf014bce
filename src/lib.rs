//! A 2D platformer character controller: surface contact classification,
//! coyote-time and jump-buffer timers, a movement state machine and the
//! velocity behaviours it gates.
//!
//! All quantities are integers in fixed units:
//! - lengths are in thousandths of a world unit, speeds in thousandths of a
//!   world unit per second and accelerations in thousandths of a world unit
//!   per second squared;
//! - durations are in microseconds;
//! - multipliers and the run axis are in thousandths (`1000` stands for `1.0`).
use vstd::prelude::*;

pub mod controller;
pub mod exit;
pub mod laws;
pub mod player;
pub mod state_machine;
pub mod surface;
pub mod timer;
pub mod units;

pub use controller::{surface_checker, BoxSize, CharacterController, CharacterControllerBuilder, Velocity};
pub use exit::ExitKeys;
pub use player::{Player, StepInput};
pub use state_machine::{
    next_state, FallingState, FallingTrigger, GroundedState, GroundedTrigger, JumpTrigger, JumpingState,
    MovementState, WallslidingTrigger,
};
pub use surface::{
    classify_contacts, surface_probe, ActivateGroundedDelay, GroundedContactDelay, Surface, SurfaceGroundedChecker,
    SurfaceProbe,
};
pub use timer::CountdownTimer;
