use vstd::prelude::*;

verus! {

/// Width of the visible playfield, in cells.
pub const SCREEN_WIDTH: i32 = 80;

/// Height of the visible playfield, in cells; reaching it is fatal.
pub const SCREEN_HEIGHT: i32 = 50;

/// Accumulated time, in microseconds, that must be exceeded before a physics step runs.
pub const FRAME_DURATION_US: u64 = 60_000;

/// Fixed-point scale of velocities: this many units make one cell per step.
pub const VELOCITY_SCALE: i32 = 100;

/// Smallest full gap height of an obstacle.
pub const MIN_GAP_SIZE: i32 = 4;

/// Full gap height of an obstacle at score zero.
pub const BASE_GAP_SIZE: i32 = 20;

/// Lowest (inclusive) and highest (exclusive) gap centre of an obstacle.
pub const GAP_CENTER_MIN: i32 = 10;
pub const GAP_CENTER_MAX: i32 = 40;

/// Lowest (inclusive) row of an objective; the highest (exclusive) is `SCREEN_HEIGHT - 1`.
pub const OBJECTIVE_ROW_MIN: i32 = 2;

/// Downward acceleration while falling (0.4 cells per step per step).
pub const FALLING_GRAVITY: i32 = 40;

/// Fastest fall while falling or flapping (1.8 cells per step).
pub const TERMINAL_FALLING_VELOCITY: i32 = 180;

/// Fastest rise while flapping (-2.2 cells per step).
pub const MAX_FLAPPING_VELOCITY: i32 = -220;

/// Flap thrust at the last frame of a flap.
pub const FLAP_MAX_ACCELERATION: i32 = -220;

/// Flap thrust at the first frame of a flap.
pub const FLAP_INIT_ACCELERATION: i32 = 10;

/// Change of flap thrust per flap frame:
/// `(FLAP_MAX_ACCELERATION - FLAP_INIT_ACCELERATION) / FLAP_DURATION`.
pub const FLAP_ACCELERATION_STEP: i32 = -23;

/// Length of a flap, in physics steps; a multiple of `FLAPPING_ANIMATION_LENGTH`.
pub const FLAP_DURATION: usize = 10;

/// Number of glyphs in the flapping animation.
pub const FLAPPING_ANIMATION_LENGTH: usize = 10;

/// Steps the input must be held before a flap turns into a dive.
pub const DIVING_HOLD_LENGTH: usize = 2;

/// Downward acceleration while diving (0.8 cells per step per step).
pub const DIVING_GRAVITY: i32 = 80;

/// Fastest fall while diving (3.5 cells per step).
pub const TERMINAL_DIVING_VELOCITY: i32 = 350;

/// Number of frames of the colour flash played after scoring.
pub const SCORE_ANIMATION_LENGTH: usize = 11;

/// Where a new player appears.
pub const PLAYER_START_X: i32 = 5;
pub const PLAYER_START_Y: i32 = 25;

/// Bound on the score that keeps its arithmetic inside `i32`.
pub const SCORE_LIMIT: i32 = 1_000_000_000;

/// Bounds that keep the player's arithmetic inside `i32`.
pub const X_LIMIT: i32 = 1_000_000_000;
pub const Y_LIMIT: i32 = 1_000_000_000;
pub const VELOCITY_LIMIT: i32 = 1_000_000;

/// The flap thrust ramps linearly from its first to its last value.
pub proof fn lemma_flap_ramp_reaches_max()
    ensures
        FLAP_INIT_ACCELERATION + FLAP_ACCELERATION_STEP * FLAP_DURATION as int
            == FLAP_MAX_ACCELERATION,
        FLAP_DURATION % FLAPPING_ANIMATION_LENGTH == 0,
{
}

} // verus!
