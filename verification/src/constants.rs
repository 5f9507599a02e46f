//! Fixed constants of the simulation: logical resolution, world bounds,
//! movement parameters and animation intervals.
//!
//! Positions and velocities are fixed-point numbers: `COORD_SCALE` units per
//! logical pixel. All durations are in milliseconds of a monotonic clock that
//! the caller samples once per tick.

use vstd::prelude::*;

verus! {

/// Fixed-point units per logical pixel.
pub const COORD_SCALE: i64 = 1000;

/// Width of the logical render surface, in pixels.
pub const ART_WIDTH: usize = 256;
/// Height of the logical render surface, in pixels.
pub const ART_HEIGHT: usize = 224;
/// Default width of the window-scaled output buffer.
pub const SCALED_WINDOW_WIDTH: usize = 960;
/// Default height of the window-scaled output buffer.
pub const SCALED_WINDOW_HEIGHT: usize = 540;

/// Width of one body segment sprite, in fixed-point units.
pub const SNAKE_BODY_WIDTH: i64 = 6 * COORD_SCALE;
/// Height of one body segment sprite, in fixed-point units.
pub const SNAKE_BODY_HEIGHT: i64 = 8 * COORD_SCALE;

/// Lower world bound on the x axis, in fixed-point units.
pub const LOWER_BOUND_X: i64 = 10 * COORD_SCALE;
/// Upper world bound on the x axis, in fixed-point units.
pub const UPPER_BOUND_X: i64 = 256 * COORD_SCALE;
/// Lower world bound on the y axis, in fixed-point units.
pub const LOWER_BOUND_Y: i64 = 10 * COORD_SCALE;
/// Upper world bound on the y axis, in fixed-point units.
pub const UPPER_BOUND_Y: i64 = 224 * COORD_SCALE;
/// Leading edge of the player's bounding box used by the bounds checks.
pub const BOUND_EDGE: i64 = 16 * COORD_SCALE;

/// Axis-wise tolerance under which two positions count as overlapping.
pub const COLLISION_TOLERANCE: i64 = 1 * COORD_SCALE;

/// Every coordinate the simulation produces is clamped into
/// `[COORD_MIN, COORD_LIMIT]`, so coordinate arithmetic can never overflow.
pub const COORD_LIMIT: i64 = 1_000_000_000_000;
/// Lower end of the clamping range for coordinates.
pub const COORD_MIN: i64 = -1_000_000_000_000;

/// Velocity gained per directional key press, in fixed-point units per tick.
pub const ACCELERATION: i64 = 100;
/// Saturation value for each velocity component.
pub const MAX_VELOCITY: i64 = 3 * COORD_SCALE;
/// Velocities decayed below this threshold are snapped to zero.
pub const VELOCITY_STOP_THRESHOLD: i64 = 100;

/// Milliseconds between grid moves of the body chain.
pub const MOVE_INTERVAL_MS: u64 = 100;

/// Axis-wise distance under which the head counts as near the food.
pub const FOOD_PROXIMITY_RANGE: i64 = 24 * COORD_SCALE;
/// Axis-wise distance under which the food counts as eaten.
pub const FOOD_EAT_RANGE: i64 = 12 * COORD_SCALE;
/// Score gained for each food item eaten.
pub const FOOD_SCORE_INCREMENT: u32 = 100;
/// Margin from the world bounds that spawned food respects.
pub const FOOD_SPAWN_MARGIN: i64 = 10 * COORD_SCALE;

/// Milliseconds between food sprite frame alternations.
pub const FOOD_FRAME_INTERVAL_MS: u64 = 500;
/// Milliseconds between body sprite frame alternations.
pub const BODY_FRAME_INTERVAL_MS: u64 = 1500;
/// Milliseconds between globe background frame advances.
pub const GLOBE_FRAME_INTERVAL_MS: u64 = 1000;
/// Milliseconds between stars background frame advances.
pub const STARS_FRAME_INTERVAL_MS: u64 = 250;
/// Number of frames in each background animation cycle.
pub const BACKGROUND_FRAME_COUNT: usize = 6;

/// Length of the head animation cycle, in milliseconds.
pub const HEAD_CYCLE_MS: u64 = 5000;
/// Length of the blink frame at the start of each head cycle.
pub const HEAD_BLINK_MS: u64 = 500;
/// Frame the head shows while the blink lasts.
pub const HEAD_BLINK_FRAME: usize = 2;
/// Frame the head is forced to while near food.
pub const HEAD_ALERT_FRAME: usize = 3;

/// Number of game-over screen frames presented before a restart.
pub const GAME_OVER_FRAME_COUNT: usize = 8;
/// Milliseconds between two game-over screen frames.
pub const GAME_OVER_FRAME_DELAY_MS: u64 = 200;
/// Per-frame budget of the orchestrator loop, in milliseconds.
pub const FRAME_BUDGET_MS: u64 = 16;

/// Fixed-point x threshold beyond which sprites get the strongest vignette
/// darkening (the art width divided by 1.7).
pub const DARKNESS_NEAR_X: i64 = 150_588;
/// Fixed-point x threshold for the middle vignette tier (the art width
/// divided by 1.8).
pub const DARKNESS_MID_X: i64 = 142_222;
/// Fixed-point x threshold for the softest vignette tier (the art width
/// divided by 1.9).
pub const DARKNESS_FAR_X: i64 = 134_736;
/// Darkness factor of the strongest vignette tier, in hundredths.
pub const DARKNESS_NEAR_FACTOR: u32 = 60;
/// Darkness factor of the middle vignette tier, in hundredths.
pub const DARKNESS_MID_FACTOR: u32 = 70;
/// Darkness factor of the softest vignette tier, in hundredths.
pub const DARKNESS_FAR_FACTOR: u32 = 80;

/// Initial x position of the player, in fixed-point units.
pub const PLAYER_START_X: i64 = 40 * COORD_SCALE;
/// Initial y position of the player, in fixed-point units.
pub const PLAYER_START_Y: i64 = 150 * COORD_SCALE;
/// Initial x position of the (inactive) food item.
pub const FOOD_START_X: i64 = 100 * COORD_SCALE;
/// Initial y position of the (inactive) food item.
pub const FOOD_START_Y: i64 = 100 * COORD_SCALE;

} // verus!
