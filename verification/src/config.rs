//! Tuning constants of the simulation.
//!
//! Geometry is measured in micro-pixels (`SCALE` micro-pixels to the pixel),
//! time in milliseconds, and speeds in micro-pixels per millisecond.  With
//! those units every constant of the game is an integer.

use vstd::prelude::*;

verus! {

/// Micro-pixels per pixel.
pub const SCALE: i64 = 1_000_000;

/// Width of the player paddle.
pub const PLAYER_W: i64 = 80 * SCALE;

/// Height of the player paddle.
pub const PLAYER_H: i64 = 18 * SCALE;

/// Vertical position of the paddle's top edge.
pub const PLAYER_Y: i64 = 560 * SCALE;

/// Horizontal speed the paddle's velocity is clamped to (520 pixels per second).
pub const PLAYER_SPEED_MAX: i64 = 520_000;

/// Acceleration while a direction is held (2400 pixels per second squared).
pub const PLAYER_ACC: i64 = 2_400;

/// Numerator of the per-millisecond velocity decay factor applied while no
/// direction is held.
pub const PLAYER_DECAY_NUM: i64 = 9_992;

/// Denominator of the per-millisecond velocity decay factor.
pub const PLAYER_DECAY_DEN: i64 = 10_000;

/// How far the player hitbox is inset on each horizontal side relative to the
/// sprite rectangle (hit-box forgiveness).
pub const HITBOX_INSET: i64 = 6 * SCALE;

/// Smallest obstacle side length.
pub const OB_MIN_SIZE: i64 = 22 * SCALE;

/// Largest obstacle side length.
pub const OB_MAX_SIZE: i64 = 60 * SCALE;

/// Fall speed of obstacles at the start of a round (140 pixels per second).
pub const OB_START_SPEED: i64 = 140_000;

/// Fall-speed gain of 18 pixels per second for each second of elapsed round
/// time: 18 micro-pixels per millisecond gained per elapsed millisecond, so
/// the speed grows by `elapsed_ms * OB_ACC_MUL`.
pub const OB_ACC_MUL: i64 = 18;

/// Obstacles spawn with a random per-mille factor on the current fall speed,
/// drawn from `[OB_SPEED_FRAC_MIN, OB_SPEED_FRAC_MAX]`.
pub const OB_SPEED_FRAC_MIN: i64 = 900;

/// Upper bound of the random per-mille fall-speed factor.
pub const OB_SPEED_FRAC_MAX: i64 = 1_300;

/// Vertical gap above the screen top at which obstacles appear.
pub const OB_SPAWN_GAP: i64 = 10 * SCALE;

/// Spawn interval of obstacles at the start of a round.
pub const SPAWN_BASE_INTERVAL_MS: i64 = 900;

/// Floor of the spawn interval.
pub const SPAWN_MIN_INTERVAL_MS: i64 = 250;

/// Fixed decrement applied to the base spawn interval after each spawn.
pub const SPAWN_INTERVAL_DECREMENT_MS: i64 = 20;

/// The base spawn interval also shrinks with elapsed round time, by one
/// millisecond per `SPAWN_ELAPSED_DIV` milliseconds elapsed.
pub const SPAWN_ELAPSED_DIV: i64 = 50;

/// Milliseconds between power-up spawn attempts.
pub const PU_SPAWN_INTERVAL_MS: i64 = 6_000;

/// Chance, in percent, that a spawn attempt produces a power-up.
pub const PU_CHANCE_PERCENT: i64 = 30;

/// Constant fall speed of power-ups (120 pixels per second), unaffected by the
/// difficulty curve.
pub const PU_FALL_SPEED: i64 = 120_000;

/// Side length of the square power-up sprite.
pub const PU_SIZE: i64 = 28 * SCALE;

/// Vertical gap above the screen top at which power-ups appear.
pub const PU_SPAWN_GAP: i64 = 8 * SCALE;

/// Duration of the slow effect; picking up another Slow refreshes to this
/// value rather than stacking.
pub const SLOW_DURATION_MS: i64 = 6_000;

/// Highest shield charge the player can hold.
pub const SHIELD_MAX: i64 = 3;

/// One score point accrues per this many milliseconds of play.
pub const SCORE_STEP_MS: i64 = 400;

/// Score saturates here so that the accumulator arithmetic can never
/// overflow; at one point per 0.4 s this is over twelve years of play.
pub const SCORE_CAP: i64 = 1_000_000_000;

/// Elapsed round time saturates here (about thirty years), keeping the
/// difficulty-curve arithmetic bounded.
pub const ELAPSED_CAP_MS: i64 = 1_000_000_000_000;

/// Shake magnitude set when the shield absorbs a hit (monotonic max).
pub const SHAKE_HIT: i64 = 4 * SCALE;

/// Shake magnitude set by a bomb (monotonic max).
pub const SHAKE_BOMB: i64 = 6 * SCALE;

/// Shake magnitude set when the round ends (unconditional).
pub const SHAKE_OVER: i64 = 10 * SCALE;

/// Shake decay per millisecond (60 units per second).
pub const SHAKE_DECAY: i64 = 60_000;

/// An entity whose top edge passes this far below the bottom of the screen is
/// recycled.
pub const SWEEP_EPS: i64 = 5 * SCALE;

/// Length of one fixed simulation tick.
pub const TICK_MS: i64 = 8;

/// Largest tick the update step accepts.
pub const MAX_TICK_MS: i64 = 1_000;

/// Widest screen the simulation accepts, in pixels.
pub const MAX_SCREEN_PX: i64 = 100_000;

/// Widest screen the simulation accepts, in micro-pixels.
pub const MAX_SCREEN: i64 = MAX_SCREEN_PX * SCALE;

/// Upper bound on the stored fall speed: `OB_START_SPEED` plus the gain over
/// a capped round, `ELAPSED_CAP_MS * OB_ACC_MUL`.
pub const FALL_SPEED_CAP: i64 = 18_000_000_140_000;

/// Upper bound on the fall speed of any live entity: the fall-speed cap times
/// the largest random per-mille factor, `FALL_SPEED_CAP * OB_SPEED_FRAC_MAX / 1000`.
pub const VY_CAP: i64 = 23_400_000_182_000;

} // verus!
