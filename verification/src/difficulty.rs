//! Difficulty curve: the fall speed of newly spawned obstacles grows with
//! elapsed round time, and the spawn interval shrinks with it; an active Slow
//! effect halves the speed and doubles the effective interval.

use vstd::prelude::*;

use crate::config::{ELAPSED_CAP_MS, FALL_SPEED_CAP, OB_ACC_MUL, OB_START_SPEED,
    SPAWN_BASE_INTERVAL_MS, SPAWN_ELAPSED_DIV, SPAWN_MIN_INTERVAL_MS};

verus! {

/// Fall speed for newly spawned obstacles after `elapsed` milliseconds of
/// round time, halved while a Slow effect is active.
pub open spec fn spec_fall_speed(elapsed: int, slowed: bool) -> int {
    let raw = OB_START_SPEED + elapsed * OB_ACC_MUL;
    if slowed {
        raw / 2
    } else {
        raw
    }
}

/// Effective spawn interval: the base interval less one millisecond per
/// `SPAWN_ELAPSED_DIV` elapsed milliseconds, doubled while slowed, floored at
/// `SPAWN_MIN_INTERVAL_MS`.
pub open spec fn spec_spawn_interval(base: int, elapsed: int, slowed: bool) -> int {
    let raw = base - elapsed / (SPAWN_ELAPSED_DIV as int);
    let scaled = if slowed {
        raw * 2
    } else {
        raw
    };
    if scaled < SPAWN_MIN_INTERVAL_MS {
        SPAWN_MIN_INTERVAL_MS as int
    } else {
        scaled
    }
}

/// Computes the current fall speed and effective spawn interval.
pub fn difficulty_curve(elapsed: i64, base: i64, slowed: bool) -> (r: (i64, i64))
    requires
        0 <= elapsed <= ELAPSED_CAP_MS,
        SPAWN_MIN_INTERVAL_MS <= base <= SPAWN_BASE_INTERVAL_MS,
    ensures
        r.0 == spec_fall_speed(elapsed as int, slowed),
        r.1 == spec_spawn_interval(base as int, elapsed as int, slowed),
        0 <= r.0 <= FALL_SPEED_CAP,
        SPAWN_MIN_INTERVAL_MS <= r.1 <= 2 * SPAWN_BASE_INTERVAL_MS,
{
    proof {
        vstd::arithmetic::div_mod::lemma_div_pos_is_pos(elapsed as int, SPAWN_ELAPSED_DIV as int);
    }
    let raw_fall = OB_START_SPEED + elapsed * OB_ACC_MUL;
    let fall = if slowed {
        raw_fall / 2
    } else {
        raw_fall
    };
    let raw_itv = base - elapsed / SPAWN_ELAPSED_DIV;
    let scaled = if slowed {
        raw_itv * 2
    } else {
        raw_itv
    };
    let itv = if scaled < SPAWN_MIN_INTERVAL_MS {
        SPAWN_MIN_INTERVAL_MS
    } else {
        scaled
    };
    (fall, itv)
}

} // verus!
