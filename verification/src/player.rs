//! Player controller: acceleration while a direction is held, exponential
//! decay toward zero while it is not, a velocity clamp, and a position clamp
//! against the screen edges.

use vstd::prelude::*;

use crate::config::{MAX_SCREEN, MAX_TICK_MS, PLAYER_ACC, PLAYER_DECAY_DEN, PLAYER_DECAY_NUM,
    PLAYER_SPEED_MAX, PLAYER_W};
use crate::geom::spec_clamp;

verus! {

/// The paddle: horizontal position of its left edge and horizontal velocity,
/// in micro-pixels and micro-pixels per millisecond.
#[derive(Clone, Copy, PartialEq, Eq, Structural, Debug)]
pub struct Player {
    pub x: i64,
    pub vx: i64,
}

/// The directional axis for the given held keys: left and right cancel out.
pub fn axis_from_keys(left_held: bool, right_held: bool) -> (a: i64)
    ensures
        a == (if left_held == right_held {
            0int
        } else if left_held {
            -1int
        } else {
            1int
        }),
        -1 <= a <= 1,
{
    let mut a: i64 = 0;
    if left_held {
        a = a - 1;
    }
    if right_held {
        a = a + 1;
    }
    a
}

/// One millisecond of velocity decay: the magnitude is multiplied by
/// `PLAYER_DECAY_NUM / PLAYER_DECAY_DEN`, rounding toward zero.
pub open spec fn decay_step(v: int) -> int {
    if v >= 0 {
        v * PLAYER_DECAY_NUM / PLAYER_DECAY_DEN as int
    } else {
        -((-v) * PLAYER_DECAY_NUM / PLAYER_DECAY_DEN as int)
    }
}

/// `n` milliseconds of velocity decay.
pub open spec fn decay_n(v: int, n: nat) -> int
    decreases n,
{
    if n == 0 {
        v
    } else {
        decay_step(decay_n(v, (n - 1) as nat))
    }
}

/// Decay never grows the magnitude of a velocity and never flips its sign.
pub proof fn lemma_decay_step_shrinks(v: int)
    ensures
        v >= 0 ==> 0 <= decay_step(v) <= v,
        v < 0 ==> v <= decay_step(v) <= 0,
{
    if v >= 0 {
        assert(v * PLAYER_DECAY_NUM <= v * PLAYER_DECAY_DEN) by (nonlinear_arith)
            requires v >= 0;
        assert(0 <= v * PLAYER_DECAY_NUM) by (nonlinear_arith)
            requires v >= 0;
        assert(v * PLAYER_DECAY_NUM / PLAYER_DECAY_DEN as int <= v * PLAYER_DECAY_DEN
            / PLAYER_DECAY_DEN as int) by {
            vstd::arithmetic::div_mod::lemma_div_is_ordered(
                v * PLAYER_DECAY_NUM,
                v * PLAYER_DECAY_DEN,
                PLAYER_DECAY_DEN as int,
            );
        }
        assert(v * PLAYER_DECAY_DEN / PLAYER_DECAY_DEN as int == v) by (nonlinear_arith)
            requires v >= 0;
        assert(v * PLAYER_DECAY_NUM / PLAYER_DECAY_DEN as int >= 0) by {
            vstd::arithmetic::div_mod::lemma_div_pos_is_pos(
                v * PLAYER_DECAY_NUM,
                PLAYER_DECAY_DEN as int,
            );
        }
    } else {
        let m = -v;
        assert(m * PLAYER_DECAY_NUM <= m * PLAYER_DECAY_DEN) by (nonlinear_arith)
            requires m >= 0;
        assert(0 <= m * PLAYER_DECAY_NUM) by (nonlinear_arith)
            requires m >= 0;
        assert(m * PLAYER_DECAY_NUM / PLAYER_DECAY_DEN as int <= m * PLAYER_DECAY_DEN
            / PLAYER_DECAY_DEN as int) by {
            vstd::arithmetic::div_mod::lemma_div_is_ordered(
                m * PLAYER_DECAY_NUM,
                m * PLAYER_DECAY_DEN,
                PLAYER_DECAY_DEN as int,
            );
        }
        assert(m * PLAYER_DECAY_DEN / PLAYER_DECAY_DEN as int == m) by (nonlinear_arith)
            requires m >= 0;
        assert(m * PLAYER_DECAY_NUM / PLAYER_DECAY_DEN as int >= 0) by {
            vstd::arithmetic::div_mod::lemma_div_pos_is_pos(
                m * PLAYER_DECAY_NUM,
                PLAYER_DECAY_DEN as int,
            );
        }
    }
}

/// Applies `n` milliseconds of velocity decay to `v`.
pub fn apply_decay(v: i64, n: i64) -> (r: i64)
    requires
        0 <= n,
        -PLAYER_SPEED_MAX <= v <= PLAYER_SPEED_MAX,
    ensures
        r == decay_n(v as int, n as nat),
        -PLAYER_SPEED_MAX <= r <= PLAYER_SPEED_MAX,
{
    let mut r: i64 = v;
    let mut i: i64 = 0;
    while i < n
        invariant
            0 <= i <= n,
            -PLAYER_SPEED_MAX <= r <= PLAYER_SPEED_MAX,
            r == decay_n(v as int, i as nat),
        decreases n - i,
    {
        proof {
            lemma_decay_step_shrinks(r as int);
        }
        if r >= 0 {
            r = r * PLAYER_DECAY_NUM / PLAYER_DECAY_DEN;
        } else {
            r = -((-r) * PLAYER_DECAY_NUM / PLAYER_DECAY_DEN);
        }
        i = i + 1;
    }
    r
}

/// The velocity after one tick: acceleration if a direction is held, decay
/// otherwise, then the clamp to `[-PLAYER_SPEED_MAX, PLAYER_SPEED_MAX]`.
pub open spec fn spec_vx_after(vx: int, axis: int, dt: int) -> int {
    let raw = if axis != 0 {
        vx + axis * PLAYER_ACC * dt
    } else {
        decay_n(vx, dt as nat)
    };
    spec_clamp(raw, -PLAYER_SPEED_MAX as int, PLAYER_SPEED_MAX as int)
}

/// The position after one tick: the velocity integrated over the tick, then
/// the clamp to `[0, w - PLAYER_W]`.
pub open spec fn spec_x_after(x: int, vx: int, dt: int, w: int) -> int {
    spec_clamp(x + vx * dt, 0, w - PLAYER_W)
}

/// Wherever the paddle was and however fast it moved, one step leaves it
/// within `[0, w - PLAYER_W]`.
pub proof fn lemma_player_stays_in_bounds(x: int, vx: int, dt: int, w: int)
    requires
        PLAYER_W <= w,
    ensures
        0 <= spec_x_after(x, vx, dt, w) <= w - PLAYER_W,
{
}

/// Advances the paddle by one tick of `dt` milliseconds under directional
/// input `axis`, clamping the velocity and then the position.  Clamping at a
/// screen edge does not zero the velocity.
pub fn player_step(p: &mut Player, axis: i64, w_upx: i64, dt: i64)
    requires
        -1 <= axis <= 1,
        0 <= dt <= MAX_TICK_MS,
        PLAYER_W <= w_upx <= MAX_SCREEN,
        -PLAYER_SPEED_MAX <= old(p).vx <= PLAYER_SPEED_MAX,
        -MAX_SCREEN <= old(p).x <= MAX_SCREEN,
    ensures
        final(p).vx == spec_vx_after(old(p).vx as int, axis as int, dt as int),
        final(p).x == spec_x_after(old(p).x as int, final(p).vx as int, dt as int, w_upx as int),
        -PLAYER_SPEED_MAX <= final(p).vx <= PLAYER_SPEED_MAX,
        0 <= final(p).x <= w_upx - PLAYER_W,
{
    assert(-PLAYER_ACC * MAX_TICK_MS <= axis * PLAYER_ACC * dt <= PLAYER_ACC * MAX_TICK_MS)
        by (nonlinear_arith)
        requires -1 <= axis <= 1 && 0 <= dt <= MAX_TICK_MS;
    let raw: i64 = if axis != 0 {
        p.vx + axis * PLAYER_ACC * dt
    } else {
        apply_decay(p.vx, dt)
    };
    p.vx = crate::geom::clamp_i64(raw, -PLAYER_SPEED_MAX, PLAYER_SPEED_MAX);
    assert(-PLAYER_SPEED_MAX * MAX_TICK_MS <= p.vx * dt <= PLAYER_SPEED_MAX * MAX_TICK_MS)
        by (nonlinear_arith)
        requires -PLAYER_SPEED_MAX <= p.vx <= PLAYER_SPEED_MAX && 0 <= dt <= MAX_TICK_MS;
    p.x = crate::geom::clamp_i64(p.x + p.vx * dt, 0, w_upx - PLAYER_W);
}

} // verus!
